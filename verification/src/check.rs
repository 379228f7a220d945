//! Checking a value against a type description.
use vstd::prelude::*;
use vstd::string::StrSliceExecFns;
use crate::interned::{ibytes_as_slice, istr_as_str, istr_chars};
use crate::number::Number;
use crate::types::{copy_error, copy_type, ComplexValType, Error, ErrorList, TypeList, ValType};
use crate::val::{ArrValue, Val};

verus! {

/// The outcome of checking `v` against `ty`.
///
/// Array elements are evaluated and checked in order; the first failed
/// evaluation or the first element of the wrong type ends the check. A
/// union accepts the value when one of its members does, trying them in
/// order; where none does, it reports each member's type error.
pub open spec fn check_spec(ty: ComplexValType, v: Val) -> Result<(), Error>
    decreases ty, 0int,
{
    match ty {
        ComplexValType::Any => Ok(()),
        ComplexValType::Simple(k) => {
            if v.kind() == k {
                Ok(())
            } else {
                Err(Error::ExpectedGot(ty, v.kind()))
            }
        },
        ComplexValType::Char => {
            if v matches Val::Str(s) && istr_chars(s).len() == 1 {
                Ok(())
            } else {
                Err(Error::ExpectedGot(ty, v.kind()))
            }
        },
        ComplexValType::BoundedNumber(lo, hi) => match v {
            Val::Num(n) => if n.within(lo, hi) {
                Ok(())
            } else {
                Err(Error::BoundsFailed(n, lo, hi))
            },
            _ => Err(Error::ExpectedGot(ty, v.kind())),
        },
        ComplexValType::Array(elem) => match v {
            Val::Arr(a) => check_elems_spec(*elem, a.elems(), 0),
            _ => Err(Error::ExpectedGot(ty, v.kind())),
        },
        ComplexValType::Union(members) => match check_members_spec(members, v) {
            Ok(()) => Ok(()),
            Err(Ok(errors)) => Err(Error::UnionFailed(ty, errors)),
            Err(Err(e)) => Err(e),
        },
    }
}

/// `ty` refuses `v` with a type error (and not a failed evaluation).
pub open spec fn refuses(ty: ComplexValType, v: Val) -> bool {
    check_spec(ty, v) matches Err(e) && e.is_type_error()
}

/// The outcome of checking the elements from index `i` on against `ty`.
pub open spec fn check_elems_spec(ty: ComplexValType, elems: Seq<Result<Val, Error>>, i: int) -> Result<(), Error>
    decreases ty, elems.len() - i,
{
    if i < 0 || i >= elems.len() {
        Ok(())
    } else {
        match elems[i] {
            Err(e) => Err(e),
            Ok(x) => match check_spec(ty, x) {
                Ok(()) => check_elems_spec(ty, elems, i + 1),
                Err(e) => if e.is_type_error() {
                    Err(Error::AtIndex(i as usize, Box::new(e)))
                } else {
                    Err(e)
                },
            },
        }
    }
}

/// Checks `v` against each member in order: `Ok` when one accepts it;
/// else the members' type errors, or the first error that is not a type
/// error.
pub open spec fn check_members_spec(members: TypeList, v: Val) -> Result<(), Result<ErrorList, Error>>
    decreases members, 0int,
{
    match members {
        TypeList::Nil => Err(Ok(ErrorList::Nil)),
        TypeList::Cons(t, rest) => match check_spec(*t, v) {
            Ok(()) => Ok(()),
            Err(e) => if e.is_type_error() {
                match check_members_spec(*rest, v) {
                    Ok(()) => Ok(()),
                    Err(Ok(es)) => Err(Ok(ErrorList::Cons(Box::new(e), Box::new(es)))),
                    Err(Err(f)) => Err(Err(f)),
                }
            } else {
                Err(Err(e))
            },
        },
    }
}

/// The elements that an array check accepted all evaluated, each to a
/// value of the element type.
pub proof fn lemma_checked_elems(ty: ComplexValType, elems: Seq<Result<Val, Error>>, i: int)
    requires
        0 <= i <= elems.len(),
        check_elems_spec(ty, elems, i) is Ok,
    ensures
        forall|j: int|
            i <= j < elems.len() ==> (#[trigger] elems[j]) is Ok && check_spec(ty, elems[j]->Ok_0) is Ok,
    decreases elems.len() - i,
{
    if i < elems.len() {
        lemma_checked_elems(ty, elems, i + 1);
    }
}

/// An array whose elements all evaluated, each to a value of the element
/// type, passes the array check.
pub proof fn lemma_all_checked(ty: ComplexValType, elems: Seq<Result<Val, Error>>, i: int)
    requires
        0 <= i <= elems.len(),
        forall|j: int|
            i <= j < elems.len() ==> (#[trigger] elems[j]) is Ok && check_spec(ty, elems[j]->Ok_0) is Ok,
    ensures
        check_elems_spec(ty, elems, i) is Ok,
    decreases elems.len() - i,
{
    if i < elems.len() {
        lemma_all_checked(ty, elems, i + 1);
    }
}

/// The member types of a union, in order.
pub open spec fn members_seq(members: TypeList) -> Seq<ComplexValType>
    decreases members,
{
    match members {
        TypeList::Nil => Seq::empty(),
        TypeList::Cons(t, rest) => seq![*t] + members_seq(*rest),
    }
}

/// The type of every value accepts every value.
pub proof fn law_any_check(v: Val)
    ensures
        check_spec(ComplexValType::Any, v) == Ok::<(), Error>(()),
{
}

/// A type of one kind accepts exactly the values of that kind, and refuses
/// a value of another kind naming that kind.
pub proof fn law_simple_check(k: ValType, v: Val)
    ensures
        check_spec(ComplexValType::Simple(k), v) is Ok <==> v.kind() == k,
        v.kind() != k ==> check_spec(ComplexValType::Simple(k), v) == Err::<(), Error>(
            Error::ExpectedGot(ComplexValType::Simple(k), v.kind()),
        ),
{
}

/// The character type accepts exactly the strings of one character.
pub proof fn law_char_check(v: Val)
    ensures
        check_spec(ComplexValType::Char, v) is Ok <==> (v matches Val::Str(s) && istr_chars(s).len() == 1),
{
}

/// A bounded number type accepts exactly the numbers that lie within its
/// bounds, whatever their form; it refuses a number outside them naming
/// the number and the bounds, and a value of another kind as such.
pub proof fn law_bounded_check(lo: Option<i128>, hi: Option<i128>, v: Val)
    ensures
        check_spec(ComplexValType::BoundedNumber(lo, hi), v) is Ok <==> (v matches Val::Num(n) && n.within(lo, hi)),
        v matches Val::Num(n) ==> (!n.within(lo, hi) ==> check_spec(ComplexValType::BoundedNumber(lo, hi), v)
            == Err::<(), Error>(Error::BoundsFailed(n, lo, hi))),
        !(v is Num) ==> check_spec(ComplexValType::BoundedNumber(lo, hi), v) == Err::<(), Error>(
            Error::ExpectedGot(ComplexValType::BoundedNumber(lo, hi), v.kind()),
        ),
{
}

/// Two forms of one value pass or fail a bound check together: the check
/// depends on the value of the number alone.
pub proof fn law_bounded_check_value(lo: Option<i128>, hi: Option<i128>, n: Number, m: Number)
    requires
        n.numer() * m.denom() == m.numer() * n.denom(),
    ensures
        check_spec(ComplexValType::BoundedNumber(lo, hi), Val::Num(n)) is Ok
            == check_spec(ComplexValType::BoundedNumber(lo, hi), Val::Num(m)) is Ok,
{
    n.lemma_denom_pos();
    m.lemma_denom_pos();
    let (nn, nd, mn, md) = (n.numer(), n.denom(), m.numer(), m.denom());
    assert forall|b: int| n.ge_int(b) == m.ge_int(b) by {
        assert((nn >= b * nd) == (mn >= b * md)) by (nonlinear_arith)
            requires
                nn * md == mn * nd,
                nd > 0,
                md > 0,
        ;
    }
    assert forall|b: int| n.le_int(b) == m.le_int(b) by {
        assert((nn <= b * nd) == (mn <= b * md)) by (nonlinear_arith)
            requires
                nn * md == mn * nd,
                nd > 0,
                md > 0,
        ;
    }
}

/// An array type accepts exactly the arrays all of whose elements evaluate,
/// each to a value of the element type.
pub proof fn law_array_check(elem: ComplexValType, v: Val)
    ensures
        check_spec(ComplexValType::Array(Box::new(elem)), v) is Ok <==> (v matches Val::Arr(a) && forall|j: int|
            0 <= j < a.elems().len() ==> (#[trigger] a.elems()[j]) is Ok && check_spec(
                elem,
                a.elems()[j]->Ok_0,
            ) is Ok),
{
    if let Val::Arr(a) = v {
        if check_spec(ComplexValType::Array(Box::new(elem)), v) is Ok {
            lemma_checked_elems(elem, a.elems(), 0);
        }
        if forall|j: int|
            0 <= j < a.elems().len() ==> (#[trigger] a.elems()[j]) is Ok && check_spec(
                elem,
                a.elems()[j]->Ok_0,
            ) is Ok {
            lemma_all_checked(elem, a.elems(), 0);
        }
    }
}

/// A union accepts a value exactly when some member accepts it and every
/// member before that one refuses it with a type error.
pub proof fn law_union_check(members: TypeList, v: Val)
    ensures
        check_spec(ComplexValType::Union(members), v) is Ok <==> exists|i: int|
            0 <= i < members_seq(members).len() && check_spec(#[trigger] members_seq(members)[i], v) is Ok
                && forall|j: int| 0 <= j < i ==> refuses(#[trigger] members_seq(members)[j], v),
{
    lemma_members_check(members, v);
}

proof fn lemma_members_check(members: TypeList, v: Val)
    ensures
        check_members_spec(members, v) is Ok <==> exists|i: int|
            0 <= i < members_seq(members).len() && check_spec(#[trigger] members_seq(members)[i], v) is Ok
                && forall|j: int| 0 <= j < i ==> refuses(#[trigger] members_seq(members)[j], v),
    decreases members,
{
    match members {
        TypeList::Nil => {},
        TypeList::Cons(t, rest) => {
            lemma_members_check(*rest, v);
            let s = members_seq(members);
            let r = members_seq(*rest);
            assert(s == seq![*t] + r);
            assert(s[0] == *t);
            assert forall|i: int| 0 <= i < r.len() implies s[i + 1] == r[i] by {}
            if check_spec(*t, v) is Ok {
                assert(check_spec(s[0], v) is Ok);
            } else if refuses(*t, v) {
                if check_members_spec(*rest, v) is Ok {
                    let i = choose|i: int|
                        0 <= i < r.len() && check_spec(#[trigger] r[i], v) is Ok && forall|j: int|
                            0 <= j < i ==> refuses(#[trigger] r[j], v);
                    assert(check_spec(s[i + 1], v) is Ok);
                    assert forall|j: int| 0 <= j < i + 1 implies refuses(#[trigger] s[j], v) by {
                        if j > 0 {
                            assert(s[j] == r[j - 1]);
                        }
                    }
                } else {
                    if exists|i: int|
                        0 <= i < s.len() && check_spec(#[trigger] s[i], v) is Ok && forall|j: int|
                            0 <= j < i ==> refuses(#[trigger] s[j], v) {
                        let i = choose|i: int|
                            0 <= i < s.len() && check_spec(#[trigger] s[i], v) is Ok && forall|j: int|
                                0 <= j < i ==> refuses(#[trigger] s[j], v);
                        assert(i > 0);
                        assert(check_spec(r[i - 1], v) is Ok);
                        assert forall|j: int| 0 <= j < i - 1 implies refuses(#[trigger] r[j], v) by {
                            assert(refuses(s[j + 1], v));
                        }
                        assert(false);
                    }
                }
            } else {
                if exists|i: int|
                    0 <= i < s.len() && check_spec(#[trigger] s[i], v) is Ok && forall|j: int|
                        0 <= j < i ==> refuses(#[trigger] s[j], v) {
                    let i = choose|i: int|
                        0 <= i < s.len() && check_spec(#[trigger] s[i], v) is Ok && forall|j: int|
                            0 <= j < i ==> refuses(#[trigger] s[j], v);
                    if i > 0 {
                        assert(refuses(s[0], v));
                    }
                    assert(false);
                }
            }
        },
    }
}

/// Checks `v` against `ty`.
pub fn check(ty: &ComplexValType, v: &Val) -> (r: Result<(), Error>)
    ensures
        r == check_spec(*ty, *v),
    decreases ty, 0int,
{
    match ty {
        ComplexValType::Any => Ok(()),
        ComplexValType::Simple(k) => {
            let got = v.value_type();
            if got == *k {
                Ok(())
            } else {
                Err(Error::ExpectedGot(copy_type(ty), got))
            }
        },
        ComplexValType::Char => {
            let got = v.value_type();
            match v {
                Val::Str(s) => {
                    if istr_as_str(s).unicode_len() == 1 {
                        Ok(())
                    } else {
                        Err(Error::ExpectedGot(copy_type(ty), got))
                    }
                },
                _ => Err(Error::ExpectedGot(copy_type(ty), got)),
            }
        },
        ComplexValType::BoundedNumber(lo, hi) => match v {
            Val::Num(n) => {
                if n.is_within(*lo, *hi) {
                    Ok(())
                } else {
                    Err(Error::BoundsFailed(*n, *lo, *hi))
                }
            },
            _ => Err(Error::ExpectedGot(copy_type(ty), v.value_type())),
        },
        ComplexValType::Array(elem) => match v {
            Val::Arr(a) => check_elems(elem, a),
            _ => Err(Error::ExpectedGot(copy_type(ty), v.value_type())),
        },
        ComplexValType::Union(members) => match check_members(members, v) {
            Ok(()) => Ok(()),
            Err(Ok(errors)) => Err(Error::UnionFailed(copy_type(ty), errors)),
            Err(Err(e)) => Err(e),
        },
    }
}

/// The error for the element at index `i` that failed the check with `e`.
fn at_index(i: usize, e: Error) -> (r: Error)
    ensures
        r == (if e.is_type_error() {
            Error::AtIndex(i, Box::new(e))
        } else {
            e
        }),
{
    if e.type_error() {
        Error::AtIndex(i, Box::new(e))
    } else {
        e
    }
}

/// Checks every element of `a` against `ty`.
fn check_elems(ty: &ComplexValType, a: &ArrValue) -> (r: Result<(), Error>)
    ensures
        r == check_elems_spec(*ty, a.elems(), 0),
    decreases ty, 1int,
{
    let ghost elems = a.elems();
    let n = a.len();
    let mut i: usize = 0;
    while i < n
        invariant
            n == elems.len(),
            elems == a.elems(),
            i <= n,
            check_elems_spec(*ty, elems, 0) == check_elems_spec(*ty, elems, i as int),
        decreases n - i,
    {
        let outcome = match a {
            ArrValue::Bytes(b) => {
                let bytes = ibytes_as_slice(b);
                let x = Val::Num(Number::from_u64(bytes[i] as u64));
                check(ty, &x)
            },
            ArrValue::Eager(v) => check(ty, &v[i]),
            ArrValue::Lazy(v) => match &v[i] {
                Ok(x) => check(ty, x),
                Err(e) => {
                    return Err(copy_error(e));
                },
            },
        };
        match outcome {
            Ok(()) => {},
            Err(e) => {
                return Err(at_index(i, e));
            },
        }
        i = i + 1;
    }
    Ok(())
}

/// Checks `v` against each member in order.
fn check_members(members: &TypeList, v: &Val) -> (r: Result<(), Result<ErrorList, Error>>)
    ensures
        r == check_members_spec(*members, *v),
    decreases members, 0int,
{
    match members {
        TypeList::Nil => Err(Ok(ErrorList::Nil)),
        TypeList::Cons(t, rest) => match check(t, v) {
            Ok(()) => Ok(()),
            Err(e) => {
                if e.type_error() {
                    match check_members(rest, v) {
                        Ok(()) => Ok(()),
                        Err(Ok(es)) => Err(Ok(ErrorList::Cons(Box::new(e), Box::new(es)))),
                        Err(Err(f)) => Err(Err(f)),
                    }
                } else {
                    Err(Err(e))
                }
            },
        },
    }
}

} // verus!
