//! The `Typed` trait: Rust types whose values convert to and from jsonnet
//! values.
use vstd::prelude::*;
use crate::check::check_spec;
use crate::types::{ComplexValType, Error};
use crate::val::{reversed, ObjField, ObjValue, ObjValueBuilder, Val};

verus! {

/// A Rust type whose values stand for the jsonnet values of one type.
///
/// Each implementation describes, over spec functions of its own, what its
/// conversions do: `into_ok`, `into_val` and `into_err` for
/// `into_untyped`; `from_pre`, `from_ok`, `from_val` and `from_err` for
/// `from_untyped`.
pub trait Typed: Sized {
    /// The type of the jsonnet values that stand for values of `Self`.
    spec fn val_type() -> ComplexValType;

    /// The description of `val_type`, built at run time.
    fn type_desc() -> (t: ComplexValType)
        ensures
            t == Self::val_type(),
    ;

    /// `into_untyped` succeeds on `typed`.
    spec fn into_ok(typed: Self) -> bool;

    /// `v` is the jsonnet value that `into_untyped` gives for `typed`.
    spec fn into_val(typed: Self, v: Val) -> bool;

    /// The error of `into_untyped` on `typed`, where it fails.
    spec fn into_err(typed: Self) -> Error;

    /// `into_untyped` is defined on `typed`.
    spec fn into_pre(typed: Self) -> bool;

    /// The jsonnet value that stands for `typed`.
    fn into_untyped(typed: Self) -> (r: Result<Val, Error>)
        requires
            Self::into_pre(typed),
        ensures
            r is Ok <==> Self::into_ok(typed),
            r matches Ok(v) ==> Self::into_val(typed, v),
            r matches Err(e) ==> e == Self::into_err(typed),
    ;

    /// `from_untyped` is defined on `untyped`.
    spec fn from_pre(untyped: Val) -> bool;

    /// `from_untyped` succeeds on `untyped`.
    spec fn from_ok(untyped: Val) -> bool;

    /// `typed` is the value that `from_untyped` gives for `untyped`.
    spec fn from_val(untyped: Val, typed: Self) -> bool;

    /// The error of `from_untyped` on `untyped`, where it fails.
    spec fn from_err(untyped: Val) -> Error;

    /// The value of `Self` that the jsonnet value `untyped` stands for.
    fn from_untyped(untyped: Val) -> (r: Result<Self, Error>)
        requires
            Self::from_pre(untyped),
        ensures
            r is Ok <==> Self::from_ok(untyped),
            r matches Ok(x) ==> Self::from_val(untyped, x),
            r matches Err(e) ==> e == Self::from_err(untyped),
    ;

    /// `typed` is a value that the type stands for: its jsonnet value has
    /// the type `val_type`, and reading that value back gives `typed`.
    spec fn inhabits(typed: Self) -> bool;

    /// `a` and `b` are the same value.
    spec fn same(a: Self, b: Self) -> bool;

    /// The jsonnet value of a value that the type stands for has the type
    /// `val_type`.
    proof fn lemma_into_checked(typed: Self, untyped: Val)
        requires
            Self::inhabits(typed),
        ensures
            Self::into_ok(typed) && Self::into_val(typed, untyped) ==> check_spec(
                Self::val_type(),
                untyped,
            ) is Ok,
    ;

    /// Reading back the jsonnet value of a value that the type stands for
    /// gives that value again.
    proof fn lemma_round_trip(typed: Self, untyped: Val)
        requires
            Self::inhabits(typed),
        ensures
            Self::into_ok(typed) && Self::into_val(typed, untyped) ==> {
                &&& Self::from_pre(untyped)
                &&& Self::from_ok(untyped)
                &&& forall|back: Self| #[trigger] Self::from_val(untyped, back) ==> Self::same(back, typed)
            },
    ;
}

/// A Rust type whose values stand for jsonnet objects, field by field.
pub trait TypedObj: Typed {
    /// The fields that `serialize` leaves after `before`, or its error.
    spec fn serialized(self, before: Seq<ObjField>) -> Result<Seq<ObjField>, Error>;

    /// Adds the fields of `self` to `out`.
    fn serialize(self, out: &mut ObjValueBuilder) -> (r: Result<(), Error>)
        ensures
            match Self::serialized(self, old(out)@) {
                Ok(fields) => r is Ok && final(out)@ == fields,
                Err(e) => r == Err::<(), Error>(e),
            },
    ;

    /// `parse` succeeds on `obj`.
    spec fn parse_ok(obj: ObjValue) -> bool;

    /// `typed` is the value that `parse` gives for `obj`.
    spec fn parse_val(obj: ObjValue, typed: Self) -> bool;

    /// The error of `parse` on `obj`, where it fails.
    spec fn parse_err(obj: ObjValue) -> Error;

    /// The value of `Self` that the object stands for.
    fn parse(obj: &ObjValue) -> (r: Result<Self, Error>)
        ensures
            r is Ok <==> Self::parse_ok(*obj),
            r matches Ok(x) ==> Self::parse_val(*obj, x),
            r matches Err(e) ==> e == Self::parse_err(*obj),
    ;

    /// Parsing the object of the fields of a value that the type stands for
    /// gives that value again.
    proof fn lemma_parse_object(typed: Self, obj: ObjValue)
        requires
            Self::inhabits(typed),
        ensures
            Self::serialized(typed, Seq::empty()) matches Ok(fields) && obj.fields@ == fields ==> {
                &&& Self::parse_ok(obj)
                &&& forall|back: Self| #[trigger] Self::parse_val(obj, back) ==> Self::same(back, typed)
            },
    ;

    /// The object of the fields of `self`.
    fn into_object(self) -> (r: Result<ObjValue, Error>)
        ensures
            match Self::serialized(self, Seq::empty()) {
                Ok(fields) => r matches Ok(obj) && obj.fields@ == fields,
                Err(e) => r == Err::<ObjValue, Error>(e),
            },
    {
        let mut builder = ObjValueBuilder::new();
        match self.serialize(&mut builder) {
            Ok(()) => Ok(builder.build()),
            Err(e) => Err(e),
        }
    }
}

/// The index of the first value of `s`, from `i` on, that `T` does not
/// convert, or the length of `s`.
pub open spec fn first_from_failure<T: Typed>(s: Seq<Val>, i: int) -> int
    decreases s.len() - i,
{
    if i < 0 || i >= s.len() {
        s.len() as int
    } else if !T::from_ok(s[i]) {
        i
    } else {
        first_from_failure::<T>(s, i + 1)
    }
}

/// The index of the first value of `s`, from `i` on, that `T` does not
/// convert to a jsonnet value, or the length of `s`.
pub open spec fn first_into_failure<T: Typed>(s: Seq<T>, i: int) -> int
    decreases s.len() - i,
{
    if i < 0 || i >= s.len() {
        s.len() as int
    } else if !T::into_ok(s[i]) {
        i
    } else {
        first_into_failure::<T>(s, i + 1)
    }
}

/// The first failure lies at or after `i`, and at a failing index where
/// there is one.
pub proof fn lemma_first_from_failure<T: Typed>(s: Seq<Val>, i: int)
    requires
        0 <= i <= s.len(),
    ensures
        i <= first_from_failure::<T>(s, i) <= s.len(),
        first_from_failure::<T>(s, i) < s.len() ==> !T::from_ok(s[first_from_failure::<T>(s, i)]),
        first_from_failure::<T>(s, i) == s.len() <==> (forall|j: int| i <= j < s.len() ==> T::from_ok(#[trigger] s[j])),
    decreases s.len() - i,
{
    if i < s.len() {
        lemma_first_from_failure::<T>(s, i + 1);
    }
}

/// The first failure lies at or after `i`, and at a failing index where
/// there is one.
pub proof fn lemma_first_into_failure<T: Typed>(s: Seq<T>, i: int)
    requires
        0 <= i <= s.len(),
    ensures
        i <= first_into_failure::<T>(s, i) <= s.len(),
        first_into_failure::<T>(s, i) < s.len() ==> !T::into_ok(s[first_into_failure::<T>(s, i)]),
        first_into_failure::<T>(s, i) == s.len() <==> (forall|j: int| i <= j < s.len() ==> T::into_ok(#[trigger] s[j])),
    decreases s.len() - i,
{
    if i < s.len() {
        lemma_first_into_failure::<T>(s, i + 1);
    }
}

/// Converts each jsonnet value of `vals` in order; the first failure ends
/// the conversion.
pub fn convert_all<T: Typed>(vals: Vec<Val>) -> (r: Result<Vec<T>, Error>)
    requires
        forall|i: int| 0 <= i < vals@.len() ==> T::from_pre(#[trigger] vals@[i]),
    ensures
        r is Ok <==> (forall|i: int| 0 <= i < vals@.len() ==> T::from_ok(#[trigger] vals@[i])),
        r matches Ok(xs) ==> xs@.len() == vals@.len() && (forall|i: int|
            0 <= i < vals@.len() ==> T::from_val(#[trigger] vals@[i], xs@[i])),
        r matches Err(e) ==> e == T::from_err(vals@[first_from_failure::<T>(vals@, 0)]),
{
    let ghost s = vals@;
    let n = vals.len();
    let mut rest = reversed(vals);
    let mut out: Vec<T> = Vec::new();
    let mut i: usize = 0;
    proof {
        lemma_first_from_failure::<T>(s, 0);
    }
    while i < n
        invariant
            s == vals@,
            n == s.len(),
            i <= n,
            forall|j: int| 0 <= j < s.len() ==> T::from_pre(#[trigger] s[j]),
            rest@ == s.subrange(i as int, n as int).reverse(),
            out@.len() == i,
            forall|j: int| 0 <= j < i ==> T::from_ok(#[trigger] s[j]),
            forall|j: int| 0 <= j < i ==> T::from_val(#[trigger] s[j], out@[j]),
            first_from_failure::<T>(s, 0) == first_from_failure::<T>(s, i as int),
        decreases n - i,
    {
        proof {
            assert(s.subrange(i as int, n as int).reverse().last() == s[i as int]);
        }
        let x = rest.pop().unwrap();
        proof {
            assert(rest@ =~= s.subrange(i + 1, n as int).reverse());
        }
        match T::from_untyped(x) {
            Err(e) => {
                proof {
                    assert(first_from_failure::<T>(s, i as int) == i);
                }
                return Err(e);
            },
            Ok(y) => {
                out.push(y);
                i = i + 1;
            },
        }
    }
    proof {
        lemma_first_from_failure::<T>(s, 0);
    }
    Ok(out)
}

/// Converts each value of `xs` to a jsonnet value in order; the first
/// failure ends the conversion.
pub fn untype_all<T: Typed>(xs: Vec<T>) -> (r: Result<Vec<Val>, Error>)
    requires
        forall|i: int| 0 <= i < xs@.len() ==> T::into_pre(#[trigger] xs@[i]),
    ensures
        r is Ok <==> (forall|i: int| 0 <= i < xs@.len() ==> T::into_ok(#[trigger] xs@[i])),
        r matches Ok(vals) ==> vals@.len() == xs@.len() && (forall|i: int|
            0 <= i < xs@.len() ==> T::into_val(#[trigger] xs@[i], vals@[i])),
        r matches Err(e) ==> e == T::into_err(xs@[first_into_failure::<T>(xs@, 0)]),
{
    let ghost s = xs@;
    let n = xs.len();
    let mut rest = reversed(xs);
    let mut out: Vec<Val> = Vec::new();
    let mut i: usize = 0;
    proof {
        lemma_first_into_failure::<T>(s, 0);
    }
    while i < n
        invariant
            s == xs@,
            forall|j: int| 0 <= j < s.len() ==> T::into_pre(#[trigger] s[j]),
            n == s.len(),
            i <= n,
            rest@ == s.subrange(i as int, n as int).reverse(),
            out@.len() == i,
            forall|j: int| 0 <= j < i ==> T::into_ok(#[trigger] s[j]),
            forall|j: int| 0 <= j < i ==> T::into_val(#[trigger] s[j], out@[j]),
            first_into_failure::<T>(s, 0) == first_into_failure::<T>(s, i as int),
        decreases n - i,
    {
        proof {
            assert(s.subrange(i as int, n as int).reverse().last() == s[i as int]);
        }
        let x = rest.pop().unwrap();
        proof {
            assert(rest@ =~= s.subrange(i + 1, n as int).reverse());
        }
        match T::into_untyped(x) {
            Err(e) => {
                proof {
                    assert(first_into_failure::<T>(s, i as int) == i);
                }
                return Err(e);
            },
            Ok(v) => {
                out.push(v);
                i = i + 1;
            },
        }
    }
    proof {
        lemma_first_into_failure::<T>(s, 0);
    }
    Ok(out)
}

} // verus!
