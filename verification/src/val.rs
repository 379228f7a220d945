//! Untyped jsonnet values.
use vstd::prelude::*;
use std::rc::Rc;
use jrsonnet_interner::IBytes;
use jrsonnet_interner::IStr;
use crate::interned::{ibytes_as_slice, ibytes_bytes};
use crate::number::Number;
use crate::types::{Error, ValType};

verus! {

/// A jsonnet value.
#[derive(Debug, PartialEq)]
pub enum Val {
    Null,
    Bool(bool),
    Str(IStr),
    Num(Number),
    Arr(ArrValue),
    Obj(ObjValue),
    Func(FuncVal),
}

/// A jsonnet array.
#[derive(Debug, PartialEq)]
pub enum ArrValue {
    /// An array of bytes, each element being the number of its byte.
    Bytes(IBytes),
    /// An array whose elements are evaluated.
    Eager(Vec<Val>),
    /// An array whose elements are evaluated on access; each entry is the
    /// outcome of evaluating that element.
    Lazy(Vec<Result<Val, Error>>),
}

/// A jsonnet object: its fields in order.
#[derive(Debug, PartialEq)]
pub struct ObjValue {
    pub fields: Vec<ObjField>,
}

/// One field of an object.
#[derive(Debug, PartialEq)]
pub struct ObjField {
    pub name: IStr,
    pub value: Val,
}

/// Builds an object field by field.
pub struct ObjValueBuilder {
    fields: Vec<ObjField>,
}

impl View for ObjValueBuilder {
    type V = Seq<ObjField>;

    /// The fields added so far, in order.
    closed spec fn view(&self) -> Seq<ObjField> {
        self.fields@
    }
}

impl ObjValueBuilder {
    /// A builder with no fields.
    pub fn new() -> (r: ObjValueBuilder)
        ensures
            r@ == Seq::<ObjField>::empty(),
    {
        ObjValueBuilder { fields: Vec::new() }
    }

    /// Adds the field `name` with `value` after the others.
    pub fn field(&mut self, name: IStr, value: Val)
        ensures
            final(self)@ == old(self)@.push(ObjField { name, value }),
    {
        self.fields.push(ObjField { name, value });
    }

    /// The object of the fields added, in order.
    pub fn build(self) -> (r: ObjValue)
        ensures
            r.fields@ == self@,
    {
        ObjValue { fields: self.fields }
    }
}

/// A jsonnet function.
#[derive(Debug, PartialEq)]
pub enum FuncVal {
    /// The identity function.
    Id,
    /// A function defined in jsonnet.
    Normal(Rc<FuncDesc>),
    /// A builtin function, by name.
    Builtin(String),
}

/// A function defined in jsonnet: its name and its parameters' names.
#[derive(Debug, PartialEq)]
pub struct FuncDesc {
    pub name: String,
    pub params: Vec<String>,
}

/// A value that can be indexed: a string or an array.
#[derive(Debug, PartialEq)]
pub enum IndexableVal {
    Str(IStr),
    Arr(ArrValue),
}

/// The element of a byte array for the byte `b`.
pub open spec fn byte_val(b: u8) -> Val {
    Val::Num(Number { negative: false, mantissa: b as u64, exponent: 0 })
}

/// The element of a byte array for a byte is the number of that integer
/// value.
pub proof fn law_byte_val(b: u8)
    ensures
        byte_val(b) matches Val::Num(n) && n.is_integral() && n.trunc() == b as int && n.numer() == b as int
            && n.denom() == 1,
{
    crate::number::lemma_int_number(b as int);
    assert(crate::number::int_number(b as int) == Number { negative: false, mantissa: b as u64, exponent: 0 });
}

/// The elements of `s` in order where all of them evaluated, else the
/// first failure.
pub open spec fn eval_all(s: Seq<Result<Val, Error>>) -> Result<Seq<Val>, Error>
    decreases s.len(),
{
    if s.len() == 0 {
        Ok(Seq::empty())
    } else {
        match s[0] {
            Err(e) => Err(e),
            Ok(x) => match eval_all(s.drop_first()) {
                Ok(rest) => Ok(seq![x] + rest),
                Err(e) => Err(e),
            },
        }
    }
}

/// `r` is the result of `eval_all` with each element kept in a vector.
pub open spec fn vec_result_is(r: Result<Vec<Val>, Error>, s: Result<Seq<Val>, Error>) -> bool {
    match (r, s) {
        (Ok(w), Ok(t)) => w@ == t,
        (Err(e), Err(f)) => e == f,
        _ => false,
    }
}

/// Where every element evaluated, `eval_all` gives their values.
/// Evaluating the elements of an array succeeds exactly when every element
/// evaluated, and then gives their values in order; where it fails, it
/// gives the error of the first element that did not evaluate.
pub proof fn law_eval_all(s: Seq<Result<Val, Error>>)
    ensures
        eval_all(s) is Ok <==> forall|i: int| 0 <= i < s.len() ==> (#[trigger] s[i]) is Ok,
        eval_all(s) matches Ok(w) ==> w.len() == s.len() && forall|i: int|
            0 <= i < s.len() ==> #[trigger] s[i] == Ok::<Val, Error>(w[i]),
        eval_all(s) matches Err(e) ==> exists|i: int|
            0 <= i < s.len() && #[trigger] s[i] == Err::<Val, Error>(e) && forall|j: int|
                0 <= j < i ==> (#[trigger] s[j]) is Ok,
    decreases s.len(),
{
    if s.len() > 0 {
        let t = s.drop_first();
        law_eval_all(t);
        assert forall|i: int| 0 <= i < t.len() implies t[i] == s[i + 1] by {}
        match s[0] {
            Err(e) => {
                assert(s[0] == Err::<Val, Error>(e));
            },
            Ok(x) => {
                match eval_all(t) {
                    Ok(rest) => {
                        let w = seq![x] + rest;
                        assert(eval_all(s) == Ok::<Seq<Val>, Error>(w));
                        assert forall|i: int| 0 <= i < s.len() implies #[trigger] s[i] == Ok::<Val, Error>(w[i]) by {
                            if i > 0 {
                                assert(s[i] == t[i - 1]);
                            }
                        }
                    },
                    Err(e) => {
                        let i = choose|i: int|
                            0 <= i < t.len() && #[trigger] t[i] == Err::<Val, Error>(e) && forall|j: int|
                                0 <= j < i ==> (#[trigger] t[j]) is Ok;
                        assert(s[i + 1] == Err::<Val, Error>(e));
                        assert forall|j: int| 0 <= j < i + 1 implies (#[trigger] s[j]) is Ok by {
                            if j > 0 {
                                assert(s[j] == t[j - 1]);
                            }
                        }
                        assert(!(s[i + 1] is Ok));
                    },
                }
            },
        }
    }
}

/// Evaluating every element, where it succeeds, gives one value per element.
pub proof fn lemma_eval_all_len(s: Seq<Result<Val, Error>>)
    ensures
        eval_all(s) matches Ok(w) ==> w.len() == s.len(),
    decreases s.len(),
{
    if s.len() > 0 {
        lemma_eval_all_len(s.drop_first());
    }
}

pub proof fn lemma_eval_all_ok(s: Seq<Result<Val, Error>>)
    requires
        forall|i: int| 0 <= i < s.len() ==> (#[trigger] s[i]) is Ok,
    ensures
        eval_all(s) == Ok::<Seq<Val>, Error>(Seq::new(s.len(), |i: int| s[i]->Ok_0)),
    decreases s.len(),
{
    if s.len() > 0 {
        let t = s.drop_first();
        assert forall|i: int| 0 <= i < t.len() implies (#[trigger] t[i]) is Ok by {
            assert(t[i] == s[i + 1]);
        }
        lemma_eval_all_ok(t);
        assert(seq![s[0]->Ok_0] + Seq::new(t.len(), |i: int| t[i]->Ok_0) =~= Seq::new(
            s.len(),
            |i: int| s[i]->Ok_0,
        ));
    } else {
        assert(Seq::<Val>::empty() =~= Seq::new(s.len(), |i: int| s[i]->Ok_0));
    }
}

/// Prepends `p` to the values of a successful evaluation.
pub open spec fn prepend(p: Seq<Val>, r: Result<Seq<Val>, Error>) -> Result<Seq<Val>, Error> {
    match r {
        Ok(t) => Ok(p + t),
        Err(e) => Err(e),
    }
}

impl Val {
    /// The kind of the value.
    pub open spec fn kind(self) -> ValType {
        match self {
            Val::Null => ValType::Null,
            Val::Bool(_) => ValType::Bool,
            Val::Str(_) => ValType::Str,
            Val::Num(_) => ValType::Num,
            Val::Arr(_) => ValType::Arr,
            Val::Obj(_) => ValType::Obj,
            Val::Func(_) => ValType::Func,
        }
    }

    /// The kind of the value.
    pub fn value_type(&self) -> (r: ValType)
        ensures
            r == self.kind(),
    {
        match self {
            Val::Null => ValType::Null,
            Val::Bool(_) => ValType::Bool,
            Val::Str(_) => ValType::Str,
            Val::Num(_) => ValType::Num,
            Val::Arr(_) => ValType::Arr,
            Val::Obj(_) => ValType::Obj,
            Val::Func(_) => ValType::Func,
        }
    }

    /// What `into_indexable` gives for a value.
    pub open spec fn indexable(self) -> Result<IndexableVal, Error> {
        match self {
            Val::Str(s) => Ok(IndexableVal::Str(s)),
            Val::Arr(a) => Ok(IndexableVal::Arr(a)),
            _ => Err(Error::ValueIsNotIndexable(self.kind())),
        }
    }

    /// Exactly strings and arrays are indexable, each as itself; any other
    /// value is refused naming its kind.
    pub proof fn law_indexable(self)
        ensures
            self.indexable() is Ok <==> (self is Str || self is Arr),
            self.indexable() matches Ok(IndexableVal::Str(s)) ==> self == Val::Str(s),
            self.indexable() matches Ok(IndexableVal::Arr(a)) ==> self == Val::Arr(a),
            !(self is Str || self is Arr) ==> self.indexable() == Err::<IndexableVal, Error>(
                Error::ValueIsNotIndexable(self.kind()),
            ),
    {
    }

    /// A string or an array as an indexable value; any other value is an
    /// error.
    pub fn into_indexable(self) -> (r: Result<IndexableVal, Error>)
        ensures
            r == self.indexable(),
    {
        let k = self.value_type();
        match self {
            Val::Str(s) => Ok(IndexableVal::Str(s)),
            Val::Arr(a) => Ok(IndexableVal::Arr(a)),
            _ => Err(Error::ValueIsNotIndexable(k)),
        }
    }
}

impl ArrValue {
    /// The elements, each as the outcome of its evaluation.
    pub open spec fn elems(self) -> Seq<Result<Val, Error>> {
        match self {
            ArrValue::Bytes(b) => Seq::new(
                ibytes_bytes(b).len(),
                |i: int| Ok::<Val, Error>(byte_val(ibytes_bytes(b)[i])),
            ),
            ArrValue::Eager(v) => Seq::new(v@.len(), |i: int| Ok::<Val, Error>(v@[i])),
            ArrValue::Lazy(v) => v@,
        }
    }

    /// The number of elements.
    pub fn len(&self) -> (r: usize)
        ensures
            r == self.elems().len(),
    {
        match self {
            ArrValue::Bytes(b) => ibytes_as_slice(b).len(),
            ArrValue::Eager(v) => v.len(),
            ArrValue::Lazy(v) => v.len(),
        }
    }

    /// The values of all elements, or the first evaluation failure.
    pub fn evaluated(self) -> (r: Result<Vec<Val>, Error>)
        ensures
            vec_result_is(r, eval_all(self.elems())),
    {
        let ghost s = self.elems();
        match self {
            ArrValue::Bytes(b) => {
                let bytes = ibytes_as_slice(&b);
                let mut out: Vec<Val> = Vec::new();
                let mut i: usize = 0;
                while i < bytes.len()
                    invariant
                        i <= bytes@.len(),
                        bytes@ == ibytes_bytes(b),
                        s == ArrValue::Bytes(b).elems(),
                        out@.len() == i,
                        forall|j: int| 0 <= j < i ==> out@[j] == byte_val(#[trigger] bytes@[j]),
                    decreases bytes@.len() - i,
                {
                    out.push(Val::Num(Number::from_u64(bytes[i] as u64)));
                    i = i + 1;
                }
                proof {
                    lemma_eval_all_ok(s);
                    assert(out@ =~= Seq::new(s.len(), |i: int| s[i]->Ok_0));
                }
                Ok(out)
            },
            ArrValue::Eager(v) => {
                proof {
                    lemma_eval_all_ok(s);
                    assert(v@ =~= Seq::new(s.len(), |i: int| s[i]->Ok_0));
                }
                Ok(v)
            },
            ArrValue::Lazy(v) => evaluate_all(v),
        }
    }
}

/// The elements of `v` in reverse order.
pub fn reversed<T>(v: Vec<T>) -> (r: Vec<T>)
    ensures
        r@ == v@.reverse(),
{
    let ghost orig = v@;
    let mut v = v;
    let mut r: Vec<T> = Vec::new();
    while v.len() > 0
        invariant
            v@.len() <= orig.len(),
            v@ == orig.subrange(0, v@.len() as int),
            r@ == orig.subrange(v@.len() as int, orig.len() as int).reverse(),
        decreases v@.len(),
    {
        let ghost n = v@.len();
        let x = v.pop().unwrap();
        proof {
            assert(x == orig[n - 1]);
        }
        r.push(x);
        assert(r@ =~= orig.subrange(v@.len() as int, orig.len() as int).reverse());
    }
    assert(r@ =~= orig.reverse());
    r
}

/// The values of all evaluation outcomes, or the first failure.
fn evaluate_all(v: Vec<Result<Val, Error>>) -> (r: Result<Vec<Val>, Error>)
    ensures
        vec_result_is(r, eval_all(v@)),
{
    let ghost s = v@;
    let n = v.len();
    let mut rest = reversed(v);
    let mut out: Vec<Val> = Vec::new();
    let mut i: usize = 0;
    proof {
        assert(s.skip(0) =~= s);
        match eval_all(s) {
            Ok(t) => {
                assert(Seq::<Val>::empty() + t =~= t);
            },
            Err(_) => {},
        }
    }
    while i < n
        invariant
            s == v@,
            n == s.len(),
            i <= n,
            rest@ == s.subrange(i as int, n as int).reverse(),
            eval_all(s) == prepend(out@, eval_all(s.skip(i as int))),
        decreases n - i,
    {
        let ghost t = s.skip(i as int);
        proof {
            assert(t.drop_first() =~= s.skip(i + 1));
            assert(t[0] == s[i as int]);
            assert(t.len() > 0);
            assert(s.subrange(i as int, n as int).reverse().last() == s[i as int]);
        }
        let item = rest.pop().unwrap();
        proof {
            assert(rest@ =~= s.subrange(i + 1, n as int).reverse());
        }
        match item {
            Err(e) => {
                proof {
                    assert(t[0] == Err::<Val, Error>(e));
                    assert(eval_all(t) == Err::<Seq<Val>, Error>(e));
                    assert(eval_all(s) == Err::<Seq<Val>, Error>(e));
                }
                return Err(e);
            },
            Ok(x) => {
                proof {
                    assert(out@.push(x) =~= out@ + seq![x]);
                    match eval_all(s.skip(i + 1)) {
                        Ok(u) => {
                            assert(out@ + (seq![x] + u) =~= out@.push(x) + u);
                        },
                        Err(_) => {},
                    }
                }
                out.push(x);
                i = i + 1;
            },
        }
    }
    proof {
        assert(s.skip(n as int) =~= Seq::<Result<Val, Error>>::empty());
        assert(out@ + Seq::<Val>::empty() =~= out@);
    }
    Ok(out)
}

} // verus!
