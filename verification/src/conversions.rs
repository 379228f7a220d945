//! `Typed` for the Rust types that stand for jsonnet values.
use vstd::prelude::*;
use vstd::string::{StrSliceExecFns, StringExecFns};
use std::rc::Rc;
use jrsonnet_interner::IBytes;
use jrsonnet_interner::IStr;
use crate::check::{check, check_members_spec, check_spec, lemma_all_checked, lemma_checked_elems};
use vstd::utf8::encode_utf8;
use crate::interned::{ibytes_bytes, intern_bytes, intern_char, intern_string, istr_as_str, istr_chars};
use crate::number::{int_number, lemma_int_number, Number};
use crate::typed::{convert_all, first_from_failure, first_into_failure, untype_all, Typed};
use crate::types::{ComplexValType, Error, IntKind, TypeList, ValType};
use crate::val::{byte_val, eval_all, lemma_eval_all_len, lemma_eval_all_ok, ArrValue, FuncDesc, FuncVal, IndexableVal, ObjValue, Val};

verus! {

/// The outcome of converting `v` to an integer type whose values lie in
/// `[lo, hi]`: the check against the bounds, then the refusal of a
/// fractional part.
pub open spec fn integer_outcome(lo: i128, hi: i128, kind: IntKind, v: Val) -> Result<int, Error> {
    match check_spec(ComplexValType::BoundedNumber(Some(lo), Some(hi)), v) {
        Err(e) => Err(e),
        Ok(()) => if v->Num_0.is_integral() {
            Ok(v->Num_0.trunc())
        } else {
            Err(Error::FractionalPart(kind))
        },
    }
}

/// A number converts to an integer type exactly when it lies within the
/// type's bounds and has no fractional part, whatever its form, and then to
/// its own value; a number within the bounds with a fractional part is
/// refused as such, and a number outside them by the bound check.
pub proof fn law_integer_outcome(lo: i128, hi: i128, kind: IntKind, n: Number)
    ensures
        integer_outcome(lo, hi, kind, Val::Num(n)) is Ok <==> n.within(Some(lo), Some(hi)) && n.is_integral(),
        n.within(Some(lo), Some(hi)) && n.is_integral() ==> {
            &&& integer_outcome(lo, hi, kind, Val::Num(n)) == Ok::<int, Error>(n.trunc())
            &&& n.trunc() * n.denom() == n.numer()
            &&& lo <= n.trunc() <= hi
        },
        n.within(Some(lo), Some(hi)) && !n.is_integral() ==> integer_outcome(lo, hi, kind, Val::Num(n))
            == Err::<int, Error>(Error::FractionalPart(kind)),
        !n.within(Some(lo), Some(hi)) ==> integer_outcome(lo, hi, kind, Val::Num(n)) == Err::<int, Error>(
            Error::BoundsFailed(n, Some(lo), Some(hi)),
        ),
{
    crate::check::law_bounded_check(Some(lo), Some(hi), Val::Num(n));
    if n.is_integral() {
        n.lemma_integral_compare(lo as int);
        n.lemma_integral_compare(hi as int);
        n.lemma_denom_pos();
        assert(n.trunc() * n.denom() == n.numer()) by (nonlinear_arith)
            requires
                n.numer() == n.trunc() * n.denom(),
        ;
    }
}

/// A value that is not a number does not convert to an integer type.
pub proof fn law_integer_outcome_kind(lo: i128, hi: i128, kind: IntKind, v: Val)
    requires
        !(v is Num),
    ensures
        integer_outcome(lo, hi, kind, v) == Err::<int, Error>(
            Error::ExpectedGot(ComplexValType::BoundedNumber(Some(lo), Some(hi)), v.kind()),
        ),
{
    crate::check::law_bounded_check(Some(lo), Some(hi), v);
}

/// Converts `v` to an integer of an integer type whose values lie in
/// `[lo, hi]`.
pub fn integer_from(lo: i128, hi: i128, kind: IntKind, v: Val) -> (r: Result<i128, Error>)
    ensures
        r is Ok <==> integer_outcome(lo, hi, kind, v) is Ok,
        r matches Ok(x) ==> integer_outcome(lo, hi, kind, v) == Ok::<int, Error>(x as int) && lo <= x <= hi,
        r matches Err(e) ==> integer_outcome(lo, hi, kind, v) == Err::<int, Error>(e),
{
    let ty = ComplexValType::BoundedNumber(Some(lo), Some(hi));
    match check(&ty, &v) {
        Err(e) => Err(e),
        Ok(()) => match v {
            Val::Num(n) => {
                if n.is_integer() {
                    proof {
                        n.lemma_integral_compare(lo as int);
                        n.lemma_integral_compare(hi as int);
                        n.lemma_integral_compare(i128::MIN as int);
                        n.lemma_integral_compare(i128::MAX as int);
                    }
                    Ok(n.to_i128())
                } else {
                    Err(Error::FractionalPart(kind))
                }
            },
            // not reached: the check accepts numbers only
            _ => Err(Error::ExpectedGot(ty, ValType::Num)),
        },
    }
}

impl Typed for i8 {
    open spec fn val_type() -> ComplexValType {
        ComplexValType::BoundedNumber(Some(-128i128), Some(127i128))
    }

    fn type_desc() -> (t: ComplexValType) {
        ComplexValType::BoundedNumber(Some(-128i128), Some(127i128))
    }

    open spec fn into_ok(typed: i8) -> bool {
        true
    }

    open spec fn into_val(typed: i8, v: Val) -> bool {
        v == Val::Num(int_number(typed as int))
    }

    /// Never used: the conversion does not fail.
    open spec fn into_err(typed: i8) -> Error {
        Error::NumberTooLarge
    }

    open spec fn into_pre(typed: i8) -> bool {
        true
    }

    fn into_untyped(typed: i8) -> (r: Result<Val, Error>) {
        Ok(Val::Num(Number::from_i64(typed as i64)))
    }

    open spec fn from_pre(untyped: Val) -> bool {
        true
    }

    open spec fn from_ok(untyped: Val) -> bool {
        integer_outcome(-128i128, 127i128, IntKind::I8, untyped) is Ok
    }

    open spec fn from_val(untyped: Val, typed: i8) -> bool {
        integer_outcome(-128i128, 127i128, IntKind::I8, untyped) == Ok::<int, Error>(typed as int)
    }

    open spec fn from_err(untyped: Val) -> Error {
        integer_outcome(-128i128, 127i128, IntKind::I8, untyped)->Err_0
    }

    fn from_untyped(untyped: Val) -> (r: Result<i8, Error>) {
        match integer_from(-128i128, 127i128, IntKind::I8, untyped) {
            Ok(x) => Ok(x as i8),
            Err(e) => Err(e),
        }
    }

    open spec fn inhabits(typed: i8) -> bool {
        true
    }

    open spec fn same(a: i8, b: i8) -> bool {
        a == b
    }

    proof fn lemma_into_checked(typed: i8, untyped: Val) {
        lemma_int_number(typed as int);
    }

    proof fn lemma_round_trip(typed: i8, untyped: Val) {
        lemma_int_number(typed as int);
    }
}

impl Typed for u8 {
    open spec fn val_type() -> ComplexValType {
        ComplexValType::BoundedNumber(Some(0i128), Some(255i128))
    }

    fn type_desc() -> (t: ComplexValType) {
        ComplexValType::BoundedNumber(Some(0i128), Some(255i128))
    }

    open spec fn into_ok(typed: u8) -> bool {
        true
    }

    open spec fn into_val(typed: u8, v: Val) -> bool {
        v == Val::Num(int_number(typed as int))
    }

    /// Never used: the conversion does not fail.
    open spec fn into_err(typed: u8) -> Error {
        Error::NumberTooLarge
    }

    open spec fn into_pre(typed: u8) -> bool {
        true
    }

    fn into_untyped(typed: u8) -> (r: Result<Val, Error>) {
        Ok(Val::Num(Number::from_i64(typed as i64)))
    }

    open spec fn from_pre(untyped: Val) -> bool {
        true
    }

    open spec fn from_ok(untyped: Val) -> bool {
        integer_outcome(0i128, 255i128, IntKind::U8, untyped) is Ok
    }

    open spec fn from_val(untyped: Val, typed: u8) -> bool {
        integer_outcome(0i128, 255i128, IntKind::U8, untyped) == Ok::<int, Error>(typed as int)
    }

    open spec fn from_err(untyped: Val) -> Error {
        integer_outcome(0i128, 255i128, IntKind::U8, untyped)->Err_0
    }

    fn from_untyped(untyped: Val) -> (r: Result<u8, Error>) {
        match integer_from(0i128, 255i128, IntKind::U8, untyped) {
            Ok(x) => Ok(x as u8),
            Err(e) => Err(e),
        }
    }

    open spec fn inhabits(typed: u8) -> bool {
        true
    }

    open spec fn same(a: u8, b: u8) -> bool {
        a == b
    }

    proof fn lemma_into_checked(typed: u8, untyped: Val) {
        lemma_int_number(typed as int);
    }

    proof fn lemma_round_trip(typed: u8, untyped: Val) {
        lemma_int_number(typed as int);
    }
}

impl Typed for i16 {
    open spec fn val_type() -> ComplexValType {
        ComplexValType::BoundedNumber(Some(-32768i128), Some(32767i128))
    }

    fn type_desc() -> (t: ComplexValType) {
        ComplexValType::BoundedNumber(Some(-32768i128), Some(32767i128))
    }

    open spec fn into_ok(typed: i16) -> bool {
        true
    }

    open spec fn into_val(typed: i16, v: Val) -> bool {
        v == Val::Num(int_number(typed as int))
    }

    /// Never used: the conversion does not fail.
    open spec fn into_err(typed: i16) -> Error {
        Error::NumberTooLarge
    }

    open spec fn into_pre(typed: i16) -> bool {
        true
    }

    fn into_untyped(typed: i16) -> (r: Result<Val, Error>) {
        Ok(Val::Num(Number::from_i64(typed as i64)))
    }

    open spec fn from_pre(untyped: Val) -> bool {
        true
    }

    open spec fn from_ok(untyped: Val) -> bool {
        integer_outcome(-32768i128, 32767i128, IntKind::I16, untyped) is Ok
    }

    open spec fn from_val(untyped: Val, typed: i16) -> bool {
        integer_outcome(-32768i128, 32767i128, IntKind::I16, untyped) == Ok::<int, Error>(typed as int)
    }

    open spec fn from_err(untyped: Val) -> Error {
        integer_outcome(-32768i128, 32767i128, IntKind::I16, untyped)->Err_0
    }

    fn from_untyped(untyped: Val) -> (r: Result<i16, Error>) {
        match integer_from(-32768i128, 32767i128, IntKind::I16, untyped) {
            Ok(x) => Ok(x as i16),
            Err(e) => Err(e),
        }
    }

    open spec fn inhabits(typed: i16) -> bool {
        true
    }

    open spec fn same(a: i16, b: i16) -> bool {
        a == b
    }

    proof fn lemma_into_checked(typed: i16, untyped: Val) {
        lemma_int_number(typed as int);
    }

    proof fn lemma_round_trip(typed: i16, untyped: Val) {
        lemma_int_number(typed as int);
    }
}

impl Typed for u16 {
    open spec fn val_type() -> ComplexValType {
        ComplexValType::BoundedNumber(Some(0i128), Some(65535i128))
    }

    fn type_desc() -> (t: ComplexValType) {
        ComplexValType::BoundedNumber(Some(0i128), Some(65535i128))
    }

    open spec fn into_ok(typed: u16) -> bool {
        true
    }

    open spec fn into_val(typed: u16, v: Val) -> bool {
        v == Val::Num(int_number(typed as int))
    }

    /// Never used: the conversion does not fail.
    open spec fn into_err(typed: u16) -> Error {
        Error::NumberTooLarge
    }

    open spec fn into_pre(typed: u16) -> bool {
        true
    }

    fn into_untyped(typed: u16) -> (r: Result<Val, Error>) {
        Ok(Val::Num(Number::from_i64(typed as i64)))
    }

    open spec fn from_pre(untyped: Val) -> bool {
        true
    }

    open spec fn from_ok(untyped: Val) -> bool {
        integer_outcome(0i128, 65535i128, IntKind::U16, untyped) is Ok
    }

    open spec fn from_val(untyped: Val, typed: u16) -> bool {
        integer_outcome(0i128, 65535i128, IntKind::U16, untyped) == Ok::<int, Error>(typed as int)
    }

    open spec fn from_err(untyped: Val) -> Error {
        integer_outcome(0i128, 65535i128, IntKind::U16, untyped)->Err_0
    }

    fn from_untyped(untyped: Val) -> (r: Result<u16, Error>) {
        match integer_from(0i128, 65535i128, IntKind::U16, untyped) {
            Ok(x) => Ok(x as u16),
            Err(e) => Err(e),
        }
    }

    open spec fn inhabits(typed: u16) -> bool {
        true
    }

    open spec fn same(a: u16, b: u16) -> bool {
        a == b
    }

    proof fn lemma_into_checked(typed: u16, untyped: Val) {
        lemma_int_number(typed as int);
    }

    proof fn lemma_round_trip(typed: u16, untyped: Val) {
        lemma_int_number(typed as int);
    }
}

impl Typed for i32 {
    open spec fn val_type() -> ComplexValType {
        ComplexValType::BoundedNumber(Some(-2147483648i128), Some(2147483647i128))
    }

    fn type_desc() -> (t: ComplexValType) {
        ComplexValType::BoundedNumber(Some(-2147483648i128), Some(2147483647i128))
    }

    open spec fn into_ok(typed: i32) -> bool {
        true
    }

    open spec fn into_val(typed: i32, v: Val) -> bool {
        v == Val::Num(int_number(typed as int))
    }

    /// Never used: the conversion does not fail.
    open spec fn into_err(typed: i32) -> Error {
        Error::NumberTooLarge
    }

    open spec fn into_pre(typed: i32) -> bool {
        true
    }

    fn into_untyped(typed: i32) -> (r: Result<Val, Error>) {
        Ok(Val::Num(Number::from_i64(typed as i64)))
    }

    open spec fn from_pre(untyped: Val) -> bool {
        true
    }

    open spec fn from_ok(untyped: Val) -> bool {
        integer_outcome(-2147483648i128, 2147483647i128, IntKind::I32, untyped) is Ok
    }

    open spec fn from_val(untyped: Val, typed: i32) -> bool {
        integer_outcome(-2147483648i128, 2147483647i128, IntKind::I32, untyped) == Ok::<int, Error>(typed as int)
    }

    open spec fn from_err(untyped: Val) -> Error {
        integer_outcome(-2147483648i128, 2147483647i128, IntKind::I32, untyped)->Err_0
    }

    fn from_untyped(untyped: Val) -> (r: Result<i32, Error>) {
        match integer_from(-2147483648i128, 2147483647i128, IntKind::I32, untyped) {
            Ok(x) => Ok(x as i32),
            Err(e) => Err(e),
        }
    }

    open spec fn inhabits(typed: i32) -> bool {
        true
    }

    open spec fn same(a: i32, b: i32) -> bool {
        a == b
    }

    proof fn lemma_into_checked(typed: i32, untyped: Val) {
        lemma_int_number(typed as int);
    }

    proof fn lemma_round_trip(typed: i32, untyped: Val) {
        lemma_int_number(typed as int);
    }
}

impl Typed for u32 {
    open spec fn val_type() -> ComplexValType {
        ComplexValType::BoundedNumber(Some(0i128), Some(4294967295i128))
    }

    fn type_desc() -> (t: ComplexValType) {
        ComplexValType::BoundedNumber(Some(0i128), Some(4294967295i128))
    }

    open spec fn into_ok(typed: u32) -> bool {
        true
    }

    open spec fn into_val(typed: u32, v: Val) -> bool {
        v == Val::Num(int_number(typed as int))
    }

    /// Never used: the conversion does not fail.
    open spec fn into_err(typed: u32) -> Error {
        Error::NumberTooLarge
    }

    open spec fn into_pre(typed: u32) -> bool {
        true
    }

    fn into_untyped(typed: u32) -> (r: Result<Val, Error>) {
        Ok(Val::Num(Number::from_i64(typed as i64)))
    }

    open spec fn from_pre(untyped: Val) -> bool {
        true
    }

    open spec fn from_ok(untyped: Val) -> bool {
        integer_outcome(0i128, 4294967295i128, IntKind::U32, untyped) is Ok
    }

    open spec fn from_val(untyped: Val, typed: u32) -> bool {
        integer_outcome(0i128, 4294967295i128, IntKind::U32, untyped) == Ok::<int, Error>(typed as int)
    }

    open spec fn from_err(untyped: Val) -> Error {
        integer_outcome(0i128, 4294967295i128, IntKind::U32, untyped)->Err_0
    }

    fn from_untyped(untyped: Val) -> (r: Result<u32, Error>) {
        match integer_from(0i128, 4294967295i128, IntKind::U32, untyped) {
            Ok(x) => Ok(x as u32),
            Err(e) => Err(e),
        }
    }

    open spec fn inhabits(typed: u32) -> bool {
        true
    }

    open spec fn same(a: u32, b: u32) -> bool {
        a == b
    }

    proof fn lemma_into_checked(typed: u32, untyped: Val) {
        lemma_int_number(typed as int);
    }

    proof fn lemma_round_trip(typed: u32, untyped: Val) {
        lemma_int_number(typed as int);
    }
}

impl Typed for usize {
    open spec fn val_type() -> ComplexValType {
        ComplexValType::BoundedNumber(Some(0), Some(u32::MAX as i128))
    }

    fn type_desc() -> (t: ComplexValType) {
        ComplexValType::BoundedNumber(Some(0), Some(0xffff_ffff))
    }

    /// Only integers up to `u32::MAX` are converted.
    open spec fn into_ok(typed: usize) -> bool {
        typed <= u32::MAX
    }

    open spec fn into_val(typed: usize, v: Val) -> bool {
        v == Val::Num(int_number(typed as int))
    }

    open spec fn into_err(typed: usize) -> Error {
        Error::NumberTooLarge
    }

    open spec fn into_pre(typed: usize) -> bool {
        true
    }

    fn into_untyped(typed: usize) -> (r: Result<Val, Error>) {
        if typed > 0xffff_ffff {
            Err(Error::NumberTooLarge)
        } else {
            Ok(Val::Num(Number::from_u64(typed as u64)))
        }
    }

    open spec fn from_pre(untyped: Val) -> bool {
        true
    }

    open spec fn from_ok(untyped: Val) -> bool {
        integer_outcome(0, u32::MAX as i128, IntKind::Usize, untyped) is Ok
    }

    open spec fn from_val(untyped: Val, typed: usize) -> bool {
        integer_outcome(0, u32::MAX as i128, IntKind::Usize, untyped) == Ok::<int, Error>(typed as int)
    }

    open spec fn from_err(untyped: Val) -> Error {
        integer_outcome(0, u32::MAX as i128, IntKind::Usize, untyped)->Err_0
    }

    fn from_untyped(untyped: Val) -> (r: Result<usize, Error>) {
        match integer_from(0, 0xffff_ffff, IntKind::Usize, untyped) {
            Ok(x) => Ok(x as usize),
            Err(e) => Err(e),
        }
    }

    open spec fn inhabits(typed: usize) -> bool {
        true
    }

    open spec fn same(a: usize, b: usize) -> bool {
        a == b
    }

    proof fn lemma_into_checked(typed: usize, untyped: Val) {
        if Self::into_ok(typed) && Self::into_val(typed, untyped) {
            lemma_int_number(typed as int);
        }
    }

    proof fn lemma_round_trip(typed: usize, untyped: Val) {
        if Self::into_ok(typed) && Self::into_val(typed, untyped) {
            lemma_int_number(typed as int);
        }
    }
}

/// A jsonnet number, taken as it is.
impl Typed for Number {
    open spec fn val_type() -> ComplexValType {
        ComplexValType::Simple(ValType::Num)
    }

    fn type_desc() -> (t: ComplexValType) {
        ComplexValType::Simple(ValType::Num)
    }

    open spec fn into_ok(typed: Number) -> bool {
        true
    }

    open spec fn into_val(typed: Number, v: Val) -> bool {
        v == Val::Num(typed)
    }

    /// Never used: the conversion does not fail.
    open spec fn into_err(typed: Number) -> Error {
        Error::NumberTooLarge
    }

    open spec fn into_pre(typed: Number) -> bool {
        true
    }

    fn into_untyped(typed: Number) -> (r: Result<Val, Error>) {
        Ok(Val::Num(typed))
    }

    open spec fn from_pre(untyped: Val) -> bool {
        true
    }

    open spec fn from_ok(untyped: Val) -> bool {
        check_spec(Self::val_type(), untyped) is Ok
    }

    open spec fn from_val(untyped: Val, typed: Number) -> bool {
        untyped == Val::Num(typed)
    }

    open spec fn from_err(untyped: Val) -> Error {
        check_spec(Self::val_type(), untyped)->Err_0
    }

    fn from_untyped(untyped: Val) -> (r: Result<Number, Error>) {
        let ty = Self::type_desc();
        match check(&ty, &untyped) {
            Err(e) => Err(e),
            Ok(()) => match untyped {
                Val::Num(n) => Ok(n),
                // not reached: the check accepts numbers only
                _ => Err(Error::ExpectedGot(ty, ValType::Num)),
            },
        }
    }

    open spec fn inhabits(typed: Number) -> bool {
        true
    }

    open spec fn same(a: Number, b: Number) -> bool {
        a == b
    }

    proof fn lemma_into_checked(typed: Number, untyped: Val) {
    }

    proof fn lemma_round_trip(typed: Number, untyped: Val) {
    }
}

/// A number that is not negative.
pub struct PositiveF64(pub Number);

impl Typed for PositiveF64 {
    open spec fn val_type() -> ComplexValType {
        ComplexValType::BoundedNumber(Some(0), None)
    }

    fn type_desc() -> (t: ComplexValType) {
        ComplexValType::BoundedNumber(Some(0), None)
    }

    open spec fn into_ok(typed: PositiveF64) -> bool {
        true
    }

    open spec fn into_val(typed: PositiveF64, v: Val) -> bool {
        v == Val::Num(typed.0)
    }

    /// Never used: the conversion does not fail.
    open spec fn into_err(typed: PositiveF64) -> Error {
        Error::NumberTooLarge
    }

    open spec fn into_pre(typed: PositiveF64) -> bool {
        true
    }

    fn into_untyped(typed: PositiveF64) -> (r: Result<Val, Error>) {
        Ok(Val::Num(typed.0))
    }

    open spec fn from_pre(untyped: Val) -> bool {
        true
    }

    open spec fn from_ok(untyped: Val) -> bool {
        check_spec(Self::val_type(), untyped) is Ok
    }

    open spec fn from_val(untyped: Val, typed: PositiveF64) -> bool {
        untyped == Val::Num(typed.0)
    }

    open spec fn from_err(untyped: Val) -> Error {
        check_spec(Self::val_type(), untyped)->Err_0
    }

    fn from_untyped(untyped: Val) -> (r: Result<PositiveF64, Error>) {
        let ty = Self::type_desc();
        match check(&ty, &untyped) {
            Err(e) => Err(e),
            Ok(()) => match untyped {
                Val::Num(n) => Ok(PositiveF64(n)),
                // not reached: the check accepts numbers only
                _ => Err(Error::ExpectedGot(ty, ValType::Num)),
            },
        }
    }

    open spec fn inhabits(typed: PositiveF64) -> bool {
        typed.0.ge_int(0)
    }

    open spec fn same(a: PositiveF64, b: PositiveF64) -> bool {
        a == b
    }

    proof fn lemma_into_checked(typed: PositiveF64, untyped: Val) {
    }

    proof fn lemma_round_trip(typed: PositiveF64, untyped: Val) {
    }
}

impl Typed for IStr {
    open spec fn val_type() -> ComplexValType {
        ComplexValType::Simple(ValType::Str)
    }

    fn type_desc() -> (t: ComplexValType) {
        ComplexValType::Simple(ValType::Str)
    }

    open spec fn into_ok(typed: IStr) -> bool {
        true
    }

    open spec fn into_val(typed: IStr, v: Val) -> bool {
        v == Val::Str(typed)
    }

    /// Never used: the conversion does not fail.
    open spec fn into_err(typed: IStr) -> Error {
        Error::NumberTooLarge
    }

    open spec fn into_pre(typed: IStr) -> bool {
        true
    }

    fn into_untyped(typed: IStr) -> (r: Result<Val, Error>) {
        Ok(Val::Str(typed))
    }

    open spec fn from_pre(untyped: Val) -> bool {
        true
    }

    open spec fn from_ok(untyped: Val) -> bool {
        check_spec(Self::val_type(), untyped) is Ok
    }

    open spec fn from_val(untyped: Val, typed: IStr) -> bool {
        untyped == Val::Str(typed)
    }

    open spec fn from_err(untyped: Val) -> Error {
        check_spec(Self::val_type(), untyped)->Err_0
    }

    fn from_untyped(untyped: Val) -> (r: Result<IStr, Error>) {
        let ty = Self::type_desc();
        match check(&ty, &untyped) {
            Err(e) => Err(e),
            Ok(()) => match untyped {
                Val::Str(s) => Ok(s),
                // not reached: the check accepts strings only
                _ => Err(Error::ExpectedGot(ty, ValType::Str)),
            },
        }
    }

    open spec fn inhabits(typed: IStr) -> bool {
        true
    }

    open spec fn same(a: IStr, b: IStr) -> bool {
        a == b
    }

    proof fn lemma_into_checked(typed: IStr, untyped: Val) {
    }

    proof fn lemma_round_trip(typed: IStr, untyped: Val) {
    }
}

impl Typed for String {
    open spec fn val_type() -> ComplexValType {
        ComplexValType::Simple(ValType::Str)
    }

    fn type_desc() -> (t: ComplexValType) {
        ComplexValType::Simple(ValType::Str)
    }

    open spec fn into_ok(typed: String) -> bool {
        true
    }

    /// A string holding the same characters.
    open spec fn into_val(typed: String, v: Val) -> bool {
        v matches Val::Str(s) && istr_chars(s) == typed@
    }

    /// Never used: the conversion does not fail.
    open spec fn into_err(typed: String) -> Error {
        Error::NumberTooLarge
    }

    /// The text fits the interner: at most `u32::MAX` bytes of UTF-8.
    open spec fn into_pre(typed: String) -> bool {
        encode_utf8(typed@).len() <= u32::MAX
    }

    fn into_untyped(typed: String) -> (r: Result<Val, Error>) {
        Ok(Val::Str(intern_string(typed)))
    }

    open spec fn from_pre(untyped: Val) -> bool {
        true
    }

    open spec fn from_ok(untyped: Val) -> bool {
        check_spec(Self::val_type(), untyped) is Ok
    }

    /// A string holding the same characters.
    open spec fn from_val(untyped: Val, typed: String) -> bool {
        untyped matches Val::Str(s) && typed@ == istr_chars(s)
    }

    open spec fn from_err(untyped: Val) -> Error {
        check_spec(Self::val_type(), untyped)->Err_0
    }

    fn from_untyped(untyped: Val) -> (r: Result<String, Error>) {
        let ty = Self::type_desc();
        match check(&ty, &untyped) {
            Err(e) => Err(e),
            Ok(()) => match untyped {
                Val::Str(s) => Ok(String::from_str(istr_as_str(&s))),
                // not reached: the check accepts strings only
                _ => Err(Error::ExpectedGot(ty, ValType::Str)),
            },
        }
    }

    open spec fn inhabits(typed: String) -> bool {
        true
    }

    open spec fn same(a: String, b: String) -> bool {
        a@ == b@
    }

    proof fn lemma_into_checked(typed: String, untyped: Val) {
    }

    proof fn lemma_round_trip(typed: String, untyped: Val) {
    }
}

impl Typed for char {
    open spec fn val_type() -> ComplexValType {
        ComplexValType::Char
    }

    fn type_desc() -> (t: ComplexValType) {
        ComplexValType::Char
    }

    open spec fn into_ok(typed: char) -> bool {
        true
    }

    /// The one-character string of the character.
    open spec fn into_val(typed: char, v: Val) -> bool {
        v matches Val::Str(s) && istr_chars(s) == seq![typed]
    }

    /// Never used: the conversion does not fail.
    open spec fn into_err(typed: char) -> Error {
        Error::NumberTooLarge
    }

    open spec fn into_pre(typed: char) -> bool {
        true
    }

    fn into_untyped(typed: char) -> (r: Result<Val, Error>) {
        Ok(Val::Str(intern_char(typed)))
    }

    open spec fn from_pre(untyped: Val) -> bool {
        true
    }

    open spec fn from_ok(untyped: Val) -> bool {
        check_spec(Self::val_type(), untyped) is Ok
    }

    /// The character of a one-character string.
    open spec fn from_val(untyped: Val, typed: char) -> bool {
        untyped matches Val::Str(s) && istr_chars(s).len() == 1 && typed == istr_chars(s)[0]
    }

    open spec fn from_err(untyped: Val) -> Error {
        check_spec(Self::val_type(), untyped)->Err_0
    }

    fn from_untyped(untyped: Val) -> (r: Result<char, Error>) {
        let ty = Self::type_desc();
        match check(&ty, &untyped) {
            Err(e) => Err(e),
            Ok(()) => match untyped {
                Val::Str(s) => Ok(istr_as_str(&s).get_char(0)),
                // not reached: the check accepts strings only
                _ => Err(Error::ExpectedGot(ty, ValType::Str)),
            },
        }
    }

    open spec fn inhabits(typed: char) -> bool {
        true
    }

    open spec fn same(a: char, b: char) -> bool {
        a == b
    }

    proof fn lemma_into_checked(typed: char, untyped: Val) {
    }

    proof fn lemma_round_trip(typed: char, untyped: Val) {
    }
}

impl Typed for bool {
    open spec fn val_type() -> ComplexValType {
        ComplexValType::Simple(ValType::Bool)
    }

    fn type_desc() -> (t: ComplexValType) {
        ComplexValType::Simple(ValType::Bool)
    }

    open spec fn into_ok(typed: bool) -> bool {
        true
    }

    open spec fn into_val(typed: bool, v: Val) -> bool {
        v == Val::Bool(typed)
    }

    /// Never used: the conversion does not fail.
    open spec fn into_err(typed: bool) -> Error {
        Error::NumberTooLarge
    }

    open spec fn into_pre(typed: bool) -> bool {
        true
    }

    fn into_untyped(typed: bool) -> (r: Result<Val, Error>) {
        Ok(Val::Bool(typed))
    }

    open spec fn from_pre(untyped: Val) -> bool {
        true
    }

    open spec fn from_ok(untyped: Val) -> bool {
        check_spec(Self::val_type(), untyped) is Ok
    }

    open spec fn from_val(untyped: Val, typed: bool) -> bool {
        untyped == Val::Bool(typed)
    }

    open spec fn from_err(untyped: Val) -> Error {
        check_spec(Self::val_type(), untyped)->Err_0
    }

    fn from_untyped(untyped: Val) -> (r: Result<bool, Error>) {
        let ty = Self::type_desc();
        match check(&ty, &untyped) {
            Err(e) => Err(e),
            Ok(()) => match untyped {
                Val::Bool(b) => Ok(b),
                // not reached: the check accepts booleans only
                _ => Err(Error::ExpectedGot(ty, ValType::Bool)),
            },
        }
    }

    open spec fn inhabits(typed: bool) -> bool {
        true
    }

    open spec fn same(a: bool, b: bool) -> bool {
        a == b
    }

    proof fn lemma_into_checked(typed: bool, untyped: Val) {
    }

    proof fn lemma_round_trip(typed: bool, untyped: Val) {
    }
}

/// The jsonnet `null`.
pub struct Null;

impl Typed for Null {
    open spec fn val_type() -> ComplexValType {
        ComplexValType::Simple(ValType::Null)
    }

    fn type_desc() -> (t: ComplexValType) {
        ComplexValType::Simple(ValType::Null)
    }

    open spec fn into_ok(typed: Null) -> bool {
        true
    }

    open spec fn into_val(typed: Null, v: Val) -> bool {
        v == Val::Null
    }

    /// Never used: the conversion does not fail.
    open spec fn into_err(typed: Null) -> Error {
        Error::NumberTooLarge
    }

    open spec fn into_pre(typed: Null) -> bool {
        true
    }

    fn into_untyped(typed: Null) -> (r: Result<Val, Error>) {
        Ok(Val::Null)
    }

    open spec fn from_pre(untyped: Val) -> bool {
        true
    }

    open spec fn from_ok(untyped: Val) -> bool {
        check_spec(Self::val_type(), untyped) is Ok
    }

    open spec fn from_val(untyped: Val, typed: Null) -> bool {
        true
    }

    open spec fn from_err(untyped: Val) -> Error {
        check_spec(Self::val_type(), untyped)->Err_0
    }

    fn from_untyped(untyped: Val) -> (r: Result<Null, Error>) {
        let ty = Self::type_desc();
        match check(&ty, &untyped) {
            Err(e) => Err(e),
            Ok(()) => Ok(Null),
        }
    }

    open spec fn inhabits(typed: Null) -> bool {
        true
    }

    open spec fn same(a: Null, b: Null) -> bool {
        true
    }

    proof fn lemma_into_checked(typed: Null, untyped: Val) {
    }

    proof fn lemma_round_trip(typed: Null, untyped: Val) {
    }
}

/// The number `-1`.
pub struct M1;

impl Typed for M1 {
    open spec fn val_type() -> ComplexValType {
        ComplexValType::BoundedNumber(Some(-1i128), Some(-1i128))
    }

    fn type_desc() -> (t: ComplexValType) {
        ComplexValType::BoundedNumber(Some(-1i128), Some(-1i128))
    }

    open spec fn into_ok(typed: M1) -> bool {
        true
    }

    open spec fn into_val(typed: M1, v: Val) -> bool {
        v == Val::Num(int_number(-1int))
    }

    /// Never used: the conversion does not fail.
    open spec fn into_err(typed: M1) -> Error {
        Error::NumberTooLarge
    }

    open spec fn into_pre(typed: M1) -> bool {
        true
    }

    fn into_untyped(typed: M1) -> (r: Result<Val, Error>) {
        Ok(Val::Num(Number::from_i64(-1)))
    }

    open spec fn from_pre(untyped: Val) -> bool {
        true
    }

    open spec fn from_ok(untyped: Val) -> bool {
        check_spec(Self::val_type(), untyped) is Ok
    }

    open spec fn from_val(untyped: Val, typed: M1) -> bool {
        true
    }

    open spec fn from_err(untyped: Val) -> Error {
        check_spec(Self::val_type(), untyped)->Err_0
    }

    fn from_untyped(untyped: Val) -> (r: Result<M1, Error>) {
        let ty = Self::type_desc();
        match check(&ty, &untyped) {
            Err(e) => Err(e),
            Ok(()) => Ok(M1),
        }
    }

    open spec fn inhabits(typed: M1) -> bool {
        true
    }

    open spec fn same(a: M1, b: M1) -> bool {
        true
    }

    proof fn lemma_into_checked(typed: M1, untyped: Val) {
        if Self::into_ok(typed) && Self::into_val(typed, untyped) {
            lemma_int_number(-1);
        }
    }

    proof fn lemma_round_trip(typed: M1, untyped: Val) {
        if Self::into_ok(typed) && Self::into_val(typed, untyped) {
            lemma_int_number(-1);
        }
    }
}

/// Any jsonnet value, taken as it is (for use as an element type, such as
/// in `Vec<Any>`).
pub struct Any(pub Val);

impl Typed for Any {
    open spec fn val_type() -> ComplexValType {
        ComplexValType::Any
    }

    fn type_desc() -> (t: ComplexValType) {
        ComplexValType::Any
    }

    open spec fn into_ok(typed: Any) -> bool {
        true
    }

    open spec fn into_val(typed: Any, v: Val) -> bool {
        v == typed.0
    }

    /// Never used: the conversion does not fail.
    open spec fn into_err(typed: Any) -> Error {
        Error::NumberTooLarge
    }

    open spec fn into_pre(typed: Any) -> bool {
        true
    }

    fn into_untyped(typed: Any) -> (r: Result<Val, Error>) {
        Ok(typed.0)
    }

    open spec fn from_pre(untyped: Val) -> bool {
        true
    }

    open spec fn from_ok(untyped: Val) -> bool {
        true
    }

    open spec fn from_val(untyped: Val, typed: Any) -> bool {
        typed.0 == untyped
    }

    /// Never used: the conversion does not fail.
    open spec fn from_err(untyped: Val) -> Error {
        Error::NumberTooLarge
    }

    fn from_untyped(untyped: Val) -> (r: Result<Any, Error>) {
        Ok(Any(untyped))
    }

    open spec fn inhabits(typed: Any) -> bool {
        true
    }

    open spec fn same(a: Any, b: Any) -> bool {
        a == b
    }

    proof fn lemma_into_checked(typed: Any, untyped: Val) {
    }

    proof fn lemma_round_trip(typed: Any, untyped: Val) {
    }
}

impl Typed for ArrValue {
    open spec fn val_type() -> ComplexValType {
        ComplexValType::Simple(ValType::Arr)
    }

    fn type_desc() -> (t: ComplexValType) {
        ComplexValType::Simple(ValType::Arr)
    }

    open spec fn into_ok(typed: ArrValue) -> bool {
        true
    }

    open spec fn into_val(typed: ArrValue, v: Val) -> bool {
        v == Val::Arr(typed)
    }

    /// Never used: the conversion does not fail.
    open spec fn into_err(typed: ArrValue) -> Error {
        Error::NumberTooLarge
    }

    open spec fn into_pre(typed: ArrValue) -> bool {
        true
    }

    fn into_untyped(typed: ArrValue) -> (r: Result<Val, Error>) {
        Ok(Val::Arr(typed))
    }

    open spec fn from_pre(untyped: Val) -> bool {
        true
    }

    open spec fn from_ok(untyped: Val) -> bool {
        check_spec(Self::val_type(), untyped) is Ok
    }

    open spec fn from_val(untyped: Val, typed: ArrValue) -> bool {
        untyped == Val::Arr(typed)
    }

    open spec fn from_err(untyped: Val) -> Error {
        check_spec(Self::val_type(), untyped)->Err_0
    }

    fn from_untyped(untyped: Val) -> (r: Result<ArrValue, Error>) {
        let ty = Self::type_desc();
        match check(&ty, &untyped) {
            Err(e) => Err(e),
            Ok(()) => match untyped {
                Val::Arr(a) => Ok(a),
                // not reached: the check accepts arrays only
                _ => Err(Error::ExpectedGot(ty, ValType::Arr)),
            },
        }
    }

    open spec fn inhabits(typed: ArrValue) -> bool {
        true
    }

    open spec fn same(a: ArrValue, b: ArrValue) -> bool {
        a == b
    }

    proof fn lemma_into_checked(typed: ArrValue, untyped: Val) {
    }

    proof fn lemma_round_trip(typed: ArrValue, untyped: Val) {
    }
}

impl Typed for FuncVal {
    open spec fn val_type() -> ComplexValType {
        ComplexValType::Simple(ValType::Func)
    }

    fn type_desc() -> (t: ComplexValType) {
        ComplexValType::Simple(ValType::Func)
    }

    open spec fn into_ok(typed: FuncVal) -> bool {
        true
    }

    open spec fn into_val(typed: FuncVal, v: Val) -> bool {
        v == Val::Func(typed)
    }

    /// Never used: the conversion does not fail.
    open spec fn into_err(typed: FuncVal) -> Error {
        Error::NumberTooLarge
    }

    open spec fn into_pre(typed: FuncVal) -> bool {
        true
    }

    fn into_untyped(typed: FuncVal) -> (r: Result<Val, Error>) {
        Ok(Val::Func(typed))
    }

    open spec fn from_pre(untyped: Val) -> bool {
        true
    }

    open spec fn from_ok(untyped: Val) -> bool {
        check_spec(Self::val_type(), untyped) is Ok
    }

    open spec fn from_val(untyped: Val, typed: FuncVal) -> bool {
        untyped == Val::Func(typed)
    }

    open spec fn from_err(untyped: Val) -> Error {
        check_spec(Self::val_type(), untyped)->Err_0
    }

    fn from_untyped(untyped: Val) -> (r: Result<FuncVal, Error>) {
        let ty = Self::type_desc();
        match check(&ty, &untyped) {
            Err(e) => Err(e),
            Ok(()) => match untyped {
                Val::Func(f) => Ok(f),
                // not reached: the check accepts functions only
                _ => Err(Error::ExpectedGot(ty, ValType::Func)),
            },
        }
    }

    open spec fn inhabits(typed: FuncVal) -> bool {
        true
    }

    open spec fn same(a: FuncVal, b: FuncVal) -> bool {
        a == b
    }

    proof fn lemma_into_checked(typed: FuncVal, untyped: Val) {
    }

    proof fn lemma_round_trip(typed: FuncVal, untyped: Val) {
    }
}

/// A function defined in jsonnet (builtins are refused).
impl Typed for Rc<FuncDesc> {
    open spec fn val_type() -> ComplexValType {
        ComplexValType::Simple(ValType::Func)
    }

    fn type_desc() -> (t: ComplexValType) {
        ComplexValType::Simple(ValType::Func)
    }

    open spec fn into_ok(typed: Rc<FuncDesc>) -> bool {
        true
    }

    open spec fn into_val(typed: Rc<FuncDesc>, v: Val) -> bool {
        v == Val::Func(FuncVal::Normal(typed))
    }

    /// Never used: the conversion does not fail.
    open spec fn into_err(typed: Rc<FuncDesc>) -> Error {
        Error::NumberTooLarge
    }

    open spec fn into_pre(typed: Rc<FuncDesc>) -> bool {
        true
    }

    fn into_untyped(typed: Rc<FuncDesc>) -> (r: Result<Val, Error>) {
        Ok(Val::Func(FuncVal::Normal(typed)))
    }

    open spec fn from_pre(untyped: Val) -> bool {
        true
    }

    open spec fn from_ok(untyped: Val) -> bool {
        untyped matches Val::Func(FuncVal::Normal(_))
    }

    open spec fn from_val(untyped: Val, typed: Rc<FuncDesc>) -> bool {
        untyped == Val::Func(FuncVal::Normal(typed))
    }

    open spec fn from_err(untyped: Val) -> Error {
        match check_spec(Self::val_type(), untyped) {
            Err(e) => e,
            Ok(()) => Error::NotNormalFunction,
        }
    }

    fn from_untyped(untyped: Val) -> (r: Result<Rc<FuncDesc>, Error>) {
        let ty = Self::type_desc();
        match check(&ty, &untyped) {
            Err(e) => Err(e),
            Ok(()) => match untyped {
                Val::Func(FuncVal::Normal(desc)) => Ok(desc),
                Val::Func(_) => Err(Error::NotNormalFunction),
                // not reached: the check accepts functions only
                _ => Err(Error::ExpectedGot(ty, ValType::Func)),
            },
        }
    }

    open spec fn inhabits(typed: Rc<FuncDesc>) -> bool {
        true
    }

    open spec fn same(a: Rc<FuncDesc>, b: Rc<FuncDesc>) -> bool {
        a == b
    }

    proof fn lemma_into_checked(typed: Rc<FuncDesc>, untyped: Val) {
    }

    proof fn lemma_round_trip(typed: Rc<FuncDesc>, untyped: Val) {
    }
}

impl Typed for ObjValue {
    open spec fn val_type() -> ComplexValType {
        ComplexValType::Simple(ValType::Obj)
    }

    fn type_desc() -> (t: ComplexValType) {
        ComplexValType::Simple(ValType::Obj)
    }

    open spec fn into_ok(typed: ObjValue) -> bool {
        true
    }

    open spec fn into_val(typed: ObjValue, v: Val) -> bool {
        v == Val::Obj(typed)
    }

    /// Never used: the conversion does not fail.
    open spec fn into_err(typed: ObjValue) -> Error {
        Error::NumberTooLarge
    }

    open spec fn into_pre(typed: ObjValue) -> bool {
        true
    }

    fn into_untyped(typed: ObjValue) -> (r: Result<Val, Error>) {
        Ok(Val::Obj(typed))
    }

    open spec fn from_pre(untyped: Val) -> bool {
        true
    }

    open spec fn from_ok(untyped: Val) -> bool {
        check_spec(Self::val_type(), untyped) is Ok
    }

    open spec fn from_val(untyped: Val, typed: ObjValue) -> bool {
        untyped == Val::Obj(typed)
    }

    open spec fn from_err(untyped: Val) -> Error {
        check_spec(Self::val_type(), untyped)->Err_0
    }

    fn from_untyped(untyped: Val) -> (r: Result<ObjValue, Error>) {
        let ty = Self::type_desc();
        match check(&ty, &untyped) {
            Err(e) => Err(e),
            Ok(()) => match untyped {
                Val::Obj(o) => Ok(o),
                // not reached: the check accepts objects only
                _ => Err(Error::ExpectedGot(ty, ValType::Obj)),
            },
        }
    }

    open spec fn inhabits(typed: ObjValue) -> bool {
        true
    }

    open spec fn same(a: ObjValue, b: ObjValue) -> bool {
        a == b
    }

    proof fn lemma_into_checked(typed: ObjValue, untyped: Val) {
    }

    proof fn lemma_round_trip(typed: ObjValue, untyped: Val) {
    }
}

/// The jsonnet value of an indexable value.
pub open spec fn indexable_val(x: IndexableVal) -> Val {
    match x {
        IndexableVal::Str(s) => Val::Str(s),
        IndexableVal::Arr(a) => Val::Arr(a),
    }
}

impl Typed for IndexableVal {
    open spec fn val_type() -> ComplexValType {
        ComplexValType::Union(
            TypeList::Cons(
                Box::new(ComplexValType::Simple(ValType::Arr)),
                Box::new(
                    TypeList::Cons(Box::new(ComplexValType::Simple(ValType::Str)), Box::new(TypeList::Nil)),
                ),
            ),
        )
    }

    fn type_desc() -> (t: ComplexValType) {
        ComplexValType::Union(
            TypeList::Cons(
                Box::new(ComplexValType::Simple(ValType::Arr)),
                Box::new(
                    TypeList::Cons(Box::new(ComplexValType::Simple(ValType::Str)), Box::new(TypeList::Nil)),
                ),
            ),
        )
    }

    open spec fn into_ok(typed: IndexableVal) -> bool {
        true
    }

    open spec fn into_val(typed: IndexableVal, v: Val) -> bool {
        v == indexable_val(typed)
    }

    /// Never used: the conversion does not fail.
    open spec fn into_err(typed: IndexableVal) -> Error {
        Error::NumberTooLarge
    }

    open spec fn into_pre(typed: IndexableVal) -> bool {
        true
    }

    fn into_untyped(typed: IndexableVal) -> (r: Result<Val, Error>) {
        match typed {
            IndexableVal::Str(s) => Ok(Val::Str(s)),
            IndexableVal::Arr(a) => Ok(Val::Arr(a)),
        }
    }

    open spec fn from_pre(untyped: Val) -> bool {
        true
    }

    open spec fn from_ok(untyped: Val) -> bool {
        check_spec(Self::val_type(), untyped) is Ok
    }

    open spec fn from_val(untyped: Val, typed: IndexableVal) -> bool {
        untyped.indexable() == Ok::<IndexableVal, Error>(typed)
    }

    open spec fn from_err(untyped: Val) -> Error {
        check_spec(Self::val_type(), untyped)->Err_0
    }

    fn from_untyped(untyped: Val) -> (r: Result<IndexableVal, Error>) {
        let ty = Self::type_desc();
        match check(&ty, &untyped) {
            Err(e) => Err(e),
            Ok(()) => {
                proof {
                    if !(untyped is Str || untyped is Arr) {
                        let arr = ComplexValType::Simple(ValType::Arr);
                        let string = ComplexValType::Simple(ValType::Str);
                        let tail = TypeList::Cons(Box::new(string), Box::new(TypeList::Nil));
                        assert(check_spec(arr, untyped) is Err);
                        assert(check_spec(string, untyped) is Err);
                        assert(check_members_spec(TypeList::Nil, untyped) is Err);
                        assert(check_members_spec(tail, untyped) is Err);
                        assert(check_members_spec(TypeList::Cons(Box::new(arr), Box::new(tail)), untyped) is Err);
                    }
                }
                untyped.into_indexable()
            },
        }
    }

    open spec fn inhabits(typed: IndexableVal) -> bool {
        true
    }

    open spec fn same(a: IndexableVal, b: IndexableVal) -> bool {
        a == b
    }

    proof fn lemma_into_checked(typed: IndexableVal, untyped: Val) {
        if Self::into_ok(typed) && Self::into_val(typed, untyped) {
            let arr = ComplexValType::Simple(ValType::Arr);
            let string = ComplexValType::Simple(ValType::Str);
            let tail = TypeList::Cons(Box::new(string), Box::new(TypeList::Nil));
            match typed {
                IndexableVal::Str(_) => {
                    assert(check_spec(arr, untyped) is Err);
                    assert(check_spec(string, untyped) is Ok);
                    assert(check_members_spec(tail, untyped) is Ok);
                },
                IndexableVal::Arr(_) => {
                    assert(check_spec(arr, untyped) is Ok);
                },
            }
        }
    }

    proof fn lemma_round_trip(typed: IndexableVal, untyped: Val) {
        if Self::into_ok(typed) && Self::into_val(typed, untyped) {
            Self::lemma_into_checked(typed, untyped);
        }
    }
}

/// The values of the elements of an array that all evaluated, else none.
pub open spec fn array_values(v: Val) -> Seq<Val> {
    match v {
        Val::Arr(a) => match eval_all(a.elems()) {
            Ok(w) => w,
            Err(_) => Seq::empty(),
        },
        _ => Seq::empty(),
    }
}

/// An array whose elements are all evaluated.
pub struct VecVal(pub Vec<Val>);

impl Typed for VecVal {
    open spec fn val_type() -> ComplexValType {
        ComplexValType::Simple(ValType::Arr)
    }

    fn type_desc() -> (t: ComplexValType) {
        ComplexValType::Simple(ValType::Arr)
    }

    open spec fn into_ok(typed: VecVal) -> bool {
        true
    }

    open spec fn into_val(typed: VecVal, v: Val) -> bool {
        v == Val::Arr(ArrValue::Eager(typed.0))
    }

    /// Never used: the conversion does not fail.
    open spec fn into_err(typed: VecVal) -> Error {
        Error::NumberTooLarge
    }

    open spec fn into_pre(typed: VecVal) -> bool {
        true
    }

    fn into_untyped(typed: VecVal) -> (r: Result<Val, Error>) {
        Ok(Val::Arr(ArrValue::Eager(typed.0)))
    }

    open spec fn from_pre(untyped: Val) -> bool {
        true
    }

    /// An array all of whose elements evaluate.
    open spec fn from_ok(untyped: Val) -> bool {
        &&& check_spec(Self::val_type(), untyped) is Ok
        &&& eval_all(untyped->Arr_0.elems()) is Ok
    }

    open spec fn from_val(untyped: Val, typed: VecVal) -> bool {
        untyped matches Val::Arr(a) && eval_all(a.elems()) == Ok::<Seq<Val>, Error>(typed.0@)
    }

    /// The failed check, else the first failed evaluation.
    open spec fn from_err(untyped: Val) -> Error {
        match check_spec(Self::val_type(), untyped) {
            Err(e) => e,
            Ok(()) => eval_all(untyped->Arr_0.elems())->Err_0,
        }
    }

    fn from_untyped(untyped: Val) -> (r: Result<VecVal, Error>) {
        let ty = Self::type_desc();
        match check(&ty, &untyped) {
            Err(e) => Err(e),
            Ok(()) => match untyped {
                Val::Arr(a) => match a.evaluated() {
                    Ok(w) => Ok(VecVal(w)),
                    Err(e) => Err(e),
                },
                // not reached: the check accepts arrays only
                _ => Err(Error::ExpectedGot(ty, ValType::Arr)),
            },
        }
    }

    open spec fn inhabits(typed: VecVal) -> bool {
        true
    }

    open spec fn same(a: VecVal, b: VecVal) -> bool {
        a.0@ == b.0@
    }

    proof fn lemma_into_checked(typed: VecVal, untyped: Val) {
    }

    proof fn lemma_round_trip(typed: VecVal, untyped: Val) {
        if Self::into_ok(typed) && Self::into_val(typed, untyped) {
            let w = typed.0;
            let elems = ArrValue::Eager(w).elems();
            lemma_eval_all_ok(elems);
            assert(Seq::new(elems.len(), |i: int| elems[i]->Ok_0) =~= w@);
        }
    }
}

/// How a jsonnet function is made callable from Rust with one signature.
pub trait NativeDesc {
    /// The Rust value that calls the function.
    type Value;

    /// The Rust value that `into_native` makes of `func`.
    spec fn native_of(func: FuncVal) -> Self::Value;

    /// The Rust value that calls `func`.
    fn into_native(func: FuncVal) -> (r: Self::Value)
        ensures
            r == Self::native_of(func),
    ;
}

/// A jsonnet function made callable from Rust as `D` describes.
pub struct NativeFn<D: NativeDesc>(D::Value);

impl<D: NativeDesc> NativeFn<D> {
    /// The Rust value that calls the function.
    pub closed spec fn native(&self) -> D::Value {
        self.0
    }

    /// The Rust value that calls the function.
    pub fn deref(&self) -> (r: &D::Value)
        ensures
            *r == self.native(),
    {
        &self.0
    }
}

impl<D: NativeDesc> Typed for NativeFn<D> {
    open spec fn val_type() -> ComplexValType {
        ComplexValType::Simple(ValType::Func)
    }

    fn type_desc() -> (t: ComplexValType) {
        ComplexValType::Simple(ValType::Func)
    }

    /// A native function is never turned back into a jsonnet value.
    open spec fn into_ok(typed: NativeFn<D>) -> bool {
        false
    }

    /// Never used: the conversion always fails.
    open spec fn into_val(typed: NativeFn<D>, v: Val) -> bool {
        false
    }

    open spec fn into_err(typed: NativeFn<D>) -> Error {
        Error::NativeIntoUntyped
    }

    open spec fn into_pre(typed: NativeFn<D>) -> bool {
        true
    }

    fn into_untyped(typed: NativeFn<D>) -> (r: Result<Val, Error>) {
        Err(Error::NativeIntoUntyped)
    }

    /// Only functions are taken.
    open spec fn from_pre(untyped: Val) -> bool {
        untyped is Func
    }

    open spec fn from_ok(untyped: Val) -> bool {
        true
    }

    /// What `D` makes of the function.
    open spec fn from_val(untyped: Val, typed: NativeFn<D>) -> bool {
        untyped matches Val::Func(f) && typed.native() == D::native_of(f)
    }

    /// Never used: the conversion does not fail.
    open spec fn from_err(untyped: Val) -> Error {
        Error::NativeIntoUntyped
    }

    fn from_untyped(untyped: Val) -> (r: Result<NativeFn<D>, Error>) {
        match untyped {
            Val::Func(f) => Ok(NativeFn(D::into_native(f))),
            // not reached: the precondition admits functions only
            _ => Err(Error::NativeIntoUntyped),
        }
    }

    open spec fn inhabits(typed: NativeFn<D>) -> bool {
        true
    }

    open spec fn same(a: NativeFn<D>, b: NativeFn<D>) -> bool {
        a.native() == b.native()
    }

    proof fn lemma_into_checked(typed: NativeFn<D>, untyped: Val) {
    }

    proof fn lemma_round_trip(typed: NativeFn<D>, untyped: Val) {
    }
}

impl<T: Typed> Typed for Vec<T> {
    open spec fn val_type() -> ComplexValType {
        ComplexValType::Array(Box::new(T::val_type()))
    }

    fn type_desc() -> (t: ComplexValType) {
        ComplexValType::Array(Box::new(T::type_desc()))
    }

    /// Every element converts.
    open spec fn into_ok(typed: Vec<T>) -> bool {
        forall|i: int| 0 <= i < typed@.len() ==> T::into_ok(#[trigger] typed@[i])
    }

    /// An evaluated array of the elements' jsonnet values, in order.
    open spec fn into_val(typed: Vec<T>, v: Val) -> bool {
        &&& v matches Val::Arr(ArrValue::Eager(w))
        &&& w@.len() == typed@.len()
        &&& forall|i: int| 0 <= i < typed@.len() ==> T::into_val(#[trigger] typed@[i], w@[i])
    }

    /// The error of the first element that does not convert.
    open spec fn into_err(typed: Vec<T>) -> Error {
        T::into_err(typed@[first_into_failure::<T>(typed@, 0)])
    }

    /// Every element converts.
    open spec fn into_pre(typed: Vec<T>) -> bool {
        forall|i: int| 0 <= i < typed@.len() ==> T::into_pre(#[trigger] typed@[i])
    }

    fn into_untyped(typed: Vec<T>) -> (r: Result<Val, Error>) {
        match untype_all(typed) {
            Ok(w) => Ok(Val::Arr(ArrValue::Eager(w))),
            Err(e) => Err(e),
        }
    }

    /// Where the check passes, each element's value is one that `T` takes.
    open spec fn from_pre(untyped: Val) -> bool {
        check_spec(Self::val_type(), untyped) is Ok ==> forall|i: int|
            0 <= i < array_values(untyped).len() ==> T::from_pre(#[trigger] array_values(untyped)[i])
    }

    /// An array of the element type all of whose elements convert.
    open spec fn from_ok(untyped: Val) -> bool {
        &&& check_spec(Self::val_type(), untyped) is Ok
        &&& forall|i: int|
            0 <= i < array_values(untyped).len() ==> T::from_ok(#[trigger] array_values(untyped)[i])
    }

    /// The elements converted in order.
    open spec fn from_val(untyped: Val, typed: Vec<T>) -> bool {
        &&& typed@.len() == array_values(untyped).len()
        &&& forall|i: int|
            0 <= i < typed@.len() ==> T::from_val(#[trigger] array_values(untyped)[i], typed@[i])
    }

    /// The failed check, else the error of the first element that does not
    /// convert.
    open spec fn from_err(untyped: Val) -> Error {
        match check_spec(Self::val_type(), untyped) {
            Err(e) => e,
            Ok(()) => T::from_err(
                array_values(untyped)[first_from_failure::<T>(array_values(untyped), 0)],
            ),
        }
    }

    fn from_untyped(untyped: Val) -> (r: Result<Vec<T>, Error>) {
        let ty = Self::type_desc();
        match check(&ty, &untyped) {
            Err(e) => Err(e),
            Ok(()) => match untyped {
                Val::Arr(a) => {
                    proof {
                        lemma_checked_elems(T::val_type(), a.elems(), 0);
                        lemma_eval_all_ok(a.elems());
                    }
                    match a.evaluated() {
                        Ok(w) => convert_all::<T>(w),
                        // not reached: the check evaluated every element
                        Err(e) => Err(e),
                    }
                },
                // not reached: the check accepts arrays only
                _ => Err(Error::ExpectedGot(ty, ValType::Arr)),
            },
        }
    }

    open spec fn inhabits(typed: Vec<T>) -> bool {
        forall|i: int| 0 <= i < typed@.len() ==> T::inhabits(#[trigger] typed@[i])
    }

    open spec fn same(a: Vec<T>, b: Vec<T>) -> bool {
        a@.len() == b@.len() && forall|i: int| 0 <= i < a@.len() ==> T::same(#[trigger] a@[i], b@[i])
    }

    proof fn lemma_into_checked(typed: Vec<T>, untyped: Val) {
        if Self::into_ok(typed) && Self::into_val(typed, untyped) {
            if let Val::Arr(ArrValue::Eager(w)) = untyped {
                let elems = ArrValue::Eager(w).elems();
                assert forall|j: int| 0 <= j < elems.len() implies (#[trigger] elems[j]) is Ok && check_spec(
                    T::val_type(),
                    elems[j]->Ok_0,
                ) is Ok by {
                    T::lemma_into_checked(typed@[j], w@[j]);
                }
                lemma_all_checked(T::val_type(), elems, 0);
            }
        }
    }

    proof fn lemma_round_trip(typed: Vec<T>, untyped: Val) {
        if Self::into_ok(typed) && Self::into_val(typed, untyped) {
            Self::lemma_into_checked(typed, untyped);
            if let Val::Arr(ArrValue::Eager(w)) = untyped {
                let elems = ArrValue::Eager(w).elems();
                lemma_eval_all_ok(elems);
                assert(Seq::new(elems.len(), |i: int| elems[i]->Ok_0) =~= w@);
                assert(array_values(untyped) == w@);
                assert forall|i: int| 0 <= i < w@.len() implies T::from_pre(#[trigger] w@[i]) && T::from_ok(w@[i]) by {
                    T::lemma_round_trip(typed@[i], w@[i]);
                }
                assert forall|back: Vec<T>| #[trigger] Self::from_val(untyped, back) implies Self::same(back, typed) by {
                    assert forall|i: int| 0 <= i < back@.len() implies T::same(#[trigger] back@[i], typed@[i]) by {
                        T::lemma_round_trip(typed@[i], w@[i]);
                        assert(T::from_val(w@[i], back@[i]));
                    }
                }
            }
        }
    }
}

/// Where every element reads back as itself from its jsonnet value, and that
/// value has the element type, the array of a vector reads back as the
/// vector itself.
pub proof fn law_vec_round_trip<T: Typed>(xs: Vec<T>, untyped: Val)
    requires
        forall|i: int, v: Val|
            0 <= i < xs@.len() && T::into_ok(xs@[i]) && #[trigger] T::into_val(xs@[i], v) ==> {
                &&& check_spec(T::val_type(), v) is Ok
                &&& T::from_pre(v)
                &&& T::from_ok(v)
                &&& forall|back: T| #[trigger] T::from_val(v, back) ==> back == xs@[i]
            },
    ensures
        Vec::<T>::into_ok(xs) && Vec::<T>::into_val(xs, untyped) ==> {
            &&& Vec::<T>::from_pre(untyped)
            &&& Vec::<T>::from_ok(untyped)
            &&& forall|back: Vec<T>| #[trigger] Vec::<T>::from_val(untyped, back) ==> back@ == xs@
        },
{
    if Vec::<T>::into_ok(xs) && Vec::<T>::into_val(xs, untyped) {
        if let Val::Arr(ArrValue::Eager(w)) = untyped {
            let elems = ArrValue::Eager(w).elems();
            assert forall|j: int| 0 <= j < elems.len() implies (#[trigger] elems[j]) is Ok && check_spec(
                T::val_type(),
                elems[j]->Ok_0,
            ) is Ok by {
                assert(T::into_val(xs@[j], w@[j]));
            }
            lemma_all_checked(T::val_type(), elems, 0);
            lemma_eval_all_ok(elems);
            assert(Seq::new(elems.len(), |i: int| elems[i]->Ok_0) =~= w@);
            assert(array_values(untyped) == w@);
            assert forall|i: int| 0 <= i < w@.len() implies T::from_pre(#[trigger] w@[i]) && T::from_ok(w@[i]) by {
                assert(T::into_val(xs@[i], w@[i]));
            }
            assert forall|back: Vec<T>| #[trigger] Vec::<T>::from_val(untyped, back) implies back@ == xs@ by {
                assert forall|i: int| 0 <= i < back@.len() implies back@[i] == xs@[i] by {
                    assert(T::into_val(xs@[i], w@[i]));
                    assert(T::from_val(w@[i], back@[i]));
                }
                assert(back@ =~= xs@);
            }
        }
    }
}

/// Interned bytes: from a byte array as it is, else from an array of
/// numbers that each convert to `u8`.
impl Typed for IBytes {
    open spec fn val_type() -> ComplexValType {
        ComplexValType::Array(Box::new(ComplexValType::BoundedNumber(Some(0i128), Some(255i128))))
    }

    fn type_desc() -> (t: ComplexValType) {
        ComplexValType::Array(Box::new(ComplexValType::BoundedNumber(Some(0i128), Some(255i128))))
    }

    open spec fn into_ok(typed: IBytes) -> bool {
        true
    }

    open spec fn into_val(typed: IBytes, v: Val) -> bool {
        v == Val::Arr(ArrValue::Bytes(typed))
    }

    /// Never used: the conversion does not fail.
    open spec fn into_err(typed: IBytes) -> Error {
        Error::NumberTooLarge
    }

    open spec fn into_pre(typed: IBytes) -> bool {
        true
    }

    fn into_untyped(typed: IBytes) -> (r: Result<Val, Error>) {
        Ok(Val::Arr(ArrValue::Bytes(typed)))
    }

    /// An array that is not already a byte array fits the interner: at most
    /// `u32::MAX` elements.
    open spec fn from_pre(untyped: Val) -> bool {
        match untyped {
            Val::Arr(ArrValue::Bytes(_)) => true,
            Val::Arr(a) => a.elems().len() <= u32::MAX,
            _ => true,
        }
    }

    open spec fn from_ok(untyped: Val) -> bool {
        untyped matches Val::Arr(ArrValue::Bytes(_)) || Vec::<u8>::from_ok(untyped)
    }

    /// A byte array's own bytes; else the bytes that the elements convert to.
    open spec fn from_val(untyped: Val, typed: IBytes) -> bool {
        match untyped {
            Val::Arr(ArrValue::Bytes(b)) => typed == b,
            _ => {
                &&& ibytes_bytes(typed).len() == array_values(untyped).len()
                &&& forall|i: int|
                    0 <= i < ibytes_bytes(typed).len() ==> u8::from_val(
                        #[trigger] array_values(untyped)[i],
                        ibytes_bytes(typed)[i],
                    )
            },
        }
    }

    open spec fn from_err(untyped: Val) -> Error {
        Vec::<u8>::from_err(untyped)
    }

    fn from_untyped(untyped: Val) -> (r: Result<IBytes, Error>) {
        let ghost given = untyped;
        match untyped {
            Val::Arr(ArrValue::Bytes(b)) => Ok(b),
            other => match <Vec<u8> as Typed>::from_untyped(other) {
                Ok(bytes) => {
                    proof {
                        if let Val::Arr(a) = given {
                            lemma_eval_all_len(a.elems());
                        }
                    }
                    Ok(intern_bytes(bytes.as_slice()))
                },
                Err(e) => Err(e),
            },
        }
    }

    open spec fn inhabits(typed: IBytes) -> bool {
        true
    }

    open spec fn same(a: IBytes, b: IBytes) -> bool {
        a == b
    }

    proof fn lemma_into_checked(typed: IBytes, untyped: Val) {
        if Self::into_ok(typed) && Self::into_val(typed, untyped) {
            if let Val::Arr(ArrValue::Bytes(b)) = untyped {
                let elems = ArrValue::Bytes(b).elems();
                let ty = ComplexValType::BoundedNumber(Some(0i128), Some(255i128));
                assert forall|j: int| 0 <= j < elems.len() implies (#[trigger] elems[j]) is Ok && check_spec(
                    ty,
                    elems[j]->Ok_0,
                ) is Ok by {
                    let x = ibytes_bytes(b)[j];
                    lemma_int_number(x as int);
                    assert(byte_val(x) == Val::Num(int_number(x as int)));
                }
                lemma_all_checked(ty, elems, 0);
            }
        }
    }

    proof fn lemma_round_trip(typed: IBytes, untyped: Val) {
    }
}

/// Reading a byte array as an array of `u8` numbers gives its own bytes,
/// so the shortcut that `IBytes::from_untyped` takes for byte arrays
/// agrees with the conversion of the elements one by one.
pub proof fn law_byte_array_elements(b: IBytes)
    ensures
        <Vec<u8> as Typed>::from_ok(Val::Arr(ArrValue::Bytes(b))),
        forall|xs: Vec<u8>|
            #[trigger] <Vec<u8> as Typed>::from_val(Val::Arr(ArrValue::Bytes(b)), xs) ==> xs@ == ibytes_bytes(b),
{
    let v = Val::Arr(ArrValue::Bytes(b));
    <IBytes as Typed>::lemma_into_checked(b, v);
    let elems = ArrValue::Bytes(b).elems();
    lemma_eval_all_ok(elems);
    let w = array_values(v);
    assert(w =~= Seq::new(elems.len(), |i: int| elems[i]->Ok_0));
    assert forall|i: int| 0 <= i < w.len() implies #[trigger] w[i] == Val::Num(int_number(ibytes_bytes(b)[i] as int))
        && <u8 as Typed>::from_ok(w[i])
        && integer_outcome(0i128, 255i128, IntKind::U8, w[i]) == Ok::<int, Error>(ibytes_bytes(b)[i] as int) by {
        let x = ibytes_bytes(b)[i];
        lemma_int_number(x as int);
        assert(byte_val(x) == Val::Num(int_number(x as int)));
        <u8 as Typed>::lemma_into_checked(x, w[i]);
    }
    assert forall|xs: Vec<u8>| #[trigger] <Vec<u8> as Typed>::from_val(v, xs) implies xs@ == ibytes_bytes(b) by {
        assert forall|i: int| 0 <= i < xs@.len() implies xs@[i] == ibytes_bytes(b)[i] by {
            assert(<u8 as Typed>::from_val(w[i], xs@[i]));
        }
        assert(xs@ =~= ibytes_bytes(b));
    }
}

} // verus!
