//! Integers that lie between two bounds fixed by the type.
use vstd::prelude::*;
use crate::conversions::{integer_from, integer_outcome};
use crate::number::{double_number, int_number, lemma_double_bounds, lemma_double_exact, lemma_int_number, Number};
use crate::typed::Typed;
use crate::types::{ComplexValType, Error, IntKind};
use crate::val::Val;

verus! {

/// An `i8` between two bounds. Const parameters here are unsigned, so
/// each bound is written as its distance above `i8::MIN`:
/// `BoundedI8<LO, HI>` holds the values from `LO - 128` to `HI - 128`.
#[derive(Clone, Copy, Debug)]
pub struct BoundedI8<const LO: u8, const HI: u8>(i8);

impl<const LO: u8, const HI: u8> View for BoundedI8<LO, HI> {
    type V = i8;

    closed spec fn view(&self) -> i8 {
        self.0
    }
}

impl<const LO: u8, const HI: u8> BoundedI8<LO, HI> {
    /// The least value.
    pub open spec fn min_value() -> int {
        LO as int - 128
    }

    /// The greatest value.
    pub open spec fn max_value() -> int {
        HI as int - 128
    }

    #[verifier::type_invariant]
    closed spec fn within_bounds(self) -> bool {
        Self::min_value() <= self.0 <= Self::max_value()
    }

    /// The least value.
    pub fn min() -> (r: i8)
        ensures
            r == Self::min_value(),
    {
        (LO as i16 - 128) as i8
    }

    /// The greatest value.
    pub fn max() -> (r: i8)
        ensures
            r == Self::max_value(),
    {
        (HI as i16 - 128) as i8
    }

    /// `value` where it lies between the bounds, else nothing.
    pub fn new(value: i8) -> (r: Option<Self>)
        ensures
            r is Some <==> Self::min_value() <= value <= Self::max_value(),
            r matches Some(b) ==> b@ == value,
    {
        if value >= Self::min() && value <= Self::max() {
            Some(BoundedI8(value))
        } else {
            None
        }
    }

    /// The value.
    pub fn value(self) -> (r: i8)
        ensures
            r == self@,
            Self::min_value() <= r <= Self::max_value(),
    {
        proof {
            use_type_invariant(&self);
        }
        self.0
    }

    /// The value, by reference.
    pub fn deref(&self) -> (r: &i8)
        ensures
            *r == self@,
            Self::min_value() <= *r <= Self::max_value(),
    {
        proof {
            use_type_invariant(self);
        }
        &self.0
    }
}

impl<const LO: u8, const HI: u8> Typed for BoundedI8<LO, HI> {
    open spec fn val_type() -> ComplexValType {
        ComplexValType::BoundedNumber(Some(Self::min_value() as i128), Some(Self::max_value() as i128))
    }

    fn type_desc() -> (t: ComplexValType) {
        ComplexValType::BoundedNumber(Some(Self::min() as i128), Some(Self::max() as i128))
    }

    open spec fn into_ok(typed: BoundedI8<LO, HI>) -> bool {
        true
    }

    open spec fn into_val(typed: BoundedI8<LO, HI>, v: Val) -> bool {
        v == Val::Num(int_number(typed@ as int))
    }

    /// Never used: the conversion does not fail.
    open spec fn into_err(typed: BoundedI8<LO, HI>) -> Error {
        Error::NumberTooLarge
    }

    open spec fn into_pre(value: BoundedI8<LO, HI>) -> bool {
        true
    }

    fn into_untyped(value: BoundedI8<LO, HI>) -> (r: Result<Val, Error>) {
        Ok(Val::Num(Number::from_i64(value.0 as i64)))
    }

    open spec fn from_pre(untyped: Val) -> bool {
        true
    }

    open spec fn from_ok(untyped: Val) -> bool {
        integer_outcome(Self::min_value() as i128, Self::max_value() as i128, IntKind::I8, untyped) is Ok
    }

    open spec fn from_val(untyped: Val, typed: BoundedI8<LO, HI>) -> bool {
        integer_outcome(Self::min_value() as i128, Self::max_value() as i128, IntKind::I8, untyped)
            == Ok::<int, Error>(typed@ as int)
    }

    open spec fn from_err(untyped: Val) -> Error {
        integer_outcome(Self::min_value() as i128, Self::max_value() as i128, IntKind::I8, untyped)->Err_0
    }

    fn from_untyped(untyped: Val) -> (r: Result<BoundedI8<LO, HI>, Error>) {
        match integer_from(Self::min() as i128, Self::max() as i128, IntKind::I8, untyped) {
            Ok(x) => Ok(BoundedI8(x as i8)),
            Err(e) => Err(e),
        }
    }

    /// The value lies between the bounds (as every value of the type does).
    open spec fn inhabits(typed: BoundedI8<LO, HI>) -> bool {
        Self::min_value() <= typed@ <= Self::max_value()
    }

    open spec fn same(a: BoundedI8<LO, HI>, b: BoundedI8<LO, HI>) -> bool {
        a@ == b@
    }

    proof fn lemma_into_checked(typed: BoundedI8<LO, HI>, untyped: Val) {
        lemma_int_number(typed@ as int);
    }

    proof fn lemma_round_trip(typed: BoundedI8<LO, HI>, untyped: Val) {
        lemma_int_number(typed@ as int);
    }
}

/// An `i16` between two bounds. Const parameters here are unsigned, so
/// each bound is written as its distance above `i16::MIN`:
/// `BoundedI16<LO, HI>` holds the values from `LO - 32768` to `HI - 32768`.
#[derive(Clone, Copy, Debug)]
pub struct BoundedI16<const LO: u16, const HI: u16>(i16);

impl<const LO: u16, const HI: u16> View for BoundedI16<LO, HI> {
    type V = i16;

    closed spec fn view(&self) -> i16 {
        self.0
    }
}

impl<const LO: u16, const HI: u16> BoundedI16<LO, HI> {
    /// The least value.
    pub open spec fn min_value() -> int {
        LO as int - 32768
    }

    /// The greatest value.
    pub open spec fn max_value() -> int {
        HI as int - 32768
    }

    #[verifier::type_invariant]
    closed spec fn within_bounds(self) -> bool {
        Self::min_value() <= self.0 <= Self::max_value()
    }

    /// The least value.
    pub fn min() -> (r: i16)
        ensures
            r == Self::min_value(),
    {
        (LO as i32 - 32768) as i16
    }

    /// The greatest value.
    pub fn max() -> (r: i16)
        ensures
            r == Self::max_value(),
    {
        (HI as i32 - 32768) as i16
    }

    /// `value` where it lies between the bounds, else nothing.
    pub fn new(value: i16) -> (r: Option<Self>)
        ensures
            r is Some <==> Self::min_value() <= value <= Self::max_value(),
            r matches Some(b) ==> b@ == value,
    {
        if value >= Self::min() && value <= Self::max() {
            Some(BoundedI16(value))
        } else {
            None
        }
    }

    /// The value.
    pub fn value(self) -> (r: i16)
        ensures
            r == self@,
            Self::min_value() <= r <= Self::max_value(),
    {
        proof {
            use_type_invariant(&self);
        }
        self.0
    }

    /// The value, by reference.
    pub fn deref(&self) -> (r: &i16)
        ensures
            *r == self@,
            Self::min_value() <= *r <= Self::max_value(),
    {
        proof {
            use_type_invariant(self);
        }
        &self.0
    }
}

impl<const LO: u16, const HI: u16> Typed for BoundedI16<LO, HI> {
    open spec fn val_type() -> ComplexValType {
        ComplexValType::BoundedNumber(Some(Self::min_value() as i128), Some(Self::max_value() as i128))
    }

    fn type_desc() -> (t: ComplexValType) {
        ComplexValType::BoundedNumber(Some(Self::min() as i128), Some(Self::max() as i128))
    }

    open spec fn into_ok(typed: BoundedI16<LO, HI>) -> bool {
        true
    }

    open spec fn into_val(typed: BoundedI16<LO, HI>, v: Val) -> bool {
        v == Val::Num(int_number(typed@ as int))
    }

    /// Never used: the conversion does not fail.
    open spec fn into_err(typed: BoundedI16<LO, HI>) -> Error {
        Error::NumberTooLarge
    }

    open spec fn into_pre(value: BoundedI16<LO, HI>) -> bool {
        true
    }

    fn into_untyped(value: BoundedI16<LO, HI>) -> (r: Result<Val, Error>) {
        Ok(Val::Num(Number::from_i64(value.0 as i64)))
    }

    open spec fn from_pre(untyped: Val) -> bool {
        true
    }

    open spec fn from_ok(untyped: Val) -> bool {
        integer_outcome(Self::min_value() as i128, Self::max_value() as i128, IntKind::I16, untyped) is Ok
    }

    open spec fn from_val(untyped: Val, typed: BoundedI16<LO, HI>) -> bool {
        integer_outcome(Self::min_value() as i128, Self::max_value() as i128, IntKind::I16, untyped)
            == Ok::<int, Error>(typed@ as int)
    }

    open spec fn from_err(untyped: Val) -> Error {
        integer_outcome(Self::min_value() as i128, Self::max_value() as i128, IntKind::I16, untyped)->Err_0
    }

    fn from_untyped(untyped: Val) -> (r: Result<BoundedI16<LO, HI>, Error>) {
        match integer_from(Self::min() as i128, Self::max() as i128, IntKind::I16, untyped) {
            Ok(x) => Ok(BoundedI16(x as i16)),
            Err(e) => Err(e),
        }
    }

    /// The value lies between the bounds (as every value of the type does).
    open spec fn inhabits(typed: BoundedI16<LO, HI>) -> bool {
        Self::min_value() <= typed@ <= Self::max_value()
    }

    open spec fn same(a: BoundedI16<LO, HI>, b: BoundedI16<LO, HI>) -> bool {
        a@ == b@
    }

    proof fn lemma_into_checked(typed: BoundedI16<LO, HI>, untyped: Val) {
        lemma_int_number(typed@ as int);
    }

    proof fn lemma_round_trip(typed: BoundedI16<LO, HI>, untyped: Val) {
        lemma_int_number(typed@ as int);
    }
}

/// An `i32` between two bounds. Const parameters here are unsigned, so
/// each bound is written as its distance above `i32::MIN`:
/// `BoundedI32<LO, HI>` holds the values from `LO - 2147483648` to `HI - 2147483648`.
#[derive(Clone, Copy, Debug)]
pub struct BoundedI32<const LO: u32, const HI: u32>(i32);

impl<const LO: u32, const HI: u32> View for BoundedI32<LO, HI> {
    type V = i32;

    closed spec fn view(&self) -> i32 {
        self.0
    }
}

impl<const LO: u32, const HI: u32> BoundedI32<LO, HI> {
    /// The least value.
    pub open spec fn min_value() -> int {
        LO as int - 2147483648
    }

    /// The greatest value.
    pub open spec fn max_value() -> int {
        HI as int - 2147483648
    }

    #[verifier::type_invariant]
    closed spec fn within_bounds(self) -> bool {
        Self::min_value() <= self.0 <= Self::max_value()
    }

    /// The least value.
    pub fn min() -> (r: i32)
        ensures
            r == Self::min_value(),
    {
        (LO as i64 - 2147483648) as i32
    }

    /// The greatest value.
    pub fn max() -> (r: i32)
        ensures
            r == Self::max_value(),
    {
        (HI as i64 - 2147483648) as i32
    }

    /// `value` where it lies between the bounds, else nothing.
    pub fn new(value: i32) -> (r: Option<Self>)
        ensures
            r is Some <==> Self::min_value() <= value <= Self::max_value(),
            r matches Some(b) ==> b@ == value,
    {
        if value >= Self::min() && value <= Self::max() {
            Some(BoundedI32(value))
        } else {
            None
        }
    }

    /// The value.
    pub fn value(self) -> (r: i32)
        ensures
            r == self@,
            Self::min_value() <= r <= Self::max_value(),
    {
        proof {
            use_type_invariant(&self);
        }
        self.0
    }

    /// The value, by reference.
    pub fn deref(&self) -> (r: &i32)
        ensures
            *r == self@,
            Self::min_value() <= *r <= Self::max_value(),
    {
        proof {
            use_type_invariant(self);
        }
        &self.0
    }
}

impl<const LO: u32, const HI: u32> Typed for BoundedI32<LO, HI> {
    open spec fn val_type() -> ComplexValType {
        ComplexValType::BoundedNumber(Some(Self::min_value() as i128), Some(Self::max_value() as i128))
    }

    fn type_desc() -> (t: ComplexValType) {
        ComplexValType::BoundedNumber(Some(Self::min() as i128), Some(Self::max() as i128))
    }

    open spec fn into_ok(typed: BoundedI32<LO, HI>) -> bool {
        true
    }

    open spec fn into_val(typed: BoundedI32<LO, HI>, v: Val) -> bool {
        v == Val::Num(int_number(typed@ as int))
    }

    /// Never used: the conversion does not fail.
    open spec fn into_err(typed: BoundedI32<LO, HI>) -> Error {
        Error::NumberTooLarge
    }

    open spec fn into_pre(value: BoundedI32<LO, HI>) -> bool {
        true
    }

    fn into_untyped(value: BoundedI32<LO, HI>) -> (r: Result<Val, Error>) {
        Ok(Val::Num(Number::from_i64(value.0 as i64)))
    }

    open spec fn from_pre(untyped: Val) -> bool {
        true
    }

    open spec fn from_ok(untyped: Val) -> bool {
        integer_outcome(Self::min_value() as i128, Self::max_value() as i128, IntKind::I32, untyped) is Ok
    }

    open spec fn from_val(untyped: Val, typed: BoundedI32<LO, HI>) -> bool {
        integer_outcome(Self::min_value() as i128, Self::max_value() as i128, IntKind::I32, untyped)
            == Ok::<int, Error>(typed@ as int)
    }

    open spec fn from_err(untyped: Val) -> Error {
        integer_outcome(Self::min_value() as i128, Self::max_value() as i128, IntKind::I32, untyped)->Err_0
    }

    fn from_untyped(untyped: Val) -> (r: Result<BoundedI32<LO, HI>, Error>) {
        match integer_from(Self::min() as i128, Self::max() as i128, IntKind::I32, untyped) {
            Ok(x) => Ok(BoundedI32(x as i32)),
            Err(e) => Err(e),
        }
    }

    /// The value lies between the bounds (as every value of the type does).
    open spec fn inhabits(typed: BoundedI32<LO, HI>) -> bool {
        Self::min_value() <= typed@ <= Self::max_value()
    }

    open spec fn same(a: BoundedI32<LO, HI>, b: BoundedI32<LO, HI>) -> bool {
        a@ == b@
    }

    proof fn lemma_into_checked(typed: BoundedI32<LO, HI>, untyped: Val) {
        lemma_int_number(typed@ as int);
    }

    proof fn lemma_round_trip(typed: BoundedI32<LO, HI>, untyped: Val) {
        lemma_int_number(typed@ as int);
    }
}

/// `x` saturated to the range of `i64`: what `x as i64` gives for a
/// number.
pub open spec fn saturate_i64(x: int) -> int {
    if x < i64::MIN {
        i64::MIN as int
    } else if x > i64::MAX {
        i64::MAX as int
    } else {
        x
    }
}

/// `x` saturated to the range of `usize`: what `x as usize` gives for a
/// number.
pub open spec fn saturate_usize(x: int) -> int {
    if x < 0 {
        0
    } else if x > usize::MAX {
        usize::MAX as int
    } else {
        x
    }
}

/// Saturating gives the value of the type's range nearest to `x`: `x`
/// itself where it is in range.
pub proof fn law_saturate_nearest(x: int, y: int)
    ensures
        i64::MIN <= saturate_i64(x) <= i64::MAX,
        i64::MIN <= x <= i64::MAX ==> saturate_i64(x) == x,
        i64::MIN <= y <= i64::MAX ==> (if saturate_i64(x) >= x { saturate_i64(x) - x } else { x - saturate_i64(x) })
            <= (if y >= x { y - x } else { x - y }),
        0 <= saturate_usize(x) <= usize::MAX,
        0 <= x <= usize::MAX ==> saturate_usize(x) == x,
        0 <= y <= usize::MAX ==> (if saturate_usize(x) >= x { saturate_usize(x) - x } else { x - saturate_usize(x) })
            <= (if y >= x { y - x } else { x - y }),
{
}

/// `x` saturated to the range of `i64`.
fn saturating_i64(x: i128) -> (r: i64)
    ensures
        r == saturate_i64(x as int),
{
    if x < i64::MIN as i128 {
        i64::MIN
    } else if x > i64::MAX as i128 {
        i64::MAX
    } else {
        x as i64
    }
}

/// `x` saturated to the range of `usize`.
fn saturating_usize(x: i128) -> (r: usize)
    ensures
        r == saturate_usize(x as int),
{
    if x < 0 {
        0
    } else if x > usize::MAX as i128 {
        usize::MAX
    } else {
        x as usize
    }
}

/// An `i64` between two bounds. Const parameters here are unsigned, so
/// each bound is written as its distance above `i64::MIN`:
/// `BoundedI64<LO, HI>` holds the values from `LO - 2^63` to `HI - 2^63`.
///
/// As a jsonnet number is a double, the type check uses the bounds as
/// doubles, and reading a number saturates it to the range of `i64`; a
/// value above `2^53` in magnitude is rounded to a double on the way out.
#[derive(Clone, Copy, Debug)]
pub struct BoundedI64<const LO: u64, const HI: u64>(i64);

impl<const LO: u64, const HI: u64> View for BoundedI64<LO, HI> {
    type V = i64;

    closed spec fn view(&self) -> i64 {
        self.0
    }
}

impl<const LO: u64, const HI: u64> BoundedI64<LO, HI> {
    /// The least value.
    pub open spec fn min_value() -> int {
        LO as int - 9223372036854775808
    }

    /// The greatest value.
    pub open spec fn max_value() -> int {
        HI as int - 9223372036854775808
    }

    /// The lower bound of the type check: the least value as a double.
    pub open spec fn check_min() -> int {
        double_number(Self::min_value()).trunc()
    }

    /// The upper bound of the type check: the greatest value as a double.
    pub open spec fn check_max() -> int {
        double_number(Self::max_value()).trunc()
    }

    /// The value lies between the bounds, or is one that reading a number
    /// between the check's bounds gives.
    pub open spec fn admits(v: int) -> bool {
        ||| Self::min_value() <= v <= Self::max_value()
        ||| saturate_i64(Self::check_min()) <= v <= saturate_i64(Self::check_max())
    }

    #[verifier::type_invariant]
    closed spec fn within_bounds(self) -> bool {
        Self::admits(self.0 as int)
    }

    /// The least value.
    pub fn min() -> (r: i64)
        ensures
            r == Self::min_value(),
    {
        (LO as i128 - 9223372036854775808) as i64
    }

    /// The greatest value.
    pub fn max() -> (r: i64)
        ensures
            r == Self::max_value(),
    {
        (HI as i128 - 9223372036854775808) as i64
    }

    /// The bounds of the type check.
    fn check_bounds() -> (r: (i128, i128))
        ensures
            r.0 == Self::check_min(),
            r.1 == Self::check_max(),
    {
        let lo = Number::from_i64_rounded(Self::min() as i64).small_integer_value();
        let hi = Number::from_i64_rounded(Self::max() as i64).small_integer_value();
        (lo, hi)
    }

    /// `value` where it lies between the bounds, else nothing.
    pub fn new(value: i64) -> (r: Option<Self>)
        ensures
            r is Some <==> Self::min_value() <= value <= Self::max_value(),
            r matches Some(b) ==> b@ == value,
    {
        if value >= Self::min() && value <= Self::max() {
            Some(BoundedI64(value))
        } else {
            None
        }
    }

    /// The value.
    pub fn value(self) -> (r: i64)
        ensures
            r == self@,
            Self::admits(r as int),
    {
        proof {
            use_type_invariant(&self);
        }
        self.0
    }

    /// The value, by reference.
    pub fn deref(&self) -> (r: &i64)
        ensures
            *r == self@,
            Self::admits(*r as int),
    {
        proof {
            use_type_invariant(self);
        }
        &self.0
    }
}

impl<const LO: u64, const HI: u64> Typed for BoundedI64<LO, HI> {
    open spec fn val_type() -> ComplexValType {
        ComplexValType::BoundedNumber(Some(Self::check_min() as i128), Some(Self::check_max() as i128))
    }

    fn type_desc() -> (t: ComplexValType) {
        let (lo, hi) = Self::check_bounds();
        ComplexValType::BoundedNumber(Some(lo), Some(hi))
    }

    open spec fn into_ok(typed: BoundedI64<LO, HI>) -> bool {
        true
    }

    /// The value as a double.
    open spec fn into_val(typed: BoundedI64<LO, HI>, v: Val) -> bool {
        v == Val::Num(double_number(typed@ as int))
    }

    /// Never used: the conversion does not fail.
    open spec fn into_err(typed: BoundedI64<LO, HI>) -> Error {
        Error::NumberTooLarge
    }

    open spec fn into_pre(value: BoundedI64<LO, HI>) -> bool {
        true
    }

    fn into_untyped(value: BoundedI64<LO, HI>) -> (r: Result<Val, Error>) {
        Ok(Val::Num(Number::from_i64_rounded(value.0)))
    }

    open spec fn from_pre(untyped: Val) -> bool {
        true
    }

    open spec fn from_ok(untyped: Val) -> bool {
        integer_outcome(Self::check_min() as i128, Self::check_max() as i128, IntKind::I64, untyped) is Ok
    }

    /// The integer, saturated to the range of the type.
    open spec fn from_val(untyped: Val, typed: BoundedI64<LO, HI>) -> bool {
        &&& integer_outcome(Self::check_min() as i128, Self::check_max() as i128, IntKind::I64, untyped) matches Ok(n)
        &&& typed@ == saturate_i64(n)
    }

    open spec fn from_err(untyped: Val) -> Error {
        integer_outcome(Self::check_min() as i128, Self::check_max() as i128, IntKind::I64, untyped)->Err_0
    }

    fn from_untyped(untyped: Val) -> (r: Result<BoundedI64<LO, HI>, Error>) {
        let (lo, hi) = Self::check_bounds();
        match integer_from(lo, hi, IntKind::I64, untyped) {
            Ok(x) => Ok(BoundedI64(saturating_i64(x))),
            Err(e) => Err(e),
        }
    }

    /// The value is a double (below `2^53` in magnitude) between the
    /// check's bounds.
    open spec fn inhabits(typed: BoundedI64<LO, HI>) -> bool {
        &&& -0x20_0000_0000_0000 < typed@ < 0x20_0000_0000_0000
        &&& Self::check_min() <= typed@ <= Self::check_max()
    }

    open spec fn same(a: BoundedI64<LO, HI>, b: BoundedI64<LO, HI>) -> bool {
        a@ == b@
    }

    proof fn lemma_into_checked(typed: BoundedI64<LO, HI>, untyped: Val) {
        lemma_double_bounds(Self::min_value());
        lemma_double_bounds(Self::max_value());
        lemma_double_exact(typed@ as int);
        lemma_int_number(typed@ as int);
    }

    proof fn lemma_round_trip(typed: BoundedI64<LO, HI>, untyped: Val) {
        lemma_double_bounds(Self::min_value());
        lemma_double_bounds(Self::max_value());
        lemma_double_exact(typed@ as int);
        lemma_int_number(typed@ as int);
    }
}

/// A `usize` between `MIN` and `MAX`.
///
/// As a jsonnet number is a double, the type check uses the bounds as
/// doubles, and reading a number saturates it to the range of `usize`; a
/// value above `2^53` is rounded to a double on the way out.
#[derive(Clone, Copy, Debug)]
pub struct BoundedUsize<const MIN: usize, const MAX: usize>(usize);

impl<const MIN: usize, const MAX: usize> View for BoundedUsize<MIN, MAX> {
    type V = usize;

    closed spec fn view(&self) -> usize {
        self.0
    }
}

impl<const MIN: usize, const MAX: usize> BoundedUsize<MIN, MAX> {
    /// The least value.
    pub open spec fn min_value() -> int {
        MIN as int
    }

    /// The greatest value.
    pub open spec fn max_value() -> int {
        MAX as int
    }

    /// The lower bound of the type check: the least value as a double.
    pub open spec fn check_min() -> int {
        double_number(Self::min_value()).trunc()
    }

    /// The upper bound of the type check: the greatest value as a double.
    pub open spec fn check_max() -> int {
        double_number(Self::max_value()).trunc()
    }

    /// The value lies between the bounds, or is one that reading a number
    /// between the check's bounds gives.
    pub open spec fn admits(v: int) -> bool {
        ||| Self::min_value() <= v <= Self::max_value()
        ||| saturate_usize(Self::check_min()) <= v <= saturate_usize(Self::check_max())
    }

    #[verifier::type_invariant]
    closed spec fn within_bounds(self) -> bool {
        Self::admits(self.0 as int)
    }

    /// The least value.
    pub fn min() -> (r: usize)
        ensures
            r == Self::min_value(),
    {
        MIN
    }

    /// The greatest value.
    pub fn max() -> (r: usize)
        ensures
            r == Self::max_value(),
    {
        MAX
    }

    /// The bounds of the type check.
    fn check_bounds() -> (r: (i128, i128))
        ensures
            r.0 == Self::check_min(),
            r.1 == Self::check_max(),
    {
        let lo = Number::from_u64_rounded(Self::min() as u64).small_integer_value();
        let hi = Number::from_u64_rounded(Self::max() as u64).small_integer_value();
        (lo, hi)
    }

    /// `value` where it lies between the bounds, else nothing.
    pub fn new(value: usize) -> (r: Option<Self>)
        ensures
            r is Some <==> Self::min_value() <= value <= Self::max_value(),
            r matches Some(b) ==> b@ == value,
    {
        if value >= Self::min() && value <= Self::max() {
            Some(BoundedUsize(value))
        } else {
            None
        }
    }

    /// The value.
    pub fn value(self) -> (r: usize)
        ensures
            r == self@,
            Self::admits(r as int),
    {
        proof {
            use_type_invariant(&self);
        }
        self.0
    }

    /// The value, by reference.
    pub fn deref(&self) -> (r: &usize)
        ensures
            *r == self@,
            Self::admits(*r as int),
    {
        proof {
            use_type_invariant(self);
        }
        &self.0
    }
}

impl<const MIN: usize, const MAX: usize> Typed for BoundedUsize<MIN, MAX> {
    open spec fn val_type() -> ComplexValType {
        ComplexValType::BoundedNumber(Some(Self::check_min() as i128), Some(Self::check_max() as i128))
    }

    fn type_desc() -> (t: ComplexValType) {
        let (lo, hi) = Self::check_bounds();
        ComplexValType::BoundedNumber(Some(lo), Some(hi))
    }

    open spec fn into_ok(typed: BoundedUsize<MIN, MAX>) -> bool {
        true
    }

    /// The value as a double.
    open spec fn into_val(typed: BoundedUsize<MIN, MAX>, v: Val) -> bool {
        v == Val::Num(double_number(typed@ as int))
    }

    /// Never used: the conversion does not fail.
    open spec fn into_err(typed: BoundedUsize<MIN, MAX>) -> Error {
        Error::NumberTooLarge
    }

    open spec fn into_pre(value: BoundedUsize<MIN, MAX>) -> bool {
        true
    }

    fn into_untyped(value: BoundedUsize<MIN, MAX>) -> (r: Result<Val, Error>) {
        Ok(Val::Num(Number::from_u64_rounded(value.0 as u64)))
    }

    open spec fn from_pre(untyped: Val) -> bool {
        true
    }

    open spec fn from_ok(untyped: Val) -> bool {
        integer_outcome(Self::check_min() as i128, Self::check_max() as i128, IntKind::Usize, untyped) is Ok
    }

    /// The integer, saturated to the range of the type.
    open spec fn from_val(untyped: Val, typed: BoundedUsize<MIN, MAX>) -> bool {
        &&& integer_outcome(Self::check_min() as i128, Self::check_max() as i128, IntKind::Usize, untyped) matches Ok(n)
        &&& typed@ == saturate_usize(n)
    }

    open spec fn from_err(untyped: Val) -> Error {
        integer_outcome(Self::check_min() as i128, Self::check_max() as i128, IntKind::Usize, untyped)->Err_0
    }

    fn from_untyped(untyped: Val) -> (r: Result<BoundedUsize<MIN, MAX>, Error>) {
        let (lo, hi) = Self::check_bounds();
        match integer_from(lo, hi, IntKind::Usize, untyped) {
            Ok(x) => Ok(BoundedUsize(saturating_usize(x))),
            Err(e) => Err(e),
        }
    }

    /// The value is a double (below `2^53` in magnitude) between the
    /// check's bounds.
    open spec fn inhabits(typed: BoundedUsize<MIN, MAX>) -> bool {
        &&& -0x20_0000_0000_0000 < typed@ < 0x20_0000_0000_0000
        &&& Self::check_min() <= typed@ <= Self::check_max()
    }

    open spec fn same(a: BoundedUsize<MIN, MAX>, b: BoundedUsize<MIN, MAX>) -> bool {
        a@ == b@
    }

    proof fn lemma_into_checked(typed: BoundedUsize<MIN, MAX>, untyped: Val) {
        lemma_double_bounds(Self::min_value());
        lemma_double_bounds(Self::max_value());
        lemma_double_exact(typed@ as int);
        lemma_int_number(typed@ as int);
    }

    proof fn lemma_round_trip(typed: BoundedUsize<MIN, MAX>, untyped: Val) {
        lemma_double_bounds(Self::min_value());
        lemma_double_bounds(Self::max_value());
        lemma_double_exact(typed@ as int);
        lemma_int_number(typed@ as int);
    }
}

} // verus!
