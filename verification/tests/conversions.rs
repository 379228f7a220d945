use std::rc::Rc;

use jrsonnet_interner::{IBytes, IStr};
use jrsonnet_typed::bounded::{BoundedI64, BoundedI8, BoundedUsize};
use jrsonnet_typed::check::check;
use jrsonnet_typed::conversions::{Any, NativeDesc, NativeFn, Null, PositiveF64, VecVal, M1};
use jrsonnet_typed::either::{Either2, Either3};
use jrsonnet_typed::number::Number;
use jrsonnet_typed::typed::Typed;
use jrsonnet_typed::types::{ComplexValType, Error, ErrorList, IntKind, TypeList, ValType};
use jrsonnet_typed::val::{ArrValue, FuncDesc, FuncVal, IndexableVal, ObjValue, ObjValueBuilder, Val};

/// Makes a function "callable" as its name.
struct ByName;

impl NativeDesc for ByName {
    type Value = String;

    fn native_of(func: FuncVal) -> String {
        Self::into_native(func)
    }

    fn into_native(func: FuncVal) -> String {
        match func {
            FuncVal::Id => "id".to_string(),
            FuncVal::Normal(desc) => desc.name.clone(),
            FuncVal::Builtin(name) => name,
        }
    }
}

fn num(v: i64) -> Val {
    Val::Num(Number::from_i64(v))
}

fn half(odd: u64) -> Number {
    // odd / 2
    Number { negative: false, mantissa: odd, exponent: -1 }
}

fn string(s: &str) -> Val {
    Val::Str(IStr::from(s))
}

fn bounded(lo: i128, hi: i128) -> ComplexValType {
    ComplexValType::BoundedNumber(Some(lo), Some(hi))
}

#[test]
fn integers_round_trip() {
    let v = <i8 as Typed>::into_untyped(-5).unwrap();
    assert_eq!(v, num(-5));
    assert_eq!(<i8 as Typed>::from_untyped(v), Ok(-5));
    let v = <u32 as Typed>::into_untyped(u32::MAX).unwrap();
    assert_eq!(<u32 as Typed>::from_untyped(v), Ok(u32::MAX));
    let v = <i16 as Typed>::into_untyped(i16::MIN).unwrap();
    assert_eq!(<i16 as Typed>::from_untyped(v), Ok(i16::MIN));
}

#[test]
fn integer_with_fractional_part_is_refused() {
    let r = <i8 as Typed>::from_untyped(Val::Num(half(7)));
    assert_eq!(r, Err(Error::FractionalPart(IntKind::I8)));
    let r = <u16 as Typed>::from_untyped(Val::Num(half(1)));
    assert_eq!(r, Err(Error::FractionalPart(IntKind::U16)));
}

#[test]
fn integer_out_of_bounds_is_refused() {
    let n = Number::from_i64(200);
    let r = <i8 as Typed>::from_untyped(Val::Num(n));
    assert_eq!(r, Err(Error::BoundsFailed(n, Some(-128), Some(127))));
    let n = Number::from_i64(-1);
    let r = <u8 as Typed>::from_untyped(Val::Num(n));
    assert_eq!(r, Err(Error::BoundsFailed(n, Some(0), Some(255))));
}

#[test]
fn bounds_are_checked_before_the_fractional_part() {
    // 127.5 lies above the bound of i8
    let n = Number { negative: false, mantissa: 255, exponent: -1 };
    let r = <i8 as Typed>::from_untyped(Val::Num(n));
    assert_eq!(r, Err(Error::BoundsFailed(n, Some(-128), Some(127))));
}

#[test]
fn integer_from_wrong_kind() {
    let r = <i32 as Typed>::from_untyped(string("1"));
    assert_eq!(r, Err(Error::ExpectedGot(bounded(i32::MIN as i128, i32::MAX as i128), ValType::Str)));
}

#[test]
fn integer_with_scaled_mantissa() {
    // 3 * 2^4 = 48, and 96 * 2^-1 = 48
    let n = Number { negative: true, mantissa: 3, exponent: 4 };
    assert_eq!(<i32 as Typed>::from_untyped(Val::Num(n)), Ok(-48));
    let n = Number { negative: false, mantissa: 96, exponent: -1 };
    assert_eq!(<u8 as Typed>::from_untyped(Val::Num(n)), Ok(48));
    // a huge exponent is out of every bound
    let n = Number { negative: false, mantissa: 1, exponent: 900 };
    assert_eq!(<u32 as Typed>::from_untyped(Val::Num(n)), Err(Error::BoundsFailed(n, Some(0), Some(u32::MAX as i128))));
    // a tiny positive number is not integral
    let n = Number { negative: false, mantissa: 1, exponent: -900 };
    assert_eq!(<u32 as Typed>::from_untyped(Val::Num(n)), Err(Error::FractionalPart(IntKind::U32)));
}

#[test]
fn usize_conversions() {
    assert_eq!(<usize as Typed>::into_untyped(7), Ok(num(7)));
    assert_eq!(<usize as Typed>::from_untyped(num(7)), Ok(7));
    let big = (u32::MAX as usize) + 1;
    assert_eq!(<usize as Typed>::into_untyped(big), Err(Error::NumberTooLarge));
    let n = Number::from_u64(big as u64);
    assert_eq!(<usize as Typed>::from_untyped(Val::Num(n)), Err(Error::BoundsFailed(n, Some(0), Some(u32::MAX as i128))));
    assert_eq!(<usize as Typed>::from_untyped(Val::Num(half(3))), Err(Error::FractionalPart(IntKind::Usize)));
}

#[test]
fn numbers_and_positive_numbers() {
    let n = half(5);
    assert_eq!(<Number as Typed>::into_untyped(n), Ok(Val::Num(n)));
    assert_eq!(<Number as Typed>::from_untyped(Val::Num(n)), Ok(n));
    assert_eq!(<Number as Typed>::from_untyped(Val::Null), Err(Error::ExpectedGot(ComplexValType::Simple(ValType::Num), ValType::Null)));
    let p = <PositiveF64 as Typed>::from_untyped(Val::Num(n)).unwrap();
    assert_eq!(p.0, n);
    let m = Number::from_i64(-3);
    match <PositiveF64 as Typed>::from_untyped(Val::Num(m)) {
        Err(e) => assert_eq!(e, Error::BoundsFailed(m, Some(0), None)),
        Ok(_) => panic!("a negative number was taken"),
    }
    assert_eq!(<PositiveF64 as Typed>::into_untyped(PositiveF64(n)), Ok(Val::Num(n)));
}

#[test]
fn strings_round_trip() {
    let v = <String as Typed>::into_untyped("hello".to_string()).unwrap();
    assert_eq!(v, string("hello"));
    assert_eq!(<String as Typed>::from_untyped(v), Ok("hello".to_string()));
    let s = IStr::from("interned");
    assert_eq!(<IStr as Typed>::into_untyped(s.clone()), Ok(Val::Str(s.clone())));
    assert_eq!(<IStr as Typed>::from_untyped(Val::Str(s.clone())), Ok(s));
    assert_eq!(<String as Typed>::from_untyped(Val::Bool(true)), Err(Error::ExpectedGot(ComplexValType::Simple(ValType::Str), ValType::Bool)));
}

#[test]
fn chars() {
    assert_eq!(<char as Typed>::into_untyped('x'), Ok(string("x")));
    assert_eq!(<char as Typed>::from_untyped(string("é")), Ok('é'));
    assert_eq!(<char as Typed>::from_untyped(string("xy")), Err(Error::ExpectedGot(ComplexValType::Char, ValType::Str)));
    assert_eq!(<char as Typed>::from_untyped(string("")), Err(Error::ExpectedGot(ComplexValType::Char, ValType::Str)));
    assert_eq!(<char as Typed>::from_untyped(num(1)), Err(Error::ExpectedGot(ComplexValType::Char, ValType::Num)));
}

#[test]
fn booleans_null_and_minus_one() {
    assert_eq!(<bool as Typed>::into_untyped(true), Ok(Val::Bool(true)));
    assert_eq!(<bool as Typed>::from_untyped(Val::Bool(false)), Ok(false));
    assert_eq!(<Null as Typed>::into_untyped(Null), Ok(Val::Null));
    assert!(<Null as Typed>::from_untyped(Val::Null).is_ok());
    assert!(matches!(<Null as Typed>::from_untyped(num(0)), Err(Error::ExpectedGot(ComplexValType::Simple(ValType::Null), ValType::Num))));
    assert_eq!(<M1 as Typed>::into_untyped(M1), Ok(num(-1)));
    assert!(<M1 as Typed>::from_untyped(num(-1)).is_ok());
    let one = Number::from_i64(1);
    assert!(matches!(<M1 as Typed>::from_untyped(Val::Num(one)), Err(Error::BoundsFailed(_, Some(-1), Some(-1)))));
}

#[test]
fn any_takes_every_value() {
    let a = <Any as Typed>::from_untyped(string("s")).unwrap();
    assert_eq!(a.0, string("s"));
    assert_eq!(<Any as Typed>::into_untyped(a), Ok(string("s")));
}

#[test]
fn vectors_round_trip() {
    let v = <Vec<i32> as Typed>::into_untyped(vec![1, -2, 3]).unwrap();
    assert_eq!(v, Val::Arr(ArrValue::Eager(vec![num(1), num(-2), num(3)])));
    assert_eq!(<Vec<i32> as Typed>::from_untyped(v), Ok(vec![1, -2, 3]));
    let nested = vec![vec!["a".to_string()], vec![], vec!["b".to_string(), "c".to_string()]];
    let v = <Vec<Vec<String>> as Typed>::into_untyped(nested.clone()).unwrap();
    assert_eq!(<Vec<Vec<String>> as Typed>::from_untyped(v), Ok(nested));
}

#[test]
fn vector_element_of_wrong_type() {
    let arr = Val::Arr(ArrValue::Eager(vec![num(1), num(2), num(300)]));
    let n = Number::from_i64(300);
    assert_eq!(
        <Vec<u8> as Typed>::from_untyped(arr),
        Err(Error::AtIndex(2, Box::new(Error::BoundsFailed(n, Some(0), Some(255)))))
    );
    let arr = Val::Arr(ArrValue::Eager(vec![num(1), string("x")]));
    assert_eq!(
        <Vec<u8> as Typed>::from_untyped(arr),
        Err(Error::AtIndex(1, Box::new(Error::ExpectedGot(bounded(0, 255), ValType::Str))))
    );
}

#[test]
fn vector_element_with_fractional_part() {
    // the check passes; the element's own conversion fails, without an index
    let arr = Val::Arr(ArrValue::Eager(vec![num(1), Val::Num(half(3))]));
    assert_eq!(<Vec<u8> as Typed>::from_untyped(arr), Err(Error::FractionalPart(IntKind::U8)));
}

#[test]
fn vector_element_that_fails_to_evaluate() {
    let arr = Val::Arr(ArrValue::Lazy(vec![Ok(num(1)), Err(Error::Runtime("boom".to_string())), Ok(string("x"))]));
    assert_eq!(<Vec<u8> as Typed>::from_untyped(arr), Err(Error::Runtime("boom".to_string())));
    let arr = Val::Arr(ArrValue::Lazy(vec![Ok(num(4)), Ok(num(5))]));
    assert_eq!(<Vec<u8> as Typed>::from_untyped(arr), Ok(vec![4, 5]));
}

#[test]
fn vector_into_fails_on_first_element() {
    let r = <Vec<usize> as Typed>::into_untyped(vec![1, (u32::MAX as usize) + 1]);
    assert_eq!(r, Err(Error::NumberTooLarge));
    let r = <Vec<NativeFn<ByName>> as Typed>::into_untyped(vec![]);
    assert_eq!(r, Ok(Val::Arr(ArrValue::Eager(vec![]))));
}

#[test]
fn evaluated_arrays() {
    let arr = Val::Arr(ArrValue::Lazy(vec![Ok(num(1)), Ok(Val::Null)]));
    let v = <VecVal as Typed>::from_untyped(arr).unwrap();
    assert_eq!(v.0, vec![num(1), Val::Null]);
    let arr = Val::Arr(ArrValue::Lazy(vec![Err(Error::Runtime("bad".to_string()))]));
    assert!(matches!(<VecVal as Typed>::from_untyped(arr), Err(Error::Runtime(m)) if m == "bad"));
    assert_eq!(<VecVal as Typed>::into_untyped(VecVal(vec![Val::Null])), Ok(Val::Arr(ArrValue::Eager(vec![Val::Null]))));
    let bytes = Val::Arr(ArrValue::Bytes(IBytes::from(&[7u8, 8][..])));
    assert_eq!(<VecVal as Typed>::from_untyped(bytes).unwrap().0, vec![num(7), num(8)]);
}

#[test]
fn byte_strings() {
    let b = IBytes::from(&[1u8, 2, 3][..]);
    let v = <IBytes as Typed>::into_untyped(b.clone()).unwrap();
    assert_eq!(v, Val::Arr(ArrValue::Bytes(b.clone())));
    assert_eq!(<IBytes as Typed>::from_untyped(v), Ok(b.clone()));
    let arr = Val::Arr(ArrValue::Eager(vec![num(1), num(2), num(3)]));
    let got = <IBytes as Typed>::from_untyped(arr).unwrap();
    assert_eq!(got.as_slice(), &[1u8, 2, 3]);
    let arr = Val::Arr(ArrValue::Eager(vec![num(256)]));
    assert_eq!(
        <IBytes as Typed>::from_untyped(arr),
        Err(Error::AtIndex(0, Box::new(Error::BoundsFailed(Number::from_i64(256), Some(0), Some(255)))))
    );
    // a byte array is a valid array of small numbers
    assert_eq!(<Vec<u8> as Typed>::from_untyped(Val::Arr(ArrValue::Bytes(b))), Ok(vec![1, 2, 3]));
}

#[test]
fn either_takes_the_first_member_that_accepts() {
    let r = <Either2<u32, String> as Typed>::from_untyped(num(5)).unwrap();
    assert!(matches!(r, Either2::A(5)));
    let r = <Either2<u32, String> as Typed>::from_untyped(string("s")).unwrap();
    assert!(matches!(r, Either2::B(ref s) if s == "s"));
    // both accept a number: the first wins
    let r = <Either2<i32, Number> as Typed>::from_untyped(num(3)).unwrap();
    assert!(matches!(r, Either2::A(3)));
    // the first accepts by type but fails to convert: its error stands
    let r = <Either2<i32, Number> as Typed>::from_untyped(Val::Num(half(3)));
    assert!(matches!(r, Err(Error::FractionalPart(IntKind::I32))));
}

#[test]
fn either_that_no_member_accepts() {
    let r = <Either2<u32, String> as Typed>::from_untyped(Val::Bool(true));
    let ty = ComplexValType::Union(TypeList::Cons(
        Box::new(bounded(0, u32::MAX as i128)),
        Box::new(TypeList::Cons(Box::new(ComplexValType::Simple(ValType::Str)), Box::new(TypeList::Nil))),
    ));
    let errors = ErrorList::Cons(
        Box::new(Error::ExpectedGot(bounded(0, u32::MAX as i128), ValType::Bool)),
        Box::new(ErrorList::Cons(
            Box::new(Error::ExpectedGot(ComplexValType::Simple(ValType::Str), ValType::Bool)),
            Box::new(ErrorList::Nil),
        )),
    );
    assert!(matches!(r, Err(e) if e == Error::UnionFailed(ty, errors)));
}

#[test]
fn either_into_uses_the_member() {
    let v = <Either3<u32, Number, String> as Typed>::into_untyped(Either3::C("x".to_string()));
    assert_eq!(v, Ok(string("x")));
    let v = <Either3<u32, Number, String> as Typed>::into_untyped(Either3::A(9));
    assert_eq!(v, Ok(num(9)));
}

#[test]
fn either_round_trip_loses_an_overlapped_member() {
    // 1 as a number is read back as the first member, which accepts it
    let v = <Either2<u32, Number> as Typed>::into_untyped(Either2::B(Number::from_i64(1))).unwrap();
    let back = <Either2<u32, Number> as Typed>::from_untyped(v).unwrap();
    assert!(matches!(back, Either2::A(1)));
}

#[test]
fn values_of_one_kind() {
    let arr = ArrValue::Eager(vec![Val::Null]);
    assert_eq!(<ArrValue as Typed>::from_untyped(Val::Arr(arr)), Ok(ArrValue::Eager(vec![Val::Null])));
    assert_eq!(<ArrValue as Typed>::from_untyped(Val::Null), Err(Error::ExpectedGot(ComplexValType::Simple(ValType::Arr), ValType::Null)));
    let obj = ObjValue { fields: vec![] };
    assert_eq!(<ObjValue as Typed>::into_untyped(obj), Ok(Val::Obj(ObjValue { fields: vec![] })));
    assert_eq!(<ObjValue as Typed>::from_untyped(Val::Obj(ObjValue { fields: vec![] })), Ok(ObjValue { fields: vec![] }));
    assert_eq!(<FuncVal as Typed>::from_untyped(Val::Func(FuncVal::Id)), Ok(FuncVal::Id));
    assert_eq!(<FuncVal as Typed>::into_untyped(FuncVal::Id), Ok(Val::Func(FuncVal::Id)));
}

#[test]
fn normal_functions() {
    let desc = Rc::new(FuncDesc { name: "f".to_string(), params: vec!["x".to_string()] });
    let v = <Rc<FuncDesc> as Typed>::into_untyped(desc.clone()).unwrap();
    assert_eq!(v, Val::Func(FuncVal::Normal(desc.clone())));
    assert_eq!(<Rc<FuncDesc> as Typed>::from_untyped(v), Ok(desc));
    let builtin = Val::Func(FuncVal::Builtin("std.length".to_string()));
    assert_eq!(<Rc<FuncDesc> as Typed>::from_untyped(builtin), Err(Error::NotNormalFunction));
    assert_eq!(<Rc<FuncDesc> as Typed>::from_untyped(Val::Null), Err(Error::ExpectedGot(ComplexValType::Simple(ValType::Func), ValType::Null)));
}

#[test]
fn native_functions() {
    let f = <NativeFn<ByName> as Typed>::from_untyped(Val::Func(FuncVal::Id)).unwrap();
    assert_eq!(f.deref(), "id");
    let g = <NativeFn<ByName> as Typed>::from_untyped(Val::Func(FuncVal::Builtin("std.map".to_string()))).unwrap();
    assert_eq!(g.deref(), "std.map");
    assert_eq!(<NativeFn<ByName> as Typed>::into_untyped(f), Err(Error::NativeIntoUntyped));
    // a list of native functions reads every element
    let arr = Val::Arr(ArrValue::Eager(vec![Val::Func(FuncVal::Id)]));
    let fs = <Vec<NativeFn<ByName>> as Typed>::from_untyped(arr).unwrap();
    assert_eq!(fs[0].deref(), "id");
    let arr = Val::Arr(ArrValue::Eager(vec![Val::Null]));
    assert!(matches!(<Vec<NativeFn<ByName>> as Typed>::from_untyped(arr), Err(Error::AtIndex(0, _))));
}

#[test]
fn indexable_values() {
    let s = IStr::from("abc");
    assert_eq!(<IndexableVal as Typed>::from_untyped(Val::Str(s.clone())), Ok(IndexableVal::Str(s.clone())));
    assert_eq!(<IndexableVal as Typed>::into_untyped(IndexableVal::Str(s.clone())), Ok(Val::Str(s)));
    let arr = ArrValue::Eager(vec![]);
    assert_eq!(<IndexableVal as Typed>::from_untyped(Val::Arr(arr)), Ok(IndexableVal::Arr(ArrValue::Eager(vec![]))));
    let r = <IndexableVal as Typed>::from_untyped(num(1));
    assert!(matches!(r, Err(Error::UnionFailed(_, _))));
    assert_eq!(Val::Null.into_indexable(), Err(Error::ValueIsNotIndexable(ValType::Null)));
}

#[test]
fn bounded_integers() {
    // BoundedI8<120, 138> holds -8 ..= 10
    assert!(BoundedI8::<120, 138>::new(-9).is_none());
    assert!(BoundedI8::<120, 138>::new(11).is_none());
    let b = BoundedI8::<120, 138>::new(10).unwrap();
    assert_eq!(b.value(), 10);
    assert_eq!(*b.deref(), 10);
    assert_eq!(BoundedI8::<120, 138>::min(), -8);
    assert_eq!(BoundedI8::<120, 138>::max(), 10);
    let v = <BoundedI8<120, 138> as Typed>::into_untyped(b).unwrap();
    assert_eq!(v, num(10));
    assert_eq!(<BoundedI8<120, 138> as Typed>::from_untyped(v).unwrap().value(), 10);
    let n = Number::from_i64(11);
    assert!(matches!(<BoundedI8<120, 138> as Typed>::from_untyped(Val::Num(n)), Err(Error::BoundsFailed(_, Some(-8), Some(10)))));
    assert!(matches!(<BoundedI8<120, 138> as Typed>::from_untyped(Val::Num(half(1))), Err(Error::FractionalPart(IntKind::I8))));
    let u = BoundedUsize::<2, 4>::new(3).unwrap();
    assert_eq!(<BoundedUsize<2, 4> as Typed>::into_untyped(u), Ok(num(3)));
    assert!(BoundedUsize::<2, 4>::new(5).is_none());
    // BoundedI64 with the whole range of i64
    assert_eq!(BoundedI64::<0, { u64::MAX }>::min(), i64::MIN);
    assert_eq!(BoundedI64::<0, { u64::MAX }>::max(), i64::MAX);
}

#[test]
fn type_checks() {
    let ty = ComplexValType::Array(Box::new(ComplexValType::Any));
    assert_eq!(check(&ty, &Val::Arr(ArrValue::Eager(vec![Val::Null]))), Ok(()));
    assert_eq!(check(&ty, &Val::Null), Err(Error::ExpectedGot(ComplexValType::Array(Box::new(ComplexValType::Any)), ValType::Null)));
    let nested = ComplexValType::Array(Box::new(ComplexValType::Array(Box::new(ComplexValType::Simple(ValType::Bool)))));
    let v = Val::Arr(ArrValue::Eager(vec![
        Val::Arr(ArrValue::Eager(vec![Val::Bool(true)])),
        Val::Arr(ArrValue::Eager(vec![Val::Bool(true), Val::Null])),
    ]));
    assert_eq!(
        check(&nested, &v),
        Err(Error::AtIndex(1, Box::new(Error::AtIndex(1, Box::new(Error::ExpectedGot(ComplexValType::Simple(ValType::Bool), ValType::Null))))))
    );
    // a failed evaluation is not a type error: no index is added
    let v = Val::Arr(ArrValue::Eager(vec![Val::Arr(ArrValue::Lazy(vec![Err(Error::Runtime("e".to_string()))]))]));
    assert_eq!(check(&nested, &v), Err(Error::Runtime("e".to_string())));
    // a union stops at a failed evaluation
    let union = ComplexValType::Union(TypeList::Cons(
        Box::new(nested.clone()),
        Box::new(TypeList::Cons(Box::new(ComplexValType::Simple(ValType::Arr)), Box::new(TypeList::Nil))),
    ));
    assert_eq!(check(&union, &v), Err(Error::Runtime("e".to_string())));
    assert_eq!(check(&ComplexValType::Union(TypeList::Nil), &Val::Null), Err(Error::UnionFailed(ComplexValType::Union(TypeList::Nil), ErrorList::Nil)));
}

#[test]
fn number_comparisons() {
    let n = half(5); // 2.5
    assert!(n.at_least(2) && !n.at_least(3));
    assert!(n.at_most(3) && !n.at_most(2));
    assert!(!n.is_integer());
    let m = Number { negative: true, mantissa: 5, exponent: -1 }; // -2.5
    assert!(m.at_least(-3) && !m.at_least(-2));
    assert!(m.at_most(-2) && !m.at_most(-3));
    let z = Number { negative: true, mantissa: 0, exponent: 0 }; // -0
    assert!(z.at_least(0) && z.at_most(0) && z.is_integer());
    assert_eq!(z.to_i128(), 0);
    let big = Number { negative: false, mantissa: 1, exponent: 127 };
    assert!(big.at_least(i128::MAX) && !big.at_most(i128::MAX));
    let low = Number { negative: true, mantissa: 1, exponent: 127 };
    assert!(low.at_least(i128::MIN) && low.at_most(i128::MIN));
    assert_eq!(low.to_i128(), i128::MIN);
    assert_eq!(Number::from_i64(i64::MIN).to_i128(), i64::MIN as i128);
    assert!(Number { negative: false, mantissa: 6, exponent: -1 }.is_integer());
}

#[test]
fn number_forms_of_one_value() {
    let a = Number { negative: false, mantissa: 2, exponent: 0 };
    let b = Number { negative: false, mantissa: 1, exponent: 1 };
    assert_ne!(a, b);
    assert_eq!(a.to_i128(), b.to_i128());
    assert!(a.is_integer() && b.is_integer());
    assert!(a.at_least(2) && b.at_least(2) && a.at_most(2) && b.at_most(2));
}

#[test]
fn object_builder() {
    let mut b = ObjValueBuilder::new();
    b.field(IStr::from("a"), Val::Null);
    b.field(IStr::from("b"), num(1));
    let o = b.build();
    assert_eq!(o.fields.len(), 2);
    assert_eq!(o.fields[0].name, IStr::from("a"));
    assert_eq!(o.fields[1].value, num(1));
}

#[test]
fn large_integers_round_to_doubles() {
    type Full = BoundedI64<0, { u64::MAX }>;
    // 2^53 + 1 lies halfway between two doubles: the even mantissa wins
    let b = Full::new((1i64 << 53) + 1).unwrap();
    let v = <Full as Typed>::into_untyped(b).unwrap();
    assert_eq!(v, Val::Num(Number { negative: false, mantissa: 1 << 52, exponent: 1 }));
    // 2^53 + 3 rounds up
    let b = Full::new((1i64 << 53) + 3).unwrap();
    let v = <Full as Typed>::into_untyped(b).unwrap();
    assert_eq!(v, Val::Num(Number { negative: false, mantissa: (1 << 52) + 2, exponent: 1 }));
    // i64::MAX as a double is 2^63, which reads back saturated
    assert_eq!(
        Number::from_i64_rounded(i64::MAX),
        Number { negative: false, mantissa: 1 << 53, exponent: 10 }
    );
    let two_63 = Val::Num(Number { negative: false, mantissa: 1, exponent: 63 });
    assert_eq!(<Full as Typed>::from_untyped(two_63).unwrap().value(), i64::MAX);
    let neg = Val::Num(Number { negative: true, mantissa: 1, exponent: 63 });
    assert_eq!(<Full as Typed>::from_untyped(neg).unwrap().value(), i64::MIN);
    // small values are exact
    let b = Full::new(-12345).unwrap();
    assert_eq!(<Full as Typed>::into_untyped(b), Ok(num(-12345)));
    type Sizes = BoundedUsize<0, { usize::MAX }>;
    let s = Sizes::new(usize::MAX).unwrap();
    let v = <Sizes as Typed>::into_untyped(s).unwrap();
    assert_eq!(v, Val::Num(Number::from_u64_rounded(u64::MAX)));
    assert_eq!(<Sizes as Typed>::from_untyped(v).unwrap().value(), usize::MAX);
    assert_eq!(Number::from_u64_rounded(u64::MAX), Number { negative: false, mantissa: 1 << 53, exponent: 11 });
}

#[test]
fn jsonnet_values_have_the_declared_type() {
    let v = <i16 as Typed>::into_untyped(-300).unwrap();
    assert_eq!(check(&<i16 as Typed>::type_desc(), &v), Ok(()));
    let v = <Vec<char> as Typed>::into_untyped(vec!['a', 'b']).unwrap();
    assert_eq!(check(&<Vec<char> as Typed>::type_desc(), &v), Ok(()));
    let v = <IBytes as Typed>::into_untyped(IBytes::from(&[0u8, 255][..])).unwrap();
    assert_eq!(check(&<IBytes as Typed>::type_desc(), &v), Ok(()));
    let v = <Either2<u32, String> as Typed>::into_untyped(Either2::B("s".to_string())).unwrap();
    assert_eq!(check(&<Either2<u32, String> as Typed>::type_desc(), &v), Ok(()));
    let v = <M1 as Typed>::into_untyped(M1).unwrap();
    assert_eq!(check(&<M1 as Typed>::type_desc(), &v), Ok(()));
    // a negative number put in a PositiveF64 is not of its type
    let v = <PositiveF64 as Typed>::into_untyped(PositiveF64(Number::from_i64(-1))).unwrap();
    assert!(check(&<PositiveF64 as Typed>::type_desc(), &v).is_err());
}
