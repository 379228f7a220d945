//! Type descriptions of jsonnet values, and the errors of conversions.
use vstd::prelude::*;
use crate::number::Number;

verus! {

/// The kind of a jsonnet value.
#[derive(Clone, Copy, Debug, PartialEq, Eq, Structural)]
pub enum ValType {
    Bool,
    Null,
    Str,
    Num,
    Arr,
    Obj,
    Func,
}

/// The Rust integer types that a number can be converted to.
#[derive(Clone, Copy, Debug, PartialEq, Eq, Structural)]
pub enum IntKind {
    I8,
    U8,
    I16,
    U16,
    I32,
    U32,
    I64,
    Usize,
}

/// A description of a set of jsonnet values.
#[derive(Debug, PartialEq)]
pub enum ComplexValType {
    /// Every value.
    Any,
    /// A string of exactly one character.
    Char,
    /// Every value of one kind.
    Simple(ValType),
    /// A number between the bounds (inclusive), where they are given.
    BoundedNumber(Option<i128>, Option<i128>),
    /// An array whose elements all have the element type.
    Array(Box<ComplexValType>),
    /// A value of at least one of the member types.
    Union(TypeList),
}

/// The member types of a union, in order.
#[derive(Debug, PartialEq)]
pub enum TypeList {
    Nil,
    Cons(Box<ComplexValType>, Box<TypeList>),
}

/// Why a conversion failed.
#[derive(Debug, PartialEq)]
pub enum Error {
    /// The value is not of the expected type; the value's kind is given.
    ExpectedGot(ComplexValType, ValType),
    /// The number lies outside the bounds.
    BoundsFailed(Number, Option<i128>, Option<i128>),
    /// No member of the union accepted the value; each member's error.
    UnionFailed(ComplexValType, ErrorList),
    /// A type error in the array element at this index.
    AtIndex(usize, Box<Error>),
    /// The number has a fractional part and the target is an integer type.
    FractionalPart(IntKind),
    /// The integer is too large to convert (a `usize` above `u32::MAX`).
    NumberTooLarge,
    /// The function is a builtin where a jsonnet-defined function was expected.
    NotNormalFunction,
    /// Native functions cannot be turned back into jsonnet values.
    NativeIntoUntyped,
    /// Only strings and arrays can be indexed; the value's kind is given.
    ValueIsNotIndexable(ValType),
    /// The evaluation of a value failed.
    Runtime(String),
}

/// A list of errors, in order.
#[derive(Debug, PartialEq)]
pub enum ErrorList {
    Nil,
    Cons(Box<Error>, Box<ErrorList>),
}

impl Error {
    /// The error reports a value of the wrong type (as opposed to a failed
    /// evaluation or conversion).
    pub open spec fn is_type_error(self) -> bool {
        ||| self is ExpectedGot
        ||| self is BoundsFailed
        ||| self is UnionFailed
        ||| self is AtIndex
    }

    /// Whether the error reports a value of the wrong type.
    pub fn type_error(&self) -> (r: bool)
        ensures
            r == self.is_type_error(),
    {
        match self {
            Error::ExpectedGot(..) => true,
            Error::BoundsFailed(..) => true,
            Error::UnionFailed(..) => true,
            Error::AtIndex(..) => true,
            _ => false,
        }
    }
}

/// A copy of a type description.
pub fn copy_type(t: &ComplexValType) -> (r: ComplexValType)
    ensures
        r == *t,
    decreases t,
{
    match t {
        ComplexValType::Any => ComplexValType::Any,
        ComplexValType::Char => ComplexValType::Char,
        ComplexValType::Simple(k) => ComplexValType::Simple(*k),
        ComplexValType::BoundedNumber(lo, hi) => ComplexValType::BoundedNumber(*lo, *hi),
        ComplexValType::Array(e) => ComplexValType::Array(Box::new(copy_type(e))),
        ComplexValType::Union(ts) => ComplexValType::Union(copy_types(ts)),
    }
}

/// A copy of a list of type descriptions.
pub fn copy_types(l: &TypeList) -> (r: TypeList)
    ensures
        r == *l,
    decreases l,
{
    match l {
        TypeList::Nil => TypeList::Nil,
        TypeList::Cons(t, rest) => TypeList::Cons(Box::new(copy_type(t)), Box::new(copy_types(rest))),
    }
}

/// A copy of an error.
pub fn copy_error(e: &Error) -> (r: Error)
    ensures
        r == *e,
    decreases e,
{
    match e {
        Error::ExpectedGot(t, k) => Error::ExpectedGot(copy_type(t), *k),
        Error::BoundsFailed(n, lo, hi) => Error::BoundsFailed(*n, *lo, *hi),
        Error::UnionFailed(t, es) => Error::UnionFailed(copy_type(t), copy_errors(es)),
        Error::AtIndex(i, inner) => Error::AtIndex(*i, Box::new(copy_error(inner))),
        Error::FractionalPart(k) => Error::FractionalPart(*k),
        Error::NumberTooLarge => Error::NumberTooLarge,
        Error::NotNormalFunction => Error::NotNormalFunction,
        Error::NativeIntoUntyped => Error::NativeIntoUntyped,
        Error::ValueIsNotIndexable(k) => Error::ValueIsNotIndexable(*k),
        Error::Runtime(m) => Error::Runtime(m.clone()),
    }
}

/// A copy of a list of errors.
pub fn copy_errors(l: &ErrorList) -> (r: ErrorList)
    ensures
        r == *l,
    decreases l,
{
    match l {
        ErrorList::Nil => ErrorList::Nil,
        ErrorList::Cons(e, rest) => ErrorList::Cons(Box::new(copy_error(e)), Box::new(copy_errors(rest))),
    }
}

impl Clone for ComplexValType {
    fn clone(&self) -> (r: Self)
        ensures
            r == *self,
    {
        copy_type(self)
    }
}

impl Clone for TypeList {
    fn clone(&self) -> (r: Self)
        ensures
            r == *self,
    {
        copy_types(self)
    }
}

impl Clone for Error {
    fn clone(&self) -> (r: Self)
        ensures
            r == *self,
    {
        copy_error(self)
    }
}

impl Clone for ErrorList {
    fn clone(&self) -> (r: Self)
        ensures
            r == *self,
    {
        copy_errors(self)
    }
}

} // verus!
