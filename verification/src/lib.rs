//! Conversions between typed Rust values and untyped jsonnet values.
pub mod bounded;
pub mod check;
pub mod conversions;
pub mod either;
pub mod interned;
pub mod number;
pub mod typed;
pub mod types;
pub mod val;
