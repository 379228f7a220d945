# jrsonnet_typed

Conversions between typed Rust values and untyped jsonnet values, verified
with Verus.

A jsonnet value (`val::Val`) is `null`, a boolean, an interned string, a
number, an array, an object or a function. A Rust type that implements
`typed::Typed` describes the jsonnet values that stand for its own values
(`val_type`), turns a value into its jsonnet form (`into_untyped`) and reads
one back (`from_untyped`), checking it against the type description first
(`check::check`).

Numbers (`number::Number`) are held exactly as a sign, a mantissa and a
power-of-two exponent, so every finite double is one of them; integral
tests, bound checks and the rounding of large integers to doubles are
computed on integers.

Layout of `src/`:

- `number.rs`: numbers, exact comparisons, rounding of integers to doubles;
- `interned.rs`: the interned strings and byte strings of `jrsonnet_interner`;
- `types.rs`: value kinds, type descriptions and errors;
- `val.rs`: values, arrays and their evaluation, objects, functions;
- `check.rs`: checking a value against a type description;
- `typed.rs`: the `Typed` and `TypedObj` traits;
- `conversions.rs`, `bounded.rs`, `either.rs`: the conversions of integers,
  numbers, strings, characters, arrays, byte strings, functions, objects,
  bounded integers and unions.

`app/` converts numbers to and from `f64` and errors to messages.
