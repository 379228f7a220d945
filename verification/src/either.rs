//! Values of one of several types.
use vstd::prelude::*;
use crate::check::{check, check_members_spec, check_spec, refuses};
use crate::typed::Typed;
use crate::types::{ComplexValType, Error, ErrorList, TypeList};
use crate::val::Val;

verus! {

/// A value of one member type; its jsonnet type is the union of that type alone.
#[derive(Debug)]
pub enum Either1<A> {
    A(A),
}

impl<A: Typed> Typed for Either1<A> {
    open spec fn val_type() -> ComplexValType {
        ComplexValType::Union(TypeList::Cons(
            Box::new(A::val_type()),
            Box::new(TypeList::Nil),
        ))
    }

    fn type_desc() -> (t: ComplexValType) {
        ComplexValType::Union(TypeList::Cons(
            Box::new(A::type_desc()),
            Box::new(TypeList::Nil),
        ))
    }

    /// As the member's value converts.
    open spec fn into_ok(typed: Either1<A>) -> bool {
        match typed {
            Either1::A(x) => A::into_ok(x),
        }
    }

    open spec fn into_val(typed: Either1<A>, v: Val) -> bool {
        match typed {
            Either1::A(x) => A::into_val(x, v),
        }
    }

    open spec fn into_err(typed: Either1<A>) -> Error {
        match typed {
            Either1::A(x) => A::into_err(x),
        }
    }

    /// The member's value converts.
    open spec fn into_pre(typed: Either1<A>) -> bool {
        match typed {
            Either1::A(x) => A::into_pre(x),
        }
    }

    fn into_untyped(typed: Either1<A>) -> (r: Result<Val, Error>) {
        match typed {
            Either1::A(x) => A::into_untyped(x),
        }
    }

    /// As the first member whose type accepts the value takes it.
    open spec fn from_pre(untyped: Val) -> bool {
        if check_spec(A::val_type(), untyped) is Ok {
            A::from_pre(untyped)
        } else {
            true
        }
    }

    /// The first member whose type accepts the value converts it.
    open spec fn from_ok(untyped: Val) -> bool {
        if check_spec(A::val_type(), untyped) is Ok {
            A::from_ok(untyped)
        } else {
            false
        }
    }

    /// The value of the first member whose type accepts it.
    open spec fn from_val(untyped: Val, typed: Either1<A>) -> bool {
        if check_spec(A::val_type(), untyped) is Ok {
            typed matches Either1::A(x) && A::from_val(untyped, x)
        } else {
            false
        }
    }

    /// The error of the first member whose type accepts the value; where
    /// none does, the error of the check against the union.
    open spec fn from_err(untyped: Val) -> Error {
        if check_spec(A::val_type(), untyped) is Ok {
            A::from_err(untyped)
        } else {
            check_spec(Self::val_type(), untyped)->Err_0
        }
    }

    fn from_untyped(untyped: Val) -> (r: Result<Either1<A>, Error>) {
        if check(&A::type_desc(), &untyped).is_ok() {
            match A::from_untyped(untyped) {
                Ok(x) => Ok(Either1::A(x)),
                Err(e) => Err(e),
            }
        } else {
            proof {
                let rest_end = TypeList::Nil;
                let rest_a = TypeList::Cons(Box::new(A::val_type()), Box::new(rest_end));
                assert(check_members_spec(rest_end, untyped) is Err);
                assert(check_members_spec(rest_a, untyped) is Err);
            }
            let ty = Self::type_desc();
            match check(&ty, &untyped) {
                Err(e) => Err(e),
                // not reached: no member accepts the value, so neither does the union
                Ok(()) => Err(Error::UnionFailed(ty, ErrorList::Nil)),
            }
        }
    }

    /// The member's value is one that its type stands for, and the types of
    /// the members before it refuse its jsonnet value.
    open spec fn inhabits(typed: Either1<A>) -> bool {
        match typed {
            Either1::A(x) => A::inhabits(x),
        }
    }

    /// The same member, with the same value.
    open spec fn same(a: Either1<A>, b: Either1<A>) -> bool {
        match (a, b) {
            (Either1::A(x), Either1::A(y)) => A::same(x, y),
        }
    }

    proof fn lemma_into_checked(typed: Either1<A>, untyped: Val) {
        if Self::into_ok(typed) && Self::into_val(typed, untyped) {
            match typed {
                Either1::A(x) => {
                    A::lemma_into_checked(x, untyped);
                    let rest_end = TypeList::Nil;
                    let rest_a = TypeList::Cons(Box::new(A::val_type()), Box::new(rest_end));
                    assert(check_members_spec(rest_a, untyped) is Ok);
                },
            }
        }
    }

    proof fn lemma_round_trip(typed: Either1<A>, untyped: Val) {
        if Self::into_ok(typed) && Self::into_val(typed, untyped) {
            match typed {
                Either1::A(x) => {
                    A::lemma_into_checked(x, untyped);
                    A::lemma_round_trip(x, untyped);
                    assert forall|back: Either1<A>|
                        #[trigger] Self::from_val(untyped, back) implies Self::same(back, typed) by {
                        if let Either1::A(y) = back {
                            assert(A::from_val(untyped, y));
                        }
                    }
                },
            }
        }
    }
}

/// A value of one of two member types; its jsonnet type is the union of theirs.
#[derive(Debug)]
pub enum Either2<A, B> {
    A(A),
    B(B),
}

impl<A: Typed, B: Typed> Typed for Either2<A, B> {
    open spec fn val_type() -> ComplexValType {
        ComplexValType::Union(TypeList::Cons(
            Box::new(A::val_type()),
            Box::new(TypeList::Cons(
                Box::new(B::val_type()),
                Box::new(TypeList::Nil),
            )),
        ))
    }

    fn type_desc() -> (t: ComplexValType) {
        ComplexValType::Union(TypeList::Cons(
            Box::new(A::type_desc()),
            Box::new(TypeList::Cons(
                Box::new(B::type_desc()),
                Box::new(TypeList::Nil),
            )),
        ))
    }

    /// As the member's value converts.
    open spec fn into_ok(typed: Either2<A, B>) -> bool {
        match typed {
            Either2::A(x) => A::into_ok(x),
            Either2::B(x) => B::into_ok(x),
        }
    }

    open spec fn into_val(typed: Either2<A, B>, v: Val) -> bool {
        match typed {
            Either2::A(x) => A::into_val(x, v),
            Either2::B(x) => B::into_val(x, v),
        }
    }

    open spec fn into_err(typed: Either2<A, B>) -> Error {
        match typed {
            Either2::A(x) => A::into_err(x),
            Either2::B(x) => B::into_err(x),
        }
    }

    /// The member's value converts.
    open spec fn into_pre(typed: Either2<A, B>) -> bool {
        match typed {
            Either2::A(x) => A::into_pre(x),
            Either2::B(x) => B::into_pre(x),
        }
    }

    fn into_untyped(typed: Either2<A, B>) -> (r: Result<Val, Error>) {
        match typed {
            Either2::A(x) => A::into_untyped(x),
            Either2::B(x) => B::into_untyped(x),
        }
    }

    /// As the first member whose type accepts the value takes it.
    open spec fn from_pre(untyped: Val) -> bool {
        if check_spec(A::val_type(), untyped) is Ok {
            A::from_pre(untyped)
        } else if check_spec(B::val_type(), untyped) is Ok {
            B::from_pre(untyped)
        } else {
            true
        }
    }

    /// The first member whose type accepts the value converts it.
    open spec fn from_ok(untyped: Val) -> bool {
        if check_spec(A::val_type(), untyped) is Ok {
            A::from_ok(untyped)
        } else if check_spec(B::val_type(), untyped) is Ok {
            B::from_ok(untyped)
        } else {
            false
        }
    }

    /// The value of the first member whose type accepts it.
    open spec fn from_val(untyped: Val, typed: Either2<A, B>) -> bool {
        if check_spec(A::val_type(), untyped) is Ok {
            typed matches Either2::A(x) && A::from_val(untyped, x)
        } else if check_spec(B::val_type(), untyped) is Ok {
            typed matches Either2::B(x) && B::from_val(untyped, x)
        } else {
            false
        }
    }

    /// The error of the first member whose type accepts the value; where
    /// none does, the error of the check against the union.
    open spec fn from_err(untyped: Val) -> Error {
        if check_spec(A::val_type(), untyped) is Ok {
            A::from_err(untyped)
        } else if check_spec(B::val_type(), untyped) is Ok {
            B::from_err(untyped)
        } else {
            check_spec(Self::val_type(), untyped)->Err_0
        }
    }

    fn from_untyped(untyped: Val) -> (r: Result<Either2<A, B>, Error>) {
        if check(&A::type_desc(), &untyped).is_ok() {
            match A::from_untyped(untyped) {
                Ok(x) => Ok(Either2::A(x)),
                Err(e) => Err(e),
            }
        } else if check(&B::type_desc(), &untyped).is_ok() {
            match B::from_untyped(untyped) {
                Ok(x) => Ok(Either2::B(x)),
                Err(e) => Err(e),
            }
        } else {
            proof {
                let rest_end = TypeList::Nil;
                let rest_b = TypeList::Cons(Box::new(B::val_type()), Box::new(rest_end));
                let rest_a = TypeList::Cons(Box::new(A::val_type()), Box::new(rest_b));
                assert(check_members_spec(rest_end, untyped) is Err);
                assert(check_members_spec(rest_b, untyped) is Err);
                assert(check_members_spec(rest_a, untyped) is Err);
            }
            let ty = Self::type_desc();
            match check(&ty, &untyped) {
                Err(e) => Err(e),
                // not reached: no member accepts the value, so neither does the union
                Ok(()) => Err(Error::UnionFailed(ty, ErrorList::Nil)),
            }
        }
    }

    /// The member's value is one that its type stands for, and the types of
    /// the members before it refuse its jsonnet value.
    open spec fn inhabits(typed: Either2<A, B>) -> bool {
        match typed {
            Either2::A(x) => A::inhabits(x),
            Either2::B(x) => {
                &&& B::inhabits(x)
                &&& forall|v: Val| #[trigger] B::into_val(x, v) ==> refuses(A::val_type(), v)
            },
        }
    }

    /// The same member, with the same value.
    open spec fn same(a: Either2<A, B>, b: Either2<A, B>) -> bool {
        match (a, b) {
            (Either2::A(x), Either2::A(y)) => A::same(x, y),
            (Either2::B(x), Either2::B(y)) => B::same(x, y),
            _ => false,
        }
    }

    proof fn lemma_into_checked(typed: Either2<A, B>, untyped: Val) {
        if Self::into_ok(typed) && Self::into_val(typed, untyped) {
            match typed {
                Either2::A(x) => {
                    A::lemma_into_checked(x, untyped);
                    let rest_end = TypeList::Nil;
                    let rest_b = TypeList::Cons(Box::new(B::val_type()), Box::new(rest_end));
                    let rest_a = TypeList::Cons(Box::new(A::val_type()), Box::new(rest_b));
                    assert(check_members_spec(rest_a, untyped) is Ok);
                },
                Either2::B(x) => {
                    B::lemma_into_checked(x, untyped);
                    let rest_end = TypeList::Nil;
                    let rest_b = TypeList::Cons(Box::new(B::val_type()), Box::new(rest_end));
                    let rest_a = TypeList::Cons(Box::new(A::val_type()), Box::new(rest_b));
                    assert(check_members_spec(rest_b, untyped) is Ok);
                    assert(check_members_spec(rest_a, untyped) is Ok);
                },
            }
        }
    }

    proof fn lemma_round_trip(typed: Either2<A, B>, untyped: Val) {
        if Self::into_ok(typed) && Self::into_val(typed, untyped) {
            match typed {
                Either2::A(x) => {
                    A::lemma_into_checked(x, untyped);
                    A::lemma_round_trip(x, untyped);
                    assert forall|back: Either2<A, B>|
                        #[trigger] Self::from_val(untyped, back) implies Self::same(back, typed) by {
                        if let Either2::A(y) = back {
                            assert(A::from_val(untyped, y));
                        }
                    }
                },
                Either2::B(x) => {
                    B::lemma_into_checked(x, untyped);
                    B::lemma_round_trip(x, untyped);
                    assert forall|back: Either2<A, B>|
                        #[trigger] Self::from_val(untyped, back) implies Self::same(back, typed) by {
                        if let Either2::B(y) = back {
                            assert(B::from_val(untyped, y));
                        }
                    }
                },
            }
        }
    }
}

/// A value of one of three member types; its jsonnet type is the union of theirs.
#[derive(Debug)]
pub enum Either3<A, B, C> {
    A(A),
    B(B),
    C(C),
}

impl<A: Typed, B: Typed, C: Typed> Typed for Either3<A, B, C> {
    open spec fn val_type() -> ComplexValType {
        ComplexValType::Union(TypeList::Cons(
            Box::new(A::val_type()),
            Box::new(TypeList::Cons(
                Box::new(B::val_type()),
                Box::new(TypeList::Cons(
                    Box::new(C::val_type()),
                    Box::new(TypeList::Nil),
                )),
            )),
        ))
    }

    fn type_desc() -> (t: ComplexValType) {
        ComplexValType::Union(TypeList::Cons(
            Box::new(A::type_desc()),
            Box::new(TypeList::Cons(
                Box::new(B::type_desc()),
                Box::new(TypeList::Cons(
                    Box::new(C::type_desc()),
                    Box::new(TypeList::Nil),
                )),
            )),
        ))
    }

    /// As the member's value converts.
    open spec fn into_ok(typed: Either3<A, B, C>) -> bool {
        match typed {
            Either3::A(x) => A::into_ok(x),
            Either3::B(x) => B::into_ok(x),
            Either3::C(x) => C::into_ok(x),
        }
    }

    open spec fn into_val(typed: Either3<A, B, C>, v: Val) -> bool {
        match typed {
            Either3::A(x) => A::into_val(x, v),
            Either3::B(x) => B::into_val(x, v),
            Either3::C(x) => C::into_val(x, v),
        }
    }

    open spec fn into_err(typed: Either3<A, B, C>) -> Error {
        match typed {
            Either3::A(x) => A::into_err(x),
            Either3::B(x) => B::into_err(x),
            Either3::C(x) => C::into_err(x),
        }
    }

    /// The member's value converts.
    open spec fn into_pre(typed: Either3<A, B, C>) -> bool {
        match typed {
            Either3::A(x) => A::into_pre(x),
            Either3::B(x) => B::into_pre(x),
            Either3::C(x) => C::into_pre(x),
        }
    }

    fn into_untyped(typed: Either3<A, B, C>) -> (r: Result<Val, Error>) {
        match typed {
            Either3::A(x) => A::into_untyped(x),
            Either3::B(x) => B::into_untyped(x),
            Either3::C(x) => C::into_untyped(x),
        }
    }

    /// As the first member whose type accepts the value takes it.
    open spec fn from_pre(untyped: Val) -> bool {
        if check_spec(A::val_type(), untyped) is Ok {
            A::from_pre(untyped)
        } else if check_spec(B::val_type(), untyped) is Ok {
            B::from_pre(untyped)
        } else if check_spec(C::val_type(), untyped) is Ok {
            C::from_pre(untyped)
        } else {
            true
        }
    }

    /// The first member whose type accepts the value converts it.
    open spec fn from_ok(untyped: Val) -> bool {
        if check_spec(A::val_type(), untyped) is Ok {
            A::from_ok(untyped)
        } else if check_spec(B::val_type(), untyped) is Ok {
            B::from_ok(untyped)
        } else if check_spec(C::val_type(), untyped) is Ok {
            C::from_ok(untyped)
        } else {
            false
        }
    }

    /// The value of the first member whose type accepts it.
    open spec fn from_val(untyped: Val, typed: Either3<A, B, C>) -> bool {
        if check_spec(A::val_type(), untyped) is Ok {
            typed matches Either3::A(x) && A::from_val(untyped, x)
        } else if check_spec(B::val_type(), untyped) is Ok {
            typed matches Either3::B(x) && B::from_val(untyped, x)
        } else if check_spec(C::val_type(), untyped) is Ok {
            typed matches Either3::C(x) && C::from_val(untyped, x)
        } else {
            false
        }
    }

    /// The error of the first member whose type accepts the value; where
    /// none does, the error of the check against the union.
    open spec fn from_err(untyped: Val) -> Error {
        if check_spec(A::val_type(), untyped) is Ok {
            A::from_err(untyped)
        } else if check_spec(B::val_type(), untyped) is Ok {
            B::from_err(untyped)
        } else if check_spec(C::val_type(), untyped) is Ok {
            C::from_err(untyped)
        } else {
            check_spec(Self::val_type(), untyped)->Err_0
        }
    }

    fn from_untyped(untyped: Val) -> (r: Result<Either3<A, B, C>, Error>) {
        if check(&A::type_desc(), &untyped).is_ok() {
            match A::from_untyped(untyped) {
                Ok(x) => Ok(Either3::A(x)),
                Err(e) => Err(e),
            }
        } else if check(&B::type_desc(), &untyped).is_ok() {
            match B::from_untyped(untyped) {
                Ok(x) => Ok(Either3::B(x)),
                Err(e) => Err(e),
            }
        } else if check(&C::type_desc(), &untyped).is_ok() {
            match C::from_untyped(untyped) {
                Ok(x) => Ok(Either3::C(x)),
                Err(e) => Err(e),
            }
        } else {
            proof {
                let rest_end = TypeList::Nil;
                let rest_c = TypeList::Cons(Box::new(C::val_type()), Box::new(rest_end));
                let rest_b = TypeList::Cons(Box::new(B::val_type()), Box::new(rest_c));
                let rest_a = TypeList::Cons(Box::new(A::val_type()), Box::new(rest_b));
                assert(check_members_spec(rest_end, untyped) is Err);
                assert(check_members_spec(rest_c, untyped) is Err);
                assert(check_members_spec(rest_b, untyped) is Err);
                assert(check_members_spec(rest_a, untyped) is Err);
            }
            let ty = Self::type_desc();
            match check(&ty, &untyped) {
                Err(e) => Err(e),
                // not reached: no member accepts the value, so neither does the union
                Ok(()) => Err(Error::UnionFailed(ty, ErrorList::Nil)),
            }
        }
    }

    /// The member's value is one that its type stands for, and the types of
    /// the members before it refuse its jsonnet value.
    open spec fn inhabits(typed: Either3<A, B, C>) -> bool {
        match typed {
            Either3::A(x) => A::inhabits(x),
            Either3::B(x) => {
                &&& B::inhabits(x)
                &&& forall|v: Val| #[trigger] B::into_val(x, v) ==> refuses(A::val_type(), v)
            },
            Either3::C(x) => {
                &&& C::inhabits(x)
                &&& forall|v: Val| #[trigger] C::into_val(x, v) ==> refuses(A::val_type(), v)
                &&& forall|v: Val| #[trigger] C::into_val(x, v) ==> refuses(B::val_type(), v)
            },
        }
    }

    /// The same member, with the same value.
    open spec fn same(a: Either3<A, B, C>, b: Either3<A, B, C>) -> bool {
        match (a, b) {
            (Either3::A(x), Either3::A(y)) => A::same(x, y),
            (Either3::B(x), Either3::B(y)) => B::same(x, y),
            (Either3::C(x), Either3::C(y)) => C::same(x, y),
            _ => false,
        }
    }

    proof fn lemma_into_checked(typed: Either3<A, B, C>, untyped: Val) {
        if Self::into_ok(typed) && Self::into_val(typed, untyped) {
            match typed {
                Either3::A(x) => {
                    A::lemma_into_checked(x, untyped);
                    let rest_end = TypeList::Nil;
                    let rest_c = TypeList::Cons(Box::new(C::val_type()), Box::new(rest_end));
                    let rest_b = TypeList::Cons(Box::new(B::val_type()), Box::new(rest_c));
                    let rest_a = TypeList::Cons(Box::new(A::val_type()), Box::new(rest_b));
                    assert(check_members_spec(rest_a, untyped) is Ok);
                },
                Either3::B(x) => {
                    B::lemma_into_checked(x, untyped);
                    let rest_end = TypeList::Nil;
                    let rest_c = TypeList::Cons(Box::new(C::val_type()), Box::new(rest_end));
                    let rest_b = TypeList::Cons(Box::new(B::val_type()), Box::new(rest_c));
                    let rest_a = TypeList::Cons(Box::new(A::val_type()), Box::new(rest_b));
                    assert(check_members_spec(rest_b, untyped) is Ok);
                    assert(check_members_spec(rest_a, untyped) is Ok);
                },
                Either3::C(x) => {
                    C::lemma_into_checked(x, untyped);
                    let rest_end = TypeList::Nil;
                    let rest_c = TypeList::Cons(Box::new(C::val_type()), Box::new(rest_end));
                    let rest_b = TypeList::Cons(Box::new(B::val_type()), Box::new(rest_c));
                    let rest_a = TypeList::Cons(Box::new(A::val_type()), Box::new(rest_b));
                    assert(check_members_spec(rest_c, untyped) is Ok);
                    assert(check_members_spec(rest_b, untyped) is Ok);
                    assert(check_members_spec(rest_a, untyped) is Ok);
                },
            }
        }
    }

    proof fn lemma_round_trip(typed: Either3<A, B, C>, untyped: Val) {
        if Self::into_ok(typed) && Self::into_val(typed, untyped) {
            match typed {
                Either3::A(x) => {
                    A::lemma_into_checked(x, untyped);
                    A::lemma_round_trip(x, untyped);
                    assert forall|back: Either3<A, B, C>|
                        #[trigger] Self::from_val(untyped, back) implies Self::same(back, typed) by {
                        if let Either3::A(y) = back {
                            assert(A::from_val(untyped, y));
                        }
                    }
                },
                Either3::B(x) => {
                    B::lemma_into_checked(x, untyped);
                    B::lemma_round_trip(x, untyped);
                    assert forall|back: Either3<A, B, C>|
                        #[trigger] Self::from_val(untyped, back) implies Self::same(back, typed) by {
                        if let Either3::B(y) = back {
                            assert(B::from_val(untyped, y));
                        }
                    }
                },
                Either3::C(x) => {
                    C::lemma_into_checked(x, untyped);
                    C::lemma_round_trip(x, untyped);
                    assert forall|back: Either3<A, B, C>|
                        #[trigger] Self::from_val(untyped, back) implies Self::same(back, typed) by {
                        if let Either3::C(y) = back {
                            assert(C::from_val(untyped, y));
                        }
                    }
                },
            }
        }
    }
}

/// A value of one of four member types; its jsonnet type is the union of theirs.
#[derive(Debug)]
pub enum Either4<A, B, C, D> {
    A(A),
    B(B),
    C(C),
    D(D),
}

impl<A: Typed, B: Typed, C: Typed, D: Typed> Typed for Either4<A, B, C, D> {
    open spec fn val_type() -> ComplexValType {
        ComplexValType::Union(TypeList::Cons(
            Box::new(A::val_type()),
            Box::new(TypeList::Cons(
                Box::new(B::val_type()),
                Box::new(TypeList::Cons(
                    Box::new(C::val_type()),
                    Box::new(TypeList::Cons(
                        Box::new(D::val_type()),
                        Box::new(TypeList::Nil),
                    )),
                )),
            )),
        ))
    }

    fn type_desc() -> (t: ComplexValType) {
        ComplexValType::Union(TypeList::Cons(
            Box::new(A::type_desc()),
            Box::new(TypeList::Cons(
                Box::new(B::type_desc()),
                Box::new(TypeList::Cons(
                    Box::new(C::type_desc()),
                    Box::new(TypeList::Cons(
                        Box::new(D::type_desc()),
                        Box::new(TypeList::Nil),
                    )),
                )),
            )),
        ))
    }

    /// As the member's value converts.
    open spec fn into_ok(typed: Either4<A, B, C, D>) -> bool {
        match typed {
            Either4::A(x) => A::into_ok(x),
            Either4::B(x) => B::into_ok(x),
            Either4::C(x) => C::into_ok(x),
            Either4::D(x) => D::into_ok(x),
        }
    }

    open spec fn into_val(typed: Either4<A, B, C, D>, v: Val) -> bool {
        match typed {
            Either4::A(x) => A::into_val(x, v),
            Either4::B(x) => B::into_val(x, v),
            Either4::C(x) => C::into_val(x, v),
            Either4::D(x) => D::into_val(x, v),
        }
    }

    open spec fn into_err(typed: Either4<A, B, C, D>) -> Error {
        match typed {
            Either4::A(x) => A::into_err(x),
            Either4::B(x) => B::into_err(x),
            Either4::C(x) => C::into_err(x),
            Either4::D(x) => D::into_err(x),
        }
    }

    /// The member's value converts.
    open spec fn into_pre(typed: Either4<A, B, C, D>) -> bool {
        match typed {
            Either4::A(x) => A::into_pre(x),
            Either4::B(x) => B::into_pre(x),
            Either4::C(x) => C::into_pre(x),
            Either4::D(x) => D::into_pre(x),
        }
    }

    fn into_untyped(typed: Either4<A, B, C, D>) -> (r: Result<Val, Error>) {
        match typed {
            Either4::A(x) => A::into_untyped(x),
            Either4::B(x) => B::into_untyped(x),
            Either4::C(x) => C::into_untyped(x),
            Either4::D(x) => D::into_untyped(x),
        }
    }

    /// As the first member whose type accepts the value takes it.
    open spec fn from_pre(untyped: Val) -> bool {
        if check_spec(A::val_type(), untyped) is Ok {
            A::from_pre(untyped)
        } else if check_spec(B::val_type(), untyped) is Ok {
            B::from_pre(untyped)
        } else if check_spec(C::val_type(), untyped) is Ok {
            C::from_pre(untyped)
        } else if check_spec(D::val_type(), untyped) is Ok {
            D::from_pre(untyped)
        } else {
            true
        }
    }

    /// The first member whose type accepts the value converts it.
    open spec fn from_ok(untyped: Val) -> bool {
        if check_spec(A::val_type(), untyped) is Ok {
            A::from_ok(untyped)
        } else if check_spec(B::val_type(), untyped) is Ok {
            B::from_ok(untyped)
        } else if check_spec(C::val_type(), untyped) is Ok {
            C::from_ok(untyped)
        } else if check_spec(D::val_type(), untyped) is Ok {
            D::from_ok(untyped)
        } else {
            false
        }
    }

    /// The value of the first member whose type accepts it.
    open spec fn from_val(untyped: Val, typed: Either4<A, B, C, D>) -> bool {
        if check_spec(A::val_type(), untyped) is Ok {
            typed matches Either4::A(x) && A::from_val(untyped, x)
        } else if check_spec(B::val_type(), untyped) is Ok {
            typed matches Either4::B(x) && B::from_val(untyped, x)
        } else if check_spec(C::val_type(), untyped) is Ok {
            typed matches Either4::C(x) && C::from_val(untyped, x)
        } else if check_spec(D::val_type(), untyped) is Ok {
            typed matches Either4::D(x) && D::from_val(untyped, x)
        } else {
            false
        }
    }

    /// The error of the first member whose type accepts the value; where
    /// none does, the error of the check against the union.
    open spec fn from_err(untyped: Val) -> Error {
        if check_spec(A::val_type(), untyped) is Ok {
            A::from_err(untyped)
        } else if check_spec(B::val_type(), untyped) is Ok {
            B::from_err(untyped)
        } else if check_spec(C::val_type(), untyped) is Ok {
            C::from_err(untyped)
        } else if check_spec(D::val_type(), untyped) is Ok {
            D::from_err(untyped)
        } else {
            check_spec(Self::val_type(), untyped)->Err_0
        }
    }

    fn from_untyped(untyped: Val) -> (r: Result<Either4<A, B, C, D>, Error>) {
        if check(&A::type_desc(), &untyped).is_ok() {
            match A::from_untyped(untyped) {
                Ok(x) => Ok(Either4::A(x)),
                Err(e) => Err(e),
            }
        } else if check(&B::type_desc(), &untyped).is_ok() {
            match B::from_untyped(untyped) {
                Ok(x) => Ok(Either4::B(x)),
                Err(e) => Err(e),
            }
        } else if check(&C::type_desc(), &untyped).is_ok() {
            match C::from_untyped(untyped) {
                Ok(x) => Ok(Either4::C(x)),
                Err(e) => Err(e),
            }
        } else if check(&D::type_desc(), &untyped).is_ok() {
            match D::from_untyped(untyped) {
                Ok(x) => Ok(Either4::D(x)),
                Err(e) => Err(e),
            }
        } else {
            proof {
                let rest_end = TypeList::Nil;
                let rest_d = TypeList::Cons(Box::new(D::val_type()), Box::new(rest_end));
                let rest_c = TypeList::Cons(Box::new(C::val_type()), Box::new(rest_d));
                let rest_b = TypeList::Cons(Box::new(B::val_type()), Box::new(rest_c));
                let rest_a = TypeList::Cons(Box::new(A::val_type()), Box::new(rest_b));
                assert(check_members_spec(rest_end, untyped) is Err);
                assert(check_members_spec(rest_d, untyped) is Err);
                assert(check_members_spec(rest_c, untyped) is Err);
                assert(check_members_spec(rest_b, untyped) is Err);
                assert(check_members_spec(rest_a, untyped) is Err);
            }
            let ty = Self::type_desc();
            match check(&ty, &untyped) {
                Err(e) => Err(e),
                // not reached: no member accepts the value, so neither does the union
                Ok(()) => Err(Error::UnionFailed(ty, ErrorList::Nil)),
            }
        }
    }

    /// The member's value is one that its type stands for, and the types of
    /// the members before it refuse its jsonnet value.
    open spec fn inhabits(typed: Either4<A, B, C, D>) -> bool {
        match typed {
            Either4::A(x) => A::inhabits(x),
            Either4::B(x) => {
                &&& B::inhabits(x)
                &&& forall|v: Val| #[trigger] B::into_val(x, v) ==> refuses(A::val_type(), v)
            },
            Either4::C(x) => {
                &&& C::inhabits(x)
                &&& forall|v: Val| #[trigger] C::into_val(x, v) ==> refuses(A::val_type(), v)
                &&& forall|v: Val| #[trigger] C::into_val(x, v) ==> refuses(B::val_type(), v)
            },
            Either4::D(x) => {
                &&& D::inhabits(x)
                &&& forall|v: Val| #[trigger] D::into_val(x, v) ==> refuses(A::val_type(), v)
                &&& forall|v: Val| #[trigger] D::into_val(x, v) ==> refuses(B::val_type(), v)
                &&& forall|v: Val| #[trigger] D::into_val(x, v) ==> refuses(C::val_type(), v)
            },
        }
    }

    /// The same member, with the same value.
    open spec fn same(a: Either4<A, B, C, D>, b: Either4<A, B, C, D>) -> bool {
        match (a, b) {
            (Either4::A(x), Either4::A(y)) => A::same(x, y),
            (Either4::B(x), Either4::B(y)) => B::same(x, y),
            (Either4::C(x), Either4::C(y)) => C::same(x, y),
            (Either4::D(x), Either4::D(y)) => D::same(x, y),
            _ => false,
        }
    }

    proof fn lemma_into_checked(typed: Either4<A, B, C, D>, untyped: Val) {
        if Self::into_ok(typed) && Self::into_val(typed, untyped) {
            match typed {
                Either4::A(x) => {
                    A::lemma_into_checked(x, untyped);
                    let rest_end = TypeList::Nil;
                    let rest_d = TypeList::Cons(Box::new(D::val_type()), Box::new(rest_end));
                    let rest_c = TypeList::Cons(Box::new(C::val_type()), Box::new(rest_d));
                    let rest_b = TypeList::Cons(Box::new(B::val_type()), Box::new(rest_c));
                    let rest_a = TypeList::Cons(Box::new(A::val_type()), Box::new(rest_b));
                    assert(check_members_spec(rest_a, untyped) is Ok);
                },
                Either4::B(x) => {
                    B::lemma_into_checked(x, untyped);
                    let rest_end = TypeList::Nil;
                    let rest_d = TypeList::Cons(Box::new(D::val_type()), Box::new(rest_end));
                    let rest_c = TypeList::Cons(Box::new(C::val_type()), Box::new(rest_d));
                    let rest_b = TypeList::Cons(Box::new(B::val_type()), Box::new(rest_c));
                    let rest_a = TypeList::Cons(Box::new(A::val_type()), Box::new(rest_b));
                    assert(check_members_spec(rest_b, untyped) is Ok);
                    assert(check_members_spec(rest_a, untyped) is Ok);
                },
                Either4::C(x) => {
                    C::lemma_into_checked(x, untyped);
                    let rest_end = TypeList::Nil;
                    let rest_d = TypeList::Cons(Box::new(D::val_type()), Box::new(rest_end));
                    let rest_c = TypeList::Cons(Box::new(C::val_type()), Box::new(rest_d));
                    let rest_b = TypeList::Cons(Box::new(B::val_type()), Box::new(rest_c));
                    let rest_a = TypeList::Cons(Box::new(A::val_type()), Box::new(rest_b));
                    assert(check_members_spec(rest_c, untyped) is Ok);
                    assert(check_members_spec(rest_b, untyped) is Ok);
                    assert(check_members_spec(rest_a, untyped) is Ok);
                },
                Either4::D(x) => {
                    D::lemma_into_checked(x, untyped);
                    let rest_end = TypeList::Nil;
                    let rest_d = TypeList::Cons(Box::new(D::val_type()), Box::new(rest_end));
                    let rest_c = TypeList::Cons(Box::new(C::val_type()), Box::new(rest_d));
                    let rest_b = TypeList::Cons(Box::new(B::val_type()), Box::new(rest_c));
                    let rest_a = TypeList::Cons(Box::new(A::val_type()), Box::new(rest_b));
                    assert(check_members_spec(rest_d, untyped) is Ok);
                    assert(check_members_spec(rest_c, untyped) is Ok);
                    assert(check_members_spec(rest_b, untyped) is Ok);
                    assert(check_members_spec(rest_a, untyped) is Ok);
                },
            }
        }
    }

    proof fn lemma_round_trip(typed: Either4<A, B, C, D>, untyped: Val) {
        if Self::into_ok(typed) && Self::into_val(typed, untyped) {
            match typed {
                Either4::A(x) => {
                    A::lemma_into_checked(x, untyped);
                    A::lemma_round_trip(x, untyped);
                    assert forall|back: Either4<A, B, C, D>|
                        #[trigger] Self::from_val(untyped, back) implies Self::same(back, typed) by {
                        if let Either4::A(y) = back {
                            assert(A::from_val(untyped, y));
                        }
                    }
                },
                Either4::B(x) => {
                    B::lemma_into_checked(x, untyped);
                    B::lemma_round_trip(x, untyped);
                    assert forall|back: Either4<A, B, C, D>|
                        #[trigger] Self::from_val(untyped, back) implies Self::same(back, typed) by {
                        if let Either4::B(y) = back {
                            assert(B::from_val(untyped, y));
                        }
                    }
                },
                Either4::C(x) => {
                    C::lemma_into_checked(x, untyped);
                    C::lemma_round_trip(x, untyped);
                    assert forall|back: Either4<A, B, C, D>|
                        #[trigger] Self::from_val(untyped, back) implies Self::same(back, typed) by {
                        if let Either4::C(y) = back {
                            assert(C::from_val(untyped, y));
                        }
                    }
                },
                Either4::D(x) => {
                    D::lemma_into_checked(x, untyped);
                    D::lemma_round_trip(x, untyped);
                    assert forall|back: Either4<A, B, C, D>|
                        #[trigger] Self::from_val(untyped, back) implies Self::same(back, typed) by {
                        if let Either4::D(y) = back {
                            assert(D::from_val(untyped, y));
                        }
                    }
                },
            }
        }
    }
}

/// A value of one of five member types; its jsonnet type is the union of theirs.
#[derive(Debug)]
pub enum Either5<A, B, C, D, E> {
    A(A),
    B(B),
    C(C),
    D(D),
    E(E),
}

impl<A: Typed, B: Typed, C: Typed, D: Typed, E: Typed> Typed for Either5<A, B, C, D, E> {
    open spec fn val_type() -> ComplexValType {
        ComplexValType::Union(TypeList::Cons(
            Box::new(A::val_type()),
            Box::new(TypeList::Cons(
                Box::new(B::val_type()),
                Box::new(TypeList::Cons(
                    Box::new(C::val_type()),
                    Box::new(TypeList::Cons(
                        Box::new(D::val_type()),
                        Box::new(TypeList::Cons(
                            Box::new(E::val_type()),
                            Box::new(TypeList::Nil),
                        )),
                    )),
                )),
            )),
        ))
    }

    fn type_desc() -> (t: ComplexValType) {
        ComplexValType::Union(TypeList::Cons(
            Box::new(A::type_desc()),
            Box::new(TypeList::Cons(
                Box::new(B::type_desc()),
                Box::new(TypeList::Cons(
                    Box::new(C::type_desc()),
                    Box::new(TypeList::Cons(
                        Box::new(D::type_desc()),
                        Box::new(TypeList::Cons(
                            Box::new(E::type_desc()),
                            Box::new(TypeList::Nil),
                        )),
                    )),
                )),
            )),
        ))
    }

    /// As the member's value converts.
    open spec fn into_ok(typed: Either5<A, B, C, D, E>) -> bool {
        match typed {
            Either5::A(x) => A::into_ok(x),
            Either5::B(x) => B::into_ok(x),
            Either5::C(x) => C::into_ok(x),
            Either5::D(x) => D::into_ok(x),
            Either5::E(x) => E::into_ok(x),
        }
    }

    open spec fn into_val(typed: Either5<A, B, C, D, E>, v: Val) -> bool {
        match typed {
            Either5::A(x) => A::into_val(x, v),
            Either5::B(x) => B::into_val(x, v),
            Either5::C(x) => C::into_val(x, v),
            Either5::D(x) => D::into_val(x, v),
            Either5::E(x) => E::into_val(x, v),
        }
    }

    open spec fn into_err(typed: Either5<A, B, C, D, E>) -> Error {
        match typed {
            Either5::A(x) => A::into_err(x),
            Either5::B(x) => B::into_err(x),
            Either5::C(x) => C::into_err(x),
            Either5::D(x) => D::into_err(x),
            Either5::E(x) => E::into_err(x),
        }
    }

    /// The member's value converts.
    open spec fn into_pre(typed: Either5<A, B, C, D, E>) -> bool {
        match typed {
            Either5::A(x) => A::into_pre(x),
            Either5::B(x) => B::into_pre(x),
            Either5::C(x) => C::into_pre(x),
            Either5::D(x) => D::into_pre(x),
            Either5::E(x) => E::into_pre(x),
        }
    }

    fn into_untyped(typed: Either5<A, B, C, D, E>) -> (r: Result<Val, Error>) {
        match typed {
            Either5::A(x) => A::into_untyped(x),
            Either5::B(x) => B::into_untyped(x),
            Either5::C(x) => C::into_untyped(x),
            Either5::D(x) => D::into_untyped(x),
            Either5::E(x) => E::into_untyped(x),
        }
    }

    /// As the first member whose type accepts the value takes it.
    open spec fn from_pre(untyped: Val) -> bool {
        if check_spec(A::val_type(), untyped) is Ok {
            A::from_pre(untyped)
        } else if check_spec(B::val_type(), untyped) is Ok {
            B::from_pre(untyped)
        } else if check_spec(C::val_type(), untyped) is Ok {
            C::from_pre(untyped)
        } else if check_spec(D::val_type(), untyped) is Ok {
            D::from_pre(untyped)
        } else if check_spec(E::val_type(), untyped) is Ok {
            E::from_pre(untyped)
        } else {
            true
        }
    }

    /// The first member whose type accepts the value converts it.
    open spec fn from_ok(untyped: Val) -> bool {
        if check_spec(A::val_type(), untyped) is Ok {
            A::from_ok(untyped)
        } else if check_spec(B::val_type(), untyped) is Ok {
            B::from_ok(untyped)
        } else if check_spec(C::val_type(), untyped) is Ok {
            C::from_ok(untyped)
        } else if check_spec(D::val_type(), untyped) is Ok {
            D::from_ok(untyped)
        } else if check_spec(E::val_type(), untyped) is Ok {
            E::from_ok(untyped)
        } else {
            false
        }
    }

    /// The value of the first member whose type accepts it.
    open spec fn from_val(untyped: Val, typed: Either5<A, B, C, D, E>) -> bool {
        if check_spec(A::val_type(), untyped) is Ok {
            typed matches Either5::A(x) && A::from_val(untyped, x)
        } else if check_spec(B::val_type(), untyped) is Ok {
            typed matches Either5::B(x) && B::from_val(untyped, x)
        } else if check_spec(C::val_type(), untyped) is Ok {
            typed matches Either5::C(x) && C::from_val(untyped, x)
        } else if check_spec(D::val_type(), untyped) is Ok {
            typed matches Either5::D(x) && D::from_val(untyped, x)
        } else if check_spec(E::val_type(), untyped) is Ok {
            typed matches Either5::E(x) && E::from_val(untyped, x)
        } else {
            false
        }
    }

    /// The error of the first member whose type accepts the value; where
    /// none does, the error of the check against the union.
    open spec fn from_err(untyped: Val) -> Error {
        if check_spec(A::val_type(), untyped) is Ok {
            A::from_err(untyped)
        } else if check_spec(B::val_type(), untyped) is Ok {
            B::from_err(untyped)
        } else if check_spec(C::val_type(), untyped) is Ok {
            C::from_err(untyped)
        } else if check_spec(D::val_type(), untyped) is Ok {
            D::from_err(untyped)
        } else if check_spec(E::val_type(), untyped) is Ok {
            E::from_err(untyped)
        } else {
            check_spec(Self::val_type(), untyped)->Err_0
        }
    }

    fn from_untyped(untyped: Val) -> (r: Result<Either5<A, B, C, D, E>, Error>) {
        if check(&A::type_desc(), &untyped).is_ok() {
            match A::from_untyped(untyped) {
                Ok(x) => Ok(Either5::A(x)),
                Err(e) => Err(e),
            }
        } else if check(&B::type_desc(), &untyped).is_ok() {
            match B::from_untyped(untyped) {
                Ok(x) => Ok(Either5::B(x)),
                Err(e) => Err(e),
            }
        } else if check(&C::type_desc(), &untyped).is_ok() {
            match C::from_untyped(untyped) {
                Ok(x) => Ok(Either5::C(x)),
                Err(e) => Err(e),
            }
        } else if check(&D::type_desc(), &untyped).is_ok() {
            match D::from_untyped(untyped) {
                Ok(x) => Ok(Either5::D(x)),
                Err(e) => Err(e),
            }
        } else if check(&E::type_desc(), &untyped).is_ok() {
            match E::from_untyped(untyped) {
                Ok(x) => Ok(Either5::E(x)),
                Err(e) => Err(e),
            }
        } else {
            proof {
                let rest_end = TypeList::Nil;
                let rest_e = TypeList::Cons(Box::new(E::val_type()), Box::new(rest_end));
                let rest_d = TypeList::Cons(Box::new(D::val_type()), Box::new(rest_e));
                let rest_c = TypeList::Cons(Box::new(C::val_type()), Box::new(rest_d));
                let rest_b = TypeList::Cons(Box::new(B::val_type()), Box::new(rest_c));
                let rest_a = TypeList::Cons(Box::new(A::val_type()), Box::new(rest_b));
                assert(check_members_spec(rest_end, untyped) is Err);
                assert(check_members_spec(rest_e, untyped) is Err);
                assert(check_members_spec(rest_d, untyped) is Err);
                assert(check_members_spec(rest_c, untyped) is Err);
                assert(check_members_spec(rest_b, untyped) is Err);
                assert(check_members_spec(rest_a, untyped) is Err);
            }
            let ty = Self::type_desc();
            match check(&ty, &untyped) {
                Err(e) => Err(e),
                // not reached: no member accepts the value, so neither does the union
                Ok(()) => Err(Error::UnionFailed(ty, ErrorList::Nil)),
            }
        }
    }

    /// The member's value is one that its type stands for, and the types of
    /// the members before it refuse its jsonnet value.
    open spec fn inhabits(typed: Either5<A, B, C, D, E>) -> bool {
        match typed {
            Either5::A(x) => A::inhabits(x),
            Either5::B(x) => {
                &&& B::inhabits(x)
                &&& forall|v: Val| #[trigger] B::into_val(x, v) ==> refuses(A::val_type(), v)
            },
            Either5::C(x) => {
                &&& C::inhabits(x)
                &&& forall|v: Val| #[trigger] C::into_val(x, v) ==> refuses(A::val_type(), v)
                &&& forall|v: Val| #[trigger] C::into_val(x, v) ==> refuses(B::val_type(), v)
            },
            Either5::D(x) => {
                &&& D::inhabits(x)
                &&& forall|v: Val| #[trigger] D::into_val(x, v) ==> refuses(A::val_type(), v)
                &&& forall|v: Val| #[trigger] D::into_val(x, v) ==> refuses(B::val_type(), v)
                &&& forall|v: Val| #[trigger] D::into_val(x, v) ==> refuses(C::val_type(), v)
            },
            Either5::E(x) => {
                &&& E::inhabits(x)
                &&& forall|v: Val| #[trigger] E::into_val(x, v) ==> refuses(A::val_type(), v)
                &&& forall|v: Val| #[trigger] E::into_val(x, v) ==> refuses(B::val_type(), v)
                &&& forall|v: Val| #[trigger] E::into_val(x, v) ==> refuses(C::val_type(), v)
                &&& forall|v: Val| #[trigger] E::into_val(x, v) ==> refuses(D::val_type(), v)
            },
        }
    }

    /// The same member, with the same value.
    open spec fn same(a: Either5<A, B, C, D, E>, b: Either5<A, B, C, D, E>) -> bool {
        match (a, b) {
            (Either5::A(x), Either5::A(y)) => A::same(x, y),
            (Either5::B(x), Either5::B(y)) => B::same(x, y),
            (Either5::C(x), Either5::C(y)) => C::same(x, y),
            (Either5::D(x), Either5::D(y)) => D::same(x, y),
            (Either5::E(x), Either5::E(y)) => E::same(x, y),
            _ => false,
        }
    }

    proof fn lemma_into_checked(typed: Either5<A, B, C, D, E>, untyped: Val) {
        if Self::into_ok(typed) && Self::into_val(typed, untyped) {
            match typed {
                Either5::A(x) => {
                    A::lemma_into_checked(x, untyped);
                    let rest_end = TypeList::Nil;
                    let rest_e = TypeList::Cons(Box::new(E::val_type()), Box::new(rest_end));
                    let rest_d = TypeList::Cons(Box::new(D::val_type()), Box::new(rest_e));
                    let rest_c = TypeList::Cons(Box::new(C::val_type()), Box::new(rest_d));
                    let rest_b = TypeList::Cons(Box::new(B::val_type()), Box::new(rest_c));
                    let rest_a = TypeList::Cons(Box::new(A::val_type()), Box::new(rest_b));
                    assert(check_members_spec(rest_a, untyped) is Ok);
                },
                Either5::B(x) => {
                    B::lemma_into_checked(x, untyped);
                    let rest_end = TypeList::Nil;
                    let rest_e = TypeList::Cons(Box::new(E::val_type()), Box::new(rest_end));
                    let rest_d = TypeList::Cons(Box::new(D::val_type()), Box::new(rest_e));
                    let rest_c = TypeList::Cons(Box::new(C::val_type()), Box::new(rest_d));
                    let rest_b = TypeList::Cons(Box::new(B::val_type()), Box::new(rest_c));
                    let rest_a = TypeList::Cons(Box::new(A::val_type()), Box::new(rest_b));
                    assert(check_members_spec(rest_b, untyped) is Ok);
                    assert(check_members_spec(rest_a, untyped) is Ok);
                },
                Either5::C(x) => {
                    C::lemma_into_checked(x, untyped);
                    let rest_end = TypeList::Nil;
                    let rest_e = TypeList::Cons(Box::new(E::val_type()), Box::new(rest_end));
                    let rest_d = TypeList::Cons(Box::new(D::val_type()), Box::new(rest_e));
                    let rest_c = TypeList::Cons(Box::new(C::val_type()), Box::new(rest_d));
                    let rest_b = TypeList::Cons(Box::new(B::val_type()), Box::new(rest_c));
                    let rest_a = TypeList::Cons(Box::new(A::val_type()), Box::new(rest_b));
                    assert(check_members_spec(rest_c, untyped) is Ok);
                    assert(check_members_spec(rest_b, untyped) is Ok);
                    assert(check_members_spec(rest_a, untyped) is Ok);
                },
                Either5::D(x) => {
                    D::lemma_into_checked(x, untyped);
                    let rest_end = TypeList::Nil;
                    let rest_e = TypeList::Cons(Box::new(E::val_type()), Box::new(rest_end));
                    let rest_d = TypeList::Cons(Box::new(D::val_type()), Box::new(rest_e));
                    let rest_c = TypeList::Cons(Box::new(C::val_type()), Box::new(rest_d));
                    let rest_b = TypeList::Cons(Box::new(B::val_type()), Box::new(rest_c));
                    let rest_a = TypeList::Cons(Box::new(A::val_type()), Box::new(rest_b));
                    assert(check_members_spec(rest_d, untyped) is Ok);
                    assert(check_members_spec(rest_c, untyped) is Ok);
                    assert(check_members_spec(rest_b, untyped) is Ok);
                    assert(check_members_spec(rest_a, untyped) is Ok);
                },
                Either5::E(x) => {
                    E::lemma_into_checked(x, untyped);
                    let rest_end = TypeList::Nil;
                    let rest_e = TypeList::Cons(Box::new(E::val_type()), Box::new(rest_end));
                    let rest_d = TypeList::Cons(Box::new(D::val_type()), Box::new(rest_e));
                    let rest_c = TypeList::Cons(Box::new(C::val_type()), Box::new(rest_d));
                    let rest_b = TypeList::Cons(Box::new(B::val_type()), Box::new(rest_c));
                    let rest_a = TypeList::Cons(Box::new(A::val_type()), Box::new(rest_b));
                    assert(check_members_spec(rest_e, untyped) is Ok);
                    assert(check_members_spec(rest_d, untyped) is Ok);
                    assert(check_members_spec(rest_c, untyped) is Ok);
                    assert(check_members_spec(rest_b, untyped) is Ok);
                    assert(check_members_spec(rest_a, untyped) is Ok);
                },
            }
        }
    }

    proof fn lemma_round_trip(typed: Either5<A, B, C, D, E>, untyped: Val) {
        if Self::into_ok(typed) && Self::into_val(typed, untyped) {
            match typed {
                Either5::A(x) => {
                    A::lemma_into_checked(x, untyped);
                    A::lemma_round_trip(x, untyped);
                    assert forall|back: Either5<A, B, C, D, E>|
                        #[trigger] Self::from_val(untyped, back) implies Self::same(back, typed) by {
                        if let Either5::A(y) = back {
                            assert(A::from_val(untyped, y));
                        }
                    }
                },
                Either5::B(x) => {
                    B::lemma_into_checked(x, untyped);
                    B::lemma_round_trip(x, untyped);
                    assert forall|back: Either5<A, B, C, D, E>|
                        #[trigger] Self::from_val(untyped, back) implies Self::same(back, typed) by {
                        if let Either5::B(y) = back {
                            assert(B::from_val(untyped, y));
                        }
                    }
                },
                Either5::C(x) => {
                    C::lemma_into_checked(x, untyped);
                    C::lemma_round_trip(x, untyped);
                    assert forall|back: Either5<A, B, C, D, E>|
                        #[trigger] Self::from_val(untyped, back) implies Self::same(back, typed) by {
                        if let Either5::C(y) = back {
                            assert(C::from_val(untyped, y));
                        }
                    }
                },
                Either5::D(x) => {
                    D::lemma_into_checked(x, untyped);
                    D::lemma_round_trip(x, untyped);
                    assert forall|back: Either5<A, B, C, D, E>|
                        #[trigger] Self::from_val(untyped, back) implies Self::same(back, typed) by {
                        if let Either5::D(y) = back {
                            assert(D::from_val(untyped, y));
                        }
                    }
                },
                Either5::E(x) => {
                    E::lemma_into_checked(x, untyped);
                    E::lemma_round_trip(x, untyped);
                    assert forall|back: Either5<A, B, C, D, E>|
                        #[trigger] Self::from_val(untyped, back) implies Self::same(back, typed) by {
                        if let Either5::E(y) = back {
                            assert(E::from_val(untyped, y));
                        }
                    }
                },
            }
        }
    }
}

/// A value of one of six member types; its jsonnet type is the union of theirs.
#[derive(Debug)]
pub enum Either6<A, B, C, D, E, F> {
    A(A),
    B(B),
    C(C),
    D(D),
    E(E),
    F(F),
}

impl<A: Typed, B: Typed, C: Typed, D: Typed, E: Typed, F: Typed> Typed for Either6<A, B, C, D, E, F> {
    open spec fn val_type() -> ComplexValType {
        ComplexValType::Union(TypeList::Cons(
            Box::new(A::val_type()),
            Box::new(TypeList::Cons(
                Box::new(B::val_type()),
                Box::new(TypeList::Cons(
                    Box::new(C::val_type()),
                    Box::new(TypeList::Cons(
                        Box::new(D::val_type()),
                        Box::new(TypeList::Cons(
                            Box::new(E::val_type()),
                            Box::new(TypeList::Cons(
                                Box::new(F::val_type()),
                                Box::new(TypeList::Nil),
                            )),
                        )),
                    )),
                )),
            )),
        ))
    }

    fn type_desc() -> (t: ComplexValType) {
        ComplexValType::Union(TypeList::Cons(
            Box::new(A::type_desc()),
            Box::new(TypeList::Cons(
                Box::new(B::type_desc()),
                Box::new(TypeList::Cons(
                    Box::new(C::type_desc()),
                    Box::new(TypeList::Cons(
                        Box::new(D::type_desc()),
                        Box::new(TypeList::Cons(
                            Box::new(E::type_desc()),
                            Box::new(TypeList::Cons(
                                Box::new(F::type_desc()),
                                Box::new(TypeList::Nil),
                            )),
                        )),
                    )),
                )),
            )),
        ))
    }

    /// As the member's value converts.
    open spec fn into_ok(typed: Either6<A, B, C, D, E, F>) -> bool {
        match typed {
            Either6::A(x) => A::into_ok(x),
            Either6::B(x) => B::into_ok(x),
            Either6::C(x) => C::into_ok(x),
            Either6::D(x) => D::into_ok(x),
            Either6::E(x) => E::into_ok(x),
            Either6::F(x) => F::into_ok(x),
        }
    }

    open spec fn into_val(typed: Either6<A, B, C, D, E, F>, v: Val) -> bool {
        match typed {
            Either6::A(x) => A::into_val(x, v),
            Either6::B(x) => B::into_val(x, v),
            Either6::C(x) => C::into_val(x, v),
            Either6::D(x) => D::into_val(x, v),
            Either6::E(x) => E::into_val(x, v),
            Either6::F(x) => F::into_val(x, v),
        }
    }

    open spec fn into_err(typed: Either6<A, B, C, D, E, F>) -> Error {
        match typed {
            Either6::A(x) => A::into_err(x),
            Either6::B(x) => B::into_err(x),
            Either6::C(x) => C::into_err(x),
            Either6::D(x) => D::into_err(x),
            Either6::E(x) => E::into_err(x),
            Either6::F(x) => F::into_err(x),
        }
    }

    /// The member's value converts.
    open spec fn into_pre(typed: Either6<A, B, C, D, E, F>) -> bool {
        match typed {
            Either6::A(x) => A::into_pre(x),
            Either6::B(x) => B::into_pre(x),
            Either6::C(x) => C::into_pre(x),
            Either6::D(x) => D::into_pre(x),
            Either6::E(x) => E::into_pre(x),
            Either6::F(x) => F::into_pre(x),
        }
    }

    fn into_untyped(typed: Either6<A, B, C, D, E, F>) -> (r: Result<Val, Error>) {
        match typed {
            Either6::A(x) => A::into_untyped(x),
            Either6::B(x) => B::into_untyped(x),
            Either6::C(x) => C::into_untyped(x),
            Either6::D(x) => D::into_untyped(x),
            Either6::E(x) => E::into_untyped(x),
            Either6::F(x) => F::into_untyped(x),
        }
    }

    /// As the first member whose type accepts the value takes it.
    open spec fn from_pre(untyped: Val) -> bool {
        if check_spec(A::val_type(), untyped) is Ok {
            A::from_pre(untyped)
        } else if check_spec(B::val_type(), untyped) is Ok {
            B::from_pre(untyped)
        } else if check_spec(C::val_type(), untyped) is Ok {
            C::from_pre(untyped)
        } else if check_spec(D::val_type(), untyped) is Ok {
            D::from_pre(untyped)
        } else if check_spec(E::val_type(), untyped) is Ok {
            E::from_pre(untyped)
        } else if check_spec(F::val_type(), untyped) is Ok {
            F::from_pre(untyped)
        } else {
            true
        }
    }

    /// The first member whose type accepts the value converts it.
    open spec fn from_ok(untyped: Val) -> bool {
        if check_spec(A::val_type(), untyped) is Ok {
            A::from_ok(untyped)
        } else if check_spec(B::val_type(), untyped) is Ok {
            B::from_ok(untyped)
        } else if check_spec(C::val_type(), untyped) is Ok {
            C::from_ok(untyped)
        } else if check_spec(D::val_type(), untyped) is Ok {
            D::from_ok(untyped)
        } else if check_spec(E::val_type(), untyped) is Ok {
            E::from_ok(untyped)
        } else if check_spec(F::val_type(), untyped) is Ok {
            F::from_ok(untyped)
        } else {
            false
        }
    }

    /// The value of the first member whose type accepts it.
    open spec fn from_val(untyped: Val, typed: Either6<A, B, C, D, E, F>) -> bool {
        if check_spec(A::val_type(), untyped) is Ok {
            typed matches Either6::A(x) && A::from_val(untyped, x)
        } else if check_spec(B::val_type(), untyped) is Ok {
            typed matches Either6::B(x) && B::from_val(untyped, x)
        } else if check_spec(C::val_type(), untyped) is Ok {
            typed matches Either6::C(x) && C::from_val(untyped, x)
        } else if check_spec(D::val_type(), untyped) is Ok {
            typed matches Either6::D(x) && D::from_val(untyped, x)
        } else if check_spec(E::val_type(), untyped) is Ok {
            typed matches Either6::E(x) && E::from_val(untyped, x)
        } else if check_spec(F::val_type(), untyped) is Ok {
            typed matches Either6::F(x) && F::from_val(untyped, x)
        } else {
            false
        }
    }

    /// The error of the first member whose type accepts the value; where
    /// none does, the error of the check against the union.
    open spec fn from_err(untyped: Val) -> Error {
        if check_spec(A::val_type(), untyped) is Ok {
            A::from_err(untyped)
        } else if check_spec(B::val_type(), untyped) is Ok {
            B::from_err(untyped)
        } else if check_spec(C::val_type(), untyped) is Ok {
            C::from_err(untyped)
        } else if check_spec(D::val_type(), untyped) is Ok {
            D::from_err(untyped)
        } else if check_spec(E::val_type(), untyped) is Ok {
            E::from_err(untyped)
        } else if check_spec(F::val_type(), untyped) is Ok {
            F::from_err(untyped)
        } else {
            check_spec(Self::val_type(), untyped)->Err_0
        }
    }

    fn from_untyped(untyped: Val) -> (r: Result<Either6<A, B, C, D, E, F>, Error>) {
        if check(&A::type_desc(), &untyped).is_ok() {
            match A::from_untyped(untyped) {
                Ok(x) => Ok(Either6::A(x)),
                Err(e) => Err(e),
            }
        } else if check(&B::type_desc(), &untyped).is_ok() {
            match B::from_untyped(untyped) {
                Ok(x) => Ok(Either6::B(x)),
                Err(e) => Err(e),
            }
        } else if check(&C::type_desc(), &untyped).is_ok() {
            match C::from_untyped(untyped) {
                Ok(x) => Ok(Either6::C(x)),
                Err(e) => Err(e),
            }
        } else if check(&D::type_desc(), &untyped).is_ok() {
            match D::from_untyped(untyped) {
                Ok(x) => Ok(Either6::D(x)),
                Err(e) => Err(e),
            }
        } else if check(&E::type_desc(), &untyped).is_ok() {
            match E::from_untyped(untyped) {
                Ok(x) => Ok(Either6::E(x)),
                Err(e) => Err(e),
            }
        } else if check(&F::type_desc(), &untyped).is_ok() {
            match F::from_untyped(untyped) {
                Ok(x) => Ok(Either6::F(x)),
                Err(e) => Err(e),
            }
        } else {
            proof {
                let rest_end = TypeList::Nil;
                let rest_f = TypeList::Cons(Box::new(F::val_type()), Box::new(rest_end));
                let rest_e = TypeList::Cons(Box::new(E::val_type()), Box::new(rest_f));
                let rest_d = TypeList::Cons(Box::new(D::val_type()), Box::new(rest_e));
                let rest_c = TypeList::Cons(Box::new(C::val_type()), Box::new(rest_d));
                let rest_b = TypeList::Cons(Box::new(B::val_type()), Box::new(rest_c));
                let rest_a = TypeList::Cons(Box::new(A::val_type()), Box::new(rest_b));
                assert(check_members_spec(rest_end, untyped) is Err);
                assert(check_members_spec(rest_f, untyped) is Err);
                assert(check_members_spec(rest_e, untyped) is Err);
                assert(check_members_spec(rest_d, untyped) is Err);
                assert(check_members_spec(rest_c, untyped) is Err);
                assert(check_members_spec(rest_b, untyped) is Err);
                assert(check_members_spec(rest_a, untyped) is Err);
            }
            let ty = Self::type_desc();
            match check(&ty, &untyped) {
                Err(e) => Err(e),
                // not reached: no member accepts the value, so neither does the union
                Ok(()) => Err(Error::UnionFailed(ty, ErrorList::Nil)),
            }
        }
    }

    /// The member's value is one that its type stands for, and the types of
    /// the members before it refuse its jsonnet value.
    open spec fn inhabits(typed: Either6<A, B, C, D, E, F>) -> bool {
        match typed {
            Either6::A(x) => A::inhabits(x),
            Either6::B(x) => {
                &&& B::inhabits(x)
                &&& forall|v: Val| #[trigger] B::into_val(x, v) ==> refuses(A::val_type(), v)
            },
            Either6::C(x) => {
                &&& C::inhabits(x)
                &&& forall|v: Val| #[trigger] C::into_val(x, v) ==> refuses(A::val_type(), v)
                &&& forall|v: Val| #[trigger] C::into_val(x, v) ==> refuses(B::val_type(), v)
            },
            Either6::D(x) => {
                &&& D::inhabits(x)
                &&& forall|v: Val| #[trigger] D::into_val(x, v) ==> refuses(A::val_type(), v)
                &&& forall|v: Val| #[trigger] D::into_val(x, v) ==> refuses(B::val_type(), v)
                &&& forall|v: Val| #[trigger] D::into_val(x, v) ==> refuses(C::val_type(), v)
            },
            Either6::E(x) => {
                &&& E::inhabits(x)
                &&& forall|v: Val| #[trigger] E::into_val(x, v) ==> refuses(A::val_type(), v)
                &&& forall|v: Val| #[trigger] E::into_val(x, v) ==> refuses(B::val_type(), v)
                &&& forall|v: Val| #[trigger] E::into_val(x, v) ==> refuses(C::val_type(), v)
                &&& forall|v: Val| #[trigger] E::into_val(x, v) ==> refuses(D::val_type(), v)
            },
            Either6::F(x) => {
                &&& F::inhabits(x)
                &&& forall|v: Val| #[trigger] F::into_val(x, v) ==> refuses(A::val_type(), v)
                &&& forall|v: Val| #[trigger] F::into_val(x, v) ==> refuses(B::val_type(), v)
                &&& forall|v: Val| #[trigger] F::into_val(x, v) ==> refuses(C::val_type(), v)
                &&& forall|v: Val| #[trigger] F::into_val(x, v) ==> refuses(D::val_type(), v)
                &&& forall|v: Val| #[trigger] F::into_val(x, v) ==> refuses(E::val_type(), v)
            },
        }
    }

    /// The same member, with the same value.
    open spec fn same(a: Either6<A, B, C, D, E, F>, b: Either6<A, B, C, D, E, F>) -> bool {
        match (a, b) {
            (Either6::A(x), Either6::A(y)) => A::same(x, y),
            (Either6::B(x), Either6::B(y)) => B::same(x, y),
            (Either6::C(x), Either6::C(y)) => C::same(x, y),
            (Either6::D(x), Either6::D(y)) => D::same(x, y),
            (Either6::E(x), Either6::E(y)) => E::same(x, y),
            (Either6::F(x), Either6::F(y)) => F::same(x, y),
            _ => false,
        }
    }

    proof fn lemma_into_checked(typed: Either6<A, B, C, D, E, F>, untyped: Val) {
        if Self::into_ok(typed) && Self::into_val(typed, untyped) {
            match typed {
                Either6::A(x) => {
                    A::lemma_into_checked(x, untyped);
                    let rest_end = TypeList::Nil;
                    let rest_f = TypeList::Cons(Box::new(F::val_type()), Box::new(rest_end));
                    let rest_e = TypeList::Cons(Box::new(E::val_type()), Box::new(rest_f));
                    let rest_d = TypeList::Cons(Box::new(D::val_type()), Box::new(rest_e));
                    let rest_c = TypeList::Cons(Box::new(C::val_type()), Box::new(rest_d));
                    let rest_b = TypeList::Cons(Box::new(B::val_type()), Box::new(rest_c));
                    let rest_a = TypeList::Cons(Box::new(A::val_type()), Box::new(rest_b));
                    assert(check_members_spec(rest_a, untyped) is Ok);
                },
                Either6::B(x) => {
                    B::lemma_into_checked(x, untyped);
                    let rest_end = TypeList::Nil;
                    let rest_f = TypeList::Cons(Box::new(F::val_type()), Box::new(rest_end));
                    let rest_e = TypeList::Cons(Box::new(E::val_type()), Box::new(rest_f));
                    let rest_d = TypeList::Cons(Box::new(D::val_type()), Box::new(rest_e));
                    let rest_c = TypeList::Cons(Box::new(C::val_type()), Box::new(rest_d));
                    let rest_b = TypeList::Cons(Box::new(B::val_type()), Box::new(rest_c));
                    let rest_a = TypeList::Cons(Box::new(A::val_type()), Box::new(rest_b));
                    assert(check_members_spec(rest_b, untyped) is Ok);
                    assert(check_members_spec(rest_a, untyped) is Ok);
                },
                Either6::C(x) => {
                    C::lemma_into_checked(x, untyped);
                    let rest_end = TypeList::Nil;
                    let rest_f = TypeList::Cons(Box::new(F::val_type()), Box::new(rest_end));
                    let rest_e = TypeList::Cons(Box::new(E::val_type()), Box::new(rest_f));
                    let rest_d = TypeList::Cons(Box::new(D::val_type()), Box::new(rest_e));
                    let rest_c = TypeList::Cons(Box::new(C::val_type()), Box::new(rest_d));
                    let rest_b = TypeList::Cons(Box::new(B::val_type()), Box::new(rest_c));
                    let rest_a = TypeList::Cons(Box::new(A::val_type()), Box::new(rest_b));
                    assert(check_members_spec(rest_c, untyped) is Ok);
                    assert(check_members_spec(rest_b, untyped) is Ok);
                    assert(check_members_spec(rest_a, untyped) is Ok);
                },
                Either6::D(x) => {
                    D::lemma_into_checked(x, untyped);
                    let rest_end = TypeList::Nil;
                    let rest_f = TypeList::Cons(Box::new(F::val_type()), Box::new(rest_end));
                    let rest_e = TypeList::Cons(Box::new(E::val_type()), Box::new(rest_f));
                    let rest_d = TypeList::Cons(Box::new(D::val_type()), Box::new(rest_e));
                    let rest_c = TypeList::Cons(Box::new(C::val_type()), Box::new(rest_d));
                    let rest_b = TypeList::Cons(Box::new(B::val_type()), Box::new(rest_c));
                    let rest_a = TypeList::Cons(Box::new(A::val_type()), Box::new(rest_b));
                    assert(check_members_spec(rest_d, untyped) is Ok);
                    assert(check_members_spec(rest_c, untyped) is Ok);
                    assert(check_members_spec(rest_b, untyped) is Ok);
                    assert(check_members_spec(rest_a, untyped) is Ok);
                },
                Either6::E(x) => {
                    E::lemma_into_checked(x, untyped);
                    let rest_end = TypeList::Nil;
                    let rest_f = TypeList::Cons(Box::new(F::val_type()), Box::new(rest_end));
                    let rest_e = TypeList::Cons(Box::new(E::val_type()), Box::new(rest_f));
                    let rest_d = TypeList::Cons(Box::new(D::val_type()), Box::new(rest_e));
                    let rest_c = TypeList::Cons(Box::new(C::val_type()), Box::new(rest_d));
                    let rest_b = TypeList::Cons(Box::new(B::val_type()), Box::new(rest_c));
                    let rest_a = TypeList::Cons(Box::new(A::val_type()), Box::new(rest_b));
                    assert(check_members_spec(rest_e, untyped) is Ok);
                    assert(check_members_spec(rest_d, untyped) is Ok);
                    assert(check_members_spec(rest_c, untyped) is Ok);
                    assert(check_members_spec(rest_b, untyped) is Ok);
                    assert(check_members_spec(rest_a, untyped) is Ok);
                },
                Either6::F(x) => {
                    F::lemma_into_checked(x, untyped);
                    let rest_end = TypeList::Nil;
                    let rest_f = TypeList::Cons(Box::new(F::val_type()), Box::new(rest_end));
                    let rest_e = TypeList::Cons(Box::new(E::val_type()), Box::new(rest_f));
                    let rest_d = TypeList::Cons(Box::new(D::val_type()), Box::new(rest_e));
                    let rest_c = TypeList::Cons(Box::new(C::val_type()), Box::new(rest_d));
                    let rest_b = TypeList::Cons(Box::new(B::val_type()), Box::new(rest_c));
                    let rest_a = TypeList::Cons(Box::new(A::val_type()), Box::new(rest_b));
                    assert(check_members_spec(rest_f, untyped) is Ok);
                    assert(check_members_spec(rest_e, untyped) is Ok);
                    assert(check_members_spec(rest_d, untyped) is Ok);
                    assert(check_members_spec(rest_c, untyped) is Ok);
                    assert(check_members_spec(rest_b, untyped) is Ok);
                    assert(check_members_spec(rest_a, untyped) is Ok);
                },
            }
        }
    }

    proof fn lemma_round_trip(typed: Either6<A, B, C, D, E, F>, untyped: Val) {
        if Self::into_ok(typed) && Self::into_val(typed, untyped) {
            match typed {
                Either6::A(x) => {
                    A::lemma_into_checked(x, untyped);
                    A::lemma_round_trip(x, untyped);
                    assert forall|back: Either6<A, B, C, D, E, F>|
                        #[trigger] Self::from_val(untyped, back) implies Self::same(back, typed) by {
                        if let Either6::A(y) = back {
                            assert(A::from_val(untyped, y));
                        }
                    }
                },
                Either6::B(x) => {
                    B::lemma_into_checked(x, untyped);
                    B::lemma_round_trip(x, untyped);
                    assert forall|back: Either6<A, B, C, D, E, F>|
                        #[trigger] Self::from_val(untyped, back) implies Self::same(back, typed) by {
                        if let Either6::B(y) = back {
                            assert(B::from_val(untyped, y));
                        }
                    }
                },
                Either6::C(x) => {
                    C::lemma_into_checked(x, untyped);
                    C::lemma_round_trip(x, untyped);
                    assert forall|back: Either6<A, B, C, D, E, F>|
                        #[trigger] Self::from_val(untyped, back) implies Self::same(back, typed) by {
                        if let Either6::C(y) = back {
                            assert(C::from_val(untyped, y));
                        }
                    }
                },
                Either6::D(x) => {
                    D::lemma_into_checked(x, untyped);
                    D::lemma_round_trip(x, untyped);
                    assert forall|back: Either6<A, B, C, D, E, F>|
                        #[trigger] Self::from_val(untyped, back) implies Self::same(back, typed) by {
                        if let Either6::D(y) = back {
                            assert(D::from_val(untyped, y));
                        }
                    }
                },
                Either6::E(x) => {
                    E::lemma_into_checked(x, untyped);
                    E::lemma_round_trip(x, untyped);
                    assert forall|back: Either6<A, B, C, D, E, F>|
                        #[trigger] Self::from_val(untyped, back) implies Self::same(back, typed) by {
                        if let Either6::E(y) = back {
                            assert(E::from_val(untyped, y));
                        }
                    }
                },
                Either6::F(x) => {
                    F::lemma_into_checked(x, untyped);
                    F::lemma_round_trip(x, untyped);
                    assert forall|back: Either6<A, B, C, D, E, F>|
                        #[trigger] Self::from_val(untyped, back) implies Self::same(back, typed) by {
                        if let Either6::F(y) = back {
                            assert(F::from_val(untyped, y));
                        }
                    }
                },
            }
        }
    }
}

/// A value of one of seven member types; its jsonnet type is the union of theirs.
#[derive(Debug)]
pub enum Either7<A, B, C, D, E, F, G> {
    A(A),
    B(B),
    C(C),
    D(D),
    E(E),
    F(F),
    G(G),
}

impl<A: Typed, B: Typed, C: Typed, D: Typed, E: Typed, F: Typed, G: Typed> Typed for Either7<A, B, C, D, E, F, G> {
    open spec fn val_type() -> ComplexValType {
        ComplexValType::Union(TypeList::Cons(
            Box::new(A::val_type()),
            Box::new(TypeList::Cons(
                Box::new(B::val_type()),
                Box::new(TypeList::Cons(
                    Box::new(C::val_type()),
                    Box::new(TypeList::Cons(
                        Box::new(D::val_type()),
                        Box::new(TypeList::Cons(
                            Box::new(E::val_type()),
                            Box::new(TypeList::Cons(
                                Box::new(F::val_type()),
                                Box::new(TypeList::Cons(
                                    Box::new(G::val_type()),
                                    Box::new(TypeList::Nil),
                                )),
                            )),
                        )),
                    )),
                )),
            )),
        ))
    }

    fn type_desc() -> (t: ComplexValType) {
        ComplexValType::Union(TypeList::Cons(
            Box::new(A::type_desc()),
            Box::new(TypeList::Cons(
                Box::new(B::type_desc()),
                Box::new(TypeList::Cons(
                    Box::new(C::type_desc()),
                    Box::new(TypeList::Cons(
                        Box::new(D::type_desc()),
                        Box::new(TypeList::Cons(
                            Box::new(E::type_desc()),
                            Box::new(TypeList::Cons(
                                Box::new(F::type_desc()),
                                Box::new(TypeList::Cons(
                                    Box::new(G::type_desc()),
                                    Box::new(TypeList::Nil),
                                )),
                            )),
                        )),
                    )),
                )),
            )),
        ))
    }

    /// As the member's value converts.
    open spec fn into_ok(typed: Either7<A, B, C, D, E, F, G>) -> bool {
        match typed {
            Either7::A(x) => A::into_ok(x),
            Either7::B(x) => B::into_ok(x),
            Either7::C(x) => C::into_ok(x),
            Either7::D(x) => D::into_ok(x),
            Either7::E(x) => E::into_ok(x),
            Either7::F(x) => F::into_ok(x),
            Either7::G(x) => G::into_ok(x),
        }
    }

    open spec fn into_val(typed: Either7<A, B, C, D, E, F, G>, v: Val) -> bool {
        match typed {
            Either7::A(x) => A::into_val(x, v),
            Either7::B(x) => B::into_val(x, v),
            Either7::C(x) => C::into_val(x, v),
            Either7::D(x) => D::into_val(x, v),
            Either7::E(x) => E::into_val(x, v),
            Either7::F(x) => F::into_val(x, v),
            Either7::G(x) => G::into_val(x, v),
        }
    }

    open spec fn into_err(typed: Either7<A, B, C, D, E, F, G>) -> Error {
        match typed {
            Either7::A(x) => A::into_err(x),
            Either7::B(x) => B::into_err(x),
            Either7::C(x) => C::into_err(x),
            Either7::D(x) => D::into_err(x),
            Either7::E(x) => E::into_err(x),
            Either7::F(x) => F::into_err(x),
            Either7::G(x) => G::into_err(x),
        }
    }

    /// The member's value converts.
    open spec fn into_pre(typed: Either7<A, B, C, D, E, F, G>) -> bool {
        match typed {
            Either7::A(x) => A::into_pre(x),
            Either7::B(x) => B::into_pre(x),
            Either7::C(x) => C::into_pre(x),
            Either7::D(x) => D::into_pre(x),
            Either7::E(x) => E::into_pre(x),
            Either7::F(x) => F::into_pre(x),
            Either7::G(x) => G::into_pre(x),
        }
    }

    fn into_untyped(typed: Either7<A, B, C, D, E, F, G>) -> (r: Result<Val, Error>) {
        match typed {
            Either7::A(x) => A::into_untyped(x),
            Either7::B(x) => B::into_untyped(x),
            Either7::C(x) => C::into_untyped(x),
            Either7::D(x) => D::into_untyped(x),
            Either7::E(x) => E::into_untyped(x),
            Either7::F(x) => F::into_untyped(x),
            Either7::G(x) => G::into_untyped(x),
        }
    }

    /// As the first member whose type accepts the value takes it.
    open spec fn from_pre(untyped: Val) -> bool {
        if check_spec(A::val_type(), untyped) is Ok {
            A::from_pre(untyped)
        } else if check_spec(B::val_type(), untyped) is Ok {
            B::from_pre(untyped)
        } else if check_spec(C::val_type(), untyped) is Ok {
            C::from_pre(untyped)
        } else if check_spec(D::val_type(), untyped) is Ok {
            D::from_pre(untyped)
        } else if check_spec(E::val_type(), untyped) is Ok {
            E::from_pre(untyped)
        } else if check_spec(F::val_type(), untyped) is Ok {
            F::from_pre(untyped)
        } else if check_spec(G::val_type(), untyped) is Ok {
            G::from_pre(untyped)
        } else {
            true
        }
    }

    /// The first member whose type accepts the value converts it.
    open spec fn from_ok(untyped: Val) -> bool {
        if check_spec(A::val_type(), untyped) is Ok {
            A::from_ok(untyped)
        } else if check_spec(B::val_type(), untyped) is Ok {
            B::from_ok(untyped)
        } else if check_spec(C::val_type(), untyped) is Ok {
            C::from_ok(untyped)
        } else if check_spec(D::val_type(), untyped) is Ok {
            D::from_ok(untyped)
        } else if check_spec(E::val_type(), untyped) is Ok {
            E::from_ok(untyped)
        } else if check_spec(F::val_type(), untyped) is Ok {
            F::from_ok(untyped)
        } else if check_spec(G::val_type(), untyped) is Ok {
            G::from_ok(untyped)
        } else {
            false
        }
    }

    /// The value of the first member whose type accepts it.
    open spec fn from_val(untyped: Val, typed: Either7<A, B, C, D, E, F, G>) -> bool {
        if check_spec(A::val_type(), untyped) is Ok {
            typed matches Either7::A(x) && A::from_val(untyped, x)
        } else if check_spec(B::val_type(), untyped) is Ok {
            typed matches Either7::B(x) && B::from_val(untyped, x)
        } else if check_spec(C::val_type(), untyped) is Ok {
            typed matches Either7::C(x) && C::from_val(untyped, x)
        } else if check_spec(D::val_type(), untyped) is Ok {
            typed matches Either7::D(x) && D::from_val(untyped, x)
        } else if check_spec(E::val_type(), untyped) is Ok {
            typed matches Either7::E(x) && E::from_val(untyped, x)
        } else if check_spec(F::val_type(), untyped) is Ok {
            typed matches Either7::F(x) && F::from_val(untyped, x)
        } else if check_spec(G::val_type(), untyped) is Ok {
            typed matches Either7::G(x) && G::from_val(untyped, x)
        } else {
            false
        }
    }

    /// The error of the first member whose type accepts the value; where
    /// none does, the error of the check against the union.
    open spec fn from_err(untyped: Val) -> Error {
        if check_spec(A::val_type(), untyped) is Ok {
            A::from_err(untyped)
        } else if check_spec(B::val_type(), untyped) is Ok {
            B::from_err(untyped)
        } else if check_spec(C::val_type(), untyped) is Ok {
            C::from_err(untyped)
        } else if check_spec(D::val_type(), untyped) is Ok {
            D::from_err(untyped)
        } else if check_spec(E::val_type(), untyped) is Ok {
            E::from_err(untyped)
        } else if check_spec(F::val_type(), untyped) is Ok {
            F::from_err(untyped)
        } else if check_spec(G::val_type(), untyped) is Ok {
            G::from_err(untyped)
        } else {
            check_spec(Self::val_type(), untyped)->Err_0
        }
    }

    fn from_untyped(untyped: Val) -> (r: Result<Either7<A, B, C, D, E, F, G>, Error>) {
        if check(&A::type_desc(), &untyped).is_ok() {
            match A::from_untyped(untyped) {
                Ok(x) => Ok(Either7::A(x)),
                Err(e) => Err(e),
            }
        } else if check(&B::type_desc(), &untyped).is_ok() {
            match B::from_untyped(untyped) {
                Ok(x) => Ok(Either7::B(x)),
                Err(e) => Err(e),
            }
        } else if check(&C::type_desc(), &untyped).is_ok() {
            match C::from_untyped(untyped) {
                Ok(x) => Ok(Either7::C(x)),
                Err(e) => Err(e),
            }
        } else if check(&D::type_desc(), &untyped).is_ok() {
            match D::from_untyped(untyped) {
                Ok(x) => Ok(Either7::D(x)),
                Err(e) => Err(e),
            }
        } else if check(&E::type_desc(), &untyped).is_ok() {
            match E::from_untyped(untyped) {
                Ok(x) => Ok(Either7::E(x)),
                Err(e) => Err(e),
            }
        } else if check(&F::type_desc(), &untyped).is_ok() {
            match F::from_untyped(untyped) {
                Ok(x) => Ok(Either7::F(x)),
                Err(e) => Err(e),
            }
        } else if check(&G::type_desc(), &untyped).is_ok() {
            match G::from_untyped(untyped) {
                Ok(x) => Ok(Either7::G(x)),
                Err(e) => Err(e),
            }
        } else {
            proof {
                let rest_end = TypeList::Nil;
                let rest_g = TypeList::Cons(Box::new(G::val_type()), Box::new(rest_end));
                let rest_f = TypeList::Cons(Box::new(F::val_type()), Box::new(rest_g));
                let rest_e = TypeList::Cons(Box::new(E::val_type()), Box::new(rest_f));
                let rest_d = TypeList::Cons(Box::new(D::val_type()), Box::new(rest_e));
                let rest_c = TypeList::Cons(Box::new(C::val_type()), Box::new(rest_d));
                let rest_b = TypeList::Cons(Box::new(B::val_type()), Box::new(rest_c));
                let rest_a = TypeList::Cons(Box::new(A::val_type()), Box::new(rest_b));
                assert(check_members_spec(rest_end, untyped) is Err);
                assert(check_members_spec(rest_g, untyped) is Err);
                assert(check_members_spec(rest_f, untyped) is Err);
                assert(check_members_spec(rest_e, untyped) is Err);
                assert(check_members_spec(rest_d, untyped) is Err);
                assert(check_members_spec(rest_c, untyped) is Err);
                assert(check_members_spec(rest_b, untyped) is Err);
                assert(check_members_spec(rest_a, untyped) is Err);
            }
            let ty = Self::type_desc();
            match check(&ty, &untyped) {
                Err(e) => Err(e),
                // not reached: no member accepts the value, so neither does the union
                Ok(()) => Err(Error::UnionFailed(ty, ErrorList::Nil)),
            }
        }
    }

    /// The member's value is one that its type stands for, and the types of
    /// the members before it refuse its jsonnet value.
    open spec fn inhabits(typed: Either7<A, B, C, D, E, F, G>) -> bool {
        match typed {
            Either7::A(x) => A::inhabits(x),
            Either7::B(x) => {
                &&& B::inhabits(x)
                &&& forall|v: Val| #[trigger] B::into_val(x, v) ==> refuses(A::val_type(), v)
            },
            Either7::C(x) => {
                &&& C::inhabits(x)
                &&& forall|v: Val| #[trigger] C::into_val(x, v) ==> refuses(A::val_type(), v)
                &&& forall|v: Val| #[trigger] C::into_val(x, v) ==> refuses(B::val_type(), v)
            },
            Either7::D(x) => {
                &&& D::inhabits(x)
                &&& forall|v: Val| #[trigger] D::into_val(x, v) ==> refuses(A::val_type(), v)
                &&& forall|v: Val| #[trigger] D::into_val(x, v) ==> refuses(B::val_type(), v)
                &&& forall|v: Val| #[trigger] D::into_val(x, v) ==> refuses(C::val_type(), v)
            },
            Either7::E(x) => {
                &&& E::inhabits(x)
                &&& forall|v: Val| #[trigger] E::into_val(x, v) ==> refuses(A::val_type(), v)
                &&& forall|v: Val| #[trigger] E::into_val(x, v) ==> refuses(B::val_type(), v)
                &&& forall|v: Val| #[trigger] E::into_val(x, v) ==> refuses(C::val_type(), v)
                &&& forall|v: Val| #[trigger] E::into_val(x, v) ==> refuses(D::val_type(), v)
            },
            Either7::F(x) => {
                &&& F::inhabits(x)
                &&& forall|v: Val| #[trigger] F::into_val(x, v) ==> refuses(A::val_type(), v)
                &&& forall|v: Val| #[trigger] F::into_val(x, v) ==> refuses(B::val_type(), v)
                &&& forall|v: Val| #[trigger] F::into_val(x, v) ==> refuses(C::val_type(), v)
                &&& forall|v: Val| #[trigger] F::into_val(x, v) ==> refuses(D::val_type(), v)
                &&& forall|v: Val| #[trigger] F::into_val(x, v) ==> refuses(E::val_type(), v)
            },
            Either7::G(x) => {
                &&& G::inhabits(x)
                &&& forall|v: Val| #[trigger] G::into_val(x, v) ==> refuses(A::val_type(), v)
                &&& forall|v: Val| #[trigger] G::into_val(x, v) ==> refuses(B::val_type(), v)
                &&& forall|v: Val| #[trigger] G::into_val(x, v) ==> refuses(C::val_type(), v)
                &&& forall|v: Val| #[trigger] G::into_val(x, v) ==> refuses(D::val_type(), v)
                &&& forall|v: Val| #[trigger] G::into_val(x, v) ==> refuses(E::val_type(), v)
                &&& forall|v: Val| #[trigger] G::into_val(x, v) ==> refuses(F::val_type(), v)
            },
        }
    }

    /// The same member, with the same value.
    open spec fn same(a: Either7<A, B, C, D, E, F, G>, b: Either7<A, B, C, D, E, F, G>) -> bool {
        match (a, b) {
            (Either7::A(x), Either7::A(y)) => A::same(x, y),
            (Either7::B(x), Either7::B(y)) => B::same(x, y),
            (Either7::C(x), Either7::C(y)) => C::same(x, y),
            (Either7::D(x), Either7::D(y)) => D::same(x, y),
            (Either7::E(x), Either7::E(y)) => E::same(x, y),
            (Either7::F(x), Either7::F(y)) => F::same(x, y),
            (Either7::G(x), Either7::G(y)) => G::same(x, y),
            _ => false,
        }
    }

    proof fn lemma_into_checked(typed: Either7<A, B, C, D, E, F, G>, untyped: Val) {
        if Self::into_ok(typed) && Self::into_val(typed, untyped) {
            match typed {
                Either7::A(x) => {
                    A::lemma_into_checked(x, untyped);
                    let rest_end = TypeList::Nil;
                    let rest_g = TypeList::Cons(Box::new(G::val_type()), Box::new(rest_end));
                    let rest_f = TypeList::Cons(Box::new(F::val_type()), Box::new(rest_g));
                    let rest_e = TypeList::Cons(Box::new(E::val_type()), Box::new(rest_f));
                    let rest_d = TypeList::Cons(Box::new(D::val_type()), Box::new(rest_e));
                    let rest_c = TypeList::Cons(Box::new(C::val_type()), Box::new(rest_d));
                    let rest_b = TypeList::Cons(Box::new(B::val_type()), Box::new(rest_c));
                    let rest_a = TypeList::Cons(Box::new(A::val_type()), Box::new(rest_b));
                    assert(check_members_spec(rest_a, untyped) is Ok);
                },
                Either7::B(x) => {
                    B::lemma_into_checked(x, untyped);
                    let rest_end = TypeList::Nil;
                    let rest_g = TypeList::Cons(Box::new(G::val_type()), Box::new(rest_end));
                    let rest_f = TypeList::Cons(Box::new(F::val_type()), Box::new(rest_g));
                    let rest_e = TypeList::Cons(Box::new(E::val_type()), Box::new(rest_f));
                    let rest_d = TypeList::Cons(Box::new(D::val_type()), Box::new(rest_e));
                    let rest_c = TypeList::Cons(Box::new(C::val_type()), Box::new(rest_d));
                    let rest_b = TypeList::Cons(Box::new(B::val_type()), Box::new(rest_c));
                    let rest_a = TypeList::Cons(Box::new(A::val_type()), Box::new(rest_b));
                    assert(check_members_spec(rest_b, untyped) is Ok);
                    assert(check_members_spec(rest_a, untyped) is Ok);
                },
                Either7::C(x) => {
                    C::lemma_into_checked(x, untyped);
                    let rest_end = TypeList::Nil;
                    let rest_g = TypeList::Cons(Box::new(G::val_type()), Box::new(rest_end));
                    let rest_f = TypeList::Cons(Box::new(F::val_type()), Box::new(rest_g));
                    let rest_e = TypeList::Cons(Box::new(E::val_type()), Box::new(rest_f));
                    let rest_d = TypeList::Cons(Box::new(D::val_type()), Box::new(rest_e));
                    let rest_c = TypeList::Cons(Box::new(C::val_type()), Box::new(rest_d));
                    let rest_b = TypeList::Cons(Box::new(B::val_type()), Box::new(rest_c));
                    let rest_a = TypeList::Cons(Box::new(A::val_type()), Box::new(rest_b));
                    assert(check_members_spec(rest_c, untyped) is Ok);
                    assert(check_members_spec(rest_b, untyped) is Ok);
                    assert(check_members_spec(rest_a, untyped) is Ok);
                },
                Either7::D(x) => {
                    D::lemma_into_checked(x, untyped);
                    let rest_end = TypeList::Nil;
                    let rest_g = TypeList::Cons(Box::new(G::val_type()), Box::new(rest_end));
                    let rest_f = TypeList::Cons(Box::new(F::val_type()), Box::new(rest_g));
                    let rest_e = TypeList::Cons(Box::new(E::val_type()), Box::new(rest_f));
                    let rest_d = TypeList::Cons(Box::new(D::val_type()), Box::new(rest_e));
                    let rest_c = TypeList::Cons(Box::new(C::val_type()), Box::new(rest_d));
                    let rest_b = TypeList::Cons(Box::new(B::val_type()), Box::new(rest_c));
                    let rest_a = TypeList::Cons(Box::new(A::val_type()), Box::new(rest_b));
                    assert(check_members_spec(rest_d, untyped) is Ok);
                    assert(check_members_spec(rest_c, untyped) is Ok);
                    assert(check_members_spec(rest_b, untyped) is Ok);
                    assert(check_members_spec(rest_a, untyped) is Ok);
                },
                Either7::E(x) => {
                    E::lemma_into_checked(x, untyped);
                    let rest_end = TypeList::Nil;
                    let rest_g = TypeList::Cons(Box::new(G::val_type()), Box::new(rest_end));
                    let rest_f = TypeList::Cons(Box::new(F::val_type()), Box::new(rest_g));
                    let rest_e = TypeList::Cons(Box::new(E::val_type()), Box::new(rest_f));
                    let rest_d = TypeList::Cons(Box::new(D::val_type()), Box::new(rest_e));
                    let rest_c = TypeList::Cons(Box::new(C::val_type()), Box::new(rest_d));
                    let rest_b = TypeList::Cons(Box::new(B::val_type()), Box::new(rest_c));
                    let rest_a = TypeList::Cons(Box::new(A::val_type()), Box::new(rest_b));
                    assert(check_members_spec(rest_e, untyped) is Ok);
                    assert(check_members_spec(rest_d, untyped) is Ok);
                    assert(check_members_spec(rest_c, untyped) is Ok);
                    assert(check_members_spec(rest_b, untyped) is Ok);
                    assert(check_members_spec(rest_a, untyped) is Ok);
                },
                Either7::F(x) => {
                    F::lemma_into_checked(x, untyped);
                    let rest_end = TypeList::Nil;
                    let rest_g = TypeList::Cons(Box::new(G::val_type()), Box::new(rest_end));
                    let rest_f = TypeList::Cons(Box::new(F::val_type()), Box::new(rest_g));
                    let rest_e = TypeList::Cons(Box::new(E::val_type()), Box::new(rest_f));
                    let rest_d = TypeList::Cons(Box::new(D::val_type()), Box::new(rest_e));
                    let rest_c = TypeList::Cons(Box::new(C::val_type()), Box::new(rest_d));
                    let rest_b = TypeList::Cons(Box::new(B::val_type()), Box::new(rest_c));
                    let rest_a = TypeList::Cons(Box::new(A::val_type()), Box::new(rest_b));
                    assert(check_members_spec(rest_f, untyped) is Ok);
                    assert(check_members_spec(rest_e, untyped) is Ok);
                    assert(check_members_spec(rest_d, untyped) is Ok);
                    assert(check_members_spec(rest_c, untyped) is Ok);
                    assert(check_members_spec(rest_b, untyped) is Ok);
                    assert(check_members_spec(rest_a, untyped) is Ok);
                },
                Either7::G(x) => {
                    G::lemma_into_checked(x, untyped);
                    let rest_end = TypeList::Nil;
                    let rest_g = TypeList::Cons(Box::new(G::val_type()), Box::new(rest_end));
                    let rest_f = TypeList::Cons(Box::new(F::val_type()), Box::new(rest_g));
                    let rest_e = TypeList::Cons(Box::new(E::val_type()), Box::new(rest_f));
                    let rest_d = TypeList::Cons(Box::new(D::val_type()), Box::new(rest_e));
                    let rest_c = TypeList::Cons(Box::new(C::val_type()), Box::new(rest_d));
                    let rest_b = TypeList::Cons(Box::new(B::val_type()), Box::new(rest_c));
                    let rest_a = TypeList::Cons(Box::new(A::val_type()), Box::new(rest_b));
                    assert(check_members_spec(rest_g, untyped) is Ok);
                    assert(check_members_spec(rest_f, untyped) is Ok);
                    assert(check_members_spec(rest_e, untyped) is Ok);
                    assert(check_members_spec(rest_d, untyped) is Ok);
                    assert(check_members_spec(rest_c, untyped) is Ok);
                    assert(check_members_spec(rest_b, untyped) is Ok);
                    assert(check_members_spec(rest_a, untyped) is Ok);
                },
            }
        }
    }

    proof fn lemma_round_trip(typed: Either7<A, B, C, D, E, F, G>, untyped: Val) {
        if Self::into_ok(typed) && Self::into_val(typed, untyped) {
            match typed {
                Either7::A(x) => {
                    A::lemma_into_checked(x, untyped);
                    A::lemma_round_trip(x, untyped);
                    assert forall|back: Either7<A, B, C, D, E, F, G>|
                        #[trigger] Self::from_val(untyped, back) implies Self::same(back, typed) by {
                        if let Either7::A(y) = back {
                            assert(A::from_val(untyped, y));
                        }
                    }
                },
                Either7::B(x) => {
                    B::lemma_into_checked(x, untyped);
                    B::lemma_round_trip(x, untyped);
                    assert forall|back: Either7<A, B, C, D, E, F, G>|
                        #[trigger] Self::from_val(untyped, back) implies Self::same(back, typed) by {
                        if let Either7::B(y) = back {
                            assert(B::from_val(untyped, y));
                        }
                    }
                },
                Either7::C(x) => {
                    C::lemma_into_checked(x, untyped);
                    C::lemma_round_trip(x, untyped);
                    assert forall|back: Either7<A, B, C, D, E, F, G>|
                        #[trigger] Self::from_val(untyped, back) implies Self::same(back, typed) by {
                        if let Either7::C(y) = back {
                            assert(C::from_val(untyped, y));
                        }
                    }
                },
                Either7::D(x) => {
                    D::lemma_into_checked(x, untyped);
                    D::lemma_round_trip(x, untyped);
                    assert forall|back: Either7<A, B, C, D, E, F, G>|
                        #[trigger] Self::from_val(untyped, back) implies Self::same(back, typed) by {
                        if let Either7::D(y) = back {
                            assert(D::from_val(untyped, y));
                        }
                    }
                },
                Either7::E(x) => {
                    E::lemma_into_checked(x, untyped);
                    E::lemma_round_trip(x, untyped);
                    assert forall|back: Either7<A, B, C, D, E, F, G>|
                        #[trigger] Self::from_val(untyped, back) implies Self::same(back, typed) by {
                        if let Either7::E(y) = back {
                            assert(E::from_val(untyped, y));
                        }
                    }
                },
                Either7::F(x) => {
                    F::lemma_into_checked(x, untyped);
                    F::lemma_round_trip(x, untyped);
                    assert forall|back: Either7<A, B, C, D, E, F, G>|
                        #[trigger] Self::from_val(untyped, back) implies Self::same(back, typed) by {
                        if let Either7::F(y) = back {
                            assert(F::from_val(untyped, y));
                        }
                    }
                },
                Either7::G(x) => {
                    G::lemma_into_checked(x, untyped);
                    G::lemma_round_trip(x, untyped);
                    assert forall|back: Either7<A, B, C, D, E, F, G>|
                        #[trigger] Self::from_val(untyped, back) implies Self::same(back, typed) by {
                        if let Either7::G(y) = back {
                            assert(G::from_val(untyped, y));
                        }
                    }
                },
            }
        }
    }
}

/// A value that is a number or a string.
pub type MyType = Either3<u32, crate::number::Number, String>;

/// A value reads back as the first member whose type accepts it, and
/// succeeds as that member's conversion does; where no member's type
/// accepts it, reading it back fails with the union's own check error.
pub proof fn law_either1_first<A: Typed>(untyped: Val, typed: Either1<A>)
    ensures
        Either1::<A>::from_val(untyped, typed) ==> match typed {
            Either1::A(x) => check_spec(A::val_type(), untyped) is Ok && A::from_val(untyped, x),
        },
        check_spec(A::val_type(), untyped) is Ok ==> (Either1::<A>::from_ok(untyped) == A::from_ok(untyped)),
        !(check_spec(A::val_type(), untyped) is Ok) ==>
            check_spec(Either1::<A>::val_type(), untyped) is Err
            && !Either1::<A>::from_ok(untyped)
            && Either1::<A>::from_err(untyped) == check_spec(Either1::<A>::val_type(), untyped)->Err_0,
{
    if !(check_spec(A::val_type(), untyped) is Ok) {
        let rest_end = TypeList::Nil;
        let rest_a = TypeList::Cons(Box::new(A::val_type()), Box::new(rest_end));
        assert(check_members_spec(rest_end, untyped) is Err);
        assert(check_members_spec(rest_a, untyped) is Err);
    }
}

/// A value reads back as the first member whose type accepts it, and
/// succeeds as that member's conversion does; where no member's type
/// accepts it, reading it back fails with the union's own check error.
pub proof fn law_either2_first<A: Typed, B: Typed>(untyped: Val, typed: Either2<A, B>)
    ensures
        Either2::<A, B>::from_val(untyped, typed) ==> match typed {
            Either2::A(x) => check_spec(A::val_type(), untyped) is Ok && A::from_val(untyped, x),
            Either2::B(x) => !(check_spec(A::val_type(), untyped) is Ok) && check_spec(B::val_type(), untyped) is Ok && B::from_val(untyped, x),
        },
        check_spec(A::val_type(), untyped) is Ok ==>
            (Either2::<A, B>::from_ok(untyped) == A::from_ok(untyped)),
        !(check_spec(A::val_type(), untyped) is Ok) && check_spec(B::val_type(), untyped) is Ok ==>
            (Either2::<A, B>::from_ok(untyped) == B::from_ok(untyped)),
        !(check_spec(A::val_type(), untyped) is Ok) && !(check_spec(B::val_type(), untyped) is Ok) ==>
            check_spec(Either2::<A, B>::val_type(), untyped) is Err
            && !Either2::<A, B>::from_ok(untyped)
            && Either2::<A, B>::from_err(untyped) == check_spec(Either2::<A, B>::val_type(), untyped)->Err_0,
{
    if !(check_spec(A::val_type(), untyped) is Ok) && !(check_spec(B::val_type(), untyped) is Ok) {
        let rest_end = TypeList::Nil;
        let rest_b = TypeList::Cons(Box::new(B::val_type()), Box::new(rest_end));
        let rest_a = TypeList::Cons(Box::new(A::val_type()), Box::new(rest_b));
        assert(check_members_spec(rest_end, untyped) is Err);
        assert(check_members_spec(rest_b, untyped) is Err);
        assert(check_members_spec(rest_a, untyped) is Err);
    }
}

/// A value reads back as the first member whose type accepts it, and
/// succeeds as that member's conversion does; where no member's type
/// accepts it, reading it back fails with the union's own check error.
pub proof fn law_either3_first<A: Typed, B: Typed, C: Typed>(untyped: Val, typed: Either3<A, B, C>)
    ensures
        Either3::<A, B, C>::from_val(untyped, typed) ==> match typed {
            Either3::A(x) => check_spec(A::val_type(), untyped) is Ok && A::from_val(untyped, x),
            Either3::B(x) => !(check_spec(A::val_type(), untyped) is Ok) && check_spec(B::val_type(), untyped) is Ok && B::from_val(untyped, x),
            Either3::C(x) => !(check_spec(A::val_type(), untyped) is Ok) && !(check_spec(B::val_type(), untyped) is Ok) && check_spec(C::val_type(), untyped) is Ok && C::from_val(untyped, x),
        },
        check_spec(A::val_type(), untyped) is Ok ==>
            (Either3::<A, B, C>::from_ok(untyped) == A::from_ok(untyped)),
        !(check_spec(A::val_type(), untyped) is Ok) && check_spec(B::val_type(), untyped) is Ok ==>
            (Either3::<A, B, C>::from_ok(untyped) == B::from_ok(untyped)),
        !(check_spec(A::val_type(), untyped) is Ok) && !(check_spec(B::val_type(), untyped) is Ok) && check_spec(C::val_type(), untyped) is Ok ==>
            (Either3::<A, B, C>::from_ok(untyped) == C::from_ok(untyped)),
        !(check_spec(A::val_type(), untyped) is Ok) && !(check_spec(B::val_type(), untyped) is Ok) && !(check_spec(C::val_type(), untyped) is Ok) ==>
            check_spec(Either3::<A, B, C>::val_type(), untyped) is Err
            && !Either3::<A, B, C>::from_ok(untyped)
            && Either3::<A, B, C>::from_err(untyped) == check_spec(Either3::<A, B, C>::val_type(), untyped)->Err_0,
{
    if !(check_spec(A::val_type(), untyped) is Ok) && !(check_spec(B::val_type(), untyped) is Ok) && !(check_spec(C::val_type(), untyped) is Ok) {
        let rest_end = TypeList::Nil;
        let rest_c = TypeList::Cons(Box::new(C::val_type()), Box::new(rest_end));
        let rest_b = TypeList::Cons(Box::new(B::val_type()), Box::new(rest_c));
        let rest_a = TypeList::Cons(Box::new(A::val_type()), Box::new(rest_b));
        assert(check_members_spec(rest_end, untyped) is Err);
        assert(check_members_spec(rest_c, untyped) is Err);
        assert(check_members_spec(rest_b, untyped) is Err);
        assert(check_members_spec(rest_a, untyped) is Err);
    }
}

/// A value reads back as the first member whose type accepts it, and
/// succeeds as that member's conversion does; where no member's type
/// accepts it, reading it back fails with the union's own check error.
pub proof fn law_either4_first<A: Typed, B: Typed, C: Typed, D: Typed>(untyped: Val, typed: Either4<A, B, C, D>)
    ensures
        Either4::<A, B, C, D>::from_val(untyped, typed) ==> match typed {
            Either4::A(x) => check_spec(A::val_type(), untyped) is Ok && A::from_val(untyped, x),
            Either4::B(x) => !(check_spec(A::val_type(), untyped) is Ok) && check_spec(B::val_type(), untyped) is Ok && B::from_val(untyped, x),
            Either4::C(x) => !(check_spec(A::val_type(), untyped) is Ok) && !(check_spec(B::val_type(), untyped) is Ok) && check_spec(C::val_type(), untyped) is Ok && C::from_val(untyped, x),
            Either4::D(x) => !(check_spec(A::val_type(), untyped) is Ok) && !(check_spec(B::val_type(), untyped) is Ok) && !(check_spec(C::val_type(), untyped) is Ok) && check_spec(D::val_type(), untyped) is Ok && D::from_val(untyped, x),
        },
        check_spec(A::val_type(), untyped) is Ok ==>
            (Either4::<A, B, C, D>::from_ok(untyped) == A::from_ok(untyped)),
        !(check_spec(A::val_type(), untyped) is Ok) && check_spec(B::val_type(), untyped) is Ok ==>
            (Either4::<A, B, C, D>::from_ok(untyped) == B::from_ok(untyped)),
        !(check_spec(A::val_type(), untyped) is Ok) && !(check_spec(B::val_type(), untyped) is Ok) && check_spec(C::val_type(), untyped) is Ok ==>
            (Either4::<A, B, C, D>::from_ok(untyped) == C::from_ok(untyped)),
        !(check_spec(A::val_type(), untyped) is Ok) && !(check_spec(B::val_type(), untyped) is Ok) && !(check_spec(C::val_type(), untyped) is Ok) && check_spec(D::val_type(), untyped) is Ok ==>
            (Either4::<A, B, C, D>::from_ok(untyped) == D::from_ok(untyped)),
        !(check_spec(A::val_type(), untyped) is Ok) && !(check_spec(B::val_type(), untyped) is Ok) && !(check_spec(C::val_type(), untyped) is Ok) && !(check_spec(D::val_type(), untyped) is Ok) ==>
            check_spec(Either4::<A, B, C, D>::val_type(), untyped) is Err
            && !Either4::<A, B, C, D>::from_ok(untyped)
            && Either4::<A, B, C, D>::from_err(untyped) == check_spec(Either4::<A, B, C, D>::val_type(), untyped)->Err_0,
{
    if !(check_spec(A::val_type(), untyped) is Ok) && !(check_spec(B::val_type(), untyped) is Ok) && !(check_spec(C::val_type(), untyped) is Ok) && !(check_spec(D::val_type(), untyped) is Ok) {
        let rest_end = TypeList::Nil;
        let rest_d = TypeList::Cons(Box::new(D::val_type()), Box::new(rest_end));
        let rest_c = TypeList::Cons(Box::new(C::val_type()), Box::new(rest_d));
        let rest_b = TypeList::Cons(Box::new(B::val_type()), Box::new(rest_c));
        let rest_a = TypeList::Cons(Box::new(A::val_type()), Box::new(rest_b));
        assert(check_members_spec(rest_end, untyped) is Err);
        assert(check_members_spec(rest_d, untyped) is Err);
        assert(check_members_spec(rest_c, untyped) is Err);
        assert(check_members_spec(rest_b, untyped) is Err);
        assert(check_members_spec(rest_a, untyped) is Err);
    }
}

/// A value reads back as the first member whose type accepts it, and
/// succeeds as that member's conversion does; where no member's type
/// accepts it, reading it back fails with the union's own check error.
pub proof fn law_either5_first<A: Typed, B: Typed, C: Typed, D: Typed, E: Typed>(untyped: Val, typed: Either5<A, B, C, D, E>)
    ensures
        Either5::<A, B, C, D, E>::from_val(untyped, typed) ==> match typed {
            Either5::A(x) => check_spec(A::val_type(), untyped) is Ok && A::from_val(untyped, x),
            Either5::B(x) => !(check_spec(A::val_type(), untyped) is Ok) && check_spec(B::val_type(), untyped) is Ok && B::from_val(untyped, x),
            Either5::C(x) => !(check_spec(A::val_type(), untyped) is Ok) && !(check_spec(B::val_type(), untyped) is Ok) && check_spec(C::val_type(), untyped) is Ok && C::from_val(untyped, x),
            Either5::D(x) => !(check_spec(A::val_type(), untyped) is Ok) && !(check_spec(B::val_type(), untyped) is Ok) && !(check_spec(C::val_type(), untyped) is Ok) && check_spec(D::val_type(), untyped) is Ok && D::from_val(untyped, x),
            Either5::E(x) => !(check_spec(A::val_type(), untyped) is Ok) && !(check_spec(B::val_type(), untyped) is Ok) && !(check_spec(C::val_type(), untyped) is Ok) && !(check_spec(D::val_type(), untyped) is Ok) && check_spec(E::val_type(), untyped) is Ok && E::from_val(untyped, x),
        },
        check_spec(A::val_type(), untyped) is Ok ==>
            (Either5::<A, B, C, D, E>::from_ok(untyped) == A::from_ok(untyped)),
        !(check_spec(A::val_type(), untyped) is Ok) && check_spec(B::val_type(), untyped) is Ok ==>
            (Either5::<A, B, C, D, E>::from_ok(untyped) == B::from_ok(untyped)),
        !(check_spec(A::val_type(), untyped) is Ok) && !(check_spec(B::val_type(), untyped) is Ok) && check_spec(C::val_type(), untyped) is Ok ==>
            (Either5::<A, B, C, D, E>::from_ok(untyped) == C::from_ok(untyped)),
        !(check_spec(A::val_type(), untyped) is Ok) && !(check_spec(B::val_type(), untyped) is Ok) && !(check_spec(C::val_type(), untyped) is Ok) && check_spec(D::val_type(), untyped) is Ok ==>
            (Either5::<A, B, C, D, E>::from_ok(untyped) == D::from_ok(untyped)),
        !(check_spec(A::val_type(), untyped) is Ok) && !(check_spec(B::val_type(), untyped) is Ok) && !(check_spec(C::val_type(), untyped) is Ok) && !(check_spec(D::val_type(), untyped) is Ok) && check_spec(E::val_type(), untyped) is Ok ==>
            (Either5::<A, B, C, D, E>::from_ok(untyped) == E::from_ok(untyped)),
        !(check_spec(A::val_type(), untyped) is Ok) && !(check_spec(B::val_type(), untyped) is Ok) && !(check_spec(C::val_type(), untyped) is Ok) && !(check_spec(D::val_type(), untyped) is Ok) && !(check_spec(E::val_type(), untyped) is Ok) ==>
            check_spec(Either5::<A, B, C, D, E>::val_type(), untyped) is Err
            && !Either5::<A, B, C, D, E>::from_ok(untyped)
            && Either5::<A, B, C, D, E>::from_err(untyped) == check_spec(Either5::<A, B, C, D, E>::val_type(), untyped)->Err_0,
{
    if !(check_spec(A::val_type(), untyped) is Ok) && !(check_spec(B::val_type(), untyped) is Ok) && !(check_spec(C::val_type(), untyped) is Ok) && !(check_spec(D::val_type(), untyped) is Ok) && !(check_spec(E::val_type(), untyped) is Ok) {
        let rest_end = TypeList::Nil;
        let rest_e = TypeList::Cons(Box::new(E::val_type()), Box::new(rest_end));
        let rest_d = TypeList::Cons(Box::new(D::val_type()), Box::new(rest_e));
        let rest_c = TypeList::Cons(Box::new(C::val_type()), Box::new(rest_d));
        let rest_b = TypeList::Cons(Box::new(B::val_type()), Box::new(rest_c));
        let rest_a = TypeList::Cons(Box::new(A::val_type()), Box::new(rest_b));
        assert(check_members_spec(rest_end, untyped) is Err);
        assert(check_members_spec(rest_e, untyped) is Err);
        assert(check_members_spec(rest_d, untyped) is Err);
        assert(check_members_spec(rest_c, untyped) is Err);
        assert(check_members_spec(rest_b, untyped) is Err);
        assert(check_members_spec(rest_a, untyped) is Err);
    }
}

/// A value reads back as the first member whose type accepts it, and
/// succeeds as that member's conversion does; where no member's type
/// accepts it, reading it back fails with the union's own check error.
pub proof fn law_either6_first<A: Typed, B: Typed, C: Typed, D: Typed, E: Typed, F: Typed>(untyped: Val, typed: Either6<A, B, C, D, E, F>)
    ensures
        Either6::<A, B, C, D, E, F>::from_val(untyped, typed) ==> match typed {
            Either6::A(x) => check_spec(A::val_type(), untyped) is Ok && A::from_val(untyped, x),
            Either6::B(x) => !(check_spec(A::val_type(), untyped) is Ok) && check_spec(B::val_type(), untyped) is Ok && B::from_val(untyped, x),
            Either6::C(x) => !(check_spec(A::val_type(), untyped) is Ok) && !(check_spec(B::val_type(), untyped) is Ok) && check_spec(C::val_type(), untyped) is Ok && C::from_val(untyped, x),
            Either6::D(x) => !(check_spec(A::val_type(), untyped) is Ok) && !(check_spec(B::val_type(), untyped) is Ok) && !(check_spec(C::val_type(), untyped) is Ok) && check_spec(D::val_type(), untyped) is Ok && D::from_val(untyped, x),
            Either6::E(x) => !(check_spec(A::val_type(), untyped) is Ok) && !(check_spec(B::val_type(), untyped) is Ok) && !(check_spec(C::val_type(), untyped) is Ok) && !(check_spec(D::val_type(), untyped) is Ok) && check_spec(E::val_type(), untyped) is Ok && E::from_val(untyped, x),
            Either6::F(x) => !(check_spec(A::val_type(), untyped) is Ok) && !(check_spec(B::val_type(), untyped) is Ok) && !(check_spec(C::val_type(), untyped) is Ok) && !(check_spec(D::val_type(), untyped) is Ok) && !(check_spec(E::val_type(), untyped) is Ok) && check_spec(F::val_type(), untyped) is Ok && F::from_val(untyped, x),
        },
        check_spec(A::val_type(), untyped) is Ok ==>
            (Either6::<A, B, C, D, E, F>::from_ok(untyped) == A::from_ok(untyped)),
        !(check_spec(A::val_type(), untyped) is Ok) && check_spec(B::val_type(), untyped) is Ok ==>
            (Either6::<A, B, C, D, E, F>::from_ok(untyped) == B::from_ok(untyped)),
        !(check_spec(A::val_type(), untyped) is Ok) && !(check_spec(B::val_type(), untyped) is Ok) && check_spec(C::val_type(), untyped) is Ok ==>
            (Either6::<A, B, C, D, E, F>::from_ok(untyped) == C::from_ok(untyped)),
        !(check_spec(A::val_type(), untyped) is Ok) && !(check_spec(B::val_type(), untyped) is Ok) && !(check_spec(C::val_type(), untyped) is Ok) && check_spec(D::val_type(), untyped) is Ok ==>
            (Either6::<A, B, C, D, E, F>::from_ok(untyped) == D::from_ok(untyped)),
        !(check_spec(A::val_type(), untyped) is Ok) && !(check_spec(B::val_type(), untyped) is Ok) && !(check_spec(C::val_type(), untyped) is Ok) && !(check_spec(D::val_type(), untyped) is Ok) && check_spec(E::val_type(), untyped) is Ok ==>
            (Either6::<A, B, C, D, E, F>::from_ok(untyped) == E::from_ok(untyped)),
        !(check_spec(A::val_type(), untyped) is Ok) && !(check_spec(B::val_type(), untyped) is Ok) && !(check_spec(C::val_type(), untyped) is Ok) && !(check_spec(D::val_type(), untyped) is Ok) && !(check_spec(E::val_type(), untyped) is Ok) && check_spec(F::val_type(), untyped) is Ok ==>
            (Either6::<A, B, C, D, E, F>::from_ok(untyped) == F::from_ok(untyped)),
        !(check_spec(A::val_type(), untyped) is Ok) && !(check_spec(B::val_type(), untyped) is Ok) && !(check_spec(C::val_type(), untyped) is Ok) && !(check_spec(D::val_type(), untyped) is Ok) && !(check_spec(E::val_type(), untyped) is Ok) && !(check_spec(F::val_type(), untyped) is Ok) ==>
            check_spec(Either6::<A, B, C, D, E, F>::val_type(), untyped) is Err
            && !Either6::<A, B, C, D, E, F>::from_ok(untyped)
            && Either6::<A, B, C, D, E, F>::from_err(untyped) == check_spec(Either6::<A, B, C, D, E, F>::val_type(), untyped)->Err_0,
{
    if !(check_spec(A::val_type(), untyped) is Ok) && !(check_spec(B::val_type(), untyped) is Ok) && !(check_spec(C::val_type(), untyped) is Ok) && !(check_spec(D::val_type(), untyped) is Ok) && !(check_spec(E::val_type(), untyped) is Ok) && !(check_spec(F::val_type(), untyped) is Ok) {
        let rest_end = TypeList::Nil;
        let rest_f = TypeList::Cons(Box::new(F::val_type()), Box::new(rest_end));
        let rest_e = TypeList::Cons(Box::new(E::val_type()), Box::new(rest_f));
        let rest_d = TypeList::Cons(Box::new(D::val_type()), Box::new(rest_e));
        let rest_c = TypeList::Cons(Box::new(C::val_type()), Box::new(rest_d));
        let rest_b = TypeList::Cons(Box::new(B::val_type()), Box::new(rest_c));
        let rest_a = TypeList::Cons(Box::new(A::val_type()), Box::new(rest_b));
        assert(check_members_spec(rest_end, untyped) is Err);
        assert(check_members_spec(rest_f, untyped) is Err);
        assert(check_members_spec(rest_e, untyped) is Err);
        assert(check_members_spec(rest_d, untyped) is Err);
        assert(check_members_spec(rest_c, untyped) is Err);
        assert(check_members_spec(rest_b, untyped) is Err);
        assert(check_members_spec(rest_a, untyped) is Err);
    }
}

/// A value reads back as the first member whose type accepts it, and
/// succeeds as that member's conversion does; where no member's type
/// accepts it, reading it back fails with the union's own check error.
pub proof fn law_either7_first<A: Typed, B: Typed, C: Typed, D: Typed, E: Typed, F: Typed, G: Typed>(untyped: Val, typed: Either7<A, B, C, D, E, F, G>)
    ensures
        Either7::<A, B, C, D, E, F, G>::from_val(untyped, typed) ==> match typed {
            Either7::A(x) => check_spec(A::val_type(), untyped) is Ok && A::from_val(untyped, x),
            Either7::B(x) => !(check_spec(A::val_type(), untyped) is Ok) && check_spec(B::val_type(), untyped) is Ok && B::from_val(untyped, x),
            Either7::C(x) => !(check_spec(A::val_type(), untyped) is Ok) && !(check_spec(B::val_type(), untyped) is Ok) && check_spec(C::val_type(), untyped) is Ok && C::from_val(untyped, x),
            Either7::D(x) => !(check_spec(A::val_type(), untyped) is Ok) && !(check_spec(B::val_type(), untyped) is Ok) && !(check_spec(C::val_type(), untyped) is Ok) && check_spec(D::val_type(), untyped) is Ok && D::from_val(untyped, x),
            Either7::E(x) => !(check_spec(A::val_type(), untyped) is Ok) && !(check_spec(B::val_type(), untyped) is Ok) && !(check_spec(C::val_type(), untyped) is Ok) && !(check_spec(D::val_type(), untyped) is Ok) && check_spec(E::val_type(), untyped) is Ok && E::from_val(untyped, x),
            Either7::F(x) => !(check_spec(A::val_type(), untyped) is Ok) && !(check_spec(B::val_type(), untyped) is Ok) && !(check_spec(C::val_type(), untyped) is Ok) && !(check_spec(D::val_type(), untyped) is Ok) && !(check_spec(E::val_type(), untyped) is Ok) && check_spec(F::val_type(), untyped) is Ok && F::from_val(untyped, x),
            Either7::G(x) => !(check_spec(A::val_type(), untyped) is Ok) && !(check_spec(B::val_type(), untyped) is Ok) && !(check_spec(C::val_type(), untyped) is Ok) && !(check_spec(D::val_type(), untyped) is Ok) && !(check_spec(E::val_type(), untyped) is Ok) && !(check_spec(F::val_type(), untyped) is Ok) && check_spec(G::val_type(), untyped) is Ok && G::from_val(untyped, x),
        },
        check_spec(A::val_type(), untyped) is Ok ==>
            (Either7::<A, B, C, D, E, F, G>::from_ok(untyped) == A::from_ok(untyped)),
        !(check_spec(A::val_type(), untyped) is Ok) && check_spec(B::val_type(), untyped) is Ok ==>
            (Either7::<A, B, C, D, E, F, G>::from_ok(untyped) == B::from_ok(untyped)),
        !(check_spec(A::val_type(), untyped) is Ok) && !(check_spec(B::val_type(), untyped) is Ok) && check_spec(C::val_type(), untyped) is Ok ==>
            (Either7::<A, B, C, D, E, F, G>::from_ok(untyped) == C::from_ok(untyped)),
        !(check_spec(A::val_type(), untyped) is Ok) && !(check_spec(B::val_type(), untyped) is Ok) && !(check_spec(C::val_type(), untyped) is Ok) && check_spec(D::val_type(), untyped) is Ok ==>
            (Either7::<A, B, C, D, E, F, G>::from_ok(untyped) == D::from_ok(untyped)),
        !(check_spec(A::val_type(), untyped) is Ok) && !(check_spec(B::val_type(), untyped) is Ok) && !(check_spec(C::val_type(), untyped) is Ok) && !(check_spec(D::val_type(), untyped) is Ok) && check_spec(E::val_type(), untyped) is Ok ==>
            (Either7::<A, B, C, D, E, F, G>::from_ok(untyped) == E::from_ok(untyped)),
        !(check_spec(A::val_type(), untyped) is Ok) && !(check_spec(B::val_type(), untyped) is Ok) && !(check_spec(C::val_type(), untyped) is Ok) && !(check_spec(D::val_type(), untyped) is Ok) && !(check_spec(E::val_type(), untyped) is Ok) && check_spec(F::val_type(), untyped) is Ok ==>
            (Either7::<A, B, C, D, E, F, G>::from_ok(untyped) == F::from_ok(untyped)),
        !(check_spec(A::val_type(), untyped) is Ok) && !(check_spec(B::val_type(), untyped) is Ok) && !(check_spec(C::val_type(), untyped) is Ok) && !(check_spec(D::val_type(), untyped) is Ok) && !(check_spec(E::val_type(), untyped) is Ok) && !(check_spec(F::val_type(), untyped) is Ok) && check_spec(G::val_type(), untyped) is Ok ==>
            (Either7::<A, B, C, D, E, F, G>::from_ok(untyped) == G::from_ok(untyped)),
        !(check_spec(A::val_type(), untyped) is Ok) && !(check_spec(B::val_type(), untyped) is Ok) && !(check_spec(C::val_type(), untyped) is Ok) && !(check_spec(D::val_type(), untyped) is Ok) && !(check_spec(E::val_type(), untyped) is Ok) && !(check_spec(F::val_type(), untyped) is Ok) && !(check_spec(G::val_type(), untyped) is Ok) ==>
            check_spec(Either7::<A, B, C, D, E, F, G>::val_type(), untyped) is Err
            && !Either7::<A, B, C, D, E, F, G>::from_ok(untyped)
            && Either7::<A, B, C, D, E, F, G>::from_err(untyped) == check_spec(Either7::<A, B, C, D, E, F, G>::val_type(), untyped)->Err_0,
{
    if !(check_spec(A::val_type(), untyped) is Ok) && !(check_spec(B::val_type(), untyped) is Ok) && !(check_spec(C::val_type(), untyped) is Ok) && !(check_spec(D::val_type(), untyped) is Ok) && !(check_spec(E::val_type(), untyped) is Ok) && !(check_spec(F::val_type(), untyped) is Ok) && !(check_spec(G::val_type(), untyped) is Ok) {
        let rest_end = TypeList::Nil;
        let rest_g = TypeList::Cons(Box::new(G::val_type()), Box::new(rest_end));
        let rest_f = TypeList::Cons(Box::new(F::val_type()), Box::new(rest_g));
        let rest_e = TypeList::Cons(Box::new(E::val_type()), Box::new(rest_f));
        let rest_d = TypeList::Cons(Box::new(D::val_type()), Box::new(rest_e));
        let rest_c = TypeList::Cons(Box::new(C::val_type()), Box::new(rest_d));
        let rest_b = TypeList::Cons(Box::new(B::val_type()), Box::new(rest_c));
        let rest_a = TypeList::Cons(Box::new(A::val_type()), Box::new(rest_b));
        assert(check_members_spec(rest_end, untyped) is Err);
        assert(check_members_spec(rest_g, untyped) is Err);
        assert(check_members_spec(rest_f, untyped) is Err);
        assert(check_members_spec(rest_e, untyped) is Err);
        assert(check_members_spec(rest_d, untyped) is Err);
        assert(check_members_spec(rest_c, untyped) is Err);
        assert(check_members_spec(rest_b, untyped) is Err);
        assert(check_members_spec(rest_a, untyped) is Err);
    }
}

} // verus!
