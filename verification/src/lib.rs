//! Traits analogous to `From`, `Into`, `TryFrom`, and `TryInto` which standardize
//! casting between types, with verified contracts tying every derived operation
//! back to the one primitive an implementer writes.
//!
//! `CastFrom` is the primitive unconditional cast. `CastInto` is derived from it
//! by a blanket implementation, as are the fallible casts `TryCastFrom` and
//! `TryCastInto` and the probe trait `Match`. The `can_cast_from` and
//! `can_cast_into` methods borrow the source value, allowing pattern matching
//! without moving.

use vstd::prelude::*;

pub mod sample;

verus! {

use vstd::std_specs::convert::FromSpec;

/// Conversion methods between a container type (such as an `enum`) and a target
/// type `T` bound to exactly one of its variants.
///
/// `variant_spec` names the payload the container currently holds, when it holds
/// the variant bound to `T`; all three access methods agree with it on
/// eligibility, so they return "present" for the same runtime state of the
/// container.
pub trait AsType<T>: From<T> {
    /// The payload of the variant bound to `T`, if `self` currently holds it.
    spec fn variant_spec(&self) -> Option<T>;

    /// Borrow this instance as an instance of `T` if possible.
    fn as_type(&self) -> (r: Option<&T>)
        ensures
            match self.variant_spec() {
                Option::Some(payload) => r matches Option::Some(p) && *p == payload,
                Option::None => r is None,
            },
    ;

    /// Borrow this instance mutably as an instance of `T` if possible.
    fn as_type_mut(&mut self) -> (r: Option<&mut T>)
        ensures
            match old(self).variant_spec() {
                Option::Some(payload) => r is Some && *r.unwrap() == payload
                    && final(self).variant_spec() == Option::Some(*final(r.unwrap())),
                Option::None => r is None && *final(self) == *old(self),
            },
    ;

    /// Convert this instance into an instance of `T` if possible.
    fn into_type(self) -> (r: Option<T>)
        ensures
            r == self.variant_spec(),
    ;
}

/// Trait for defining a cast operation from some source type `T`.
/// Analogous to `From`.
/// The inverse of `CastInto`.
/// Prefer implementing `CastFrom` over `CastInto` because implementing `CastFrom`
/// automatically provides an implementation of `CastInto`.
///
/// `cast_from` is total: it has no precondition and never fails. When
/// `cast_from_obeys` holds, its result is exactly `cast_from_spec`; every
/// implementation written directly in this crate makes `cast_from_obeys` true.
pub trait CastFrom<T>: Sized {
    /// Whether `cast_from` is known to return exactly `cast_from_spec`.
    spec fn cast_from_obeys() -> bool;

    /// The value that casting `value` into `Self` produces.
    spec fn cast_from_spec(value: T) -> Self;

    /// Cast an instance of `T` into an instance of `Self`.
    fn cast_from(value: T) -> (r: Self)
        ensures
            Self::cast_from_obeys() ==> r == Self::cast_from_spec(value),
    ;
}

/// Trait for defining a cast operation to some destination type `T`.
/// Analogous to `Into`.
/// The inverse of `CastFrom`.
/// Prefer implementing `CastFrom` over `CastInto` because implementing `CastFrom`
/// automatically provides an implementation of `CastInto`.
pub trait CastInto<T>: Sized {
    /// Whether `cast_into` is known to return exactly `cast_into_spec`.
    spec fn cast_into_obeys() -> bool;

    /// The value that casting `self` into `T` produces.
    spec fn cast_into_spec(self) -> T;

    /// Cast an instance of `Self` into an instance of `T`.
    fn cast_into(self) -> (r: T)
        ensures
            Self::cast_into_obeys() ==> r == self.cast_into_spec(),
    ;
}

impl<F, T: From<F>> CastFrom<F> for T {
    open spec fn cast_from_obeys() -> bool {
        <T as FromSpec<F>>::obeys_from_spec()
    }

    open spec fn cast_from_spec(f: F) -> T {
        <T as FromSpec<F>>::from_spec(f)
    }

    fn cast_from(f: F) -> (r: T) {
        T::from(f)
    }
}

impl<T, F: CastFrom<T>> CastInto<F> for T {
    open spec fn cast_into_obeys() -> bool {
        <F as CastFrom<T>>::cast_from_obeys()
    }

    open spec fn cast_into_spec(self) -> F {
        F::cast_from_spec(self)
    }

    fn cast_into(self) -> (r: F) {
        F::cast_from(self)
    }
}

/// Trait for defining a cast operation when the source type cannot always be cast
/// to the destination type. Defines a `can_cast_from` method which borrows the
/// source value, allowing for pattern matching without moving the value.
///
/// The eligibility test and the conversion must agree: `opt_cast_from` returns
/// `Some` exactly when `can_cast_from` returns `true`. Here that agreement is a
/// verified obligation on every implementation (`eligibility_consistent`), so the
/// unwrap inside `try_cast_from` is proved never to fail.
///
/// Analogous to `TryFrom`.
/// The inverse of `TryCastInto`.
/// Prefer implementing `TryCastFrom` over `TryCastInto` because implementing
/// `TryCastFrom` automatically provides an implementation of `TryCastInto`.
pub trait TryCastFrom<T>: Sized {
    /// Whether `opt_cast_from` is known to return exactly `opt_cast_from_spec`.
    spec fn try_cast_from_obeys() -> bool;

    /// Whether `value` can be cast into `Self`.
    spec fn can_cast_from_spec(value: T) -> bool;

    /// The result of casting `value` into `Self`, present exactly when the value
    /// is eligible.
    spec fn opt_cast_from_spec(value: T) -> Option<Self>;

    /// The eligibility test decides presence: a value is eligible if and only if
    /// its conversion is present.
    proof fn eligibility_consistent(value: T)
        ensures
            Self::can_cast_from_spec(value) <==> Self::opt_cast_from_spec(value) is Some,
    ;

    /// Test if `value` can be cast into `Self`.
    fn can_cast_from(value: &T) -> (r: bool)
        ensures
            r == Self::can_cast_from_spec(*value),
    ;

    /// Returns `Some(Self)` if the source value can be cast into `Self`, otherwise `None`.
    fn opt_cast_from(value: T) -> (r: Option<Self>)
        ensures
            r is Some <==> Self::can_cast_from_spec(value),
            Self::try_cast_from_obeys() ==> r == Self::opt_cast_from_spec(value),
    ;

    /// Returns `Ok(Self)` if the source value can be cast into `Self`, otherwise calls `on_err`.
    fn try_cast_from<E, OnErr: FnOnce(&T) -> E>(value: T, on_err: OnErr) -> (r: Result<Self, E>)
        requires
            !Self::can_cast_from_spec(value) ==> call_requires(on_err, (&value,)),
        ensures
            r is Ok <==> Self::can_cast_from_spec(value),
            Self::try_cast_from_obeys() ==> (r matches Ok(cast) ==> Option::Some(cast)
                == Self::opt_cast_from_spec(value)),
            r matches Err(e) ==> call_ensures(on_err, (&value,), e),
    {
        if Self::can_cast_from(&value) {
            Result::Ok(Self::opt_cast_from(value).unwrap())
        } else {
            Result::Err(on_err(&value))
        }
    }
}

/// Trait for defining a cast operation when the destination type cannot always be
/// cast from the source type. Defines a `can_cast_into` method which borrows
/// `self`, allowing for pattern matching without moving `self`.
///
/// As with `TryCastFrom`, `opt_cast_into` returns `Some` exactly when
/// `can_cast_into` returns `true`, and the unwrap inside `try_cast_into` is
/// proved never to fail.
///
/// Analogous to `TryFrom`.
/// The inverse of `TryCastFrom`.
/// Prefer implementing `TryCastFrom` over `TryCastInto` because implementing
/// `TryCastFrom` automatically provides an implementation of `TryCastInto`.
pub trait TryCastInto<T>: Sized {
    /// Whether `opt_cast_into` is known to return exactly `opt_cast_into_spec`.
    spec fn try_cast_into_obeys() -> bool;

    /// Whether `self` can be cast into `T`.
    spec fn can_cast_into_spec(self) -> bool;

    /// The result of casting `self` into `T`, present exactly when the value is
    /// eligible.
    spec fn opt_cast_into_spec(self) -> Option<T>;

    /// The eligibility test decides presence: a value is eligible if and only if
    /// its conversion is present.
    proof fn into_eligibility_consistent(value: Self)
        ensures
            value.can_cast_into_spec() <==> value.opt_cast_into_spec() is Some,
    ;

    /// Test if `self` can be cast into `T`.
    fn can_cast_into(&self) -> (r: bool)
        ensures
            r == Self::can_cast_into_spec(*self),
    ;

    /// Returns `Some(T)` if `self` can be cast into `T`, otherwise `None`.
    fn opt_cast_into(self) -> (r: Option<T>)
        ensures
            r is Some <==> self.can_cast_into_spec(),
            Self::try_cast_into_obeys() ==> r == self.opt_cast_into_spec(),
    ;

    /// Returns `Ok(T)` if `self` can be cast into `T`, otherwise calls `on_err`.
    fn try_cast_into<E, OnErr: FnOnce(&Self) -> E>(self, on_err: OnErr) -> (r: Result<T, E>)
        requires
            !self.can_cast_into_spec() ==> call_requires(on_err, (&self,)),
        ensures
            r is Ok <==> self.can_cast_into_spec(),
            Self::try_cast_into_obeys() ==> (r matches Ok(cast) ==> Option::Some(cast)
                == self.opt_cast_into_spec()),
            r matches Err(e) ==> call_ensures(on_err, (&self,), e),
    {
        if self.can_cast_into() {
            Result::Ok(self.opt_cast_into().unwrap())
        } else {
            Result::Err(on_err(&self))
        }
    }
}

impl<F, T: CastFrom<F>> TryCastFrom<F> for T {
    open spec fn try_cast_from_obeys() -> bool {
        <T as CastFrom<F>>::cast_from_obeys()
    }

    open spec fn can_cast_from_spec(f: F) -> bool {
        true
    }

    open spec fn opt_cast_from_spec(f: F) -> Option<T> {
        Option::Some(T::cast_from_spec(f))
    }

    proof fn eligibility_consistent(f: F) {
    }

    fn can_cast_from(_f: &F) -> (r: bool) {
        true
    }

    fn opt_cast_from(f: F) -> (r: Option<T>) {
        Option::Some(T::cast_from(f))
    }
}

impl<F, T: TryCastFrom<F>> TryCastInto<T> for F {
    open spec fn try_cast_into_obeys() -> bool {
        <T as TryCastFrom<F>>::try_cast_from_obeys()
    }

    open spec fn can_cast_into_spec(self) -> bool {
        T::can_cast_from_spec(self)
    }

    open spec fn opt_cast_into_spec(self) -> Option<T> {
        T::opt_cast_from_spec(self)
    }

    proof fn into_eligibility_consistent(value: F) {
        T::eligibility_consistent(value);
    }

    fn can_cast_into(&self) -> (r: bool) {
        T::can_cast_from(self)
    }

    fn opt_cast_into(self) -> (r: Option<T>) {
        T::opt_cast_from(self)
    }
}

/// Blanket implementation of a convenience method `matches` which allows calling
/// `can_cast_from` with a type parameter. Do not implement this trait.
pub trait Match: Sized {
    /// Returns `true` if `self` can be cast into the target type `T`.
    fn matches<T: TryCastFrom<Self>>(&self) -> (r: bool)
        ensures
            r == T::can_cast_from_spec(*self),
    {
        T::can_cast_from(self)
    }
}

impl<F> Match for F {}

/// Any pair with an unconditional edge is always eligible for the derived
/// fallible edge: the derived eligibility test is constantly true, and the
/// derived conversion is always present, with the value `cast_from` gives.
pub proof fn lemma_unconditional_always_eligible<T, F: CastFrom<T>>(s: T)
    ensures
        <F as TryCastFrom<T>>::can_cast_from_spec(s),
        <F as TryCastFrom<T>>::opt_cast_from_spec(s) == Option::Some(
            <F as CastFrom<T>>::cast_from_spec(s),
        ),
{
}

/// The derived fallible *into* direction mirrors the declared *from* direction
/// exactly: the same values are eligible, and the same results are produced.
pub proof fn lemma_fallible_into_mirrors_from<F, T: TryCastFrom<F>>(s: F)
    ensures
        <F as TryCastInto<T>>::can_cast_into_spec(s) == <T as TryCastFrom<F>>::can_cast_from_spec(
            s,
        ),
        <F as TryCastInto<T>>::opt_cast_into_spec(s) == <T as TryCastFrom<F>>::opt_cast_from_spec(
            s,
        ),
{
}

/// A value cast with the derived `cast_into` is the value `cast_from` gives:
/// both directions describe the one edge declared by the `CastFrom`
/// implementation, viewed from either side.
pub proof fn lemma_cast_into_is_cast_from<T, F: CastFrom<T>>(s: T)
    ensures
        <T as CastInto<F>>::cast_into_spec(s) == <F as CastFrom<T>>::cast_from_spec(s),
        <T as CastInto<F>>::cast_into_obeys() == <F as CastFrom<T>>::cast_from_obeys(),
{
}

} // verus!
