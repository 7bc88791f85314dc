//! Illustrative types exercising the cast protocol: a primitive unconditional
//! edge, a primitive fallible edge, and a tagged container wired to the
//! protocol by hand.

use vstd::prelude::*;

verus! {

use crate::AsType;
use crate::CastFrom;
use crate::TryCastFrom;

/// A source type with an unconditional edge to `Bar`.
pub struct Foo {
    pub a: i32,
}

/// The target of the unconditional edge from `Foo`.
#[derive(Clone, Copy, Debug, PartialEq, Eq, Structural)]
pub struct Bar {
    pub b: u32,
}

impl CastFrom<Foo> for Bar {
    open spec fn cast_from_obeys() -> bool {
        true
    }

    open spec fn cast_from_spec(foo: Foo) -> Bar {
        Bar { b: foo.a as u32 }
    }

    fn cast_from(foo: Foo) -> (r: Bar) {
        Bar { b: #[verifier::truncate] (foo.a as u32) }
    }
}

/// The target of a fallible edge from `Bar`: only a `Bar` holding zero is
/// eligible.
#[derive(Clone, Copy, Debug, PartialEq, Eq, Structural)]
pub struct Baz {
    pub bar: Bar,
}

impl TryCastFrom<Bar> for Baz {
    open spec fn try_cast_from_obeys() -> bool {
        true
    }

    open spec fn can_cast_from_spec(bar: Bar) -> bool {
        bar.b == 0
    }

    open spec fn opt_cast_from_spec(bar: Bar) -> Option<Baz> {
        if bar.b == 0 {
            Option::Some(Baz { bar })
        } else {
            Option::None
        }
    }

    proof fn eligibility_consistent(bar: Bar) {
    }

    fn can_cast_from(bar: &Bar) -> (r: bool) {
        bar.b == 0
    }

    fn opt_cast_from(bar: Bar) -> (r: Option<Baz>) {
        if bar.b == 0 {
            Option::Some(Baz { bar })
        } else {
            Option::None
        }
    }
}

/// A tagged container over the three types above. The variant named `Bar` is
/// bound to the payload type `Bar` through `From` and `AsType`, the two
/// implementations a variant binding consists of.
pub enum FooBar {
    Foo(Foo),
    Bar(Bar),
    Baz(Baz),
}

impl From<Bar> for FooBar {
    fn from(t: Bar) -> (r: Self) {
        FooBar::Bar(t)
    }
}

impl vstd::std_specs::convert::FromSpecImpl<Bar> for FooBar {
    open spec fn obeys_from_spec() -> bool {
        true
    }

    open spec fn from_spec(t: Bar) -> FooBar {
        FooBar::Bar(t)
    }
}

impl AsType<Bar> for FooBar {
    open spec fn variant_spec(&self) -> Option<Bar> {
        match *self {
            FooBar::Bar(bar) => Option::Some(bar),
            _ => Option::None,
        }
    }

    fn as_type(&self) -> (r: Option<&Bar>) {
        match self {
            FooBar::Bar(bar) => Option::Some(bar),
            _ => Option::None,
        }
    }

    fn as_type_mut(&mut self) -> (r: Option<&mut Bar>) {
        match self {
            FooBar::Bar(bar) => Option::Some(bar),
            _ => Option::None,
        }
    }

    fn into_type(self) -> (r: Option<Bar>) {
        match self {
            FooBar::Bar(bar) => Option::Some(bar),
            _ => Option::None,
        }
    }
}

/// The variant binding round trip: wrapping a payload with the container's
/// `From` edge yields a container whose bound variant holds exactly that
/// payload, so `as_type` and `into_type` report it present.
pub proof fn lemma_variant_binding_round_trip(t: Bar)
    ensures
        <FooBar as AsType<Bar>>::variant_spec(
            &<FooBar as vstd::std_specs::convert::FromSpec<Bar>>::from_spec(t),
        ) == Option::Some(t),
{
}

/// The bound variant is the only state of the container whose payload the
/// variant accessors report present.
pub proof fn lemma_variant_binding_exact(c: FooBar)
    ensures
        <FooBar as AsType<Bar>>::variant_spec(&c) is Some <==> c matches FooBar::Bar(_),
        c matches FooBar::Bar(payload) ==> <FooBar as AsType<Bar>>::variant_spec(&c)
            == Option::Some(payload),
{
}

} // verus!
