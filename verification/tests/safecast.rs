use safecast::sample::{Bar, Baz, Foo, FooBar};
use safecast::{AsType, CastFrom, CastInto, Match, TryCastFrom, TryCastInto};

struct CastError;

#[test]
fn test_cast() {
    let foo = Foo { a: 1 };
    assert_eq!(Bar::cast_from(foo), Bar { b: 1 })
}

#[test]
fn test_matches() {
    let bar0 = Bar { b: 0 };
    let bar1 = Bar { b: 1 };
    assert!(bar0.matches::<Baz>());
    assert!(!bar1.matches::<Baz>());
}

#[test]
fn test_try_cast() {
    let bar0 = Bar { b: 0 };
    let bar1 = Bar { b: 1 };

    assert_eq!(Baz::opt_cast_from(bar0), Some(Baz { bar: bar0 }));
    assert_eq!(Baz::opt_cast_from(bar1), None);

    assert!(Baz::try_cast_from(bar0, |_| CastError).is_ok());
    assert!(Baz::try_cast_from(bar1, |_| CastError).is_err());
}

#[test]
fn test_as_type_macro() {
    let bar = Bar { b: 0 };
    let foo_bar = FooBar::Bar(bar);
    assert_eq!(foo_bar.as_type(), Some(&bar));
}

#[test]
fn cast_into_agrees_with_cast_from() {
    let via_from = Bar::cast_from(Foo { a: 7 });
    let via_into: Bar = Foo { a: 7 }.cast_into();
    assert_eq!(via_from, via_into);
    assert_eq!(via_into, Bar { b: 7 });
}

#[test]
fn unconditional_edge_is_always_eligible() {
    assert!(Bar::can_cast_from(&Foo { a: -1 }));
    assert_eq!(Bar::opt_cast_from(Foo { a: 3 }), Some(Bar { b: 3 }));
    assert!(Foo { a: 3 }.matches::<Bar>());
}

#[test]
fn try_cast_err_carries_constructed_error() {
    let err: Result<Baz, u32> = Baz::try_cast_from(Bar { b: 9 }, |bar| bar.b + 1);
    assert_eq!(err.err(), Some(10));
    let ok: Result<Baz, u32> = Baz::try_cast_from(Bar { b: 0 }, |bar| bar.b + 1);
    assert_eq!(ok.ok(), Some(Baz { bar: Bar { b: 0 } }));
}

#[test]
fn try_cast_into_mirrors_try_cast_from() {
    let bar0 = Bar { b: 0 };
    let bar1 = Bar { b: 1 };
    assert!(TryCastInto::<Baz>::can_cast_into(&bar0));
    assert!(!TryCastInto::<Baz>::can_cast_into(&bar1));
    assert_eq!(bar0.opt_cast_into(), Some(Baz { bar: bar0 }));
    assert_eq!(TryCastInto::<Baz>::opt_cast_into(bar1), None);
    assert!(TryCastInto::<Baz>::try_cast_into(bar0, |_| CastError).is_ok());
    assert!(TryCastInto::<Baz>::try_cast_into(bar1, |_| CastError).is_err());
}

#[test]
fn as_type_absent_for_other_variant() {
    let foo_bar = FooBar::Foo(Foo { a: 4 });
    assert_eq!(foo_bar.as_type(), None::<&Bar>);
    let baz_bar = FooBar::Baz(Baz { bar: Bar { b: 0 } });
    assert_eq!(baz_bar.into_type(), None::<Bar>);
}

#[test]
fn into_type_returns_payload() {
    let foo_bar = FooBar::from(Bar { b: 5 });
    assert_eq!(foo_bar.into_type(), Some(Bar { b: 5 }));
}

#[test]
fn as_type_mut_gives_write_access() {
    let mut foo_bar = FooBar::from(Bar { b: 5 });
    match foo_bar.as_type_mut() {
        Some(bar) => bar.b = 6,
        None => panic!("bound variant should be present"),
    }
    assert_eq!(foo_bar.into_type(), Some(Bar { b: 6 }));
}

#[test]
fn from_then_as_type_round_trips() {
    let bar = Bar { b: 0 };
    let foo_bar = FooBar::from(bar);
    assert_eq!(foo_bar.as_type(), Some(&bar));
}

#[test]
fn cast_from_truncates_negative_source() {
    assert_eq!(Bar::cast_from(Foo { a: -1 }), Bar { b: u32::MAX });
}
