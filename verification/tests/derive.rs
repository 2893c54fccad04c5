//! The duplication contract on composite types of every supported shape.

use fallacy_clone::derived::{Named, NamedGeneric, Tagged, TaggedGeneric, TextPair, Unit, Unnamed};
use fallacy_clone::TryClone;

#[test]
fn test_struct_with_named_field() {
    let s = Named { a: 10, b: 20 };
    assert_eq!(s, s.try_clone().unwrap());
}

#[test]
fn test_struct_with_unnamed_field() {
    let s = Unnamed(10, 20);
    assert_eq!(s, s.try_clone().unwrap());
}

#[test]
fn test_struct_unit() {
    let s = Unit;
    assert_eq!(s, s.try_clone().unwrap());
}

#[test]
fn test_struct_with_generic() {
    let c = 20;
    let s = NamedGeneric::<'_, _, true> {
        a: 10,
        b: "hello",
        c: &c,
    };

    assert_eq!(s, s.try_clone().unwrap());
}

#[test]
fn test_enum() {
    let s = Tagged::Named { a: 10, b: 20 };
    assert_eq!(s, s.try_clone().unwrap());

    let s = Tagged::Unnamed(10, 20);
    assert_eq!(s, s.try_clone().unwrap());

    let s = Tagged::Unit;
    assert_eq!(s, s.try_clone().unwrap());
}

#[test]
fn nested_composites_clone_through_delegation() {
    let v = 1i64;
    let s = NamedGeneric::<'_, Option<String>, false> {
        a: 1,
        b: Some(String::from("x")),
        c: &v,
    };
    assert_eq!(s, s.try_clone().unwrap());
}

#[test]
fn text_record_clones_both_fields() {
    let s = TextPair {
        first: String::from("ab"),
        second: String::from("cd"),
    };
    let c = s.try_clone().unwrap();
    assert_eq!(c, s);
    assert_ne!(c.first.as_ptr(), s.first.as_ptr());
}

#[test]
fn test_enum_with_generic() {
    let s = TaggedGeneric::<_, false>::Named("hello");
    assert_eq!(s, s.try_clone().unwrap());

    let s = TaggedGeneric::<'_, i32, true>::Unnamed(10, &20);
    assert_eq!(s, s.try_clone().unwrap());

    let s = TaggedGeneric::<'_, i64, true>::Unit;
    assert_eq!(s, s.try_clone().unwrap());
}
