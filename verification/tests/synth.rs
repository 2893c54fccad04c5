//! The synthesis facility: exact emitted text per shape, and the rejection of
//! unsupported shapes.

use fallacy_clone::synth::{impl_try_clone, FieldList, Shape, ShapeError, TypeDecl, Variant};

fn plain(name: &str, shape: Shape) -> TypeDecl {
    TypeDecl {
        name: name.to_string(),
        generics: String::new(),
        type_args: String::new(),
        where_clause: String::new(),
        shape,
    }
}

#[test]
fn emits_named_record_impl() {
    let decl = plain(
        "Named",
        Shape::Struct(FieldList::Named(vec!["a".to_string(), "b".to_string()])),
    );
    let code = impl_try_clone(&decl).unwrap();
    assert_eq!(
        code,
        "impl ::fallacy_clone::TryClone for Named {\n    \
         fn try_clone(&self) -> ::core::result::Result<Self, ::fallacy_clone::AllocError> {\n        \
         Ok(Self { a: ::fallacy_clone::TryClone::try_clone(&self.a)?, \
         b: ::fallacy_clone::TryClone::try_clone(&self.b)?, })\n    }\n}\n"
    );
}

#[test]
fn emits_positional_record_impl() {
    let decl = plain("Pair", Shape::Struct(FieldList::Unnamed(2)));
    let code = impl_try_clone(&decl).unwrap();
    assert_eq!(
        code,
        "impl ::fallacy_clone::TryClone for Pair {\n    \
         fn try_clone(&self) -> ::core::result::Result<Self, ::fallacy_clone::AllocError> {\n        \
         Ok(Self(::fallacy_clone::TryClone::try_clone(&self.0)?, \
         ::fallacy_clone::TryClone::try_clone(&self.1)?, ))\n    }\n}\n"
    );
}

#[test]
fn emits_empty_record_impl() {
    let decl = plain("Empty", Shape::Struct(FieldList::Unit));
    let code = impl_try_clone(&decl).unwrap();
    assert_eq!(
        code,
        "impl ::fallacy_clone::TryClone for Empty {\n    \
         fn try_clone(&self) -> ::core::result::Result<Self, ::fallacy_clone::AllocError> {\n        \
         Ok(Self)\n    }\n}\n"
    );
}

#[test]
fn emits_tagged_union_impl() {
    let decl = plain(
        "Tagged",
        Shape::Enum(vec![
            Variant {
                name: "Named".to_string(),
                fields: FieldList::Named(vec!["a".to_string(), "b".to_string()]),
            },
            Variant {
                name: "Unnamed".to_string(),
                fields: FieldList::Unnamed(2),
            },
            Variant {
                name: "Unit".to_string(),
                fields: FieldList::Unit,
            },
        ]),
    );
    let code = impl_try_clone(&decl).unwrap();
    assert_eq!(
        code,
        "impl ::fallacy_clone::TryClone for Tagged {\n    \
         fn try_clone(&self) -> ::core::result::Result<Self, ::fallacy_clone::AllocError> {\n        \
         Ok(match self { \
         Tagged::Named { a, b, } => Tagged::Named { a: ::fallacy_clone::TryClone::try_clone(a)?, \
         b: ::fallacy_clone::TryClone::try_clone(b)?, }, \
         Tagged::Unnamed(f0, f1, ) => Tagged::Unnamed(::fallacy_clone::TryClone::try_clone(f0)?, \
         ::fallacy_clone::TryClone::try_clone(f1)?, ), \
         Tagged::Unit => Tagged::Unit, })\n    }\n}\n"
    );
}

#[test]
fn threads_generics_unchanged() {
    let decl = TypeDecl {
        name: "Holder".to_string(),
        generics: "<'a, T: TryClone, const N: bool>".to_string(),
        type_args: "<'a, T, N>".to_string(),
        where_clause: "where T: Sized".to_string(),
        shape: Shape::Struct(FieldList::Named(vec!["x".to_string()])),
    };
    let code = impl_try_clone(&decl).unwrap();
    assert_eq!(
        code,
        "impl<'a, T: TryClone, const N: bool> ::fallacy_clone::TryClone for Holder<'a, T, N> \
         where T: Sized {\n    \
         fn try_clone(&self) -> ::core::result::Result<Self, ::fallacy_clone::AllocError> {\n        \
         Ok(Self { x: ::fallacy_clone::TryClone::try_clone(&self.x)?, })\n    }\n}\n"
    );
}

#[test]
fn renders_two_digit_field_indexes() {
    let decl = plain("Wide", Shape::Struct(FieldList::Unnamed(12)));
    let code = impl_try_clone(&decl).unwrap();
    assert!(code.contains("::fallacy_clone::TryClone::try_clone(&self.9)?, "));
    assert!(code.contains("::fallacy_clone::TryClone::try_clone(&self.10)?, "));
    assert!(code.contains("::fallacy_clone::TryClone::try_clone(&self.11)?, "));
    assert!(!code.contains("&self.12"));
}

#[test]
fn emitted_impls_parse_as_rust_impl_items() {
    let decls = vec![
        plain(
            "Named",
            Shape::Struct(FieldList::Named(vec!["a".to_string(), "b".to_string()])),
        ),
        plain("Pair", Shape::Struct(FieldList::Unnamed(11))),
        plain("Empty", Shape::Struct(FieldList::Unit)),
        plain(
            "Tagged",
            Shape::Enum(vec![
                Variant {
                    name: "Named".to_string(),
                    fields: FieldList::Named(vec!["a".to_string()]),
                },
                Variant {
                    name: "Unnamed".to_string(),
                    fields: FieldList::Unnamed(3),
                },
                Variant {
                    name: "Unit".to_string(),
                    fields: FieldList::Unit,
                },
            ]),
        ),
        TypeDecl {
            name: "Holder".to_string(),
            generics: "<'a, T: TryClone, const N: bool>".to_string(),
            type_args: "<'a, T, N>".to_string(),
            where_clause: "where T: Sized".to_string(),
            shape: Shape::Struct(FieldList::Named(vec!["x".to_string()])),
        },
    ];
    for decl in &decls {
        let code = impl_try_clone(decl).unwrap();
        let item: syn::ItemImpl = syn::parse_str(&code).unwrap();
        assert!(item.trait_.is_some(), "{code}");
    }
}

#[test]
fn rejects_raw_union_shapes() {
    let decl = plain("Overlap", Shape::Union);
    assert_eq!(impl_try_clone(&decl), Err(ShapeError::UnsupportedUnion));
}
