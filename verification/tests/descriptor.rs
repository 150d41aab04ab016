use builder::descriptor::{
    describe, extract, extract_all, get_inner_ty, get_optional, qualifies_option, resolve,
    resolve_all,
    Classification, Extracted, FieldDescriptor,
};
use builder::error::ExpandError;
use builder::input::{
    Attribute, Field, GenericArgument, Lit, Meta, NestedMeta, PathArguments, Type, TypePath,
};
use builder::metadata::MetadataError;

fn st(s: &str) -> String {
    s.to_string()
}

fn generic(text: &str, ident: &str, args: Vec<GenericArgument>) -> Type {
    Type {
        text: st(text),
        path: Some(TypePath { qualifier: vec![], ident: st(ident), arguments: PathArguments::AngleBracketed(args) }),
    }
}

fn plain(ident: &str) -> Type {
    Type { text: st(ident), path: Some(TypePath { qualifier: vec![], ident: st(ident), arguments: PathArguments::Bare }) }
}

fn option_of(inner: &str) -> Type {
    generic(&format!("Option < {} >", inner), "Option", vec![GenericArgument::Type(st(inner))])
}

fn vec_of(inner: &str) -> Type {
    generic(&format!("Vec < {} >", inner), "Vec", vec![GenericArgument::Type(st(inner))])
}

fn each_attr(name: &str) -> Attribute {
    Attribute {
        tag: st("builder"),
        meta: Meta::List(vec![NestedMeta::NameValue { key: st("each"), value: Lit::Str(st(name)) }]),
    }
}

fn field(name: &str, ty: Type, attrs: Vec<Attribute>) -> Field {
    Field { ident: st(name), ty, attrs }
}

fn descriptor(name: &str, ty: &str, c: Classification, accessor: &str) -> FieldDescriptor {
    FieldDescriptor {
        name: st(name),
        declared_type: st(ty),
        classification: c,
        accessor_name: st(accessor),
    }
}

fn qualified(qualifier: &[&str], ident: &str, inner: &str) -> Type {
    Type {
        text: format!("{} :: {} < {} >", qualifier.join(" :: "), ident, inner),
        path: Some(TypePath {
            qualifier: qualifier.iter().map(|q| st(q)).collect(),
            ident: st(ident),
            arguments: PathArguments::AngleBracketed(vec![GenericArgument::Type(st(inner))]),
        }),
    }
}

#[test]
fn option_is_recognised_however_its_path_is_written() {
    assert!(get_optional(&option_of("String")));
    assert!(get_optional(&plain("Option")));
    assert!(get_optional(&qualified(&["std", "option"], "Option", "String")));
    assert!(get_optional(&qualified(&["core", "option"], "Option", "String")));
}

#[test]
fn other_types_are_not_the_optional_wrapper() {
    assert!(!get_optional(&plain("String")));
    assert!(!get_optional(&vec_of("String")));
    assert!(!get_optional(&Type { text: st("& str"), path: None }));
    assert!(!get_optional(&plain("option")));
    assert!(!get_optional(&qualified(&["std", "option"], "Some", "String")));
    // An `Option` of another module is some other type.
    assert!(!get_optional(&qualified(&["my"], "Option", "String")));
    assert!(!get_optional(&qualified(&["std"], "Option", "String")));
    assert!(!get_optional(&qualified(&["option"], "Option", "String")));
    assert!(!get_optional(&qualified(&["alloc", "option"], "Option", "String")));
    assert!(!get_optional(&qualified(&["std", "Option"], "Option", "String")));
    assert!(!get_optional(&qualified(&["a", "std", "option"], "Option", "String")));
}

#[test]
fn qualifier_of_the_optional_wrapper() {
    let q = |names: &[&str]| names.iter().map(|n| st(n)).collect::<Vec<String>>();
    assert!(qualifies_option(&q(&[])));
    assert!(qualifies_option(&q(&["std", "option"])));
    assert!(qualifies_option(&q(&["core", "option"])));
    assert!(!qualifies_option(&q(&["std"])));
    assert!(!qualifies_option(&q(&["option", "std"])));
    assert!(!qualifies_option(&q(&["std", "option", "x"])));
}

#[test]
fn inner_type_is_the_single_type_argument() {
    assert_eq!(get_inner_ty(&option_of("String")), Some(st("String")));
    assert_eq!(get_inner_ty(&qualified(&["std", "vec"], "Vec", "String")), Some(st("String")));
    assert_eq!(get_inner_ty(&qualified(&["std", "option"], "Option", "u8")), Some(st("u8")));
    assert_eq!(get_inner_ty(&vec_of("Vec < u8 >")), Some(st("Vec < u8 >")));
}

#[test]
fn inner_type_is_missing_without_a_single_type_argument() {
    assert_eq!(get_inner_ty(&plain("String")), None);
    assert_eq!(get_inner_ty(&Type { text: st("(u8 , u8)"), path: None }), None);
    assert_eq!(get_inner_ty(&generic("Vec < >", "Vec", vec![])), None);
    assert_eq!(
        get_inner_ty(&generic(
            "HashMap < K , V >",
            "HashMap",
            vec![GenericArgument::Type(st("K")), GenericArgument::Type(st("V"))]
        )),
        None
    );
    assert_eq!(get_inner_ty(&generic("Foo < 'a >", "Foo", vec![GenericArgument::Other])), None);
    assert_eq!(
        get_inner_ty(&Type {
            text: st("Fn (u8) -> u8"),
            path: Some(TypePath { qualifier: vec![], ident: st("Fn"), arguments: PathArguments::Parenthesized }),
        }),
        None
    );
}

#[test]
fn extract_reads_name_type_and_metadata() {
    let f = field("args", vec_of("String"), vec![each_attr("arg")]);
    assert_eq!(
        extract(&f),
        Ok(Extracted {
            name: st("args"),
            declared_type: st("Vec < String >"),
            optional: false,
            element_type: Some(st("String")),
            custom_name: Some(st("arg")),
        })
    );
    let g = field("current_dir", option_of("String"), vec![]);
    assert_eq!(
        extract(&g),
        Ok(Extracted {
            name: st("current_dir"),
            declared_type: st("Option < String >"),
            optional: true,
            element_type: Some(st("String")),
            custom_name: None,
        })
    );
}

#[test]
fn extract_names_the_field_with_rejected_metadata() {
    let f = field(
        "args",
        vec_of("String"),
        vec![Attribute { tag: st("builder"), meta: Meta::Path }],
    );
    assert_eq!(
        extract(&f),
        Err(ExpandError::InvalidMetadata { field: st("args"), reason: MetadataError::NotAList })
    );
}

#[test]
fn resolve_required() {
    let e = Extracted {
        name: st("executable"),
        declared_type: st("String"),
        optional: false,
        element_type: None,
        custom_name: None,
    };
    assert_eq!(
        resolve(&e),
        Ok(descriptor("executable", "String", Classification::Required, "executable"))
    );
}

#[test]
fn resolve_optional() {
    let e = Extracted {
        name: st("dir"),
        declared_type: st("Option < String >"),
        optional: true,
        element_type: Some(st("String")),
        custom_name: None,
    };
    assert_eq!(
        resolve(&e),
        Ok(descriptor("dir", "Option < String >", Classification::Optional(st("String")), "dir"))
    );
}

#[test]
fn resolve_repeatable_takes_the_each_name() {
    let e = Extracted {
        name: st("args"),
        declared_type: st("Vec < String >"),
        optional: false,
        element_type: Some(st("String")),
        custom_name: Some(st("arg")),
    };
    let d = resolve(&e).unwrap();
    assert_eq!(
        d,
        descriptor("args", "Vec < String >", Classification::Repeatable(st("String")), "arg")
    );
    assert!(d.has_custom_accessor_name());
}

#[test]
fn resolve_repeatable_with_its_own_name() {
    let e = Extracted {
        name: st("env"),
        declared_type: st("Vec < String >"),
        optional: false,
        element_type: Some(st("String")),
        custom_name: Some(st("env")),
    };
    let d = resolve(&e).unwrap();
    assert_eq!(d.classification, Classification::Repeatable(st("String")));
    assert_eq!(d.accessor_name, "env");
    assert!(!d.has_custom_accessor_name());
}

#[test]
fn resolve_optional_wins_over_each() {
    let e = Extracted {
        name: st("dir"),
        declared_type: st("Option < String >"),
        optional: true,
        element_type: Some(st("String")),
        custom_name: Some(st("d")),
    };
    assert_eq!(
        resolve(&e),
        Ok(descriptor("dir", "Option < String >", Classification::Optional(st("String")), "dir"))
    );
}

#[test]
fn resolve_repeatable_without_element_type_breaks_the_invariant() {
    let e = Extracted {
        name: st("args"),
        declared_type: st("Args"),
        optional: false,
        element_type: None,
        custom_name: Some(st("arg")),
    };
    assert_eq!(resolve(&e), Err(ExpandError::InternalInvariantViolation { field: st("args") }));
}

#[test]
fn resolve_optional_without_inner_type_breaks_the_invariant() {
    let e = Extracted {
        name: st("dir"),
        declared_type: st("Option"),
        optional: true,
        element_type: None,
        custom_name: None,
    };
    assert_eq!(resolve(&e), Err(ExpandError::InternalInvariantViolation { field: st("dir") }));
}

#[test]
fn describe_keeps_declaration_order() {
    let fields = vec![
        field("executable", plain("String"), vec![]),
        field("args", vec_of("String"), vec![each_attr("arg")]),
        field("env", vec_of("String"), vec![each_attr("env")]),
        field("current_dir", option_of("String"), vec![]),
    ];
    assert_eq!(
        describe(&fields),
        Ok(vec![
            descriptor("executable", "String", Classification::Required, "executable"),
            descriptor("args", "Vec < String >", Classification::Repeatable(st("String")), "arg"),
            descriptor("env", "Vec < String >", Classification::Repeatable(st("String")), "env"),
            descriptor(
                "current_dir",
                "Option < String >",
                Classification::Optional(st("String")),
                "current_dir"
            ),
        ])
    );
}

#[test]
fn describe_classifies_qualified_types() {
    let fields = vec![
        field("dir", qualified(&["std", "option"], "Option", "String"), vec![]),
        field("items", qualified(&["std", "vec"], "Vec", "String"), vec![each_attr("item")]),
        field("other", qualified(&["my"], "Option", "String"), vec![]),
    ];
    let ds = describe(&fields).unwrap();
    assert_eq!(ds[0].classification, Classification::Optional(st("String")));
    assert_eq!(ds[0].accessor_name, "dir");
    assert_eq!(ds[1].classification, Classification::Repeatable(st("String")));
    assert_eq!(ds[1].accessor_name, "item");
    assert_eq!(ds[2].classification, Classification::Required);
}

#[test]
fn describe_of_no_fields_is_empty() {
    assert_eq!(describe(&vec![]), Ok(vec![]));
    assert_eq!(extract_all(&vec![]), Ok(vec![]));
    assert_eq!(resolve_all(&vec![]), Ok(vec![]));
}

#[test]
fn describe_uses_the_last_each_of_a_field() {
    let fields = vec![field("args", vec_of("String"), vec![each_attr("a"), each_attr("b")])];
    assert_eq!(describe(&fields).unwrap()[0].accessor_name, "b");
}

#[test]
fn describe_reports_the_first_field_with_rejected_metadata() {
    let bad = |tag_key: &str| Attribute {
        tag: st("builder"),
        meta: Meta::List(vec![NestedMeta::NameValue { key: st(tag_key), value: Lit::Str(st("x")) }]),
    };
    let fields = vec![
        field("a", plain("String"), vec![]),
        field("b", vec_of("String"), vec![bad("first")]),
        field("c", vec_of("String"), vec![bad("second")]),
    ];
    assert_eq!(
        describe(&fields),
        Err(ExpandError::InvalidMetadata {
            field: st("b"),
            reason: MetadataError::UnknownKey(st("first"))
        })
    );
}

#[test]
fn describe_reports_rejected_metadata_before_a_broken_invariant() {
    let fields = vec![
        field("a", plain("Args"), vec![each_attr("arg")]),
        field(
            "b",
            plain("String"),
            vec![Attribute { tag: st("builder"), meta: Meta::Malformed }],
        ),
    ];
    assert_eq!(
        describe(&fields),
        Err(ExpandError::InvalidMetadata { field: st("b"), reason: MetadataError::Malformed })
    );
}

#[test]
fn describe_reports_the_first_broken_invariant() {
    let fields = vec![
        field("a", plain("String"), vec![]),
        field("b", plain("Args"), vec![each_attr("arg")]),
        field("c", plain("Option"), vec![]),
    ];
    assert_eq!(describe(&fields), Err(ExpandError::InternalInvariantViolation { field: st("b") }));
}

#[test]
fn optional_field_with_rejected_metadata_still_fails() {
    let fields = vec![field(
        "dir",
        option_of("String"),
        vec![Attribute { tag: st("builder"), meta: Meta::List(vec![]) }],
    )];
    assert_eq!(
        describe(&fields),
        Err(ExpandError::InvalidMetadata { field: st("dir"), reason: MetadataError::Empty })
    );
}
