use builder::input::{
    Attribute, Data, DeriveInput, Field, GenericArgument, Lit, Meta, NestedMeta, PathArguments,
    Type, TypePath,
};
use builder::plan::{
    Accessor, Action, BuildStep, EmptyValue, Expansion, Extraction, SlotDecl, SlotInit, SlotType,
};
use builder::runtime::{find_method, BuildError, Builder, FieldValue, Record, RecordField, Slot};
use builder::semantics::CallError;

fn t(s: &str) -> String {
    s.to_string()
}

fn path_type(ident: &str, inner: Option<&str>) -> Type {
    match inner {
        Some(inner) => Type {
            text: format!("{} < {} >", ident, inner),
            path: Some(TypePath {
                qualifier: vec![],
                ident: t(ident),
                arguments: PathArguments::AngleBracketed(vec![GenericArgument::Type(t(inner))]),
            }),
        },
        None => Type {
            text: t(ident),
            path: Some(TypePath { qualifier: vec![], ident: t(ident), arguments: PathArguments::Bare }),
        },
    }
}

fn each_named(name: &str) -> Vec<Attribute> {
    vec![Attribute {
        tag: t("builder"),
        meta: Meta::List(vec![NestedMeta::NameValue { key: t("each"), value: Lit::Str(t(name)) }]),
    }]
}

fn record(name: &str, fields: Vec<Field>) -> Expansion {
    builder::derive(&DeriveInput { vis: t("pub"), ident: t(name), data: Data::Struct(fields) }).unwrap()
}

fn command_plan() -> Expansion {
    record(
        "Command",
        vec![
            Field { ident: t("executable"), ty: path_type("String", None), attrs: vec![] },
            Field { ident: t("args"), ty: path_type("Vec", Some("String")), attrs: each_named("arg") },
            Field { ident: t("env"), ty: path_type("Vec", Some("String")), attrs: each_named("env") },
            Field {
                ident: t("current_dir"),
                ty: path_type("Option", Some("String")),
                attrs: vec![],
            },
        ],
    )
}

fn required_plan(names: &[&str]) -> Expansion {
    record(
        "Point",
        names
            .iter()
            .map(|n| Field { ident: t(n), ty: path_type("u32", None), attrs: vec![] })
            .collect(),
    )
}

fn missing(record: &str, field: &str) -> BuildError {
    BuildError::Missing {
        field: t(field),
        message: format!("{} Value not set for field: {}", record, field),
    }
}

#[test]
fn command_scenario_builds() {
    let plan = command_plan();
    let mut b: Builder<String> = Builder::new(&plan);
    let command = b
        .set("executable", t("ls"))
        .unwrap()
        .set("arg", t("-l"))
        .unwrap()
        .set("arg", t("-a"))
        .unwrap()
        .build()
        .unwrap();
    assert_eq!(command.name, "Command");
    assert_eq!(command.get("executable"), Some(&FieldValue::Plain(t("ls"))));
    assert_eq!(command.get("args"), Some(&FieldValue::Many(vec![t("-l"), t("-a")])));
    assert_eq!(command.get("env"), Some(&FieldValue::Many(vec![])));
    assert_eq!(command.get("current_dir"), Some(&FieldValue::Maybe(None)));
    assert_eq!(command.get("arg"), None);
}

#[test]
fn command_scenario_without_executable_fails() {
    let plan = command_plan();
    let mut b: Builder<String> = Builder::new(&plan);
    let e = b.set("arg", t("-l")).unwrap().set("arg", t("-a")).unwrap().build().unwrap_err();
    assert_eq!(e, missing("Command", "executable"));
    match e {
        BuildError::Missing { field, message } => {
            assert_eq!(field, "executable");
            assert_eq!(message, "Command Value not set for field: executable");
        },
        other => panic!("unexpected failure {:?}", other),
    }
}

#[test]
fn new_builder_is_empty() {
    let plan = command_plan();
    let b: Builder<String> = Builder::new(&plan);
    assert_eq!(
        b.slots(),
        &vec![Slot::Single(None), Slot::Many(vec![]), Slot::Many(vec![]), Slot::Single(None)]
    );
    assert_eq!(b.plan(), &plan);
}

#[test]
fn required_record_builds_when_every_field_is_set() {
    let plan = required_plan(&["x", "y", "z"]);
    let mut b: Builder<u32> = Builder::new(&plan);
    b.set("z", 3).unwrap();
    b.set("x", 1).unwrap();
    b.set("y", 2).unwrap();
    assert_eq!(
        b.build(),
        Ok(Record {
            name: t("Point"),
            fields: vec![
                RecordField { name: t("x"), value: FieldValue::Plain(1) },
                RecordField { name: t("y"), value: FieldValue::Plain(2) },
                RecordField { name: t("z"), value: FieldValue::Plain(3) },
            ],
        })
    );
}

#[test]
fn required_record_fails_for_any_omitted_field() {
    let plan = required_plan(&["x", "y", "z"]);
    for omitted in ["x", "y", "z"] {
        let mut b: Builder<u32> = Builder::new(&plan);
        for name in ["x", "y", "z"] {
            if name != omitted {
                b.set(name, 7).unwrap();
            }
        }
        assert_eq!(b.build(), Err(missing("Point", omitted)));
    }
}

#[test]
fn failure_names_the_first_unset_field_in_declaration_order() {
    let plan = required_plan(&["x", "y", "z"]);
    let mut b: Builder<u32> = Builder::new(&plan);
    assert_eq!(b.build(), Err(missing("Point", "x")));
    b.set("x", 1).unwrap();
    assert_eq!(b.build(), Err(missing("Point", "y")));
    let mut c: Builder<u32> = Builder::new(&plan);
    c.set("y", 1).unwrap();
    assert_eq!(c.build(), Err(missing("Point", "x")));
    c.set("x", 1).unwrap();
    assert_eq!(c.build(), Err(missing("Point", "z")));
}

#[test]
fn failed_build_leaves_the_builder_and_can_be_retried() {
    let plan = command_plan();
    let mut b: Builder<String> = Builder::new(&plan);
    b.set("arg", t("-l")).unwrap();
    b.set("current_dir", t("/tmp")).unwrap();
    assert!(b.build().is_err());
    assert_eq!(
        b.slots(),
        &vec![
            Slot::Single(None),
            Slot::Many(vec![t("-l")]),
            Slot::Many(vec![]),
            Slot::Single(Some(t("/tmp"))),
        ]
    );
    b.set("executable", t("ls")).unwrap();
    let command = b.build().unwrap();
    assert_eq!(command.get("args"), Some(&FieldValue::Many(vec![t("-l")])));
    assert_eq!(command.get("current_dir"), Some(&FieldValue::Maybe(Some(t("/tmp")))));
}

#[test]
fn successful_build_empties_the_builder() {
    let plan = command_plan();
    let mut b: Builder<String> = Builder::new(&plan);
    b.set("executable", t("ls")).unwrap();
    b.set("env", t("A=1")).unwrap();
    b.set("current_dir", t("/")).unwrap();
    b.build().unwrap();
    assert_eq!(
        b.slots(),
        &vec![Slot::Single(None), Slot::Many(vec![]), Slot::Many(vec![]), Slot::Single(None)]
    );
    assert_eq!(b.build(), Err(missing("Command", "executable")));
}

#[test]
fn optional_field_is_absent_iff_never_set() {
    let plan = record(
        "Config",
        vec![
            Field { ident: t("name"), ty: path_type("Option", Some("String")), attrs: vec![] },
            Field { ident: t("size"), ty: path_type("Option", Some("String")), attrs: vec![] },
        ],
    );
    let mut b: Builder<String> = Builder::new(&plan);
    let empty = b.build().unwrap();
    assert_eq!(empty.get("name"), Some(&FieldValue::Maybe(None)));
    assert_eq!(empty.get("size"), Some(&FieldValue::Maybe(None)));
    b.set("size", t("80")).unwrap();
    let one = b.build().unwrap();
    assert_eq!(one.get("name"), Some(&FieldValue::Maybe(None)));
    assert_eq!(one.get("size"), Some(&FieldValue::Maybe(Some(t("80")))));
}

#[test]
fn singular_append_keeps_call_order() {
    let plan = command_plan();
    let mut b: Builder<String> = Builder::new(&plan);
    b.set("executable", t("x")).unwrap();
    let values: Vec<String> = (0..25).map(|i| format!("v{}", i)).collect();
    for v in &values {
        b.set("arg", v.clone()).unwrap();
    }
    let command = b.build().unwrap();
    assert_eq!(command.get("args"), Some(&FieldValue::Many(values)));
}

#[test]
fn bulk_append_interleaves_with_singular_append() {
    let plan = command_plan();
    let mut b: Builder<String> = Builder::new(&plan);
    b.set("executable", t("x")).unwrap();
    b.set("arg", t("a")).unwrap();
    let mut more = vec![t("b"), t("c")];
    b.extend("args", &mut more).unwrap();
    assert!(more.is_empty());
    b.set("arg", t("d")).unwrap();
    let mut none: Vec<String> = vec![];
    b.extend("args", &mut none).unwrap();
    let mut last = vec![t("e")];
    b.extend("args", &mut last).unwrap();
    b.set("env", t("K=V")).unwrap();
    let command = b.build().unwrap();
    assert_eq!(
        command.get("args"),
        Some(&FieldValue::Many(vec![t("a"), t("b"), t("c"), t("d"), t("e")]))
    );
    assert_eq!(command.get("env"), Some(&FieldValue::Many(vec![t("K=V")])));
}

#[test]
fn setting_twice_keeps_the_last_value() {
    let plan = command_plan();
    let mut b: Builder<String> = Builder::new(&plan);
    b.set("executable", t("first")).unwrap();
    b.set("executable", t("second")).unwrap();
    b.set("current_dir", t("/a")).unwrap();
    b.set("current_dir", t("/b")).unwrap();
    let command = b.build().unwrap();
    assert_eq!(command.get("executable"), Some(&FieldValue::Plain(t("second"))));
    assert_eq!(command.get("current_dir"), Some(&FieldValue::Maybe(Some(t("/b")))));
}

#[test]
fn round_trip_returns_exactly_what_was_set() {
    let plan = command_plan();
    let mut b: Builder<String> = Builder::new(&plan);
    b.set("current_dir", t("/srv")).unwrap();
    let mut args = vec![t("-l"), t("-a")];
    b.extend("args", &mut args).unwrap();
    b.set("env", t("HOME=/")).unwrap();
    b.set("executable", t("ls")).unwrap();
    assert_eq!(
        b.build(),
        Ok(Record {
            name: t("Command"),
            fields: vec![
                RecordField { name: t("executable"), value: FieldValue::Plain(t("ls")) },
                RecordField { name: t("args"), value: FieldValue::Many(vec![t("-l"), t("-a")]) },
                RecordField { name: t("env"), value: FieldValue::Many(vec![t("HOME=/")]) },
                RecordField { name: t("current_dir"), value: FieldValue::Maybe(Some(t("/srv"))) },
            ],
        })
    );
}

#[test]
fn unknown_method_changes_nothing() {
    let plan = command_plan();
    let mut b: Builder<String> = Builder::new(&plan);
    assert_eq!(b.set("argument", t("x")).err(), Some(CallError::UnknownMethod));
    let mut vs = vec![t("x")];
    assert_eq!(b.extend("argz", &mut vs).err(), Some(CallError::UnknownMethod));
    assert_eq!(vs, vec![t("x")]);
    assert_eq!(
        b.slots(),
        &vec![Slot::Single(None), Slot::Many(vec![]), Slot::Many(vec![]), Slot::Single(None)]
    );
}

#[test]
fn wrong_kind_of_argument_changes_nothing() {
    let plan = command_plan();
    let mut b: Builder<String> = Builder::new(&plan);
    // `args` is the bulk method, `arg` and `env` append one element.
    assert_eq!(b.set("args", t("x")).err(), Some(CallError::WrongArgument));
    let mut vs = vec![t("x"), t("y")];
    assert_eq!(b.extend("arg", &mut vs).err(), Some(CallError::WrongArgument));
    assert_eq!(b.extend("env", &mut vs).err(), Some(CallError::WrongArgument));
    assert_eq!(b.extend("executable", &mut vs).err(), Some(CallError::WrongArgument));
    assert_eq!(vs, vec![t("x"), t("y")]);
    assert_eq!(
        b.slots(),
        &vec![Slot::Single(None), Slot::Many(vec![]), Slot::Many(vec![]), Slot::Single(None)]
    );
}

fn hand_made(accessors: Vec<Accessor>, steps: Vec<BuildStep>) -> Expansion {
    Expansion {
        vis: t(""),
        record: t("R"),
        builder: t("RBuilder"),
        slots: vec![SlotDecl { name: t("a"), ty: SlotType::Wrapped(t("u8")) }],
        inits: vec![SlotInit { name: t("a"), value: EmptyValue::Absent }],
        accessors,
        steps,
    }
}

#[test]
fn expansion_with_a_method_for_a_missing_slot_is_reported() {
    let plan = hand_made(
        vec![Accessor {
            name: t("b"),
            slot: 1,
            field: t("b"),
            action: Action::Store,
            item_type: t("u8"),
        }],
        vec![],
    );
    let mut b: Builder<u8> = Builder::new(&plan);
    assert_eq!(b.set("b", 1).err(), Some(CallError::BrokenExpansion));
    assert_eq!(b.slots(), &vec![Slot::Single(None)]);
}

#[test]
fn expansion_with_a_method_of_the_wrong_kind_is_reported() {
    let plan = hand_made(
        vec![
            Accessor { name: t("push"), slot: 0, field: t("a"), action: Action::Push, item_type: t("u8") },
            Accessor {
                name: t("extend"),
                slot: 0,
                field: t("a"),
                action: Action::Extend,
                item_type: t("u8"),
            },
        ],
        vec![],
    );
    let mut b: Builder<u8> = Builder::new(&plan);
    assert_eq!(b.set("push", 1).err(), Some(CallError::BrokenExpansion));
    let mut vs = vec![1, 2];
    assert_eq!(b.extend("extend", &mut vs).err(), Some(CallError::BrokenExpansion));
    assert_eq!(vs, vec![1, 2]);
    assert_eq!(b.slots(), &vec![Slot::Single(None)]);
}

#[test]
fn expansion_with_steps_that_do_not_fit_is_reported() {
    let too_few = hand_made(vec![], vec![]);
    let mut b: Builder<u8> = Builder::new(&too_few);
    assert_eq!(b.build(), Err(BuildError::BrokenExpansion));
    let wrong_kind =
        hand_made(vec![], vec![BuildStep { field: t("a"), extraction: Extraction::Drain }]);
    let mut c: Builder<u8> = Builder::new(&wrong_kind);
    assert_eq!(c.build(), Err(BuildError::BrokenExpansion));
    assert_eq!(c.slots(), &vec![Slot::Single(None)]);
}

#[test]
fn call_by_name_reaches_the_first_method_of_that_name() {
    let plan = command_plan();
    assert_eq!(find_method(&plan.accessors, "executable"), Some(0));
    assert_eq!(find_method(&plan.accessors, "args"), Some(1));
    assert_eq!(find_method(&plan.accessors, "arg"), Some(2));
    assert_eq!(find_method(&plan.accessors, "env"), Some(3));
    assert_eq!(find_method(&plan.accessors, "current_dir"), Some(4));
    assert_eq!(find_method(&plan.accessors, "build"), None);
    assert_eq!(find_method(&vec![], "x"), None);
    let twice = vec![
        Accessor { name: t("x"), slot: 0, field: t("a"), action: Action::Store, item_type: t("u8") },
        Accessor { name: t("x"), slot: 1, field: t("b"), action: Action::Store, item_type: t("u8") },
    ];
    assert_eq!(find_method(&twice, "x"), Some(0));
}

#[test]
fn record_get_returns_the_first_field_of_a_name() {
    let r = Record {
        name: t("R"),
        fields: vec![
            RecordField { name: t("a"), value: FieldValue::Plain(1) },
            RecordField { name: t("b"), value: FieldValue::Maybe(None) },
            RecordField { name: t("a"), value: FieldValue::Plain(2) },
        ],
    };
    assert_eq!(r.get("a"), Some(&FieldValue::Plain(1)));
    assert_eq!(r.get("b"), Some(&FieldValue::Maybe(None)));
    assert_eq!(r.get("c"), None);
}
