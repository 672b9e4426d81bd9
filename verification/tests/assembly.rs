use builder::classify::SlotKind;
use builder::plan::{BuilderPlan, PlannedField};
use builder::runtime::{BuildError, Builder, FieldValue, Instance};
use builder::schema::{
    AttrMeta, Attribute, DataShape, FieldDecl, GenericArg, PathArgs, RawToken, TokenKind,
    TypeDescriptor, TypeExpr, TypeShape,
};

fn s(text: &str) -> String {
    text.to_string()
}

fn required(position: usize, name: &str) -> PlannedField {
    PlannedField {
        position,
        name: s(name),
        declared_type: s("String"),
        slot: SlotKind::Required(s("String")),
    }
}

fn optional(position: usize, name: &str) -> PlannedField {
    PlannedField {
        position,
        name: s(name),
        declared_type: s("Option<String>"),
        slot: SlotKind::Optional(s("String")),
    }
}

fn repeated(position: usize, name: &str, accessor: &str) -> PlannedField {
    PlannedField {
        position,
        name: s(name),
        declared_type: s("Vec<String>"),
        slot: SlotKind::Repeated(s("String"), s(accessor)),
    }
}

fn plan(fields: Vec<PlannedField>) -> BuilderPlan {
    BuilderPlan { target_name: s("Command"), builder_name: s("CommandBuilder"), fields }
}

fn command() -> BuilderPlan {
    plan(vec![
        required(0, "executable"),
        repeated(1, "args", "arg"),
        optional(2, "env"),
        optional(3, "dir"),
    ])
}

fn missing(name: &str) -> BuildError {
    BuildError::MissingRequiredField(s(name))
}

#[test]
fn command_is_assembled_from_chained_calls() {
    let plan = command();
    let mut b = Builder::new(&plan);
    b.call("executable", s("ls")).call("arg", s("-l")).call("arg", s("-a"));
    assert_eq!(
        b.build(),
        Ok(Instance {
            values: vec![
                FieldValue::Single(s("ls")),
                FieldValue::Repeated(vec![s("-l"), s("-a")]),
                FieldValue::Optional(None),
                FieldValue::Optional(None),
            ],
        })
    );
}

#[test]
fn command_without_executable_fails() {
    let plan = command();
    let mut b = Builder::new(&plan);
    b.call("arg", s("-l")).call("arg", s("-a"));
    let result = b.build();
    assert_eq!(result, Err(missing("executable")));
    assert_eq!(result.unwrap_err().message(), "executable is missing");
}

#[test]
fn an_optional_field_is_unset_or_holds_what_was_supplied() {
    let plan = command();
    let mut unset = Builder::new(&plan);
    unset.call("executable", s("ls"));
    assert_eq!(unset.build().unwrap().values[2], FieldValue::Optional(None));

    let mut set = Builder::new(&plan);
    set.call("executable", s("ls")).call("env", s("PATH=/bin"));
    let built = set.build().unwrap();
    assert_eq!(built.values[2], FieldValue::Optional(Some(s("PATH=/bin"))));
    assert_eq!(built.values[3], FieldValue::Optional(None));
}

#[test]
fn an_untouched_repeated_field_is_empty() {
    let plan = command();
    let mut b = Builder::new(&plan);
    b.call("executable", s("ls"));
    assert_eq!(b.build().unwrap().values[1], FieldValue::Repeated(vec![]));

    let only = plan_of_one_repeated();
    let mut alone: Builder<String> = Builder::new(&only);
    assert_eq!(alone.build(), Ok(Instance { values: vec![FieldValue::Repeated(vec![])] }));
}

fn plan_of_one_repeated() -> BuilderPlan {
    plan(vec![repeated(0, "args", "arg")])
}

#[test]
fn the_first_missing_field_in_declaration_order_is_reported() {
    let plan = plan(vec![
        optional(0, "note"),
        required(1, "first"),
        required(2, "second"),
        required(3, "third"),
    ]);
    let mut none_set: Builder<String> = Builder::new(&plan);
    assert_eq!(none_set.build(), Err(missing("first")));

    let mut last_set = Builder::new(&plan);
    last_set.call("third", s("c"));
    assert_eq!(last_set.build(), Err(missing("first")));

    let mut first_set = Builder::new(&plan);
    first_set.call("third", s("c")).call("first", s("a"));
    assert_eq!(first_set.build(), Err(missing("second")));

    let mut all_set = Builder::new(&plan);
    all_set.call("third", s("c")).call("first", s("a")).call("second", s("b"));
    assert_eq!(
        all_set.build(),
        Ok(Instance {
            values: vec![
                FieldValue::Optional(None),
                FieldValue::Single(s("a")),
                FieldValue::Single(s("b")),
                FieldValue::Single(s("c")),
            ],
        })
    );
}

#[test]
fn setting_every_field_once_gives_the_values_back() {
    let plan = command();
    let mut b = Builder::new(&plan);
    b.call("dir", s("/tmp")).call("arg", s("-l")).call("env", s("A=1")).call("executable", s("ls"));
    assert_eq!(
        b.build(),
        Ok(Instance {
            values: vec![
                FieldValue::Single(s("ls")),
                FieldValue::Repeated(vec![s("-l")]),
                FieldValue::Optional(Some(s("A=1"))),
                FieldValue::Optional(Some(s("/tmp"))),
            ],
        })
    );
}

#[test]
fn items_keep_the_order_of_the_calls() {
    let plan = plan_of_one_repeated();
    let mut b = Builder::new(&plan);
    b.call("arg", s("a")).call("arg", s("b")).call("arg", s("c"));
    assert_eq!(
        b.build().unwrap().values[0],
        FieldValue::Repeated(vec![s("a"), s("b"), s("c")])
    );

    let mut again = Builder::new(&plan);
    again.call("arg", s("b")).call("arg", s("a")).call("arg", s("b")).call("arg", s("b"));
    assert_eq!(
        again.build().unwrap().values[0],
        FieldValue::Repeated(vec![s("b"), s("a"), s("b"), s("b")])
    );
}

#[test]
fn a_later_call_replaces_the_value_of_a_single_field() {
    let plan = command();
    let mut b = Builder::new(&plan);
    b.call("executable", s("ls")).call("executable", s("cat")).call("env", s("A")).call("env", s("B"));
    let built = b.build().unwrap();
    assert_eq!(built.values[0], FieldValue::Single(s("cat")));
    assert_eq!(built.values[2], FieldValue::Optional(Some(s("B"))));
}

#[test]
fn a_repeated_field_is_reached_by_its_accessor_and_not_by_its_name() {
    let plan = command();
    let b: Builder<String> = Builder::new(&plan);
    assert_eq!(b.find_accessor("executable"), Some(0));
    assert_eq!(b.find_accessor("arg"), Some(1));
    assert_eq!(b.find_accessor("args"), None);
    assert_eq!(b.find_accessor("env"), Some(2));
    assert_eq!(b.find_accessor("dir"), Some(3));
    assert_eq!(b.find_accessor(""), None);
}

#[test]
fn a_name_that_is_no_accessor_changes_nothing() {
    let plan = command();
    let mut b = Builder::new(&plan);
    b.call("executable", s("ls")).call("args", s("-l")).call("nothing", s("x"));
    assert_eq!(
        b.build(),
        Ok(Instance {
            values: vec![
                FieldValue::Single(s("ls")),
                FieldValue::Repeated(vec![]),
                FieldValue::Optional(None),
                FieldValue::Optional(None),
            ],
        })
    );
}

#[test]
fn of_two_accessors_with_one_name_the_first_is_reached() {
    let plan = plan(vec![repeated(0, "args", "env"), optional(1, "env")]);
    let mut b = Builder::new(&plan);
    assert_eq!(b.find_accessor("env"), Some(0));
    b.call("env", s("x"));
    assert_eq!(
        b.build(),
        Ok(Instance {
            values: vec![FieldValue::Repeated(vec![s("x")]), FieldValue::Optional(None)],
        })
    );
}

#[test]
fn assembly_takes_what_is_stored() {
    let plan = command();
    let mut b = Builder::new(&plan);
    b.call("executable", s("ls")).call("arg", s("-l")).call("env", s("A"));
    assert!(b.build().is_ok());
    // Nothing is stored any more: the required field is missing now.
    assert_eq!(b.build(), Err(missing("executable")));
    // The collection is gone too, so the accessor of the repeated field has
    // nothing to add to, and the field assembles as empty.
    b.call("arg", s("-a")).call("executable", s("cat"));
    assert_eq!(
        b.build(),
        Ok(Instance {
            values: vec![
                FieldValue::Single(s("cat")),
                FieldValue::Repeated(vec![]),
                FieldValue::Optional(None),
                FieldValue::Optional(None),
            ],
        })
    );
}

#[test]
fn a_failed_assembly_takes_the_fields_before_the_missing_one() {
    let plan = plan(vec![
        required(0, "first"),
        repeated(1, "items", "item"),
        required(2, "second"),
        optional(3, "note"),
    ]);
    let mut b = Builder::new(&plan);
    b.call("first", s("a")).call("item", s("i")).call("note", s("n"));
    assert_eq!(b.build(), Err(missing("second")));
    // `first` and `items` were taken before the failure; `note` was not
    // reached and is still stored.
    b.call("second", s("b"));
    assert_eq!(b.build(), Err(missing("first")));
    b.call("first", s("a2"));
    assert_eq!(
        b.build(),
        Ok(Instance {
            values: vec![
                FieldValue::Single(s("a2")),
                FieldValue::Repeated(vec![]),
                FieldValue::Single(s("b")),
                FieldValue::Optional(Some(s("n"))),
            ],
        })
    );
}

#[test]
fn an_empty_plan_assembles_an_empty_instance() {
    let plan = plan(vec![]);
    let mut b: Builder<u8> = Builder::new(&plan);
    b.call("anything", 1);
    assert_eq!(b.build(), Ok(Instance { values: vec![] }));
}

#[test]
fn the_error_message_names_the_field() {
    assert_eq!(missing("executable").message(), "executable is missing");
    assert_eq!(missing("").message(), " is missing");
}

#[test]
fn a_derived_plan_runs() {
    let string = TypeExpr {
        text: s("String"),
        shape: TypeShape::Path { head: s("String"), args: PathArgs::Bare },
    };
    let list = TypeExpr {
        text: s("Vec<String>"),
        shape: TypeShape::Path {
            head: s("Vec"),
            args: PathArgs::AngleBracketed(vec![GenericArg::Type(s("String"))]),
        },
    };
    let each = Attribute {
        name: s("builder"),
        meta: AttrMeta::List(vec![
            RawToken { kind: TokenKind::Ident, text: s("each"), string_value: None },
            RawToken { kind: TokenKind::Punct, text: s("="), string_value: None },
            RawToken {
                kind: TokenKind::Literal,
                text: s("\"arg\""),
                string_value: Some(s("arg")),
            },
        ]),
    };
    let input = TypeDescriptor {
        name: s("Command"),
        data: DataShape::NamedStruct(vec![
            FieldDecl { name: s("executable"), ty: string, attrs: vec![] },
            FieldDecl { name: s("args"), ty: list, attrs: vec![each] },
        ]),
    };
    let plan = builder::derive(&input).plan.unwrap();
    let mut b = Builder::new(&plan);
    b.call("executable", s("ls")).call("arg", s("-l"));
    assert_eq!(
        b.build(),
        Ok(Instance {
            values: vec![FieldValue::Single(s("ls")), FieldValue::Repeated(vec![s("-l")])],
        })
    );
}
