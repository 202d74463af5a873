use decan::error::SymbolError;
use decan::group::{export_names, load_group, GroupMember, GroupShape, MemberKind, MemberValue};
use decan::raw::{ExportTable, Library, RawSymbol};
use decan::symbol::{Symbol, SymbolType};

fn symbol_member(name: &str, ty: SymbolType) -> GroupMember {
    GroupMember {
        name: name.to_string(),
        kind: MemberKind::Symbol {
            export_name: None,
            ty,
        },
    }
}

fn testlib_shape() -> GroupShape {
    GroupShape {
        members: vec![
            symbol_member("print_message", SymbolType::Function { arity: 0 }),
            symbol_member("square_int", SymbolType::OptionalFunction { arity: 1 }),
        ],
    }
}

fn testlib_exports() -> ExportTable {
    let mut exports = ExportTable::new();
    exports.define("print_message".to_string(), RawSymbol::Address(0x1000));
    exports.define("square_int".to_string(), RawSymbol::Address(0x2000));
    exports
}

#[test]
fn group_loads_all_members() {
    let lib = Library::new(1, testlib_exports());
    let group = load_group(&lib, &testlib_shape()).expect("group should load");
    assert_eq!(group.len(), 2);
    assert_eq!(group.members[0].name, "print_message");
    assert_eq!(
        group.members[0].value,
        MemberValue::Symbol(Symbol::Function {
            arity: 0,
            addr: 0x1000
        })
    );
    assert_eq!(group.members[1].name, "square_int");
    assert_eq!(
        group.members[1].value,
        MemberValue::Symbol(Symbol::OptionalFunction {
            arity: 1,
            addr: Some(0x2000)
        })
    );
    assert_eq!(
        group.get(&"print_message".to_string()),
        Some(&MemberValue::Symbol(Symbol::Function {
            arity: 0,
            addr: 0x1000
        }))
    );
    assert_eq!(group.get(&"absent".to_string()), None);
}

#[test]
fn first_missing_member_is_named() {
    let shape = GroupShape {
        members: vec![
            symbol_member("A", SymbolType::Pointer),
            symbol_member("B", SymbolType::Pointer),
            symbol_member("C", SymbolType::Pointer),
        ],
    };
    let mut exports = ExportTable::new();
    exports.define("A".to_string(), RawSymbol::Address(0x1));
    exports.define("C".to_string(), RawSymbol::Address(0x3));
    let lib = Library::new(1, exports);

    let err = load_group(&lib, &shape).expect_err("B is missing");
    assert_eq!(err.name(), "B");
    assert!(matches!(err.inner(), SymbolError::Os(_)));
}

#[test]
fn later_failures_do_not_mask_the_first() {
    let shape = GroupShape {
        members: vec![
            symbol_member("A", SymbolType::Pointer),
            symbol_member("B", SymbolType::Pointer),
            symbol_member("C", SymbolType::Pointer),
        ],
    };
    let mut exports = ExportTable::new();
    exports.define("A".to_string(), RawSymbol::Address(0x1));
    exports.define(
        "B".to_string(),
        RawSymbol::Failure("undefined symbol: B".to_string()),
    );
    let lib = Library::new(1, exports);

    let err = load_group(&lib, &shape).expect_err("B and C are missing");
    assert_eq!(err.name(), "B");
    assert_eq!(
        err.inner(),
        &SymbolError::Os("undefined symbol: B".to_string())
    );
}

#[test]
fn null_function_member_is_named_with_type() {
    let shape = GroupShape {
        members: vec![symbol_member("entry", SymbolType::Function { arity: 0 })],
    };
    let mut exports = ExportTable::new();
    exports.define("entry".to_string(), RawSymbol::Address(0));
    let lib = Library::new(1, exports);

    let err = load_group(&lib, &shape).expect_err("null function export");
    assert_eq!(err.name(), "entry");
    assert_eq!(
        err.inner(),
        &SymbolError::NullValue("function pointer".to_string())
    );
}

fn shape_with_optional_extra() -> GroupShape {
    GroupShape {
        members: vec![
            symbol_member("base", SymbolType::Pointer),
            GroupMember {
                name: "extra".to_string(),
                kind: MemberKind::Subgroup {
                    shape: GroupShape {
                        members: vec![symbol_member("needed", SymbolType::NonNullPointer)],
                    },
                    optional: true,
                },
            },
        ],
    }
}

#[test]
fn optional_subgroup_absent_on_failure() {
    let mut exports = ExportTable::new();
    exports.define("base".to_string(), RawSymbol::Address(0x1));
    let lib = Library::new(1, exports);

    let group = load_group(&lib, &shape_with_optional_extra()).expect("outer load succeeds");
    assert_eq!(group.members[1].name, "extra");
    assert_eq!(group.members[1].value, MemberValue::OptionalGroup(None));
}

#[test]
fn optional_subgroup_present_when_inner_loads() {
    let mut exports = ExportTable::new();
    exports.define("base".to_string(), RawSymbol::Address(0x1));
    exports.define("needed".to_string(), RawSymbol::Address(0x2));
    let lib = Library::new(1, exports);

    let group = load_group(&lib, &shape_with_optional_extra()).expect("outer load succeeds");
    match &group.members[1].value {
        MemberValue::OptionalGroup(Some(inner)) => {
            assert_eq!(inner.members.len(), 1);
            assert_eq!(
                inner.members[0].value,
                MemberValue::Symbol(Symbol::NonNullPointer { addr: 0x2 })
            );
        }
        other => panic!("expected a present optional group, got {:?}", other),
    }
}

#[test]
fn required_subgroup_propagates_inner_name() {
    let shape = GroupShape {
        members: vec![GroupMember {
            name: "core".to_string(),
            kind: MemberKind::Subgroup {
                shape: GroupShape {
                    members: vec![symbol_member("inner_sym", SymbolType::Pointer)],
                },
                optional: false,
            },
        }],
    };
    let lib = Library::new(1, ExportTable::new());

    let err = load_group(&lib, &shape).expect_err("inner symbol missing");
    assert_eq!(err.name(), "inner_sym");
}

#[test]
fn export_name_override_is_used() {
    let shape = GroupShape {
        members: vec![GroupMember {
            name: "function".to_string(),
            kind: MemberKind::Symbol {
                export_name: Some("special_function".to_string()),
                ty: SymbolType::Function { arity: 1 },
            },
        }],
    };
    let mut exports = ExportTable::new();
    exports.define("special_function".to_string(), RawSymbol::Address(0x40));
    let lib = Library::new(1, exports);

    let group = load_group(&lib, &shape).expect("override resolves");
    assert_eq!(group.members[0].name, "function");
    assert_eq!(
        group.members[0].value,
        MemberValue::Symbol(Symbol::Function {
            arity: 1,
            addr: 0x40
        })
    );
}

#[test]
fn loading_twice_yields_equal_groups() {
    let first = Library::new(1, testlib_exports());
    let second = Library::new(2, testlib_exports());
    let shape = testlib_shape();

    let once = load_group(&first, &shape).expect("first load");
    let again = load_group(&second, &shape).expect("second load");
    assert_eq!(once, again);
}

#[test]
fn resolving_twice_is_idempotent() {
    let lib = Library::new(1, testlib_exports());
    assert_eq!(
        lib.get_symbol(&"print_message".to_string()),
        lib.get_symbol(&"print_message".to_string())
    );
}

#[test]
fn deeply_nested_groups_load() {
    let shape = GroupShape {
        members: vec![
            symbol_member("top", SymbolType::Pointer),
            GroupMember {
                name: "mid".to_string(),
                kind: MemberKind::Subgroup {
                    shape: GroupShape {
                        members: vec![GroupMember {
                            name: "deep".to_string(),
                            kind: MemberKind::Subgroup {
                                shape: GroupShape {
                                    members: vec![symbol_member("leaf", SymbolType::Pointer)],
                                },
                                optional: true,
                            },
                        }],
                    },
                    optional: false,
                },
            },
        ],
    };
    let mut exports = ExportTable::new();
    exports.define("top".to_string(), RawSymbol::Address(0x1));
    exports.define("leaf".to_string(), RawSymbol::Address(0x2));
    let lib = Library::new(1, exports);

    let group = load_group(&lib, &shape).expect("nested load succeeds");
    match &group.members[1].value {
        MemberValue::Group(mid) => match &mid.members[0].value {
            MemberValue::OptionalGroup(Some(deep)) => {
                assert_eq!(
                    deep.members[0].value,
                    MemberValue::Symbol(Symbol::Pointer { addr: 0x2 })
                );
            }
            other => panic!("expected a present optional group, got {:?}", other),
        },
        other => panic!("expected a required nested group, got {:?}", other),
    }
}

#[test]
fn export_names_in_declaration_order() {
    let shape = GroupShape {
        members: vec![
            GroupMember {
                name: "function".to_string(),
                kind: MemberKind::Symbol {
                    export_name: Some("special_function".to_string()),
                    ty: SymbolType::Function { arity: 1 },
                },
            },
            GroupMember {
                name: "extra".to_string(),
                kind: MemberKind::Subgroup {
                    shape: GroupShape {
                        members: vec![symbol_member("needed", SymbolType::Pointer)],
                    },
                    optional: true,
                },
            },
            symbol_member("last", SymbolType::Pointer),
        ],
    };
    let names = export_names(&shape);
    assert_eq!(
        names,
        vec![
            "special_function".to_string(),
            "needed".to_string(),
            "last".to_string()
        ]
    );
}
