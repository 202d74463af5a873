use decan::error::SymbolError;
use decan::raw::{ExportTable, Library, RawSymbol};
use decan::symbol::{describe_type, load_from, resolve_address, resolve_symbol, Symbol, SymbolType};

#[test]
fn shapes_describe_themselves() {
    assert_eq!(describe_type(&SymbolType::Pointer), "pointer");
    assert_eq!(describe_type(&SymbolType::NonNullPointer), "non-null pointer");
    assert_eq!(
        describe_type(&SymbolType::Function { arity: 4 }),
        "function pointer"
    );
    assert_eq!(
        describe_type(&SymbolType::OptionalFunction { arity: 4 }),
        "optional function pointer"
    );
}

#[test]
fn non_null_counterpart_of_each_shape() {
    assert_eq!(SymbolType::Pointer.non_null(), SymbolType::NonNullPointer);
    assert_eq!(
        SymbolType::NonNullPointer.non_null(),
        SymbolType::NonNullPointer
    );
    assert_eq!(
        SymbolType::Function { arity: 2 }.non_null(),
        SymbolType::Function { arity: 2 }
    );
    assert_eq!(
        SymbolType::OptionalFunction { arity: 2 }.non_null(),
        SymbolType::Function { arity: 2 }
    );
}

#[test]
fn nullable_pointer_accepts_null() {
    let r = resolve_address(&SymbolType::Pointer, 0);
    assert_eq!(r, Ok(Symbol::Pointer { addr: 0 }));
}

#[test]
fn non_null_pointer_rejects_null() {
    let r = resolve_address(&SymbolType::NonNullPointer, 0);
    match r {
        Err(SymbolError::NullValue(desc)) => assert_eq!(desc, "non-null pointer"),
        other => panic!("expected a null-value error, got {:?}", other),
    }
}

#[test]
fn function_rejects_null() {
    let r = resolve_address(&SymbolType::Function { arity: 2 }, 0);
    match r {
        Err(SymbolError::NullValue(desc)) => assert_eq!(desc, "function pointer"),
        other => panic!("expected a null-value error, got {:?}", other),
    }
}

#[test]
fn optional_function_absent_on_null() {
    let r = resolve_address(&SymbolType::OptionalFunction { arity: 1 }, 0);
    assert_eq!(r, Ok(Symbol::OptionalFunction { arity: 1, addr: None }));
}

#[test]
fn non_null_addresses_resolve() {
    assert_eq!(
        resolve_address(&SymbolType::Pointer, 0x10),
        Ok(Symbol::Pointer { addr: 0x10 })
    );
    assert_eq!(
        resolve_address(&SymbolType::NonNullPointer, 0x11),
        Ok(Symbol::NonNullPointer { addr: 0x11 })
    );
    assert_eq!(
        resolve_address(&SymbolType::Function { arity: 0 }, 0x12),
        Ok(Symbol::Function { arity: 0, addr: 0x12 })
    );
    assert_eq!(
        resolve_address(&SymbolType::OptionalFunction { arity: 3 }, 0x13),
        Ok(Symbol::OptionalFunction {
            arity: 3,
            addr: Some(0x13)
        })
    );
}

#[test]
fn raw_failure_becomes_os_error() {
    let r = resolve_symbol(
        &SymbolType::Pointer,
        RawSymbol::Failure("boom".to_string()),
    );
    assert_eq!(r, Err(SymbolError::Os("boom".to_string())));
}

#[test]
fn missing_name_resolves_to_empty_os_error() {
    let lib = Library::new(1, ExportTable::new());
    let r = load_from(&lib, &"absent".to_string(), &SymbolType::Pointer);
    assert_eq!(r, Err(SymbolError::Os(String::new())));
}

#[test]
fn null_data_export_depends_on_target_type() {
    let mut exports = ExportTable::new();
    exports.define("blob".to_string(), RawSymbol::Address(0));
    let lib = Library::new(1, exports);

    let nullable = load_from(&lib, &"blob".to_string(), &SymbolType::Pointer);
    assert_eq!(nullable, Ok(Symbol::Pointer { addr: 0 }));

    let strict = load_from(&lib, &"blob".to_string(), &SymbolType::NonNullPointer);
    match strict {
        Err(SymbolError::NullValue(desc)) => assert_eq!(desc, "non-null pointer"),
        other => panic!("expected a null-value error, got {:?}", other),
    }
}

#[test]
fn table_lookup_finds_latest_definition() {
    let mut exports = ExportTable::new();
    exports.define("a".to_string(), RawSymbol::Address(1));
    exports.define("a".to_string(), RawSymbol::Address(2));
    assert_eq!(
        exports.lookup(&"a".to_string()),
        Some(&RawSymbol::Address(2))
    );
}

#[test]
fn table_lookup_missing_is_none() {
    let exports = ExportTable::new();
    assert_eq!(exports.lookup(&"a".to_string()), None);
}

#[test]
fn get_symbol_keeps_failure_text() {
    let mut exports = ExportTable::new();
    exports.define(
        "broken".to_string(),
        RawSymbol::Failure("undefined symbol: broken".to_string()),
    );
    let lib = Library::new(1, exports);
    assert_eq!(
        lib.get_symbol(&"broken".to_string()),
        RawSymbol::Failure("undefined symbol: broken".to_string())
    );
    assert_eq!(
        lib.get_symbol(&"other".to_string()),
        RawSymbol::Failure(String::new())
    );
}
