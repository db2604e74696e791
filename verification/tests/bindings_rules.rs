use dinput8_saga::bindings::{
    base_name_of_stub, build_header, data_stub_declaration, function_address,
    is_signature_excluded, is_symbol_excluded, jump_slot_name, parse_function_record,
    parse_symbol_record, prepare_header, stub_declaration, stub_function_address,
    stub_symbol_address, symbol_address, FunctionEntry, RecordError, SymbolEntry, SymbolRow,
};

fn row(fields: &[&str]) -> Vec<String> {
    fields.iter().map(|f| f.to_string()).collect()
}

fn function(name: &str, address: &str, signature: &str) -> FunctionEntry {
    FunctionEntry {
        name: name.to_string(),
        address: address.to_string(),
        signature: signature.to_string(),
    }
}

fn symbol(name: &str, address: &str, data_type: &str) -> SymbolEntry {
    SymbolEntry {
        name: name.to_string(),
        address: address.to_string(),
        data_type: data_type.to_string(),
    }
}

#[test]
fn function_record_is_read() {
    let e = parse_function_record(&row(&["DrawMenuEntryEx", "0050f740", "void DrawMenuEntryEx(MENU_s \\*menu)"]))
        .ok()
        .unwrap();
    assert_eq!(e.name, "DrawMenuEntryEx");
    assert_eq!(e.address, "0x0050f740");
    assert_eq!(e.signature, "void DrawMenuEntryEx(MENU_s *menu)");
}

#[test]
fn function_record_missing_columns() {
    assert_eq!(parse_function_record(&row(&[])).err(), Some(RecordError::NoFunctionName));
    assert_eq!(parse_function_record(&row(&["f"])).err(), Some(RecordError::NoFunctionAddress));
    assert_eq!(parse_function_record(&row(&["f", "1"])).err(), Some(RecordError::NoFunctionSignature));
    assert_eq!(RecordError::NoFunctionName.message(), "No function name");
    assert_eq!(RecordError::NoFunctionAddress.message(), "No function address");
    assert_eq!(RecordError::NoFunctionSignature.message(), "No function signature");
}

#[test]
fn symbol_record_is_read() {
    match parse_symbol_record(&row(&["BGLOAD", "00802f3c", "Data Label", "int"])) {
        Ok(SymbolRow::Data(e)) => {
            assert_eq!(e.name, "BGLOAD");
            assert_eq!(e.address, "0x00802f3c");
            assert_eq!(e.data_type, "int");
        }
        _ => panic!("expected a data label"),
    }
    assert!(matches!(
        parse_symbol_record(&row(&["Start", "00400000", "Function"])),
        Ok(SymbolRow::Other)
    ));
}

#[test]
fn symbol_record_missing_columns() {
    assert_eq!(parse_symbol_record(&row(&[])).err(), Some(RecordError::NoSymbolName));
    assert_eq!(parse_symbol_record(&row(&["a"])).err(), Some(RecordError::NoSymbolAddress));
    assert_eq!(parse_symbol_record(&row(&["a", "1"])).err(), Some(RecordError::NoSymbolType));
    assert_eq!(
        parse_symbol_record(&row(&["a", "1", "Data Label"])).err(),
        Some(RecordError::NoSymbolDataType)
    );
    assert_eq!(RecordError::NoSymbolName.message(), "No symbol name");
    assert_eq!(RecordError::NoSymbolAddress.message(), "No symbol address");
    assert_eq!(RecordError::NoSymbolType.message(), "No symbol type");
    assert_eq!(RecordError::NoSymbolDataType.message(), "No symbol data type");
}

#[test]
fn header_is_prepared() {
    let h = prepare_header("typedef unsigned char    bool;\nfloat10 x;\n");
    assert_eq!(h, "typedef unsigned long pointer32;\n#include <stdbool.h>\n x;\n");
}

#[test]
fn signatures_are_filtered() {
    assert!(!is_signature_excluded("void __cdecl LoadPerm(void)"));
    for bad in [
        "void `vftable'(void)",
        "int __thiscall f(void *this)",
        "void ~A(void)",
        "float10 f(void)",
        "void A::f(void)",
        "void f(int a[4])",
        "void f@4(void)",
        "int _PtFuncCompare(void)",
        "int write_multi_char(void)",
        "int getDataIndirectType(void)",
        "void Tokens(void)",
        "void operator_new(void)",
        "void x_func(void)",
        "void thunk_f(void)",
        "void _EXCEPTION_DISPOSITION(void)",
    ] {
        assert!(is_signature_excluded(bad), "{bad}");
    }
}

#[test]
fn symbols_are_filtered() {
    assert!(!is_symbol_excluded("BGLOAD", "int"));
    assert!(is_symbol_excluded("p", "pointer"));
    assert!(is_symbol_excluded("a", "int[4]"));
    assert!(is_symbol_excluded("i", "IconResource"));
    assert!(is_symbol_excluded("s", "TerminatedCString"));
    assert!(is_symbol_excluded("??_7A", "int"));
}

#[test]
fn declarations_are_written() {
    assert_eq!(
        stub_declaration("DrawMenuEntryEx", "void DrawMenuEntryEx(MENU_s *menu)"),
        "void STUB_DrawMenuEntryEx(MENU_s *menu);\n"
    );
    assert_eq!(data_stub_declaration("BGLOAD", "int"), "int STUB_BGLOAD;\n");
    assert_eq!(jump_slot_name("LoadPerm"), "SYM_LoadPerm");
}

#[test]
fn header_is_built_in_table_order() {
    let functions = vec![
        function("LoadPerm", "0x004ca5b0", "void LoadPerm(void)"),
        function("Skipped", "0x1", "void __thiscall Skipped(void *this)"),
        function("Draw", "0x2", "void Draw(int x)"),
    ];
    let symbols = vec![symbol("BGLOAD", "0x3", "int"), symbol("Icon", "0x4", "IconResource")];
    let h = build_header("H\n", &functions, &symbols);
    assert_eq!(
        h,
        "typedef unsigned long pointer32;\nH\nvoid STUB_LoadPerm(void);\nvoid STUB_Draw(int x);\nint STUB_BGLOAD;\n"
    );
}

#[test]
fn lookups_take_the_last_row() {
    let functions = vec![
        function("A", "0x1", "void A(void)"),
        function("B", "0x2", "void B(void)"),
        function("A", "0x3", "void A(void)"),
    ];
    assert_eq!(function_address(&functions, "A"), Some("0x3".to_string()));
    assert_eq!(function_address(&functions, "B"), Some("0x2".to_string()));
    assert_eq!(function_address(&functions, "C"), None);
    assert_eq!(stub_function_address(&functions, "STUB_B"), Some("0x2".to_string()));
    assert_eq!(stub_function_address(&functions, "STUB_C"), None);

    let symbols = vec![symbol("X", "0x10", "int"), symbol("X", "0x20", "int")];
    assert_eq!(symbol_address(&symbols, "X"), Some("0x20".to_string()));
    assert_eq!(stub_symbol_address(&symbols, "STUB_X"), Some("0x20".to_string()));
    assert_eq!(stub_symbol_address(&symbols, "STUB_Y"), None);
}

#[test]
fn stub_names_lead_back() {
    assert_eq!(base_name_of_stub("STUB_LoadPerm"), "LoadPerm");
    assert_eq!(base_name_of_stub("STUB_A_STUB_B"), "A_B");
}
