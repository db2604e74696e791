use dinput8_saga::bindings::{FunctionEntry, SymbolEntry};
use dinput8_saga::wrappers::{
    plan_bindings, plan_wrappers, BindingItem, ForeignEntry, StubError, WrapperPlan,
};

fn function(name: &str, address: &str) -> FunctionEntry {
    FunctionEntry {
        name: name.to_string(),
        address: address.to_string(),
        signature: String::new(),
    }
}

fn symbol(name: &str, address: &str) -> SymbolEntry {
    SymbolEntry {
        name: name.to_string(),
        address: address.to_string(),
        data_type: "int".to_string(),
    }
}

fn no_spaces(s: &str) -> String {
    s.chars().filter(|c| !c.is_whitespace()).collect()
}

const BINDINGS: &str = r#"
pub struct MENU_s { pub entry_selected: ::std::os::raw::c_int }
unsafe extern "C" {
    pub fn STUB_LoadPerm();
    pub fn STUB_DrawMenuEntryEx(menu: *mut MENU_s, text: *mut ::std::os::raw::c_char) -> ::std::os::raw::c_int;
}
unsafe extern "C" {
    pub static mut STUB_BGLOAD: ::std::os::raw::c_int;
}
"#;

#[test]
fn bindings_are_planned_in_order() {
    let functions = vec![function("LoadPerm", "0x004ca5b0"), function("DrawMenuEntryEx", "0x0050f740")];
    let symbols = vec![symbol("BGLOAD", "0x00802f3c")];
    let plans = plan_bindings(BINDINGS, &functions, &symbols).ok().unwrap();
    assert_eq!(plans.len(), 3);
    match &plans[0] {
        WrapperPlan::JumpStub { name, slot, address, params, output } => {
            assert_eq!(name, "LoadPerm");
            assert_eq!(slot, "SYM_LoadPerm");
            assert_eq!(address, "0x004ca5b0");
            assert_eq!(params, "");
            assert_eq!(output, "");
        }
        _ => panic!("expected a jump stub"),
    }
    match &plans[1] {
        WrapperPlan::JumpStub { name, slot, address, params, output } => {
            assert_eq!(name, "DrawMenuEntryEx");
            assert_eq!(slot, "SYM_DrawMenuEntryEx");
            assert_eq!(address, "0x0050f740");
            assert_eq!(no_spaces(params), "menu:*mutMENU_s,text:*mut::std::os::raw::c_char");
            assert_eq!(no_spaces(output), "->::std::os::raw::c_int");
        }
        _ => panic!("expected a jump stub"),
    }
    match &plans[2] {
        WrapperPlan::AddressConstant { name, address, ty } => {
            assert_eq!(name, "BGLOAD");
            assert_eq!(address, "0x00802f3c");
            assert_eq!(no_spaces(ty), "::std::os::raw::c_int");
        }
        _ => panic!("expected an address constant"),
    }
}

#[test]
fn missing_addresses_and_bad_bindings_are_reported() {
    let symbols = vec![symbol("BGLOAD", "0x00802f3c")];
    assert!(matches!(
        plan_bindings(BINDINGS, &vec![function("LoadPerm", "0x1")], &symbols),
        Err(StubError::FunctionAddressNotFound)
    ));
    let functions = vec![function("LoadPerm", "0x1"), function("DrawMenuEntryEx", "0x2")];
    assert!(matches!(
        plan_bindings(BINDINGS, &functions, &vec![]),
        Err(StubError::SymbolAddressNotFound)
    ));
    assert!(matches!(
        plan_bindings("fn (", &functions, &symbols),
        Err(StubError::UnparsableBindings)
    ));
    assert_eq!(StubError::UnparsableBindings.message(), "Failed to parse bindings");
    assert_eq!(StubError::FunctionAddressNotFound.message(), "Function address not found");
    assert_eq!(StubError::SymbolAddressNotFound.message(), "Symbol address not found");
    assert_eq!(
        StubError::UnparsableFunctionAddress(String::new()).message(),
        "Failed to parse function address"
    );
    assert_eq!(
        StubError::UnparsableSymbolAddress(String::new()).message(),
        "Failed to parse symbol address"
    );
    assert_eq!(StubError::InvalidIdentifier(String::new()).message(), "is not a valid Ident");
}

fn function_item(stub: &str) -> ForeignEntry {
    ForeignEntry::Function { stub_name: stub.to_string(), params: String::new(), output: String::new() }
}

fn static_item(stub: &str) -> ForeignEntry {
    ForeignEntry::Static { stub_name: stub.to_string(), ty: "i32".to_string() }
}

#[test]
fn names_and_addresses_are_checked_in_the_generators_order() {
    // A function's name is checked before its address is looked up.
    let items = vec![BindingItem::ForeignBlock(vec![function_item("STUB_")])];
    assert!(matches!(
        plan_wrappers(&items, &vec![], &vec![]),
        Err(StubError::InvalidIdentifier(name)) if name.is_empty()
    ));
    // A static's address is looked up before its name is checked.
    let items = vec![BindingItem::ForeignBlock(vec![static_item("STUB_")])];
    assert!(matches!(
        plan_wrappers(&items, &vec![], &vec![]),
        Err(StubError::SymbolAddressNotFound)
    ));
    assert!(matches!(
        plan_wrappers(&items, &vec![], &vec![symbol("", "0x1")]),
        Err(StubError::InvalidIdentifier(name)) if name.is_empty()
    ));
    // Addresses must be expressions.
    let items = vec![BindingItem::ForeignBlock(vec![function_item("STUB_f")])];
    assert!(matches!(
        plan_wrappers(&items, &vec![function("f", "0x1 +")], &vec![]),
        Err(StubError::UnparsableFunctionAddress(a)) if a == "0x1 +"
    ));
    let items = vec![BindingItem::ForeignBlock(vec![static_item("STUB_x")])];
    assert!(matches!(
        plan_wrappers(&items, &vec![], &vec![symbol("x", "0x 2 3")]),
        Err(StubError::UnparsableSymbolAddress(a)) if a == "0x 2 3"
    ));
    // Keywords are names too, and errors come in item order.
    let items = vec![BindingItem::ForeignBlock(vec![
        function_item("STUB_type"),
        function_item("STUB_missing"),
        static_item("STUB_1x"),
    ])];
    assert!(matches!(
        plan_wrappers(&items, &vec![function("type", "0x5")], &vec![symbol("1x", "0x6")]),
        Err(StubError::FunctionAddressNotFound)
    ));
}

#[test]
fn parsed_items_are_planned_by_kind() {
    let items = vec![
        BindingItem::Other,
        BindingItem::ForeignBlock(vec![
            ForeignEntry::Other,
            ForeignEntry::Static { stub_name: "STUB_MenuA".to_string(), ty: "f32".to_string() },
        ]),
        BindingItem::ForeignBlock(vec![ForeignEntry::Function {
            stub_name: "STUB_LoadPerm".to_string(),
            params: String::new(),
            output: String::new(),
        }]),
    ];
    let plans = plan_wrappers(&items, &vec![function("LoadPerm", "0x9")], &vec![symbol("MenuA", "0x8")])
        .ok()
        .unwrap();
    assert_eq!(plans.len(), 2);
    assert!(matches!(&plans[0], WrapperPlan::AddressConstant { name, address, ty }
        if name == "MenuA" && address == "0x8" && ty == "f32"));
    assert!(matches!(&plans[1], WrapperPlan::JumpStub { name, slot, address, .. }
        if name == "LoadPerm" && slot == "SYM_LoadPerm" && address == "0x9"));
}
