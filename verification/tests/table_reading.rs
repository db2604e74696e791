use dinput8_saga::bindings::RecordError;
use dinput8_saga::tables::{
    function_table_from_rows, read_function_table, read_symbol_table, symbol_table_from_rows,
    TableError,
};

fn rows(table: &[&[&str]]) -> Vec<Vec<String>> {
    table.iter().map(|r| r.iter().map(|f| f.to_string()).collect()).collect()
}

#[test]
fn function_table_is_read_in_order() {
    let text = b"Name,Location,Signature\nLoadPerm,004ca5b0,void LoadPerm(void)\nDraw,0050f740,\"void Draw(MENU_s \\\\*m)\"\n";
    let fs = read_function_table(text).ok().unwrap();
    assert_eq!(fs.len(), 2);
    assert_eq!(fs[0].name, "LoadPerm");
    assert_eq!(fs[0].address, "0x004ca5b0");
    assert_eq!(fs[0].signature, "void LoadPerm(void)");
    assert_eq!(fs[1].name, "Draw");
    assert_eq!(fs[1].address, "0x0050f740");
    assert_eq!(fs[1].signature, "void Draw(MENU_s *m)");
}

#[test]
fn function_table_errors() {
    // A table whose header has one column: its rows lack the address.
    assert_eq!(
        read_function_table(b"Name\nLoadPerm\n").err(),
        Some(TableError::Row(RecordError::NoFunctionAddress))
    );
    // A row of another length than the header cannot be read.
    assert_eq!(
        read_function_table(b"a,b,c\nf,1,void f(void)\ng,2\n").err(),
        Some(TableError::Unreadable)
    );
    // A row that lacks a column comes before a later unreadable row.
    assert_eq!(
        read_function_table(b"a,b\nf,1\ng\n").err(),
        Some(TableError::Row(RecordError::NoFunctionSignature))
    );
    assert_eq!(TableError::Unreadable.message(), "Failed to read record");
    assert_eq!(TableError::Row(RecordError::NoSymbolType).message(), "No symbol type");
}

#[test]
fn symbol_table_keeps_data_labels() {
    let text = b"Name,Location,Type,Data Type\nBGLOAD,00802f3c,Data Label,int\nStart,00400000,Function,\nMenuA,00900000,Data Label,float\n";
    let ss = read_symbol_table(text).ok().unwrap();
    assert_eq!(ss.len(), 2);
    assert_eq!(ss[0].name, "BGLOAD");
    assert_eq!(ss[0].address, "0x00802f3c");
    assert_eq!(ss[0].data_type, "int");
    assert_eq!(ss[1].name, "MenuA");
    assert_eq!(ss[1].data_type, "float");
    assert_eq!(
        read_symbol_table(b"a,b,c\nX,1,Data Label\n").err(),
        Some(TableError::Row(RecordError::NoSymbolDataType))
    );
    assert!(read_symbol_table(b"a,b,c\nX,1,Function\n").ok().unwrap().is_empty());
}

#[test]
fn rows_are_read_until_the_first_bad_one() {
    let fs = function_table_from_rows(&rows(&[&["f", "1", "void f(void)"], &["g", "2", "int g(int)"]]))
        .ok()
        .unwrap();
    assert_eq!(fs.len(), 2);
    assert_eq!(fs[1].signature, "int g(int)");
    assert_eq!(
        function_table_from_rows(&rows(&[&["f", "1", "void f(void)"], &["g"], &[]])).err(),
        Some(RecordError::NoFunctionAddress)
    );
    assert_eq!(
        symbol_table_from_rows(&rows(&[&["a", "1", "Other"], &["b"], &["c", "3", "Data Label"]])).err(),
        Some(RecordError::NoSymbolAddress)
    );
    let ss = symbol_table_from_rows(&rows(&[&["a", "1", "Other"], &["c", "3", "Data Label", "int"]]))
        .ok()
        .unwrap();
    assert_eq!(ss.len(), 1);
    assert_eq!(ss[0].address, "0x3");
}
