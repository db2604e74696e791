//! The rules that turn the game's function and symbol tables into C
//! declarations for the binding generator, and that map each generated stub
//! back to the address it stands for.

use vstd::prelude::*;
use crate::text::{
    chars_of, contains_pattern, replace_all, text_contains, text_replace,
};

verus! {

/// A row of the function table: the function's name, its address written
/// as a hexadecimal literal, and its C signature.
pub struct FunctionEntry {
    pub name: String,
    pub address: String,
    pub signature: String,
}

/// A data label of the symbol table: the symbol's name, its address written
/// as a hexadecimal literal, and its C data type.
pub struct SymbolEntry {
    pub name: String,
    pub address: String,
    pub data_type: String,
}

/// What a row of the symbol table yields.
pub enum SymbolRow {
    /// A data label, to be declared.
    Data(SymbolEntry),
    /// A row of another kind, which is passed over.
    Other,
}

/// A row of a table that lacks a column.
#[derive(PartialEq, Eq, Structural, Clone, Copy, Debug)]
pub enum RecordError {
    NoFunctionName,
    NoFunctionAddress,
    NoFunctionSignature,
    NoSymbolName,
    NoSymbolAddress,
    NoSymbolType,
    NoSymbolDataType,
}

impl RecordError {
    /// The text that reports the missing column.
    pub fn message(&self) -> (m: &'static str)
        ensures
            m@ == self.spec_message(),
    {
        match self {
            RecordError::NoFunctionName => "No function name",
            RecordError::NoFunctionAddress => "No function address",
            RecordError::NoFunctionSignature => "No function signature",
            RecordError::NoSymbolName => "No symbol name",
            RecordError::NoSymbolAddress => "No symbol address",
            RecordError::NoSymbolType => "No symbol type",
            RecordError::NoSymbolDataType => "No symbol data type",
        }
    }

    pub open spec fn spec_message(&self) -> Seq<char> {
        match self {
            RecordError::NoFunctionName => "No function name"@,
            RecordError::NoFunctionAddress => "No function address"@,
            RecordError::NoFunctionSignature => "No function signature"@,
            RecordError::NoSymbolName => "No symbol name"@,
            RecordError::NoSymbolAddress => "No symbol address"@,
            RecordError::NoSymbolType => "No symbol type"@,
            RecordError::NoSymbolDataType => "No symbol data type"@,
        }
    }
}

/// The hexadecimal literal for an address column.
pub open spec fn address_literal(column: Seq<char>) -> Seq<char> {
    "0x"@ + column
}

/// A signature with every backslash (an escape of the table) removed.
pub open spec fn clean_signature(column: Seq<char>) -> Seq<char> {
    replace_all(column, "\\"@, ""@)
}

/// The kind of symbol-table row that declares data.
pub open spec fn is_data_label(kind: Seq<char>) -> bool {
    kind == "Data Label"@
}

fn address_text(column: &String) -> (r: String)
    ensures
        r@ == address_literal(column@),
{
    let mut r = "0x".to_owned();
    r.append(column.as_str());
    r
}

/// Reads a row of the function table.
pub fn parse_function_record(fields: &Vec<String>) -> (r: Result<FunctionEntry, RecordError>)
    ensures
        fields@.len() < 1 ==> r == Err::<FunctionEntry, RecordError>(RecordError::NoFunctionName),
        fields@.len() == 1 ==> r == Err::<FunctionEntry, RecordError>(RecordError::NoFunctionAddress),
        fields@.len() == 2 ==> r == Err::<FunctionEntry, RecordError>(RecordError::NoFunctionSignature),
        fields@.len() >= 3 ==> (r matches Ok(e) && e.name@ == fields@[0]@
            && e.address@ == address_literal(fields@[1]@)
            && e.signature@ == clean_signature(fields@[2]@)),
        fields@.len() >= 3 ==> (r matches Ok(e) && e.signature@ == fields@[2]@.filter(
            |c: char| c != '\\',
        )),
{
    if fields.len() < 1 {
        return Err(RecordError::NoFunctionName);
    }
    if fields.len() < 2 {
        return Err(RecordError::NoFunctionAddress);
    }
    if fields.len() < 3 {
        return Err(RecordError::NoFunctionSignature);
    }
    let name = fields[0].clone();
    let address = address_text(&fields[1]);
    let signature = text_replace(fields[2].as_str(), "\\", "");
    proof {
        lemma_clean_signature_filters(fields@[2]@);
    }
    Ok(FunctionEntry { name, address, signature })
}

/// Reads a row of the symbol table; only data labels are kept, and their
/// data type is read only for them.
pub fn parse_symbol_record(fields: &Vec<String>) -> (r: Result<SymbolRow, RecordError>)
    ensures
        fields@.len() < 1 ==> r == Err::<SymbolRow, RecordError>(RecordError::NoSymbolName),
        fields@.len() == 1 ==> r == Err::<SymbolRow, RecordError>(RecordError::NoSymbolAddress),
        fields@.len() == 2 ==> r == Err::<SymbolRow, RecordError>(RecordError::NoSymbolType),
        fields@.len() >= 3 && !is_data_label(fields@[2]@) ==> r matches Ok(SymbolRow::Other),
        fields@.len() >= 3 && fields@[2]@ != "Data Label"@ ==> r matches Ok(SymbolRow::Other),
        fields@.len() >= 4 && fields@[2]@ == "Data Label"@ ==> r matches Ok(SymbolRow::Data(_)),
        fields@.len() == 3 && is_data_label(fields@[2]@)
            ==> r == Err::<SymbolRow, RecordError>(RecordError::NoSymbolDataType),
        fields@.len() >= 4 && is_data_label(fields@[2]@) ==> (r matches Ok(SymbolRow::Data(e))
            && e.name@ == fields@[0]@ && e.address@ == address_literal(fields@[1]@)
            && e.data_type@ == fields@[3]@),
{
    if fields.len() < 1 {
        return Err(RecordError::NoSymbolName);
    }
    if fields.len() < 2 {
        return Err(RecordError::NoSymbolAddress);
    }
    if fields.len() < 3 {
        return Err(RecordError::NoSymbolType);
    }
    let data_label = "Data Label".to_owned();
    if !(fields[2] == data_label) {
        return Ok(SymbolRow::Other);
    }
    if fields.len() < 4 {
        return Err(RecordError::NoSymbolDataType);
    }
    let name = fields[0].clone();
    let address = address_text(&fields[1]);
    let data_type = fields[3].clone();
    Ok(SymbolRow::Data(SymbolEntry { name, address, data_type }))
}

/// The line that opens the generated header.
pub open spec fn pointer32_typedef() -> Seq<char> {
    "typedef unsigned long pointer32;\n"@
}

/// The game's header as the binding generator reads it: `float10` removed,
/// the game's `bool` typedef replaced by the standard header, and the
/// `pointer32` typedef put in front.
pub open spec fn prepared_header(header: Seq<char>) -> Seq<char> {
    pointer32_typedef() + replace_all(
        replace_all(header, "float10"@, ""@),
        "typedef unsigned char    bool;"@,
        "#include <stdbool.h>"@,
    )
}

/// Signatures the binding generator cannot read; their functions get no
/// declaration.
pub open spec fn signature_excluded(sig: Seq<char>) -> bool {
    ||| contains_pattern(sig, "`"@)
    ||| contains_pattern(sig, "'"@)
    ||| contains_pattern(sig, "this"@)
    ||| contains_pattern(sig, "~"@)
    ||| contains_pattern(sig, "thunk"@)
    ||| contains_pattern(sig, "float10"@)
    ||| contains_pattern(sig, "_func"@)
    ||| contains_pattern(sig, ":"@)
    ||| contains_pattern(sig, "operator"@)
    ||| contains_pattern(sig, "["@)
    ||| contains_pattern(sig, "]"@)
    ||| contains_pattern(sig, "@"@)
    ||| contains_pattern(sig, "_PtFuncCompare"@)
    ||| contains_pattern(sig, "_EXCEPTION_DISPOSITION"@)
    ||| contains_pattern(sig, "Tokens"@)
    ||| contains_pattern(sig, "getDataIndirectType"@)
    ||| contains_pattern(sig, "write_char"@)
    ||| contains_pattern(sig, "write_multi_char"@)
}

/// The prefix that marks a declared stub.
pub open spec fn stub_prefix() -> Seq<char> {
    "STUB_"@
}

/// The declaration of a function: its signature with the function's name
/// replaced by the stub's name, closed by a semicolon and a newline.
pub open spec fn function_declaration(name: Seq<char>, sig: Seq<char>) -> Seq<char> {
    replace_all(sig, name, stub_prefix() + name) + ";\n"@
}

/// Data types and names the binding generator cannot read; their symbols
/// get no declaration.
pub open spec fn symbol_excluded(name: Seq<char>, data_type: Seq<char>) -> bool {
    ||| contains_pattern(data_type, "pointer"@)
    ||| contains_pattern(data_type, "["@)
    ||| contains_pattern(data_type, "]"@)
    ||| contains_pattern(data_type, "IconResource"@)
    ||| contains_pattern(data_type, "TerminatedCString"@)
    ||| contains_pattern(name, "?"@)
}

/// The declaration of a data symbol: its type, then the stub's name.
pub open spec fn data_declaration(name: Seq<char>, data_type: Seq<char>) -> Seq<char> {
    data_type + " "@ + stub_prefix() + name + ";\n"@
}

/// The declarations of the function table, in table order.
pub open spec fn function_declarations(fs: Seq<FunctionEntry>) -> Seq<char>
    decreases fs.len(),
{
    if fs.len() == 0 {
        Seq::empty()
    } else {
        let f = fs.last();
        function_declarations(fs.drop_last()) + if signature_excluded(f.signature@) {
            Seq::empty()
        } else {
            function_declaration(f.name@, f.signature@)
        }
    }
}

/// The declarations of the data labels, in table order.
pub open spec fn data_declarations(ss: Seq<SymbolEntry>) -> Seq<char>
    decreases ss.len(),
{
    if ss.len() == 0 {
        Seq::empty()
    } else {
        let d = ss.last();
        data_declarations(ss.drop_last()) + if symbol_excluded(d.name@, d.data_type@) {
            Seq::empty()
        } else {
            data_declaration(d.name@, d.data_type@)
        }
    }
}

/// The whole header handed to the binding generator.
pub open spec fn generated_header(
    header: Seq<char>,
    fs: Seq<FunctionEntry>,
    ss: Seq<SymbolEntry>,
) -> Seq<char> {
    prepared_header(header) + function_declarations(fs) + data_declarations(ss)
}

/// Prepares the game's header for the binding generator.
pub fn prepare_header(header: &str) -> (r: String)
    ensures
        r@ == prepared_header(header@),
{
    let no_float10 = text_replace(header, "float10", "");
    let with_bool = text_replace(no_float10.as_str(), "typedef unsigned char    bool;", "#include <stdbool.h>");
    let mut r = "typedef unsigned long pointer32;\n".to_owned();
    r.append(with_bool.as_str());
    r
}

/// Whether a function with this signature is left out of the header.
pub fn is_signature_excluded(sig: &str) -> (r: bool)
    ensures
        r == signature_excluded(sig@),
{
    let s = chars_of(sig);
    crate::text::chars_contain(&s, &chars_of("`"))
        || crate::text::chars_contain(&s, &chars_of("'"))
        || crate::text::chars_contain(&s, &chars_of("this"))
        || crate::text::chars_contain(&s, &chars_of("~"))
        || crate::text::chars_contain(&s, &chars_of("thunk"))
        || crate::text::chars_contain(&s, &chars_of("float10"))
        || crate::text::chars_contain(&s, &chars_of("_func"))
        || crate::text::chars_contain(&s, &chars_of(":"))
        || crate::text::chars_contain(&s, &chars_of("operator"))
        || crate::text::chars_contain(&s, &chars_of("["))
        || crate::text::chars_contain(&s, &chars_of("]"))
        || crate::text::chars_contain(&s, &chars_of("@"))
        || crate::text::chars_contain(&s, &chars_of("_PtFuncCompare"))
        || crate::text::chars_contain(&s, &chars_of("_EXCEPTION_DISPOSITION"))
        || crate::text::chars_contain(&s, &chars_of("Tokens"))
        || crate::text::chars_contain(&s, &chars_of("getDataIndirectType"))
        || crate::text::chars_contain(&s, &chars_of("write_char"))
        || crate::text::chars_contain(&s, &chars_of("write_multi_char"))
}

/// Whether a data symbol with this name and type is left out of the header.
pub fn is_symbol_excluded(name: &str, data_type: &str) -> (r: bool)
    ensures
        r == symbol_excluded(name@, data_type@),
{
    let t = chars_of(data_type);
    crate::text::chars_contain(&t, &chars_of("pointer"))
        || crate::text::chars_contain(&t, &chars_of("["))
        || crate::text::chars_contain(&t, &chars_of("]"))
        || crate::text::chars_contain(&t, &chars_of("IconResource"))
        || crate::text::chars_contain(&t, &chars_of("TerminatedCString"))
        || text_contains(name, "?")
}

/// The declaration of a function's stub.
pub fn stub_declaration(name: &str, sig: &str) -> (r: String)
    ensures
        r@ == function_declaration(name@, sig@),
{
    let mut stub = "STUB_".to_owned();
    stub.append(name);
    let mut r = text_replace(sig, name, stub.as_str());
    r.append(";\n");
    r
}

/// The declaration of a data symbol's stub.
pub fn data_stub_declaration(name: &str, data_type: &str) -> (r: String)
    ensures
        r@ == data_declaration(name@, data_type@),
{
    let mut r = data_type.to_owned();
    r.append(" ");
    r.append("STUB_");
    r.append(name);
    r.append(";\n");
    r
}

/// Builds the header for the binding generator: the prepared game header,
/// then a declaration for each function and each data label that is not
/// left out, in table order.
pub fn build_header(
    header: &str,
    functions: &Vec<FunctionEntry>,
    symbols: &Vec<SymbolEntry>,
) -> (r: String)
    ensures
        r@ == generated_header(header@, functions@, symbols@),
{
    let mut out = prepare_header(header);
    let ghost base = out@;
    let mut i: usize = 0;
    assert(functions@.take(0) =~= Seq::<FunctionEntry>::empty());
    while i < functions.len()
        invariant
            i <= functions@.len(),
            out@ == base + function_declarations(functions@.take(i as int)),
        decreases functions@.len() - i,
    {
        let f = &functions[i];
        proof {
            assert(functions@.take(i + 1).drop_last() =~= functions@.take(i as int));
        }
        if !is_signature_excluded(f.signature.as_str()) {
            let d = stub_declaration(f.name.as_str(), f.signature.as_str());
            out.append(d.as_str());
        }
        i = i + 1;
        assert(out@ =~= base + function_declarations(functions@.take(i as int)));
    }
    assert(functions@.take(i as int) =~= functions@);
    let ghost middle = out@;
    let mut j: usize = 0;
    assert(symbols@.take(0) =~= Seq::<SymbolEntry>::empty());
    while j < symbols.len()
        invariant
            j <= symbols@.len(),
            out@ == middle + data_declarations(symbols@.take(j as int)),
        decreases symbols@.len() - j,
    {
        let d = &symbols[j];
        proof {
            assert(symbols@.take(j + 1).drop_last() =~= symbols@.take(j as int));
        }
        if !is_symbol_excluded(d.name.as_str(), d.data_type.as_str()) {
            let decl = data_stub_declaration(d.name.as_str(), d.data_type.as_str());
            out.append(decl.as_str());
        }
        j = j + 1;
        assert(out@ =~= middle + data_declarations(symbols@.take(j as int)));
    }
    assert(symbols@.take(j as int) =~= symbols@);
    out
}

/// The text of an optional string.
pub open spec fn text_of(o: Option<String>) -> Option<Seq<char>> {
    match o {
        Some(t) => Some(t@),
        None => None,
    }
}

/// The address the function table gives a name: that of the last row with
/// the name, as a table keyed by name keeps it.
pub open spec fn function_address_of(fs: Seq<FunctionEntry>, name: Seq<char>) -> Option<Seq<char>>
    decreases fs.len(),
{
    if fs.len() == 0 {
        None
    } else if fs.last().name@ == name {
        Some(fs.last().address@)
    } else {
        function_address_of(fs.drop_last(), name)
    }
}

/// The address the data labels give a name: that of the last data label with
/// the name.
pub open spec fn symbol_address_of(ss: Seq<SymbolEntry>, name: Seq<char>) -> Option<Seq<char>>
    decreases ss.len(),
{
    if ss.len() == 0 {
        None
    } else if ss.last().name@ == name {
        Some(ss.last().address@)
    } else {
        symbol_address_of(ss.drop_last(), name)
    }
}

/// The name a generated stub stands for: its name with every `STUB_`
/// removed.
pub open spec fn stub_base_name(stub: Seq<char>) -> Seq<char> {
    replace_all(stub, stub_prefix(), ""@)
}

/// The address of the named function.
pub fn function_address(functions: &Vec<FunctionEntry>, name: &str) -> (r: Option<String>)
    ensures
        text_of(r) == function_address_of(functions@, name@),
{
    let key = name.to_owned();
    let mut i: usize = functions.len();
    assert(functions@.take(i as int) =~= functions@);
    while i > 0
        invariant
            i <= functions@.len(),
            key@ == name@,
            function_address_of(functions@.take(i as int), name@) == function_address_of(
                functions@,
                name@,
            ),
        decreases i,
    {
        proof {
            assert(functions@.take(i as int).drop_last() =~= functions@.take(i - 1));
        }
        i = i - 1;
        if functions[i].name == key {
            return Some(functions[i].address.clone());
        }
    }
    None
}

/// The address of the named data label.
pub fn symbol_address(symbols: &Vec<SymbolEntry>, name: &str) -> (r: Option<String>)
    ensures
        text_of(r) == symbol_address_of(symbols@, name@),
{
    let key = name.to_owned();
    let mut i: usize = symbols.len();
    assert(symbols@.take(i as int) =~= symbols@);
    while i > 0
        invariant
            i <= symbols@.len(),
            key@ == name@,
            symbol_address_of(symbols@.take(i as int), name@) == symbol_address_of(
                symbols@,
                name@,
            ),
        decreases i,
    {
        proof {
            assert(symbols@.take(i as int).drop_last() =~= symbols@.take(i - 1));
        }
        i = i - 1;
        if symbols[i].name == key {
            return Some(symbols[i].address.clone());
        }
    }
    None
}

/// The name a generated stub stands for.
pub fn base_name_of_stub(stub: &str) -> (r: String)
    ensures
        r@ == stub_base_name(stub@),
{
    text_replace(stub, "STUB_", "")
}

/// The address that a generated function stub jumps to, if the function
/// table has one for the name the stub stands for.
pub fn stub_function_address(functions: &Vec<FunctionEntry>, stub: &str) -> (r: Option<String>)
    ensures
        text_of(r) == function_address_of(functions@, stub_base_name(stub@)),
{
    let base = base_name_of_stub(stub);
    function_address(functions, base.as_str())
}

/// The address that a generated data stub names, if the data labels have
/// one for the name the stub stands for.
pub fn stub_symbol_address(symbols: &Vec<SymbolEntry>, stub: &str) -> (r: Option<String>)
    ensures
        text_of(r) == symbol_address_of(symbols@, stub_base_name(stub@)),
{
    let base = base_name_of_stub(stub);
    symbol_address(symbols, base.as_str())
}

/// The name of the slot that holds the address a forwarding stub jumps
/// through.
pub fn jump_slot_name(name: &str) -> (r: String)
    ensures
        r@ == "SYM_"@ + name@,
{
    let mut r = "SYM_".to_owned();
    r.append(name);
    r
}

/// Text without an occurrence of a non-empty pattern is left as it is by
/// the replacement.
proof fn lemma_replace_absent(t: Seq<char>, pat: Seq<char>, rep: Seq<char>)
    requires
        pat.len() > 0,
        !contains_pattern(t, pat),
    ensures
        replace_all(t, pat, rep) == t,
    decreases t.len(),
{
    if t.len() >= pat.len() {
        if t.take(pat.len() as int) == pat {
            assert(t.subrange(0, pat.len() as int) =~= t.take(pat.len() as int));
            assert(crate::text::occurs_at(t, pat, 0));
        }
        let u = t.drop_first();
        assert forall|k: int| !crate::text::occurs_at(u, pat, k) by {
            if crate::text::occurs_at(u, pat, k) {
                assert(u.subrange(k, k + pat.len()) =~= t.subrange(k + 1, k + 1 + pat.len()));
                assert(crate::text::occurs_at(t, pat, k + 1));
            }
        }
        lemma_replace_absent(u, pat, rep);
        assert(seq![t[0]] + u =~= t);
    }
}

/// Law: a stub's name leads back to the name it was made from, for every
/// name that does not itself hold `STUB_`.
pub proof fn lemma_stub_name_round_trip(name: Seq<char>)
    requires
        !contains_pattern(name, stub_prefix()),
    ensures
        stub_base_name(stub_prefix() + name) == name,
{
    reveal_strlit("STUB_");
    reveal_strlit("");
    let s = stub_prefix() + name;
    assert(s.take(5) =~= stub_prefix());
    assert(s.skip(5) =~= name);
    lemma_replace_absent(name, stub_prefix(), ""@);
    assert(""@ + name =~= name);
}

/// Law: looking a name up after a row was added gives that row's address
/// for the row's name, and what the table gave before for any other name.
pub proof fn lemma_function_lookup_after_push(fs: Seq<FunctionEntry>, e: FunctionEntry, name: Seq<char>)
    ensures
        function_address_of(fs.push(e), e.name@) == Some(e.address@),
        name != e.name@ ==> function_address_of(fs.push(e), name) == function_address_of(fs, name),
{
    assert(fs.push(e).drop_last() =~= fs);
}

/// Law: the same for the data labels.
pub proof fn lemma_symbol_lookup_after_push(ss: Seq<SymbolEntry>, e: SymbolEntry, name: Seq<char>)
    ensures
        symbol_address_of(ss.push(e), e.name@) == Some(e.address@),
        name != e.name@ ==> symbol_address_of(ss.push(e), name) == symbol_address_of(ss, name),
{
    assert(ss.push(e).drop_last() =~= ss);
}

/// The address of the row at `i` is the one found for its name when no later
/// row has the same name.
proof fn lemma_function_lookup_finds(fs: Seq<FunctionEntry>, i: int)
    requires
        0 <= i < fs.len(),
        forall|j: int| i < j < fs.len() ==> fs[j].name@ != fs[i].name@,
    ensures
        function_address_of(fs, fs[i].name@) == Some(fs[i].address@),
    decreases fs.len(),
{
    if i < fs.len() - 1 {
        let d = fs.drop_last();
        assert(d[i] == fs[i]);
        lemma_function_lookup_finds(d, i);
    }
}

/// Law: the stub declared for a function resolves to that function's
/// address, for every row whose name holds no `STUB_` and that no later row
/// with the same name overrides.
pub proof fn lemma_function_stub_resolves(fs: Seq<FunctionEntry>, i: int)
    requires
        0 <= i < fs.len(),
        !contains_pattern(fs[i].name@, stub_prefix()),
        forall|j: int| i < j < fs.len() ==> fs[j].name@ != fs[i].name@,
    ensures
        function_address_of(fs, stub_base_name(stub_prefix() + fs[i].name@)) == Some(fs[i].address@),
{
    lemma_stub_name_round_trip(fs[i].name@);
    lemma_function_lookup_finds(fs, i);
}

/// The address of the data label at `i` is the one found for its name when
/// no later data label has the same name.
proof fn lemma_symbol_lookup_finds(ss: Seq<SymbolEntry>, i: int)
    requires
        0 <= i < ss.len(),
        forall|j: int| i < j < ss.len() ==> ss[j].name@ != ss[i].name@,
    ensures
        symbol_address_of(ss, ss[i].name@) == Some(ss[i].address@),
    decreases ss.len(),
{
    if i < ss.len() - 1 {
        let d = ss.drop_last();
        assert(d[i] == ss[i]);
        lemma_symbol_lookup_finds(d, i);
    }
}

/// Law: the stub declared for a data label resolves to that label's
/// address, for every label whose name holds no `STUB_` and that no later
/// label with the same name overrides.
pub proof fn lemma_symbol_stub_resolves(ss: Seq<SymbolEntry>, i: int)
    requires
        0 <= i < ss.len(),
        !contains_pattern(ss[i].name@, stub_prefix()),
        forall|j: int| i < j < ss.len() ==> ss[j].name@ != ss[i].name@,
    ensures
        symbol_address_of(ss, stub_base_name(stub_prefix() + ss[i].name@)) == Some(ss[i].address@),
{
    lemma_stub_name_round_trip(ss[i].name@);
    lemma_symbol_lookup_finds(ss, i);
}

/// Removing backslashes leaves none.
proof fn lemma_no_backslash_left(s: Seq<char>)
    ensures
        forall|k: int| 0 <= k < clean_signature(s).len() ==> clean_signature(s)[k] != '\\',
    decreases s.len(),
{
    let bs = "\\"@;
    reveal_strlit("\\");
    reveal_strlit("");
    if s.len() >= 1 {
        if s.take(1) == bs {
            lemma_no_backslash_left(s.skip(1));
            assert(clean_signature(s) =~= ""@ + clean_signature(s.skip(1)));
        } else {
            assert(s[0] != '\\') by {
                if s[0] == '\\' {
                    assert(s.take(1) =~= bs);
                }
            }
            lemma_no_backslash_left(s.drop_first());
            assert(clean_signature(s) == seq![s[0]] + clean_signature(s.drop_first()));
        }
    }
}

/// Law: a signature read from the function table holds no backslash.
pub proof fn lemma_clean_signature_has_no_backslash(column: Seq<char>)
    ensures
        !clean_signature(column).contains('\\'),
{
    lemma_no_backslash_left(column);
}

/// Law: a signature read from the function table is its column with the
/// backslashes taken out, every other character kept in order.
pub proof fn lemma_clean_signature_filters(column: Seq<char>)
    ensures
        clean_signature(column) == column.filter(|c: char| c != '\\'),
    decreases column.len(),
{
    reveal_strlit("\\");
    reveal_strlit("");
    reveal(Seq::filter);
    let p = |c: char| c != '\\';
    let bs = "\\"@;
    if column.len() == 0 {
        assert(clean_signature(column) =~= column.filter(p));
    } else {
        let rest = column.drop_first();
        lemma_clean_signature_filters(rest);
        let head = seq![column[0]];
        assert(column =~= head + rest);
        Seq::filter_distributes_over_add(head, rest, p);
        assert(head.drop_last() =~= Seq::<char>::empty());
        assert(head.drop_last().filter(p) =~= Seq::<char>::empty());
        assert(head.last() == column[0]);
        if column[0] == '\\' {
            assert(column.take(1) =~= bs);
            assert(column.skip(1) =~= rest);
            assert(head.filter(p) =~= Seq::<char>::empty());
            assert(clean_signature(column) =~= ""@ + clean_signature(rest));
            assert(column.filter(p) =~= rest.filter(p));
        } else {
            assert(column.take(1) != bs) by {
                assert(column.take(1)[0] != bs[0]);
            }
            assert(head.filter(p) =~= head);
            assert(clean_signature(column) == seq![column[0]] + clean_signature(rest));
            assert(column.filter(p) =~= head + rest.filter(p));
        }
    }
}

/// Law: a symbol row counts as data exactly when its type column reads
/// `Data Label`, letter for letter.
pub proof fn lemma_data_label_is_exact(kind: Seq<char>)
    ensures
        is_data_label(kind) <==> kind == "Data Label"@,
{
}

/// Law: a function is left out of the header exactly when its signature
/// holds one of the listed patterns; any other signature, one with `float`
/// but no `float10` among them, gets its declaration.
pub proof fn lemma_signature_exclusion_list(sig: Seq<char>)
    ensures
        signature_excluded(sig) <==> (
            contains_pattern(sig, "`"@) || contains_pattern(sig, "'"@)
            || contains_pattern(sig, "this"@) || contains_pattern(sig, "~"@)
            || contains_pattern(sig, "thunk"@) || contains_pattern(sig, "float10"@)
            || contains_pattern(sig, "_func"@) || contains_pattern(sig, ":"@)
            || contains_pattern(sig, "operator"@) || contains_pattern(sig, "["@)
            || contains_pattern(sig, "]"@) || contains_pattern(sig, "@"@)
            || contains_pattern(sig, "_PtFuncCompare"@)
            || contains_pattern(sig, "_EXCEPTION_DISPOSITION"@)
            || contains_pattern(sig, "Tokens"@) || contains_pattern(sig, "getDataIndirectType"@)
            || contains_pattern(sig, "write_char"@) || contains_pattern(sig, "write_multi_char"@)
        ),
{
}

/// Law: a function whose signature holds none of the listed patterns is
/// declared in the header, in its place in table order: adding it to the
/// table adds its stub declaration at the end of the function declarations.
pub proof fn lemma_unlisted_signature_is_declared(fs: Seq<FunctionEntry>, f: FunctionEntry)
    requires
        !contains_pattern(f.signature@, "`"@), !contains_pattern(f.signature@, "'"@),
        !contains_pattern(f.signature@, "this"@), !contains_pattern(f.signature@, "~"@),
        !contains_pattern(f.signature@, "thunk"@), !contains_pattern(f.signature@, "float10"@),
        !contains_pattern(f.signature@, "_func"@), !contains_pattern(f.signature@, ":"@),
        !contains_pattern(f.signature@, "operator"@), !contains_pattern(f.signature@, "["@),
        !contains_pattern(f.signature@, "]"@), !contains_pattern(f.signature@, "@"@),
        !contains_pattern(f.signature@, "_PtFuncCompare"@),
        !contains_pattern(f.signature@, "_EXCEPTION_DISPOSITION"@),
        !contains_pattern(f.signature@, "Tokens"@),
        !contains_pattern(f.signature@, "getDataIndirectType"@),
        !contains_pattern(f.signature@, "write_char"@),
        !contains_pattern(f.signature@, "write_multi_char"@),
    ensures
        function_declarations(fs.push(f)) == function_declarations(fs) + replace_all(
            f.signature@,
            f.name@,
            "STUB_"@ + f.name@,
        ) + ";\n"@,
{
    assert(fs.push(f).drop_last() =~= fs);
    lemma_signature_exclusion_list(f.signature@);
}

} // verus!
