//! From the generated bindings to the code written after them: each foreign
//! function becomes a stub that jumps through a slot holding the game
//! function's address, and each foreign static becomes a constant pointer to
//! the game's data.

use vstd::prelude::*;
use crate::bindings::{
    function_address_of, stub_base_name, stub_function_address, stub_symbol_address,
    symbol_address_of, base_name_of_stub, jump_slot_name, FunctionEntry, SymbolEntry,
};

verus! {

/// An item of a foreign block of the generated bindings.
pub enum ForeignEntry {
    /// A function: its name, and the text of its parameters and of its
    /// return type.
    Function { stub_name: String, params: String, output: String },
    /// A static: its name and the text of its type.
    Static { stub_name: String, ty: String },
    /// An item of another kind.
    Other,
}

/// A top-level item of the generated bindings.
pub enum BindingItem {
    /// A foreign block, with its items in order.
    ForeignBlock(Vec<ForeignEntry>),
    /// An item of another kind.
    Other,
}

/// What a foreign item holds.
pub enum ForeignEntryModel {
    Function { stub_name: Seq<char>, params: Seq<char>, output: Seq<char> },
    Static { stub_name: Seq<char>, ty: Seq<char> },
    Other,
}

/// What a top-level item holds.
pub enum BindingItemModel {
    ForeignBlock(Seq<ForeignEntryModel>),
    Other,
}

impl View for ForeignEntry {
    type V = ForeignEntryModel;

    open spec fn view(&self) -> ForeignEntryModel {
        match self {
            ForeignEntry::Function { stub_name, params, output } => ForeignEntryModel::Function {
                stub_name: stub_name@,
                params: params@,
                output: output@,
            },
            ForeignEntry::Static { stub_name, ty } => ForeignEntryModel::Static {
                stub_name: stub_name@,
                ty: ty@,
            },
            ForeignEntry::Other => ForeignEntryModel::Other,
        }
    }
}

pub open spec fn entries_model(es: Seq<ForeignEntry>) -> Seq<ForeignEntryModel> {
    es.map_values(|e: ForeignEntry| e@)
}

impl View for BindingItem {
    type V = BindingItemModel;

    open spec fn view(&self) -> BindingItemModel {
        match self {
            BindingItem::ForeignBlock(es) => BindingItemModel::ForeignBlock(entries_model(es@)),
            BindingItem::Other => BindingItemModel::Other,
        }
    }
}

pub open spec fn items_model(items: Seq<BindingItem>) -> Seq<BindingItemModel> {
    items.map_values(|i: BindingItem| i@)
}

/// The items that `syn` parses from the bindings' text, or `None` where the
/// text is not a Rust file.
pub uninterp spec fn parsed_bindings(bindings: Seq<char>) -> Option<Seq<BindingItemModel>>;

/// Parses the bindings with `syn::parse_file` and hands each top-level item
/// on as a `BindingItem`, each item of a foreign block as a `ForeignEntry`
/// (names by `Ident::to_string`, parameters, return types and types as
/// their token text). What comes out is named by `parsed_bindings`.
#[verifier::external_body]
fn parse_bindings(bindings: &str) -> (r: Option<Vec<BindingItem>>)
    ensures
        r matches Some(items) ==> parsed_bindings(bindings@) == Some(items_model(items@)),
        r is None ==> parsed_bindings(bindings@) is None,
{
    let file = syn::parse_file(bindings).ok()?;
    Some(file.items.iter().map(|item| match item {
        syn::Item::ForeignMod(block) => BindingItem::ForeignBlock(block.items.iter().map(|f| match f {
            syn::ForeignItem::Fn(func) => ForeignEntry::Function { stub_name: func.sig.ident.to_string(),
                params: quote::ToTokens::to_token_stream(&func.sig.inputs).to_string(),
                output: quote::ToTokens::to_token_stream(&func.sig.output).to_string() },
            syn::ForeignItem::Static(stat) => ForeignEntry::Static { stub_name: stat.ident.to_string(),
                ty: quote::ToTokens::to_token_stream(&stat.ty).to_string() },
            _ => ForeignEntry::Other,
        }).collect()),
        _ => BindingItem::Other,
    }).collect())
}

/// The code written for a foreign item.
pub enum WrapperPlan {
    /// A function named `name` with the given parameters and return type,
    /// which jumps through the slot `slot`, a static set to `address`.
    JumpStub { name: String, slot: String, address: String, params: String, output: String },
    /// A constant `name`: a pointer of the given type to `address`.
    AddressConstant { name: String, address: String, ty: String },
}

pub enum WrapperPlanModel {
    JumpStub { name: Seq<char>, slot: Seq<char>, address: Seq<char>, params: Seq<char>, output: Seq<char> },
    AddressConstant { name: Seq<char>, address: Seq<char>, ty: Seq<char> },
}

impl View for WrapperPlan {
    type V = WrapperPlanModel;

    open spec fn view(&self) -> WrapperPlanModel {
        match self {
            WrapperPlan::JumpStub { name, slot, address, params, output } => WrapperPlanModel::JumpStub {
                name: name@,
                slot: slot@,
                address: address@,
                params: params@,
                output: output@,
            },
            WrapperPlan::AddressConstant { name, address, ty } => WrapperPlanModel::AddressConstant {
                name: name@,
                address: address@,
                ty: ty@,
            },
        }
    }
}

pub open spec fn plans_model(ps: Seq<WrapperPlan>) -> Seq<WrapperPlanModel> {
    ps.map_values(|p: WrapperPlan| p@)
}

/// Why no code could be planned.
pub enum StubError {
    /// The bindings are not a Rust file.
    UnparsableBindings,
    /// The name a stub stands for is not an identifier.
    InvalidIdentifier(String),
    /// No function row names the function a stub stands for.
    FunctionAddressNotFound,
    /// A function's address is not a Rust expression.
    UnparsableFunctionAddress(String),
    /// No data label names the data a stub stands for.
    SymbolAddressNotFound,
    /// A data label's address is not a Rust expression.
    UnparsableSymbolAddress(String),
}

/// What an error holds.
pub enum StubErrorModel {
    UnparsableBindings,
    InvalidIdentifier(Seq<char>),
    FunctionAddressNotFound,
    UnparsableFunctionAddress(Seq<char>),
    SymbolAddressNotFound,
    UnparsableSymbolAddress(Seq<char>),
}

impl View for StubError {
    type V = StubErrorModel;

    open spec fn view(&self) -> StubErrorModel {
        match self {
            StubError::UnparsableBindings => StubErrorModel::UnparsableBindings,
            StubError::InvalidIdentifier(n) => StubErrorModel::InvalidIdentifier(n@),
            StubError::FunctionAddressNotFound => StubErrorModel::FunctionAddressNotFound,
            StubError::UnparsableFunctionAddress(a) => StubErrorModel::UnparsableFunctionAddress(a@),
            StubError::SymbolAddressNotFound => StubErrorModel::SymbolAddressNotFound,
            StubError::UnparsableSymbolAddress(a) => StubErrorModel::UnparsableSymbolAddress(a@),
        }
    }
}

impl StubError {
    pub open spec fn spec_message(&self) -> Seq<char> {
        match self {
            StubError::UnparsableBindings => "Failed to parse bindings"@,
            StubError::InvalidIdentifier(_) => "is not a valid Ident"@,
            StubError::FunctionAddressNotFound => "Function address not found"@,
            StubError::UnparsableFunctionAddress(_) => "Failed to parse function address"@,
            StubError::SymbolAddressNotFound => "Symbol address not found"@,
            StubError::UnparsableSymbolAddress(_) => "Failed to parse symbol address"@,
        }
    }

    /// The text that reports the error (for an invalid name, without the
    /// name).
    pub fn message(&self) -> (m: &'static str)
        ensures
            m@ == self.spec_message(),
    {
        match self {
            StubError::UnparsableBindings => "Failed to parse bindings",
            StubError::InvalidIdentifier(_) => "is not a valid Ident",
            StubError::FunctionAddressNotFound => "Function address not found",
            StubError::UnparsableFunctionAddress(_) => "Failed to parse function address",
            StubError::SymbolAddressNotFound => "Symbol address not found",
            StubError::UnparsableSymbolAddress(_) => "Failed to parse symbol address",
        }
    }
}

/// Whether `syn` reads the text as one identifier, keywords included.
pub uninterp spec fn is_identifier(text: Seq<char>) -> bool;

/// Whether `syn` reads the text as one Rust expression.
pub uninterp spec fn parses_as_expression(text: Seq<char>) -> bool;

/// Asks `syn::parse::Parser::parse_str` with `syn::ext::IdentExt::parse_any`
/// whether the text is a single identifier (keywords included); the answer
/// is named by `is_identifier`. For text without spaces, comments or `#`, as
/// the names of generated stubs are, this accepts the same names as
/// `proc_macro2::Ident::new`.
#[verifier::external_body]
fn identifier_ok(text: &str) -> (r: bool)
    ensures
        r == is_identifier(text@),
{
    syn::parse::Parser::parse_str(<syn::Ident as syn::ext::IdentExt>::parse_any, text).is_ok()
}

/// Asks `syn::parse_str::<syn::Expr>` whether the text is a Rust expression;
/// the answer is named by `parses_as_expression`.
#[verifier::external_body]
fn expression_ok(text: &str) -> (r: bool)
    ensures
        r == parses_as_expression(text@),
{
    syn::parse_str::<syn::Expr>(text).is_ok()
}

/// The items of the foreign blocks, in order.
pub open spec fn foreign_entries(items: Seq<BindingItemModel>) -> Seq<ForeignEntryModel>
    decreases items.len(),
{
    if items.len() == 0 {
        Seq::empty()
    } else {
        foreign_entries(items.drop_last()) + match items.last() {
            BindingItemModel::ForeignBlock(es) => es,
            BindingItemModel::Other => Seq::empty(),
        }
    }
}

/// The code for one foreign item: `None` for an item that is neither a
/// function nor a static. The checks come in the order the generator makes
/// them: for a function the name, the address, then the address's syntax;
/// for a static the address, the name, then the address's syntax.
pub open spec fn plan_of(
    e: ForeignEntryModel,
    fs: Seq<FunctionEntry>,
    ss: Seq<SymbolEntry>,
) -> Option<Result<WrapperPlanModel, StubErrorModel>> {
    match e {
        ForeignEntryModel::Function { stub_name, params, output } => {
            let name = stub_base_name(stub_name);
            Some(
                if !is_identifier(name) {
                    Err(StubErrorModel::InvalidIdentifier(name))
                } else {
                    match function_address_of(fs, name) {
                        None => Err(StubErrorModel::FunctionAddressNotFound),
                        Some(address) => if !parses_as_expression(address) {
                            Err(StubErrorModel::UnparsableFunctionAddress(address))
                        } else {
                            Ok(
                                WrapperPlanModel::JumpStub {
                                    name,
                                    slot: "SYM_"@ + name,
                                    address,
                                    params,
                                    output,
                                },
                            )
                        },
                    }
                },
            )
        },
        ForeignEntryModel::Static { stub_name, ty } => {
            let name = stub_base_name(stub_name);
            Some(
                match symbol_address_of(ss, name) {
                    None => Err(StubErrorModel::SymbolAddressNotFound),
                    Some(address) => if !is_identifier(name) {
                        Err(StubErrorModel::InvalidIdentifier(name))
                    } else if !parses_as_expression(address) {
                        Err(StubErrorModel::UnparsableSymbolAddress(address))
                    } else {
                        Ok(WrapperPlanModel::AddressConstant { name, address, ty })
                    },
                },
            )
        },
        ForeignEntryModel::Other => None,
    }
}

/// The code for the foreign items, in order, or the error of the first
/// function or static whose address is missing.
pub open spec fn plan_all(
    es: Seq<ForeignEntryModel>,
    fs: Seq<FunctionEntry>,
    ss: Seq<SymbolEntry>,
) -> Result<Seq<WrapperPlanModel>, StubErrorModel>
    decreases es.len(),
{
    if es.len() == 0 {
        Ok(Seq::empty())
    } else {
        match plan_all(es.drop_last(), fs, ss) {
            Err(e) => Err(e),
            Ok(ps) => match plan_of(es.last(), fs, ss) {
                None => Ok(ps),
                Some(Err(e)) => Err(e),
                Some(Ok(p)) => Ok(ps.push(p)),
            },
        }
    }
}

proof fn lemma_plan_error_prefix(es: Seq<ForeignEntryModel>, fs: Seq<FunctionEntry>, ss: Seq<SymbolEntry>, k: int)
    requires
        0 <= k <= es.len(),
        plan_all(es.take(k), fs, ss) is Err,
    ensures
        plan_all(es, fs, ss) == plan_all(es.take(k), fs, ss),
    decreases es.len() - k,
{
    if k < es.len() {
        let d = es.drop_last();
        assert(d.take(k) =~= es.take(k));
        lemma_plan_error_prefix(d, fs, ss, k);
    } else {
        assert(es.take(k) =~= es);
    }
}

/// The items of the first `k` top-level items lead the items of all of
/// them.
proof fn lemma_foreign_entries_prefix(items: Seq<BindingItemModel>, k: int)
    requires
        0 <= k <= items.len(),
    ensures
        foreign_entries(items.take(k)).len() <= foreign_entries(items).len(),
        foreign_entries(items).take(foreign_entries(items.take(k)).len() as int)
            == foreign_entries(items.take(k)),
    decreases items.len() - k,
{
    if k < items.len() {
        let d = items.drop_last();
        assert(d.take(k) =~= items.take(k));
        lemma_foreign_entries_prefix(d, k);
        let p = foreign_entries(items.take(k));
        assert(foreign_entries(items).take(p.len() as int) =~= foreign_entries(d).take(p.len() as int));
    } else {
        assert(items.take(k) =~= items);
        assert(foreign_entries(items).take(foreign_entries(items).len() as int) =~= foreign_entries(items));
    }
}

fn copy_text(s: &String) -> (c: String)
    ensures
        c@ == s@,
{
    s.clone()
}

/// The code for one function or static.
fn plan_entry(
    e: &ForeignEntry,
    functions: &Vec<FunctionEntry>,
    symbols: &Vec<SymbolEntry>,
) -> (r: Option<Result<WrapperPlan, StubError>>)
    ensures
        match (r, plan_of(e@, functions@, symbols@)) {
            (None, None) => true,
            (Some(Err(x)), Some(Err(y))) => x@ == y,
            (Some(Ok(p)), Some(Ok(q))) => p@ == q,
            _ => false,
        },
{
    match e {
        ForeignEntry::Function { stub_name, params, output } => {
            let name = base_name_of_stub(stub_name.as_str());
            if !identifier_ok(name.as_str()) {
                return Some(Err(StubError::InvalidIdentifier(name)));
            }
            match stub_function_address(functions, stub_name.as_str()) {
                None => Some(Err(StubError::FunctionAddressNotFound)),
                Some(address) => {
                    if !expression_ok(address.as_str()) {
                        return Some(Err(StubError::UnparsableFunctionAddress(address)));
                    }
                    let slot = jump_slot_name(name.as_str());
                    Some(Ok(WrapperPlan::JumpStub {
                        name,
                        slot,
                        address,
                        params: copy_text(params),
                        output: copy_text(output),
                    }))
                },
            }
        },
        ForeignEntry::Static { stub_name, ty } => {
            let name = base_name_of_stub(stub_name.as_str());
            match stub_symbol_address(symbols, stub_name.as_str()) {
                None => Some(Err(StubError::SymbolAddressNotFound)),
                Some(address) => {
                    if !identifier_ok(name.as_str()) {
                        return Some(Err(StubError::InvalidIdentifier(name)));
                    }
                    if !expression_ok(address.as_str()) {
                        return Some(Err(StubError::UnparsableSymbolAddress(address)));
                    }
                    Some(Ok(WrapperPlan::AddressConstant { name, address, ty: copy_text(ty) }))
                },
            }
        },
        ForeignEntry::Other => None,
    }
}

/// The functions and statics among the foreign items, in order.
pub open spec fn stub_entries(es: Seq<ForeignEntryModel>) -> Seq<ForeignEntryModel>
    decreases es.len(),
{
    if es.len() == 0 {
        Seq::empty()
    } else if es.last() is Other {
        stub_entries(es.drop_last())
    } else {
        stub_entries(es.drop_last()).push(es.last())
    }
}

/// The plan is the code for the item: for a function, a stub with the
/// function's own parameters and return type, named by the name the stub
/// stands for, jumping through `SYM_` and that name, to the function table's
/// address; for a static, a constant of the static's own type at the data
/// label's address.
pub open spec fn plan_fits(
    p: WrapperPlanModel,
    e: ForeignEntryModel,
    fs: Seq<FunctionEntry>,
    ss: Seq<SymbolEntry>,
) -> bool {
    match (p, e) {
        (
            WrapperPlanModel::JumpStub { name, slot, address, params, output },
            ForeignEntryModel::Function { stub_name, params: ps, output: os },
        ) => {
            &&& name == stub_base_name(stub_name)
            &&& slot == "SYM_"@ + name
            &&& function_address_of(fs, name) == Some(address)
            &&& params == ps
            &&& output == os
        },
        (
            WrapperPlanModel::AddressConstant { name, address, ty },
            ForeignEntryModel::Static { stub_name, ty: t },
        ) => {
            &&& name == stub_base_name(stub_name)
            &&& symbol_address_of(ss, name) == Some(address)
            &&& ty == t
        },
        _ => false,
    }
}

/// Every plan is the code for the function or static at its place.
pub open spec fn plans_follow(
    ps: Seq<WrapperPlanModel>,
    es: Seq<ForeignEntryModel>,
    fs: Seq<FunctionEntry>,
    ss: Seq<SymbolEntry>,
) -> bool {
    let stubs = stub_entries(es);
    &&& ps.len() == stubs.len()
    &&& forall|k: int| 0 <= k < ps.len() ==> #[trigger] plan_fits(ps[k], stubs[k], fs, ss)
}

/// Law: where planning succeeds, there is one plan for each function and
/// static, in order, and each is the code for its item: a function's stub
/// keeps the function's parameters and its return type as they are, each
/// taken from the function itself.
pub proof fn lemma_plans_follow_entries(
    es: Seq<ForeignEntryModel>,
    fs: Seq<FunctionEntry>,
    ss: Seq<SymbolEntry>,
)
    ensures
        plan_all(es, fs, ss) matches Ok(ps) ==> plans_follow(ps, es, fs, ss),
    decreases es.len(),
{
    if es.len() > 0 {
        let d = es.drop_last();
        lemma_plans_follow_entries(d, fs, ss);
        if let Ok(ps) = plan_all(es, fs, ss) {
            let e = es.last();
            if let Ok(ps0) = plan_all(d, fs, ss) {
                match plan_of(e, fs, ss) {
                    Some(Ok(p)) => {
                        assert(ps == ps0.push(p));
                        assert(stub_entries(es) == stub_entries(d).push(e));
                        assert forall|k: int| 0 <= k < ps.len() implies #[trigger] plan_fits(
                            ps[k],
                            stub_entries(es)[k],
                            fs,
                            ss,
                        ) by {
                            if k < ps0.len() {
                                assert(plan_fits(ps0[k], stub_entries(d)[k], fs, ss));
                            }
                        }
                    },
                    _ => {
                        assert(e is Other);
                    },
                }
            }
        }
    }
}

/// The planned code is the expected one, or the error is.
pub open spec fn plan_result_is(
    r: Result<Vec<WrapperPlan>, StubError>,
    expected: Result<Seq<WrapperPlanModel>, StubErrorModel>,
) -> bool {
    match (r, expected) {
        (Ok(ps), Ok(qs)) => plans_model(ps@) == qs,
        (Err(x), Err(y)) => x@ == y,
        _ => false,
    }
}

/// Plans the code for the parsed bindings: for each function and static of
/// the foreign blocks, in order, the code that stands for it, or the error
/// of the first whose address the tables lack.
pub fn plan_wrappers(
    items: &Vec<BindingItem>,
    functions: &Vec<FunctionEntry>,
    symbols: &Vec<SymbolEntry>,
) -> (r: Result<Vec<WrapperPlan>, StubError>)
    ensures
        plan_result_is(r, plan_all(foreign_entries(items_model(items@)), functions@, symbols@)),
        r matches Ok(ps) ==> plans_follow(
            plans_model(ps@),
            foreign_entries(items_model(items@)),
            functions@,
            symbols@,
        ),
{
    proof {
        lemma_plans_follow_entries(foreign_entries(items_model(items@)), functions@, symbols@);
    }
    let ghost all = foreign_entries(items_model(items@));
    let mut out: Vec<WrapperPlan> = Vec::new();
    let mut i: usize = 0;
    let ghost mut done: int = 0;
    proof {
        assert(plans_model(out@) =~= Seq::<WrapperPlanModel>::empty());
        assert(all.take(0) =~= Seq::<ForeignEntryModel>::empty());
        assert(items_model(items@).take(0) =~= Seq::<BindingItemModel>::empty());
    }
    while i < items.len()
        invariant
            all == foreign_entries(items_model(items@)),
            i <= items@.len(),
            0 <= done <= all.len(),
            all.take(done) == foreign_entries(items_model(items@).take(i as int)),
            plan_all(all.take(done), functions@, symbols@) == Ok::<Seq<WrapperPlanModel>, StubErrorModel>(plans_model(out@)),
        decreases items@.len() - i,
    {
        proof {
            lemma_foreign_entries_prefix(items_model(items@), i as int + 1);
            assert(items_model(items@).take(i + 1).drop_last() =~= items_model(items@).take(i as int));
            assert(items_model(items@).take(i + 1).last() == items@[i as int]@);
        }
        match &items[i] {
            BindingItem::Other => {
                proof {
                    assert(foreign_entries(items_model(items@).take(i + 1)) =~= foreign_entries(items_model(items@).take(i as int)));
                }
            },
            BindingItem::ForeignBlock(es) => {
                let ghost before = done;
                proof {
                    assert(foreign_entries(items_model(items@).take(i + 1)) =~= all.take(before) + entries_model(es@));
                    assert(all.take(before + es@.len()) =~= all.take(before) + entries_model(es@));
                }
                let mut j: usize = 0;
                while j < es.len()
                    invariant
                        all == foreign_entries(items_model(items@)),
                        0 <= before,
                        before + es@.len() <= all.len(),
                        all.take(before + es@.len()) == all.take(before) + entries_model(es@),
                        j <= es@.len(),
                        done == before + j,
                        plan_all(all.take(done), functions@, symbols@) == Ok::<Seq<WrapperPlanModel>, StubErrorModel>(plans_model(out@)),
                    decreases es@.len() - j,
                {
                    proof {
                        assert(all.take(done + 1).drop_last() =~= all.take(done));
                        assert(all.take(done + 1).last() == all.take(before + es@.len())[done]);
                        assert(all.take(done + 1).last() == es@[j as int]@);
                    }
                    match plan_entry(&es[j], functions, symbols) {
                        None => {},
                        Some(Err(e)) => {
                            proof {
                                lemma_plan_error_prefix(all, functions@, symbols@, done + 1);
                            }
                            return Err(e);
                        },
                        Some(Ok(p)) => {
                            let ghost out0 = out@;
                            let ghost pv = p@;
                            out.push(p);
                            proof {
                                assert(plans_model(out@) =~= plans_model(out0).push(pv));
                            }
                        },
                    }
                    j = j + 1;
                    proof {
                        done = done + 1;
                    }
                }
                proof {
                    assert(all.take(done) =~= foreign_entries(items_model(items@).take(i + 1)));
                }
            },
        }
        i = i + 1;
    }
    proof {
        assert(items_model(items@).take(i as int) =~= items_model(items@));
        assert(all.take(done) =~= all);
    }
    Ok(out)
}

/// Plans the code written after the generated bindings: the bindings are
/// parsed, then each function and static of their foreign blocks gets its
/// code, in order.
pub fn plan_bindings(
    bindings: &str,
    functions: &Vec<FunctionEntry>,
    symbols: &Vec<SymbolEntry>,
) -> (r: Result<Vec<WrapperPlan>, StubError>)
    ensures
        parsed_bindings(bindings@) is None ==> (r matches Err(e) && e@ == StubErrorModel::UnparsableBindings),
        parsed_bindings(bindings@) matches Some(items) ==> plan_result_is(
            r,
            plan_all(foreign_entries(items), functions@, symbols@),
        ),
{
    match parse_bindings(bindings) {
        None => Err(StubError::UnparsableBindings),
        Some(items) => plan_wrappers(&items, functions, symbols),
    }
}

} // verus!
