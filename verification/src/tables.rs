//! Reading the game's function and symbol tables: the CSV text is split
//! into records by the `csv` crate, and each record is read by the row
//! rules of `bindings`.

use vstd::prelude::*;
use crate::bindings::{
    address_literal, clean_signature, is_data_label, parse_function_record, parse_symbol_record,
    FunctionEntry, RecordError, SymbolEntry, SymbolRow,
};

verus! {

/// The records that `csv` reads from a table whose first line is a header
/// (which is not among them), each as its fields, up to the first record it
/// cannot read; and whether it read the text to its end without such a
/// record.
pub uninterp spec fn csv_table_rows(text: Seq<u8>) -> (Seq<Seq<Seq<char>>>, bool);

/// Splits a table into records with `csv::Reader::from_reader` and its
/// `records` iterator (default settings: comma-separated, first line a
/// header), stopping at the first record it reports an error for. The
/// records and whether the end was reached are named by `csv_table_rows`.
#[verifier::external_body]
fn csv_rows(text: &[u8]) -> (r: (Vec<Vec<String>>, bool))
    ensures
        (r.0.deep_view(), r.1) == csv_table_rows(text@),
{
    let mut rows: Vec<Vec<String>> = Vec::new();
    for record in csv::Reader::from_reader(text).records() {
        match record {
            Ok(fields) => rows.push(fields.iter().map(|f| f.to_string()).collect()),
            Err(_) => return (rows, false),
        }
    }
    (rows, true)
}

/// Why a table could not be read.
#[derive(PartialEq, Eq, Structural, Clone, Copy, Debug)]
pub enum TableError {
    /// The CSV text holds a record that cannot be read.
    Unreadable,
    /// A record lacks a column.
    Row(RecordError),
}

impl TableError {
    pub open spec fn spec_message(&self) -> Seq<char> {
        match self {
            TableError::Unreadable => "Failed to read record"@,
            TableError::Row(e) => e.spec_message(),
        }
    }

    /// The text that reports the error.
    pub fn message(&self) -> (m: &'static str)
        ensures
            m@ == self.spec_message(),
    {
        match self {
            TableError::Unreadable => "Failed to read record",
            TableError::Row(e) => e.message(),
        }
    }
}

/// The column a function row lacks, if any.
pub open spec fn function_row_error(row: Seq<Seq<char>>) -> Option<RecordError> {
    if row.len() < 1 {
        Some(RecordError::NoFunctionName)
    } else if row.len() < 2 {
        Some(RecordError::NoFunctionAddress)
    } else if row.len() < 3 {
        Some(RecordError::NoFunctionSignature)
    } else {
        None
    }
}

/// The column a symbol row lacks, if any; the data type is read only for
/// data labels.
pub open spec fn symbol_row_error(row: Seq<Seq<char>>) -> Option<RecordError> {
    if row.len() < 1 {
        Some(RecordError::NoSymbolName)
    } else if row.len() < 2 {
        Some(RecordError::NoSymbolAddress)
    } else if row.len() < 3 {
        Some(RecordError::NoSymbolType)
    } else if is_data_label(row[2]) && row.len() < 4 {
        Some(RecordError::NoSymbolDataType)
    } else {
        None
    }
}

/// The first error among the function rows, in table order.
pub open spec fn first_function_error(rows: Seq<Seq<Seq<char>>>) -> Option<RecordError>
    decreases rows.len(),
{
    if rows.len() == 0 {
        None
    } else {
        match first_function_error(rows.drop_last()) {
            Some(e) => Some(e),
            None => function_row_error(rows.last()),
        }
    }
}

/// The first error among the symbol rows, in table order.
pub open spec fn first_symbol_error(rows: Seq<Seq<Seq<char>>>) -> Option<RecordError>
    decreases rows.len(),
{
    if rows.len() == 0 {
        None
    } else {
        match first_symbol_error(rows.drop_last()) {
            Some(e) => Some(e),
            None => symbol_row_error(rows.last()),
        }
    }
}

/// The symbol rows that are data labels, in table order.
pub open spec fn data_label_rows(rows: Seq<Seq<Seq<char>>>) -> Seq<Seq<Seq<char>>>
    decreases rows.len(),
{
    if rows.len() == 0 {
        Seq::empty()
    } else {
        let row = rows.last();
        if row.len() >= 3 && is_data_label(row[2]) {
            data_label_rows(rows.drop_last()).push(row)
        } else {
            data_label_rows(rows.drop_last())
        }
    }
}

/// The entry holds what the function row says.
pub open spec fn function_entry_of(e: FunctionEntry, row: Seq<Seq<char>>) -> bool {
    &&& e.name@ == row[0]
    &&& e.address@ == address_literal(row[1])
    &&& e.signature@ == clean_signature(row[2])
}

/// The entry holds what the data label row says.
pub open spec fn symbol_entry_of(e: SymbolEntry, row: Seq<Seq<char>>) -> bool {
    &&& e.name@ == row[0]
    &&& e.address@ == address_literal(row[1])
    &&& e.data_type@ == row[3]
}

/// One entry for each row, in order.
pub open spec fn function_table_of(fs: Seq<FunctionEntry>, rows: Seq<Seq<Seq<char>>>) -> bool {
    &&& fs.len() == rows.len()
    &&& forall|i: int| 0 <= i < rows.len() ==> #[trigger] function_entry_of(fs[i], rows[i])
}

/// One entry for each data label row, in order.
pub open spec fn symbol_table_of(ss: Seq<SymbolEntry>, rows: Seq<Seq<Seq<char>>>) -> bool {
    let labels = data_label_rows(rows);
    &&& ss.len() == labels.len()
    &&& forall|i: int| 0 <= i < labels.len() ==> #[trigger] symbol_entry_of(ss[i], labels[i])
}

proof fn lemma_function_error_prefix(rows: Seq<Seq<Seq<char>>>, k: int)
    requires
        0 <= k <= rows.len(),
        first_function_error(rows.take(k)) is Some,
    ensures
        first_function_error(rows) == first_function_error(rows.take(k)),
    decreases rows.len() - k,
{
    if k < rows.len() {
        let d = rows.drop_last();
        assert(d.take(k) =~= rows.take(k));
        lemma_function_error_prefix(d, k);
    } else {
        assert(rows.take(k) =~= rows);
    }
}

proof fn lemma_symbol_error_prefix(rows: Seq<Seq<Seq<char>>>, k: int)
    requires
        0 <= k <= rows.len(),
        first_symbol_error(rows.take(k)) is Some,
    ensures
        first_symbol_error(rows) == first_symbol_error(rows.take(k)),
    decreases rows.len() - k,
{
    if k < rows.len() {
        let d = rows.drop_last();
        assert(d.take(k) =~= rows.take(k));
        lemma_symbol_error_prefix(d, k);
    } else {
        assert(rows.take(k) =~= rows);
    }
}

/// Reads the records of the function table: the error of the first row that
/// lacks a column, or one entry per row, in order.
pub fn function_table_from_rows(rows: &Vec<Vec<String>>) -> (r: Result<Vec<FunctionEntry>, RecordError>)
    ensures
        first_function_error(rows.deep_view()) matches Some(e) ==> r == Err::<Vec<FunctionEntry>, RecordError>(e),
        first_function_error(rows.deep_view()) is None ==> (r matches Ok(fs)
            && function_table_of(fs@, rows.deep_view())),
{
    let ghost dv = rows.deep_view();
    let mut out: Vec<FunctionEntry> = Vec::new();
    let mut i: usize = 0;
    while i < rows.len()
        invariant
            dv == rows.deep_view(),
            i <= rows@.len(),
            first_function_error(dv.take(i as int)) is None,
            function_table_of(out@, dv.take(i as int)),
        decreases rows@.len() - i,
    {
        let row = &rows[i];
        proof {
            assert(dv.take(i + 1).drop_last() =~= dv.take(i as int));
            assert(dv[i as int] =~= row.deep_view());
            assert(dv.take(i + 1).last() == dv[i as int]);
        }
        match parse_function_record(row) {
            Err(e) => {
                proof {
                    lemma_function_error_prefix(dv, i + 1);
                }
                return Err(e);
            },
            Ok(entry) => {
                out.push(entry);
                proof {
                    assert forall|k: int| 0 <= k < i + 1 implies #[trigger] function_entry_of(
                        out@[k],
                        dv.take(i + 1)[k],
                    ) by {
                        if k < i {
                            assert(dv.take(i + 1)[k] == dv.take(i as int)[k]);
                        }
                    }
                }
            },
        }
        i = i + 1;
    }
    proof {
        assert(dv.take(i as int) =~= dv);
    }
    Ok(out)
}

/// Reads the records of the symbol table: the error of the first row that
/// lacks a column, or one entry per data label row, in order.
pub fn symbol_table_from_rows(rows: &Vec<Vec<String>>) -> (r: Result<Vec<SymbolEntry>, RecordError>)
    ensures
        first_symbol_error(rows.deep_view()) matches Some(e) ==> r == Err::<Vec<SymbolEntry>, RecordError>(e),
        first_symbol_error(rows.deep_view()) is None ==> (r matches Ok(ss)
            && symbol_table_of(ss@, rows.deep_view())),
{
    let ghost dv = rows.deep_view();
    let mut out: Vec<SymbolEntry> = Vec::new();
    let mut i: usize = 0;
    while i < rows.len()
        invariant
            dv == rows.deep_view(),
            i <= rows@.len(),
            first_symbol_error(dv.take(i as int)) is None,
            symbol_table_of(out@, dv.take(i as int)),
        decreases rows@.len() - i,
    {
        let row = &rows[i];
        proof {
            assert(dv.take(i + 1).drop_last() =~= dv.take(i as int));
            assert(dv[i as int] =~= row.deep_view());
            assert(dv.take(i + 1).last() == dv[i as int]);
        }
        match parse_symbol_record(row) {
            Err(e) => {
                proof {
                    lemma_symbol_error_prefix(dv, i + 1);
                }
                return Err(e);
            },
            Ok(SymbolRow::Other) => {},
            Ok(SymbolRow::Data(entry)) => {
                out.push(entry);
                proof {
                    let labels = data_label_rows(dv.take(i + 1));
                    assert(labels == data_label_rows(dv.take(i as int)).push(dv[i as int]));
                    assert forall|k: int| 0 <= k < labels.len() implies #[trigger] symbol_entry_of(
                        out@[k],
                        labels[k],
                    ) by {
                        if k < labels.len() - 1 {
                            assert(labels[k] == data_label_rows(dv.take(i as int))[k]);
                        }
                    }
                }
            },
        }
        i = i + 1;
    }
    proof {
        assert(dv.take(i as int) =~= dv);
    }
    Ok(out)
}

/// Reads the function table from its CSV text: the error of the first row
/// that lacks a column, else `Unreadable` where `csv` stopped before the end,
/// else one entry per record, in order.
pub fn read_function_table(text: &[u8]) -> (r: Result<Vec<FunctionEntry>, TableError>)
    ensures
        first_function_error(csv_table_rows(text@).0) matches Some(e)
            ==> r == Err::<Vec<FunctionEntry>, TableError>(TableError::Row(e)),
        first_function_error(csv_table_rows(text@).0) is None && !csv_table_rows(text@).1
            ==> r == Err::<Vec<FunctionEntry>, TableError>(TableError::Unreadable),
        first_function_error(csv_table_rows(text@).0) is None && csv_table_rows(text@).1
            ==> (r matches Ok(fs) && function_table_of(fs@, csv_table_rows(text@).0)),
{
    let (rows, complete) = csv_rows(text);
    match function_table_from_rows(&rows) {
        Err(e) => Err(TableError::Row(e)),
        Ok(fs) => if complete {
            Ok(fs)
        } else {
            Err(TableError::Unreadable)
        },
    }
}

/// Reads the symbol table from its CSV text: the error of the first row that
/// lacks a column, else `Unreadable` where `csv` stopped before the end, else
/// one entry per data label, in order.
pub fn read_symbol_table(text: &[u8]) -> (r: Result<Vec<SymbolEntry>, TableError>)
    ensures
        first_symbol_error(csv_table_rows(text@).0) matches Some(e)
            ==> r == Err::<Vec<SymbolEntry>, TableError>(TableError::Row(e)),
        first_symbol_error(csv_table_rows(text@).0) is None && !csv_table_rows(text@).1
            ==> r == Err::<Vec<SymbolEntry>, TableError>(TableError::Unreadable),
        first_symbol_error(csv_table_rows(text@).0) is None && csv_table_rows(text@).1
            ==> (r matches Ok(ss) && symbol_table_of(ss@, csv_table_rows(text@).0)),
{
    let (rows, complete) = csv_rows(text);
    match symbol_table_from_rows(&rows) {
        Err(e) => Err(TableError::Row(e)),
        Ok(ss) => if complete {
            Ok(ss)
        } else {
            Err(TableError::Unreadable)
        },
    }
}

/// Law: the rows kept from the symbol table are exactly those whose type
/// column reads `Data Label`, in table order.
pub proof fn lemma_data_label_rows_exact(rows: Seq<Seq<Seq<char>>>)
    ensures
        data_label_rows(rows) == rows.filter(
            |row: Seq<Seq<char>>| row.len() >= 3 && row[2] == "Data Label"@,
        ),
    decreases rows.len(),
{
    reveal(Seq::filter);
    if rows.len() > 0 {
        lemma_data_label_rows_exact(rows.drop_last());
    }
}

} // verus!
