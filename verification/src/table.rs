//! Decoding of a warehouse response: a schema of named, typed columns and
//! rows of untyped string cells become records of typed values.

use vstd::prelude::*;
use vstd::string::StringExecFns;
use crate::decimal::{parse_integer, parsed_i64};

verus! {

/// Why a response could not be decoded.
#[derive(Clone, Copy, Debug, PartialEq, Eq, Structural)]
pub enum DecodeError {
    /// The body is not a JSON document.
    NotJson,
    /// The document has no array under `schema.fields`.
    MissingSchema,
    /// A schema field has no string under `name`.
    MalformedField,
    /// A row has no array under `f`.
    MalformedRow,
    /// A row has more or fewer cells than the schema has fields.
    CellCountMismatch,
    /// The percent-encoded payload column does not decode to UTF-8 text.
    BadEscape,
}

/// A column of the response: its name and the type the warehouse declares for it.
#[derive(Clone, Debug, PartialEq, Eq)]
pub struct SchemaField {
    pub name: String,
    pub declared_type: String,
}

/// A decoded cell.
#[derive(Clone, Debug, PartialEq, Eq)]
pub enum TypedValue {
    Integer(i64),
    Text(String),
}

/// One named value of a record.
#[derive(Clone, Debug, PartialEq, Eq)]
pub struct RecordEntry {
    pub name: String,
    pub value: TypedValue,
}

/// One decoded row: its entries stand in schema order.
#[derive(Clone, Debug, PartialEq, Eq)]
pub struct StructuredRecord {
    pub entries: Vec<RecordEntry>,
}

/// Mathematical model of a `SchemaField`.
pub struct FieldModel {
    pub name: Seq<char>,
    pub declared_type: Seq<char>,
}

/// Mathematical model of a `TypedValue`.
pub enum ValueModel {
    Integer(i64),
    Text(Seq<char>),
}

/// Mathematical model of a `RecordEntry`.
pub struct EntryModel {
    pub name: Seq<char>,
    pub value: ValueModel,
}

impl View for SchemaField {
    type V = FieldModel;

    open spec fn view(&self) -> FieldModel {
        FieldModel { name: self.name@, declared_type: self.declared_type@ }
    }
}

impl View for TypedValue {
    type V = ValueModel;

    open spec fn view(&self) -> ValueModel {
        match *self {
            TypedValue::Integer(n) => ValueModel::Integer(n),
            TypedValue::Text(s) => ValueModel::Text(s@),
        }
    }
}

impl View for RecordEntry {
    type V = EntryModel;

    open spec fn view(&self) -> EntryModel {
        EntryModel { name: self.name@, value: self.value@ }
    }
}

impl View for StructuredRecord {
    type V = Seq<EntryModel>;

    open spec fn view(&self) -> Seq<EntryModel> {
        Seq::new(self.entries@.len(), |i: int| self.entries@[i]@)
    }
}

/// The models of a sequence of schema fields.
pub open spec fn fields_view(fields: Seq<SchemaField>) -> Seq<FieldModel> {
    Seq::new(fields.len(), |i: int| fields[i]@)
}

/// The models of a sequence of records.
pub open spec fn records_view(records: Seq<StructuredRecord>) -> Seq<Seq<EntryModel>> {
    Seq::new(records.len(), |i: int| records[i]@)
}

/// The model of a cell: its text, or `None` where the row gives none.
pub open spec fn cell_view(cell: Option<String>) -> Option<Seq<char>> {
    match cell {
        Some(text) => Some(text@),
        None => None,
    }
}

/// The models of the cells of a row.
pub open spec fn cells_view(cells: Seq<Option<String>>) -> Seq<Option<Seq<char>>> {
    Seq::new(cells.len(), |i: int| cell_view(cells[i]))
}

/// The models of the rows of a table.
pub open spec fn rows_view(rows: Seq<Vec<Option<String>>>) -> Seq<Seq<Option<Seq<char>>>> {
    Seq::new(rows.len(), |i: int| cells_view(rows[i]@))
}

/// The declared type whose cells are decoded as integers.
pub open spec fn integer_type() -> Seq<char> {
    "INTEGER"@
}

/// The one column whose text is percent-encoded.
pub open spec fn encoded_column() -> Seq<char> {
    "update"@
}

/// The text that `urlencoding::decode` makes of `text`, if the decoded bytes are UTF-8.
pub uninterp spec fn percent_decoded(text: Seq<char>) -> Option<Seq<char>>;

/// Calls `urlencoding::decode`. Trusted: the result is the text that
/// `percent_decoded` names, and `None` where the crate reports invalid UTF-8.
#[verifier::external_body]
fn percent_decode(text: &str) -> (decoded: Option<String>)
    ensures
        decoded.is_some() == percent_decoded(text@).is_some(),
        decoded.is_some() ==> decoded.unwrap()@ == percent_decoded(text@).unwrap(),
{
    match urlencoding::decode(text) {
        Ok(plain) => Some(plain.into_owned()),
        Err(_) => None,
    }
}

/// What an integer-typed cell stands for once its text has been parsed:
/// the parsed number, and zero where the cell is absent or does not parse.
pub open spec fn integer_or_zero(parsed: Option<i64>) -> i64 {
    match parsed {
        Some(n) => n,
        None => 0,
    }
}

/// The text of a cell, empty where the cell is absent.
pub open spec fn text_or_empty(cell: Option<Seq<char>>) -> Seq<char> {
    match cell {
        Some(text) => text,
        None => Seq::empty(),
    }
}

/// The value of one cell under its field, or `None` where the payload
/// column does not decode.
pub open spec fn decoded_cell(field: FieldModel, cell: Option<Seq<char>>) -> Option<ValueModel> {
    if field.declared_type == integer_type() {
        Some(
            ValueModel::Integer(
                match cell {
                    Some(text) => integer_or_zero(parsed_i64(text)),
                    None => 0,
                },
            ),
        )
    } else if field.name == encoded_column() {
        match percent_decoded(text_or_empty(cell)) {
            Some(plain) => Some(ValueModel::Text(plain)),
            None => None,
        }
    } else {
        Some(ValueModel::Text(text_or_empty(cell)))
    }
}

/// The record of one row: one entry per field, in schema order, each under
/// the field's name.
pub open spec fn decoded_row(fields: Seq<FieldModel>, cells: Seq<Option<Seq<char>>>) -> Result<
    Seq<EntryModel>,
    DecodeError,
> {
    if cells.len() != fields.len() {
        Err(DecodeError::CellCountMismatch)
    } else if forall|i: int|
        0 <= i < fields.len() ==> (#[trigger] decoded_cell(fields[i], cells[i])).is_some() {
        Ok(
            Seq::new(
                fields.len(),
                |i: int|
                    EntryModel {
                        name: fields[i].name,
                        value: decoded_cell(fields[i], cells[i]).unwrap(),
                    },
            ),
        )
    } else {
        Err(DecodeError::BadEscape)
    }
}

/// The records of a table: one per row, in row order; the error of the
/// first row that has one.
pub open spec fn decoded_rows(fields: Seq<FieldModel>, rows: Seq<Seq<Option<Seq<char>>>>) -> Result<
    Seq<Seq<EntryModel>>,
    DecodeError,
>
    decreases rows.len(),
{
    if rows.len() == 0 {
        Ok(Seq::empty())
    } else {
        match decoded_rows(fields, rows.drop_last()) {
            Err(e) => Err(e),
            Ok(done) => match decoded_row(fields, rows.last()) {
                Err(e) => Err(e),
                Ok(record) => Ok(done.push(record)),
            },
        }
    }
}

/// Decodes an integer-typed cell from what parsing its text gave.
pub fn integer_cell(parsed: Option<i64>) -> (value: i64)
    ensures
        value == integer_or_zero(parsed),
{
    match parsed {
        Some(n) => n,
        None => 0,
    }
}

/// Decodes one cell under its field.
pub fn decode_cell(field: &SchemaField, cell: &Option<String>) -> (value: Option<TypedValue>)
    ensures
        value.is_some() == decoded_cell(field@, cell_view(*cell)).is_some(),
        value.is_some() ==> value.unwrap()@ == decoded_cell(field@, cell_view(*cell)).unwrap(),
{
    let integer = String::from_str("INTEGER");
    let encoded = String::from_str("update");
    if field.declared_type == integer {
        let number = match cell {
            Some(text) => integer_cell(parse_integer(text.as_str())),
            None => 0i64,
        };
        Some(TypedValue::Integer(number))
    } else {
        let text: String = match cell {
            Some(text) => text.clone(),
            None => {
                let empty = String::new();
                assert(empty@ =~= Seq::<char>::empty());
                empty
            },
        };
        if field.name == encoded {
            match percent_decode(text.as_str()) {
                Some(plain) => Some(TypedValue::Text(plain)),
                None => None,
            }
        } else {
            Some(TypedValue::Text(text))
        }
    }
}

/// Decodes one row against the schema.
pub fn decode_row(fields: &Vec<SchemaField>, cells: &Vec<Option<String>>) -> (record: Result<
    StructuredRecord,
    DecodeError,
>)
    ensures
        match decoded_row(fields_view(fields@), cells_view(cells@)) {
            Ok(model) => record matches Ok(r) && r@ == model,
            Err(e) => record matches Err(x) && x == e,
        },
{
    let ghost fs = fields_view(fields@);
    let ghost cs = cells_view(cells@);
    if cells.len() != fields.len() {
        return Err(DecodeError::CellCountMismatch);
    }
    let mut entries: Vec<RecordEntry> = Vec::new();
    let mut i: usize = 0;
    while i < fields.len()
        invariant
            i <= fields.len(),
            cells.len() == fields.len(),
            fs == fields_view(fields@),
            cs == cells_view(cells@),
            entries@.len() == i,
            forall|j: int| 0 <= j < i ==> (#[trigger] decoded_cell(fs[j], cs[j])).is_some(),
            forall|j: int|
                0 <= j < i ==> (#[trigger] entries@[j])@ == (EntryModel {
                    name: fs[j].name,
                    value: decoded_cell(fs[j], cs[j]).unwrap(),
                }),
        decreases fields.len() - i,
    {
        let field = &fields[i];
        assert(fs[i as int] == field@);
        assert(cs[i as int] == cell_view(cells@[i as int]));
        match decode_cell(field, &cells[i]) {
            None => {
                assert(!decoded_cell(fs[i as int], cs[i as int]).is_some());
                return Err(DecodeError::BadEscape);
            },
            Some(value) => {
                entries.push(RecordEntry { name: field.name.clone(), value });
            },
        }
        i += 1;
    }
    let record = StructuredRecord { entries };
    assert(record@ =~= decoded_row(fs, cs).unwrap());
    Ok(record)
}

/// Decodes every row against the schema, keeping the order of the rows.
/// A table without rows gives no records.
pub fn decode(fields: &Vec<SchemaField>, rows: &Vec<Vec<Option<String>>>) -> (records: Result<
    Vec<StructuredRecord>,
    DecodeError,
>)
    ensures
        match decoded_rows(fields_view(fields@), rows_view(rows@)) {
            Ok(model) => records matches Ok(r) && records_view(r@) == model,
            Err(e) => records matches Err(x) && x == e,
        },
        rows@.len() == 0 ==> records.is_ok() && records.unwrap()@.len() == 0,
{
    let ghost fs = fields_view(fields@);
    let ghost rs = rows_view(rows@);
    let mut out: Vec<StructuredRecord> = Vec::new();
    let mut i: usize = 0;
    assert(rs.take(0) =~= Seq::empty());
    assert(records_view(out@) =~= Seq::empty());
    while i < rows.len()
        invariant
            i <= rows.len(),
            fs == fields_view(fields@),
            rs == rows_view(rows@),
            rs.len() == rows@.len(),
            out@.len() == i,
            decoded_rows(fs, rs.take(i as int)) == Ok::<Seq<Seq<EntryModel>>, DecodeError>(
                records_view(out@),
            ),
        decreases rows.len() - i,
    {
        let ghost before = rs.take(i as int);
        let ghost upto = rs.take(i as int + 1);
        assert(upto.drop_last() =~= before);
        assert(upto.last() == cells_view(rows@[i as int]@));
        let ghost done = records_view(out@);
        match decode_row(fields, &rows[i]) {
            Err(e) => {
                proof {
                    lemma_failure_stays(fs, rs, i as int + 1);
                }
                return Err(e);
            },
            Ok(record) => {
                out.push(record);
                assert(records_view(out@) =~= done.push(record@));
            },
        }
        i += 1;
    }
    assert(rs.take(i as int) =~= rs);
    Ok(out)
}

/// Once a prefix of the rows fails to decode, the whole table fails with the
/// same error.
pub proof fn lemma_failure_stays(
    fields: Seq<FieldModel>,
    rows: Seq<Seq<Option<Seq<char>>>>,
    n: int,
)
    requires
        0 <= n <= rows.len(),
        decoded_rows(fields, rows.take(n)).is_err(),
    ensures
        decoded_rows(fields, rows) == decoded_rows(fields, rows.take(n)),
    decreases rows.len() - n,
{
    if n < rows.len() {
        let longer = rows.take(n + 1);
        assert(longer.drop_last() =~= rows.take(n));
        lemma_failure_stays(fields, rows, n + 1);
    } else {
        assert(rows.take(n) =~= rows);
    }
}

/// Decoding is a function of its input: two results for the same schema
/// and rows hold the same records, and fail alike.
pub proof fn decode_is_repeatable(
    fields: Seq<SchemaField>,
    rows: Seq<Vec<Option<String>>>,
    first: Result<Vec<StructuredRecord>, DecodeError>,
    second: Result<Vec<StructuredRecord>, DecodeError>,
)
    requires
        is_decoding(fields, rows, first),
        is_decoding(fields, rows, second),
    ensures
        first.is_ok() == second.is_ok(),
        first.is_ok() ==> records_view(first.unwrap()@) == records_view(second.unwrap()@),
        first matches Err(a) ==> (second matches Err(b) && a == b),
{
}

/// What `decode` promises of its result.
pub open spec fn is_decoding(
    fields: Seq<SchemaField>,
    rows: Seq<Vec<Option<String>>>,
    records: Result<Vec<StructuredRecord>, DecodeError>,
) -> bool {
    match decoded_rows(fields_view(fields), rows_view(rows)) {
        Ok(model) => records matches Ok(r) && records_view(r@) == model,
        Err(e) => records matches Err(x) && x == e,
    }
}

/// Only the payload column is percent-decoded: the text of a cell of any
/// other column that is not integer-typed is handed on as it stands.
pub proof fn other_text_passes_through(field: FieldModel, cell: Option<Seq<char>>)
    requires
        field.declared_type != integer_type(),
        field.name != encoded_column(),
    ensures
        decoded_cell(field, cell) == Some(ValueModel::Text(text_or_empty(cell))),
{
}

/// A record follows its schema: it has one entry per field, in schema
/// order, each under the field's name and holding the value of the cell at
/// the same place.
pub proof fn record_follows_schema(
    fields: Seq<FieldModel>,
    cells: Seq<Option<Seq<char>>>,
    i: int,
)
    requires
        decoded_row(fields, cells).is_ok(),
        0 <= i < fields.len(),
    ensures
        decoded_row(fields, cells).unwrap().len() == fields.len(),
        decoded_row(fields, cells).unwrap()[i].name == fields[i].name,
        decoded_cell(fields[i], cells[i]) == Some(decoded_row(fields, cells).unwrap()[i].value),
{
}

/// An integer-typed cell whose text parses holds the parsed number,
/// whatever the column is called.
pub proof fn integer_cell_holds_its_number(field: FieldModel, text: Seq<char>, n: i64)
    requires
        field.declared_type == integer_type(),
        parsed_i64(text) == Some(n),
    ensures
        decoded_cell(field, Some(text)) == Some(ValueModel::Integer(n)),
{
}

} // verus!
