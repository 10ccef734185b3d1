//! Reading the schema and the rows out of a warehouse response document,
//! and decoding the whole response into records.

use vstd::prelude::*;
use vstd::string::StringExecFns;
use crate::json::{
    elements, json_elements, json_member, json_parsed, json_text, member, parse_document, text_of,
};
use crate::table::{
    cell_view, cells_view, decode, decoded_rows, fields_view, records_view, rows_view,
    text_or_empty, DecodeError, EntryModel, FieldModel, SchemaField, StructuredRecord,
};

verus! {

/// The text under `key` of an object, if there is a string there.
pub open spec fn text_member(doc: serde_json::Value, key: Seq<char>) -> Option<Seq<char>> {
    match json_member(doc, key) {
        Some(found) => json_text(found),
        None => None,
    }
}

/// The elements of the array under `key` of an object, if there is one.
pub open spec fn array_member(doc: serde_json::Value, key: Seq<char>) -> Option<
    Seq<serde_json::Value>,
> {
    match json_member(doc, key) {
        Some(found) => json_elements(found),
        None => None,
    }
}

/// The array under `schema.fields`, if the document has one.
pub open spec fn schema_items(doc: serde_json::Value) -> Option<Seq<serde_json::Value>> {
    match json_member(doc, "schema"@) {
        Some(schema) => array_member(schema, "fields"@),
        None => None,
    }
}

/// The field that one element of `schema.fields` describes: it needs a
/// string `name`; a `type` that is absent or no string counts as empty.
pub open spec fn field_of(item: serde_json::Value) -> Option<FieldModel> {
    match text_member(item, "name"@) {
        Some(name) => Some(
            FieldModel { name, declared_type: text_or_empty(text_member(item, "type"@)) },
        ),
        None => None,
    }
}

/// The schema of a response document.
pub open spec fn schema_of(doc: serde_json::Value) -> Result<Seq<FieldModel>, DecodeError> {
    match schema_items(doc) {
        None => Err(DecodeError::MissingSchema),
        Some(items) => if forall|i: int|
            0 <= i < items.len() ==> (#[trigger] field_of(items[i])).is_some() {
            Ok(Seq::new(items.len(), |i: int| field_of(items[i]).unwrap()))
        } else {
            Err(DecodeError::MalformedField)
        },
    }
}

/// The cells of one element of `rows`: the strings under `v` of the
/// elements of its array `f`, each absent where there is no string.
pub open spec fn row_of(item: serde_json::Value) -> Option<Seq<Option<Seq<char>>>> {
    match array_member(item, "f"@) {
        Some(cells) => Some(Seq::new(cells.len(), |i: int| text_member(cells[i], "v"@))),
        None => None,
    }
}

/// The rows of a response document: `None` where it has no array `rows`.
pub open spec fn rows_of(doc: serde_json::Value) -> Option<
    Result<Seq<Seq<Option<Seq<char>>>>, DecodeError>,
> {
    match array_member(doc, "rows"@) {
        None => None,
        Some(items) => if forall|i: int|
            0 <= i < items.len() ==> (#[trigger] row_of(items[i])).is_some() {
            Some(Ok(Seq::new(items.len(), |i: int| row_of(items[i]).unwrap())))
        } else {
            Some(Err(DecodeError::MalformedRow))
        },
    }
}

/// The records of a response document. A document without a schema is an
/// error; one with a schema and no `rows` array holds no records.
pub open spec fn decoded_response(doc: serde_json::Value) -> Result<
    Seq<Seq<EntryModel>>,
    DecodeError,
> {
    match schema_of(doc) {
        Err(e) => Err(e),
        Ok(fields) => match rows_of(doc) {
            None => Ok(Seq::empty()),
            Some(Err(e)) => Err(e),
            Some(Ok(rows)) => decoded_rows(fields, rows),
        },
    }
}

/// The records of a response body.
pub open spec fn decoded_body(body: Seq<char>) -> Result<Seq<Seq<EntryModel>>, DecodeError> {
    match json_parsed(body) {
        None => Err(DecodeError::NotJson),
        Some(doc) => decoded_response(doc),
    }
}

/// Reads the string under `key` of an object.
pub fn read_text_member(doc: &serde_json::Value, key: &str) -> (text: Option<String>)
    ensures
        cell_view(text) == text_member(*doc, key@),
{
    match member(doc, key) {
        None => None,
        Some(found) => match text_of(found) {
            None => None,
            Some(text) => Some(String::from_str(text)),
        },
    }
}

/// Reads the array under `key` of an object.
pub fn read_array_member<'a>(doc: &'a serde_json::Value, key: &str) -> (items: Option<
    &'a Vec<serde_json::Value>,
>)
    ensures
        items.is_some() == array_member(*doc, key@).is_some(),
        items.is_some() ==> items.unwrap()@ == array_member(*doc, key@).unwrap(),
{
    match member(doc, key) {
        None => None,
        Some(found) => elements(found),
    }
}

/// Reads the schema of a response document.
pub fn read_schema(doc: &serde_json::Value) -> (schema: Result<Vec<SchemaField>, DecodeError>)
    ensures
        match schema_of(*doc) {
            Ok(model) => schema matches Ok(fields) && fields_view(fields@) == model,
            Err(e) => schema matches Err(x) && x == e,
        },
{
    let items = match member(doc, "schema") {
        None => { return Err(DecodeError::MissingSchema); },
        Some(schema) => match read_array_member(schema, "fields") {
            None => { return Err(DecodeError::MissingSchema); },
            Some(items) => items,
        },
    };
    let mut fields: Vec<SchemaField> = Vec::new();
    let mut i: usize = 0;
    while i < items.len()
        invariant
            i <= items.len(),
            schema_items(*doc) == Some(items@),
            fields@.len() == i,
            forall|j: int| 0 <= j < i ==> (#[trigger] field_of(items@[j])).is_some(),
            forall|j: int| 0 <= j < i ==> (#[trigger] fields@[j])@ == field_of(items@[j]).unwrap(),
        decreases items.len() - i,
    {
        let item = &items[i];
        match read_text_member(item, "name") {
            None => {
                assert(!field_of(items@[i as int]).is_some());
                return Err(DecodeError::MalformedField);
            },
            Some(name) => {
                let declared_type = match read_text_member(item, "type") {
                    Some(text) => text,
                    None => {
                        let empty = String::new();
                        assert(empty@ =~= Seq::<char>::empty());
                        empty
                    },
                };
                fields.push(SchemaField { name, declared_type });
            },
        }
        i += 1;
    }
    assert(fields_view(fields@) =~= schema_of(*doc).unwrap());
    Ok(fields)
}

/// Reads the cells of one element of `rows`.
pub fn read_row(item: &serde_json::Value) -> (row: Option<Vec<Option<String>>>)
    ensures
        row.is_some() == row_of(*item).is_some(),
        row.is_some() ==> cells_view(row.unwrap()@) == row_of(*item).unwrap(),
{
    let items = match read_array_member(item, "f") {
        None => { return None; },
        Some(items) => items,
    };
    let mut cells: Vec<Option<String>> = Vec::new();
    let mut i: usize = 0;
    while i < items.len()
        invariant
            i <= items.len(),
            cells@.len() == i,
            forall|j: int|
                0 <= j < i ==> cell_view(#[trigger] cells@[j]) == text_member(items@[j], "v"@),
        decreases items.len() - i,
    {
        let cell = read_text_member(&items[i], "v");
        cells.push(cell);
        i += 1;
    }
    assert(cells_view(cells@) =~= row_of(*item).unwrap());
    Some(cells)
}

/// Reads the rows of a response document; `None` where it has no `rows` array.
pub fn read_rows(doc: &serde_json::Value) -> (table: Option<
    Result<Vec<Vec<Option<String>>>, DecodeError>,
>)
    ensures
        match rows_of(*doc) {
            None => table.is_none(),
            Some(Err(e)) => table matches Some(Err(x)) && x == e,
            Some(Ok(model)) => table matches Some(Ok(rows)) && rows_view(rows@) == model,
        },
{
    let items = match read_array_member(doc, "rows") {
        None => { return None; },
        Some(items) => items,
    };
    let mut rows: Vec<Vec<Option<String>>> = Vec::new();
    let mut i: usize = 0;
    while i < items.len()
        invariant
            i <= items.len(),
            array_member(*doc, "rows"@) == Some(items@),
            rows@.len() == i,
            forall|j: int| 0 <= j < i ==> (#[trigger] row_of(items@[j])).is_some(),
            forall|j: int|
                0 <= j < i ==> cells_view((#[trigger] rows@[j])@) == row_of(items@[j]).unwrap(),
        decreases items.len() - i,
    {
        match read_row(&items[i]) {
            None => {
                assert(!row_of(items@[i as int]).is_some());
                return Some(Err(DecodeError::MalformedRow));
            },
            Some(cells) => {
                rows.push(cells);
            },
        }
        i += 1;
    }
    assert(rows_view(rows@) =~= rows_of(*doc).unwrap().unwrap());
    Some(Ok(rows))
}

/// Decodes a response document into records, one per row, in row order.
pub fn decode_response(doc: &serde_json::Value) -> (records: Result<
    Vec<StructuredRecord>,
    DecodeError,
>)
    ensures
        match decoded_response(*doc) {
            Ok(model) => records matches Ok(r) && records_view(r@) == model,
            Err(e) => records matches Err(x) && x == e,
        },
        schema_of(*doc).is_ok() && array_member(*doc, "rows"@).is_none() ==> (records matches Ok(r)
            && r@.len() == 0),
{
    let fields = match read_schema(doc) {
        Err(e) => { return Err(e); },
        Ok(fields) => fields,
    };
    match read_rows(doc) {
        None => {
            let none: Vec<StructuredRecord> = Vec::new();
            assert(records_view(none@) =~= Seq::empty());
            Ok(none)
        },
        Some(Err(e)) => Err(e),
        Some(Ok(rows)) => decode(&fields, &rows),
    }
}

/// Parses a response body and decodes it into records. A body that is no
/// JSON document gives `NotJson` and no records.
pub fn decode_body(body: &str) -> (records: Result<Vec<StructuredRecord>, DecodeError>)
    ensures
        match decoded_body(body@) {
            Ok(model) => records matches Ok(r) && records_view(r@) == model,
            Err(e) => records matches Err(x) && x == e,
        },
        json_parsed(body@).is_none() ==> (records matches Err(x) && x == DecodeError::NotJson),
{
    match parse_document(body) {
        None => Err(DecodeError::NotJson),
        Some(doc) => decode_response(&doc),
    }
}

} // verus!
