//! The text of the statements that are sent to the warehouse.

use vstd::prelude::*;
use vstd::string::StringExecFns;
use crate::decimal::{decimal_text, render_integer};

verus! {

/// One row of the table of rising terms, as the insert endpoint takes it.
#[derive(Clone, Debug, PartialEq, Eq)]
pub struct TopRisingTerm {
    pub refresh_date: String,
    pub dma_name: String,
    pub dma_id: i64,
    pub term: String,
    pub week: String,
    pub score: i64,
    pub rank: i64,
    pub percent_gain: i64,
}

/// `project.table`, the name by which a statement addresses the table.
pub open spec fn table_path(project: Seq<char>, table: Seq<char>) -> Seq<char> {
    project + "."@ + table
}

/// The select statement for a filter clause.
pub open spec fn select_text(project: Seq<char>, table: Seq<char>, condition: Seq<char>) -> Seq<char> {
    "SELECT * FROM "@ + table_path(project, table) + " where "@ + condition
}

/// A text value between single quotes.
pub open spec fn quoted(text: Seq<char>) -> Seq<char> {
    "'"@ + text + "'"@
}

/// The insert statement for one row: the columns in their fixed order,
/// text values between single quotes, integers in decimal.
pub open spec fn insert_text(project: Seq<char>, table: Seq<char>, row: TopRisingTerm) -> Seq<char> {
    "INSERT INTO "@ + table_path(project, table)
        + " (refresh_date, dma_name, dma_id, term, week, score, rank, percent_gain) VALUES ("@
        + quoted(row.refresh_date@) + ", "@ + quoted(row.dma_name@) + ", "@ + decimal_text(
        row.dma_id,
    ) + ", "@ + quoted(row.term@) + ", "@ + quoted(row.week@) + ", "@ + decimal_text(row.score)
        + ", "@ + decimal_text(row.rank) + ", "@ + decimal_text(row.percent_gain) + ")"@
}

/// Appends a text value between single quotes.
fn append_quoted(text: String, value: &str) -> (longer: String)
    ensures
        longer@ == text@ + quoted(value@),
{
    let longer = text.concat("'").concat(value).concat("'");
    assert(longer@ =~= text@ + quoted(value@));
    longer
}

/// Builds the select statement for a filter clause.
pub fn select_statement(project: &str, table: &str, condition: &str) -> (statement: String)
    ensures
        statement@ == select_text(project@, table@, condition@),
{
    let statement = String::from_str("SELECT * FROM ").concat(project).concat(".").concat(
        table,
    ).concat(" where ").concat(condition);
    assert(statement@ =~= select_text(project@, table@, condition@));
    statement
}

/// Builds the insert statement for one row.
pub fn insert_statement(project: &str, table: &str, row: &TopRisingTerm) -> (statement: String)
    ensures
        statement@ == insert_text(project@, table@, *row),
{
    let head = String::from_str("INSERT INTO ").concat(project).concat(".").concat(table).concat(
        " (refresh_date, dma_name, dma_id, term, week, score, rank, percent_gain) VALUES (",
    );
    assert(head@ =~= "INSERT INTO "@ + table_path(project@, table@)
        + " (refresh_date, dma_name, dma_id, term, week, score, rank, percent_gain) VALUES ("@);
    let s1 = append_quoted(head, row.refresh_date.as_str()).concat(", ");
    let s2 = append_quoted(s1, row.dma_name.as_str()).concat(", ");
    let s3 = s2.concat(render_integer(row.dma_id).as_str()).concat(", ");
    let s4 = append_quoted(s3, row.term.as_str()).concat(", ");
    let s5 = append_quoted(s4, row.week.as_str()).concat(", ");
    let s6 = s5.concat(render_integer(row.score).as_str()).concat(", ");
    let s7 = s6.concat(render_integer(row.rank).as_str()).concat(", ");
    let statement = s7.concat(render_integer(row.percent_gain).as_str()).concat(")");
    assert(statement@ =~= insert_text(project@, table@, *row));
    statement
}

} // verus!
