//! The statements of the store in the dialect of PostgreSQL.

use crate::database::{
    column_names, names_of, placeholder_texts, placeholders, texts_of, word_chars, Column,
    ColumnType, Table,
};
use crate::text::{append_chars, append_str, join, joined, string_of, texts};
use vstd::prelude::*;

verus! {

/// The mark that opens a placeholder.
pub const PLACEHOLDER_MARK: &'static str = "$";

/// What ends the name of the unique index of a table.
pub const INDEX_SUFFIX: &'static str = "_unique_idx";

/// The type of a column.
pub open spec fn type_text(kind: ColumnType) -> Seq<char> {
    match kind {
        ColumnType::Timestamp => "TIMESTAMPTZ"@,
        ColumnType::Text => "TEXT"@,
        ColumnType::Integer => "INTEGER"@,
    }
}

/// The definition of a column: its name, its type, and `NOT NULL` where
/// every row has a value in it.
pub open spec fn definition_text(column: Column) -> Seq<char> {
    column.name@ + " "@ + type_text(column.kind) + if column.required {
        " NOT NULL"@
    } else {
        ""@
    }
}

/// The definitions of columns, in the columns' order.
pub open spec fn definition_texts(columns: Seq<Column>) -> Seq<Seq<char>> {
    Seq::new(columns.len(), |i: int| definition_text(columns[i]))
}

/// The statements that create a table and the unique index over its natural
/// key, each only where it is not there yet. The prefix opens the name of the
/// table and that of the index alike.
pub open spec fn create_text(table: Table, prefix: Seq<char>) -> Seq<char> {
    let name = table.name_text(prefix);
    "CREATE TABLE IF NOT EXISTS "@ + name + " (id SERIAL PRIMARY KEY, "@ + joined(
        definition_texts(table.column_seq()),
        ", "@,
    ) + "); CREATE UNIQUE INDEX IF NOT EXISTS "@ + name + INDEX_SUFFIX@ + " ON "@ + name + " ("@
        + joined(texts_of(table.key_seq()), ", "@) + ");"@
}

/// The statement that inserts one record, and does nothing where a record
/// with the same natural key is stored already.
pub open spec fn insert_text(table: Table, prefix: Seq<char>) -> Seq<char> {
    "INSERT INTO "@ + table.name_text(prefix) + " ("@ + joined(
        names_of(table.column_seq()),
        ", "@,
    ) + ") VALUES ("@ + joined(
        placeholder_texts(PLACEHOLDER_MARK@, table.column_seq().len()),
        ", "@,
    ) + ") ON CONFLICT ("@ + joined(texts_of(table.key_seq()), ", "@) + ") DO NOTHING"@
}

/// Writes the definition of a column.
fn definition(column: &Column) -> (text: Vec<char>)
    ensures
        text@ == definition_text(*column),
{
    let mut text: Vec<char> = Vec::new();
    append_str(&mut text, column.name);
    append_str(&mut text, " ");
    match column.kind {
        ColumnType::Timestamp => append_str(&mut text, "TIMESTAMPTZ"),
        ColumnType::Text => append_str(&mut text, "TEXT"),
        ColumnType::Integer => append_str(&mut text, "INTEGER"),
    }
    if column.required {
        append_str(&mut text, " NOT NULL");
    } else {
        append_str(&mut text, "");
    }
    text
}

/// Writes the definitions of columns.
fn definitions(columns: &Vec<Column>) -> (list: Vec<Vec<char>>)
    ensures
        texts(list@) == definition_texts(columns@),
{
    let mut list: Vec<Vec<char>> = Vec::new();
    let mut i: usize = 0;
    while i < columns.len()
        invariant
            i <= columns.len(),
            list@.len() == i,
            forall|k: int| 0 <= k < i ==> #[trigger] list@[k]@ == definition_text(columns@[k]),
        decreases columns.len() - i,
    {
        list.push(definition(&columns[i]));
        i += 1;
    }
    assert(texts(list@) =~= definition_texts(columns@));
    list
}

/// Writes the statements that create a table and its unique index.
pub fn create_statement(table: Table, prefix: &str) -> (statement: String)
    ensures
        statement@ == create_text(table, prefix@),
{
    let name = table.name(prefix);
    let columns = table.columns();
    let keys = word_chars(&table.key_columns());
    let mut text: Vec<char> = Vec::new();
    append_str(&mut text, "CREATE TABLE IF NOT EXISTS ");
    append_chars(&mut text, name.as_slice());
    append_str(&mut text, " (id SERIAL PRIMARY KEY, ");
    append_chars(&mut text, join(&definitions(&columns), ", ").as_slice());
    append_str(&mut text, "); CREATE UNIQUE INDEX IF NOT EXISTS ");
    append_chars(&mut text, name.as_slice());
    append_str(&mut text, INDEX_SUFFIX);
    append_str(&mut text, " ON ");
    append_chars(&mut text, name.as_slice());
    append_str(&mut text, " (");
    append_chars(&mut text, join(&keys, ", ").as_slice());
    append_str(&mut text, ");");
    string_of(text.as_slice())
}

/// Writes the statement that inserts one record.
pub fn insert_statement(table: Table, prefix: &str) -> (statement: String)
    ensures
        statement@ == insert_text(table, prefix@),
{
    let name = table.name(prefix);
    let columns = table.columns();
    let keys = word_chars(&table.key_columns());
    let marks = placeholders(PLACEHOLDER_MARK, columns.len());
    let mut text: Vec<char> = Vec::new();
    append_str(&mut text, "INSERT INTO ");
    append_chars(&mut text, name.as_slice());
    append_str(&mut text, " (");
    append_chars(&mut text, join(&column_names(&columns), ", ").as_slice());
    append_str(&mut text, ") VALUES (");
    append_chars(&mut text, join(&marks, ", ").as_slice());
    append_str(&mut text, ") ON CONFLICT (");
    append_chars(&mut text, join(&keys, ", ").as_slice());
    append_str(&mut text, ") DO NOTHING");
    string_of(text.as_slice())
}

} // verus!
