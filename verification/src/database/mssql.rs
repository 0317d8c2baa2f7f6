//! The statements of the store in the dialect of Microsoft SQL Server.

use crate::database::{
    column_names, names_of, placeholder_texts, placeholders, Column, ColumnType, Table,
};
use crate::text::{append_chars, append_str, join, joined, string_of, texts};
use vstd::prelude::*;

verus! {

/// The mark that opens a placeholder.
pub const PLACEHOLDER_MARK: &'static str = "@P";

/// The type of a column. A text of the natural key is bounded in length, as
/// an index over it asks.
pub open spec fn type_text(column: Column) -> Seq<char> {
    match column.kind {
        ColumnType::Timestamp => "[datetimeoffset](7)"@,
        ColumnType::Text => if column.key {
            "[nvarchar](450)"@
        } else {
            "[nvarchar](max)"@
        },
        ColumnType::Integer => "[int]"@,
    }
}

/// The definition of a column: its name in brackets, its type, and
/// whether a row may lack a value in it.
pub open spec fn definition_text(column: Column) -> Seq<char> {
    "["@ + column.name@ + "] "@ + type_text(column) + if column.required {
        " NOT NULL"@
    } else {
        " NULL"@
    }
}

/// The definitions of columns, in the columns' order.
pub open spec fn definition_texts(columns: Seq<Column>) -> Seq<Seq<char>> {
    Seq::new(columns.len(), |i: int| definition_text(columns[i]))
}

/// A column of the unique index: its name in brackets, ascending.
pub open spec fn key_part_text(name: Seq<char>) -> Seq<char> {
    "["@ + name + "] ASC"@
}

/// The columns of the unique index, in the index's order.
pub open spec fn key_part_texts(names: Seq<&'static str>) -> Seq<Seq<char>> {
    Seq::new(names.len(), |i: int| key_part_text(names[i]@))
}

/// The name of the unique index of a table: the name of the table, prefix
/// and all, between `IX_` and `_unique`.
pub open spec fn index_name_text(table: Table, prefix: Seq<char>) -> Seq<char> {
    "IX_"@ + table.name_text(prefix) + "_unique"@
}

/// The statement that creates a table where it is not there yet.
pub open spec fn create_table_text(table: Table, prefix: Seq<char>) -> Seq<char> {
    let name = table.name_text(prefix);
    "IF NOT EXISTS (SELECT * FROM sys.objects WHERE object_id = OBJECT_ID(N'[dbo].["@ + name
        + "]') AND type in (N'U')) BEGIN CREATE TABLE [dbo].["@ + name
        + "] ([id] [int] IDENTITY(1,1) PRIMARY KEY, "@ + joined(
        definition_texts(table.column_seq()),
        ", "@,
    ) + ") END"@
}

/// The statement that creates the unique index over the natural key of a
/// table where the table has no index of that name yet. The index passes
/// over a row whose key is stored already, so that inserting it is no error
/// and counts no row.
pub open spec fn create_index_text(table: Table, prefix: Seq<char>) -> Seq<char> {
    let name = table.name_text(prefix);
    let index = index_name_text(table, prefix);
    "IF NOT EXISTS (SELECT * FROM sys.indexes WHERE name = N'"@ + index
        + "' AND object_id = OBJECT_ID(N'[dbo].["@ + name
        + "]')) BEGIN CREATE UNIQUE NONCLUSTERED INDEX ["@ + index + "] ON [dbo].["@ + name
        + "] ("@ + joined(key_part_texts(table.key_seq()), ", "@)
        + ") WITH (IGNORE_DUP_KEY = ON) END"@
}

/// The statements that create a table and the unique index over its natural
/// key, each under a test of its own: the table where it is not there yet,
/// the index where the table has none of that name yet. The prefix opens the
/// name of the table and stands in that of the index alike.
pub open spec fn create_text(table: Table, prefix: Seq<char>) -> Seq<char> {
    create_table_text(table, prefix) + "; "@ + create_index_text(table, prefix)
}

/// The statement that inserts one record.
pub open spec fn insert_text(table: Table, prefix: Seq<char>) -> Seq<char> {
    "INSERT INTO [dbo].["@ + table.name_text(prefix) + "] ("@ + joined(
        names_of(table.column_seq()),
        ", "@,
    ) + ") VALUES ("@ + joined(
        placeholder_texts(PLACEHOLDER_MARK@, table.column_seq().len()),
        ", "@,
    ) + ")"@
}

/// Writes the definition of a column.
fn definition(column: &Column) -> (text: Vec<char>)
    ensures
        text@ == definition_text(*column),
{
    let mut text: Vec<char> = Vec::new();
    append_str(&mut text, "[");
    append_str(&mut text, column.name);
    append_str(&mut text, "] ");
    match column.kind {
        ColumnType::Timestamp => append_str(&mut text, "[datetimeoffset](7)"),
        ColumnType::Text => {
            if column.key {
                append_str(&mut text, "[nvarchar](450)")
            } else {
                append_str(&mut text, "[nvarchar](max)")
            }
        },
        ColumnType::Integer => append_str(&mut text, "[int]"),
    }
    if column.required {
        append_str(&mut text, " NOT NULL");
    } else {
        append_str(&mut text, " NULL");
    }
    text
}

/// Writes the definitions of columns.
fn definitions(columns: &Vec<Column>) -> (list: Vec<Vec<char>>)
    ensures
        texts(list@) == definition_texts(columns@),
{
    let mut list: Vec<Vec<char>> = Vec::new();
    let mut i: usize = 0;
    while i < columns.len()
        invariant
            i <= columns.len(),
            list@.len() == i,
            forall|k: int| 0 <= k < i ==> #[trigger] list@[k]@ == definition_text(columns@[k]),
        decreases columns.len() - i,
    {
        list.push(definition(&columns[i]));
        i += 1;
    }
    assert(texts(list@) =~= definition_texts(columns@));
    list
}

/// Writes the columns of the unique index.
fn key_parts(names: &Vec<&'static str>) -> (list: Vec<Vec<char>>)
    ensures
        texts(list@) == key_part_texts(names@),
{
    let mut list: Vec<Vec<char>> = Vec::new();
    let mut i: usize = 0;
    while i < names.len()
        invariant
            i <= names.len(),
            list@.len() == i,
            forall|k: int| 0 <= k < i ==> #[trigger] list@[k]@ == key_part_text(names@[k]@),
        decreases names.len() - i,
    {
        let mut part: Vec<char> = Vec::new();
        append_str(&mut part, "[");
        append_str(&mut part, names[i]);
        append_str(&mut part, "] ASC");
        list.push(part);
        i += 1;
    }
    assert(texts(list@) =~= key_part_texts(names@));
    list
}

/// Writes the statement that creates a table where it is not there yet.
fn create_table_chars(table: Table, prefix: &str) -> (text: Vec<char>)
    ensures
        text@ == create_table_text(table, prefix@),
{
    let name = table.name(prefix);
    let columns = table.columns();
    let mut text: Vec<char> = Vec::new();
    append_str(
        &mut text,
        "IF NOT EXISTS (SELECT * FROM sys.objects WHERE object_id = OBJECT_ID(N'[dbo].[",
    );
    append_chars(&mut text, name.as_slice());
    append_str(&mut text, "]') AND type in (N'U')) BEGIN CREATE TABLE [dbo].[");
    append_chars(&mut text, name.as_slice());
    append_str(&mut text, "] ([id] [int] IDENTITY(1,1) PRIMARY KEY, ");
    append_chars(&mut text, join(&definitions(&columns), ", ").as_slice());
    append_str(&mut text, ") END");
    text
}

/// Writes the statement that creates the unique index of a table where the
/// table has none of that name yet.
fn create_index_chars(table: Table, prefix: &str) -> (text: Vec<char>)
    ensures
        text@ == create_index_text(table, prefix@),
{
    let name = table.name(prefix);
    let keys = key_parts(&table.key_columns());
    let mut index: Vec<char> = Vec::new();
    append_str(&mut index, "IX_");
    append_chars(&mut index, name.as_slice());
    append_str(&mut index, "_unique");
    let mut text: Vec<char> = Vec::new();
    append_str(&mut text, "IF NOT EXISTS (SELECT * FROM sys.indexes WHERE name = N'");
    append_chars(&mut text, index.as_slice());
    append_str(&mut text, "' AND object_id = OBJECT_ID(N'[dbo].[");
    append_chars(&mut text, name.as_slice());
    append_str(&mut text, "]')) BEGIN CREATE UNIQUE NONCLUSTERED INDEX [");
    append_chars(&mut text, index.as_slice());
    append_str(&mut text, "] ON [dbo].[");
    append_chars(&mut text, name.as_slice());
    append_str(&mut text, "] (");
    append_chars(&mut text, join(&keys, ", ").as_slice());
    append_str(&mut text, ") WITH (IGNORE_DUP_KEY = ON) END");
    text
}

/// Writes the statements that create a table and its unique index, each
/// under a test of its own.
pub fn create_statement(table: Table, prefix: &str) -> (statement: String)
    ensures
        statement@ == create_text(table, prefix@),
{
    let mut text = create_table_chars(table, prefix);
    append_str(&mut text, "; ");
    append_chars(&mut text, create_index_chars(table, prefix).as_slice());
    string_of(text.as_slice())
}

/// Writes the statement that inserts one record.
pub fn insert_statement(table: Table, prefix: &str) -> (statement: String)
    ensures
        statement@ == insert_text(table, prefix@),
{
    let name = table.name(prefix);
    let columns = table.columns();
    let marks = placeholders(PLACEHOLDER_MARK, columns.len());
    let mut text: Vec<char> = Vec::new();
    append_str(&mut text, "INSERT INTO [dbo].[");
    append_chars(&mut text, name.as_slice());
    append_str(&mut text, "] (");
    append_chars(&mut text, join(&column_names(&columns), ", ").as_slice());
    append_str(&mut text, ") VALUES (");
    append_chars(&mut text, join(&marks, ", ").as_slice());
    append_str(&mut text, ")");
    string_of(text.as_slice())
}

} // verus!
