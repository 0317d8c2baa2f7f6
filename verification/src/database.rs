//! What a relational store needs from the library: the engine to talk to,
//! the statements that create the tables and insert the records, the values
//! bound to them, and the steps of an atomic batch insert.

pub mod batch;
pub mod mssql;
pub mod postgres;
pub mod values;

use crate::models::LogType;
use crate::text::{
    append_chars, append_str, chars_of, decimal_chars, decimal_text, same_text, texts,
};
use std::str::FromStr;
use vstd::prelude::*;

verus! {

/// The engines that records can be stored in.
#[derive(Debug, Clone, Copy, PartialEq, Eq, Structural)]
pub enum DatabaseType {
    /// PostgreSQL.
    Postgres,
    /// Microsoft SQL Server.
    MsSql,
}

/// The name of PostgreSQL.
pub const POSTGRES_NAME: &'static str = "postgres";

/// The name of Microsoft SQL Server.
pub const MSSQL_NAME: &'static str = "mssql";

/// The table of inbound SMTP sessions, before any prefix.
pub const SMTP_RECEIVE_TABLE: &'static str = "smtp_receive_logs";

/// The table of outbound SMTP sessions, before any prefix.
pub const SMTP_SEND_TABLE: &'static str = "smtp_send_logs";

/// The table of message-tracking events, before any prefix.
pub const MESSAGE_TRACKING_TABLE: &'static str = "message_tracking_logs";

/// A name that stands for no engine.
#[derive(Debug, Clone)]
pub struct UnsupportedDatabase {
    /// The name as it was given.
    pub name: String,
}

/// What the standard library gives as the lowercase equivalent of a text.
pub uninterp spec fn lowercase_of(text: Seq<char>) -> Seq<char>;

/// Calls `str::to_lowercase`.
///
/// Which character lowers to which is Unicode's to say; the contract names
/// the result and claims nothing more of it.
#[verifier::external_body]
fn to_lowercase(text: &str) -> (lower: String)
    ensures
        lower@ == lowercase_of(text@),
{
    text.to_lowercase()
}

/// The engine that a lowercase name stands for.
pub open spec fn engine_named(lower: Seq<char>) -> Option<DatabaseType> {
    if lower == POSTGRES_NAME@ {
        Some(DatabaseType::Postgres)
    } else if lower == MSSQL_NAME@ {
        Some(DatabaseType::MsSql)
    } else {
        None
    }
}

impl DatabaseType {
    /// The engine that a name in lower case stands for: `postgres` or
    /// `mssql`, to the letter.
    pub fn from_lowercase_name(lower: &str) -> (engine: Option<DatabaseType>)
        ensures
            engine == engine_named(lower@),
    {
        let given = chars_of(lower);
        let postgres = chars_of(POSTGRES_NAME);
        let mssql = chars_of(MSSQL_NAME);
        if same_text(given.as_slice(), postgres.as_slice()) {
            Some(DatabaseType::Postgres)
        } else if same_text(given.as_slice(), mssql.as_slice()) {
            Some(DatabaseType::MsSql)
        } else {
            None
        }
    }

    /// The engine that a name stands for, whatever the case of its letters.
    pub fn from_name(name: &str) -> (engine: Option<DatabaseType>)
        ensures
            engine == engine_named(lowercase_of(name@)),
    {
        let lower = to_lowercase(name);
        Self::from_lowercase_name(lower.as_str())
    }

    /// The name of the engine, in lower case.
    pub fn name(&self) -> (name: &'static str)
        ensures
            name@ == match self {
                DatabaseType::Postgres => POSTGRES_NAME@,
                DatabaseType::MsSql => MSSQL_NAME@,
            },
            engine_named(name@) == Some(*self),
    {
        proof {
            reveal_strlit("postgres");
            reveal_strlit("mssql");
            assert(MSSQL_NAME@ == "mssql"@);
            assert(POSTGRES_NAME@ == "postgres"@);
            assert("mssql"@.len() == 5);
            assert("postgres"@.len() == 8);
        }
        match self {
            DatabaseType::Postgres => POSTGRES_NAME,
            DatabaseType::MsSql => MSSQL_NAME,
        }
    }
}

/// The tables of the store, one for each kind of record.
#[derive(Debug, Clone, Copy, PartialEq, Eq, Structural)]
pub enum Table {
    /// Inbound SMTP sessions.
    SmtpReceive,
    /// Outbound SMTP sessions.
    SmtpSend,
    /// Message-tracking events.
    MessageTracking,
}

/// What a column holds.
#[derive(Debug, Clone, Copy, PartialEq, Eq, Structural)]
pub enum ColumnType {
    /// An instant with its offset.
    Timestamp,
    /// A text.
    Text,
    /// A 32-bit integer.
    Integer,
}

/// A column of a table.
#[derive(Debug, Clone, Copy)]
pub struct Column {
    /// The name of the column.
    pub name: &'static str,
    /// What the column holds.
    pub kind: ColumnType,
    /// Whether every row has a value in the column.
    pub required: bool,
    /// Whether the column belongs to the natural key of the table.
    pub key: bool,
}

/// The names of columns, in the columns' order.
pub open spec fn names_of(columns: Seq<Column>) -> Seq<Seq<char>> {
    Seq::new(columns.len(), |i: int| columns[i].name@)
}

/// The texts of string slices, in the slices' order.
pub open spec fn texts_of(words: Seq<&'static str>) -> Seq<Seq<char>> {
    Seq::new(words.len(), |i: int| words[i]@)
}

impl Table {
    /// The name of the table before any prefix.
    pub open spec fn base_name(self) -> Seq<char> {
        match self {
            Table::SmtpReceive => SMTP_RECEIVE_TABLE@,
            Table::SmtpSend => SMTP_SEND_TABLE@,
            Table::MessageTracking => MESSAGE_TRACKING_TABLE@,
        }
    }

    /// The name of the table under a prefix.
    pub open spec fn name_text(self, prefix: Seq<char>) -> Seq<char> {
        prefix + self.base_name()
    }

    /// The columns that an insert fills, in order. The row identity is the
    /// store's own and is not among them.
    pub open spec fn column_seq(self) -> Seq<Column> {
        match self {
            Table::SmtpReceive => seq![
                Column { name: "date_time", kind: ColumnType::Timestamp, required: true, key: true },
                Column { name: "connector_id", kind: ColumnType::Text, required: true, key: false },
                Column { name: "session_id", kind: ColumnType::Text, required: true, key: true },
                Column { name: "sequence_number", kind: ColumnType::Integer, required: true, key: true },
                Column { name: "local_endpoint", kind: ColumnType::Text, required: true, key: false },
                Column { name: "remote_endpoint", kind: ColumnType::Text, required: true, key: false },
                Column { name: "event", kind: ColumnType::Text, required: true, key: false },
                Column { name: "data", kind: ColumnType::Text, required: false, key: false },
                Column { name: "context", kind: ColumnType::Text, required: false, key: false },
                Column { name: "sender", kind: ColumnType::Text, required: false, key: false },
                Column { name: "recipient", kind: ColumnType::Text, required: false, key: false },
                Column { name: "message_id", kind: ColumnType::Text, required: false, key: false },
                Column { name: "subject", kind: ColumnType::Text, required: false, key: false },
                Column { name: "size", kind: ColumnType::Integer, required: false, key: false },
            ],
            Table::SmtpSend => seq![
                Column { name: "date_time", kind: ColumnType::Timestamp, required: true, key: true },
                Column { name: "connector_id", kind: ColumnType::Text, required: true, key: false },
                Column { name: "session_id", kind: ColumnType::Text, required: true, key: true },
                Column { name: "sequence_number", kind: ColumnType::Integer, required: true, key: true },
                Column { name: "local_endpoint", kind: ColumnType::Text, required: true, key: false },
                Column { name: "remote_endpoint", kind: ColumnType::Text, required: true, key: false },
                Column { name: "event", kind: ColumnType::Text, required: true, key: false },
                Column { name: "data", kind: ColumnType::Text, required: false, key: false },
                Column { name: "context", kind: ColumnType::Text, required: false, key: false },
                Column { name: "proxy_session_id", kind: ColumnType::Text, required: false, key: false },
                Column { name: "sender", kind: ColumnType::Text, required: false, key: false },
                Column { name: "recipient", kind: ColumnType::Text, required: false, key: false },
                Column { name: "message_id", kind: ColumnType::Text, required: false, key: false },
                Column { name: "record_id", kind: ColumnType::Text, required: false, key: false },
            ],
            Table::MessageTracking => seq![
                Column { name: "date_time", kind: ColumnType::Timestamp, required: true, key: true },
                Column { name: "client_ip", kind: ColumnType::Text, required: false, key: false },
                Column { name: "client_hostname", kind: ColumnType::Text, required: false, key: false },
                Column { name: "server_ip", kind: ColumnType::Text, required: false, key: false },
                Column { name: "server_hostname", kind: ColumnType::Text, required: true, key: false },
                Column { name: "source_context", kind: ColumnType::Text, required: false, key: false },
                Column { name: "connector_id", kind: ColumnType::Text, required: false, key: false },
                Column { name: "source", kind: ColumnType::Text, required: false, key: false },
                Column { name: "event_id", kind: ColumnType::Text, required: true, key: true },
                Column { name: "internal_message_id", kind: ColumnType::Text, required: true, key: true },
                Column { name: "message_id", kind: ColumnType::Text, required: true, key: false },
                Column { name: "network_message_id", kind: ColumnType::Text, required: true, key: false },
                Column { name: "recipient_address", kind: ColumnType::Text, required: true, key: true },
                Column { name: "recipient_status", kind: ColumnType::Text, required: false, key: false },
                Column { name: "total_bytes", kind: ColumnType::Integer, required: false, key: false },
                Column { name: "recipient_count", kind: ColumnType::Integer, required: true, key: false },
                Column { name: "related_recipient_address", kind: ColumnType::Text, required: false, key: false },
                Column { name: "reference", kind: ColumnType::Text, required: false, key: false },
                Column { name: "message_subject", kind: ColumnType::Text, required: false, key: false },
                Column { name: "sender_address", kind: ColumnType::Text, required: true, key: false },
                Column { name: "return_path", kind: ColumnType::Text, required: false, key: false },
                Column { name: "message_info", kind: ColumnType::Text, required: false, key: false },
                Column { name: "directionality", kind: ColumnType::Text, required: false, key: false },
                Column { name: "tenant_id", kind: ColumnType::Text, required: false, key: false },
                Column { name: "original_client_ip", kind: ColumnType::Text, required: false, key: false },
                Column { name: "original_server_ip", kind: ColumnType::Text, required: false, key: false },
                Column { name: "custom_data", kind: ColumnType::Text, required: false, key: false },
                Column { name: "transport_traffic_type", kind: ColumnType::Text, required: false, key: false },
                Column { name: "log_id", kind: ColumnType::Text, required: false, key: false },
                Column { name: "schema_version", kind: ColumnType::Text, required: false, key: false },
            ],
        }
    }

    /// The columns of the natural key, in the order of the unique index.
    pub open spec fn key_seq(self) -> Seq<&'static str> {
        match self {
            Table::SmtpReceive => seq![
                "date_time",
                "session_id",
                "sequence_number",
            ],
            Table::SmtpSend => seq![
                "date_time",
                "session_id",
                "sequence_number",
            ],
            Table::MessageTracking => seq![
                "date_time",
                "internal_message_id",
                "recipient_address",
                "event_id",
            ],
        }
    }

    /// The table that holds the records of a kind; none for the unknown
    /// kind.
    pub fn of_kind(kind: LogType) -> (table: Option<Table>)
        ensures
            table == match kind {
                LogType::SmtpReceive => Some(Table::SmtpReceive),
                LogType::SmtpSend => Some(Table::SmtpSend),
                LogType::MessageTracking => Some(Table::MessageTracking),
                LogType::Unknown => None,
            },
    {
        match kind {
            LogType::SmtpReceive => Some(Table::SmtpReceive),
            LogType::SmtpSend => Some(Table::SmtpSend),
            LogType::MessageTracking => Some(Table::MessageTracking),
            LogType::Unknown => None,
        }
    }

    /// The name of the table under a prefix.
    pub fn name(&self, prefix: &str) -> (name: Vec<char>)
        ensures
            name@ == self.name_text(prefix@),
    {
        let mut name = chars_of(prefix);
        match self {
            Table::SmtpReceive => append_str(&mut name, SMTP_RECEIVE_TABLE),
            Table::SmtpSend => append_str(&mut name, SMTP_SEND_TABLE),
            Table::MessageTracking => append_str(&mut name, MESSAGE_TRACKING_TABLE),
        }
        name
    }

    /// The columns that an insert fills, in order.
    pub fn columns(&self) -> (columns: Vec<Column>)
        ensures
            columns@ == self.column_seq(),
    {
        let columns = match self {
            Table::SmtpReceive => vec![
                Column { name: "date_time", kind: ColumnType::Timestamp, required: true, key: true },
                Column { name: "connector_id", kind: ColumnType::Text, required: true, key: false },
                Column { name: "session_id", kind: ColumnType::Text, required: true, key: true },
                Column { name: "sequence_number", kind: ColumnType::Integer, required: true, key: true },
                Column { name: "local_endpoint", kind: ColumnType::Text, required: true, key: false },
                Column { name: "remote_endpoint", kind: ColumnType::Text, required: true, key: false },
                Column { name: "event", kind: ColumnType::Text, required: true, key: false },
                Column { name: "data", kind: ColumnType::Text, required: false, key: false },
                Column { name: "context", kind: ColumnType::Text, required: false, key: false },
                Column { name: "sender", kind: ColumnType::Text, required: false, key: false },
                Column { name: "recipient", kind: ColumnType::Text, required: false, key: false },
                Column { name: "message_id", kind: ColumnType::Text, required: false, key: false },
                Column { name: "subject", kind: ColumnType::Text, required: false, key: false },
                Column { name: "size", kind: ColumnType::Integer, required: false, key: false },
            ],
            Table::SmtpSend => vec![
                Column { name: "date_time", kind: ColumnType::Timestamp, required: true, key: true },
                Column { name: "connector_id", kind: ColumnType::Text, required: true, key: false },
                Column { name: "session_id", kind: ColumnType::Text, required: true, key: true },
                Column { name: "sequence_number", kind: ColumnType::Integer, required: true, key: true },
                Column { name: "local_endpoint", kind: ColumnType::Text, required: true, key: false },
                Column { name: "remote_endpoint", kind: ColumnType::Text, required: true, key: false },
                Column { name: "event", kind: ColumnType::Text, required: true, key: false },
                Column { name: "data", kind: ColumnType::Text, required: false, key: false },
                Column { name: "context", kind: ColumnType::Text, required: false, key: false },
                Column { name: "proxy_session_id", kind: ColumnType::Text, required: false, key: false },
                Column { name: "sender", kind: ColumnType::Text, required: false, key: false },
                Column { name: "recipient", kind: ColumnType::Text, required: false, key: false },
                Column { name: "message_id", kind: ColumnType::Text, required: false, key: false },
                Column { name: "record_id", kind: ColumnType::Text, required: false, key: false },
            ],
            Table::MessageTracking => vec![
                Column { name: "date_time", kind: ColumnType::Timestamp, required: true, key: true },
                Column { name: "client_ip", kind: ColumnType::Text, required: false, key: false },
                Column { name: "client_hostname", kind: ColumnType::Text, required: false, key: false },
                Column { name: "server_ip", kind: ColumnType::Text, required: false, key: false },
                Column { name: "server_hostname", kind: ColumnType::Text, required: true, key: false },
                Column { name: "source_context", kind: ColumnType::Text, required: false, key: false },
                Column { name: "connector_id", kind: ColumnType::Text, required: false, key: false },
                Column { name: "source", kind: ColumnType::Text, required: false, key: false },
                Column { name: "event_id", kind: ColumnType::Text, required: true, key: true },
                Column { name: "internal_message_id", kind: ColumnType::Text, required: true, key: true },
                Column { name: "message_id", kind: ColumnType::Text, required: true, key: false },
                Column { name: "network_message_id", kind: ColumnType::Text, required: true, key: false },
                Column { name: "recipient_address", kind: ColumnType::Text, required: true, key: true },
                Column { name: "recipient_status", kind: ColumnType::Text, required: false, key: false },
                Column { name: "total_bytes", kind: ColumnType::Integer, required: false, key: false },
                Column { name: "recipient_count", kind: ColumnType::Integer, required: true, key: false },
                Column { name: "related_recipient_address", kind: ColumnType::Text, required: false, key: false },
                Column { name: "reference", kind: ColumnType::Text, required: false, key: false },
                Column { name: "message_subject", kind: ColumnType::Text, required: false, key: false },
                Column { name: "sender_address", kind: ColumnType::Text, required: true, key: false },
                Column { name: "return_path", kind: ColumnType::Text, required: false, key: false },
                Column { name: "message_info", kind: ColumnType::Text, required: false, key: false },
                Column { name: "directionality", kind: ColumnType::Text, required: false, key: false },
                Column { name: "tenant_id", kind: ColumnType::Text, required: false, key: false },
                Column { name: "original_client_ip", kind: ColumnType::Text, required: false, key: false },
                Column { name: "original_server_ip", kind: ColumnType::Text, required: false, key: false },
                Column { name: "custom_data", kind: ColumnType::Text, required: false, key: false },
                Column { name: "transport_traffic_type", kind: ColumnType::Text, required: false, key: false },
                Column { name: "log_id", kind: ColumnType::Text, required: false, key: false },
                Column { name: "schema_version", kind: ColumnType::Text, required: false, key: false },
            ],
        };
        assert(columns@ =~= self.column_seq());
        columns
    }

    /// The columns of the natural key, in the order of the unique index.
    pub fn key_columns(&self) -> (names: Vec<&'static str>)
        ensures
            names@ == self.key_seq(),
    {
        let names = match self {
            Table::SmtpReceive => vec![
                "date_time",
                "session_id",
                "sequence_number",
            ],
            Table::SmtpSend => vec![
                "date_time",
                "session_id",
                "sequence_number",
            ],
            Table::MessageTracking => vec![
                "date_time",
                "internal_message_id",
                "recipient_address",
                "event_id",
            ],
        };
        assert(names@ =~= self.key_seq());
        names
    }

    /// How many columns an insert fills.
    pub fn column_count(&self) -> (count: usize)
        ensures
            count == self.column_seq().len(),
    {
        match self {
            Table::SmtpReceive => 14,
            Table::SmtpSend => 14,
            Table::MessageTracking => 30,
        }
    }
}

/// The names of columns, each as a vector of characters.
pub fn column_names(columns: &Vec<Column>) -> (names: Vec<Vec<char>>)
    ensures
        texts(names@) == names_of(columns@),
{
    let mut names: Vec<Vec<char>> = Vec::new();
    let mut i: usize = 0;
    while i < columns.len()
        invariant
            i <= columns.len(),
            names@.len() == i,
            forall|k: int| 0 <= k < i ==> #[trigger] names@[k]@ == columns@[k].name@,
        decreases columns.len() - i,
    {
        names.push(chars_of(columns[i].name));
        i += 1;
    }
    assert(texts(names@) =~= names_of(columns@));
    names
}

/// The given words, each as a vector of characters.
pub fn word_chars(words: &Vec<&'static str>) -> (chars: Vec<Vec<char>>)
    ensures
        texts(chars@) == texts_of(words@),
{
    let mut chars: Vec<Vec<char>> = Vec::new();
    let mut i: usize = 0;
    while i < words.len()
        invariant
            i <= words.len(),
            chars@.len() == i,
            forall|k: int| 0 <= k < i ==> #[trigger] chars@[k]@ == words@[k]@,
        decreases words.len() - i,
    {
        chars.push(chars_of(words[i]));
        i += 1;
    }
    assert(texts(chars@) =~= texts_of(words@));
    chars
}

/// The placeholders of a statement with `count` parameters: the mark of the
/// engine followed by the number of the parameter, counted from one, with a
/// comma and a space between every two.
pub open spec fn placeholder_texts(mark: Seq<char>, count: nat) -> Seq<Seq<char>> {
    Seq::new(count, |i: int| mark + decimal_text((i + 1) as nat))
}

/// The placeholders of a statement with `count` parameters.
pub fn placeholders(mark: &str, count: usize) -> (list: Vec<Vec<char>>)
    requires
        count < usize::MAX,
    ensures
        texts(list@) == placeholder_texts(mark@, count as nat),
{
    let mut list: Vec<Vec<char>> = Vec::new();
    let mut i: usize = 0;
    while i < count
        invariant
            i <= count < usize::MAX,
            list@.len() == i,
            forall|k: int|
                0 <= k < i ==> #[trigger] list@[k]@ == mark@ + decimal_text((k + 1) as nat),
        decreases count - i,
    {
        let mut one = chars_of(mark);
        let number = decimal_chars(i + 1);
        append_chars(&mut one, number.as_slice());
        list.push(one);
        i += 1;
    }
    assert(texts(list@) =~= placeholder_texts(mark@, count as nat));
    list
}

impl DatabaseType {
    /// The statement that creates a table and its unique index in the
    /// dialect of the engine.
    pub open spec fn create_text(self, table: Table, prefix: Seq<char>) -> Seq<char> {
        match self {
            DatabaseType::Postgres => postgres::create_text(table, prefix),
            DatabaseType::MsSql => mssql::create_text(table, prefix),
        }
    }

    /// The statement that inserts one record in the dialect of the engine.
    pub open spec fn insert_text(self, table: Table, prefix: Seq<char>) -> Seq<char> {
        match self {
            DatabaseType::Postgres => postgres::insert_text(table, prefix),
            DatabaseType::MsSql => mssql::insert_text(table, prefix),
        }
    }

    /// Writes the statement that creates a table and the unique index over
    /// its natural key, each only where it is not there yet.
    pub fn create_statement(&self, table: Table, prefix: &str) -> (statement: String)
        ensures
            statement@ == self.create_text(table, prefix@),
    {
        match self {
            DatabaseType::Postgres => postgres::create_statement(table, prefix),
            DatabaseType::MsSql => mssql::create_statement(table, prefix),
        }
    }

    /// Writes the statement that inserts one record of a table.
    pub fn insert_statement(&self, table: Table, prefix: &str) -> (statement: String)
        ensures
            statement@ == self.insert_text(table, prefix@),
    {
        match self {
            DatabaseType::Postgres => postgres::insert_statement(table, prefix),
            DatabaseType::MsSql => mssql::insert_statement(table, prefix),
        }
    }
}

impl FromStr for DatabaseType {
    type Err = UnsupportedDatabase;

    fn from_str(name: &str) -> (engine: Result<DatabaseType, UnsupportedDatabase>)
        ensures
            match engine {
                Ok(found) => engine_named(lowercase_of(name@)) == Some(found),
                Err(refused) => engine_named(lowercase_of(name@)).is_none() && refused.name@
                    == name@,
            },
    {
        match DatabaseType::from_name(name) {
            Some(engine) => Ok(engine),
            None => Err(UnsupportedDatabase { name: name.to_owned() }),
        }
    }
}

} // verus!
