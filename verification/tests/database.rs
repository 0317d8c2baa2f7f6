use exchange_logs::database::batch::{BatchAction, BatchEvent, InsertBatch};
use exchange_logs::database::{mssql, postgres, DatabaseType, Table};
use exchange_logs::models::{LogType, PgDateTime};
use std::str::FromStr;

#[test]
fn engines_by_name() {
    assert_eq!(DatabaseType::from_name("postgres"), Some(DatabaseType::Postgres));
    assert_eq!(DatabaseType::from_name("MsSql"), Some(DatabaseType::MsSql));
    assert_eq!(DatabaseType::from_name("POSTGRES"), Some(DatabaseType::Postgres));
    assert_eq!(DatabaseType::from_name("oracle"), None);
    assert_eq!(DatabaseType::from_name(""), None);
    assert_eq!(DatabaseType::from_lowercase_name("mssql"), Some(DatabaseType::MsSql));
    assert_eq!(DatabaseType::from_lowercase_name("MSSQL"), None);
    assert_eq!(DatabaseType::Postgres.name(), "postgres");
    assert_eq!(DatabaseType::MsSql.name(), "mssql");
}

#[test]
fn engines_from_str() {
    assert_eq!(DatabaseType::from_str("Postgres").ok(), Some(DatabaseType::Postgres));
    assert_eq!(DatabaseType::from_str("mssql").ok(), Some(DatabaseType::MsSql));
    let refused = DatabaseType::from_str("sqlite").unwrap_err();
    assert_eq!(refused.name, "sqlite");
}

#[test]
fn tables_by_kind() {
    assert_eq!(Table::of_kind(LogType::SmtpReceive), Some(Table::SmtpReceive));
    assert_eq!(Table::of_kind(LogType::SmtpSend), Some(Table::SmtpSend));
    assert_eq!(Table::of_kind(LogType::MessageTracking), Some(Table::MessageTracking));
    assert_eq!(Table::of_kind(LogType::Unknown), None);
    assert_eq!(Table::SmtpReceive.column_count(), Table::SmtpReceive.columns().len());
    assert_eq!(Table::SmtpSend.column_count(), Table::SmtpSend.columns().len());
    assert_eq!(Table::MessageTracking.column_count(), Table::MessageTracking.columns().len());
    let name: String = Table::SmtpSend.name("pre_").into_iter().collect();
    assert_eq!(name, "pre_smtp_send_logs");
    assert_eq!(
        Table::MessageTracking.key_columns(),
        vec!["date_time", "internal_message_id", "recipient_address", "event_id"]
    );
}

#[test]
fn postgres_insert_statement() {
    assert_eq!(
        postgres::insert_statement(Table::SmtpReceive, "x_"),
        "INSERT INTO x_smtp_receive_logs (date_time, connector_id, session_id, sequence_number, local_endpoint, remote_endpoint, event, data, context, sender, recipient, message_id, subject, size) VALUES ($1, $2, $3, $4, $5, $6, $7, $8, $9, $10, $11, $12, $13, $14) ON CONFLICT (date_time, session_id, sequence_number) DO NOTHING"
    );
    let tracking = postgres::insert_statement(Table::MessageTracking, "");
    assert!(tracking.starts_with("INSERT INTO message_tracking_logs (date_time, client_ip, "));
    assert!(tracking.contains("$29, $30) ON CONFLICT (date_time, internal_message_id, recipient_address, event_id) DO NOTHING"));
    assert!(!tracking.contains("$31"));
}

#[test]
fn postgres_create_statement() {
    assert_eq!(
        postgres::create_statement(Table::SmtpSend, "p_"),
        "CREATE TABLE IF NOT EXISTS p_smtp_send_logs (id SERIAL PRIMARY KEY, date_time TIMESTAMPTZ NOT NULL, connector_id TEXT NOT NULL, session_id TEXT NOT NULL, sequence_number INTEGER NOT NULL, local_endpoint TEXT NOT NULL, remote_endpoint TEXT NOT NULL, event TEXT NOT NULL, data TEXT, context TEXT, proxy_session_id TEXT, sender TEXT, recipient TEXT, message_id TEXT, record_id TEXT); CREATE UNIQUE INDEX IF NOT EXISTS p_smtp_send_logs_unique_idx ON p_smtp_send_logs (date_time, session_id, sequence_number);"
    );
}

#[test]
fn mssql_statements() {
    assert_eq!(
        mssql::insert_statement(Table::SmtpSend, "p_"),
        "INSERT INTO [dbo].[p_smtp_send_logs] (date_time, connector_id, session_id, sequence_number, local_endpoint, remote_endpoint, event, data, context, proxy_session_id, sender, recipient, message_id, record_id) VALUES (@P1, @P2, @P3, @P4, @P5, @P6, @P7, @P8, @P9, @P10, @P11, @P12, @P13, @P14)"
    );
    assert_eq!(
        mssql::create_statement(Table::SmtpReceive, "p_"),
        "IF NOT EXISTS (SELECT * FROM sys.objects WHERE object_id = OBJECT_ID(N'[dbo].[p_smtp_receive_logs]') AND type in (N'U')) BEGIN CREATE TABLE [dbo].[p_smtp_receive_logs] ([id] [int] IDENTITY(1,1) PRIMARY KEY, [date_time] [datetimeoffset](7) NOT NULL, [connector_id] [nvarchar](max) NOT NULL, [session_id] [nvarchar](450) NOT NULL, [sequence_number] [int] NOT NULL, [local_endpoint] [nvarchar](max) NOT NULL, [remote_endpoint] [nvarchar](max) NOT NULL, [event] [nvarchar](max) NOT NULL, [data] [nvarchar](max) NULL, [context] [nvarchar](max) NULL, [sender] [nvarchar](max) NULL, [recipient] [nvarchar](max) NULL, [message_id] [nvarchar](max) NULL, [subject] [nvarchar](max) NULL, [size] [int] NULL) END; IF NOT EXISTS (SELECT * FROM sys.indexes WHERE name = N'IX_p_smtp_receive_logs_unique' AND object_id = OBJECT_ID(N'[dbo].[p_smtp_receive_logs]')) BEGIN CREATE UNIQUE NONCLUSTERED INDEX [IX_p_smtp_receive_logs_unique] ON [dbo].[p_smtp_receive_logs] ([date_time] ASC, [session_id] ASC, [sequence_number] ASC) WITH (IGNORE_DUP_KEY = ON) END"
    );
    let tracking = mssql::create_statement(Table::MessageTracking, "");
    assert!(tracking.contains("[event_id] [nvarchar](450) NOT NULL"));
    assert!(tracking.contains("[internal_message_id] [nvarchar](450) NOT NULL"));
    assert!(tracking.contains("[recipient_address] [nvarchar](450) NOT NULL"));
    assert!(tracking.contains("[message_id] [nvarchar](max) NOT NULL"));
    assert!(tracking.contains("([date_time] ASC, [internal_message_id] ASC, [recipient_address] ASC, [event_id] ASC)"));
    // The index stands outside the block that tests for the table.
    let table_block_ends = tracking.find(") END; IF NOT EXISTS (SELECT * FROM sys.indexes").unwrap();
    let index_is_made = tracking.find("CREATE UNIQUE NONCLUSTERED INDEX").unwrap();
    assert!(table_block_ends < index_is_made);
}

#[test]
fn statements_by_engine() {
    assert_eq!(
        DatabaseType::Postgres.insert_statement(Table::SmtpSend, "a"),
        postgres::insert_statement(Table::SmtpSend, "a")
    );
    assert_eq!(
        DatabaseType::MsSql.insert_statement(Table::SmtpSend, "a"),
        mssql::insert_statement(Table::SmtpSend, "a")
    );
    assert_eq!(
        DatabaseType::Postgres.create_statement(Table::MessageTracking, ""),
        postgres::create_statement(Table::MessageTracking, "")
    );
    assert_eq!(
        DatabaseType::MsSql.create_statement(Table::MessageTracking, ""),
        mssql::create_statement(Table::MessageTracking, "")
    );
}

#[test]
fn empty_batch_opens_no_transaction() {
    let batch = InsertBatch::new(0);
    assert_eq!(batch.next_action(), BatchAction::Finish(0));
    assert!(batch.is_over());
}

#[test]
fn batch_counts_the_rows_that_were_stored() {
    let mut batch = InsertBatch::new(3);
    assert_eq!(batch.next_action(), BatchAction::Begin);
    batch.record(BatchEvent::Begun);
    assert_eq!(batch.next_action(), BatchAction::Insert(0));
    batch.record(BatchEvent::Inserted(1));
    assert_eq!(batch.next_action(), BatchAction::Insert(1));
    batch.record(BatchEvent::Inserted(0));
    assert_eq!(batch.next_action(), BatchAction::Insert(2));
    batch.record(BatchEvent::Inserted(1));
    assert_eq!(batch.next_action(), BatchAction::Commit);
    assert!(!batch.is_over());
    batch.record(BatchEvent::Committed);
    assert_eq!(batch.next_action(), BatchAction::Finish(2));
    assert!(batch.is_over());
    batch.record(BatchEvent::Failure);
    assert_eq!(batch.next_action(), BatchAction::Finish(2));
}

#[test]
fn second_insert_of_a_batch_counts_nothing() {
    let mut batch = InsertBatch::new(2);
    batch.record(BatchEvent::Begun);
    batch.record(BatchEvent::Inserted(0));
    batch.record(BatchEvent::Inserted(0));
    batch.record(BatchEvent::Committed);
    assert_eq!(batch.next_action(), BatchAction::Finish(0));
}

#[test]
fn failure_rolls_back_and_commits_nothing() {
    let mut batch = InsertBatch::new(2);
    batch.record(BatchEvent::Begun);
    batch.record(BatchEvent::Inserted(1));
    batch.record(BatchEvent::Failure);
    assert_eq!(batch.next_action(), BatchAction::Rollback);
    batch.record(BatchEvent::RolledBack);
    assert_eq!(batch.next_action(), BatchAction::Fail);
    batch.record(BatchEvent::Committed);
    assert_eq!(batch.next_action(), BatchAction::Fail);
    assert!(batch.is_over());
}

#[test]
fn failure_to_begin_needs_no_rollback() {
    let mut batch = InsertBatch::new(1);
    batch.record(BatchEvent::Failure);
    assert_eq!(batch.next_action(), BatchAction::Fail);
}

#[test]
fn failure_to_commit_rolls_back() {
    let mut batch = InsertBatch::new(1);
    batch.record(BatchEvent::Begun);
    batch.record(BatchEvent::Inserted(1));
    assert_eq!(batch.next_action(), BatchAction::Commit);
    batch.record(BatchEvent::Failure);
    assert_eq!(batch.next_action(), BatchAction::Rollback);
    batch.record(BatchEvent::Failure);
    assert_eq!(batch.next_action(), BatchAction::Fail);
}

#[test]
fn an_event_out_of_turn_ends_the_batch() {
    let mut batch = InsertBatch::new(2);
    batch.record(BatchEvent::Begun);
    batch.record(BatchEvent::Committed);
    assert_eq!(batch.next_action(), BatchAction::Rollback);
}

#[test]
fn row_count_is_held_at_the_largest_value() {
    let mut batch = InsertBatch::new(2);
    batch.record(BatchEvent::Begun);
    batch.record(BatchEvent::Inserted(u64::MAX));
    batch.record(BatchEvent::Inserted(5));
    batch.record(BatchEvent::Committed);
    assert_eq!(batch.next_action(), BatchAction::Finish(u64::MAX));
}

#[test]
fn instants_as_bytes() {
    // 2000-01-01T00:00:00Z is the instant from which the column counts.
    let epoch = PgDateTime { seconds: 946_684_800, nanoseconds: 0 };
    assert_eq!(epoch.to_sql_bytes(), Some(vec![0u8; 8]));
    // 2024-01-01T10:00:00.123Z
    let instant = PgDateTime { seconds: 1_704_103_200, nanoseconds: 123_000_000 };
    let count: i64 = (1_704_103_200 - 946_684_800) * 1_000_000 + 123_000;
    assert_eq!(instant.to_sql_bytes(), Some(count.to_be_bytes().to_vec()));
    assert_eq!(PgDateTime::from_sql_bytes(&count.to_be_bytes()), Some(instant));
    // What is less than a microsecond is cut off.
    let fine = PgDateTime { seconds: 1_704_103_200, nanoseconds: 123_456_789 };
    let written = fine.to_sql_bytes().unwrap();
    assert_eq!(
        PgDateTime::from_sql_bytes(&written),
        Some(PgDateTime { seconds: 1_704_103_200, nanoseconds: 123_456_000 })
    );
    // Before the year 2000 the count is negative.
    let early = PgDateTime { seconds: 0, nanoseconds: 500_000 };
    let count: i64 = -946_684_800 * 1_000_000 + 500;
    assert_eq!(early.to_sql_bytes(), Some(count.to_be_bytes().to_vec()));
    assert_eq!(PgDateTime::from_sql_bytes(&count.to_be_bytes()), Some(early));
    let before = PgDateTime { seconds: 946_684_799, nanoseconds: 999_999_000 };
    assert_eq!(before.to_sql_bytes(), Some((-1i64).to_be_bytes().to_vec()));
    assert_eq!(PgDateTime::from_sql_bytes(&[0xFF; 8]), Some(before));
}

#[test]
fn instants_too_far_away_are_not_written() {
    assert_eq!(PgDateTime { seconds: i64::MAX, nanoseconds: 0 }.to_sql_bytes(), None);
    assert_eq!(PgDateTime { seconds: i64::MIN, nanoseconds: 0 }.to_sql_bytes(), None);
    let last = PgDateTime { seconds: 9_000_000_000_000, nanoseconds: 999_999_999 };
    let written = last.to_sql_bytes().unwrap();
    assert_eq!(
        PgDateTime::from_sql_bytes(&written),
        Some(PgDateTime { seconds: 9_000_000_000_000, nanoseconds: 999_999_000 })
    );
}

#[test]
fn bytes_of_every_count_are_read() {
    for count in [0i64, 1, -1, 999_999, 1_000_000, -1_000_000, -1_000_001, i64::MAX, i64::MIN] {
        let read = PgDateTime::from_sql_bytes(&count.to_be_bytes()).unwrap();
        assert_eq!(read.seconds, count.div_euclid(1_000_000) + 946_684_800);
        assert_eq!(read.nanoseconds as i64, count.rem_euclid(1_000_000) * 1000);
        assert_eq!(read.to_sql_bytes(), Some(count.to_be_bytes().to_vec()));
    }
    assert_eq!(PgDateTime::from_sql_bytes(&[0, 0, 0, 1]), None);
    assert_eq!(PgDateTime::from_sql_bytes(&[]), None);
    assert_eq!(PgDateTime::from_sql_bytes(&[0; 9]), None);
}
