use exchange_logs::error::ParseError;
use exchange_logs::models::{LogType, ParsedLog, PgDateTime};
use exchange_logs::parser::LogParser;

const RECEIVE_HEADER: &str = "#Software: Microsoft Exchange Server\n#Version: 15.0.0.0\n#Log-type: SMTP Receive Protocol Log\n#Date: 2024-01-15T10:30:00.000Z\n#Fields: date-time,connector-id,session-id,sequence-number,local-endpoint,remote-endpoint,event,data,context\n";

fn receive_file(rows: &[&str]) -> String {
    let mut text = String::from(RECEIVE_HEADER);
    for row in rows {
        text.push_str(row);
        text.push('\n');
    }
    text
}

#[test]
fn detects_the_three_kinds() {
    assert_eq!(
        LogParser::detect_text_log_type("#Log-type: SMTP Receive Protocol Log\n"),
        LogType::SmtpReceive
    );
    assert_eq!(
        LogParser::detect_text_log_type("#Version: 1\r\n#Log-type: SMTP Send Protocol Log\r\n"),
        LogType::SmtpSend
    );
    assert_eq!(
        LogParser::detect_text_log_type("#Log-type: Message Tracking Log"),
        LogType::MessageTracking
    );
}

#[test]
fn detection_trims_the_declaration_line() {
    assert_eq!(
        LogParser::detect_text_log_type("#Log-type: Message Tracking Log  \t\n"),
        LogType::MessageTracking
    );
}

#[test]
fn detection_stops_at_the_first_declaration() {
    let text = "#Log-type: Something Else\n#Log-type: SMTP Send Protocol Log\n";
    assert_eq!(LogParser::detect_text_log_type(text), LogType::Unknown);
}

#[test]
fn declaration_must_open_the_line() {
    let text = " #Log-type: SMTP Send Protocol Log\n";
    assert_eq!(LogParser::detect_text_log_type(text), LogType::Unknown);
}

#[test]
fn unknown_format_gives_no_records_and_no_error() {
    let text = "#Software: something\n#Fields: date-time,session-id\n2024-01-15T10:30:00Z,S1\n";
    assert_eq!(LogParser::detect_text_log_type(text), LogType::Unknown);
    let parsed = LogParser::parse_log_text(text).expect("an unknown kind is no error");
    assert!(matches!(parsed, ParsedLog::Unknown));
    assert_eq!(parsed.record_count(), 0);
    assert_eq!(parsed.log_type(), LogType::Unknown);
}

#[test]
fn empty_text_is_of_unknown_kind() {
    assert_eq!(LogParser::detect_text_log_type(""), LogType::Unknown);
    let parsed = LogParser::parse_log_text("").unwrap();
    assert_eq!(parsed.record_count(), 0);
}

#[test]
fn session_merge_keeps_first_line_and_both_findings() {
    let text = receive_file(&[
        "2024-01-15T10:30:00.000Z,SRV\\Default,S1,3,10.0.0.1:25,10.0.0.2:5000,<,MAIL FROM:<a@x>,",
        "2024-01-15T10:30:01.000Z,SRV\\Default,S1,4,10.0.0.1:25,10.0.0.2:5000,<,RCPT TO:<b@y>,",
    ]);
    let records = LogParser::parse_smtp_receive_text(&text).unwrap();
    assert_eq!(records.len(), 1);
    let record = &records[0];
    assert_eq!(record.sender.as_deref(), Some("a@x"));
    assert_eq!(record.recipient.as_deref(), Some("b@y"));
    assert_eq!(record.date_time, PgDateTime { seconds: 1705314600, nanoseconds: 0 });
    assert_eq!(record.sequence_number, 3);
    assert_eq!(record.session_id, "S1");
    assert_eq!(record.connector_id, "SRV\\Default");
    assert_eq!(record.local_endpoint, "10.0.0.1:25");
    assert_eq!(record.remote_endpoint, "10.0.0.2:5000");
    assert_eq!(record.event, "<");
    assert_eq!(record.data.as_deref(), Some("MAIL FROM:<a@x>"));
    assert_eq!(record.context, None);
    assert_eq!(record.id, None);
    assert_eq!(record.subject, None);
}

#[test]
fn sessions_come_in_the_order_of_first_sight() {
    let text = receive_file(&[
        "2024-01-15T10:30:00Z,C,S2,0,l,r,+,,",
        "2024-01-15T10:30:00Z,C,S1,0,l,r,+,,",
        "2024-01-15T10:30:01Z,C,S2,1,l,r,<,EHLO host,",
    ]);
    let records = LogParser::parse_smtp_receive_text(&text).unwrap();
    assert_eq!(records.len(), 2);
    assert_eq!(records[0].session_id, "S2");
    assert_eq!(records[1].session_id, "S1");
    assert_eq!(records[0].data, None);
}

#[test]
fn receive_findings_size_and_message_id() {
    let text = receive_file(&[
        "2024-01-15T10:30:00Z,C,S1,0,l,r,<,MAIL FROM:<a@x> SIZE=12345,",
    ]);
    let records = LogParser::parse_smtp_receive_text(&text).unwrap();
    assert_eq!(records.len(), 1);
    assert_eq!(records[0].size, Some(12345));
    assert_eq!(records[0].sender.as_deref(), Some("a@x"));
    assert_eq!(records[0].message_id.as_deref(), Some("a@x"));
    assert_eq!(records[0].recipient, None);
}

#[test]
fn a_size_too_large_leaves_the_size_as_it_was() {
    let text = receive_file(&[
        "2024-01-15T10:30:00Z,C,S1,0,l,r,<,SIZE=77,",
        "2024-01-15T10:30:01Z,C,S1,1,l,r,<,SIZE=99999999999,",
    ]);
    let records = LogParser::parse_smtp_receive_text(&text).unwrap();
    assert_eq!(records[0].size, Some(77));
}

#[test]
fn a_later_finding_replaces_an_earlier_one() {
    let text = receive_file(&[
        "2024-01-15T10:30:00Z,C,S1,0,l,r,<,RCPT TO:<first@y>,",
        "2024-01-15T10:30:01Z,C,S1,1,l,r,<,RCPT TO:<second@y>,",
        "2024-01-15T10:30:02Z,C,S1,2,l,r,<,DATA,",
    ]);
    let records = LogParser::parse_smtp_receive_text(&text).unwrap();
    assert_eq!(records.len(), 1);
    assert_eq!(records[0].recipient.as_deref(), Some("second@y"));
    assert_eq!(records[0].data.as_deref(), Some("RCPT TO:<first@y>"));
}

#[test]
fn schema_drift_uses_the_latest_declaration() {
    let text = "#Log-type: SMTP Receive Protocol Log\n\
#Fields: date-time,connector-id,session-id,sequence-number,local-endpoint,remote-endpoint,event,data,context\n\
2024-01-15T10:30:00Z,conn-a,sess-a,1,10.0.0.1:25,10.0.0.2:1,+,,\n\
#Fields: date-time,session-id,connector-id,sequence-number,remote-endpoint,local-endpoint,event,data,context\n\
2024-01-15T10:30:01Z,sess-b,conn-b,2,10.0.0.9:9,10.0.0.8:8,+,,\n";
    let records = LogParser::parse_smtp_receive_text(text).unwrap();
    assert_eq!(records.len(), 2);
    assert_eq!(records[0].session_id, "sess-a");
    assert_eq!(records[0].connector_id, "conn-a");
    assert_eq!(records[1].session_id, "sess-b");
    assert_eq!(records[1].connector_id, "conn-b");
    assert_eq!(records[1].local_endpoint, "10.0.0.8:8");
    assert_eq!(records[1].remote_endpoint, "10.0.0.9:9");
    assert_eq!(records[1].sequence_number, 2);
}

#[test]
fn short_line_is_passed_over() {
    let text = receive_file(&[
        "2024-01-15T10:30:00Z,C,S1,0,l,r,+,,",
        "trailer,too,short",
        "2024-01-15T10:30:01Z,C,S2,0,l,r,+,,",
    ]);
    let records = LogParser::parse_smtp_receive_text(&text).unwrap();
    assert_eq!(records.len(), 2);
    assert_eq!(records[0].session_id, "S1");
    assert_eq!(records[1].session_id, "S2");
}

#[test]
fn rows_before_the_first_declaration_have_no_effect() {
    let text = "#Log-type: SMTP Receive Protocol Log\n\
not,a,date,at,all,but,no,columns,yet\n\
#Fields: date-time,connector-id,session-id,sequence-number,local-endpoint,remote-endpoint,event,data,context\n\
2024-01-15T10:30:00Z,C,S1,0,l,r,+,,\n";
    let records = LogParser::parse_smtp_receive_text(text).unwrap();
    assert_eq!(records.len(), 1);
}

#[test]
fn comments_and_blank_lines_are_ignored() {
    let text = receive_file(&[
        "",
        "   \t ",
        "# a comment, with, commas, in, it, and, more, than, nine, fields",
        "2024-01-15T10:30:00Z,C,S1,0,l,r,+,,",
    ]);
    let records = LogParser::parse_smtp_receive_text(&text).unwrap();
    assert_eq!(records.len(), 1);
}

#[test]
fn carriage_returns_end_lines_too() {
    let text = "#Log-type: SMTP Receive Protocol Log\r\n#Fields: date-time,connector-id,session-id,sequence-number,local-endpoint,remote-endpoint,event,data,context\r\n2024-01-15T10:30:00Z,C,S1,0,l,r,+,hello,ctx\r\n";
    let records = LogParser::parse_smtp_receive_text(text).unwrap();
    assert_eq!(records.len(), 1);
    assert_eq!(records[0].context.as_deref(), Some("ctx"));
    assert_eq!(records[0].data.as_deref(), Some("hello"));
}

#[test]
fn invalid_timestamp_ends_the_file() {
    let text = receive_file(&[
        "2024-01-15T10:30:00Z,C,S1,0,l,r,+,,",
        "yesterday,C,S2,0,l,r,+,,",
    ]);
    assert_eq!(
        LogParser::parse_smtp_receive_text(&text).err(),
        Some(ParseError::InvalidTimestamp)
    );
}

#[test]
fn invalid_sequence_number_ends_the_file() {
    let text = receive_file(&["2024-01-15T10:30:00Z,C,S1,first,l,r,+,,"]);
    assert_eq!(
        LogParser::parse_smtp_receive_text(&text).err(),
        Some(ParseError::InvalidSequenceNumber)
    );
}

#[test]
fn timestamp_is_checked_before_the_sequence_number() {
    let text = receive_file(&["never,C,S1,first,l,r,+,,"]);
    assert_eq!(
        LogParser::parse_smtp_receive_text(&text).err(),
        Some(ParseError::InvalidTimestamp)
    );
}

#[test]
fn missing_core_column_is_an_error() {
    let text = "#Log-type: SMTP Receive Protocol Log\n#Fields: date-time,connector-id,sequence-number\n2024-01-15T10:30:00Z,C,0\n";
    assert_eq!(
        LogParser::parse_smtp_receive_text(text).err(),
        Some(ParseError::MissingField)
    );
}

#[test]
fn missing_optional_columns_leave_the_fields_absent() {
    let text = "#Log-type: SMTP Receive Protocol Log\n#Fields: date-time,connector-id,session-id,sequence-number,local-endpoint,remote-endpoint,event\n2024-01-15T10:30:00Z,C,S1,0,l,r,+\n";
    let records = LogParser::parse_smtp_receive_text(text).unwrap();
    assert_eq!(records.len(), 1);
    assert_eq!(records[0].data, None);
    assert_eq!(records[0].context, None);
}

#[test]
fn offset_in_the_timestamp_is_applied() {
    let text = receive_file(&["2024-01-15T13:30:00.250+03:00,C,S1,-7,l,r,+,,"]);
    let records = LogParser::parse_smtp_receive_text(&text).unwrap();
    assert_eq!(
        records[0].date_time,
        PgDateTime { seconds: 1705314600, nanoseconds: 250_000_000 }
    );
    assert_eq!(records[0].sequence_number, -7);
}

#[test]
fn parse_log_text_classifies_the_batch() {
    let text = receive_file(&["2024-01-15T10:30:00Z,C,S1,0,l,r,+,,"]);
    let parsed = LogParser::parse_log_text(&text).unwrap();
    assert_eq!(parsed.log_type(), LogType::SmtpReceive);
    assert_eq!(parsed.record_count(), 1);
    match parsed {
        ParsedLog::SmtpReceive(records) => assert_eq!(records[0].session_id, "S1"),
        _ => panic!("an inbound file gives inbound records"),
    }
}

#[test]
fn parse_log_file_decodes_first() {
    let text = receive_file(&["2024-01-15T10:30:00Z,C,S1,0,l,r,+,,"]);
    let parsed = LogParser::parse_log_file(text.as_bytes()).unwrap();
    assert_eq!(parsed.log_type(), LogType::SmtpReceive);
    assert_eq!(parsed.record_count(), 1);
    assert_eq!(LogParser::detect_log_type(text.as_bytes()), LogType::SmtpReceive);
    assert_eq!(LogParser::parse_smtp_receive_log(text.as_bytes()).unwrap().len(), 1);
}
