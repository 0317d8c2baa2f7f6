use exchange_logs::database::values::SqlValue;
use exchange_logs::error::ParseError;
use exchange_logs::extract::{
    find_group, find_in_receive_line, find_in_send_line, merge_number, merge_text,
    INTERNET_MESSAGE_ID_PATTERN, MAIL_FROM_PATTERN, MESSAGE_ID_PATTERN, PROXY_SESSION_PATTERN,
    RCPT_TO_PATTERN, RECORD_ID_PATTERN, SIZE_PATTERN,
};
use exchange_logs::models::{LogType, ParsedLog, PgDateTime};
use exchange_logs::parser::LogParser;
use exchange_logs::schema::ColumnSchema;

const SEND_HEADER: &str = "#Log-type: SMTP Send Protocol Log\n#Fields: date-time,connector-id,session-id,sequence-number,local-endpoint,remote-endpoint,event,data,context\n";

const TRACKING_HEADER: &str = "#Software: Microsoft Exchange Server\n#Log-type: Message Tracking Log\n#Fields: date-time,client-ip,client-hostname,server-ip,server-hostname,source-context,connector-id,source,event-id,internal-message-id,message-id,network-message-id,recipient-address,recipient-status,total-bytes,recipient-count,related-recipient-address,reference,message-subject,sender-address,return-path,message-info,directionality,tenant-id,original-client-ip,original-server-ip,custom-data,transport-traffic-type,log-id,schema-version\n";

fn text_of(value: &SqlValue) -> Option<String> {
    match value {
        SqlValue::Text(text) => text.clone(),
        _ => panic!("a text was expected"),
    }
}

#[test]
fn send_findings_follow_their_marks() {
    let text = format!(
        "{}{}\n{}\n{}\n{}\n",
        SEND_HEADER,
        "2024-01-15T10:30:00Z,Out,S9,0,10.0.0.1:1,10.0.0.2:25,*,,Proxying inbound session with session id 08DC12AB",
        "2024-01-15T10:30:01Z,Out,S9,1,10.0.0.1:1,10.0.0.2:25,*,,sending message with RecordId 4711 and InternetMessageId <m1@host>",
        "2024-01-15T10:30:02Z,Out,S9,2,10.0.0.1:1,10.0.0.2:25,>,MAIL FROM:<a@x>,",
        "2024-01-15T10:30:03Z,Out,S9,3,10.0.0.1:1,10.0.0.2:25,>,RCPT TO:<b@y>,",
    );
    let records = LogParser::parse_smtp_send_text(&text).unwrap();
    assert_eq!(records.len(), 1);
    let record = &records[0];
    assert_eq!(record.proxy_session_id.as_deref(), Some("08DC12AB"));
    assert_eq!(record.record_id.as_deref(), Some("4711"));
    assert_eq!(record.message_id.as_deref(), Some("m1@host"));
    assert_eq!(record.sender.as_deref(), Some("a@x"));
    assert_eq!(record.recipient.as_deref(), Some("b@y"));
    assert_eq!(record.sequence_number, 0);
    assert_eq!(record.date_time, PgDateTime { seconds: 1705314600, nanoseconds: 0 });
    assert_eq!(
        record.context.as_deref(),
        Some("Proxying inbound session with session id 08DC12AB")
    );
    assert_eq!(record.data, None);
}

#[test]
fn send_rules_on_the_context_wait_for_their_mark() {
    let found = find_in_send_line(
        &Some(String::from("session id 1234 and RecordId 5 InternetMessageId <m@h>")),
        &None,
    )
    .unwrap();
    assert_eq!(found.proxy_session_id, None);
    assert_eq!(found.record_id, None);
    assert_eq!(found.message_id, None);
    assert_eq!(found.sender, None);
    assert_eq!(found.recipient, None);
}

#[test]
fn receive_rules_are_all_tried() {
    let found = find_in_receive_line(&Some(String::from(
        "MAIL FROM:<a@x> SIZE=42 then RCPT TO:<b@y>",
    )))
    .unwrap();
    assert_eq!(found.size, Some(42));
    assert_eq!(found.sender.as_deref(), Some("a@x> SIZE=42 then RCPT TO:<b@y"));
    assert_eq!(found.recipient.as_deref(), Some("b@y"));
    assert_eq!(found.message_id.as_deref(), Some("a@x> SIZE=42 then RCPT TO:<b@y"));
    let nothing = find_in_receive_line(&None).unwrap();
    assert_eq!(nothing.size, None);
    assert_eq!(nothing.sender, None);
    assert_eq!(nothing.recipient, None);
    assert_eq!(nothing.message_id, None);
}

#[test]
fn merging_never_empties_a_field() {
    let mut held = Some(String::from("kept"));
    merge_text(&mut held, None);
    assert_eq!(held.as_deref(), Some("kept"));
    merge_text(&mut held, Some(String::new()));
    assert_eq!(held.as_deref(), Some("kept"));
    merge_text(&mut held, Some(String::from("new")));
    assert_eq!(held.as_deref(), Some("new"));
    let mut number = Some(5);
    merge_number(&mut number, None);
    assert_eq!(number, Some(5));
    merge_number(&mut number, Some(6));
    assert_eq!(number, Some(6));
}

#[test]
fn send_short_line_is_passed_over() {
    let text = format!(
        "{}{}\n{}\n{}\n",
        SEND_HEADER,
        "2024-01-15T10:30:00Z,Out,S1,0,l,r,*,,",
        "short,line",
        "2024-01-15T10:30:01Z,Out,S2,0,l,r,*,,",
    );
    let records = LogParser::parse_smtp_send_text(&text).unwrap();
    assert_eq!(records.len(), 2);
}

#[test]
fn tracking_row_gives_one_record() {
    let row = "2024-03-01T00:00:00.500Z,10.1.1.1,client.local,10.2.2.2,SERVER01,ctx;1,conn,SMTP,RECEIVE,123456,<mid@host>,net-id-1,rcpt@y.example,250 OK,2048,2,,ref,Hello world,sender@x.example,return@x.example,info,Incoming,tenant,1.1.1.1,2.2.2.2,custom,Email,log-1,15.01";
    let text = format!("{}{}\n", TRACKING_HEADER, row);
    let records = LogParser::parse_message_tracking_text(&text).unwrap();
    assert_eq!(records.len(), 1);
    let record = &records[0];
    assert_eq!(record.id, None);
    assert_eq!(record.date_time, PgDateTime { seconds: 1709251200, nanoseconds: 500_000_000 });
    assert_eq!(record.client_ip.as_deref(), Some("10.1.1.1"));
    assert_eq!(record.client_hostname.as_deref(), Some("client.local"));
    assert_eq!(record.server_ip.as_deref(), Some("10.2.2.2"));
    assert_eq!(record.server_hostname, "SERVER01");
    assert_eq!(record.source_context.as_deref(), Some("ctx;1"));
    assert_eq!(record.connector_id.as_deref(), Some("conn"));
    assert_eq!(record.source.as_deref(), Some("SMTP"));
    assert_eq!(record.event_id, "RECEIVE");
    assert_eq!(record.internal_message_id, "123456");
    assert_eq!(record.message_id, "<mid@host>");
    assert_eq!(record.network_message_id, "net-id-1");
    assert_eq!(record.recipient_address, "rcpt@y.example");
    assert_eq!(record.recipient_status.as_deref(), Some("250 OK"));
    assert_eq!(record.total_bytes, Some(2048));
    assert_eq!(record.recipient_count, 2);
    assert_eq!(record.related_recipient_address, None);
    assert_eq!(record.reference.as_deref(), Some("ref"));
    assert_eq!(record.message_subject.as_deref(), Some("Hello world"));
    assert_eq!(record.sender_address, "sender@x.example");
    assert_eq!(record.return_path.as_deref(), Some("return@x.example"));
    assert_eq!(record.message_info.as_deref(), Some("info"));
    assert_eq!(record.directionality.as_deref(), Some("Incoming"));
    assert_eq!(record.tenant_id.as_deref(), Some("tenant"));
    assert_eq!(record.original_client_ip.as_deref(), Some("1.1.1.1"));
    assert_eq!(record.original_server_ip.as_deref(), Some("2.2.2.2"));
    assert_eq!(record.custom_data.as_deref(), Some("custom"));
    assert_eq!(record.transport_traffic_type.as_deref(), Some("Email"));
    assert_eq!(record.log_id.as_deref(), Some("log-1"));
    assert_eq!(record.schema_version.as_deref(), Some("15.01"));
}

#[test]
fn tracking_rows_are_never_merged() {
    let row = "2024-03-01T00:00:00Z,,,,S,,,,E,1,m,n,r,,,,,,,s,,,,,,,,,,";
    let text = format!("{}{}\n{}\n{}\n", TRACKING_HEADER, row, row, row);
    let records = LogParser::parse_message_tracking_text(&text).unwrap();
    assert_eq!(records.len(), 3);
    assert_eq!(records[0].recipient_count, 0);
    assert_eq!(records[0].total_bytes, None);
    assert_eq!(records[0].client_ip, None);
    assert_eq!(records[2].internal_message_id, "1");
}

#[test]
fn tracking_numbers_fall_back_quietly() {
    let text = "#Log-type: Message Tracking Log\n#Fields: date-time,total-bytes,recipient-count\n2024-03-01T00:00:00Z,many,few\n2024-03-01T00:00:00Z,17,3\n";
    let records = LogParser::parse_message_tracking_text(text).unwrap();
    assert_eq!(records.len(), 2);
    assert_eq!(records[0].total_bytes, None);
    assert_eq!(records[0].recipient_count, 0);
    assert_eq!(records[1].total_bytes, Some(17));
    assert_eq!(records[1].recipient_count, 3);
    assert_eq!(records[0].server_hostname, "");
    assert_eq!(records[0].event_id, "");
    assert_eq!(records[0].sender_address, "");
    assert_eq!(records[0].message_subject, None);
}

#[test]
fn tracking_errors() {
    let bad_time = format!("{}{}\n", TRACKING_HEADER, "noon,,,,S,,,,E,1,m,n,r,,,,,,,s,,,,,,,,,,");
    assert_eq!(
        LogParser::parse_message_tracking_text(&bad_time).err(),
        Some(ParseError::InvalidTimestamp)
    );
    let no_time = "#Log-type: Message Tracking Log\n#Fields: event-id\nRECEIVE\n";
    assert_eq!(
        LogParser::parse_message_tracking_text(no_time).err(),
        Some(ParseError::MissingField)
    );
    let short = format!("{}{}\n", TRACKING_HEADER, "noon,too,short");
    assert_eq!(LogParser::parse_message_tracking_text(&short).unwrap().len(), 0);
}

#[test]
fn tracking_schema_drift_uses_the_latest_declaration() {
    let text = "#Log-type: Message Tracking Log\n#Fields: date-time,event-id,sender-address\n2024-03-01T00:00:00Z,SEND,a@x\n#Fields: date-time,sender-address,event-id\n2024-03-01T00:00:00Z,b@y,DELIVER\n";
    let records = LogParser::parse_message_tracking_text(text).unwrap();
    assert_eq!(records.len(), 2);
    assert_eq!(records[0].event_id, "SEND");
    assert_eq!(records[0].sender_address, "a@x");
    assert_eq!(records[1].event_id, "DELIVER");
    assert_eq!(records[1].sender_address, "b@y");
}

#[test]
fn whole_files_of_each_kind() {
    let send = format!("{}{}\n", SEND_HEADER, "2024-01-15T10:30:00Z,Out,S1,0,l,r,*,,");
    let parsed = LogParser::parse_log_file(send.as_bytes()).unwrap();
    assert_eq!(parsed.log_type(), LogType::SmtpSend);
    assert!(matches!(parsed, ParsedLog::SmtpSend(_)));
    assert_eq!(LogParser::parse_smtp_send_log(send.as_bytes()).unwrap().len(), 1);
    let tracking = format!("{}{}\n", TRACKING_HEADER, "2024-03-01T00:00:00Z,,,,S,,,,E,1,m,n,r,,,,,,,s,,,,,,,,,,");
    let parsed = LogParser::parse_log_file(tracking.as_bytes()).unwrap();
    assert_eq!(parsed.log_type(), LogType::MessageTracking);
    assert_eq!(parsed.record_count(), 1);
    assert_eq!(LogParser::parse_message_tracking_log(tracking.as_bytes()).unwrap().len(), 1);
}

#[test]
fn error_in_a_file_of_known_kind_is_handed_on() {
    let send = format!("{}{}\n", SEND_HEADER, "2024-01-15T10:30:00Z,Out,S1,x,l,r,*,,");
    assert_eq!(
        LogParser::parse_log_text(&send).err(),
        Some(ParseError::InvalidSequenceNumber)
    );
}

#[test]
fn error_messages() {
    assert_eq!(ParseError::MissingField.message(), "a required column is missing");
    assert_eq!(ParseError::InvalidTimestamp.message(), "failed to parse date");
    assert_eq!(
        ParseError::InvalidSequenceNumber.message(),
        "failed to parse sequence number"
    );
    assert_eq!(ParseError::InvalidPattern.message(), "a search pattern cannot be used");
}

#[test]
fn schema_maps_names_to_positions() {
    let header: Vec<char> = "#Fields: date-time , session-id,date-time,x".chars().collect();
    let schema = ColumnSchema::from_header(&header);
    let name = |text: &str| -> Vec<char> { text.chars().collect() };
    assert_eq!(schema.width(), 3);
    assert_eq!(schema.position(&name("date-time")), Some(2));
    assert_eq!(schema.position(&name("session-id")), Some(1));
    assert_eq!(schema.position(&name("x")), Some(3));
    assert_eq!(schema.position(&name("y")), None);
}

#[test]
fn values_to_store_match_the_source_lines() {
    let text = "#Log-type: SMTP Receive Protocol Log\n#Fields: date-time,connector-id,session-id,sequence-number,local-endpoint,remote-endpoint,event,data,context\n2024-01-15T10:30:00.250Z,SRV\\In,08DC,5,10.0.0.1:25,10.0.0.2:5000,<,MAIL FROM:<a@x> SIZE=10,ctx\n";
    let records = LogParser::parse_smtp_receive_text(text).unwrap();
    let values = records[0].insert_parameters();
    assert_eq!(values.len(), 14);
    match &values[0] {
        SqlValue::Timestamp(instant) => {
            assert_eq!(*instant, PgDateTime { seconds: 1705314600, nanoseconds: 250_000_000 })
        }
        _ => panic!("the first value is the time stamp"),
    }
    assert_eq!(text_of(&values[1]).as_deref(), Some("SRV\\In"));
    assert_eq!(text_of(&values[2]).as_deref(), Some("08DC"));
    assert!(matches!(values[3], SqlValue::Integer(Some(5))));
    assert_eq!(text_of(&values[4]).as_deref(), Some("10.0.0.1:25"));
    assert_eq!(text_of(&values[5]).as_deref(), Some("10.0.0.2:5000"));
    assert_eq!(text_of(&values[6]).as_deref(), Some("<"));
    assert_eq!(text_of(&values[7]).as_deref(), Some("MAIL FROM:<a@x> SIZE=10"));
    assert_eq!(text_of(&values[8]).as_deref(), Some("ctx"));
    assert_eq!(text_of(&values[9]).as_deref(), Some("a@x"));
    assert_eq!(text_of(&values[10]), None);
    assert_eq!(text_of(&values[11]).as_deref(), Some("a@x"));
    assert_eq!(text_of(&values[12]), None);
    assert!(matches!(values[13], SqlValue::Integer(Some(10))));
    let key = records[0].natural_key();
    assert_eq!(key.len(), 3);
    assert_eq!(text_of(&key[1]).as_deref(), Some("08DC"));
    assert!(matches!(key[2], SqlValue::Integer(Some(5))));
}

#[test]
fn values_to_store_for_the_other_kinds() {
    let send = format!("{}{}\n", SEND_HEADER, "2024-01-15T10:30:00Z,Out,S1,7,l,r,>,RCPT TO:<b@y>,");
    let records = LogParser::parse_smtp_send_text(&send).unwrap();
    let values = records[0].insert_parameters();
    assert_eq!(values.len(), 14);
    assert_eq!(text_of(&values[2]).as_deref(), Some("S1"));
    assert_eq!(text_of(&values[9]), None);
    assert_eq!(text_of(&values[11]).as_deref(), Some("b@y"));
    assert_eq!(records[0].natural_key().len(), 3);
    let tracking = format!("{}{}\n", TRACKING_HEADER, "2024-03-01T00:00:00Z,,,,S,,,,E,9,m,n,r@y,,12,1,,,,s@x,,,,,,,,,,");
    let records = LogParser::parse_message_tracking_text(&tracking).unwrap();
    let values = records[0].insert_parameters();
    assert_eq!(values.len(), 30);
    assert_eq!(text_of(&values[4]).as_deref(), Some("S"));
    assert_eq!(text_of(&values[8]).as_deref(), Some("E"));
    assert!(matches!(values[14], SqlValue::Integer(Some(12))));
    assert!(matches!(values[15], SqlValue::Integer(Some(1))));
    assert_eq!(text_of(&values[19]).as_deref(), Some("s@x"));
    let key = records[0].natural_key();
    assert_eq!(key.len(), 4);
    assert_eq!(text_of(&key[1]).as_deref(), Some("9"));
    assert_eq!(text_of(&key[2]).as_deref(), Some("r@y"));
    assert_eq!(text_of(&key[3]).as_deref(), Some("E"));
}

#[test]
fn parsed_time_stamp_survives_the_binary_column() {
    let text = "#Log-type: SMTP Receive Protocol Log\n#Fields: date-time,connector-id,session-id,sequence-number,local-endpoint,remote-endpoint,event,data,context\n2024-01-01T10:00:00.123Z,C,S1,0,l,r,+,,\n";
    let records = LogParser::parse_smtp_receive_text(text).unwrap();
    let instant = records[0].date_time;
    assert_eq!(instant, PgDateTime { seconds: 1_704_103_200, nanoseconds: 123_000_000 });
    let written = instant.to_sql_bytes().expect("a log time stamp can be written");
    // 757_418_400 seconds and 123 milliseconds after 2000-01-01T00:00:00Z.
    assert_eq!(written, 757_418_400_123_000i64.to_be_bytes().to_vec());
    assert_eq!(PgDateTime::from_sql_bytes(&written), Some(instant));
}

#[test]
fn a_pattern_that_cannot_be_used_is_an_error() {
    assert_eq!(find_group("(unclosed", "text"), Err(ParseError::InvalidPattern));
    assert_eq!(find_group("x(\\d+)", "ax12b"), Ok(Some(String::from("12"))));
    assert_eq!(find_group("x(\\d+)", "none"), Ok(None));
    assert_eq!(find_group("a(b)?c", "ac"), Ok(None));
}

#[test]
fn every_fixed_pattern_can_be_used() {
    for pattern in [
        SIZE_PATTERN,
        MAIL_FROM_PATTERN,
        RCPT_TO_PATTERN,
        MESSAGE_ID_PATTERN,
        PROXY_SESSION_PATTERN,
        RECORD_ID_PATTERN,
        INTERNET_MESSAGE_ID_PATTERN,
    ] {
        assert_eq!(find_group(pattern, ""), Ok(None), "pattern {:?}", pattern);
    }
}
