//! The parser of a log file: it finds out which kind of records the file
//! holds and reads the file as that kind.

use crate::decode::{decodable_len, decode_text, decoded_text};
use crate::error::ParseError;
use crate::models::{
    LogType, MessageTrackingLog, MessageTrackingLogView, ParsedLog, ParsedLogView,
    SmtpReceiveLog, SmtpReceiveLogView, SmtpSendLog, SmtpSendLogView,
};
use crate::rows::{read_rows, records_of, step, Progress};
use crate::session::{
    all_distinct, receive_ids, seen_all, send_ids, ReceiveSessions, SendSessions,
};
use crate::text::{
    chars_of, has_prefix, lines_of, same_text, split_lines, starts_with, texts, trim, trimmed,
};
use crate::tracking::TrackingRows;
use vstd::prelude::*;

verus! {

/// The words that open the declaration of a file's kind.
pub const LOG_TYPE_DIRECTIVE: &'static str = "#Log-type:";

/// The declaration of inbound SMTP protocol events.
pub const SMTP_RECEIVE_DECLARATION: &'static str = "#Log-type: SMTP Receive Protocol Log";

/// The declaration of outbound SMTP protocol events.
pub const SMTP_SEND_DECLARATION: &'static str = "#Log-type: SMTP Send Protocol Log";

/// The declaration of message-tracking events.
pub const MESSAGE_TRACKING_DECLARATION: &'static str = "#Log-type: Message Tracking Log";

/// The kind that a declaration line names: the line, without the white space
/// around it, must be one of the three declarations to the letter.
pub open spec fn declared_kind(line: Seq<char>) -> LogType {
    let words = trimmed(line);
    if words == SMTP_RECEIVE_DECLARATION@ {
        LogType::SmtpReceive
    } else if words == SMTP_SEND_DECLARATION@ {
        LogType::SmtpSend
    } else if words == MESSAGE_TRACKING_DECLARATION@ {
        LogType::MessageTracking
    } else {
        LogType::Unknown
    }
}

/// The kind that the first declaration line among `lines` names; unknown
/// where no line is a declaration.
pub open spec fn log_type_in(lines: Seq<Seq<char>>) -> LogType
    decreases lines.len(),
{
    if lines.len() == 0 {
        LogType::Unknown
    } else if has_prefix(lines[0], LOG_TYPE_DIRECTIVE@) {
        declared_kind(lines[0])
    } else {
        log_type_in(lines.drop_first())
    }
}

/// The kind of records that a text holds.
pub open spec fn log_type_of(text: Seq<char>) -> LogType {
    log_type_in(lines_of(text))
}

/// The inbound SMTP records that a text gives, in the order in which their
/// sessions are first seen.
pub open spec fn receive_records_of(text: Seq<char>) -> Result<
    Seq<SmtpReceiveLogView>,
    ParseError,
> {
    records_of::<ReceiveSessions>(text)
}

/// The outbound SMTP records that a text gives, in the order in which their
/// sessions are first seen.
pub open spec fn send_records_of(text: Seq<char>) -> Result<Seq<SmtpSendLogView>, ParseError> {
    records_of::<SendSessions>(text)
}

/// The message-tracking records that a text gives, in the order of their
/// lines.
pub open spec fn tracking_records_of(text: Seq<char>) -> Result<
    Seq<MessageTrackingLogView>,
    ParseError,
> {
    records_of::<TrackingRows>(text)
}

/// The records of an outcome, their texts as character sequences.
pub open spec fn receive_view(outcome: Result<Vec<SmtpReceiveLog>, ParseError>) -> Result<
    Seq<SmtpReceiveLogView>,
    ParseError,
> {
    match outcome {
        Ok(records) => Ok(records.deep_view()),
        Err(error) => Err(error),
    }
}

/// The records of an outcome, their texts as character sequences.
pub open spec fn send_view(outcome: Result<Vec<SmtpSendLog>, ParseError>) -> Result<
    Seq<SmtpSendLogView>,
    ParseError,
> {
    match outcome {
        Ok(records) => Ok(records.deep_view()),
        Err(error) => Err(error),
    }
}

/// The records of an outcome, their texts as character sequences.
pub open spec fn tracking_records_view(
    outcome: Result<Vec<MessageTrackingLog>, ParseError>,
) -> Result<Seq<MessageTrackingLogView>, ParseError> {
    match outcome {
        Ok(records) => Ok(records.deep_view()),
        Err(error) => Err(error),
    }
}

/// What a text gives when it is read as the kind that it declares. A text of
/// unknown kind gives no records and is no error.
pub open spec fn parsed_log_of(text: Seq<char>) -> Result<ParsedLogView, ParseError> {
    match log_type_of(text) {
        LogType::SmtpReceive => match receive_records_of(text) {
            Ok(records) => Ok(ParsedLogView::SmtpReceive(records)),
            Err(error) => Err(error),
        },
        LogType::SmtpSend => match send_records_of(text) {
            Ok(records) => Ok(ParsedLogView::SmtpSend(records)),
            Err(error) => Err(error),
        },
        LogType::MessageTracking => match tracking_records_of(text) {
            Ok(records) => Ok(ParsedLogView::MessageTracking(records)),
            Err(error) => Err(error),
        },
        LogType::Unknown => Ok(ParsedLogView::Unknown),
    }
}

/// The records of an outcome, their texts as character sequences.
pub open spec fn parsed_view(outcome: Result<ParsedLog, ParseError>) -> Result<
    ParsedLogView,
    ParseError,
> {
    match outcome {
        Ok(parsed) => Ok(parsed@),
        Err(error) => Err(error),
    }
}

/// Lines of which none opens a kind declaration declare no kind.
pub proof fn lemma_log_type_without_declaration(lines: Seq<Seq<char>>)
    requires
        forall|i: int| 0 <= i < lines.len() ==> !has_prefix(#[trigger] lines[i], LOG_TYPE_DIRECTIVE@),
    ensures
        log_type_in(lines) == LogType::Unknown,
    decreases lines.len(),
{
    if lines.len() > 0 {
        assert(!has_prefix(lines[0], LOG_TYPE_DIRECTIVE@));
        assert forall|i: int| 0 <= i < lines.drop_first().len() implies !has_prefix(
            #[trigger] lines.drop_first()[i],
            LOG_TYPE_DIRECTIVE@,
        ) by {
            assert(lines.drop_first()[i] == lines[i + 1]);
        }
        lemma_log_type_without_declaration(lines.drop_first());
    }
}

/// A text without a kind declaration on any line is of unknown kind: it
/// gives no records, and reading it is no error.
pub proof fn lemma_unknown_without_declaration(text: Seq<char>)
    requires
        forall|i: int|
            0 <= i < lines_of(text).len() ==> !has_prefix(
                #[trigger] lines_of(text)[i],
                LOG_TYPE_DIRECTIVE@,
            ),
    ensures
        log_type_of(text) == LogType::Unknown,
        parsed_log_of(text) == Ok::<ParsedLogView, ParseError>(ParsedLogView::Unknown),
        parsed_log_of(text).unwrap().record_count() == 0,
{
    lemma_log_type_without_declaration(lines_of(text));
}

/// Every message-tracking row that is read gives a record of its own: the
/// records only grow, by one for each row that is read and by none for any
/// other line.
pub proof fn lemma_tracking_step_appends(
    progress: Progress<MessageTrackingLogView>,
    line: Seq<char>,
)
    ensures
        match step::<TrackingRows>(progress, line) {
            Ok(next) => {
                ||| next.records == progress.records
                ||| next.records.len() == progress.records.len() + 1
                    && next.records.drop_last() == progress.records
            },
            Err(_) => true,
        },
{
    match step::<TrackingRows>(progress, line) {
        Ok(next) => {
            if next.records != progress.records {
                assert(next.records.drop_last() == progress.records);
            }
        },
        Err(_) => {},
    }
}

/// The parser of log files.
pub struct LogParser;

impl LogParser {
    /// Finds the kind of records that a text holds: the kind that its first
    /// declaration line names, unknown where that line names none of the
    /// three kinds or the text has no such line.
    pub fn detect_text_log_type(text: &str) -> (kind: LogType)
        ensures
            kind == log_type_of(text@),
    {
        let chars = chars_of(text);
        let lines = split_lines(chars.as_slice());
        let directive = chars_of(LOG_TYPE_DIRECTIVE);
        let mut i: usize = 0;
        assert(texts(lines@).skip(0) == texts(lines@));
        while i < lines.len()
            invariant
                i <= lines.len(),
                directive@ == LOG_TYPE_DIRECTIVE@,
                texts(lines@) == lines_of(text@),
                log_type_of(text@) == log_type_in(texts(lines@).skip(i as int)),
            decreases lines.len() - i,
        {
            let ghost rest = texts(lines@).skip(i as int);
            assert(rest[0] == lines@[i as int]@);
            assert(rest.drop_first() == texts(lines@).skip(i + 1));
            if starts_with(lines[i].as_slice(), directive.as_slice()) {
                let words = trim(lines[i].as_slice());
                let receive = chars_of(SMTP_RECEIVE_DECLARATION);
                let send = chars_of(SMTP_SEND_DECLARATION);
                let tracking = chars_of(MESSAGE_TRACKING_DECLARATION);
                if same_text(words.as_slice(), receive.as_slice()) {
                    return LogType::SmtpReceive;
                } else if same_text(words.as_slice(), send.as_slice()) {
                    return LogType::SmtpSend;
                } else if same_text(words.as_slice(), tracking.as_slice()) {
                    return LogType::MessageTracking;
                } else {
                    return LogType::Unknown;
                }
            }
            i += 1;
        }
        LogType::Unknown
    }

    /// Reads a text as a file of inbound SMTP events: one record for each
    /// session id, in the order in which the sessions are first seen.
    pub fn parse_smtp_receive_text(text: &str) -> (outcome: Result<
        Vec<SmtpReceiveLog>,
        ParseError,
    >)
        ensures
            receive_view(outcome) == receive_records_of(text@),
            outcome matches Ok(records) ==> all_distinct(receive_ids(records.deep_view())),
    {
        match read_rows::<ReceiveSessions>(text) {
            Ok(sessions) => {
                let records = sessions.into_records();
                assert(records.deep_view() =~= seen_all::<SmtpReceiveLog>(records@));
                Ok(records)
            },
            Err(error) => Err(error),
        }
    }

    /// Reads a text as a file of outbound SMTP events: one record for each
    /// session id, in the order in which the sessions are first seen.
    pub fn parse_smtp_send_text(text: &str) -> (outcome: Result<Vec<SmtpSendLog>, ParseError>)
        ensures
            send_view(outcome) == send_records_of(text@),
            outcome matches Ok(records) ==> all_distinct(send_ids(records.deep_view())),
    {
        match read_rows::<SendSessions>(text) {
            Ok(sessions) => {
                let records = sessions.into_records();
                assert(records.deep_view() =~= seen_all::<SmtpSendLog>(records@));
                Ok(records)
            },
            Err(error) => Err(error),
        }
    }

    /// Reads a text as a file of message-tracking events: one record for
    /// each data row that is long enough, in the order of the rows.
    pub fn parse_message_tracking_text(text: &str) -> (outcome: Result<
        Vec<MessageTrackingLog>,
        ParseError,
    >)
        ensures
            tracking_records_view(outcome) == tracking_records_of(text@),
    {
        match read_rows::<TrackingRows>(text) {
            Ok(rows) => Ok(rows.into_records()),
            Err(error) => Err(error),
        }
    }

    /// Reads a text as the kind of file that it declares itself to be. A text
    /// of unknown kind gives no records and is no error.
    pub fn parse_log_text(text: &str) -> (outcome: Result<ParsedLog, ParseError>)
        ensures
            parsed_view(outcome) == parsed_log_of(text@),
    {
        match Self::detect_text_log_type(text) {
            LogType::SmtpReceive => match Self::parse_smtp_receive_text(text) {
                Ok(records) => Ok(ParsedLog::SmtpReceive(records)),
                Err(error) => Err(error),
            },
            LogType::SmtpSend => match Self::parse_smtp_send_text(text) {
                Ok(records) => Ok(ParsedLog::SmtpSend(records)),
                Err(error) => Err(error),
            },
            LogType::MessageTracking => match Self::parse_message_tracking_text(text) {
                Ok(records) => Ok(ParsedLog::MessageTracking(records)),
                Err(error) => Err(error),
            },
            LogType::Unknown => Ok(ParsedLog::Unknown),
        }
    }

    /// Finds the kind of records that a file holds, from its bytes.
    pub fn detect_log_type(bytes: &[u8]) -> (kind: LogType)
        requires
            decodable_len(bytes@.len()),
        ensures
            kind == log_type_of(decoded_text(bytes@)),
    {
        let text = decode_text(bytes);
        Self::detect_text_log_type(text.as_str())
    }

    /// Decodes the bytes of a file and reads it as the kind of file that it
    /// declares itself to be. A file of unknown kind gives no records and is
    /// no error.
    pub fn parse_log_file(bytes: &[u8]) -> (outcome: Result<ParsedLog, ParseError>)
        requires
            decodable_len(bytes@.len()),
        ensures
            parsed_view(outcome) == parsed_log_of(decoded_text(bytes@)),
    {
        let text = decode_text(bytes);
        Self::parse_log_text(text.as_str())
    }

    /// Decodes the bytes of a file and reads it as inbound SMTP events.
    pub fn parse_smtp_receive_log(bytes: &[u8]) -> (outcome: Result<
        Vec<SmtpReceiveLog>,
        ParseError,
    >)
        requires
            decodable_len(bytes@.len()),
        ensures
            receive_view(outcome) == receive_records_of(decoded_text(bytes@)),
            outcome matches Ok(records) ==> all_distinct(receive_ids(records.deep_view())),
    {
        let text = decode_text(bytes);
        Self::parse_smtp_receive_text(text.as_str())
    }

    /// Decodes the bytes of a file and reads it as outbound SMTP events.
    pub fn parse_smtp_send_log(bytes: &[u8]) -> (outcome: Result<Vec<SmtpSendLog>, ParseError>)
        requires
            decodable_len(bytes@.len()),
        ensures
            send_view(outcome) == send_records_of(decoded_text(bytes@)),
            outcome matches Ok(records) ==> all_distinct(send_ids(records.deep_view())),
    {
        let text = decode_text(bytes);
        Self::parse_smtp_send_text(text.as_str())
    }

    /// Decodes the bytes of a file and reads it as message-tracking events.
    pub fn parse_message_tracking_log(bytes: &[u8]) -> (outcome: Result<
        Vec<MessageTrackingLog>,
        ParseError,
    >)
        requires
            decodable_len(bytes@.len()),
        ensures
            tracking_records_view(outcome) == tracking_records_of(decoded_text(bytes@)),
    {
        let text = decode_text(bytes);
        Self::parse_message_tracking_text(text.as_str())
    }
}

} // verus!
