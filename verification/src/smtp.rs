//! The core fields that the two SMTP kinds share, read from one data line.

use crate::error::ParseError;
use crate::models::{parse_rfc3339, timestamp_of, PgDateTime};
use crate::schema::{
    field_at, pick, pick_present, picked, present, width_of, ColumnSchema,
};
use crate::text::{chars_of, i32_of, parse_i32, pieces_of, position_of, slot, split_on, texts};
use vstd::prelude::*;

verus! {

/// The column of the time stamp.
pub const DATE_TIME: &'static str = "date-time";

/// The column of the connector.
pub const CONNECTOR_ID: &'static str = "connector-id";

/// The column of the session id.
pub const SESSION_ID: &'static str = "session-id";

/// The column of the sequence number.
pub const SEQUENCE_NUMBER: &'static str = "sequence-number";

/// The column of the local endpoint.
pub const LOCAL_ENDPOINT: &'static str = "local-endpoint";

/// The column of the remote endpoint.
pub const REMOTE_ENDPOINT: &'static str = "remote-endpoint";

/// The column of the event marker.
pub const EVENT: &'static str = "event";

/// The column of the payload.
pub const DATA: &'static str = "data";

/// The column of the context.
pub const CONTEXT: &'static str = "context";

/// The core fields of one SMTP protocol line.
#[derive(Debug, Clone)]
pub struct SmtpLine {
    /// When the line was logged.
    pub date_time: PgDateTime,
    /// The connector that handled the session.
    pub connector_id: String,
    /// The token that groups the lines of one protocol exchange.
    pub session_id: String,
    /// The place of the line in its session.
    pub sequence_number: i32,
    /// The local address and port.
    pub local_endpoint: String,
    /// The remote address and port.
    pub remote_endpoint: String,
    /// The event marker.
    pub event: String,
    /// The payload, where the line has one.
    pub data: Option<String>,
    /// The context, where the line has one.
    pub context: Option<String>,
}

/// The core fields of one SMTP protocol line, as character sequences.
pub ghost struct SmtpLineView {
    pub date_time: PgDateTime,
    pub connector_id: Seq<char>,
    pub session_id: Seq<char>,
    pub sequence_number: i32,
    pub local_endpoint: Seq<char>,
    pub remote_endpoint: Seq<char>,
    pub event: Seq<char>,
    pub data: Option<Seq<char>>,
    pub context: Option<Seq<char>>,
}

impl View for SmtpLine {
    type V = SmtpLineView;

    open spec fn view(&self) -> SmtpLineView {
        SmtpLineView {
            date_time: self.date_time,
            connector_id: self.connector_id@,
            session_id: self.session_id@,
            sequence_number: self.sequence_number,
            local_endpoint: self.local_endpoint@,
            remote_endpoint: self.remote_endpoint@,
            event: self.event@,
            data: self.data.deep_view(),
            context: self.context.deep_view(),
        }
    }
}

/// What the fields of one data line give under a column declaration, once
/// the time stamp is read.
///
/// A line with fewer fields than the declaration has columns gives nothing
/// and is no error. Otherwise the seven core fields must each have a position
/// in the line, the time stamp must have been read, and the sequence number
/// must be a 32-bit decimal integer; the first of these that fails, in this
/// order, is the error. Payload and context are optional: each is absent
/// where it has no position in the line or is empty.
pub open spec fn smtp_line_with(
    names: Seq<Seq<char>>,
    fields: Seq<Seq<char>>,
    instant: Option<PgDateTime>,
) -> Result<Option<SmtpLineView>, ParseError> {
    let date_time = field_at(names, fields, DATE_TIME@);
    let connector_id = field_at(names, fields, CONNECTOR_ID@);
    let session_id = field_at(names, fields, SESSION_ID@);
    let sequence_number = field_at(names, fields, SEQUENCE_NUMBER@);
    let local_endpoint = field_at(names, fields, LOCAL_ENDPOINT@);
    let remote_endpoint = field_at(names, fields, REMOTE_ENDPOINT@);
    let event = field_at(names, fields, EVENT@);
    if fields.len() < width_of(names) {
        Ok(None)
    } else if date_time.is_none() || connector_id.is_none() || session_id.is_none()
        || sequence_number.is_none() || local_endpoint.is_none() || remote_endpoint.is_none()
        || event.is_none() {
        Err(ParseError::MissingField)
    } else if instant.is_none() {
        Err(ParseError::InvalidTimestamp)
    } else if i32_of(sequence_number.unwrap()).is_none() {
        Err(ParseError::InvalidSequenceNumber)
    } else {
        Ok(
            Some(
                SmtpLineView {
                    date_time: instant.unwrap(),
                    connector_id: connector_id.unwrap(),
                    session_id: session_id.unwrap(),
                    sequence_number: i32_of(sequence_number.unwrap()).unwrap(),
                    local_endpoint: local_endpoint.unwrap(),
                    remote_endpoint: remote_endpoint.unwrap(),
                    event: event.unwrap(),
                    data: present(field_at(names, fields, DATA@)),
                    context: present(field_at(names, fields, CONTEXT@)),
                },
            ),
        )
    }
}

/// The time stamp that the fields of a data line write, if the declaration
/// gives the time stamp a position in the line and the field there is an
/// RFC 3339 date and time.
pub open spec fn instant_in(names: Seq<Seq<char>>, fields: Seq<Seq<char>>) -> Option<PgDateTime> {
    match field_at(names, fields, DATE_TIME@) {
        Some(text) => timestamp_of(text),
        None => None,
    }
}

/// What one data line gives under a column declaration: the line is split at
/// commas, its time stamp is read, and the fields give what they give with
/// it.
pub open spec fn smtp_line_of(names: Seq<Seq<char>>, line: Seq<char>) -> Result<
    Option<SmtpLineView>,
    ParseError,
> {
    let fields = pieces_of(line, ',');
    smtp_line_with(names, fields, instant_in(names, fields))
}

/// The positions of the SMTP columns under one column declaration.
pub struct SmtpColumns {
    names: Ghost<Seq<Seq<char>>>,
    width: usize,
    date_time: Option<usize>,
    connector_id: Option<usize>,
    session_id: Option<usize>,
    sequence_number: Option<usize>,
    local_endpoint: Option<usize>,
    remote_endpoint: Option<usize>,
    event: Option<usize>,
    data: Option<usize>,
    context: Option<usize>,
}

impl SmtpColumns {
    /// The declared names that the positions were taken from.
    pub closed spec fn names(&self) -> Seq<Seq<char>> {
        self.names@
    }

    /// Every position is the one that the declaration gives its column.
    pub closed spec fn well_formed(&self) -> bool {
        &&& self.width == width_of(self.names@)
        &&& slot(self.date_time) == position_of(self.names@, DATE_TIME@)
        &&& slot(self.connector_id) == position_of(self.names@, CONNECTOR_ID@)
        &&& slot(self.session_id) == position_of(self.names@, SESSION_ID@)
        &&& slot(self.sequence_number) == position_of(self.names@, SEQUENCE_NUMBER@)
        &&& slot(self.local_endpoint) == position_of(self.names@, LOCAL_ENDPOINT@)
        &&& slot(self.remote_endpoint) == position_of(self.names@, REMOTE_ENDPOINT@)
        &&& slot(self.event) == position_of(self.names@, EVENT@)
        &&& slot(self.data) == position_of(self.names@, DATA@)
        &&& slot(self.context) == position_of(self.names@, CONTEXT@)
    }

    /// How many columns the declaration has.
    pub fn width(&self) -> (width: usize)
        requires
            self.well_formed(),
        ensures
            width == width_of(self.names()),
    {
        self.width
    }

    /// Looks the SMTP columns up in a declaration.
    pub fn resolve(schema: &ColumnSchema) -> (columns: SmtpColumns)
        requires
            schema.well_formed(),
        ensures
            columns.well_formed(),
            columns.names() == schema@,
    {
        SmtpColumns {
            names: Ghost(schema@),
            width: schema.width(),
            date_time: schema.position(chars_of(DATE_TIME).as_slice()),
            connector_id: schema.position(chars_of(CONNECTOR_ID).as_slice()),
            session_id: schema.position(chars_of(SESSION_ID).as_slice()),
            sequence_number: schema.position(chars_of(SEQUENCE_NUMBER).as_slice()),
            local_endpoint: schema.position(chars_of(LOCAL_ENDPOINT).as_slice()),
            remote_endpoint: schema.position(chars_of(REMOTE_ENDPOINT).as_slice()),
            event: schema.position(chars_of(EVENT).as_slice()),
            data: schema.position(chars_of(DATA).as_slice()),
            context: schema.position(chars_of(CONTEXT).as_slice()),
        }
    }
}

/// The outcome of reading a line, its texts as character sequences.
pub open spec fn line_view(outcome: Result<Option<SmtpLine>, ParseError>) -> Result<
    Option<SmtpLineView>,
    ParseError,
> {
    match outcome {
        Ok(Some(line)) => Ok(Some(line@)),
        Ok(None) => Ok(None),
        Err(error) => Err(error),
    }
}

/// Reads the time stamp among the fields of a data line.
pub fn read_instant(fields: &Vec<Vec<char>>, at: Option<usize>) -> (instant: Option<PgDateTime>)
    ensures
        instant == match picked(texts(fields@), slot(at)) {
            Some(text) => timestamp_of(text),
            None => None,
        },
{
    match pick(fields, at) {
        Some(text) => parse_rfc3339(text.as_str()),
        None => None,
    }
}

/// Puts the core fields of one data line together, once its time stamp is
/// read. `Ok(None)` says that the line is shorter than the declaration and
/// was passed over.
pub fn assemble_common_fields(
    fields: &Vec<Vec<char>>,
    columns: &SmtpColumns,
    instant: Option<PgDateTime>,
) -> (outcome: Result<Option<SmtpLine>, ParseError>)
    requires
        columns.well_formed(),
    ensures
        line_view(outcome) == smtp_line_with(columns.names(), texts(fields@), instant),
{
    if fields.len() < columns.width {
        return Ok(None);
    }
    let date_time = pick(fields, columns.date_time);
    let connector_id = pick(fields, columns.connector_id);
    let session_id = pick(fields, columns.session_id);
    let sequence_number = pick(fields, columns.sequence_number);
    let local_endpoint = pick(fields, columns.local_endpoint);
    let remote_endpoint = pick(fields, columns.remote_endpoint);
    let event = pick(fields, columns.event);
    match (
        date_time,
        connector_id,
        session_id,
        sequence_number,
        local_endpoint,
        remote_endpoint,
        event,
    ) {
        (
            Some(_),
            Some(connector_id),
            Some(session_id),
            Some(sequence_number),
            Some(local_endpoint),
            Some(remote_endpoint),
            Some(event),
        ) => {
            let instant = match instant {
                Some(instant) => instant,
                None => {
                    return Err(ParseError::InvalidTimestamp);
                },
            };
            let digits = chars_of(sequence_number.as_str());
            let number = match parse_i32(digits.as_slice()) {
                Some(number) => number,
                None => {
                    return Err(ParseError::InvalidSequenceNumber);
                },
            };
            Ok(
                Some(
                    SmtpLine {
                        date_time: instant,
                        connector_id,
                        session_id,
                        sequence_number: number,
                        local_endpoint,
                        remote_endpoint,
                        event,
                        data: pick_present(fields, columns.data),
                        context: pick_present(fields, columns.context),
                    },
                ),
            )
        },
        _ => Err(ParseError::MissingField),
    }
}

/// Reads the core fields among the fields of one data line. `Ok(None)` says
/// that the line is shorter than the declaration and was passed over.
pub fn read_common_fields(fields: &Vec<Vec<char>>, columns: &SmtpColumns) -> (outcome: Result<
    Option<SmtpLine>,
    ParseError,
>)
    requires
        columns.well_formed(),
    ensures
        line_view(outcome) == smtp_line_with(
            columns.names(),
            texts(fields@),
            instant_in(columns.names(), texts(fields@)),
        ),
{
    if fields.len() < columns.width {
        return Ok(None);
    }
    let instant = read_instant(fields, columns.date_time);
    assemble_common_fields(fields, columns, instant)
}

/// Reads the core fields of one data line. `Ok(None)` says that the line is
/// shorter than the declaration and was passed over.
pub fn parse_common_fields(line: &[char], columns: &SmtpColumns) -> (outcome: Result<
    Option<SmtpLine>,
    ParseError,
>)
    requires
        columns.well_formed(),
    ensures
        line_view(outcome) == smtp_line_of(columns.names(), line@),
{
    let fields = split_on(line, ',');
    read_common_fields(&fields, columns)
}

} // verus!
