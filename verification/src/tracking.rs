//! Message-tracking events: every data line that is long enough gives one
//! record of its own.

use crate::error::ParseError;
use crate::models::{MessageTrackingLog, MessageTrackingLogView, PgDateTime};
use crate::rows::RowReader;
use crate::schema::{
    field_at, holds, number_in, number_or_zero, or_empty, pick_number, pick_or_empty,
    pick_present, present, width_of, ColumnSchema,
};
use crate::smtp::{instant_in, read_instant, DATE_TIME};
use crate::text::{chars_of, pieces_of, position_of, slot, split_on, texts};
use vstd::prelude::*;

verus! {

/// The column `client-ip`.
pub const CLIENT_IP: &'static str = "client-ip";

/// The column `client-hostname`.
pub const CLIENT_HOSTNAME: &'static str = "client-hostname";

/// The column `server-ip`.
pub const SERVER_IP: &'static str = "server-ip";

/// The column `server-hostname`.
pub const SERVER_HOSTNAME: &'static str = "server-hostname";

/// The column `source-context`.
pub const SOURCE_CONTEXT: &'static str = "source-context";

/// The column `connector-id`.
pub const CONNECTOR_ID: &'static str = "connector-id";

/// The column `source`.
pub const SOURCE: &'static str = "source";

/// The column `event-id`.
pub const EVENT_ID: &'static str = "event-id";

/// The column `internal-message-id`.
pub const INTERNAL_MESSAGE_ID: &'static str = "internal-message-id";

/// The column `message-id`.
pub const MESSAGE_ID: &'static str = "message-id";

/// The column `network-message-id`.
pub const NETWORK_MESSAGE_ID: &'static str = "network-message-id";

/// The column `recipient-address`.
pub const RECIPIENT_ADDRESS: &'static str = "recipient-address";

/// The column `recipient-status`.
pub const RECIPIENT_STATUS: &'static str = "recipient-status";

/// The column `total-bytes`.
pub const TOTAL_BYTES: &'static str = "total-bytes";

/// The column `recipient-count`.
pub const RECIPIENT_COUNT: &'static str = "recipient-count";

/// The column `related-recipient-address`.
pub const RELATED_RECIPIENT_ADDRESS: &'static str = "related-recipient-address";

/// The column `reference`.
pub const REFERENCE: &'static str = "reference";

/// The column `message-subject`.
pub const MESSAGE_SUBJECT: &'static str = "message-subject";

/// The column `sender-address`.
pub const SENDER_ADDRESS: &'static str = "sender-address";

/// The column `return-path`.
pub const RETURN_PATH: &'static str = "return-path";

/// The column `message-info`.
pub const MESSAGE_INFO: &'static str = "message-info";

/// The column `directionality`.
pub const DIRECTIONALITY: &'static str = "directionality";

/// The column `tenant-id`.
pub const TENANT_ID: &'static str = "tenant-id";

/// The column `original-client-ip`.
pub const ORIGINAL_CLIENT_IP: &'static str = "original-client-ip";

/// The column `original-server-ip`.
pub const ORIGINAL_SERVER_IP: &'static str = "original-server-ip";

/// The column `custom-data`.
pub const CUSTOM_DATA: &'static str = "custom-data";

/// The column `transport-traffic-type`.
pub const TRANSPORT_TRAFFIC_TYPE: &'static str = "transport-traffic-type";

/// The column `log-id`.
pub const LOG_ID: &'static str = "log-id";

/// The column `schema-version`.
pub const SCHEMA_VERSION: &'static str = "schema-version";

/// What the fields of one data line give under a column declaration, once
/// the time stamp is read.
///
/// A line with fewer fields than the declaration has columns gives nothing
/// and is no error. Otherwise the time stamp must have a position in the line
/// and must have been read. Of the other fields, those that every record has
/// are empty where they have no position in the line; the optional ones are
/// absent where they have none or are empty. The byte count is absent, and
/// the recipient count zero, where the field does not write a 32-bit decimal
/// integer.
pub open spec fn tracking_record_with(
    names: Seq<Seq<char>>,
    fields: Seq<Seq<char>>,
    instant: Option<PgDateTime>,
) -> Result<Option<MessageTrackingLogView>, ParseError> {
    let date_time = field_at(names, fields, DATE_TIME@);
    if fields.len() < width_of(names) {
        Ok(None)
    } else if date_time.is_none() {
        Err(ParseError::MissingField)
    } else if instant.is_none() {
        Err(ParseError::InvalidTimestamp)
    } else {
        Ok(
            Some(
                MessageTrackingLogView {
                    id: None,
                    date_time: instant.unwrap(),
                    client_ip: present(field_at(names, fields, CLIENT_IP@)),
                    client_hostname: present(field_at(names, fields, CLIENT_HOSTNAME@)),
                    server_ip: present(field_at(names, fields, SERVER_IP@)),
                    server_hostname: or_empty(field_at(names, fields, SERVER_HOSTNAME@)),
                    source_context: present(field_at(names, fields, SOURCE_CONTEXT@)),
                    connector_id: present(field_at(names, fields, CONNECTOR_ID@)),
                    source: present(field_at(names, fields, SOURCE@)),
                    event_id: or_empty(field_at(names, fields, EVENT_ID@)),
                    internal_message_id: or_empty(field_at(names, fields, INTERNAL_MESSAGE_ID@)),
                    message_id: or_empty(field_at(names, fields, MESSAGE_ID@)),
                    network_message_id: or_empty(field_at(names, fields, NETWORK_MESSAGE_ID@)),
                    recipient_address: or_empty(field_at(names, fields, RECIPIENT_ADDRESS@)),
                    recipient_status: present(field_at(names, fields, RECIPIENT_STATUS@)),
                    total_bytes: number_in(field_at(names, fields, TOTAL_BYTES@)),
                    recipient_count: number_or_zero(field_at(names, fields, RECIPIENT_COUNT@)),
                    related_recipient_address: present(field_at(names, fields, RELATED_RECIPIENT_ADDRESS@)),
                    reference: present(field_at(names, fields, REFERENCE@)),
                    message_subject: present(field_at(names, fields, MESSAGE_SUBJECT@)),
                    sender_address: or_empty(field_at(names, fields, SENDER_ADDRESS@)),
                    return_path: present(field_at(names, fields, RETURN_PATH@)),
                    message_info: present(field_at(names, fields, MESSAGE_INFO@)),
                    directionality: present(field_at(names, fields, DIRECTIONALITY@)),
                    tenant_id: present(field_at(names, fields, TENANT_ID@)),
                    original_client_ip: present(field_at(names, fields, ORIGINAL_CLIENT_IP@)),
                    original_server_ip: present(field_at(names, fields, ORIGINAL_SERVER_IP@)),
                    custom_data: present(field_at(names, fields, CUSTOM_DATA@)),
                    transport_traffic_type: present(field_at(names, fields, TRANSPORT_TRAFFIC_TYPE@)),
                    log_id: present(field_at(names, fields, LOG_ID@)),
                    schema_version: present(field_at(names, fields, SCHEMA_VERSION@)),
                },
            ),
        )
    }
}

/// What one data line gives under a column declaration: the line is split at
/// commas, its time stamp is read, and the fields give what they give with
/// it.
pub open spec fn tracking_record_of(names: Seq<Seq<char>>, line: Seq<char>) -> Result<
    Option<MessageTrackingLogView>,
    ParseError,
> {
    let fields = pieces_of(line, ',');
    tracking_record_with(names, fields, instant_in(names, fields))
}

/// The positions of the message-tracking columns under one column
/// declaration.
pub struct TrackingColumns {
    names: Ghost<Seq<Seq<char>>>,
    width: usize,
    date_time: Option<usize>,
    client_ip: Option<usize>,
    client_hostname: Option<usize>,
    server_ip: Option<usize>,
    server_hostname: Option<usize>,
    source_context: Option<usize>,
    connector_id: Option<usize>,
    source: Option<usize>,
    event_id: Option<usize>,
    internal_message_id: Option<usize>,
    message_id: Option<usize>,
    network_message_id: Option<usize>,
    recipient_address: Option<usize>,
    recipient_status: Option<usize>,
    total_bytes: Option<usize>,
    recipient_count: Option<usize>,
    related_recipient_address: Option<usize>,
    reference: Option<usize>,
    message_subject: Option<usize>,
    sender_address: Option<usize>,
    return_path: Option<usize>,
    message_info: Option<usize>,
    directionality: Option<usize>,
    tenant_id: Option<usize>,
    original_client_ip: Option<usize>,
    original_server_ip: Option<usize>,
    custom_data: Option<usize>,
    transport_traffic_type: Option<usize>,
    log_id: Option<usize>,
    schema_version: Option<usize>,
}

impl TrackingColumns {
    /// The declared names that the positions were taken from.
    pub closed spec fn names(&self) -> Seq<Seq<char>> {
        self.names@
    }

    /// Every position is the one that the declaration gives its column.
    pub closed spec fn well_formed(&self) -> bool {
        &&& self.width == width_of(self.names@)
        &&& slot(self.date_time) == position_of(self.names@, DATE_TIME@)
        &&& slot(self.client_ip) == position_of(self.names@, CLIENT_IP@)
        &&& slot(self.client_hostname) == position_of(self.names@, CLIENT_HOSTNAME@)
        &&& slot(self.server_ip) == position_of(self.names@, SERVER_IP@)
        &&& slot(self.server_hostname) == position_of(self.names@, SERVER_HOSTNAME@)
        &&& slot(self.source_context) == position_of(self.names@, SOURCE_CONTEXT@)
        &&& slot(self.connector_id) == position_of(self.names@, CONNECTOR_ID@)
        &&& slot(self.source) == position_of(self.names@, SOURCE@)
        &&& slot(self.event_id) == position_of(self.names@, EVENT_ID@)
        &&& slot(self.internal_message_id) == position_of(self.names@, INTERNAL_MESSAGE_ID@)
        &&& slot(self.message_id) == position_of(self.names@, MESSAGE_ID@)
        &&& slot(self.network_message_id) == position_of(self.names@, NETWORK_MESSAGE_ID@)
        &&& slot(self.recipient_address) == position_of(self.names@, RECIPIENT_ADDRESS@)
        &&& slot(self.recipient_status) == position_of(self.names@, RECIPIENT_STATUS@)
        &&& slot(self.total_bytes) == position_of(self.names@, TOTAL_BYTES@)
        &&& slot(self.recipient_count) == position_of(self.names@, RECIPIENT_COUNT@)
        &&& slot(self.related_recipient_address) == position_of(self.names@, RELATED_RECIPIENT_ADDRESS@)
        &&& slot(self.reference) == position_of(self.names@, REFERENCE@)
        &&& slot(self.message_subject) == position_of(self.names@, MESSAGE_SUBJECT@)
        &&& slot(self.sender_address) == position_of(self.names@, SENDER_ADDRESS@)
        &&& slot(self.return_path) == position_of(self.names@, RETURN_PATH@)
        &&& slot(self.message_info) == position_of(self.names@, MESSAGE_INFO@)
        &&& slot(self.directionality) == position_of(self.names@, DIRECTIONALITY@)
        &&& slot(self.tenant_id) == position_of(self.names@, TENANT_ID@)
        &&& slot(self.original_client_ip) == position_of(self.names@, ORIGINAL_CLIENT_IP@)
        &&& slot(self.original_server_ip) == position_of(self.names@, ORIGINAL_SERVER_IP@)
        &&& slot(self.custom_data) == position_of(self.names@, CUSTOM_DATA@)
        &&& slot(self.transport_traffic_type) == position_of(self.names@, TRANSPORT_TRAFFIC_TYPE@)
        &&& slot(self.log_id) == position_of(self.names@, LOG_ID@)
        &&& slot(self.schema_version) == position_of(self.names@, SCHEMA_VERSION@)
    }

    /// Looks the message-tracking columns up in a declaration.
    pub fn resolve(schema: &ColumnSchema) -> (columns: TrackingColumns)
        requires
            schema.well_formed(),
        ensures
            columns.well_formed(),
            columns.names() == schema@,
    {
        TrackingColumns {
            names: Ghost(schema@),
            width: schema.width(),
            date_time: schema.position(chars_of(DATE_TIME).as_slice()),
            client_ip: schema.position(chars_of(CLIENT_IP).as_slice()),
            client_hostname: schema.position(chars_of(CLIENT_HOSTNAME).as_slice()),
            server_ip: schema.position(chars_of(SERVER_IP).as_slice()),
            server_hostname: schema.position(chars_of(SERVER_HOSTNAME).as_slice()),
            source_context: schema.position(chars_of(SOURCE_CONTEXT).as_slice()),
            connector_id: schema.position(chars_of(CONNECTOR_ID).as_slice()),
            source: schema.position(chars_of(SOURCE).as_slice()),
            event_id: schema.position(chars_of(EVENT_ID).as_slice()),
            internal_message_id: schema.position(chars_of(INTERNAL_MESSAGE_ID).as_slice()),
            message_id: schema.position(chars_of(MESSAGE_ID).as_slice()),
            network_message_id: schema.position(chars_of(NETWORK_MESSAGE_ID).as_slice()),
            recipient_address: schema.position(chars_of(RECIPIENT_ADDRESS).as_slice()),
            recipient_status: schema.position(chars_of(RECIPIENT_STATUS).as_slice()),
            total_bytes: schema.position(chars_of(TOTAL_BYTES).as_slice()),
            recipient_count: schema.position(chars_of(RECIPIENT_COUNT).as_slice()),
            related_recipient_address: schema.position(chars_of(RELATED_RECIPIENT_ADDRESS).as_slice()),
            reference: schema.position(chars_of(REFERENCE).as_slice()),
            message_subject: schema.position(chars_of(MESSAGE_SUBJECT).as_slice()),
            sender_address: schema.position(chars_of(SENDER_ADDRESS).as_slice()),
            return_path: schema.position(chars_of(RETURN_PATH).as_slice()),
            message_info: schema.position(chars_of(MESSAGE_INFO).as_slice()),
            directionality: schema.position(chars_of(DIRECTIONALITY).as_slice()),
            tenant_id: schema.position(chars_of(TENANT_ID).as_slice()),
            original_client_ip: schema.position(chars_of(ORIGINAL_CLIENT_IP).as_slice()),
            original_server_ip: schema.position(chars_of(ORIGINAL_SERVER_IP).as_slice()),
            custom_data: schema.position(chars_of(CUSTOM_DATA).as_slice()),
            transport_traffic_type: schema.position(chars_of(TRANSPORT_TRAFFIC_TYPE).as_slice()),
            log_id: schema.position(chars_of(LOG_ID).as_slice()),
            schema_version: schema.position(chars_of(SCHEMA_VERSION).as_slice()),
        }
    }
}

/// The outcome of reading a line, its texts as character sequences.
pub open spec fn tracking_view(outcome: Result<Option<MessageTrackingLog>, ParseError>) -> Result<
    Option<MessageTrackingLogView>,
    ParseError,
> {
    match outcome {
        Ok(Some(record)) => Ok(Some(record@)),
        Ok(None) => Ok(None),
        Err(error) => Err(error),
    }
}

/// Puts a message-tracking event together from the fields of one data line,
/// once its time stamp is read. `Ok(None)` says that the line is shorter than
/// the declaration and was passed over.
pub fn assemble_tracking_record(
    fields: &Vec<Vec<char>>,
    columns: &TrackingColumns,
    instant: Option<PgDateTime>,
) -> (outcome: Result<Option<MessageTrackingLog>, ParseError>)
    requires
        columns.well_formed(),
    ensures
        tracking_view(outcome) == tracking_record_with(columns.names(), texts(fields@), instant),
{
    if fields.len() < columns.width {
        return Ok(None);
    }
    if !holds(fields, columns.date_time) {
        return Err(ParseError::MissingField);
    }
    let instant = match instant {
        Some(instant) => instant,
        None => {
            return Err(ParseError::InvalidTimestamp);
        },
    };
    let recipient_count = match pick_number(fields, columns.recipient_count) {
        Some(number) => number,
        None => 0,
    };
    Ok(
        Some(
            MessageTrackingLog {
                id: None,
                date_time: instant,
                client_ip: pick_present(fields, columns.client_ip),
                client_hostname: pick_present(fields, columns.client_hostname),
                server_ip: pick_present(fields, columns.server_ip),
                server_hostname: pick_or_empty(fields, columns.server_hostname),
                source_context: pick_present(fields, columns.source_context),
                connector_id: pick_present(fields, columns.connector_id),
                source: pick_present(fields, columns.source),
                event_id: pick_or_empty(fields, columns.event_id),
                internal_message_id: pick_or_empty(fields, columns.internal_message_id),
                message_id: pick_or_empty(fields, columns.message_id),
                network_message_id: pick_or_empty(fields, columns.network_message_id),
                recipient_address: pick_or_empty(fields, columns.recipient_address),
                recipient_status: pick_present(fields, columns.recipient_status),
                total_bytes: pick_number(fields, columns.total_bytes),
                recipient_count,
                related_recipient_address: pick_present(fields, columns.related_recipient_address),
                reference: pick_present(fields, columns.reference),
                message_subject: pick_present(fields, columns.message_subject),
                sender_address: pick_or_empty(fields, columns.sender_address),
                return_path: pick_present(fields, columns.return_path),
                message_info: pick_present(fields, columns.message_info),
                directionality: pick_present(fields, columns.directionality),
                tenant_id: pick_present(fields, columns.tenant_id),
                original_client_ip: pick_present(fields, columns.original_client_ip),
                original_server_ip: pick_present(fields, columns.original_server_ip),
                custom_data: pick_present(fields, columns.custom_data),
                transport_traffic_type: pick_present(fields, columns.transport_traffic_type),
                log_id: pick_present(fields, columns.log_id),
                schema_version: pick_present(fields, columns.schema_version),
            },
        ),
    )
}

/// Reads a message-tracking event from the fields of one data line.
/// `Ok(None)` says that the line is shorter than the declaration and was
/// passed over.
pub fn read_tracking_record(fields: &Vec<Vec<char>>, columns: &TrackingColumns) -> (outcome: Result<
    Option<MessageTrackingLog>,
    ParseError,
>)
    requires
        columns.well_formed(),
    ensures
        tracking_view(outcome) == tracking_record_with(
            columns.names(),
            texts(fields@),
            instant_in(columns.names(), texts(fields@)),
        ),
{
    if fields.len() < columns.width {
        return Ok(None);
    }
    let instant = read_instant(fields, columns.date_time);
    assemble_tracking_record(fields, columns, instant)
}

/// Reads one data line as a message-tracking event. `Ok(None)` says that the
/// line is shorter than the declaration and was passed over.
pub fn parse_tracking_line(line: &[char], columns: &TrackingColumns) -> (outcome: Result<
    Option<MessageTrackingLog>,
    ParseError,
>)
    requires
        columns.well_formed(),
    ensures
        tracking_view(outcome) == tracking_record_of(columns.names(), line@),
{
    let fields = split_on(line, ',');
    read_tracking_record(&fields, columns)
}

/// The message-tracking events of one file, in the order of their rows.
pub struct TrackingRows {
    records: Vec<MessageTrackingLog>,
}

impl View for TrackingRows {
    type V = Seq<MessageTrackingLogView>;

    closed spec fn view(&self) -> Seq<MessageTrackingLogView> {
        self.records.deep_view()
    }
}

impl TrackingRows {
    /// The records, in the order of their rows.
    pub fn into_records(self) -> (records: Vec<MessageTrackingLog>)
        ensures
            records.deep_view() == self@,
    {
        self.records
    }
}

/// The message-tracking records after a data row: every row that is read
/// gives one record of its own, after those that are there.
pub open spec fn tracking_after_row(
    names: Seq<Seq<char>>,
    records: Seq<MessageTrackingLogView>,
    fields: Seq<Seq<char>>,
) -> Result<Seq<MessageTrackingLogView>, ParseError> {
    match tracking_record_with(names, fields, instant_in(names, fields)) {
        Ok(Some(record)) => Ok(records.push(record)),
        Ok(None) => Ok(records),
        Err(error) => Err(error),
    }
}

impl RowReader for TrackingRows {
    type Record = MessageTrackingLogView;

    type Columns = TrackingColumns;

    open spec fn records(&self) -> Seq<MessageTrackingLogView> {
        self@
    }

    open spec fn consistent(&self) -> bool {
        true
    }

    open spec fn columns_consistent(columns: &TrackingColumns) -> bool {
        columns.well_formed()
    }

    open spec fn names(columns: &TrackingColumns) -> Seq<Seq<char>> {
        columns.names()
    }

    open spec fn after_row(
        names: Seq<Seq<char>>,
        records: Seq<MessageTrackingLogView>,
        fields: Seq<Seq<char>>,
    ) -> Result<Seq<MessageTrackingLogView>, ParseError> {
        tracking_after_row(names, records, fields)
    }

    fn start() -> (reader: TrackingRows) {
        let reader = TrackingRows { records: Vec::new() };
        assert(reader@ =~= Seq::<MessageTrackingLogView>::empty());
        reader
    }

    fn resolve(schema: &ColumnSchema) -> (columns: TrackingColumns) {
        TrackingColumns::resolve(schema)
    }

    fn width(columns: &TrackingColumns) -> (width: usize) {
        columns.width
    }

    fn take_row(&mut self, fields: &Vec<Vec<char>>, columns: &TrackingColumns) -> (outcome: Result<
        (),
        ParseError,
    >) {
        match read_tracking_record(fields, columns) {
            Ok(Some(record)) => {
                let ghost before = self@;
                self.records.push(record);
                assert(self@ =~= before.push(record@));
                Ok(())
            },
            Ok(None) => Ok(()),
            Err(error) => Err(error),
        }
    }
}

} // verus!
