//! The records that the parser produces, and their mathematical views.

use vstd::prelude::*;

verus! {

/// An instant on the UTC time line: whole seconds since 1970-01-01T00:00:00Z,
/// leap seconds not counted, and the nanoseconds past that second.
#[derive(Debug, Clone, Copy, PartialEq, Eq, Structural)]
pub struct PgDateTime {
    /// Seconds since the epoch; negative before it.
    pub seconds: i64,
    /// Nanoseconds since the last whole second.
    pub nanoseconds: u32,
}

/// The instant that `chrono` reads from `text` as an RFC 3339 date and time:
/// seconds since the epoch and nanoseconds past the second, or `None` where
/// the text is not such a date and time.
pub uninterp spec fn rfc3339_instant(text: Seq<char>) -> Option<(i64, u32)>;

/// The time stamp that a text writes, if it writes one.
pub open spec fn timestamp_of(text: Seq<char>) -> Option<PgDateTime> {
    match rfc3339_instant(text) {
        Some(instant) => Some(PgDateTime { seconds: instant.0, nanoseconds: instant.1 }),
        None => None,
    }
}

/// Calls `chrono::DateTime::parse_from_rfc3339`, and reads the instant with
/// `DateTime::timestamp` and `DateTime::timestamp_subsec_nanos`.
///
/// Which texts are dates and which instant each one means is the crate's to
/// say; the contract names the result and claims nothing more of it. The
/// offset that the text was written with is not kept.
#[verifier::external_body]
pub(crate) fn parse_rfc3339(text: &str) -> (instant: Option<PgDateTime>)
    ensures
        instant == match rfc3339_instant(text@) {
            Some(read) => Some(PgDateTime { seconds: read.0, nanoseconds: read.1 }),
            None => None,
        },
{
    let parsed = chrono::DateTime::parse_from_rfc3339(text).ok()?;
    Some(PgDateTime { seconds: parsed.timestamp(), nanoseconds: parsed.timestamp_subsec_nanos() })
}

/// Two to the power of 64, as a mathematical integer.
pub open spec fn two_to_64() -> int {
    0x1_0000_0000_0000_0000
}

/// `value` without its `count` least significant bytes.
pub open spec fn without_low_bytes(value: int, count: nat) -> int
    decreases count,
{
    if count == 0 {
        value
    } else {
        without_low_bytes(value, (count - 1) as nat) / 256
    }
}

/// The byte at position `at` of the eight bytes that write `value`, the most
/// significant byte first.
pub open spec fn big_endian_byte(value: int, at: int) -> u8 {
    (without_low_bytes(value, (7 - at) as nat) % 256) as u8
}

/// The number that bytes write, the most significant byte first.
pub open spec fn big_endian_value(bytes: Seq<u8>) -> int
    decreases bytes.len(),
{
    if bytes.len() == 0 {
        0
    } else {
        big_endian_value(bytes.drop_last()) * 256 + bytes.last()
    }
}

/// A 64-bit signed integer as the unsigned number with the same bits.
pub open spec fn unsigned_of(value: int) -> int {
    if value >= 0 {
        value
    } else {
        value + two_to_64()
    }
}

/// The 64-bit signed integer with the bits of an unsigned number.
pub open spec fn signed_of(value: int) -> int {
    if value >= 0x8000_0000_0000_0000 {
        value - two_to_64()
    } else {
        value
    }
}

/// The eight bytes that write a 64-bit signed integer in two's complement,
/// the most significant byte first.
pub open spec fn be_bytes_of(value: i64) -> Seq<u8> {
    Seq::new(8, |at: int| big_endian_byte(unsigned_of(value as int), at))
}

/// Writes a 64-bit signed integer in two's complement, the most significant
/// byte first.
pub fn i64_to_be_bytes(value: i64) -> (bytes: Vec<u8>)
    ensures
        bytes@ == be_bytes_of(value),
{
    let wide: i128 = value as i128;
    let bits: u128 = if wide >= 0 {
        wide as u128
    } else {
        (wide + 0x1_0000_0000_0000_0000) as u128
    };
    proof {
        reveal_with_fuel(without_low_bytes, 8);
    }
    let rest1: u128 = bits / 256;
    let rest2: u128 = rest1 / 256;
    let rest3: u128 = rest2 / 256;
    let rest4: u128 = rest3 / 256;
    let rest5: u128 = rest4 / 256;
    let rest6: u128 = rest5 / 256;
    let rest7: u128 = rest6 / 256;
    let bytes = vec![
        (rest7 % 256) as u8,
        (rest6 % 256) as u8,
        (rest5 % 256) as u8,
        (rest4 % 256) as u8,
        (rest3 % 256) as u8,
        (rest2 % 256) as u8,
        (rest1 % 256) as u8,
        (bits % 256) as u8,
    ];
    assert(bytes@ =~= be_bytes_of(value));
    bytes
}

/// Reads a 64-bit signed integer from eight bytes in two's complement, the
/// most significant byte first.
pub fn i64_from_be_bytes(raw: &[u8]) -> (value: i64)
    requires
        raw@.len() == 8,
    ensures
        value == signed_of(big_endian_value(raw@)),
{
    let mut bits: u128 = 0;
    let mut i: usize = 0;
    while i < 8
        invariant
            i <= 8,
            raw@.len() == 8,
            bits == big_endian_value(raw@.take(i as int)),
            bits < without_low_bytes(two_to_64(), (8 - i) as nat) || i == 0,
            i == 0 ==> bits == 0,
        decreases 8 - i,
    {
        proof {
            reveal_with_fuel(without_low_bytes, 9);
            assert(raw@.take(i + 1).drop_last() == raw@.take(i as int));
        }
        bits = bits * 256 + raw[i] as u128;
        i += 1;
    }
    assert(raw@.take(8) == raw@);
    if bits >= 0x8000_0000_0000_0000 {
        (bits as i128 - 0x1_0000_0000_0000_0000) as i64
    } else {
        bits as i64
    }
}

/// The bytes written for a 64-bit signed integer read back as the integer.
pub proof fn lemma_be_bytes_read_back(value: i64)
    ensures
        be_bytes_of(value).len() == 8,
        signed_of(big_endian_value(be_bytes_of(value))) == value,
{
    let bits = unsigned_of(value as int);
    let bytes = be_bytes_of(value);
    assert(0 <= bits < two_to_64());
    reveal_with_fuel(without_low_bytes, 8);
    let v7 = bytes.take(7);
    let v6 = bytes.take(6);
    let v5 = bytes.take(5);
    let v4 = bytes.take(4);
    let v3 = bytes.take(3);
    let v2 = bytes.take(2);
    let v1 = bytes.take(1);
    assert(bytes.drop_last() == v7);
    assert(v7.drop_last() == v6);
    assert(v6.drop_last() == v5);
    assert(v5.drop_last() == v4);
    assert(v4.drop_last() == v3);
    assert(v3.drop_last() == v2);
    assert(v2.drop_last() == v1);
    assert(v1.drop_last().len() == 0);
    let r1 = bits / 256;
    let r2 = r1 / 256;
    let r3 = r2 / 256;
    let r4 = r3 / 256;
    let r5 = r4 / 256;
    let r6 = r5 / 256;
    let r7 = r6 / 256;
    assert(r7 < 256);
    assert(without_low_bytes(bits, 7) == r7);
    assert(without_low_bytes(bits, 6) == r6);
    assert(without_low_bytes(bits, 5) == r5);
    assert(without_low_bytes(bits, 4) == r4);
    assert(without_low_bytes(bits, 3) == r3);
    assert(without_low_bytes(bits, 2) == r2);
    assert(without_low_bytes(bits, 1) == r1);
    assert(without_low_bytes(bits, 0) == bits);
    assert(v1.last() == bytes[0] && v2.last() == bytes[1] && v3.last() == bytes[2]);
    assert(v4.last() == bytes[3] && v5.last() == bytes[4] && v6.last() == bytes[5]);
    assert(v7.last() == bytes[6] && bytes.last() == bytes[7]);
    assert(big_endian_value(v1.drop_last()) == 0);
    assert(big_endian_value(v1) == r7);
    assert(big_endian_value(v2) == r6);
    assert(big_endian_value(v3) == r5);
    assert(big_endian_value(v4) == r4);
    assert(big_endian_value(v5) == r3);
    assert(big_endian_value(v6) == r2);
    assert(big_endian_value(v7) == r1);
    assert(big_endian_value(bytes) == bits);
}

/// The seconds from 1970-01-01T00:00:00Z to 2000-01-01T00:00:00Z, the instant
/// from which a binary time stamp column counts.
pub const COLUMN_EPOCH: i64 = 946_684_800;

impl PgDateTime {
    /// The microseconds from 2000-01-01T00:00:00Z to the instant; what is
    /// less than a microsecond is cut off.
    pub open spec fn microseconds(self) -> int {
        (self.seconds - COLUMN_EPOCH) * 1_000_000 + self.nanoseconds / 1000
    }

    /// The instant that lies a number of microseconds after
    /// 2000-01-01T00:00:00Z, or before it where the number is negative.
    pub open spec fn of_microseconds(count: int) -> PgDateTime {
        PgDateTime {
            seconds: (count / 1_000_000 + COLUMN_EPOCH) as i64,
            nanoseconds: (count % 1_000_000 * 1000) as u32,
        }
    }

    /// The bytes that stand for the instant in a binary time stamp column:
    /// the microseconds from 2000-01-01T00:00:00Z as 64 bits in two's
    /// complement, the most significant byte first. There are none where
    /// that count does not fit.
    pub open spec fn sql_bytes(self) -> Option<Seq<u8>> {
        if i64::MIN <= self.microseconds() <= i64::MAX {
            Some(be_bytes_of(self.microseconds() as i64))
        } else {
            None
        }
    }

    /// The instant that the bytes of a binary time stamp column stand for:
    /// they must be eight, and count microseconds from 2000-01-01T00:00:00Z.
    pub open spec fn of_sql_bytes(raw: Seq<u8>) -> Option<PgDateTime> {
        if raw.len() != 8 {
            None
        } else {
            Some(Self::of_microseconds(signed_of(big_endian_value(raw))))
        }
    }

    /// Writes the instant for a binary time stamp column; `None` where it
    /// lies too far from the year 2000 to be written, which no instant within
    /// two hundred and eighty thousand years of it does.
    pub fn to_sql_bytes(&self) -> (bytes: Option<Vec<u8>>)
        ensures
            bytes.deep_view() == self.sql_bytes(),
            -9_000_000_000_000 <= self.seconds <= 9_000_000_000_000 ==> bytes.is_some(),
    {
        let count: i128 = (self.seconds as i128 - COLUMN_EPOCH as i128) * 1_000_000 + (
        self.nanoseconds / 1000) as i128;
        if count < i64::MIN as i128 || count > i64::MAX as i128 {
            None
        } else {
            let bytes = i64_to_be_bytes(count as i64);
            assert(bytes.deep_view() =~= bytes@);
            Some(bytes)
        }
    }

    /// Reads an instant from the bytes of a binary time stamp column; `None`
    /// where they are not eight.
    pub fn from_sql_bytes(raw: &[u8]) -> (instant: Option<PgDateTime>)
        ensures
            instant == Self::of_sql_bytes(raw@),
    {
        if raw.len() != 8 {
            return None;
        }
        let count: i64 = i64_from_be_bytes(raw);
        // A multiple of a million that lifts every count above zero.
        let lifted: u128 = (count as i128 + 9_223_372_036_855_000_000) as u128;
        let whole: u128 = lifted / 1_000_000;
        let part: u128 = lifted % 1_000_000;
        assert(whole - 9_223_372_036_855 == count as int / 1_000_000);
        assert(part == count as int % 1_000_000);
        let seconds: i64 = (whole as i128 - 9_223_372_036_855 + COLUMN_EPOCH as i128) as i64;
        let nanoseconds: u32 = (part * 1000) as u32;
        Some(PgDateTime { seconds, nanoseconds })
    }
}

/// What was written for an instant reads back exact to the microsecond: the
/// seconds as they were, and the nanoseconds without what is less than a
/// microsecond.
pub proof fn lemma_sql_bytes_read_back(instant: PgDateTime)
    requires
        instant.nanoseconds < 1_000_000_000,
        instant.sql_bytes().is_some(),
    ensures
        instant.sql_bytes().unwrap().len() == 8,
        PgDateTime::of_sql_bytes(instant.sql_bytes().unwrap()) == Some(
            PgDateTime {
                seconds: instant.seconds,
                nanoseconds: (instant.nanoseconds / 1000 * 1000) as u32,
            },
        ),
        instant.nanoseconds % 1000 == 0 ==> PgDateTime::of_sql_bytes(
            instant.sql_bytes().unwrap(),
        ) == Some(instant),
{
    let count = instant.microseconds();
    lemma_be_bytes_read_back(count as i64);
    let whole = instant.seconds - COLUMN_EPOCH;
    let part = instant.nanoseconds as int / 1000;
    assert(0 <= part < 1_000_000);
    assert(count == whole * 1_000_000 + part);
    assert(count / 1_000_000 == whole && count % 1_000_000 == part) by {
        vstd::arithmetic::div_mod::lemma_fundamental_div_mod_converse(
            count,
            1_000_000,
            whole,
            part,
        );
    }
}

/// The kind of records that a log file holds.
#[derive(Debug, Clone, Copy, PartialEq, Eq, Structural)]
pub enum LogType {
    /// Inbound SMTP protocol events.
    SmtpReceive,
    /// Outbound SMTP protocol events.
    SmtpSend,
    /// End-to-end message-tracking events.
    MessageTracking,
    /// No recognised kind was declared.
    Unknown,
}

/// One inbound SMTP session: the core fields of its first line and what its
/// payloads gave away.
#[derive(Debug, Clone)]
pub struct SmtpReceiveLog {
    /// Row identity given by the store; absent until the record is stored.
    pub id: Option<i32>,
    /// When the first line of the session was logged.
    pub date_time: PgDateTime,
    /// The connector that handled the session.
    pub connector_id: String,
    /// The token that groups the lines of one protocol exchange.
    pub session_id: String,
    /// The sequence number of the first line of the session.
    pub sequence_number: i32,
    /// The local address and port.
    pub local_endpoint: String,
    /// The remote address and port.
    pub remote_endpoint: String,
    /// The event marker of the first line.
    pub event: String,
    /// The payload of the first line.
    pub data: Option<String>,
    /// The context of the first line.
    pub context: Option<String>,
    /// The envelope sender found in a payload.
    pub sender: Option<String>,
    /// The envelope recipient found in a payload.
    pub recipient: Option<String>,
    /// The message id found in a payload.
    pub message_id: Option<String>,
    /// The subject; no line carries it.
    pub subject: Option<String>,
    /// The announced message size in bytes.
    pub size: Option<i32>,
}

/// An inbound SMTP session, its texts as character sequences.
pub ghost struct SmtpReceiveLogView {
    pub id: Option<i32>,
    pub date_time: PgDateTime,
    pub connector_id: Seq<char>,
    pub session_id: Seq<char>,
    pub sequence_number: i32,
    pub local_endpoint: Seq<char>,
    pub remote_endpoint: Seq<char>,
    pub event: Seq<char>,
    pub data: Option<Seq<char>>,
    pub context: Option<Seq<char>>,
    pub sender: Option<Seq<char>>,
    pub recipient: Option<Seq<char>>,
    pub message_id: Option<Seq<char>>,
    pub subject: Option<Seq<char>>,
    pub size: Option<i32>,
}

impl View for SmtpReceiveLog {
    type V = SmtpReceiveLogView;

    open spec fn view(&self) -> SmtpReceiveLogView {
        SmtpReceiveLogView {
            id: self.id,
            date_time: self.date_time,
            connector_id: self.connector_id@,
            session_id: self.session_id@,
            sequence_number: self.sequence_number,
            local_endpoint: self.local_endpoint@,
            remote_endpoint: self.remote_endpoint@,
            event: self.event@,
            data: self.data.deep_view(),
            context: self.context.deep_view(),
            sender: self.sender.deep_view(),
            recipient: self.recipient.deep_view(),
            message_id: self.message_id.deep_view(),
            subject: self.subject.deep_view(),
            size: self.size,
        }
    }
}

impl DeepView for SmtpReceiveLog {
    type V = SmtpReceiveLogView;

    open spec fn deep_view(&self) -> SmtpReceiveLogView {
        self@
    }
}

/// One outbound SMTP session: the core fields of its first line and what its
/// contexts and payloads gave away.
#[derive(Debug, Clone)]
pub struct SmtpSendLog {
    /// Row identity given by the store; absent until the record is stored.
    pub id: Option<i32>,
    /// When the first line of the session was logged.
    pub date_time: PgDateTime,
    /// The connector that handled the session.
    pub connector_id: String,
    /// The token that groups the lines of one protocol exchange.
    pub session_id: String,
    /// The sequence number of the first line of the session.
    pub sequence_number: i32,
    /// The local address and port.
    pub local_endpoint: String,
    /// The remote address and port.
    pub remote_endpoint: String,
    /// The event marker of the first line.
    pub event: String,
    /// The payload of the first line.
    pub data: Option<String>,
    /// The context of the first line.
    pub context: Option<String>,
    /// The inbound session that this session proxies.
    pub proxy_session_id: Option<String>,
    /// The envelope sender found in a payload.
    pub sender: Option<String>,
    /// The envelope recipient found in a payload.
    pub recipient: Option<String>,
    /// The internet message id found in a context.
    pub message_id: Option<String>,
    /// The internal record id found in a context.
    pub record_id: Option<String>,
}

/// An outbound SMTP session, its texts as character sequences.
pub ghost struct SmtpSendLogView {
    pub id: Option<i32>,
    pub date_time: PgDateTime,
    pub connector_id: Seq<char>,
    pub session_id: Seq<char>,
    pub sequence_number: i32,
    pub local_endpoint: Seq<char>,
    pub remote_endpoint: Seq<char>,
    pub event: Seq<char>,
    pub data: Option<Seq<char>>,
    pub context: Option<Seq<char>>,
    pub proxy_session_id: Option<Seq<char>>,
    pub sender: Option<Seq<char>>,
    pub recipient: Option<Seq<char>>,
    pub message_id: Option<Seq<char>>,
    pub record_id: Option<Seq<char>>,
}

impl View for SmtpSendLog {
    type V = SmtpSendLogView;

    open spec fn view(&self) -> SmtpSendLogView {
        SmtpSendLogView {
            id: self.id,
            date_time: self.date_time,
            connector_id: self.connector_id@,
            session_id: self.session_id@,
            sequence_number: self.sequence_number,
            local_endpoint: self.local_endpoint@,
            remote_endpoint: self.remote_endpoint@,
            event: self.event@,
            data: self.data.deep_view(),
            context: self.context.deep_view(),
            proxy_session_id: self.proxy_session_id.deep_view(),
            sender: self.sender.deep_view(),
            recipient: self.recipient.deep_view(),
            message_id: self.message_id.deep_view(),
            record_id: self.record_id.deep_view(),
        }
    }
}

impl DeepView for SmtpSendLog {
    type V = SmtpSendLogView;

    open spec fn deep_view(&self) -> SmtpSendLogView {
        self@
    }
}

/// One message-tracking event. Every qualifying line gives one record; such
/// records are never merged.
#[derive(Debug, Clone)]
pub struct MessageTrackingLog {
    /// Row identity given by the store; absent until the record is stored.
    pub id: Option<i32>,
    /// When the event was logged.
    pub date_time: PgDateTime,
    /// The address of the client that handed the message over.
    pub client_ip: Option<String>,
    /// The host name of that client.
    pub client_hostname: Option<String>,
    /// The address of the server that took the message.
    pub server_ip: Option<String>,
    /// The host name of the server that logged the event.
    pub server_hostname: String,
    /// What the source adds about the event.
    pub source_context: Option<String>,
    /// The connector that the message passed.
    pub connector_id: Option<String>,
    /// The component that raised the event.
    pub source: Option<String>,
    /// What happened to the message.
    pub event_id: String,
    /// The number that the server gave the message.
    pub internal_message_id: String,
    /// The message id of the message's header.
    pub message_id: String,
    /// The id that follows the message across servers.
    pub network_message_id: String,
    /// The recipients of the message.
    pub recipient_address: String,
    /// The status of each recipient.
    pub recipient_status: Option<String>,
    /// The size of the message in bytes.
    pub total_bytes: Option<i32>,
    /// How many recipients the message has.
    pub recipient_count: i32,
    /// A recipient that this event relates to another.
    pub related_recipient_address: Option<String>,
    /// A reference to related events or messages.
    pub reference: Option<String>,
    /// The subject of the message.
    pub message_subject: Option<String>,
    /// The sender of the message.
    pub sender_address: String,
    /// The address that bounces go to.
    pub return_path: Option<String>,
    /// Further facts about the message.
    pub message_info: Option<String>,
    /// Whether the message came in or went out.
    pub directionality: Option<String>,
    /// The tenant that the message belongs to.
    pub tenant_id: Option<String>,
    /// The address of the first client.
    pub original_client_ip: Option<String>,
    /// The address of the first server.
    pub original_server_ip: Option<String>,
    /// Data that agents added.
    pub custom_data: Option<String>,
    /// The kind of traffic.
    pub transport_traffic_type: Option<String>,
    /// The id of the log entry.
    pub log_id: Option<String>,
    /// The version of the server that wrote the entry.
    pub schema_version: Option<String>,
}

/// A message-tracking event, its texts as character sequences.
pub ghost struct MessageTrackingLogView {
    pub id: Option<i32>,
    pub date_time: PgDateTime,
    pub client_ip: Option<Seq<char>>,
    pub client_hostname: Option<Seq<char>>,
    pub server_ip: Option<Seq<char>>,
    pub server_hostname: Seq<char>,
    pub source_context: Option<Seq<char>>,
    pub connector_id: Option<Seq<char>>,
    pub source: Option<Seq<char>>,
    pub event_id: Seq<char>,
    pub internal_message_id: Seq<char>,
    pub message_id: Seq<char>,
    pub network_message_id: Seq<char>,
    pub recipient_address: Seq<char>,
    pub recipient_status: Option<Seq<char>>,
    pub total_bytes: Option<i32>,
    pub recipient_count: i32,
    pub related_recipient_address: Option<Seq<char>>,
    pub reference: Option<Seq<char>>,
    pub message_subject: Option<Seq<char>>,
    pub sender_address: Seq<char>,
    pub return_path: Option<Seq<char>>,
    pub message_info: Option<Seq<char>>,
    pub directionality: Option<Seq<char>>,
    pub tenant_id: Option<Seq<char>>,
    pub original_client_ip: Option<Seq<char>>,
    pub original_server_ip: Option<Seq<char>>,
    pub custom_data: Option<Seq<char>>,
    pub transport_traffic_type: Option<Seq<char>>,
    pub log_id: Option<Seq<char>>,
    pub schema_version: Option<Seq<char>>,
}

impl View for MessageTrackingLog {
    type V = MessageTrackingLogView;

    open spec fn view(&self) -> MessageTrackingLogView {
        MessageTrackingLogView {
            id: self.id,
            date_time: self.date_time,
            client_ip: self.client_ip.deep_view(),
            client_hostname: self.client_hostname.deep_view(),
            server_ip: self.server_ip.deep_view(),
            server_hostname: self.server_hostname@,
            source_context: self.source_context.deep_view(),
            connector_id: self.connector_id.deep_view(),
            source: self.source.deep_view(),
            event_id: self.event_id@,
            internal_message_id: self.internal_message_id@,
            message_id: self.message_id@,
            network_message_id: self.network_message_id@,
            recipient_address: self.recipient_address@,
            recipient_status: self.recipient_status.deep_view(),
            total_bytes: self.total_bytes,
            recipient_count: self.recipient_count,
            related_recipient_address: self.related_recipient_address.deep_view(),
            reference: self.reference.deep_view(),
            message_subject: self.message_subject.deep_view(),
            sender_address: self.sender_address@,
            return_path: self.return_path.deep_view(),
            message_info: self.message_info.deep_view(),
            directionality: self.directionality.deep_view(),
            tenant_id: self.tenant_id.deep_view(),
            original_client_ip: self.original_client_ip.deep_view(),
            original_server_ip: self.original_server_ip.deep_view(),
            custom_data: self.custom_data.deep_view(),
            transport_traffic_type: self.transport_traffic_type.deep_view(),
            log_id: self.log_id.deep_view(),
            schema_version: self.schema_version.deep_view(),
        }
    }
}

impl DeepView for MessageTrackingLog {
    type V = MessageTrackingLogView;

    open spec fn deep_view(&self) -> MessageTrackingLogView {
        self@
    }
}
/// The records of one file, by kind.
#[derive(Debug, Clone)]
pub enum ParsedLog {
    /// Inbound SMTP sessions, one record for each session id.
    SmtpReceive(Vec<SmtpReceiveLog>),
    /// Outbound SMTP sessions, one record for each session id.
    SmtpSend(Vec<SmtpSendLog>),
    /// Message-tracking events, one record for each qualifying line.
    MessageTracking(Vec<MessageTrackingLog>),
    /// The file declares no recognised kind and gives no records.
    Unknown,
}

/// The records of one file, their texts as character sequences.
pub ghost enum ParsedLogView {
    SmtpReceive(Seq<SmtpReceiveLogView>),
    SmtpSend(Seq<SmtpSendLogView>),
    MessageTracking(Seq<MessageTrackingLogView>),
    Unknown,
}

impl View for ParsedLog {
    type V = ParsedLogView;

    open spec fn view(&self) -> ParsedLogView {
        match self {
            ParsedLog::SmtpReceive(records) => ParsedLogView::SmtpReceive(records.deep_view()),
            ParsedLog::SmtpSend(records) => ParsedLogView::SmtpSend(records.deep_view()),
            ParsedLog::MessageTracking(records) => ParsedLogView::MessageTracking(
                records.deep_view(),
            ),
            ParsedLog::Unknown => ParsedLogView::Unknown,
        }
    }
}

impl ParsedLogView {
    /// How many records the file gave.
    pub open spec fn record_count(self) -> nat {
        match self {
            ParsedLogView::SmtpReceive(records) => records.len(),
            ParsedLogView::SmtpSend(records) => records.len(),
            ParsedLogView::MessageTracking(records) => records.len(),
            ParsedLogView::Unknown => 0,
        }
    }

    /// The kind under which the file was parsed.
    pub open spec fn log_type(self) -> LogType {
        match self {
            ParsedLogView::SmtpReceive(_) => LogType::SmtpReceive,
            ParsedLogView::SmtpSend(_) => LogType::SmtpSend,
            ParsedLogView::MessageTracking(_) => LogType::MessageTracking,
            ParsedLogView::Unknown => LogType::Unknown,
        }
    }
}

impl ParsedLog {
    /// How many records the file gave.
    pub fn record_count(&self) -> (count: usize)
        ensures
            count == self@.record_count(),
    {
        match self {
            ParsedLog::SmtpReceive(records) => records.len(),
            ParsedLog::SmtpSend(records) => records.len(),
            ParsedLog::MessageTracking(records) => records.len(),
            ParsedLog::Unknown => 0,
        }
    }

    /// The kind under which the file was parsed.
    pub fn log_type(&self) -> (kind: LogType)
        ensures
            kind == self@.log_type(),
    {
        match self {
            ParsedLog::SmtpReceive(_) => LogType::SmtpReceive,
            ParsedLog::SmtpSend(_) => LogType::SmtpSend,
            ParsedLog::MessageTracking(_) => LogType::MessageTracking,
            ParsedLog::Unknown => LogType::Unknown,
        }
    }
}

} // verus!
