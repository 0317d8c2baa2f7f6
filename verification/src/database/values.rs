//! The values that go into an insert statement, in the order of its columns,
//! and the fields by which a stored record is told from every other.

use crate::database::batch::{
    capped, events_of_success, initial_state, keys_differ, lemma_new_records_read_back,
    rows_counted, state_after_all, stored_after, BatchState,
};
use crate::session::{all_distinct, receive_ids, send_ids};
use crate::models::{
    MessageTrackingLog, MessageTrackingLogView, PgDateTime, SmtpReceiveLog, SmtpReceiveLogView,
    SmtpSendLog, SmtpSendLogView,
};
use vstd::prelude::*;

verus! {

/// A value bound to a placeholder of a statement.
#[derive(Debug, Clone)]
pub enum SqlValue {
    /// An instant.
    Timestamp(PgDateTime),
    /// A text, or the absence of one.
    Text(Option<String>),
    /// A 32-bit integer, or the absence of one.
    Integer(Option<i32>),
}

/// A value bound to a placeholder, its text as a character sequence.
pub ghost enum SqlValueView {
    Timestamp(PgDateTime),
    Text(Option<Seq<char>>),
    Integer(Option<i32>),
}

impl View for SqlValue {
    type V = SqlValueView;

    open spec fn view(&self) -> SqlValueView {
        match self {
            SqlValue::Timestamp(instant) => SqlValueView::Timestamp(*instant),
            SqlValue::Text(text) => SqlValueView::Text(text.deep_view()),
            SqlValue::Integer(number) => SqlValueView::Integer(*number),
        }
    }
}

impl DeepView for SqlValue {
    type V = SqlValueView;

    open spec fn deep_view(&self) -> SqlValueView {
        self@
    }
}

/// A copy of an optional text.
pub fn copy_of(text: &Option<String>) -> (copy: Option<String>)
    ensures
        copy.deep_view() == text.deep_view(),
{
    match text {
        Some(held) => Some(held.clone()),
        None => None,
    }
}

impl SmtpReceiveLogView {
    /// The values of the record, in the order of the columns of its table.
    pub open spec fn parameters(self) -> Seq<SqlValueView> {
        seq![
            SqlValueView::Timestamp(self.date_time),
            SqlValueView::Text(Some(self.connector_id)),
            SqlValueView::Text(Some(self.session_id)),
            SqlValueView::Integer(Some(self.sequence_number)),
            SqlValueView::Text(Some(self.local_endpoint)),
            SqlValueView::Text(Some(self.remote_endpoint)),
            SqlValueView::Text(Some(self.event)),
            SqlValueView::Text(self.data),
            SqlValueView::Text(self.context),
            SqlValueView::Text(self.sender),
            SqlValueView::Text(self.recipient),
            SqlValueView::Text(self.message_id),
            SqlValueView::Text(self.subject),
            SqlValueView::Integer(self.size),
        ]
    }

    /// The fields by which the store tells the record from every other.
    pub open spec fn natural_key(self) -> Seq<SqlValueView> {
        seq![
            SqlValueView::Timestamp(self.date_time),
            SqlValueView::Text(Some(self.session_id)),
            SqlValueView::Integer(Some(self.sequence_number)),
        ]
    }
}

impl SmtpReceiveLog {
    /// The values to insert for the record, in the order of the columns of
    /// its table. The row identity is the store's to give and is not among
    /// them.
    pub fn insert_parameters(&self) -> (values: Vec<SqlValue>)
        ensures
            values.deep_view() == self@.parameters(),
            values@.len() == 14,
    {
        let values = vec![
            SqlValue::Timestamp(self.date_time),
            SqlValue::Text(Some(self.connector_id.clone())),
            SqlValue::Text(Some(self.session_id.clone())),
            SqlValue::Integer(Some(self.sequence_number)),
            SqlValue::Text(Some(self.local_endpoint.clone())),
            SqlValue::Text(Some(self.remote_endpoint.clone())),
            SqlValue::Text(Some(self.event.clone())),
            SqlValue::Text(copy_of(&self.data)),
            SqlValue::Text(copy_of(&self.context)),
            SqlValue::Text(copy_of(&self.sender)),
            SqlValue::Text(copy_of(&self.recipient)),
            SqlValue::Text(copy_of(&self.message_id)),
            SqlValue::Text(copy_of(&self.subject)),
            SqlValue::Integer(self.size),
        ];
        assert(values.deep_view() =~= self@.parameters());
        values
    }

    /// The values by which the store tells the record from every other.
    pub fn natural_key(&self) -> (values: Vec<SqlValue>)
        ensures
            values.deep_view() == self@.natural_key(),
    {
        let values = vec![
            SqlValue::Timestamp(self.date_time),
            SqlValue::Text(Some(self.session_id.clone())),
            SqlValue::Integer(Some(self.sequence_number)),
        ];
        assert(values.deep_view() =~= self@.natural_key());
        values
    }
}

impl SmtpSendLogView {
    /// The values of the record, in the order of the columns of its table.
    pub open spec fn parameters(self) -> Seq<SqlValueView> {
        seq![
            SqlValueView::Timestamp(self.date_time),
            SqlValueView::Text(Some(self.connector_id)),
            SqlValueView::Text(Some(self.session_id)),
            SqlValueView::Integer(Some(self.sequence_number)),
            SqlValueView::Text(Some(self.local_endpoint)),
            SqlValueView::Text(Some(self.remote_endpoint)),
            SqlValueView::Text(Some(self.event)),
            SqlValueView::Text(self.data),
            SqlValueView::Text(self.context),
            SqlValueView::Text(self.proxy_session_id),
            SqlValueView::Text(self.sender),
            SqlValueView::Text(self.recipient),
            SqlValueView::Text(self.message_id),
            SqlValueView::Text(self.record_id),
        ]
    }

    /// The fields by which the store tells the record from every other.
    pub open spec fn natural_key(self) -> Seq<SqlValueView> {
        seq![
            SqlValueView::Timestamp(self.date_time),
            SqlValueView::Text(Some(self.session_id)),
            SqlValueView::Integer(Some(self.sequence_number)),
        ]
    }
}

impl SmtpSendLog {
    /// The values to insert for the record, in the order of the columns of
    /// its table. The row identity is the store's to give and is not among
    /// them.
    pub fn insert_parameters(&self) -> (values: Vec<SqlValue>)
        ensures
            values.deep_view() == self@.parameters(),
            values@.len() == 14,
    {
        let values = vec![
            SqlValue::Timestamp(self.date_time),
            SqlValue::Text(Some(self.connector_id.clone())),
            SqlValue::Text(Some(self.session_id.clone())),
            SqlValue::Integer(Some(self.sequence_number)),
            SqlValue::Text(Some(self.local_endpoint.clone())),
            SqlValue::Text(Some(self.remote_endpoint.clone())),
            SqlValue::Text(Some(self.event.clone())),
            SqlValue::Text(copy_of(&self.data)),
            SqlValue::Text(copy_of(&self.context)),
            SqlValue::Text(copy_of(&self.proxy_session_id)),
            SqlValue::Text(copy_of(&self.sender)),
            SqlValue::Text(copy_of(&self.recipient)),
            SqlValue::Text(copy_of(&self.message_id)),
            SqlValue::Text(copy_of(&self.record_id)),
        ];
        assert(values.deep_view() =~= self@.parameters());
        values
    }

    /// The values by which the store tells the record from every other.
    pub fn natural_key(&self) -> (values: Vec<SqlValue>)
        ensures
            values.deep_view() == self@.natural_key(),
    {
        let values = vec![
            SqlValue::Timestamp(self.date_time),
            SqlValue::Text(Some(self.session_id.clone())),
            SqlValue::Integer(Some(self.sequence_number)),
        ];
        assert(values.deep_view() =~= self@.natural_key());
        values
    }
}

impl MessageTrackingLogView {
    /// The values of the record, in the order of the columns of its table.
    pub open spec fn parameters(self) -> Seq<SqlValueView> {
        seq![
            SqlValueView::Timestamp(self.date_time),
            SqlValueView::Text(self.client_ip),
            SqlValueView::Text(self.client_hostname),
            SqlValueView::Text(self.server_ip),
            SqlValueView::Text(Some(self.server_hostname)),
            SqlValueView::Text(self.source_context),
            SqlValueView::Text(self.connector_id),
            SqlValueView::Text(self.source),
            SqlValueView::Text(Some(self.event_id)),
            SqlValueView::Text(Some(self.internal_message_id)),
            SqlValueView::Text(Some(self.message_id)),
            SqlValueView::Text(Some(self.network_message_id)),
            SqlValueView::Text(Some(self.recipient_address)),
            SqlValueView::Text(self.recipient_status),
            SqlValueView::Integer(self.total_bytes),
            SqlValueView::Integer(Some(self.recipient_count)),
            SqlValueView::Text(self.related_recipient_address),
            SqlValueView::Text(self.reference),
            SqlValueView::Text(self.message_subject),
            SqlValueView::Text(Some(self.sender_address)),
            SqlValueView::Text(self.return_path),
            SqlValueView::Text(self.message_info),
            SqlValueView::Text(self.directionality),
            SqlValueView::Text(self.tenant_id),
            SqlValueView::Text(self.original_client_ip),
            SqlValueView::Text(self.original_server_ip),
            SqlValueView::Text(self.custom_data),
            SqlValueView::Text(self.transport_traffic_type),
            SqlValueView::Text(self.log_id),
            SqlValueView::Text(self.schema_version),
        ]
    }

    /// The fields by which the store tells the record from every other.
    pub open spec fn natural_key(self) -> Seq<SqlValueView> {
        seq![
            SqlValueView::Timestamp(self.date_time),
            SqlValueView::Text(Some(self.internal_message_id)),
            SqlValueView::Text(Some(self.recipient_address)),
            SqlValueView::Text(Some(self.event_id)),
        ]
    }
}

impl MessageTrackingLog {
    /// The values to insert for the record, in the order of the columns of
    /// its table. The row identity is the store's to give and is not among
    /// them.
    pub fn insert_parameters(&self) -> (values: Vec<SqlValue>)
        ensures
            values.deep_view() == self@.parameters(),
            values@.len() == 30,
    {
        let values = vec![
            SqlValue::Timestamp(self.date_time),
            SqlValue::Text(copy_of(&self.client_ip)),
            SqlValue::Text(copy_of(&self.client_hostname)),
            SqlValue::Text(copy_of(&self.server_ip)),
            SqlValue::Text(Some(self.server_hostname.clone())),
            SqlValue::Text(copy_of(&self.source_context)),
            SqlValue::Text(copy_of(&self.connector_id)),
            SqlValue::Text(copy_of(&self.source)),
            SqlValue::Text(Some(self.event_id.clone())),
            SqlValue::Text(Some(self.internal_message_id.clone())),
            SqlValue::Text(Some(self.message_id.clone())),
            SqlValue::Text(Some(self.network_message_id.clone())),
            SqlValue::Text(Some(self.recipient_address.clone())),
            SqlValue::Text(copy_of(&self.recipient_status)),
            SqlValue::Integer(self.total_bytes),
            SqlValue::Integer(Some(self.recipient_count)),
            SqlValue::Text(copy_of(&self.related_recipient_address)),
            SqlValue::Text(copy_of(&self.reference)),
            SqlValue::Text(copy_of(&self.message_subject)),
            SqlValue::Text(Some(self.sender_address.clone())),
            SqlValue::Text(copy_of(&self.return_path)),
            SqlValue::Text(copy_of(&self.message_info)),
            SqlValue::Text(copy_of(&self.directionality)),
            SqlValue::Text(copy_of(&self.tenant_id)),
            SqlValue::Text(copy_of(&self.original_client_ip)),
            SqlValue::Text(copy_of(&self.original_server_ip)),
            SqlValue::Text(copy_of(&self.custom_data)),
            SqlValue::Text(copy_of(&self.transport_traffic_type)),
            SqlValue::Text(copy_of(&self.log_id)),
            SqlValue::Text(copy_of(&self.schema_version)),
        ];
        assert(values.deep_view() =~= self@.parameters());
        values
    }

    /// The values by which the store tells the record from every other.
    pub fn natural_key(&self) -> (values: Vec<SqlValue>)
        ensures
            values.deep_view() == self@.natural_key(),
    {
        let values = vec![
            SqlValue::Timestamp(self.date_time),
            SqlValue::Text(Some(self.internal_message_id.clone())),
            SqlValue::Text(Some(self.recipient_address.clone())),
            SqlValue::Text(Some(self.event_id.clone())),
        ];
        assert(values.deep_view() =~= self@.natural_key());
        values
    }
}

/// The natural key of an inbound record.
pub open spec fn receive_key() -> spec_fn(SmtpReceiveLogView) -> Seq<SqlValueView> {
    |record: SmtpReceiveLogView| record.natural_key()
}

/// The natural key of an outbound record.
pub open spec fn send_key() -> spec_fn(SmtpSendLogView) -> Seq<SqlValueView> {
    |record: SmtpSendLogView| record.natural_key()
}

/// The natural key of a message-tracking record.
pub open spec fn tracking_key() -> spec_fn(MessageTrackingLogView) -> Seq<SqlValueView> {
    |record: MessageTrackingLogView| record.natural_key()
}

/// The records that a file of SMTP events gives have natural keys that
/// differ from each other, since no two of them share a session id.
pub proof fn lemma_session_keys_differ(
    receive: Seq<SmtpReceiveLogView>,
    send: Seq<SmtpSendLogView>,
)
    ensures
        all_distinct(receive_ids(receive)) ==> keys_differ(receive_key(), receive),
        all_distinct(send_ids(send)) ==> keys_differ(send_key(), send),
{
    if all_distinct(receive_ids(receive)) {
        assert forall|i: int, j: int| 0 <= i < j < receive.len() implies receive_key()(
            receive[i],
        ) != receive_key()(receive[j]) by {
            assert(receive_ids(receive)[i] != receive_ids(receive)[j]);
            assert(receive[i].natural_key()[1] == SqlValueView::Text(Some(receive[i].session_id)));
            assert(receive[j].natural_key()[1] == SqlValueView::Text(Some(receive[j].session_id)));
        }
    }
    if all_distinct(send_ids(send)) {
        assert forall|i: int, j: int| 0 <= i < j < send.len() implies send_key()(send[i])
            != send_key()(send[j]) by {
            assert(send_ids(send)[i] != send_ids(send)[j]);
            assert(send[i].natural_key()[1] == SqlValueView::Text(Some(send[i].session_id)));
            assert(send[j].natural_key()[1] == SqlValueView::Text(Some(send[j].session_id)));
        }
    }
}

/// The round trip of the records of an SMTP file into an empty table: the
/// batch ends with as many rows as the file gave records, and asking the
/// table for the natural key of any of them gives the record back, every
/// field as it was parsed.
pub proof fn lemma_session_records_read_back(
    receive: Seq<SmtpReceiveLogView>,
    send: Seq<SmtpSendLogView>,
)
    ensures
        0 < receive.len() <= usize::MAX && all_distinct(receive_ids(receive)) ==> {
            let table = stored_after(Map::empty(), receive_key(), receive);
            &&& forall|i: int|
                0 <= i < receive.len() ==> table.dom().contains(
                    (#[trigger] receive[i]).natural_key(),
                ) && table[receive[i].natural_key()] == receive[i]
            &&& state_after_all(
                receive.len(),
                initial_state(receive.len()),
                events_of_success(rows_counted(Map::empty(), receive_key(), receive)),
            ) == (BatchState::Done { inserted: capped(receive.len() as int) })
        },
        0 < send.len() <= usize::MAX && all_distinct(send_ids(send)) ==> {
            let table = stored_after(Map::empty(), send_key(), send);
            &&& forall|i: int|
                0 <= i < send.len() ==> table.dom().contains((#[trigger] send[i]).natural_key())
                    && table[send[i].natural_key()] == send[i]
            &&& state_after_all(
                send.len(),
                initial_state(send.len()),
                events_of_success(rows_counted(Map::empty(), send_key(), send)),
            ) == (BatchState::Done { inserted: capped(send.len() as int) })
        },
{
    lemma_session_keys_differ(receive, send);
    if 0 < receive.len() <= usize::MAX && all_distinct(receive_ids(receive)) {
        lemma_new_records_read_back(Map::empty(), receive_key(), receive);
        let table = stored_after(Map::empty(), receive_key(), receive);
        assert forall|i: int| 0 <= i < receive.len() implies table.dom().contains(
            (#[trigger] receive[i]).natural_key(),
        ) && table[receive[i].natural_key()] == receive[i] by {
            assert(receive_key()(receive[i]) == receive[i].natural_key());
        }
    }
    if 0 < send.len() <= usize::MAX && all_distinct(send_ids(send)) {
        lemma_new_records_read_back(Map::empty(), send_key(), send);
        let table = stored_after(Map::empty(), send_key(), send);
        assert forall|i: int| 0 <= i < send.len() implies table.dom().contains(
            (#[trigger] send[i]).natural_key(),
        ) && table[send[i].natural_key()] == send[i] by {
            assert(send_key()(send[i]) == send[i].natural_key());
        }
    }
}

/// The round trip of message-tracking records into an empty table: where
/// their natural keys differ from each other, the batch ends with as many
/// rows as there are records, and asking the table for the natural key of any
/// of them gives the record back, every field as it was parsed.
pub proof fn lemma_tracking_records_read_back(records: Seq<MessageTrackingLogView>)
    requires
        0 < records.len() <= usize::MAX,
        keys_differ(tracking_key(), records),
    ensures
        forall|i: int|
            0 <= i < records.len() ==> stored_after(
                Map::empty(),
                tracking_key(),
                records,
            ).dom().contains((#[trigger] records[i]).natural_key()) && stored_after(
                Map::empty(),
                tracking_key(),
                records,
            )[records[i].natural_key()] == records[i],
        state_after_all(
            records.len(),
            initial_state(records.len()),
            events_of_success(rows_counted(Map::empty(), tracking_key(), records)),
        ) == (BatchState::Done { inserted: capped(records.len() as int) }),
{
    lemma_new_records_read_back(Map::empty(), tracking_key(), records);
    let table = stored_after(Map::empty(), tracking_key(), records);
    assert forall|i: int| 0 <= i < records.len() implies table.dom().contains(
        (#[trigger] records[i]).natural_key(),
    ) && table[records[i].natural_key()] == records[i] by {
        assert(tracking_key()(records[i]) == records[i].natural_key());
    }
}

} // verus!
