//! Folding the lines of a file that share a session id into one record.
//!
//! The first line of a session opens its record and fixes the core fields;
//! every line, the first one too, adds what its free-text columns give away.
//! Records stand in the order in which their sessions were first seen.

use crate::error::ParseError;
use crate::extract::{
    find_in_receive_line, find_in_send_line, merge_number, merge_text, merged_number,
    merged_text, receive_findings_of, send_findings_of, ReceiveFindings, ReceiveFindingsView,
    SendFindings, SendFindingsView,
};
use crate::models::{SmtpReceiveLog, SmtpReceiveLogView, SmtpSendLog, SmtpSendLogView};
use crate::rows::RowReader;
use crate::schema::ColumnSchema;
use crate::smtp::{
    instant_in, read_common_fields, smtp_line_with, SmtpColumns, SmtpLine, SmtpLineView,
};
use crate::text::{chars_of, find_last, lemma_position_of, position_of, texts};
use vstd::prelude::*;

verus! {

/// No text stands at two positions.
pub open spec fn all_distinct(ids: Seq<Seq<char>>) -> bool {
    forall|i: int, j: int| 0 <= i < j < ids.len() ==> ids[i] != ids[j]
}

/// A record that the lines of one session are folded into.
pub trait SessionRecord: Sized {
    /// The record, its texts as character sequences.
    type Seen;

    /// What one line gives away for the record.
    type Found;

    /// What one line gives away, its texts as character sequences.
    type FoundSeen;

    /// The record, its texts as character sequences.
    spec fn seen(&self) -> Self::Seen;

    /// The findings, their texts as character sequences.
    spec fn found_seen(found: &Self::Found) -> Self::FoundSeen;

    /// The session that a record belongs to.
    spec fn session_of(record: Self::Seen) -> Seq<char>;

    /// The record that the first line of a session opens.
    spec fn opened(line: SmtpLineView) -> Self::Seen;

    /// A record after the findings of one more line.
    spec fn absorbed(record: Self::Seen, found: Self::FoundSeen) -> Self::Seen;

    /// What the free-text columns of a line give away, or the error of a
    /// pattern that cannot be used.
    spec fn findings_of(line: SmtpLineView) -> Result<Self::FoundSeen, ParseError>;

    /// A record belongs to the session of the line that opened it, and
    /// findings never move it to another.
    proof fn session_is_kept(line: SmtpLineView, record: Self::Seen, found: Self::FoundSeen)
        ensures
            Self::session_of(Self::opened(line)) == line.session_id,
            Self::session_of(Self::absorbed(record, found)) == Self::session_of(record),
    ;

    /// Opens the record of a session from its first line.
    fn open(line: SmtpLine) -> (record: Self)
        ensures
            record.seen() == Self::opened(line@),
    ;

    /// Takes in what one more line of the session gave away.
    fn absorb(&mut self, found: Self::Found)
        ensures
            final(self).seen() == Self::absorbed(old(self).seen(), Self::found_seen(&found)),
    ;

    /// Applies the rules of the kind to the free-text columns of a line.
    fn find(line: &SmtpLine) -> (outcome: Result<Self::Found, ParseError>)
        ensures
            match Self::findings_of(line@) {
                Ok(seen) => outcome matches Ok(found) && Self::found_seen(&found) == seen,
                Err(error) => outcome matches Err(raised) && raised == error,
            },
    ;
}

/// The records of a vector, their texts as character sequences.
pub open spec fn seen_all<R: SessionRecord>(records: Seq<R>) -> Seq<R::Seen> {
    Seq::new(records.len(), |i: int| records[i].seen())
}

/// The session ids of records, in the records' order.
pub open spec fn session_ids<R: SessionRecord>(records: Seq<R::Seen>) -> Seq<Seq<char>> {
    Seq::new(records.len(), |i: int| R::session_of(records[i]))
}

/// The records after one more line: the line's findings go into the record
/// of its session, which the line opens if there is none yet.
pub open spec fn observed<R: SessionRecord>(
    records: Seq<R::Seen>,
    line: SmtpLineView,
    found: R::FoundSeen,
) -> Seq<R::Seen> {
    match position_of(session_ids::<R>(records), line.session_id) {
        Some(at) => records.update(at, R::absorbed(records[at], found)),
        None => records.push(R::absorbed(R::opened(line), found)),
    }
}

/// The records after a data row that is long enough for the declaration:
/// what the row gives away goes into the record of its session, which the
/// row opens if there is none yet. An error in the row ends the file.
pub open spec fn session_after_row<R: SessionRecord>(
    names: Seq<Seq<char>>,
    records: Seq<R::Seen>,
    fields: Seq<Seq<char>>,
) -> Result<Seq<R::Seen>, ParseError> {
    match smtp_line_with(names, fields, instant_in(names, fields)) {
        Ok(Some(core)) => match R::findings_of(core) {
            Ok(found) => Ok(observed::<R>(records, core, found)),
            Err(error) => Err(error),
        },
        Ok(None) => Ok(records),
        Err(error) => Err(error),
    }
}

/// Taking in a line keeps one record for each session id.
pub proof fn lemma_observed_distinct<R: SessionRecord>(
    records: Seq<R::Seen>,
    line: SmtpLineView,
    found: R::FoundSeen,
)
    requires
        all_distinct(session_ids::<R>(records)),
    ensures
        all_distinct(session_ids::<R>(observed::<R>(records, line, found))),
{
    let ids = session_ids::<R>(records);
    let after = session_ids::<R>(observed::<R>(records, line, found));
    lemma_position_of(ids, line.session_id);
    match position_of(ids, line.session_id) {
        Some(at) => {
            R::session_is_kept(line, records[at], found);
            assert(after =~= ids);
        },
        None => {
            R::session_is_kept(line, R::opened(line), found);
            assert(after =~= ids.push(line.session_id));
        },
    }
}

/// The second line of a session joins the record that the first one opened:
/// after two lines of a session that was not seen before, the records are
/// those that were there and one more, which the first line opened and both
/// lines added to.
pub proof fn lemma_second_line_joins<R: SessionRecord>(
    records: Seq<R::Seen>,
    first: SmtpLineView,
    first_found: R::FoundSeen,
    second: SmtpLineView,
    second_found: R::FoundSeen,
)
    requires
        position_of(session_ids::<R>(records), first.session_id).is_none(),
        second.session_id == first.session_id,
    ensures
        observed::<R>(observed::<R>(records, first, first_found), second, second_found)
            == records.push(
            R::absorbed(R::absorbed(R::opened(first), first_found), second_found),
        ),
{
    let record = R::absorbed(R::opened(first), first_found);
    R::session_is_kept(first, R::opened(first), first_found);
    let opened = observed::<R>(records, first, first_found);
    assert(session_ids::<R>(opened) =~= session_ids::<R>(records).push(first.session_id));
    assert(session_ids::<R>(opened).drop_last() =~= session_ids::<R>(records));
    assert(position_of(session_ids::<R>(opened), second.session_id) == Some(
        records.len() as int,
    ));
    assert(observed::<R>(opened, second, second_found) =~= records.push(
        R::absorbed(record, second_found),
    ));
}

/// The sessions of one file, one record for each session id.
pub struct Sessions<R> {
    ids: Vec<Vec<char>>,
    records: Vec<R>,
}

impl<R: SessionRecord> View for Sessions<R> {
    type V = Seq<R::Seen>;

    /// The records, in the order in which their sessions were first seen.
    closed spec fn view(&self) -> Seq<R::Seen> {
        seen_all::<R>(self.records@)
    }
}

impl<R: SessionRecord> Sessions<R> {
    /// The index of session ids is that of the records, and no session has
    /// two records.
    pub closed spec fn well_formed(&self) -> bool {
        &&& texts(self.ids@) == session_ids::<R>(self@)
        &&& all_distinct(session_ids::<R>(self@))
    }

    /// No session yet.
    pub fn new() -> (sessions: Sessions<R>)
        ensures
            sessions.well_formed(),
            sessions@ == Seq::<R::Seen>::empty(),
    {
        let sessions = Sessions { ids: Vec::new(), records: Vec::new() };
        assert(sessions@ =~= Seq::<R::Seen>::empty());
        assert(texts(sessions.ids@) =~= session_ids::<R>(sessions@));
        sessions
    }

    /// Takes in one line and what its free-text columns gave away.
    pub fn observe(&mut self, line: SmtpLine, found: R::Found)
        requires
            old(self).well_formed(),
        ensures
            final(self).well_formed(),
            final(self)@ == observed::<R>(old(self)@, line@, R::found_seen(&found)),
    {
        let id = chars_of(line.session_id.as_str());
        let ghost before = self@;
        let ghost found_seen = R::found_seen(&found);
        proof {
            lemma_observed_distinct::<R>(before, line@, found_seen);
        }
        match find_last(&self.ids, id.as_slice()) {
            Some(at) => {
                assert(at < self.records@.len()) by {
                    assert(texts(self.ids@).len() == session_ids::<R>(self@).len());
                }
                let record = &mut self.records[at];
                record.absorb(found);
                proof {
                    R::session_is_kept(line@, before[at as int], found_seen);
                }
                assert(self@ =~= before.update(
                    at as int,
                    R::absorbed(before[at as int], found_seen),
                ));
                assert(session_ids::<R>(self@) =~= session_ids::<R>(before));
            },
            None => {
                let ghost ids_before = texts(self.ids@);
                let mut record = R::open(line);
                record.absorb(found);
                proof {
                    R::session_is_kept(line@, R::opened(line@), found_seen);
                }
                self.ids.push(id);
                self.records.push(record);
                assert(self@ =~= before.push(record.seen()));
                assert(texts(self.ids@) =~= ids_before.push(id@));
                assert(session_ids::<R>(self@) =~= session_ids::<R>(before).push(
                    R::session_of(record.seen()),
                ));
            },
        }
    }

    /// How many sessions were seen.
    pub fn len(&self) -> (count: usize)
        ensures
            count == self@.len(),
    {
        self.records.len()
    }

    /// The records, in the order in which their sessions were first seen.
    pub fn into_records(self) -> (records: Vec<R>)
        requires
            self.well_formed(),
        ensures
            seen_all::<R>(records@) == self@,
            all_distinct(session_ids::<R>(seen_all::<R>(records@))),
    {
        self.records
    }
}

impl<R: SessionRecord> RowReader for Sessions<R> {
    type Record = R::Seen;

    type Columns = SmtpColumns;

    open spec fn records(&self) -> Seq<R::Seen> {
        self@
    }

    open spec fn consistent(&self) -> bool {
        self.well_formed()
    }

    open spec fn columns_consistent(columns: &SmtpColumns) -> bool {
        columns.well_formed()
    }

    open spec fn names(columns: &SmtpColumns) -> Seq<Seq<char>> {
        columns.names()
    }

    open spec fn after_row(
        names: Seq<Seq<char>>,
        records: Seq<R::Seen>,
        fields: Seq<Seq<char>>,
    ) -> Result<Seq<R::Seen>, ParseError> {
        session_after_row::<R>(names, records, fields)
    }

    fn start() -> (reader: Sessions<R>) {
        Sessions::new()
    }

    fn resolve(schema: &ColumnSchema) -> (columns: SmtpColumns) {
        SmtpColumns::resolve(schema)
    }

    fn width(columns: &SmtpColumns) -> (width: usize) {
        columns.width()
    }

    fn take_row(&mut self, fields: &Vec<Vec<char>>, columns: &SmtpColumns) -> (outcome: Result<
        (),
        ParseError,
    >) {
        match read_common_fields(fields, columns) {
            Ok(Some(core)) => match R::find(&core) {
                Ok(found) => {
                    self.observe(core, found);
                    Ok(())
                },
                Err(error) => Err(error),
            },
            Ok(None) => Ok(()),
            Err(error) => Err(error),
        }
    }
}

/// The inbound sessions of one file.
pub type ReceiveSessions = Sessions<SmtpReceiveLog>;

/// The outbound sessions of one file.
pub type SendSessions = Sessions<SmtpSendLog>;

/// The session ids of inbound records, in the records' order.
pub open spec fn receive_ids(records: Seq<SmtpReceiveLogView>) -> Seq<Seq<char>> {
    session_ids::<SmtpReceiveLog>(records)
}

/// The session ids of outbound records, in the records' order.
pub open spec fn send_ids(records: Seq<SmtpSendLogView>) -> Seq<Seq<char>> {
    session_ids::<SmtpSendLog>(records)
}

/// The record that the first line of an inbound session opens.
pub open spec fn opened_receive(line: SmtpLineView) -> SmtpReceiveLogView {
    SmtpReceiveLogView {
        id: None,
        date_time: line.date_time,
        connector_id: line.connector_id,
        session_id: line.session_id,
        sequence_number: line.sequence_number,
        local_endpoint: line.local_endpoint,
        remote_endpoint: line.remote_endpoint,
        event: line.event,
        data: line.data,
        context: line.context,
        sender: None,
        recipient: None,
        message_id: None,
        subject: None,
        size: None,
    }
}

/// An inbound record after the findings of one more line: each finding
/// goes to its own field, and the rest of the record stays.
pub open spec fn absorbed_receive(
    record: SmtpReceiveLogView,
    found: ReceiveFindingsView,
) -> SmtpReceiveLogView {
    SmtpReceiveLogView {
        size: merged_number(record.size, found.size),
        sender: merged_text(record.sender, found.sender),
        recipient: merged_text(record.recipient, found.recipient),
        message_id: merged_text(record.message_id, found.message_id),
        ..record
    }
}

impl SessionRecord for SmtpReceiveLog {
    type Seen = SmtpReceiveLogView;

    type Found = ReceiveFindings;

    type FoundSeen = ReceiveFindingsView;

    open spec fn seen(&self) -> SmtpReceiveLogView {
        self@
    }

    open spec fn found_seen(found: &ReceiveFindings) -> ReceiveFindingsView {
        found@
    }

    open spec fn session_of(record: SmtpReceiveLogView) -> Seq<char> {
        record.session_id
    }

    open spec fn opened(line: SmtpLineView) -> SmtpReceiveLogView {
        opened_receive(line)
    }

    open spec fn absorbed(
        record: SmtpReceiveLogView,
        found: ReceiveFindingsView,
    ) -> SmtpReceiveLogView {
        absorbed_receive(record, found)
    }

    open spec fn findings_of(line: SmtpLineView) -> Result<ReceiveFindingsView, ParseError> {
        receive_findings_of(line.data)
    }

    proof fn session_is_kept(
        line: SmtpLineView,
        record: SmtpReceiveLogView,
        found: ReceiveFindingsView,
    ) {
    }

    fn open(line: SmtpLine) -> (record: SmtpReceiveLog) {
        SmtpReceiveLog {
            id: None,
            date_time: line.date_time,
            connector_id: line.connector_id,
            session_id: line.session_id,
            sequence_number: line.sequence_number,
            local_endpoint: line.local_endpoint,
            remote_endpoint: line.remote_endpoint,
            event: line.event,
            data: line.data,
            context: line.context,
            sender: None,
            recipient: None,
            message_id: None,
            subject: None,
            size: None,
        }
    }

    fn absorb(&mut self, found: ReceiveFindings) {
        merge_number(&mut self.size, found.size);
        merge_text(&mut self.sender, found.sender);
        merge_text(&mut self.recipient, found.recipient);
        merge_text(&mut self.message_id, found.message_id);
    }

    fn find(line: &SmtpLine) -> (outcome: Result<ReceiveFindings, ParseError>) {
        find_in_receive_line(&line.data)
    }
}

/// The record that the first line of an outbound session opens.
pub open spec fn opened_send(line: SmtpLineView) -> SmtpSendLogView {
    SmtpSendLogView {
        id: None,
        date_time: line.date_time,
        connector_id: line.connector_id,
        session_id: line.session_id,
        sequence_number: line.sequence_number,
        local_endpoint: line.local_endpoint,
        remote_endpoint: line.remote_endpoint,
        event: line.event,
        data: line.data,
        context: line.context,
        proxy_session_id: None,
        sender: None,
        recipient: None,
        message_id: None,
        record_id: None,
    }
}

/// An outbound record after the findings of one more line: each finding
/// goes to its own field, and the rest of the record stays.
pub open spec fn absorbed_send(
    record: SmtpSendLogView,
    found: SendFindingsView,
) -> SmtpSendLogView {
    SmtpSendLogView {
        proxy_session_id: merged_text(record.proxy_session_id, found.proxy_session_id),
        record_id: merged_text(record.record_id, found.record_id),
        message_id: merged_text(record.message_id, found.message_id),
        sender: merged_text(record.sender, found.sender),
        recipient: merged_text(record.recipient, found.recipient),
        ..record
    }
}

impl SessionRecord for SmtpSendLog {
    type Seen = SmtpSendLogView;

    type Found = SendFindings;

    type FoundSeen = SendFindingsView;

    open spec fn seen(&self) -> SmtpSendLogView {
        self@
    }

    open spec fn found_seen(found: &SendFindings) -> SendFindingsView {
        found@
    }

    open spec fn session_of(record: SmtpSendLogView) -> Seq<char> {
        record.session_id
    }

    open spec fn opened(line: SmtpLineView) -> SmtpSendLogView {
        opened_send(line)
    }

    open spec fn absorbed(record: SmtpSendLogView, found: SendFindingsView) -> SmtpSendLogView {
        absorbed_send(record, found)
    }

    open spec fn findings_of(line: SmtpLineView) -> Result<SendFindingsView, ParseError> {
        send_findings_of(line.context, line.data)
    }

    proof fn session_is_kept(line: SmtpLineView, record: SmtpSendLogView, found: SendFindingsView) {
    }

    fn open(line: SmtpLine) -> (record: SmtpSendLog) {
        SmtpSendLog {
            id: None,
            date_time: line.date_time,
            connector_id: line.connector_id,
            session_id: line.session_id,
            sequence_number: line.sequence_number,
            local_endpoint: line.local_endpoint,
            remote_endpoint: line.remote_endpoint,
            event: line.event,
            data: line.data,
            context: line.context,
            proxy_session_id: None,
            sender: None,
            recipient: None,
            message_id: None,
            record_id: None,
        }
    }

    fn absorb(&mut self, found: SendFindings) {
        merge_text(&mut self.proxy_session_id, found.proxy_session_id);
        merge_text(&mut self.record_id, found.record_id);
        merge_text(&mut self.message_id, found.message_id);
        merge_text(&mut self.sender, found.sender);
        merge_text(&mut self.recipient, found.recipient);
    }

    fn find(line: &SmtpLine) -> (outcome: Result<SendFindings, ParseError>) {
        find_in_send_line(&line.context, &line.data)
    }
}

/// Two lines of one session give one record: where the first line gives away
/// a sender and the second a recipient and no sender, the record holds both,
/// and its time stamp and sequence number are those of the first line. This
/// holds of inbound and of outbound sessions alike.
pub proof fn lemma_session_merge(
    first: SmtpLineView,
    second: SmtpLineView,
    sender: Seq<char>,
    recipient: Seq<char>,
    inbound: Seq<SmtpReceiveLogView>,
    first_inbound: ReceiveFindingsView,
    second_inbound: ReceiveFindingsView,
    outbound: Seq<SmtpSendLogView>,
    first_outbound: SendFindingsView,
    second_outbound: SendFindingsView,
)
    requires
        second.session_id == first.session_id,
        sender.len() > 0,
        recipient.len() > 0,
    ensures
        ({
            &&& position_of(receive_ids(inbound), first.session_id).is_none()
            &&& first_inbound.sender == Some(sender)
            &&& second_inbound.sender.is_none()
            &&& second_inbound.recipient == Some(recipient)
        }) ==> {
            let after = observed::<SmtpReceiveLog>(
                observed::<SmtpReceiveLog>(inbound, first, first_inbound),
                second,
                second_inbound,
            );
            &&& after.len() == inbound.len() + 1
            &&& after.drop_last() == inbound
            &&& after.last().session_id == first.session_id
            &&& after.last().sender == Some(sender)
            &&& after.last().recipient == Some(recipient)
            &&& after.last().date_time == first.date_time
            &&& after.last().sequence_number == first.sequence_number
        },
        ({
            &&& position_of(send_ids(outbound), first.session_id).is_none()
            &&& first_outbound.sender == Some(sender)
            &&& second_outbound.sender.is_none()
            &&& second_outbound.recipient == Some(recipient)
        }) ==> {
            let after = observed::<SmtpSendLog>(
                observed::<SmtpSendLog>(outbound, first, first_outbound),
                second,
                second_outbound,
            );
            &&& after.len() == outbound.len() + 1
            &&& after.drop_last() == outbound
            &&& after.last().session_id == first.session_id
            &&& after.last().sender == Some(sender)
            &&& after.last().recipient == Some(recipient)
            &&& after.last().date_time == first.date_time
            &&& after.last().sequence_number == first.sequence_number
        },
{
    if position_of(receive_ids(inbound), first.session_id).is_none() {
        lemma_second_line_joins::<SmtpReceiveLog>(
            inbound,
            first,
            first_inbound,
            second,
            second_inbound,
        );
        let record = absorbed_receive(
            absorbed_receive(opened_receive(first), first_inbound),
            second_inbound,
        );
        assert(inbound.push(record).drop_last() == inbound);
    }
    if position_of(send_ids(outbound), first.session_id).is_none() {
        lemma_second_line_joins::<SmtpSendLog>(
            outbound,
            first,
            first_outbound,
            second,
            second_outbound,
        );
        let record = absorbed_send(absorbed_send(opened_send(first), first_outbound), second_outbound);
        assert(outbound.push(record).drop_last() == outbound);
    }
}

/// A line never takes anything away from the record of its session: the
/// core fields stay as the first line set them, and a field that held
/// something still holds something.
pub proof fn lemma_absorbed_receive_keeps(record: SmtpReceiveLogView, found: ReceiveFindingsView)
    ensures
        ({
            let after = absorbed_receive(record, found);
            &&& after.date_time == record.date_time
            &&& after.session_id == record.session_id
            &&& after.sequence_number == record.sequence_number
            &&& after.connector_id == record.connector_id
            &&& after.local_endpoint == record.local_endpoint
            &&& after.remote_endpoint == record.remote_endpoint
            &&& after.event == record.event
            &&& after.data == record.data
            &&& after.context == record.context
            &&& record.size.is_some() ==> after.size.is_some()
            &&& record.sender.is_some() ==> after.sender.is_some()
            &&& record.recipient.is_some() ==> after.recipient.is_some()
            &&& record.message_id.is_some() ==> after.message_id.is_some()
        }),
{
}

/// A line never takes anything away from the record of its session: the
/// core fields stay as the first line set them, and a field that held
/// something still holds something.
pub proof fn lemma_absorbed_send_keeps(record: SmtpSendLogView, found: SendFindingsView)
    ensures
        ({
            let after = absorbed_send(record, found);
            &&& after.date_time == record.date_time
            &&& after.session_id == record.session_id
            &&& after.sequence_number == record.sequence_number
            &&& after.connector_id == record.connector_id
            &&& after.local_endpoint == record.local_endpoint
            &&& after.remote_endpoint == record.remote_endpoint
            &&& after.event == record.event
            &&& after.data == record.data
            &&& after.context == record.context
            &&& record.proxy_session_id.is_some() ==> after.proxy_session_id.is_some()
            &&& record.record_id.is_some() ==> after.record_id.is_some()
            &&& record.message_id.is_some() ==> after.message_id.is_some()
            &&& record.sender.is_some() ==> after.sender.is_some()
            &&& record.recipient.is_some() ==> after.recipient.is_some()
        }),
{
}

} // verus!
