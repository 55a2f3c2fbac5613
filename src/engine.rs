use vstd::prelude::*;
use crate::codec::{
    decode_data_set, decoded_data_set, encode_command, encode_data_set, encoded_command,
    encoded_data_set, registry_has, transfer_syntax_known, worklist_find_sop_class,
    implicit_vr_little_endian,
};
use crate::dataset::{u16_of, DataSet, Tag, STATUS};
use crate::query::{find_req_command, is_find_command, is_identifier_of, QueryIdentifier};
use crate::record::{extract_record, record_of, DicomData, DicomDataView};

verus! {

/// Why a query did not produce a result set. Every variant is fatal to the query.
#[derive(Clone, Copy, Debug, PartialEq, Eq, Structural)]
pub enum QueryError {
    /// The transport could not be established.
    ConnectionError,
    /// No acceptable presentation context, or its transfer syntax is unknown locally.
    NegotiationError,
    /// The command or the identifier could not be encoded or sent.
    TransmissionError,
    /// A response could not be received.
    TransportError,
    /// A command or identifier payload was malformed.
    DecodeError,
    /// A message of an unexpected kind arrived during the query.
    ProtocolViolation,
    /// The server answered with a status that is neither success nor pending.
    QueryRejected(u16),
    /// The server stayed silent beyond the configured timeout.
    TimeoutError,
}

/// The stages of one query.
#[derive(Clone, Copy, Debug, PartialEq, Eq, Structural)]
pub enum Phase {
    /// Nothing is connected yet.
    Idle,
    /// The association is up and the request is ready to be sent.
    Associated,
    /// The request went out; responses are being collected.
    QueryPending,
    /// The server reported success; the association is released.
    Completed,
    /// The query failed; the association is aborted.
    Failed,
    /// The server broke the protocol; the association is aborted.
    Aborted,
}

/// A presentation context that the server accepted.
pub struct PresentationContext {
    pub id: u8,
    pub transfer_syntax: String,
}

/// One presentation data value of a data message.
pub struct DataFragment {
    pub presentation_context_id: u8,
    pub is_command: bool,
    pub is_last: bool,
    pub data: Vec<u8>,
}

/// The kinds of protocol data units that can arrive.
pub enum Message {
    Data(Vec<DataFragment>),
    AssociateRequest,
    AssociateAccept,
    AssociateReject,
    ReleaseRequest,
    ReleaseResponse,
    Abort,
    Unknown,
}

/// What the transport reports back to the engine.
pub enum Event {
    /// The transport could not be opened.
    ConnectFailed,
    /// The handshake was rejected or failed.
    Rejected,
    /// The handshake succeeded with these accepted presentation contexts.
    Accepted(Vec<PresentationContext>),
    /// Command and identifier were both sent.
    Sent,
    /// Sending failed.
    SendFailed,
    /// A message arrived.
    Received(Message),
    /// The identifier data set that follows a pending status arrived, as bytes.
    IdentifierReceived(Vec<u8>),
    /// Receiving failed.
    ReceiveFailed,
    /// The configured timeout expired.
    TimedOut,
}

/// The request to transmit: command first, then identifier, on one presentation context.
pub struct Request {
    pub presentation_context_id: u8,
    pub command: Vec<u8>,
    pub identifier: Vec<u8>,
}

/// What the transport is asked to do next.
pub enum Action {
    /// Send the command message, then the identifier message.
    Send(Request),
    /// Receive the next message.
    Receive,
    /// Receive the identifier data set attached to a pending response.
    ReceiveIdentifier,
    /// Release the association gracefully.
    Release,
    /// Abort the association (or whatever part of it exists).
    Abort,
    /// Nothing: the query is over.
    Stop,
}

/// An [`Action`] with its buffers as sequences.
pub enum ActionView {
    Send(u8, Seq<u8>, Seq<u8>),
    Receive,
    ReceiveIdentifier,
    Release,
    Abort,
    Stop,
}

impl View for Action {
    type V = ActionView;

    open spec fn view(&self) -> ActionView {
        match self {
            Action::Send(r) => ActionView::Send(r.presentation_context_id, r.command@, r.identifier@),
            Action::Receive => ActionView::Receive,
            Action::ReceiveIdentifier => ActionView::ReceiveIdentifier,
            Action::Release => ActionView::Release,
            Action::Abort => ActionView::Abort,
            Action::Stop => ActionView::Stop,
        }
    }
}

/// The state of a query as the contracts see it.
pub struct QueryState {
    pub phase: Phase,
    /// A pending status arrived and its identifier data set is expected next.
    pub awaiting_identifier: bool,
    /// The command set of the request.
    pub command: DataSet,
    /// The identifier data set of the request.
    pub identifier: DataSet,
    /// The transfer syntax negotiated for the identifier.
    pub transfer_syntax: Seq<char>,
    /// The records collected so far, in order of arrival.
    pub records: Seq<DicomDataView>,
    pub error: Option<QueryError>,
}

/// Whether the query is over.
pub open spec fn is_terminal(p: Phase) -> bool {
    p == Phase::Completed || p == Phase::Failed || p == Phase::Aborted
}

/// Stop on a fatal error and abort the association.
pub open spec fn fail(s: QueryState, e: QueryError) -> (QueryState, ActionView) {
    (
        QueryState {
            phase: if e == QueryError::ProtocolViolation { Phase::Aborted } else { Phase::Failed },
            awaiting_identifier: false,
            error: Some(e),
            ..s
        },
        ActionView::Abort,
    )
}

/// The step taken on the handshake's accepted contexts: take the first, resolve its
/// transfer syntax, and encode the command (implicit little endian) and the identifier
/// (negotiated syntax).
pub open spec fn accept(s: QueryState, contexts: Seq<PresentationContext>) -> (QueryState, ActionView) {
    if contexts.len() == 0 || !registry_has(contexts[0].transfer_syntax@) {
        fail(s, QueryError::NegotiationError)
    } else {
        let ts = contexts[0].transfer_syntax@;
        match (encoded_command(s.command), encoded_data_set(s.identifier, ts)) {
            (Some(c), Some(i)) => (
                QueryState { phase: Phase::Associated, transfer_syntax: ts, ..s },
                ActionView::Send(contexts[0].id, c, i),
            ),
            _ => fail(s, QueryError::TransmissionError),
        }
    }
}

/// Whether a status code means that a match follows.
pub open spec fn is_pending(code: u16) -> bool {
    code == 0xFF00 || code == 0xFF01
}

/// The step taken on a decoded response command (`None`: it could not be decoded).
pub open spec fn on_command_spec(s: QueryState, command: Option<DataSet>) -> (QueryState, ActionView) {
    match command {
        None => fail(s, QueryError::DecodeError),
        Some(c) => match u16_of(c, Tag::of(STATUS)) {
            None => fail(s, QueryError::DecodeError),
            Some(code) => if code == 0 {
                (QueryState { phase: Phase::Completed, ..s }, ActionView::Release)
            } else if is_pending(code) {
                (QueryState { awaiting_identifier: true, ..s }, ActionView::ReceiveIdentifier)
            } else {
                fail(s, QueryError::QueryRejected(code))
            },
        },
    }
}

/// The step taken on a decoded identifier (`None`: it could not be decoded).
pub open spec fn on_identifier_spec(s: QueryState, identifier: Option<DataSet>) -> (QueryState, ActionView) {
    match identifier {
        None => fail(s, QueryError::DecodeError),
        Some(ds) => (
            QueryState { awaiting_identifier: false, records: s.records.push(record_of(ds)), ..s },
            ActionView::Receive,
        ),
    }
}

/// The command of a data message: its first fragment, decoded in implicit little endian.
pub open spec fn command_of(fragments: Seq<DataFragment>) -> Option<DataSet> {
    if fragments.len() == 0 {
        None
    } else {
        decoded_data_set(fragments[0].data@, "1.2.840.10008.1.2"@)
    }
}

/// One step of the query: the state after `e` and what the transport does next.
pub open spec fn next(s: QueryState, e: Event) -> (QueryState, ActionView) {
    if is_terminal(s.phase) {
        (s, ActionView::Stop)
    } else {
        match e {
            Event::TimedOut => fail(s, QueryError::TimeoutError),
            Event::ConnectFailed if s.phase == Phase::Idle => fail(s, QueryError::ConnectionError),
            Event::Rejected if s.phase == Phase::Idle => fail(s, QueryError::NegotiationError),
            Event::Accepted(contexts) if s.phase == Phase::Idle => accept(s, contexts@),
            Event::Sent if s.phase == Phase::Associated => (
                QueryState { phase: Phase::QueryPending, ..s },
                ActionView::Receive,
            ),
            Event::SendFailed if s.phase == Phase::Associated => fail(s, QueryError::TransmissionError),
            Event::ReceiveFailed if s.phase == Phase::QueryPending => fail(s, QueryError::TransportError),
            Event::Received(Message::Data(f)) if s.phase == Phase::QueryPending && !s.awaiting_identifier =>
                on_command_spec(s, command_of(f@)),
            Event::IdentifierReceived(b) if s.phase == Phase::QueryPending && s.awaiting_identifier =>
                on_identifier_spec(s, decoded_data_set(b@, s.transfer_syntax)),
            _ => fail(s, QueryError::ProtocolViolation),
        }
    }
}

/// What the query delivers: nothing while it runs, the records once completed, the
/// error once failed or aborted.
pub open spec fn outcome(s: QueryState) -> Option<Result<Seq<DicomDataView>, QueryError>> {
    if s.phase == Phase::Completed {
        Some(Ok(s.records))
    } else {
        match s.error {
            Some(e) => Some(Err(e)),
            None => None,
        }
    }
}

/// The records of an outcome as views.
pub open spec fn result_view(r: Option<Result<Vec<DicomData>, QueryError>>) -> Option<Result<Seq<DicomDataView>, QueryError>> {
    match r {
        Some(Ok(v)) => Some(Ok(v@.map_values(|d: DicomData| d@))),
        Some(Err(e)) => Some(Err(e)),
        None => None,
    }
}

/// One modality worklist query, driven event by event by the transport that owns the
/// connection.
pub struct WorklistQuery {
    phase: Phase,
    awaiting_identifier: bool,
    command: DataSet,
    identifier: DataSet,
    transfer_syntax: String,
    records: Vec<DicomData>,
    error: Option<QueryError>,
}

impl View for WorklistQuery {
    type V = QueryState;

    closed spec fn view(&self) -> QueryState {
        QueryState {
            phase: self.phase,
            awaiting_identifier: self.awaiting_identifier,
            command: self.command,
            identifier: self.identifier,
            transfer_syntax: self.transfer_syntax@,
            records: self.records@.map_values(|d: DicomData| d@),
            error: self.error,
        }
    }
}

impl WorklistQuery {
    /// A query for `query`, not yet connected. Its command is the C-FIND request for
    /// the Modality Worklist Information Model with message number 1.
    pub fn new(query: &QueryIdentifier) -> (q: WorklistQuery)
        ensures
            q@.phase == Phase::Idle,
            !q@.awaiting_identifier,
            q@.transfer_syntax.len() == 0,
            q@.records.len() == 0,
            q@.error is None,
            is_find_command(q@.command, "1.2.840.10008.5.1.4.31"@, 1),
            is_identifier_of(q@.identifier, *query),
    {
        let q = WorklistQuery {
            phase: Phase::Idle,
            awaiting_identifier: false,
            command: find_req_command(worklist_find_sop_class(), 1),
            identifier: query.to_data_set(),
            transfer_syntax: String::new(),
            records: Vec::new(),
            error: None,
        };
        assert(q@.records =~= Seq::empty());
        q
    }

    /// The current phase.
    pub fn phase(&self) -> (p: Phase)
        ensures
            p == self@.phase,
    {
        self.phase
    }

    fn fail(&mut self, e: QueryError) -> (a: Action)
        ensures
            (final(self)@, a@) == fail(old(self)@, e),
    {
        self.phase = if e == QueryError::ProtocolViolation { Phase::Aborted } else { Phase::Failed };
        self.awaiting_identifier = false;
        self.error = Some(e);
        Action::Abort
    }

    fn accept(&mut self, contexts: Vec<PresentationContext>) -> (a: Action)
        ensures
            (final(self)@, a@) == accept(old(self)@, contexts@),
    {
        if contexts.len() == 0 {
            return self.fail(QueryError::NegotiationError);
        }
        let ctx = &contexts[0];
        if !transfer_syntax_known(ctx.transfer_syntax.as_str()) {
            return self.fail(QueryError::NegotiationError);
        }
        let command = encode_command(&self.command);
        let identifier = encode_data_set(&self.identifier, ctx.transfer_syntax.as_str());
        match (command, identifier) {
            (Some(c), Some(i)) => {
                self.phase = Phase::Associated;
                self.transfer_syntax = ctx.transfer_syntax.clone();
                Action::Send(Request { presentation_context_id: ctx.id, command: c, identifier: i })
            },
            _ => self.fail(QueryError::TransmissionError),
        }
    }

    /// Acts on the command of a response, already decoded (`None`: it was malformed).
    /// Success completes the query, a pending status asks for the identifier, any
    /// other status rejects the query.
    pub fn on_command(&mut self, command: Option<DataSet>) -> (a: Action)
        ensures
            (final(self)@, a@) == on_command_spec(old(self)@, command),
    {
        match command {
            None => self.fail(QueryError::DecodeError),
            Some(c) => match c.u16_value(Tag::from_code(STATUS)) {
                None => self.fail(QueryError::DecodeError),
                Some(code) => if code == 0 {
                    self.phase = Phase::Completed;
                    Action::Release
                } else if code == 0xFF00 || code == 0xFF01 {
                    self.awaiting_identifier = true;
                    Action::ReceiveIdentifier
                } else {
                    self.fail(QueryError::QueryRejected(code))
                },
            },
        }
    }

    /// Acts on the identifier of a pending response, already decoded (`None`: it was
    /// malformed): its record is appended and the next response is awaited.
    pub fn on_identifier(&mut self, identifier: Option<DataSet>) -> (a: Action)
        ensures
            (final(self)@, a@) == on_identifier_spec(old(self)@, identifier),
    {
        match identifier {
            None => self.fail(QueryError::DecodeError),
            Some(ds) => {
                let record = extract_record(&ds);
                let ghost old_records = self.records@;
                self.records.push(record);
                assert(self.records@.map_values(|d: DicomData| d@) =~= old_records.map_values(
                    |d: DicomData| d@,
                ).push(record_of(ds)));
                self.awaiting_identifier = false;
                Action::Receive
            },
        }
    }

    /// Advances the query by one event from the transport and says what to do next.
    pub fn handle(&mut self, event: Event) -> (a: Action)
        ensures
            (final(self)@, a@) == next(old(self)@, event),
    {
        if self.phase == Phase::Completed || self.phase == Phase::Failed || self.phase == Phase::Aborted {
            return Action::Stop;
        }
        match event {
            Event::TimedOut => self.fail(QueryError::TimeoutError),
            Event::ConnectFailed if self.phase == Phase::Idle => self.fail(QueryError::ConnectionError),
            Event::Rejected if self.phase == Phase::Idle => self.fail(QueryError::NegotiationError),
            Event::Accepted(contexts) if self.phase == Phase::Idle => self.accept(contexts),
            Event::Sent if self.phase == Phase::Associated => {
                self.phase = Phase::QueryPending;
                Action::Receive
            },
            Event::SendFailed if self.phase == Phase::Associated => self.fail(QueryError::TransmissionError),
            Event::ReceiveFailed if self.phase == Phase::QueryPending => self.fail(QueryError::TransportError),
            Event::Received(Message::Data(f)) if self.phase == Phase::QueryPending && !self.awaiting_identifier => {
                let command = if f.len() == 0 {
                    None
                } else {
                    decode_data_set(f[0].data.as_slice(), implicit_vr_little_endian())
                };
                self.on_command(command)
            },
            Event::IdentifierReceived(b) if self.phase == Phase::QueryPending && self.awaiting_identifier => {
                let identifier = decode_data_set(b.as_slice(), self.transfer_syntax.as_str());
                self.on_identifier(identifier)
            },
            _ => self.fail(QueryError::ProtocolViolation),
        }
    }

    /// The result of the query: `None` while it runs, the records in order of arrival
    /// once it completed, the error once it failed. No records come with an error.
    pub fn into_result(self) -> (r: Option<Result<Vec<DicomData>, QueryError>>)
        ensures
            result_view(r) == outcome(self@),
    {
        if self.phase == Phase::Completed {
            Some(Ok(self.records))
        } else {
            match self.error {
                Some(e) => Some(Err(e)),
                None => None,
            }
        }
    }
}

} // verus!
