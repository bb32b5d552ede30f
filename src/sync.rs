use vstd::prelude::*;

use crate::batch::{decode_batch, next_batch_in, SyncError, SyncResponse};
use crate::endpoint::Endpoint;
use crate::request::{build_request, request_target, token_view, SyncRequest};

verus! {

/// What the pending connection attempt reported when it was polled.
#[derive(Clone, Copy, Debug, PartialEq, Eq, Structural)]
pub enum ConnectOutcome {
    Pending,
    Established,
    Failed,
}

/// The answer of a connection lifecycle to a poll.
#[derive(Clone, Copy, Debug, PartialEq, Eq, Structural)]
pub enum ConnectPoll {
    NotReady,
    Ready,
    Failed,
}

/// The connection lifecycle: it moves from `Connecting` to `Connected` once
/// and never back.
#[derive(Clone, Copy, Debug, PartialEq, Eq, Structural)]
pub enum SyncState {
    Connecting,
    Connected,
}

impl SyncState {
    /// Advances the lifecycle by what the pending connection reported. Once
    /// connected, the outcome is not looked at and the stream is ready.
    pub fn poll(&mut self, outcome: ConnectOutcome) -> (r: ConnectPoll)
        ensures
            *old(self) == SyncState::Connected ==> *final(self) == SyncState::Connected && r == ConnectPoll::Ready,
            *old(self) == SyncState::Connecting ==> match outcome {
                ConnectOutcome::Pending => *final(self) == SyncState::Connecting && r == ConnectPoll::NotReady,
                ConnectOutcome::Failed => *final(self) == SyncState::Connecting && r == ConnectPoll::Failed,
                ConnectOutcome::Established => *final(self) == SyncState::Connected && r == ConnectPoll::Ready,
            },
    {
        match *self {
            SyncState::Connected => ConnectPoll::Ready,
            SyncState::Connecting => match outcome {
                ConnectOutcome::Pending => ConnectPoll::NotReady,
                ConnectOutcome::Failed => ConnectPoll::Failed,
                ConnectOutcome::Established => {
                    *self = SyncState::Connected;
                    ConnectPoll::Ready
                },
            },
        }
    }
}

/// What the caller observed since the last step, handed to `poll_sync`.
pub enum SyncEvent {
    /// A new poll: nothing has been observed.
    Poll,
    /// The pending connection was polled.
    Connect(ConnectOutcome),
    /// The request of the last `Send` step went out.
    Sent,
    /// Driving the stream failed.
    TransportFailed,
    /// The response to the request in flight has not arrived yet.
    ResponsePending,
    /// The response to the request in flight arrived: its status and body.
    Response(u16, Vec<u8>),
}

/// What the caller is to do next.
pub enum SyncStep {
    /// Poll the pending connection and report `Connect`.
    PollConnection,
    /// Send this request and report `Sent`.
    Send(SyncRequest),
    /// Drive the stream, poll the response, and report what was seen.
    PollResponse,
    /// Nothing more can be done until the transport is ready again.
    NotReady,
    /// A round trip completed with this batch.
    Ready(SyncResponse),
    /// The sync failed; it makes no further progress.
    Fail(SyncError),
}

/// The abstract state of a client.
pub struct ClientModel {
    pub host: Seq<char>,
    pub port: u16,
    pub path: Seq<char>,
    pub access_token: Seq<char>,
    pub next_token: Option<Seq<char>>,
    pub connected: bool,
    pub in_flight: bool,
    pub failed: bool,
}

/// The abstract form of an event.
pub enum EventModel {
    Poll,
    Connect(ConnectOutcome),
    Sent,
    TransportFailed,
    ResponsePending,
    Response(u16, Seq<u8>),
}

/// The abstract form of a request: host, target, and the `since` token.
pub struct RequestModel {
    pub host: Seq<char>,
    pub target: Seq<char>,
    pub since: Option<Seq<char>>,
}

/// The abstract form of a step; a batch is its token and its body.
pub enum StepModel {
    PollConnection,
    Send(RequestModel),
    PollResponse,
    NotReady,
    Ready(Seq<char>, Seq<u8>),
    Fail(SyncError),
}

impl View for SyncEvent {
    type V = EventModel;

    open spec fn view(&self) -> EventModel {
        match self {
            SyncEvent::Poll => EventModel::Poll,
            SyncEvent::Connect(o) => EventModel::Connect(*o),
            SyncEvent::Sent => EventModel::Sent,
            SyncEvent::TransportFailed => EventModel::TransportFailed,
            SyncEvent::ResponsePending => EventModel::ResponsePending,
            SyncEvent::Response(code, body) => EventModel::Response(*code, body@),
        }
    }
}

impl View for SyncRequest {
    type V = RequestModel;

    open spec fn view(&self) -> RequestModel {
        RequestModel { host: self.host@, target: self.target@, since: token_view(self.since) }
    }
}

impl View for SyncStep {
    type V = StepModel;

    open spec fn view(&self) -> StepModel {
        match self {
            SyncStep::PollConnection => StepModel::PollConnection,
            SyncStep::Send(req) => StepModel::Send(req@),
            SyncStep::PollResponse => StepModel::PollResponse,
            SyncStep::NotReady => StepModel::NotReady,
            SyncStep::Ready(b) => StepModel::Ready(b.next_batch@, b.body@),
            SyncStep::Fail(e) => StepModel::Fail(*e),
        }
    }
}

/// The request a client in state `c` sends next.
pub open spec fn request_of(c: ClientModel) -> RequestModel {
    RequestModel {
        host: c.host,
        target: request_target(c.path, c.access_token, c.next_token),
        since: c.next_token,
    }
}

/// The state of a new client: connecting, with no token and nothing in flight.
pub open spec fn initial(host: Seq<char>, port: u16, path: Seq<char>, access_token: Seq<char>) -> ClientModel {
    ClientModel {
        host,
        port,
        path,
        access_token,
        next_token: None,
        connected: false,
        in_flight: false,
        failed: false,
    }
}

/// A state that can be reached: no request is in flight before the
/// connection is established.
pub open spec fn reachable(c: ClientModel) -> bool {
    c.in_flight ==> c.connected
}

/// Issues the next request: marks it in flight and sends it.
pub open spec fn issue(c: ClientModel) -> (ClientModel, StepModel) {
    (ClientModel { connected: true, in_flight: true, ..c }, StepModel::Send(request_of(c)))
}

/// Ends the sync with `e`.
pub open spec fn fail(c: ClientModel, e: SyncError) -> (ClientModel, StepModel) {
    (ClientModel { failed: true, ..c }, StepModel::Fail(e))
}

/// What one step does: the next state and the step, from the state and the
/// event.
pub open spec fn step(c: ClientModel, e: EventModel) -> (ClientModel, StepModel) {
    if c.failed {
        (c, StepModel::Fail(SyncError::Terminated))
    } else if !c.connected {
        match e {
            EventModel::Connect(ConnectOutcome::Pending) => (c, StepModel::NotReady),
            EventModel::Connect(ConnectOutcome::Failed) => fail(c, SyncError::Connection),
            EventModel::Connect(ConnectOutcome::Established) => issue(c),
            _ => (c, StepModel::PollConnection),
        }
    } else if !c.in_flight {
        issue(c)
    } else {
        match e {
            EventModel::TransportFailed => fail(c, SyncError::Transport),
            EventModel::ResponsePending => (c, StepModel::NotReady),
            EventModel::Response(code, body) => {
                let done = ClientModel { in_flight: false, ..c };
                if code != 200 {
                    fail(done, SyncError::Status(code))
                } else {
                    match next_batch_in(body) {
                        Some(t) => (ClientModel { next_token: Some(t), ..done }, StepModel::Ready(t, body)),
                        None => fail(done, SyncError::InvalidBody),
                    }
                }
            },
            _ => (c, StepModel::PollResponse),
        }
    }
}

/// A client of the sync resource of one server.
pub struct MatrixSyncClient {
    endpoint: Endpoint,
    access_token: String,
    next_token: Option<String>,
    sync_state: SyncState,
    in_flight: bool,
    failed: bool,
}

impl View for MatrixSyncClient {
    type V = ClientModel;

    closed spec fn view(&self) -> ClientModel {
        ClientModel {
            host: self.endpoint.host@,
            port: self.endpoint.port,
            path: self.endpoint.path@,
            access_token: self.access_token@,
            next_token: token_view(self.next_token),
            connected: self.sync_state == SyncState::Connected,
            in_flight: self.in_flight,
            failed: self.failed,
        }
    }
}

impl MatrixSyncClient {
    /// No request is in flight before the connection is established.
    #[verifier::type_invariant]
    spec fn in_flight_only_when_connected(&self) -> bool {
        self.in_flight ==> self.sync_state == SyncState::Connected
    }

    /// A client of `endpoint` that sends `access_token` with every request.
    /// The caller starts connecting to the endpoint's host and port.
    pub fn new(endpoint: Endpoint, access_token: String) -> (r: MatrixSyncClient)
        ensures
            r@ == initial(endpoint.host@, endpoint.port, endpoint.path@, access_token@),
            reachable(r@),
    {
        MatrixSyncClient {
            endpoint,
            access_token,
            next_token: None,
            sync_state: SyncState::Connecting,
            in_flight: false,
            failed: false,
        }
    }

    /// The host to connect to.
    pub fn host(&self) -> (r: &String)
        ensures
            r@ == self@.host,
    {
        &self.endpoint.host
    }

    /// The port to connect to.
    pub fn port(&self) -> (r: u16)
        ensures
            r == self@.port,
    {
        self.endpoint.port
    }

    /// The continuation token of the last batch, if any.
    pub fn next_token(&self) -> (r: &Option<String>)
        ensures
            token_view(*r) == self@.next_token,
    {
        &self.next_token
    }

    fn issue(&mut self) -> (r: SyncStep)
        requires
            !old(self).failed,
            old(self).sync_state == SyncState::Connected,
        ensures
            (final(self)@, r@) == issue(old(self)@),
    {
        let request = build_request(&self.endpoint.host, &self.endpoint.path, &self.access_token, &self.next_token);
        self.in_flight = true;
        SyncStep::Send(request)
    }

    fn fail(&mut self, e: SyncError) -> (r: SyncStep)
        ensures
            (final(self)@, r@) == fail(old(self)@, e),
    {
        proof {
            use_type_invariant(&*self);
        }
        self.failed = true;
        SyncStep::Fail(e)
    }

    /// Completes the round trip in flight with what decoding its 200
    /// answer gave: the batch, which advances the token, or the error, which
    /// ends the sync.
    pub fn finish_round_trip(&mut self, decoded: Result<SyncResponse, SyncError>) -> (r: SyncStep)
        requires
            !old(self)@.failed,
            old(self)@.in_flight,
        ensures
            reachable(final(self)@),
            final(self)@ == match decoded {
                Ok(b) => ClientModel { in_flight: false, next_token: Some(b.next_batch@), ..old(self)@ },
                Err(_) => ClientModel { in_flight: false, failed: true, ..old(self)@ },
            },
            r@ == match decoded {
                Ok(b) => StepModel::Ready(b.next_batch@, b.body@),
                Err(e) => StepModel::Fail(e),
            },
    {
        proof {
            use_type_invariant(&*self);
        }
        self.in_flight = false;
        match decoded {
            Ok(batch) => {
                self.next_token = Some(batch.next_batch.clone());
                SyncStep::Ready(batch)
            },
            Err(e) => self.fail(e),
        }
    }

    /// One step of a sync round trip: from what was observed, the next thing
    /// to do. A caller starts a poll with `Poll` and keeps reporting what it
    /// did until the step is `NotReady`, `Ready` or `Fail`.
    pub fn poll_sync(&mut self, event: SyncEvent) -> (r: SyncStep)
        ensures
            (final(self)@, r@) == step(old(self)@, event@),
            reachable(final(self)@),
    {
        proof {
            use_type_invariant(&*self);
        }
        if self.failed {
            return SyncStep::Fail(SyncError::Terminated);
        }
        if self.sync_state == SyncState::Connecting {
            match event {
                SyncEvent::Connect(outcome) => {
                    let mut lifecycle = self.sync_state;
                    match lifecycle.poll(outcome) {
                        ConnectPoll::NotReady => SyncStep::NotReady,
                        ConnectPoll::Failed => self.fail(SyncError::Connection),
                        ConnectPoll::Ready => {
                            self.sync_state = lifecycle;
                            self.issue()
                        },
                    }
                },
                _ => SyncStep::PollConnection,
            }
        } else if !self.in_flight {
            self.issue()
        } else {
            match event {
                SyncEvent::TransportFailed => self.fail(SyncError::Transport),
                SyncEvent::ResponsePending => SyncStep::NotReady,
                SyncEvent::Response(code, body) => {
                    if code != 200 {
                        self.in_flight = false;
                        self.fail(SyncError::Status(code))
                    } else {
                        let decoded = decode_batch(body);
                        self.finish_round_trip(decoded)
                    }
                },
                _ => SyncStep::PollResponse,
            }
        }
    }
}

} // verus!
