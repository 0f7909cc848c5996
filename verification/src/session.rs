//! The session state machine: the lifecycle of one client connection from
//! its first byte to the establishment of the tunnel.
//!
//! The machine is pure data transformation over state/event pairs. Side
//! effects stay with the caller: it reads the bytes it feeds in, opens the
//! target connection when it observes the request being accepted, writes the
//! success response, and closes the connection when the session fails.

use vstd::prelude::*;

use crate::parser::{
    http_head_of, outcome_of, parse, HttpHead, MalformedReason, OutcomeModel, ParseOutcome,
    ReasonModel,
};
use async_std::net::TcpStream;

verus! {

/// Relies on `async_std::net::TcpStream` only as an opaque handle: the crate
/// never reads it, it only moves it from the handshake into the tunnel.
#[verifier::external_type_specification]
#[verifier::external_body]
pub struct ExTcpStream(TcpStream);

/// Why a session failed.
#[derive(Debug, PartialEq)]
pub enum FailReason {
    /// The request was rejected by the parser.
    Malformed { reason: MalformedReason },
    /// The connection to the requested target could not be established.
    TargetUnreachable,
    /// Data arrived in a state that does not accept any.
    UnexpectedData,
}

/// The mathematical form of [`FailReason`].
pub enum FailModel {
    Malformed { reason: ReasonModel },
    TargetUnreachable,
    UnexpectedData,
}

impl View for FailReason {
    type V = FailModel;

    open spec fn view(&self) -> FailModel {
        match self {
            FailReason::Malformed { reason } => FailModel::Malformed { reason: reason@ },
            FailReason::TargetUnreachable => FailModel::TargetUnreachable,
            FailReason::UnexpectedData => FailModel::UnexpectedData,
        }
    }
}

/// Terminal state: the session failed and the connection must be closed.
#[derive(Debug, PartialEq)]
pub struct Failed {
    pub reason: FailReason,
}

/// Initial state: no complete request has been read yet.
#[derive(Debug, PartialEq)]
pub struct WaitingRequest;

/// A CONNECT request was accepted; `path` is the `host:port` target named in
/// its request line, to which the caller is to open a connection.
#[derive(Debug, PartialEq)]
pub struct OnConnectRequest {
    pub path: String,
}

/// The tunnel is established: the session exclusively owns both connection
/// handles — the client's and the target's — and no further state machine
/// activity takes place. Ownership passes onward to the forwarding engine by
/// moving this state, never by duplicating the handles.
#[derive(Debug)]
pub struct ConnectTunnel {
    pub client_conn: TcpStream,
    pub conn: TcpStream,
}

/// State machine for a single proxy session.
///
/// Transitions are one-directional: `WaitingRequest` either stays, advances
/// to `OnConnectRequest`, or fails; `OnConnectRequest` advances to
/// `ConnectTunnel` or fails; `ConnectTunnel` and `Failed` absorb every
/// further event.
#[derive(Debug)]
pub enum Session {
    WaitingRequest(WaitingRequest),
    OnConnectRequest(OnConnectRequest),
    ConnectTunnel(ConnectTunnel),
    Failed(Failed),
}

/// The mathematical form of a session state. The tunnel's connection handle
/// is opaque and carries no state the machine reads, so the model omits it.
pub enum SessionModel {
    WaitingRequest,
    OnConnectRequest { target: Seq<char> },
    ConnectTunnel,
    Failed { reason: FailModel },
}

impl View for Session {
    type V = SessionModel;

    open spec fn view(&self) -> SessionModel {
        match self {
            Session::WaitingRequest(_) => SessionModel::WaitingRequest,
            Session::OnConnectRequest(s) => SessionModel::OnConnectRequest { target: s.path@ },
            Session::ConnectTunnel(_) => SessionModel::ConnectTunnel,
            Session::Failed(f) => SessionModel::Failed { reason: f.reason@ },
        }
    }
}

/// Where a waiting session goes when bytes arrive whose head parses to `h`:
/// it stays waiting on a partial head, accepts a CONNECT request, and fails
/// on anything malformed.
pub open spec fn waiting_step(h: HttpHead) -> SessionModel {
    match outcome_of(h) {
        OutcomeModel::Complete { method, target } => SessionModel::OnConnectRequest { target },
        OutcomeModel::Incomplete => SessionModel::WaitingRequest,
        OutcomeModel::Malformed { reason } => SessionModel::Failed {
            reason: FailModel::Malformed { reason },
        },
    }
}

/// Where any session goes when bytes arrive whose head parses to `h`. The
/// two terminal states absorb the event; a session awaiting its target
/// connection accepts no data.
pub open spec fn data_step(s: SessionModel, h: HttpHead) -> SessionModel {
    match s {
        SessionModel::WaitingRequest => waiting_step(h),
        SessionModel::OnConnectRequest { .. } => SessionModel::Failed {
            reason: FailModel::UnexpectedData,
        },
        SessionModel::ConnectTunnel => SessionModel::ConnectTunnel,
        SessionModel::Failed { reason } => SessionModel::Failed { reason },
    }
}

impl Session {
    /// A fresh session, before any byte has arrived.
    pub fn waiting_request() -> (r: Self)
        ensures
            r@ == SessionModel::WaitingRequest,
    {
        Session::WaitingRequest(WaitingRequest)
    }

    /// Feed the bytes accumulated so far on the client connection into the
    /// session. The caller keeps its buffer across `WaitingRequest` results
    /// and feeds the whole of it again once more bytes arrive.
    pub fn on_data(self, data: &[u8]) -> (r: Session)
        ensures
            r@ == data_step(self@, http_head_of(data@)),
            self@ is ConnectTunnel ==> r == self,
    {
        match self {
            Session::WaitingRequest(state) => state.on_data(data),
            Session::OnConnectRequest(_) => Session::Failed(Failed {
                reason: FailReason::UnexpectedData,
            }),
            Session::ConnectTunnel(state) => Session::ConnectTunnel(state),
            Session::Failed(state) => Session::Failed(state),
        }
    }
}

impl WaitingRequest {
    /// Parse the accumulated bytes and take the waiting session one step.
    pub fn on_data(self, data: &[u8]) -> (r: Session)
        ensures
            r@ == waiting_step(http_head_of(data@)),
    {
        match parse(data) {
            ParseOutcome::Complete { method: _, target } => Session::OnConnectRequest(
                OnConnectRequest { path: target },
            ),
            ParseOutcome::Incomplete => Session::WaitingRequest(WaitingRequest),
            ParseOutcome::Malformed { reason } => Session::Failed(Failed {
                reason: FailReason::Malformed { reason },
            }),
        }
    }
}

impl OnConnectRequest {
    /// The caller connected to the target: the session becomes an
    /// established tunnel, taking exclusive ownership of both sockets —
    /// exactly the two handles the caller supplies, never duplicated.
    pub fn on_connected(self, client_conn: TcpStream, conn: TcpStream) -> (r: ConnectTunnel)
        ensures
            r.client_conn == client_conn,
            r.conn == conn,
    {
        ConnectTunnel { client_conn, conn }
    }

    /// The caller could not connect to the target: the session fails.
    pub fn on_connect_failed(self) -> (r: Session)
        ensures
            r@ == (SessionModel::Failed { reason: FailModel::TargetUnreachable }),
    {
        Session::Failed(Failed { reason: FailReason::TargetUnreachable })
    }
}

/// Transitions are monotonic and one-directional: once a session has failed
/// or owns its tunnel, no later data moves it anywhere else, and in
/// particular never back to `WaitingRequest`.
pub proof fn lemma_terminal_states_absorb(s: SessionModel, h: HttpHead)
    ensures
        s is Failed ==> data_step(s, h) == s,
        s is ConnectTunnel ==> data_step(s, h) == s,
        !(s is WaitingRequest) ==> !(data_step(s, h) is WaitingRequest),
{
}

/// The parser's verdict decides the waiting session's step exactly: a
/// malformed request fails it, a complete CONNECT request advances it, and a
/// partial request leaves it waiting.
pub proof fn lemma_waiting_step_follows_outcome(h: HttpHead)
    ensures
        outcome_of(h) is Malformed <==> waiting_step(h) is Failed,
        outcome_of(h) is Complete <==> waiting_step(h) is OnConnectRequest,
        outcome_of(h) is Incomplete <==> waiting_step(h) is WaitingRequest,
{
}

} // verus!
