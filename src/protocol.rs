//! The four protocol policies: what each decides at login, at a heartbeat tick and at
//! disconnect. The transport performs the sends and receives and hands back what came of
//! them; durations are in nanoseconds.
use crate::error::SoupBinTcpError;
use crate::model::{
    CltMsgModel, CltSoupBinTcpMsg, LoginAccepted, LoginRequest, SvcMsgModel, SvcSoupBinTcpMsg,
};
use crate::payload::SoupBinTcpPayload;
use crate::state::{
    sequenced, skip, svc_models, CltSoupBinTcpRecvConnectionState, SvcSoupBinTcpRecvConnectionState,
    SvcSoupBinTcpSendConnectionState, SvcSoupBinTcpSendSessionState, NANOS_PER_MILLI,
};
use crate::types::{
    ascii_u64, num_field, spaces, Password, SequenceNumber, SessionId, TimeoutMs, UserName,
};
use core::marker::PhantomData;
use vstd::prelude::*;

verus! {

/// How long a peer may stay silent before the connection counts as lost, where nothing
/// else is configured: 2.5 seconds.
pub const DEFAULT_MAX_RECV_INTERVAL: u64 = 2500000000;

/// What came of a send through the transport.
#[derive(PartialEq, Eq, Structural, Clone, Copy, Debug)]
pub enum SendStatus {
    Completed,
    WouldBlock,
}

/// What came of a receive through the transport: a message, the peer closing (`None`),
/// or nothing before the deadline.
#[derive(Debug)]
pub enum RecvStatus<T> {
    Completed(Option<T>),
    WouldBlock,
}

/// A send during the handshake must complete before its deadline.
pub fn handshake_send_result(status: SendStatus) -> (r: Result<(), SoupBinTcpError>)
    ensures
        status == SendStatus::Completed ==> r is Ok,
        status == SendStatus::WouldBlock ==> r == Err::<(), SoupBinTcpError>(
            SoupBinTcpError::Timeout,
        ),
{
    match status {
        SendStatus::Completed => Ok(()),
        SendStatus::WouldBlock => Err(SoupBinTcpError::Timeout),
    }
}

/// The interval between heartbeats: two fifths of the longest the peer is told to wait.
pub open spec fn heart_beat_interval(max_send_interval: u64) -> u64 {
    (max_send_interval / 5 * 2 + max_send_interval % 5 * 2 / 5) as u64
}

fn heart_beat_interval_exec(max_send_interval: u64) -> (r: u64)
    ensures
        r == heart_beat_interval(max_send_interval),
        r as int == max_send_interval as int * 2 / 5,
{
    let q = max_send_interval / 5;
    let t = max_send_interval % 5;
    let r = q * 2 + t * 2 / 5;
    assert(r as int == max_send_interval as int * 2 / 5) by (nonlinear_arith)
        requires
            max_send_interval as int == 5 * q + t,
            0 <= t < 5,
            r as int == q * 2 + t * 2 / 5,
    {
    }
    r
}

/// What a client expects back from its login.
pub open spec fn clt_login_reply_result(reply: RecvStatus<SvcMsgModel>) -> Result<
    (),
    SoupBinTcpError,
> {
    match reply {
        RecvStatus::Completed(Some(SvcMsgModel::LoginAccepted { .. })) => Ok(()),
        RecvStatus::Completed(Some(SvcMsgModel::LoginRejected(_))) => Err(
            SoupBinTcpError::ConnectionReset,
        ),
        RecvStatus::Completed(Some(_)) => Err(SoupBinTcpError::Other),
        RecvStatus::Completed(None) => Err(SoupBinTcpError::ConnectionReset),
        RecvStatus::WouldBlock => Err(SoupBinTcpError::Timeout),
    }
}

pub open spec fn svc_recv_model<P: SoupBinTcpPayload>(
    r: RecvStatus<SvcSoupBinTcpMsg<P>>,
) -> RecvStatus<SvcMsgModel> {
    match r {
        RecvStatus::Completed(Some(m)) => RecvStatus::Completed(Some(m@)),
        RecvStatus::Completed(None) => RecvStatus::Completed(None),
        RecvStatus::WouldBlock => RecvStatus::WouldBlock,
    }
}

fn check_login_reply<P: SoupBinTcpPayload>(reply: &RecvStatus<SvcSoupBinTcpMsg<P>>) -> (r: Result<
    (),
    SoupBinTcpError,
>)
    ensures
        r == clt_login_reply_result(svc_recv_model(*reply)),
{
    match reply {
        RecvStatus::Completed(Some(SvcSoupBinTcpMsg::LoginAccepted(_))) => Ok(()),
        RecvStatus::Completed(Some(SvcSoupBinTcpMsg::LoginRejected(_))) => Err(
            SoupBinTcpError::ConnectionReset,
        ),
        RecvStatus::Completed(Some(_)) => Err(SoupBinTcpError::Other),
        RecvStatus::Completed(None) => Err(SoupBinTcpError::ConnectionReset),
        RecvStatus::WouldBlock => Err(SoupBinTcpError::Timeout),
    }
}

/// The login request a client with these settings sends.
pub open spec fn login_request_model(
    username: UserName,
    password: Password,
    session_id: SessionId,
    sequence_number: SequenceNumber,
    hbeat_ms: nat,
) -> CltMsgModel {
    CltMsgModel::LoginRequest {
        username: username@,
        password: password@,
        session_id: session_id@,
        sequence_number: sequence_number@,
        hbeat_timeout_ms: num_field(hbeat_ms, 5),
    }
}

/// A client that logs in by itself, keeps its heartbeats going and tracks whether the
/// server is still there.
#[derive(Debug)]
pub struct CltSoupBinTcpProtocolAuto<RecvP, SendP> {
    pub username: UserName,
    pub password: Password,
    pub session_id: SessionId,
    pub sequence_number: SequenceNumber,
    pub io_timeout: u64,
    pub max_hbeat_send_interval: u64,
    pub svc_max_hbeat_interval: u64,
    pub phantom: PhantomData<(RecvP, SendP)>,
}

impl<RecvP: SoupBinTcpPayload, SendP: SoupBinTcpPayload> CltSoupBinTcpProtocolAuto<RecvP, SendP> {
    /// A client that logs in as `username` to `session_id`, asks for sequenced payloads
    /// from `sequence_number` on, gives each handshake step `io_timeout`, promises a
    /// heartbeat at least every `clt_max_hbeat_interval` and expects something from the
    /// server at least every `svc_max_hbeat_interval`. The promised interval goes on the
    /// wire in whole milliseconds, in five digits.
    pub fn new(
        username: UserName,
        password: Password,
        session_id: SessionId,
        sequence_number: SequenceNumber,
        io_timeout: u64,
        clt_max_hbeat_interval: u64,
        svc_max_hbeat_interval: u64,
    ) -> (r: Self)
        requires
            clt_max_hbeat_interval / NANOS_PER_MILLI < 100000,
        ensures
            r.username == username,
            r.password == password,
            r.session_id == session_id,
            r.sequence_number == sequence_number,
            r.io_timeout == io_timeout,
            r.max_hbeat_send_interval == clt_max_hbeat_interval,
            r.svc_max_hbeat_interval == svc_max_hbeat_interval,
    {
        CltSoupBinTcpProtocolAuto {
            username,
            password,
            session_id,
            sequence_number,
            io_timeout,
            max_hbeat_send_interval: clt_max_hbeat_interval,
            svc_max_hbeat_interval,
            phantom: PhantomData,
        }
    }

    pub open spec fn wf(&self) -> bool {
        self.max_hbeat_send_interval / NANOS_PER_MILLI < 100000
    }

    /// The login request to send first.
    pub fn login_request(&self) -> (r: CltSoupBinTcpMsg<SendP>)
        requires
            self.wf(),
        ensures
            r@ == login_request_model(
                self.username,
                self.password,
                self.session_id,
                self.sequence_number,
                (self.max_hbeat_send_interval / NANOS_PER_MILLI) as nat,
            ),
    {
        CltSoupBinTcpMsg::LoginRequest(
            LoginRequest::new(
                self.username,
                self.password,
                self.session_id,
                self.sequence_number,
                TimeoutMs::from_millis(self.max_hbeat_send_interval / NANOS_PER_MILLI),
            ),
        )
    }

    /// Whether the login request went out in time.
    pub fn on_login_sent(&self, status: SendStatus) -> (r: Result<(), SoupBinTcpError>)
        ensures
            status == SendStatus::Completed ==> r is Ok,
            status == SendStatus::WouldBlock ==> r == Err::<(), SoupBinTcpError>(
                SoupBinTcpError::Timeout,
            ),
    {
        handshake_send_result(status)
    }

    /// Whether the server's reply completes the login: only an acceptance does.
    pub fn on_login_reply(&self, reply: &RecvStatus<SvcSoupBinTcpMsg<RecvP>>) -> (r: Result<
        (),
        SoupBinTcpError,
    >)
        ensures
            r == clt_login_reply_result(svc_recv_model(*reply)),
    {
        check_login_reply(reply)
    }

    /// A fresh record of what this client receives on a new connection.
    pub fn new_recv_state(&self) -> (r: CltSoupBinTcpRecvConnectionState)
        ensures
            r == (CltSoupBinTcpRecvConnectionState {
                max_recv_interval: self.svc_max_hbeat_interval,
                login_accepted: None,
                login_rejected: None,
                end_of_session: None,
                any_msg_recved: None,
            }),
    {
        CltSoupBinTcpRecvConnectionState::new(self.svc_max_hbeat_interval)
    }

    pub fn conf_heart_beat_interval(&self) -> (r: Option<u64>)
        ensures
            r == Some(heart_beat_interval(self.max_hbeat_send_interval)),
    {
        Some(heart_beat_interval_exec(self.max_hbeat_send_interval))
    }

    pub fn heart_beat(&self) -> (r: CltSoupBinTcpMsg<SendP>)
        ensures
            r@ == CltMsgModel::HBeat,
    {
        CltSoupBinTcpMsg::hbeat()
    }
}

impl<RecvP, SendP> Clone for CltSoupBinTcpProtocolAuto<RecvP, SendP> {
    fn clone(&self) -> (r: Self)
        ensures
            r == *self,
    {
        CltSoupBinTcpProtocolAuto {
            username: self.username,
            password: self.password,
            session_id: self.session_id,
            sequence_number: self.sequence_number,
            io_timeout: self.io_timeout,
            max_hbeat_send_interval: self.max_hbeat_send_interval,
            svc_max_hbeat_interval: self.svc_max_hbeat_interval,
            phantom: PhantomData,
        }
    }
}

/// What a server does with the first thing it receives on a connection.
#[derive(Debug)]
pub enum SvcLoginDecision<P> {
    /// Send `accepted`, then re-send each of `replay` in order, bypassing the log.
    Accept { accepted: SvcSoupBinTcpMsg<P>, replay: Vec<SvcSoupBinTcpMsg<P>> },
    /// Send `rejection`, then fail the connection with `NotConnected`.
    Reject { rejection: SvcSoupBinTcpMsg<P> },
    /// Fail the connection at once.
    Fail(SoupBinTcpError),
}

/// Whether a login request carries the configured credentials.
pub open spec fn credentials_match(l: CltMsgModel, username: UserName, password: Password) -> bool {
    l matches CltMsgModel::LoginRequest { username: u, password: p, .. } && u == username@ && p
        == password@
}

/// Whether a login request asks for the configured session or for whichever is current.
pub open spec fn session_matches(l: CltMsgModel, session_id: SessionId) -> bool {
    l matches CltMsgModel::LoginRequest { session_id: s, .. } && (s == session_id@ || s == spaces(
        10,
    ))
}

/// The sequence number a login request asks to start from.
pub open spec fn requested_start(l: CltMsgModel) -> Option<u64> {
    match l {
        CltMsgModel::LoginRequest { sequence_number, .. } => ascii_u64(sequence_number),
        _ => None,
    }
}

/// The sequence number a login starts from: the one the client asks for, or where it asks
/// for 0, the next one the server will number.
pub open spec fn effective_start(requested: u64, next: nat) -> nat {
    if requested == 0 {
        next
    } else {
        requested as nat
    }
}

/// What the server's decision on a login holds, in models: the acceptance and the replay
/// list, or the refusal, or the failure.
pub open spec fn svc_login_outcome(
    recv: RecvStatus<CltMsgModel>,
    username: UserName,
    password: Password,
    session_id: SessionId,
    sent: Seq<SvcMsgModel>,
) -> (SvcMsgModel, Seq<SvcMsgModel>, Option<SoupBinTcpError>) {
    match recv {
        RecvStatus::WouldBlock => (SvcMsgModel::HBeat, Seq::empty(), Some(SoupBinTcpError::Timeout)),
        RecvStatus::Completed(None) => (
            SvcMsgModel::HBeat,
            Seq::empty(),
            Some(SoupBinTcpError::ConnectionReset),
        ),
        RecvStatus::Completed(Some(l)) => if !(l is LoginRequest) {
            (SvcMsgModel::HBeat, Seq::empty(), Some(SoupBinTcpError::Other))
        } else if !credentials_match(l, username, password) {
            (
                SvcMsgModel::LoginRejected(crate::types::REJECT_NOT_AUTHORIZED),
                Seq::empty(),
                Some(SoupBinTcpError::NotConnected),
            )
        } else if !session_matches(l, session_id) {
            (
                SvcMsgModel::LoginRejected(crate::types::REJECT_SESSION_NOT_AVAILABLE),
                Seq::empty(),
                Some(SoupBinTcpError::NotConnected),
            )
        } else {
            match requested_start(l) {
                None => (SvcMsgModel::HBeat, Seq::empty(), Some(SoupBinTcpError::DecodeError)),
                Some(req) => {
                    let next = sequenced(sent).len() + 1;
                    let eff = effective_start(req, next);
                    (
                        SvcMsgModel::LoginAccepted {
                            session_id: session_id@,
                            sequence_number: num_field(eff, 20),
                        },
                        if eff < next {
                            skip(sequenced(sent), eff - 1)
                        } else {
                            Seq::empty()
                        },
                        None,
                    )
                },
            }
        },
    }
}

pub open spec fn clt_recv_model<P: SoupBinTcpPayload>(
    r: RecvStatus<CltSoupBinTcpMsg<P>>,
) -> RecvStatus<CltMsgModel> {
    match r {
        RecvStatus::Completed(Some(m)) => RecvStatus::Completed(Some(m@)),
        RecvStatus::Completed(None) => RecvStatus::Completed(None),
        RecvStatus::WouldBlock => RecvStatus::WouldBlock,
    }
}

/// Whether a decision is the one `svc_login_outcome` describes.
pub open spec fn decision_is<P: SoupBinTcpPayload>(
    d: SvcLoginDecision<P>,
    o: (SvcMsgModel, Seq<SvcMsgModel>, Option<SoupBinTcpError>),
) -> bool {
    match d {
        SvcLoginDecision::Accept { accepted, replay } => o.2 is None && accepted@ == o.0
            && svc_models(replay@) == o.1,
        SvcLoginDecision::Reject { rejection } => o.2 == Some(SoupBinTcpError::NotConnected)
            && rejection@ == o.0,
        SvcLoginDecision::Fail(e) => o.2 == Some(e) && e != SoupBinTcpError::NotConnected,
    }
}

/// A server that checks logins itself, replays sequenced payloads on request, keeps its
/// heartbeats going and tracks whether the client is still there.
#[derive(Debug)]
pub struct SvcSoupBinTcpProtocolAuto<RecvP, SendP> {
    pub username: UserName,
    pub password: Password,
    pub session_id: SessionId,
    pub io_timeout: u64,
    pub svc_max_hbeat_interval: u64,
    pub phantom: PhantomData<(RecvP, SendP)>,
}

impl<RecvP: SoupBinTcpPayload, SendP: SoupBinTcpPayload> SvcSoupBinTcpProtocolAuto<RecvP, SendP> {
    /// A server that lets `username` with `password` into `session_id`, gives each
    /// handshake step `io_timeout` and sends a heartbeat at least every
    /// `svc_max_hbeat_interval`.
    pub fn new(
        username: UserName,
        password: Password,
        session_id: SessionId,
        io_timeout: u64,
        svc_max_hbeat_interval: u64,
    ) -> (r: Self)
        ensures
            r.username == username,
            r.password == password,
            r.session_id == session_id,
            r.io_timeout == io_timeout,
            r.svc_max_hbeat_interval == svc_max_hbeat_interval,
    {
        SvcSoupBinTcpProtocolAuto {
            username,
            password,
            session_id,
            io_timeout,
            svc_max_hbeat_interval,
            phantom: PhantomData,
        }
    }

    /// Decides on the first thing received on a connection, given all the server has sent
    /// in its session so far.
    pub fn on_login_request(
        &self,
        recv: &RecvStatus<CltSoupBinTcpMsg<RecvP>>,
        session: &SvcSoupBinTcpSendSessionState<SendP>,
    ) -> (r: SvcLoginDecision<SendP>)
        requires
            session.wf(),
        ensures
            decision_is(
                r,
                svc_login_outcome(
                    clt_recv_model(*recv),
                    self.username,
                    self.password,
                    self.session_id,
                    session.sent(),
                ),
            ),
    {
        let l = match recv {
            RecvStatus::WouldBlock => return SvcLoginDecision::Fail(SoupBinTcpError::Timeout),
            RecvStatus::Completed(None) => return SvcLoginDecision::Fail(
                SoupBinTcpError::ConnectionReset,
            ),
            RecvStatus::Completed(Some(CltSoupBinTcpMsg::LoginRequest(l))) => l,
            RecvStatus::Completed(Some(_)) => return SvcLoginDecision::Fail(SoupBinTcpError::Other),
        };
        if !(l.username.same(&self.username) && l.password.same(&self.password)) {
            return SvcLoginDecision::Reject { rejection: SvcSoupBinTcpMsg::login_rej_not_auth() };
        }
        if !(l.session_id.same(&self.session_id) || l.session_id.is_current()) {
            return SvcLoginDecision::Reject {
                rejection: SvcSoupBinTcpMsg::login_rej_ses_not_avail(),
            };
        }
        let req = match l.sequence_number.value() {
            Some(v) => v,
            None => return SvcLoginDecision::Fail(SoupBinTcpError::DecodeError),
        };
        let next = session.next_sequenced_payload_number();
        let eff: u64 = if req == 0 {
            next as u64
        } else {
            req
        };
        let accepted = SvcSoupBinTcpMsg::LoginAccepted(
            LoginAccepted::new(self.session_id, SequenceNumber::from_u64(eff)),
        );
        if eff < next as u64 {
            let replay = session.sequenced_from(eff as usize);
            SvcLoginDecision::Accept { accepted, replay }
        } else {
            let replay: Vec<SvcSoupBinTcpMsg<SendP>> = Vec::new();
            assert(svc_models(replay@) =~= Seq::<SvcMsgModel>::empty());
            SvcLoginDecision::Accept { accepted, replay }
        }
    }

    /// A fresh record of what this server receives on a new connection.
    pub fn new_recv_state(&self) -> (r: SvcSoupBinTcpRecvConnectionState)
        ensures
            r.max_recv_interval is None,
            r.any_msg_recved is None,
    {
        SvcSoupBinTcpRecvConnectionState::new()
    }

    /// A fresh record of what this server sends on a new connection.
    pub fn new_send_state(&self) -> (r: SvcSoupBinTcpSendConnectionState)
        ensures
            r.login_accepted is None,
            r.end_of_session is None,
    {
        SvcSoupBinTcpSendConnectionState::new()
    }

    pub fn conf_heart_beat_interval(&self) -> (r: Option<u64>)
        ensures
            r == Some(heart_beat_interval(self.svc_max_hbeat_interval)),
    {
        Some(heart_beat_interval_exec(self.svc_max_hbeat_interval))
    }

    pub fn heart_beat(&self) -> (r: SvcSoupBinTcpMsg<SendP>)
        ensures
            r@ == SvcMsgModel::HBeat,
    {
        SvcSoupBinTcpMsg::hbeat()
    }

    /// The deadline for the last message, and that message: the end of the session.
    pub fn on_disconnect(&self) -> (r: Option<(u64, SvcSoupBinTcpMsg<SendP>)>)
        ensures
            r matches Some((t, m)) && t == self.io_timeout && m@ == SvcMsgModel::EndOfSession,
    {
        Some((self.io_timeout, SvcSoupBinTcpMsg::end()))
    }
}

impl<RecvP, SendP> Clone for SvcSoupBinTcpProtocolAuto<RecvP, SendP> {
    fn clone(&self) -> (r: Self)
        ensures
            r == *self,
    {
        SvcSoupBinTcpProtocolAuto {
            username: self.username,
            password: self.password,
            session_id: self.session_id,
            io_timeout: self.io_timeout,
            svc_max_hbeat_interval: self.svc_max_hbeat_interval,
            phantom: PhantomData,
        }
    }
}

/// A client that tracks whether the server is still there and leaves logging in and
/// heartbeats to the application.
#[derive(Debug)]
pub struct CltSoupBinTcpProtocolIsConnected<RecvP, SendP> {
    pub max_recv_interval: u64,
    pub phantom: PhantomData<(RecvP, SendP)>,
}

impl<RecvP: SoupBinTcpPayload, SendP: SoupBinTcpPayload> CltSoupBinTcpProtocolIsConnected<
    RecvP,
    SendP,
> {
    pub fn new(max_recv_interval: u64) -> (r: Self)
        ensures
            r.max_recv_interval == max_recv_interval,
    {
        CltSoupBinTcpProtocolIsConnected { max_recv_interval, phantom: PhantomData }
    }

    /// A fresh record of what this client receives on a new connection.
    pub fn new_recv_state(&self) -> (r: CltSoupBinTcpRecvConnectionState)
        ensures
            r == (CltSoupBinTcpRecvConnectionState {
                max_recv_interval: self.max_recv_interval,
                login_accepted: None,
                login_rejected: None,
                end_of_session: None,
                any_msg_recved: None,
            }),
    {
        CltSoupBinTcpRecvConnectionState::new(self.max_recv_interval)
    }
}

impl<RecvP: SoupBinTcpPayload, SendP: SoupBinTcpPayload> Default for CltSoupBinTcpProtocolIsConnected<
    RecvP,
    SendP,
> {
    fn default() -> (r: Self)
        ensures
            r.max_recv_interval == DEFAULT_MAX_RECV_INTERVAL,
    {
        CltSoupBinTcpProtocolIsConnected::new(DEFAULT_MAX_RECV_INTERVAL)
    }
}

impl<RecvP, SendP> Clone for CltSoupBinTcpProtocolIsConnected<RecvP, SendP> {
    fn clone(&self) -> (r: Self)
        ensures
            r == *self,
    {
        CltSoupBinTcpProtocolIsConnected { max_recv_interval: self.max_recv_interval, phantom: PhantomData }
    }
}

/// A server that tracks whether the client is still there and leaves the login and
/// heartbeats to the application.
#[derive(Debug)]
pub struct SvcSoupBinTcpProtocolIsConnected<RecvP, SendP> {
    pub phantom: PhantomData<(RecvP, SendP)>,
}

impl<RecvP: SoupBinTcpPayload, SendP: SoupBinTcpPayload> SvcSoupBinTcpProtocolIsConnected<
    RecvP,
    SendP,
> {
    pub fn new() -> Self {
        SvcSoupBinTcpProtocolIsConnected { phantom: PhantomData }
    }

    /// A fresh record of what this server receives on a new connection.
    pub fn new_recv_state(&self) -> (r: SvcSoupBinTcpRecvConnectionState)
        ensures
            r.max_recv_interval is None,
            r.any_msg_recved is None,
    {
        SvcSoupBinTcpRecvConnectionState::new()
    }

    /// A fresh record of what this server sends on a new connection.
    pub fn new_send_state(&self) -> (r: SvcSoupBinTcpSendConnectionState)
        ensures
            r.login_accepted is None,
            r.end_of_session is None,
    {
        SvcSoupBinTcpSendConnectionState::new()
    }
}

impl<RecvP: SoupBinTcpPayload, SendP: SoupBinTcpPayload> Default for SvcSoupBinTcpProtocolIsConnected<
    RecvP,
    SendP,
> {
    fn default() -> Self {
        SvcSoupBinTcpProtocolIsConnected::new()
    }
}

impl<RecvP, SendP> Clone for SvcSoupBinTcpProtocolIsConnected<RecvP, SendP> {
    fn clone(&self) -> Self {
        SvcSoupBinTcpProtocolIsConnected { phantom: PhantomData }
    }
}

/// A client that automates nothing: the application logs in and keeps heartbeats going,
/// and the connection always counts as up.
#[derive(Debug)]
pub struct CltSoupBinTcpProtocolManual<RecvP, SendP> {
    pub phantom: PhantomData<(RecvP, SendP)>,
}

impl<RecvP: SoupBinTcpPayload, SendP: SoupBinTcpPayload> CltSoupBinTcpProtocolManual<RecvP, SendP> {
    pub fn new() -> Self {
        CltSoupBinTcpProtocolManual { phantom: PhantomData }
    }

    pub fn is_connected(&self) -> (r: bool)
        ensures
            r,
    {
        true
    }
}

impl<RecvP: SoupBinTcpPayload, SendP: SoupBinTcpPayload> Default for CltSoupBinTcpProtocolManual<
    RecvP,
    SendP,
> {
    fn default() -> Self {
        CltSoupBinTcpProtocolManual::new()
    }
}

impl<RecvP, SendP> Clone for CltSoupBinTcpProtocolManual<RecvP, SendP> {
    fn clone(&self) -> Self {
        CltSoupBinTcpProtocolManual { phantom: PhantomData }
    }
}

/// A server that automates nothing: the application answers logins and keeps heartbeats
/// going, and the connection always counts as up.
#[derive(Debug)]
pub struct SvcSoupBinTcpProtocolManual<RecvP, SendP> {
    pub phantom: PhantomData<(RecvP, SendP)>,
}

impl<RecvP: SoupBinTcpPayload, SendP: SoupBinTcpPayload> SvcSoupBinTcpProtocolManual<RecvP, SendP> {
    pub fn new() -> Self {
        SvcSoupBinTcpProtocolManual { phantom: PhantomData }
    }

    pub fn is_connected(&self) -> (r: bool)
        ensures
            r,
    {
        true
    }
}

impl<RecvP: SoupBinTcpPayload, SendP: SoupBinTcpPayload> Default for SvcSoupBinTcpProtocolManual<
    RecvP,
    SendP,
> {
    fn default() -> Self {
        SvcSoupBinTcpProtocolManual::new()
    }
}

impl<RecvP, SendP> Clone for SvcSoupBinTcpProtocolManual<RecvP, SendP> {
    fn clone(&self) -> Self {
        SvcSoupBinTcpProtocolManual { phantom: PhantomData }
    }
}

/// A client whose connection is supervised from outside: no hook does anything.
#[derive(Debug)]
pub struct CltSoupBinTcpProtocolSupervised<RecvP, SendP> {
    pub phantom: PhantomData<(RecvP, SendP)>,
}

impl<RecvP: SoupBinTcpPayload, SendP: SoupBinTcpPayload> CltSoupBinTcpProtocolSupervised<
    RecvP,
    SendP,
> {
    pub fn new() -> Self {
        CltSoupBinTcpProtocolSupervised { phantom: PhantomData }
    }
}

impl<RecvP: SoupBinTcpPayload, SendP: SoupBinTcpPayload> Default for CltSoupBinTcpProtocolSupervised<
    RecvP,
    SendP,
> {
    fn default() -> Self {
        CltSoupBinTcpProtocolSupervised::new()
    }
}

impl<RecvP, SendP> Clone for CltSoupBinTcpProtocolSupervised<RecvP, SendP> {
    fn clone(&self) -> Self {
        CltSoupBinTcpProtocolSupervised { phantom: PhantomData }
    }
}

/// A server whose connection is supervised from outside: no hook does anything.
#[derive(Debug)]
pub struct SvcSoupBinTcpProtocolSupervised<RecvP, SendP> {
    pub phantom: PhantomData<(RecvP, SendP)>,
}

impl<RecvP: SoupBinTcpPayload, SendP: SoupBinTcpPayload> SvcSoupBinTcpProtocolSupervised<
    RecvP,
    SendP,
> {
    pub fn new() -> Self {
        SvcSoupBinTcpProtocolSupervised { phantom: PhantomData }
    }
}

impl<RecvP: SoupBinTcpPayload, SendP: SoupBinTcpPayload> Default for SvcSoupBinTcpProtocolSupervised<
    RecvP,
    SendP,
> {
    fn default() -> Self {
        SvcSoupBinTcpProtocolSupervised::new()
    }
}

impl<RecvP, SendP> Clone for SvcSoupBinTcpProtocolSupervised<RecvP, SendP> {
    fn clone(&self) -> Self {
        SvcSoupBinTcpProtocolSupervised { phantom: PhantomData }
    }
}

/// A client of the older login-only policy: it sends a given login request and keeps the
/// acceptance it gets back.
#[derive(Debug)]
pub struct CltSoupBinTcpProtocolAuth<RecvP, SendP> {
    pub login: LoginRequest,
    pub timeout: u64,
    pub phantom: PhantomData<(RecvP, SendP)>,
}

impl<RecvP: SoupBinTcpPayload, SendP: SoupBinTcpPayload> CltSoupBinTcpProtocolAuth<RecvP, SendP> {
    pub fn new(login: LoginRequest, timeout: u64) -> (r: Self)
        ensures
            r.login == login,
            r.timeout == timeout,
    {
        CltSoupBinTcpProtocolAuth { login, timeout, phantom: PhantomData }
    }

    /// The login request to send first.
    pub fn login_request(&self) -> (r: CltSoupBinTcpMsg<SendP>)
        ensures
            r == CltSoupBinTcpMsg::<SendP>::LoginRequest(self.login),
    {
        CltSoupBinTcpMsg::LoginRequest(self.login)
    }

    /// The acceptance the server replied with; any other outcome fails the login.
    pub fn on_login_reply(&self, reply: &RecvStatus<SvcSoupBinTcpMsg<RecvP>>) -> (r: Result<
        LoginAccepted,
        SoupBinTcpError,
    >)
        ensures
            r matches Ok(a) ==> reply matches RecvStatus::Completed(
                Some(SvcSoupBinTcpMsg::LoginAccepted(b)),
            ) && a == b,
            r matches Err(e) ==> clt_login_reply_result(svc_recv_model(*reply)) == Err::<
                (),
                SoupBinTcpError,
            >(e),
            r is Ok <==> clt_login_reply_result(svc_recv_model(*reply)) is Ok,
    {
        match reply {
            RecvStatus::Completed(Some(SvcSoupBinTcpMsg::LoginAccepted(a))) => Ok(*a),
            _ => match check_login_reply(reply) {
                Ok(()) => Err(SoupBinTcpError::Other),
                Err(e) => Err(e),
            },
        }
    }
}

impl<RecvP, SendP> Clone for CltSoupBinTcpProtocolAuth<RecvP, SendP> {
    fn clone(&self) -> (r: Self)
        ensures
            r == *self,
    {
        CltSoupBinTcpProtocolAuth { login: self.login, timeout: self.timeout, phantom: PhantomData }
    }
}

/// What the older login-only server decides: refusals as in the full policy; an accepted
/// login gets the configured session and sequence number 1, and nothing is replayed.
pub open spec fn auth_login_outcome(
    recv: RecvStatus<CltMsgModel>,
    username: UserName,
    password: Password,
    session_id: SessionId,
) -> (SvcMsgModel, Seq<SvcMsgModel>, Option<SoupBinTcpError>) {
    match recv {
        RecvStatus::WouldBlock => (SvcMsgModel::HBeat, Seq::empty(), Some(SoupBinTcpError::Timeout)),
        RecvStatus::Completed(None) => (
            SvcMsgModel::HBeat,
            Seq::empty(),
            Some(SoupBinTcpError::ConnectionReset),
        ),
        RecvStatus::Completed(Some(l)) => if !(l is LoginRequest) {
            (SvcMsgModel::HBeat, Seq::empty(), Some(SoupBinTcpError::Other))
        } else if !credentials_match(l, username, password) {
            (
                SvcMsgModel::LoginRejected(crate::types::REJECT_NOT_AUTHORIZED),
                Seq::empty(),
                Some(SoupBinTcpError::NotConnected),
            )
        } else if !session_matches(l, session_id) {
            (
                SvcMsgModel::LoginRejected(crate::types::REJECT_SESSION_NOT_AVAILABLE),
                Seq::empty(),
                Some(SoupBinTcpError::NotConnected),
            )
        } else {
            (
                SvcMsgModel::LoginAccepted {
                    session_id: session_id@,
                    sequence_number: num_field(1, 20),
                },
                Seq::empty(),
                None,
            )
        },
    }
}

/// A server of the older login-only policy: it checks the login and nothing more.
#[derive(Debug)]
pub struct SvcSoupBinTcpProtocolAuth<RecvP, SendP> {
    pub username: UserName,
    pub password: Password,
    pub session_id: SessionId,
    pub timeout: u64,
    pub phantom: PhantomData<(RecvP, SendP)>,
}

impl<RecvP: SoupBinTcpPayload, SendP: SoupBinTcpPayload> SvcSoupBinTcpProtocolAuth<RecvP, SendP> {
    pub fn new(username: UserName, password: Password, session_id: SessionId, timeout: u64) -> (r:
        Self)
        ensures
            r.username == username,
            r.password == password,
            r.session_id == session_id,
            r.timeout == timeout,
    {
        SvcSoupBinTcpProtocolAuth { username, password, session_id, timeout, phantom: PhantomData }
    }

    /// Decides on the first thing received on a connection.
    pub fn on_login_request(&self, recv: &RecvStatus<CltSoupBinTcpMsg<RecvP>>) -> (r:
        SvcLoginDecision<SendP>)
        ensures
            decision_is(
                r,
                auth_login_outcome(
                    clt_recv_model(*recv),
                    self.username,
                    self.password,
                    self.session_id,
                ),
            ),
    {
        let l = match recv {
            RecvStatus::WouldBlock => return SvcLoginDecision::Fail(SoupBinTcpError::Timeout),
            RecvStatus::Completed(None) => return SvcLoginDecision::Fail(
                SoupBinTcpError::ConnectionReset,
            ),
            RecvStatus::Completed(Some(CltSoupBinTcpMsg::LoginRequest(l))) => l,
            RecvStatus::Completed(Some(_)) => return SvcLoginDecision::Fail(SoupBinTcpError::Other),
        };
        if !(l.username.same(&self.username) && l.password.same(&self.password)) {
            return SvcLoginDecision::Reject { rejection: SvcSoupBinTcpMsg::login_rej_not_auth() };
        }
        if !(l.session_id.same(&self.session_id) || l.session_id.is_current()) {
            return SvcLoginDecision::Reject {
                rejection: SvcSoupBinTcpMsg::login_rej_ses_not_avail(),
            };
        }
        let replay: Vec<SvcSoupBinTcpMsg<SendP>> = Vec::new();
        assert(svc_models(replay@) =~= Seq::<SvcMsgModel>::empty());
        SvcLoginDecision::Accept {
            accepted: SvcSoupBinTcpMsg::login_acc(self.session_id, SequenceNumber::from_u64(1)),
            replay,
        }
    }
}

impl<RecvP, SendP> Clone for SvcSoupBinTcpProtocolAuth<RecvP, SendP> {
    fn clone(&self) -> (r: Self)
        ensures
            r == *self,
    {
        SvcSoupBinTcpProtocolAuth {
            username: self.username,
            password: self.password,
            session_id: self.session_id,
            timeout: self.timeout,
            phantom: PhantomData,
        }
    }
}

/// Replay is faithful. Where a server has sent sequenced payloads `m1 .. mN` among all it
/// sent, a login that is let in and asks to start from `i` in `1..=N` is answered with
/// `m_i .. m_N`, in that order and each as it was sent; asking for 0, or for more than `N`,
/// replays nothing.
pub proof fn lemma_replay_faithful(
    l: CltMsgModel,
    username: UserName,
    password: Password,
    session_id: SessionId,
    sent: Seq<SvcMsgModel>,
    i: u64,
)
    requires
        credentials_match(l, username, password),
        session_matches(l, session_id),
        requested_start(l) == Some(i),
    ensures
        ({
            let o = svc_login_outcome(
                RecvStatus::Completed(Some(l)),
                username,
                password,
                session_id,
                sent,
            );
            let ms = sequenced(sent);
            &&& o.2 is None
            &&& 1 <= i <= ms.len() ==> {
                &&& o.1.len() == ms.len() - i + 1
                &&& forall|k: int| 0 <= k < o.1.len() ==> #[trigger] o.1[k] == ms[i - 1 + k]
                &&& forall|k: int| 0 <= k < o.1.len() ==> (#[trigger] o.1[k] is SPayload) && sent.contains(o.1[k])
            }
            &&& (i == 0 || i > ms.len()) ==> o.1.len() == 0
        }),
{
    let o = svc_login_outcome(RecvStatus::Completed(Some(l)), username, password, session_id, sent);
    let ms = sequenced(sent);
    if 1 <= i <= ms.len() {
        assert forall|k: int| 0 <= k < o.1.len() implies (#[trigger] o.1[k] is SPayload) && sent.contains(o.1[k]) by {
            crate::state::lemma_sequenced_items(sent, i - 1 + k);
        }
    }
}

/// A login that fails leaves nothing behind but the refusal the server must send: no
/// replay, nothing that accepts the login or counts as a sequenced payload, so the
/// connection stays down and the session's count stays as it was.
pub proof fn lemma_failed_login_leaves_no_trace(
    recv: RecvStatus<CltMsgModel>,
    username: UserName,
    password: Password,
    session_id: SessionId,
    sent: Seq<SvcMsgModel>,
    send: SvcSoupBinTcpSendConnectionState,
    now: u64,
)
    requires
        svc_login_outcome(recv, username, password, session_id, sent).2 is Some,
        send.login_accepted is None,
    ensures
        ({
            let o = svc_login_outcome(recv, username, password, session_id, sent);
            &&& o.1.len() == 0
            &&& o.2 == Some(SoupBinTcpError::NotConnected) ==> o.0 is LoginRejected
            &&& !send.after_sent(o.0, now).spec_is_connected()
            &&& sequenced(sent.push(o.0)) == sequenced(sent)
        }),
{
    let o = svc_login_outcome(recv, username, password, session_id, sent);
    assert(sent.push(o.0).drop_last() =~= sent);
}

/// A client whose login fails does not count as connected after what it received.
pub proof fn lemma_failed_client_login_not_connected(
    c: CltSoupBinTcpRecvConnectionState,
    m: SvcMsgModel,
    now: u64,
    later: u64,
)
    requires
        c.login_accepted is None,
        clt_login_reply_result(RecvStatus::Completed(Some(m))) is Err,
    ensures
        !c.after_recv(m, now).spec_is_connected(later),
{
}

} // verus!
