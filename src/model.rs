//! The messages of the protocol, the model each one stands for, and its bytes on the wire.
use crate::payload::SoupBinTcpPayload;
use crate::types::{
    num_field, LoginRejectReason, Password, SequenceNumber, SessionId, TimeoutMs,
    UserName,
};
use vstd::prelude::*;

verus! {

pub const PACKET_TYPE_CLT_HEARTBEAT: u8 = 82;  // 'R'

pub const PACKET_TYPE_SVC_HEARTBEAT: u8 = 72;  // 'H'

pub const PACKET_TYPE_DEBUG: u8 = 43;  // '+'

pub const PACKET_TYPE_END_OF_SESSION: u8 = 90;  // 'Z'

pub const PACKET_TYPE_LOGIN_ACCEPTED: u8 = 65;  // 'A'

pub const PACKET_TYPE_LOGIN_REJECTED: u8 = 74;  // 'J'

pub const PACKET_TYPE_LOGIN_REQUEST: u8 = 76;  // 'L'

pub const PACKET_TYPE_LOGOUT_REQUEST: u8 = 79;  // 'O'

pub const PACKET_TYPE_SEQUENCED_DATA: u8 = 83;  // 'S'

pub const PACKET_TYPE_UNSEQUENCED_DATA: u8 = 85;  // 'U'

/// Length of a login request after the length prefix: type, user, password, session, sequence, heartbeat.
pub const LOGIN_REQUEST_PACKET_LENGTH: u16 = 52;

/// Length of a login accepted after the length prefix: type, session, sequence.
pub const LOGIN_ACCEPTED_PACKET_LENGTH: u16 = 31;

pub const LOGIN_REJECTED_PACKET_LENGTH: u16 = 2;

/// Largest frame of any message but a debug one, payloads of no bytes taken.
pub const SOUPBINTCP_MAX_FRAME_SIZE_EXCLUDING_PAYLOAD_DEBUG: usize = 54;

/// A message from a client, as a value.
pub enum CltMsgModel {
    UPayload(Seq<u8>),
    SPayload(Seq<u8>),
    HBeat,
    Dbg(Seq<u8>),
    LoginRequest {
        username: Seq<u8>,
        password: Seq<u8>,
        session_id: Seq<u8>,
        sequence_number: Seq<u8>,
        hbeat_timeout_ms: Seq<u8>,
    },
    LogoutRequest,
}

/// A message from a server, as a value.
pub enum SvcMsgModel {
    HBeat,
    Dbg(Seq<u8>),
    LoginAccepted { session_id: Seq<u8>, sequence_number: Seq<u8> },
    LoginRejected(u8),
    EndOfSession,
    UPayload(Seq<u8>),
    SPayload(Seq<u8>),
}

/// The two bytes of `n` in big-endian order.
pub open spec fn be_u16(n: nat) -> Seq<u8> {
    seq![(n / 256) as u8, (n % 256) as u8]
}

/// The number that the first two bytes of `f` spell in big-endian order.
pub open spec fn be_u16_value(f: Seq<u8>) -> nat {
    f[0] as nat * 256 + f[1] as nat
}

/// A frame: the length of the packet, then the packet (its type byte and what follows).
pub open spec fn frame(packet: Seq<u8>) -> Seq<u8> {
    be_u16(packet.len()) + packet
}

/// The packet of a client message: its type byte, then its fields.
pub open spec fn clt_packet(m: CltMsgModel) -> Seq<u8> {
    match m {
        CltMsgModel::UPayload(p) => seq![PACKET_TYPE_UNSEQUENCED_DATA] + p,
        CltMsgModel::SPayload(p) => seq![PACKET_TYPE_SEQUENCED_DATA] + p,
        CltMsgModel::HBeat => seq![PACKET_TYPE_CLT_HEARTBEAT],
        CltMsgModel::Dbg(t) => seq![PACKET_TYPE_DEBUG] + t,
        CltMsgModel::LoginRequest {
            username,
            password,
            session_id,
            sequence_number,
            hbeat_timeout_ms,
        } => seq![PACKET_TYPE_LOGIN_REQUEST] + username + password + session_id + sequence_number
            + hbeat_timeout_ms,
        CltMsgModel::LogoutRequest => seq![PACKET_TYPE_LOGOUT_REQUEST],
    }
}

/// The packet of a server message: its type byte, then its fields.
pub open spec fn svc_packet(m: SvcMsgModel) -> Seq<u8> {
    match m {
        SvcMsgModel::HBeat => seq![PACKET_TYPE_SVC_HEARTBEAT],
        SvcMsgModel::Dbg(t) => seq![PACKET_TYPE_DEBUG] + t,
        SvcMsgModel::LoginAccepted { session_id, sequence_number } => seq![
            PACKET_TYPE_LOGIN_ACCEPTED,
        ] + session_id + sequence_number,
        SvcMsgModel::LoginRejected(reason) => seq![PACKET_TYPE_LOGIN_REJECTED, reason],
        SvcMsgModel::EndOfSession => seq![PACKET_TYPE_END_OF_SESSION],
        SvcMsgModel::UPayload(p) => seq![PACKET_TYPE_UNSEQUENCED_DATA] + p,
        SvcMsgModel::SPayload(p) => seq![PACKET_TYPE_SEQUENCED_DATA] + p,
    }
}

/// The client message that a packet holds, dispatched on its type byte.
pub open spec fn clt_parse_packet(p: Seq<u8>) -> Option<CltMsgModel> {
    if p.len() == 0 {
        None
    } else {
        let tag = p[0];
        let rest = p.drop_first();
        if tag == PACKET_TYPE_UNSEQUENCED_DATA {
            Some(CltMsgModel::UPayload(rest))
        } else if tag == PACKET_TYPE_SEQUENCED_DATA {
            Some(CltMsgModel::SPayload(rest))
        } else if tag == PACKET_TYPE_CLT_HEARTBEAT && p.len() == 1 {
            Some(CltMsgModel::HBeat)
        } else if tag == PACKET_TYPE_DEBUG {
            Some(CltMsgModel::Dbg(rest))
        } else if tag == PACKET_TYPE_LOGIN_REQUEST && p.len() == LOGIN_REQUEST_PACKET_LENGTH {
            Some(
                CltMsgModel::LoginRequest {
                    username: p.subrange(1, 7),
                    password: p.subrange(7, 17),
                    session_id: p.subrange(17, 27),
                    sequence_number: p.subrange(27, 47),
                    hbeat_timeout_ms: p.subrange(47, 52),
                },
            )
        } else if tag == PACKET_TYPE_LOGOUT_REQUEST && p.len() == 1 {
            Some(CltMsgModel::LogoutRequest)
        } else {
            None
        }
    }
}

/// The server message that a packet holds, dispatched on its type byte.
pub open spec fn svc_parse_packet(p: Seq<u8>) -> Option<SvcMsgModel> {
    if p.len() == 0 {
        None
    } else {
        let tag = p[0];
        let rest = p.drop_first();
        if tag == PACKET_TYPE_SVC_HEARTBEAT && p.len() == 1 {
            Some(SvcMsgModel::HBeat)
        } else if tag == PACKET_TYPE_DEBUG {
            Some(SvcMsgModel::Dbg(rest))
        } else if tag == PACKET_TYPE_LOGIN_ACCEPTED && p.len() == LOGIN_ACCEPTED_PACKET_LENGTH {
            Some(
                SvcMsgModel::LoginAccepted {
                    session_id: p.subrange(1, 11),
                    sequence_number: p.subrange(11, 31),
                },
            )
        } else if tag == PACKET_TYPE_LOGIN_REJECTED && p.len() == LOGIN_REJECTED_PACKET_LENGTH {
            Some(SvcMsgModel::LoginRejected(p[1]))
        } else if tag == PACKET_TYPE_END_OF_SESSION && p.len() == 1 {
            Some(SvcMsgModel::EndOfSession)
        } else if tag == PACKET_TYPE_UNSEQUENCED_DATA {
            Some(SvcMsgModel::UPayload(rest))
        } else if tag == PACKET_TYPE_SEQUENCED_DATA {
            Some(SvcMsgModel::SPayload(rest))
        } else {
            None
        }
    }
}

/// The packet that a frame holds, where its length prefix counts exactly the bytes after it.
pub open spec fn frame_packet(f: Seq<u8>) -> Option<Seq<u8>> {
    if f.len() >= 2 && be_u16_value(f) == f.len() - 2 {
        Some(f.subrange(2, f.len() as int))
    } else {
        None
    }
}

pub open spec fn clt_parse_frame(f: Seq<u8>) -> Option<CltMsgModel> {
    match frame_packet(f) {
        Some(p) => clt_parse_packet(p),
        None => None,
    }
}

pub open spec fn svc_parse_frame(f: Seq<u8>) -> Option<SvcMsgModel> {
    match frame_packet(f) {
        Some(p) => svc_parse_packet(p),
        None => None,
    }
}

/// Whether a frame decodes into a client message whose payload, if any, is one of `P`.
pub open spec fn clt_decodes<P: SoupBinTcpPayload>(f: Seq<u8>) -> bool {
    match clt_parse_frame(f) {
        Some(CltMsgModel::UPayload(b)) => P::accepts(b),
        Some(CltMsgModel::SPayload(b)) => P::accepts(b),
        Some(_) => true,
        None => false,
    }
}

/// Whether a frame decodes into a server message whose payload, if any, is one of `P`.
pub open spec fn svc_decodes<P: SoupBinTcpPayload>(f: Seq<u8>) -> bool {
    match svc_parse_frame(f) {
        Some(SvcMsgModel::UPayload(b)) => P::accepts(b),
        Some(SvcMsgModel::SPayload(b)) => P::accepts(b),
        Some(_) => true,
        None => false,
    }
}

/// A client heartbeat.
#[derive(PartialEq, Eq, Clone, Copy, Debug)]
pub struct CltHeartbeat;

impl CltHeartbeat {
    pub fn new() -> Self {
        CltHeartbeat
    }
}

impl Default for CltHeartbeat {
    fn default() -> Self {
        CltHeartbeat
    }
}

/// A server heartbeat.
#[derive(PartialEq, Eq, Clone, Copy, Debug)]
pub struct SvcHeartbeat;

impl SvcHeartbeat {
    pub fn new() -> Self {
        SvcHeartbeat
    }
}

impl Default for SvcHeartbeat {
    fn default() -> Self {
        SvcHeartbeat
    }
}

/// The server's last message of a session.
#[derive(PartialEq, Eq, Clone, Copy, Debug)]
pub struct EndOfSession;

impl EndOfSession {
    pub fn new() -> Self {
        EndOfSession
    }
}

impl Default for EndOfSession {
    fn default() -> Self {
        EndOfSession
    }
}

/// A client's request to end the session.
#[derive(PartialEq, Eq, Clone, Copy, Debug)]
pub struct LogoutRequest;

impl LogoutRequest {
    pub fn new() -> Self {
        LogoutRequest
    }
}

impl Default for LogoutRequest {
    fn default() -> Self {
        LogoutRequest
    }
}

/// A client's login: credentials, the session, the first sequence number wanted and the
/// heartbeat interval the client keeps.
#[derive(PartialEq, Eq, Clone, Copy, Debug)]
pub struct LoginRequest {
    pub username: UserName,
    pub password: Password,
    pub session_id: SessionId,
    pub sequence_number: SequenceNumber,
    pub hbeat_timeout_ms: TimeoutMs,
}

impl LoginRequest {
    pub fn new(
        username: UserName,
        password: Password,
        session_id: SessionId,
        sequence_number: SequenceNumber,
        hbeat_timeout_ms: TimeoutMs,
    ) -> (r: LoginRequest)
        ensures
            r == (LoginRequest {
                username,
                password,
                session_id,
                sequence_number,
                hbeat_timeout_ms,
            }),
    {
        LoginRequest { username, password, session_id, sequence_number, hbeat_timeout_ms }
    }
}

impl Default for LoginRequest {
    fn default() -> (r: Self)
        ensures
            r.sequence_number@ == num_field(1, 20),
            r.hbeat_timeout_ms@ == num_field(5000, 5),
    {
        LoginRequest::new(
            UserName::new("dummy".as_bytes()),
            Password::new("dummy".as_bytes()),
            SessionId::new("session #1".as_bytes()),
            SequenceNumber::from_u64(1),
            TimeoutMs::from_millis(5000),
        )
    }
}

/// The server's acceptance of a login: the session and the next sequence number it will send.
#[derive(PartialEq, Eq, Clone, Copy, Debug)]
pub struct LoginAccepted {
    session_id: SessionId,
    sequence_number: SequenceNumber,
}

impl LoginAccepted {
    pub fn new(session_id: SessionId, sequence_number: SequenceNumber) -> (r: LoginAccepted)
        ensures
            r.spec_session_id() == session_id,
            r.spec_sequence_number() == sequence_number,
    {
        LoginAccepted { session_id, sequence_number }
    }

    pub closed spec fn spec_session_id(&self) -> SessionId {
        self.session_id
    }

    pub closed spec fn spec_sequence_number(&self) -> SequenceNumber {
        self.sequence_number
    }

    pub fn session_id(&self) -> (r: SessionId)
        ensures
            r == self.spec_session_id(),
    {
        self.session_id
    }

    pub fn sequence_number(&self) -> (r: SequenceNumber)
        ensures
            r == self.spec_sequence_number(),
    {
        self.sequence_number
    }
}

impl Default for LoginAccepted {
    fn default() -> (r: Self)
        ensures
            r.spec_sequence_number()@ == num_field(1, 20),
    {
        LoginAccepted::new(SessionId::new("session #1".as_bytes()), SequenceNumber::from_u64(1))
    }
}

/// The server's refusal of a login, with its reason.
#[derive(PartialEq, Eq, Clone, Copy, Debug)]
pub struct LoginRejected {
    reason: LoginRejectReason,
}

impl LoginRejected {
    pub closed spec fn spec_reason(&self) -> u8 {
        self.reason.0
    }

    pub fn new(reason: LoginRejectReason) -> (r: Self)
        ensures
            r.spec_reason() == reason.0,
    {
        LoginRejected { reason }
    }

    pub fn not_authorized() -> (r: Self)
        ensures
            r.spec_reason() == crate::types::REJECT_NOT_AUTHORIZED,
    {
        LoginRejected { reason: LoginRejectReason::not_authorized() }
    }

    pub fn session_not_available() -> (r: Self)
        ensures
            r.spec_reason() == crate::types::REJECT_SESSION_NOT_AVAILABLE,
    {
        LoginRejected { reason: LoginRejectReason::session_not_available() }
    }

    pub fn reason(&self) -> (r: LoginRejectReason)
        ensures
            r.0 == self.spec_reason(),
    {
        self.reason
    }

    pub fn is_not_authorized(&self) -> (r: bool)
        ensures
            r == (self.spec_reason() == crate::types::REJECT_NOT_AUTHORIZED),
    {
        self.reason.is_not_authorized()
    }

    pub fn is_session_not_available(&self) -> (r: bool)
        ensures
            r == (self.spec_reason() == crate::types::REJECT_SESSION_NOT_AVAILABLE),
    {
        self.reason.is_session_not_available()
    }
}

/// Free text for people to read.
#[derive(PartialEq, Eq, Clone, Debug)]
pub struct Debug {
    pub text: Vec<u8>,
}

impl Debug {
    pub fn new(text: &[u8]) -> (r: Self)
        ensures
            r.text@ == text@,
    {
        Debug { text: vstd::slice::slice_to_vec(text) }
    }

    pub fn copy_text(&self) -> (r: Self)
        ensures
            r.text@ == self.text@,
    {
        Debug { text: self.text.clone() }
    }
}

impl Default for Debug {
    fn default() -> Self {
        Debug::new("This is a default debug message text".as_bytes())
    }
}

/// The first three bytes of an unsequenced frame: its length and type.
#[derive(PartialEq, Eq, Clone, Copy, Debug)]
pub struct UPayloadHeader {
    pub packet_length: u16,
}

impl UPayloadHeader {
    pub fn new(packet_length: u16) -> (r: Self)
        ensures
            r.packet_length == packet_length,
    {
        UPayloadHeader { packet_length }
    }
}

/// The first three bytes of a sequenced frame: its length and type.
#[derive(PartialEq, Eq, Clone, Copy, Debug)]
pub struct SPayloadHeader {
    pub packet_length: u16,
}

impl SPayloadHeader {
    pub fn new(packet_length: u16) -> (r: Self)
        ensures
            r.packet_length == packet_length,
    {
        SPayloadHeader { packet_length }
    }
}

/// The bytes of a payload header: the packet length, then the type byte.
pub open spec fn header_wire(packet_length: u16, tag: u8) -> Seq<u8> {
    be_u16(packet_length as nat) + seq![tag]
}

fn encode_header(packet_length: u16, tag: u8) -> (r: Vec<u8>)
    ensures
        r@ == header_wire(packet_length, tag),
{
    let mut v: Vec<u8> = Vec::new();
    v.push((packet_length / 256) as u8);
    v.push((packet_length % 256) as u8);
    v.push(tag);
    assert(v@ =~= header_wire(packet_length, tag));
    v
}

fn decode_header(b: &[u8], tag: u8) -> (r: Option<u16>)
    ensures
        r matches Some(n) ==> header_wire(n, tag) == b@,
        r is None <==> !(b@.len() == 3 && b@[2] == tag),
{
    if b.len() != 3 || b[2] != tag {
        return None;
    }
    let hi = b[0] as u16;
    let lo = b[1] as u16;
    let n: u16 = hi * 256 + lo;
    assert(n / 256 == hi && n % 256 == lo) by (nonlinear_arith)
        requires
            n == hi * 256 + lo,
            hi < 256,
            lo < 256,
    ;
    assert(header_wire(n, tag) =~= b@);
    Some(n)
}

impl UPayloadHeader {
    pub open spec fn wire(&self) -> Seq<u8> {
        header_wire(self.packet_length, PACKET_TYPE_UNSEQUENCED_DATA)
    }

    pub fn encode(&self) -> (r: Vec<u8>)
        ensures
            r@ == self.wire(),
    {
        encode_header(self.packet_length, PACKET_TYPE_UNSEQUENCED_DATA)
    }

    pub fn decode(b: &[u8]) -> (r: Option<Self>)
        ensures
            r matches Some(h) ==> h.wire() == b@,
            r is None <==> !(b@.len() == 3 && b@[2] == PACKET_TYPE_UNSEQUENCED_DATA),
    {
        match decode_header(b, PACKET_TYPE_UNSEQUENCED_DATA) {
            Some(n) => Some(UPayloadHeader { packet_length: n }),
            None => None,
        }
    }
}

impl SPayloadHeader {
    pub open spec fn wire(&self) -> Seq<u8> {
        header_wire(self.packet_length, PACKET_TYPE_SEQUENCED_DATA)
    }

    pub fn encode(&self) -> (r: Vec<u8>)
        ensures
            r@ == self.wire(),
    {
        encode_header(self.packet_length, PACKET_TYPE_SEQUENCED_DATA)
    }

    pub fn decode(b: &[u8]) -> (r: Option<Self>)
        ensures
            r matches Some(h) ==> h.wire() == b@,
            r is None <==> !(b@.len() == 3 && b@[2] == PACKET_TYPE_SEQUENCED_DATA),
    {
        match decode_header(b, PACKET_TYPE_SEQUENCED_DATA) {
            Some(n) => Some(SPayloadHeader { packet_length: n }),
            None => None,
        }
    }
}

/// An unsequenced payload: delivered at most once, never replayed.
#[derive(PartialEq, Eq, Clone, Debug)]
pub struct UPayload<P> {
    pub payload: P,
}

impl<P: SoupBinTcpPayload> UPayload<P> {
    pub fn new(payload: P) -> (r: Self)
        ensures
            r.payload == payload,
    {
        UPayload { payload }
    }

    /// The header that goes in front of this payload.
    pub fn header(&self) -> (r: UPayloadHeader)
        requires
            self.payload.wire().len() < 65535,
        ensures
            r.packet_length == self.payload.wire().len() + 1,
    {
        UPayloadHeader::new((self.payload.byte_len() + 1) as u16)
    }
}

/// A sequenced payload: numbered by the server and replayed on request.
#[derive(PartialEq, Eq, Clone, Debug)]
pub struct SPayload<P> {
    pub payload: P,
}

impl<P: SoupBinTcpPayload> SPayload<P> {
    pub fn new(payload: P) -> (r: Self)
        ensures
            r.payload == payload,
    {
        SPayload { payload }
    }

    /// The header that goes in front of this payload.
    pub fn header(&self) -> (r: SPayloadHeader)
        requires
            self.payload.wire().len() < 65535,
        ensures
            r.packet_length == self.payload.wire().len() + 1,
    {
        SPayloadHeader::new((self.payload.byte_len() + 1) as u16)
    }
}

/// What a client sends.
#[derive(PartialEq, Eq, Clone, Debug)]
pub enum CltSoupBinTcpMsg<P> {
    UPayload(UPayload<P>),
    SPayload(SPayload<P>),
    HBeat(CltHeartbeat),
    Dbg(Debug),
    LoginRequest(LoginRequest),
    LogoutRequest(LogoutRequest),
}

/// What a server sends.
#[derive(PartialEq, Eq, Clone, Debug)]
pub enum SvcSoupBinTcpMsg<P> {
    HBeat(SvcHeartbeat),
    Dbg(Debug),
    LoginAccepted(LoginAccepted),
    LoginRejected(LoginRejected),
    EndOfSession(EndOfSession),
    UPayload(UPayload<P>),
    SPayload(SPayload<P>),
}

impl<P: SoupBinTcpPayload> CltSoupBinTcpMsg<P> {
    pub open spec fn view(&self) -> CltMsgModel {
        match self {
            CltSoupBinTcpMsg::UPayload(u) => CltMsgModel::UPayload(u.payload.wire()),
            CltSoupBinTcpMsg::SPayload(s) => CltMsgModel::SPayload(s.payload.wire()),
            CltSoupBinTcpMsg::HBeat(_) => CltMsgModel::HBeat,
            CltSoupBinTcpMsg::Dbg(d) => CltMsgModel::Dbg(d.text@),
            CltSoupBinTcpMsg::LoginRequest(l) => CltMsgModel::LoginRequest {
                username: l.username@,
                password: l.password@,
                session_id: l.session_id@,
                sequence_number: l.sequence_number@,
                hbeat_timeout_ms: l.hbeat_timeout_ms@,
            },
            CltSoupBinTcpMsg::LogoutRequest(_) => CltMsgModel::LogoutRequest,
        }
    }

    pub fn hbeat() -> (r: Self)
        ensures
            r@ == CltMsgModel::HBeat,
    {
        CltSoupBinTcpMsg::HBeat(CltHeartbeat::new())
    }

    pub fn login(
        username: UserName,
        password: Password,
        session_id: SessionId,
        sequence_number: SequenceNumber,
        hbeat_timeout_ms: TimeoutMs,
    ) -> (r: Self)
        ensures
            r == CltSoupBinTcpMsg::<P>::LoginRequest(
                LoginRequest { username, password, session_id, sequence_number, hbeat_timeout_ms },
            ),
    {
        CltSoupBinTcpMsg::LoginRequest(
            LoginRequest::new(username, password, session_id, sequence_number, hbeat_timeout_ms),
        )
    }

    pub fn logout() -> (r: Self)
        ensures
            r@ == CltMsgModel::LogoutRequest,
    {
        CltSoupBinTcpMsg::LogoutRequest(LogoutRequest::new())
    }

    pub fn dbg(text: &[u8]) -> (r: Self)
        ensures
            r@ == CltMsgModel::Dbg(text@),
    {
        CltSoupBinTcpMsg::Dbg(Debug::new(text))
    }

    pub fn sdata(payload: P) -> (r: Self)
        ensures
            r == CltSoupBinTcpMsg::SPayload(SPayload { payload }),
    {
        CltSoupBinTcpMsg::SPayload(SPayload::new(payload))
    }

    pub fn udata(payload: P) -> (r: Self)
        ensures
            r == CltSoupBinTcpMsg::UPayload(UPayload { payload }),
    {
        CltSoupBinTcpMsg::UPayload(UPayload::new(payload))
    }

    /// A copy that stands for the same message.
    pub fn copy_msg(&self) -> (r: Self)
        ensures
            r@ == self@,
    {
        match self {
            CltSoupBinTcpMsg::UPayload(u) => CltSoupBinTcpMsg::UPayload(
                UPayload { payload: u.payload.copy_payload() },
            ),
            CltSoupBinTcpMsg::SPayload(s) => CltSoupBinTcpMsg::SPayload(
                SPayload { payload: s.payload.copy_payload() },
            ),
            CltSoupBinTcpMsg::HBeat(h) => CltSoupBinTcpMsg::HBeat(*h),
            CltSoupBinTcpMsg::Dbg(d) => CltSoupBinTcpMsg::Dbg(d.copy_text()),
            CltSoupBinTcpMsg::LoginRequest(l) => CltSoupBinTcpMsg::LoginRequest(*l),
            CltSoupBinTcpMsg::LogoutRequest(l) => CltSoupBinTcpMsg::LogoutRequest(*l),
        }
    }
}

impl<P: SoupBinTcpPayload> SvcSoupBinTcpMsg<P> {
    pub open spec fn view(&self) -> SvcMsgModel {
        match self {
            SvcSoupBinTcpMsg::HBeat(_) => SvcMsgModel::HBeat,
            SvcSoupBinTcpMsg::Dbg(d) => SvcMsgModel::Dbg(d.text@),
            SvcSoupBinTcpMsg::LoginAccepted(a) => SvcMsgModel::LoginAccepted {
                session_id: a.spec_session_id()@,
                sequence_number: a.spec_sequence_number()@,
            },
            SvcSoupBinTcpMsg::LoginRejected(j) => SvcMsgModel::LoginRejected(j.spec_reason()),
            SvcSoupBinTcpMsg::EndOfSession(_) => SvcMsgModel::EndOfSession,
            SvcSoupBinTcpMsg::UPayload(u) => SvcMsgModel::UPayload(u.payload.wire()),
            SvcSoupBinTcpMsg::SPayload(s) => SvcMsgModel::SPayload(s.payload.wire()),
        }
    }

    pub fn hbeat() -> (r: Self)
        ensures
            r@ == SvcMsgModel::HBeat,
    {
        SvcSoupBinTcpMsg::HBeat(SvcHeartbeat::new())
    }

    pub fn dbg(text: &[u8]) -> (r: Self)
        ensures
            r@ == SvcMsgModel::Dbg(text@),
    {
        SvcSoupBinTcpMsg::Dbg(Debug::new(text))
    }

    pub fn login_acc(session_id: SessionId, sequence_number: SequenceNumber) -> (r: Self)
        ensures
            r@ == (SvcMsgModel::LoginAccepted {
                session_id: session_id@,
                sequence_number: sequence_number@,
            }),
    {
        SvcSoupBinTcpMsg::LoginAccepted(LoginAccepted::new(session_id, sequence_number))
    }

    pub fn login_rej_not_auth() -> (r: Self)
        ensures
            r@ == SvcMsgModel::LoginRejected(crate::types::REJECT_NOT_AUTHORIZED),
    {
        SvcSoupBinTcpMsg::LoginRejected(LoginRejected::not_authorized())
    }

    pub fn login_rej_ses_not_avail() -> (r: Self)
        ensures
            r@ == SvcMsgModel::LoginRejected(crate::types::REJECT_SESSION_NOT_AVAILABLE),
    {
        SvcSoupBinTcpMsg::LoginRejected(LoginRejected::session_not_available())
    }

    pub fn end() -> (r: Self)
        ensures
            r@ == SvcMsgModel::EndOfSession,
    {
        SvcSoupBinTcpMsg::EndOfSession(EndOfSession::new())
    }

    pub fn sdata(payload: P) -> (r: Self)
        ensures
            r == SvcSoupBinTcpMsg::SPayload(SPayload { payload }),
    {
        SvcSoupBinTcpMsg::SPayload(SPayload::new(payload))
    }

    pub fn udata(payload: P) -> (r: Self)
        ensures
            r == SvcSoupBinTcpMsg::UPayload(UPayload { payload }),
    {
        SvcSoupBinTcpMsg::UPayload(UPayload::new(payload))
    }

    /// A copy that stands for the same message.
    pub fn copy_msg(&self) -> (r: Self)
        ensures
            r@ == self@,
    {
        match self {
            SvcSoupBinTcpMsg::HBeat(h) => SvcSoupBinTcpMsg::HBeat(*h),
            SvcSoupBinTcpMsg::Dbg(d) => SvcSoupBinTcpMsg::Dbg(d.copy_text()),
            SvcSoupBinTcpMsg::LoginAccepted(a) => SvcSoupBinTcpMsg::LoginAccepted(*a),
            SvcSoupBinTcpMsg::LoginRejected(j) => SvcSoupBinTcpMsg::LoginRejected(*j),
            SvcSoupBinTcpMsg::EndOfSession(e) => SvcSoupBinTcpMsg::EndOfSession(*e),
            SvcSoupBinTcpMsg::UPayload(u) => SvcSoupBinTcpMsg::UPayload(
                UPayload { payload: u.payload.copy_payload() },
            ),
            SvcSoupBinTcpMsg::SPayload(s) => SvcSoupBinTcpMsg::SPayload(
                SPayload { payload: s.payload.copy_payload() },
            ),
        }
    }
}

/// A message of either side.
#[derive(PartialEq, Eq, Clone, Debug)]
pub enum UniSoupBinTcpMsg<CltP, SvcP> {
    Clt(CltSoupBinTcpMsg<CltP>),
    Svc(SvcSoupBinTcpMsg<SvcP>),
}

impl<CltP: SoupBinTcpPayload, SvcP: SoupBinTcpPayload> UniSoupBinTcpMsg<CltP, SvcP> {
    pub fn unwrap_clt(self) -> (r: CltSoupBinTcpMsg<CltP>)
        requires
            self is Clt,
        ensures
            self == UniSoupBinTcpMsg::<CltP, SvcP>::Clt(r),
    {
        match self {
            UniSoupBinTcpMsg::Clt(msg) => msg,
            UniSoupBinTcpMsg::Svc(_) => vstd::pervasive::unreached(),
        }
    }

    pub fn unwrap_svc(self) -> (r: SvcSoupBinTcpMsg<SvcP>)
        requires
            self is Svc,
        ensures
            self == UniSoupBinTcpMsg::<CltP, SvcP>::Svc(r),
    {
        match self {
            UniSoupBinTcpMsg::Svc(msg) => msg,
            UniSoupBinTcpMsg::Clt(_) => vstd::pervasive::unreached(),
        }
    }

    pub fn unwrap_clt_upayload(self) -> (r: CltP)
        requires
            self matches UniSoupBinTcpMsg::Clt(CltSoupBinTcpMsg::UPayload(_)),
        ensures
            self == UniSoupBinTcpMsg::<CltP, SvcP>::Clt(
                CltSoupBinTcpMsg::UPayload(UPayload { payload: r }),
            ),
    {
        match self {
            UniSoupBinTcpMsg::Clt(CltSoupBinTcpMsg::UPayload(u)) => u.payload,
            _ => vstd::pervasive::unreached(),
        }
    }

    pub fn unwrap_svc_spayload(&self) -> (r: &SvcP)
        requires
            self matches UniSoupBinTcpMsg::Svc(SvcSoupBinTcpMsg::SPayload(_)),
        ensures
            *self == UniSoupBinTcpMsg::<CltP, SvcP>::Svc(
                SvcSoupBinTcpMsg::SPayload(SPayload { payload: *r }),
            ),
    {
        match self {
            UniSoupBinTcpMsg::Svc(SvcSoupBinTcpMsg::SPayload(s)) => &s.payload,
            _ => vstd::pervasive::unreached(),
        }
    }
}

} // verus!
