//! Frame boundaries, and messages to and from frames.
use crate::error::SoupBinTcpError;
use crate::model::{
    be_u16, be_u16_value, CltMsgModel, SvcMsgModel, clt_decodes, clt_packet, clt_parse_frame, frame, frame_packet, svc_decodes,
    svc_packet, svc_parse_frame, CltHeartbeat, CltSoupBinTcpMsg, EndOfSession,
    LoginAccepted, LoginRejected, LoginRequest, LogoutRequest, SPayload, SvcHeartbeat,
    SvcSoupBinTcpMsg, UPayload, PACKET_TYPE_CLT_HEARTBEAT, PACKET_TYPE_DEBUG,
    PACKET_TYPE_END_OF_SESSION, PACKET_TYPE_LOGIN_ACCEPTED, PACKET_TYPE_LOGIN_REJECTED,
    PACKET_TYPE_LOGIN_REQUEST, PACKET_TYPE_LOGOUT_REQUEST, PACKET_TYPE_SEQUENCED_DATA,
    PACKET_TYPE_SVC_HEARTBEAT, PACKET_TYPE_UNSEQUENCED_DATA,
};
use crate::payload::{push_bytes, SoupBinTcpPayload};
use crate::types::{
    text_array, LoginRejectReason, Password, SequenceNumber, SessionId, TimeoutMs,
    UserName,
};
use core::marker::PhantomData;
use vstd::prelude::*;

verus! {

/// How many bytes from the front of `b` make the next frame, where all of them are there.
pub open spec fn frame_length(b: Seq<u8>) -> Option<usize> {
    if b.len() < 2 {
        None
    } else if b.len() < 2 + be_u16_value(b) {
        None
    } else {
        Some((2 + be_u16_value(b)) as usize)
    }
}

/// Finds where frames end in a stream of bytes.
pub struct SoupBinTcpFramer;

impl SoupBinTcpFramer {
    /// The length of the frame at the front of `bytes`, length prefix included;
    /// `None` while not all of it has arrived.
    pub fn get_frame_length(bytes: &[u8]) -> (r: Option<usize>)
        ensures
            r == frame_length(bytes@),
    {
        if bytes.len() < 2 {
            return None;
        }
        let n: usize = (bytes[0] as usize) * 256 + bytes[1] as usize + 2;
        if bytes.len() < n {
            None
        } else {
            Some(n)
        }
    }
}

fn copy_array<const N: usize>(s: &[u8]) -> (r: [u8; N])
    requires
        s@.len() == N,
    ensures
        r@ == s@,
{
    let r: [u8; N] = text_array(s);
    assert(s@.subrange(0, N as int) =~= s@);
    r
}

fn push_frame(packet: Vec<u8>) -> (r: Result<Vec<u8>, SoupBinTcpError>)
    ensures
        r matches Ok(f) ==> packet@.len() <= 65535 && f@ == frame(packet@),
        r matches Err(e) ==> packet@.len() > 65535 && e == SoupBinTcpError::EncodeError,
{
    let n = packet.len();
    if n > 65535 {
        return Err(SoupBinTcpError::EncodeError);
    }
    let mut f: Vec<u8> = Vec::new();
    f.push((n / 256) as u8);
    f.push((n % 256) as u8);
    push_bytes(&mut f, packet.as_slice());
    assert(f@ =~= frame(packet@));
    Ok(f)
}

/// The packet of a client message.
pub fn clt_packet_bytes<P: SoupBinTcpPayload>(m: &CltSoupBinTcpMsg<P>) -> (r: Vec<u8>)
    ensures
        r@ == clt_packet(m@),
{
    let mut b: Vec<u8> = Vec::new();
    match m {
        CltSoupBinTcpMsg::UPayload(u) => {
            b.push(PACKET_TYPE_UNSEQUENCED_DATA);
            u.payload.encode_into(&mut b);
        },
        CltSoupBinTcpMsg::SPayload(s) => {
            b.push(PACKET_TYPE_SEQUENCED_DATA);
            s.payload.encode_into(&mut b);
        },
        CltSoupBinTcpMsg::HBeat(_) => {
            b.push(PACKET_TYPE_CLT_HEARTBEAT);
        },
        CltSoupBinTcpMsg::Dbg(d) => {
            b.push(PACKET_TYPE_DEBUG);
            push_bytes(&mut b, d.text.as_slice());
        },
        CltSoupBinTcpMsg::LoginRequest(l) => {
            b.push(PACKET_TYPE_LOGIN_REQUEST);
            push_bytes(&mut b, vstd::array::array_as_slice(&l.username.0));
            push_bytes(&mut b, vstd::array::array_as_slice(&l.password.0));
            push_bytes(&mut b, vstd::array::array_as_slice(&l.session_id.0));
            push_bytes(&mut b, vstd::array::array_as_slice(&l.sequence_number.0));
            push_bytes(&mut b, vstd::array::array_as_slice(&l.hbeat_timeout_ms.0));
        },
        CltSoupBinTcpMsg::LogoutRequest(_) => {
            b.push(PACKET_TYPE_LOGOUT_REQUEST);
        },
    }
    assert(b@ =~= clt_packet(m@));
    b
}

/// The packet of a server message.
pub fn svc_packet_bytes<P: SoupBinTcpPayload>(m: &SvcSoupBinTcpMsg<P>) -> (r: Vec<u8>)
    ensures
        r@ == svc_packet(m@),
{
    let mut b: Vec<u8> = Vec::new();
    match m {
        SvcSoupBinTcpMsg::HBeat(_) => {
            b.push(PACKET_TYPE_SVC_HEARTBEAT);
        },
        SvcSoupBinTcpMsg::Dbg(d) => {
            b.push(PACKET_TYPE_DEBUG);
            push_bytes(&mut b, d.text.as_slice());
        },
        SvcSoupBinTcpMsg::LoginAccepted(a) => {
            b.push(PACKET_TYPE_LOGIN_ACCEPTED);
            let s = a.session_id();
            let q = a.sequence_number();
            push_bytes(&mut b, vstd::array::array_as_slice(&s.0));
            push_bytes(&mut b, vstd::array::array_as_slice(&q.0));
        },
        SvcSoupBinTcpMsg::LoginRejected(j) => {
            b.push(PACKET_TYPE_LOGIN_REJECTED);
            b.push(j.reason().0);
        },
        SvcSoupBinTcpMsg::EndOfSession(_) => {
            b.push(PACKET_TYPE_END_OF_SESSION);
        },
        SvcSoupBinTcpMsg::UPayload(u) => {
            b.push(PACKET_TYPE_UNSEQUENCED_DATA);
            u.payload.encode_into(&mut b);
        },
        SvcSoupBinTcpMsg::SPayload(s) => {
            b.push(PACKET_TYPE_SEQUENCED_DATA);
            s.payload.encode_into(&mut b);
        },
    }
    assert(b@ =~= svc_packet(m@));
    b
}

/// The frame of a client message; fails where its packet is too long for the length prefix.
pub fn encode_clt<P: SoupBinTcpPayload>(m: &CltSoupBinTcpMsg<P>) -> (r: Result<
    Vec<u8>,
    SoupBinTcpError,
>)
    ensures
        r matches Ok(f) ==> clt_packet(m@).len() <= 65535 && f@ == frame(clt_packet(m@)),
        r matches Err(e) ==> clt_packet(m@).len() > 65535 && e == SoupBinTcpError::EncodeError,
{
    push_frame(clt_packet_bytes(m))
}

/// The frame of a server message; fails where its packet is too long for the length prefix.
pub fn encode_svc<P: SoupBinTcpPayload>(m: &SvcSoupBinTcpMsg<P>) -> (r: Result<
    Vec<u8>,
    SoupBinTcpError,
>)
    ensures
        r matches Ok(f) ==> svc_packet(m@).len() <= 65535 && f@ == frame(svc_packet(m@)),
        r matches Err(e) ==> svc_packet(m@).len() > 65535 && e == SoupBinTcpError::EncodeError,
{
    push_frame(svc_packet_bytes(m))
}

/// The packet of a complete frame, where its length prefix counts exactly the bytes after it.
fn packet_of(f: &[u8]) -> (r: Option<&[u8]>)
    ensures
        r matches Some(p) ==> frame_packet(f@) == Some(p@),
        r is None ==> frame_packet(f@) is None,
{
    if f.len() < 2 {
        return None;
    }
    let n: usize = (f[0] as usize) * 256 + f[1] as usize;
    if n != f.len() - 2 {
        return None;
    }
    Some(vstd::slice::slice_subrange(f, 2, f.len()))
}

/// Decodes a complete frame from a server.
pub fn decode_clt<P: SoupBinTcpPayload>(f: &[u8]) -> (r: Result<
    CltSoupBinTcpMsg<P>,
    SoupBinTcpError,
>)
    ensures
        r is Ok <==> clt_decodes::<P>(f@),
        r matches Ok(m) ==> clt_parse_frame(f@) == Some(m@),
        r matches Err(e) ==> e == SoupBinTcpError::DecodeError,
{
    let p = match packet_of(f) {
        Some(p) => p,
        None => return Err(SoupBinTcpError::DecodeError),
    };
    if p.len() == 0 {
        return Err(SoupBinTcpError::DecodeError);
    }
    let tag = p[0];
    let rest = vstd::slice::slice_subrange(p, 1, p.len());
    assert(rest@ =~= p@.drop_first());
    if tag == PACKET_TYPE_UNSEQUENCED_DATA {
        match P::decode_from(rest) {
            Some(payload) => Ok(CltSoupBinTcpMsg::UPayload(UPayload { payload })),
            None => Err(SoupBinTcpError::DecodeError),
        }
    } else if tag == PACKET_TYPE_SEQUENCED_DATA {
        match P::decode_from(rest) {
            Some(payload) => Ok(CltSoupBinTcpMsg::SPayload(SPayload { payload })),
            None => Err(SoupBinTcpError::DecodeError),
        }
    } else if tag == PACKET_TYPE_CLT_HEARTBEAT && p.len() == 1 {
        Ok(CltSoupBinTcpMsg::HBeat(CltHeartbeat))
    } else if tag == PACKET_TYPE_DEBUG {
        Ok(CltSoupBinTcpMsg::Dbg(crate::model::Debug::new(rest)))
    } else if tag == PACKET_TYPE_LOGIN_REQUEST && p.len() == 52 {
        let l = LoginRequest {
            username: UserName(copy_array(vstd::slice::slice_subrange(p, 1, 7))),
            password: Password(copy_array(vstd::slice::slice_subrange(p, 7, 17))),
            session_id: SessionId(copy_array(vstd::slice::slice_subrange(p, 17, 27))),
            sequence_number: SequenceNumber(copy_array(vstd::slice::slice_subrange(p, 27, 47))),
            hbeat_timeout_ms: TimeoutMs(copy_array(vstd::slice::slice_subrange(p, 47, 52))),
        };
        Ok(CltSoupBinTcpMsg::LoginRequest(l))
    } else if tag == PACKET_TYPE_LOGOUT_REQUEST && p.len() == 1 {
        Ok(CltSoupBinTcpMsg::LogoutRequest(LogoutRequest))
    } else {
        Err(SoupBinTcpError::DecodeError)
    }
}

/// Decodes a complete frame from a client.
pub fn decode_svc<P: SoupBinTcpPayload>(f: &[u8]) -> (r: Result<
    SvcSoupBinTcpMsg<P>,
    SoupBinTcpError,
>)
    ensures
        r is Ok <==> svc_decodes::<P>(f@),
        r matches Ok(m) ==> svc_parse_frame(f@) == Some(m@),
        r matches Err(e) ==> e == SoupBinTcpError::DecodeError,
{
    let p = match packet_of(f) {
        Some(p) => p,
        None => return Err(SoupBinTcpError::DecodeError),
    };
    if p.len() == 0 {
        return Err(SoupBinTcpError::DecodeError);
    }
    let tag = p[0];
    let rest = vstd::slice::slice_subrange(p, 1, p.len());
    assert(rest@ =~= p@.drop_first());
    if tag == PACKET_TYPE_SVC_HEARTBEAT && p.len() == 1 {
        Ok(SvcSoupBinTcpMsg::HBeat(SvcHeartbeat))
    } else if tag == PACKET_TYPE_DEBUG {
        Ok(SvcSoupBinTcpMsg::Dbg(crate::model::Debug::new(rest)))
    } else if tag == PACKET_TYPE_LOGIN_ACCEPTED && p.len() == 31 {
        let a = LoginAccepted::new(
            SessionId(copy_array(vstd::slice::slice_subrange(p, 1, 11))),
            SequenceNumber(copy_array(vstd::slice::slice_subrange(p, 11, 31))),
        );
        Ok(SvcSoupBinTcpMsg::LoginAccepted(a))
    } else if tag == PACKET_TYPE_LOGIN_REJECTED && p.len() == 2 {
        Ok(SvcSoupBinTcpMsg::LoginRejected(LoginRejected::new(LoginRejectReason::new(p[1]))))
    } else if tag == PACKET_TYPE_END_OF_SESSION && p.len() == 1 {
        Ok(SvcSoupBinTcpMsg::EndOfSession(EndOfSession))
    } else if tag == PACKET_TYPE_UNSEQUENCED_DATA {
        match P::decode_from(rest) {
            Some(payload) => Ok(SvcSoupBinTcpMsg::UPayload(UPayload { payload })),
            None => Err(SoupBinTcpError::DecodeError),
        }
    } else if tag == PACKET_TYPE_SEQUENCED_DATA {
        match P::decode_from(rest) {
            Some(payload) => Ok(SvcSoupBinTcpMsg::SPayload(SPayload { payload })),
            None => Err(SoupBinTcpError::DecodeError),
        }
    } else {
        Err(SoupBinTcpError::DecodeError)
    }
}

/// Copies a frame into the front of a buffer of `N` bytes; fails where it does not fit.
fn frame_into_array<const N: usize>(f: Vec<u8>) -> (r: Result<([u8; N], usize), SoupBinTcpError>)
    ensures
        r matches Ok((buf, n)) ==> n == f@.len() && buf@.subrange(0, n as int) == f@,
        r matches Err(e) ==> f@.len() > N && e == SoupBinTcpError::EncodeError,
{
    let n = f.len();
    if n > N {
        return Err(SoupBinTcpError::EncodeError);
    }
    let mut buf: [u8; N] = vstd::array::array_fill_for_copy_types(0u8);
    let mut i: usize = 0;
    while i < n
        invariant
            n == f@.len(),
            n <= N,
            i <= n,
            buf@.len() == N,
            forall|j: int| 0 <= j < i ==> buf@[j] == f@[j],
        decreases n - i,
    {
        buf[i] = f[i];
        i = i + 1;
    }
    assert(buf@.subrange(0, n as int) =~= f@);
    Ok((buf, n))
}

/// Frames that a client sends and decodes: it sends `CltSoupBinTcpMsg<SendP>` and
/// receives `SvcSoupBinTcpMsg<RecvP>`.
pub struct CltSoupBinTcpMessenger<RecvP, SendP> {
    phantom: PhantomData<(RecvP, SendP)>,
}

impl<RecvP: SoupBinTcpPayload, SendP: SoupBinTcpPayload> CltSoupBinTcpMessenger<RecvP, SendP> {
    pub fn new() -> Self {
        CltSoupBinTcpMessenger { phantom: PhantomData }
    }

    pub fn get_frame_length(bytes: &[u8]) -> (r: Option<usize>)
        ensures
            r == frame_length(bytes@),
    {
        SoupBinTcpFramer::get_frame_length(bytes)
    }

    /// Writes the frame of `msg` into a buffer of `MAX_MSG_SIZE` bytes and says how many
    /// of them it fills.
    pub fn serialize<const MAX_MSG_SIZE: usize>(msg: &CltSoupBinTcpMsg<SendP>) -> (r: Result<
        ([u8; MAX_MSG_SIZE], usize),
        SoupBinTcpError,
    >)
        ensures
            r matches Ok((buf, n)) ==> clt_packet(msg@).len() <= 65535 && n == clt_packet(
                msg@,
            ).len() + 2 && buf@.subrange(0, n as int) == frame(clt_packet(msg@)),
            r matches Err(e) ==> e == SoupBinTcpError::EncodeError && (clt_packet(msg@).len()
                > 65535 || clt_packet(msg@).len() + 2 > MAX_MSG_SIZE),
    {
        match encode_clt(msg) {
            Ok(f) => frame_into_array(f),
            Err(e) => Err(e),
        }
    }

    pub fn deserialize(frame: &[u8]) -> (r: Result<SvcSoupBinTcpMsg<RecvP>, SoupBinTcpError>)
        ensures
            r is Ok <==> svc_decodes::<RecvP>(frame@),
            r matches Ok(m) ==> svc_parse_frame(frame@) == Some(m@),
            r matches Err(e) ==> e == SoupBinTcpError::DecodeError,
    {
        decode_svc(frame)
    }
}

/// Frames that a server sends and decodes: it sends `SvcSoupBinTcpMsg<SendP>` and
/// receives `CltSoupBinTcpMsg<RecvP>`.
pub struct SvcSoupBinTcpMessenger<RecvP, SendP> {
    phantom: PhantomData<(RecvP, SendP)>,
}

impl<RecvP: SoupBinTcpPayload, SendP: SoupBinTcpPayload> SvcSoupBinTcpMessenger<RecvP, SendP> {
    pub fn new() -> Self {
        SvcSoupBinTcpMessenger { phantom: PhantomData }
    }

    pub fn get_frame_length(bytes: &[u8]) -> (r: Option<usize>)
        ensures
            r == frame_length(bytes@),
    {
        SoupBinTcpFramer::get_frame_length(bytes)
    }

    /// Writes the frame of `msg` into a buffer of `MAX_MSG_SIZE` bytes and says how many
    /// of them it fills.
    pub fn serialize<const MAX_MSG_SIZE: usize>(msg: &SvcSoupBinTcpMsg<SendP>) -> (r: Result<
        ([u8; MAX_MSG_SIZE], usize),
        SoupBinTcpError,
    >)
        ensures
            r matches Ok((buf, n)) ==> svc_packet(msg@).len() <= 65535 && n == svc_packet(
                msg@,
            ).len() + 2 && buf@.subrange(0, n as int) == frame(svc_packet(msg@)),
            r matches Err(e) ==> e == SoupBinTcpError::EncodeError && (svc_packet(msg@).len()
                > 65535 || svc_packet(msg@).len() + 2 > MAX_MSG_SIZE),
    {
        match encode_svc(msg) {
            Ok(f) => frame_into_array(f),
            Err(e) => Err(e),
        }
    }

    pub fn deserialize(frame: &[u8]) -> (r: Result<CltSoupBinTcpMsg<RecvP>, SoupBinTcpError>)
        ensures
            r is Ok <==> clt_decodes::<RecvP>(frame@),
            r matches Ok(m) ==> clt_parse_frame(frame@) == Some(m@),
            r matches Err(e) ==> e == SoupBinTcpError::DecodeError,
    {
        decode_clt(frame)
    }
}

proof fn lemma_frame_packet(p: Seq<u8>)
    requires
        p.len() <= 65535,
    ensures
        frame_packet(frame(p)) == Some(p),
        be_u16_value(frame(p)) == p.len(),
{
    let f = frame(p);
    let n = p.len();
    assert(n / 256 < 256);
    assert((n / 256) * 256 + n % 256 == n);
    assert(f[0] as nat == n / 256);
    assert(f[1] as nat == n % 256);
    assert(f.subrange(2, f.len() as int) =~= p);
}

/// Decoding the frame of any client message gives back that message: the frame's length
/// prefix matches, the type byte dispatches to the same kind, and every field and payload
/// comes back as it was.
pub proof fn lemma_clt_round_trip<P: SoupBinTcpPayload>(m: CltSoupBinTcpMsg<P>)
    requires
        clt_packet(m@).len() <= 65535,
    ensures
        clt_decodes::<P>(frame(clt_packet(m@))),
        clt_parse_frame(frame(clt_packet(m@))) == Some(m@),
{
    let p = clt_packet(m@);
    lemma_frame_packet(p);
    match m {
        CltSoupBinTcpMsg::UPayload(u) => {
            P::lemma_wire_accepted(&u.payload);
            assert(p.drop_first() =~= u.payload.wire());
        },
        CltSoupBinTcpMsg::SPayload(s) => {
            P::lemma_wire_accepted(&s.payload);
            assert(p.drop_first() =~= s.payload.wire());
        },
        CltSoupBinTcpMsg::Dbg(d) => {
            assert(p.drop_first() =~= d.text@);
        },
        CltSoupBinTcpMsg::LoginRequest(l) => {
            assert(p.subrange(1, 7) =~= l.username@);
            assert(p.subrange(7, 17) =~= l.password@);
            assert(p.subrange(17, 27) =~= l.session_id@);
            assert(p.subrange(27, 47) =~= l.sequence_number@);
            assert(p.subrange(47, 52) =~= l.hbeat_timeout_ms@);
        },
        _ => {},
    }
}

/// Decoding the frame of any server message gives back that message.
pub proof fn lemma_svc_round_trip<P: SoupBinTcpPayload>(m: SvcSoupBinTcpMsg<P>)
    requires
        svc_packet(m@).len() <= 65535,
    ensures
        svc_decodes::<P>(frame(svc_packet(m@))),
        svc_parse_frame(frame(svc_packet(m@))) == Some(m@),
{
    let p = svc_packet(m@);
    lemma_frame_packet(p);
    match m {
        SvcSoupBinTcpMsg::UPayload(u) => {
            P::lemma_wire_accepted(&u.payload);
            assert(p.drop_first() =~= u.payload.wire());
        },
        SvcSoupBinTcpMsg::SPayload(s) => {
            P::lemma_wire_accepted(&s.payload);
            assert(p.drop_first() =~= s.payload.wire());
        },
        SvcSoupBinTcpMsg::Dbg(d) => {
            assert(p.drop_first() =~= d.text@);
        },
        SvcSoupBinTcpMsg::LoginAccepted(a) => {
            assert(p.subrange(1, 11) =~= a.spec_session_id()@);
            assert(p.subrange(11, 31) =~= a.spec_sequence_number()@);
        },
        _ => {},
    }
}

/// Every frame is two bytes longer than the number its prefix holds, its prefix is the
/// big-endian length of what follows, and the framer finds exactly its end.
pub proof fn lemma_frame_length_consistent(p: Seq<u8>, rest: Seq<u8>)
    requires
        p.len() <= 65535,
    ensures
        frame(p).len() == 2 + be_u16_value(frame(p)),
        frame(p).subrange(0, 2) == be_u16((frame(p).len() - 2) as nat),
        frame_length(frame(p) + rest) == Some(frame(p).len() as usize),
{
    lemma_frame_packet(p);
    let f = frame(p);
    assert(f.subrange(0, 2) =~= be_u16(p.len()));
    let g = f + rest;
    assert(g[0] == f[0] && g[1] == f[1]);
}

/// The type byte of a client message.
pub open spec fn clt_tag(m: CltMsgModel) -> u8 {
    clt_packet(m)[0]
}

/// The type byte of a server message.
pub open spec fn svc_tag(m: SvcMsgModel) -> u8 {
    svc_packet(m)[0]
}

/// Which kind of client message `m` is.
pub open spec fn clt_kind(m: CltMsgModel) -> int {
    match m {
        CltMsgModel::UPayload(_) => 0,
        CltMsgModel::SPayload(_) => 1,
        CltMsgModel::HBeat => 2,
        CltMsgModel::Dbg(_) => 3,
        CltMsgModel::LoginRequest { .. } => 4,
        CltMsgModel::LogoutRequest => 5,
    }
}

/// Which kind of server message `m` is.
pub open spec fn svc_kind(m: SvcMsgModel) -> int {
    match m {
        SvcMsgModel::HBeat => 0,
        SvcMsgModel::Dbg(_) => 1,
        SvcMsgModel::LoginAccepted { .. } => 2,
        SvcMsgModel::LoginRejected(_) => 3,
        SvcMsgModel::EndOfSession => 4,
        SvcMsgModel::UPayload(_) => 5,
        SvcMsgModel::SPayload(_) => 6,
    }
}

/// No two kinds of client message share a type byte, and no two kinds of server message do.
pub proof fn lemma_tags_distinct(a: CltMsgModel, b: CltMsgModel, c: SvcMsgModel, d: SvcMsgModel)
    ensures
        clt_tag(a) == clt_tag(b) <==> clt_kind(a) == clt_kind(b),
        svc_tag(c) == svc_tag(d) <==> svc_kind(c) == svc_kind(d),
{
}

} // verus!
