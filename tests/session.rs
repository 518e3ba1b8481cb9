use soupbintcp::codec::{decode_clt, decode_svc, encode_clt, encode_svc};
use soupbintcp::error::SoupBinTcpError;
use soupbintcp::model::{CltSoupBinTcpMsg, LoginRequest, SvcSoupBinTcpMsg};
use soupbintcp::payload::VecPayload;
use soupbintcp::protocol::{
    handshake_send_result, CltSoupBinTcpProtocolAuth, CltSoupBinTcpProtocolAuto,
    CltSoupBinTcpProtocolIsConnected, CltSoupBinTcpProtocolManual, RecvStatus, SendStatus,
    SvcLoginDecision, SvcSoupBinTcpProtocolAuth, SvcSoupBinTcpProtocolAuto,
    SvcSoupBinTcpProtocolIsConnected, DEFAULT_MAX_RECV_INTERVAL,
};
use soupbintcp::state::{
    svc_is_connected, CltSoupBinTcpRecvConnectionState, SvcSoupBinTcpRecvConnectionState,
    SvcSoupBinTcpSendConnectionState, SvcSoupBinTcpSendSessionState,
};
use soupbintcp::types::{Password, SequenceNumber, SessionId, TimeoutMs, UserName};

type P = VecPayload;
type CltAuto = CltSoupBinTcpProtocolAuto<P, P>;
type SvcAuto = SvcSoupBinTcpProtocolAuto<P, P>;

const MS: u64 = 1_000_000;
const IO_TIMEOUT: u64 = 1000 * MS;
const HBEAT: u64 = 2500 * MS;

fn svc() -> SvcAuto {
    SvcAuto::new(
        UserName::new(b"userid"),
        Password::new(b"passwd"),
        SessionId::new(b"favsession"),
        IO_TIMEOUT,
        HBEAT,
    )
}

fn clt(password: &[u8], session: &[u8], start: u64) -> CltAuto {
    CltAuto::new(
        UserName::new(b"userid"),
        Password::new(password),
        SessionId::new(session),
        SequenceNumber::from_u64(start),
        IO_TIMEOUT,
        HBEAT,
        HBEAT,
    )
}

/// The client's login as the server receives it: encoded, then decoded.
fn login_on_wire(c: &CltAuto) -> CltSoupBinTcpMsg<P> {
    decode_clt(&encode_clt(&c.login_request()).unwrap()).unwrap()
}

fn over_wire(m: &SvcSoupBinTcpMsg<P>) -> SvcSoupBinTcpMsg<P> {
    decode_svc(&encode_svc(m).unwrap()).unwrap()
}

struct Connected {
    clt_recv: CltSoupBinTcpRecvConnectionState,
    svc_recv: SvcSoupBinTcpRecvConnectionState,
    svc_send: SvcSoupBinTcpSendConnectionState,
    replayed: Vec<SvcSoupBinTcpMsg<P>>,
}

/// Runs the handshake between `c` and `s` at time `now`, with the session log of `s`.
fn handshake(
    c: &CltAuto,
    s: &SvcAuto,
    session: &mut SvcSoupBinTcpSendSessionState<P>,
    now: u64,
) -> Result<Connected, (SoupBinTcpError, SoupBinTcpError, CltSoupBinTcpRecvConnectionState)> {
    let mut clt_recv = c.new_recv_state();
    let mut svc_recv = s.new_recv_state();
    let mut svc_send = s.new_send_state();
    c.on_login_sent(SendStatus::Completed).unwrap();
    let login = login_on_wire(c);
    svc_recv.on_recv(&login, now);
    match s.on_login_request(&RecvStatus::Completed(Some(login)), session) {
        SvcLoginDecision::Accept { accepted, replay } => {
            svc_send.on_sent(&accepted, now);
            session.on_sent(&accepted);
            let accepted = over_wire(&accepted);
            clt_recv.on_recv(&accepted, now);
            c.on_login_reply(&RecvStatus::Completed(Some(accepted))).unwrap();
            let replayed: Vec<_> = replay.iter().map(over_wire).collect();
            for m in replayed.iter() {
                clt_recv.on_recv(m, now);
            }
            Ok(Connected { clt_recv, svc_recv, svc_send, replayed })
        }
        SvcLoginDecision::Reject { rejection } => {
            svc_send.on_sent(&rejection, now);
            session.on_sent(&rejection);
            let rejection = over_wire(&rejection);
            clt_recv.on_recv(&rejection, now);
            let clt_err = c.on_login_reply(&RecvStatus::Completed(Some(rejection))).unwrap_err();
            assert!(!svc_is_connected(&svc_recv, &svc_send, now));
            Err((SoupBinTcpError::NotConnected, clt_err, clt_recv))
        }
        SvcLoginDecision::Fail(e) => Err((e, SoupBinTcpError::Other, clt_recv)),
    }
}

fn payload(text: &str) -> P {
    VecPayload::new(text.as_bytes().to_vec())
}

#[test]
fn clean_auto_session() {
    let s = svc();
    let c = clt(b"passwd", b"favsession", 0);
    let mut session = SvcSoupBinTcpSendSessionState::new();
    let t0 = 1_000 * MS;
    let mut con = handshake(&c, &s, &mut session, t0).ok().unwrap();
    assert!(con.clt_recv.is_connected(t0));
    assert!(svc_is_connected(&con.svc_recv, &con.svc_send, t0));
    assert!(con.replayed.is_empty());

    // heartbeats every 2.5 s / 2.5 = 1 s keep both ends up
    assert_eq!(c.conf_heart_beat_interval(), Some(1000 * MS));
    assert_eq!(s.conf_heart_beat_interval(), Some(1000 * MS));
    let mut t = t0;
    for _ in 0..5 {
        t += 1000 * MS;
        let r = decode_clt::<P>(&encode_clt(&c.heart_beat()).unwrap()).unwrap();
        assert!(matches!(r, CltSoupBinTcpMsg::HBeat(_)));
        con.svc_recv.on_recv(&r, t);
        let h = over_wire(&s.heart_beat());
        assert!(matches!(h, SvcSoupBinTcpMsg::HBeat(_)));
        con.clt_recv.on_recv(&h, t);
        assert!(con.clt_recv.is_connected(t));
        assert!(svc_is_connected(&con.svc_recv, &con.svc_send, t));
    }
}

#[test]
fn accepted_login_numbers_from_the_server_count() {
    let s = svc();
    let mut session = SvcSoupBinTcpSendSessionState::new();
    for i in 1..=3 {
        session.on_sent(&SvcSoupBinTcpMsg::sdata(payload(&format!("#{} SPayload", i))));
    }
    let c = clt(b"passwd", b"favsession", 0);
    let login = login_on_wire(&c);
    match s.on_login_request(&RecvStatus::Completed(Some(login)), &session) {
        SvcLoginDecision::Accept { accepted, replay } => {
            match accepted {
                SvcSoupBinTcpMsg::LoginAccepted(a) => {
                    assert_eq!(a.sequence_number().value(), Some(4));
                    assert_eq!(&a.session_id().0, b"favsession");
                }
                _ => panic!("not an acceptance"),
            }
            assert!(replay.is_empty());
        }
        _ => panic!("login refused"),
    }
}

#[test]
fn reconnect_replays_sequenced_payloads() {
    let s = svc();
    let mut session = SvcSoupBinTcpSendSessionState::new();
    let c = clt(b"passwd", b"favsession", 0);
    handshake(&c, &s, &mut session, 0).ok().unwrap();
    for i in 1..=10 {
        session.on_sent(&SvcSoupBinTcpMsg::udata(payload(&format!("u{}", i))));
    }
    for i in 1..=10 {
        session.on_sent(&SvcSoupBinTcpMsg::sdata(payload(&format!("#{} SPayload", i))));
    }
    assert_eq!(session.current_sequence_payload_number(), 10);
    assert_eq!(session.next_sequenced_payload_number(), 11);
    let logged = session.get_storage().len();

    let c2 = clt(b"passwd", b"favsession", 6);
    let con = handshake(&c2, &s, &mut session, 0).ok().unwrap();
    let texts: Vec<Vec<u8>> = con
        .replayed
        .iter()
        .map(|m| match m {
            SvcSoupBinTcpMsg::SPayload(sp) => sp.payload.payload.clone(),
            _ => panic!("replayed a frame that is not sequenced"),
        })
        .collect();
    let expected: Vec<Vec<u8>> = (6..=10).map(|i| format!("#{} SPayload", i).into_bytes()).collect();
    assert_eq!(texts, expected);
    // the replay went around the log: only the acceptance was logged, and the count stands
    assert_eq!(session.get_storage().len(), logged + 1);
    assert_eq!(session.current_sequence_payload_number(), 10);
    assert!(con.clt_recv.is_connected(0));
}

#[test]
fn start_zero_replays_nothing() {
    let s = svc();
    let mut session = SvcSoupBinTcpSendSessionState::new();
    for i in 1..=4 {
        session.on_sent(&SvcSoupBinTcpMsg::sdata(payload(&format!("#{} SPayload", i))));
    }
    let c = clt(b"passwd", b"favsession", 0);
    assert!(handshake(&c, &s, &mut session, 0).ok().unwrap().replayed.is_empty());
    let c = clt(b"passwd", b"favsession", 5);
    assert!(handshake(&c, &s, &mut session, 0).ok().unwrap().replayed.is_empty());
    let c = clt(b"passwd", b"favsession", 1);
    assert_eq!(handshake(&c, &s, &mut session, 0).ok().unwrap().replayed.len(), 4);
}

#[test]
fn bad_password_is_not_authorized() {
    let s = svc();
    let mut session = SvcSoupBinTcpSendSessionState::new();
    let c = clt(b"wrong ", b"favsession", 0);
    let (svc_err, clt_err, clt_recv) = handshake(&c, &s, &mut session, 0).err().unwrap();
    assert_eq!(svc_err, SoupBinTcpError::NotConnected);
    assert_eq!(clt_err, SoupBinTcpError::ConnectionReset);
    assert!(!clt_recv.is_connected(0));
    let login = login_on_wire(&c);
    match s.on_login_request(&RecvStatus::Completed(Some(login)), &session) {
        SvcLoginDecision::Reject { rejection: SvcSoupBinTcpMsg::LoginRejected(j) } => {
            assert!(j.is_not_authorized());
            assert_eq!(j.reason().0, b'A');
        }
        _ => panic!("expected a refusal"),
    }
    assert_eq!(session.current_sequence_payload_number(), 0);
}

#[test]
fn unknown_session_is_not_available() {
    let s = svc();
    let mut session = SvcSoupBinTcpSendSessionState::new();
    let c = clt(b"passwd", b"other", 0);
    let (svc_err, _, clt_recv) = handshake(&c, &s, &mut session, 0).err().unwrap();
    assert_eq!(svc_err, SoupBinTcpError::NotConnected);
    assert!(!clt_recv.is_connected(0));
    let login = login_on_wire(&c);
    match s.on_login_request(&RecvStatus::Completed(Some(login)), &session) {
        SvcLoginDecision::Reject { rejection: SvcSoupBinTcpMsg::LoginRejected(j) } => {
            assert!(j.is_session_not_available());
            assert_eq!(j.reason().0, b'S');
        }
        _ => panic!("expected a refusal"),
    }
    // all spaces asks for the current session and is let in
    let c = clt(b"passwd", b"", 0);
    assert!(handshake(&c, &s, &mut session, 0).is_ok());
}

#[test]
fn end_of_session_disconnects_client() {
    let s = svc();
    let mut session = SvcSoupBinTcpSendSessionState::new();
    let c = clt(b"passwd", b"favsession", 0);
    let mut con = handshake(&c, &s, &mut session, 0).ok().unwrap();
    let (timeout, end) = s.on_disconnect().unwrap();
    assert_eq!(timeout, IO_TIMEOUT);
    con.svc_send.on_sent(&end, 10 * MS);
    assert!(!svc_is_connected(&con.svc_recv, &con.svc_send, 10 * MS));
    let end = over_wire(&end);
    assert!(matches!(end, SvcSoupBinTcpMsg::EndOfSession(_)));
    assert!(con.clt_recv.is_connected(10 * MS));
    con.clt_recv.on_recv(&end, 20 * MS);
    assert!(!con.clt_recv.is_connected(20 * MS));
}

#[test]
fn heartbeat_silence_disconnects_both_ends() {
    let c = CltSoupBinTcpProtocolIsConnected::<P, P>::default();
    let s = SvcSoupBinTcpProtocolIsConnected::<P, P>::default();
    assert_eq!(c.max_recv_interval, DEFAULT_MAX_RECV_INTERVAL);
    let mut clt_recv = c.new_recv_state();
    let mut svc_recv = s.new_recv_state();
    let mut svc_send = s.new_send_state();
    let t0 = 5_000 * MS;
    let mut request = LoginRequest::default();
    request.hbeat_timeout_ms = TimeoutMs::from_millis(2500);
    let login = decode_clt::<P>(&encode_clt(&CltSoupBinTcpMsg::<P>::LoginRequest(request)).unwrap()).unwrap();
    svc_recv.on_recv(&login, t0);
    let accepted = SvcSoupBinTcpMsg::<P>::login_acc(SessionId::new(b"session #1"), SequenceNumber::from_u64(1));
    svc_send.on_sent(&accepted, t0);
    clt_recv.on_recv(&over_wire(&accepted), t0);
    assert!(clt_recv.is_connected(t0));
    assert!(svc_is_connected(&svc_recv, &svc_send, t0));
    // no frame for 2.5 s or longer: both ends count the connection as lost
    assert!(svc_is_connected(&svc_recv, &svc_send, t0 + 2_499 * MS));
    assert!(clt_recv.is_connected(t0 + 2_499 * MS));
    assert!(!clt_recv.is_connected(t0 + 2_500 * MS));
    assert!(!svc_is_connected(&svc_recv, &svc_send, t0 + 2_500 * MS));
    assert!(!clt_recv.is_connected(t0 + 60_000 * MS));
    assert!(!svc_is_connected(&svc_recv, &svc_send, t0 + 60_000 * MS));
}

#[test]
fn client_handshake_outcomes() {
    let c = clt(b"passwd", b"favsession", 0);
    assert_eq!(c.on_login_sent(SendStatus::WouldBlock), Err(SoupBinTcpError::Timeout));
    assert_eq!(c.on_login_reply(&RecvStatus::WouldBlock), Err(SoupBinTcpError::Timeout));
    assert_eq!(c.on_login_reply(&RecvStatus::Completed(None)), Err(SoupBinTcpError::ConnectionReset));
    assert_eq!(
        c.on_login_reply(&RecvStatus::Completed(Some(SvcSoupBinTcpMsg::hbeat()))),
        Err(SoupBinTcpError::Other)
    );
    assert_eq!(handshake_send_result(SendStatus::Completed), Ok(()));
    let login = c.login_request();
    match login {
        CltSoupBinTcpMsg::LoginRequest(l) => {
            assert_eq!(&l.hbeat_timeout_ms.0, b" 2500");
            assert_eq!(l.sequence_number.value(), Some(0));
        }
        _ => panic!("not a login"),
    }
}

#[test]
fn server_handshake_failures() {
    let s = svc();
    let session = SvcSoupBinTcpSendSessionState::<P>::new();
    assert!(matches!(s.on_login_request(&RecvStatus::WouldBlock, &session), SvcLoginDecision::Fail(SoupBinTcpError::Timeout)));
    assert!(matches!(
        s.on_login_request(&RecvStatus::Completed(None), &session),
        SvcLoginDecision::Fail(SoupBinTcpError::ConnectionReset)
    ));
    assert!(matches!(
        s.on_login_request(&RecvStatus::Completed(Some(CltSoupBinTcpMsg::hbeat())), &session),
        SvcLoginDecision::Fail(SoupBinTcpError::Other)
    ));
    let mut login = match clt(b"passwd", b"favsession", 0).login_request() {
        CltSoupBinTcpMsg::LoginRequest(l) => l,
        _ => panic!("not a login"),
    };
    login.sequence_number = SequenceNumber(*b"        not a number");
    assert!(matches!(
        s.on_login_request(&RecvStatus::Completed(Some(CltSoupBinTcpMsg::LoginRequest(login))), &session),
        SvcLoginDecision::Fail(SoupBinTcpError::DecodeError)
    ));
}

#[test]
fn auth_and_manual_policies() {
    let s = SvcSoupBinTcpProtocolAuth::<P, P>::new(
        UserName::new(b"userid"),
        Password::new(b"passwd"),
        SessionId::new(b"favsession"),
        IO_TIMEOUT,
    );
    let c = clt(b"passwd", b"favsession", 0);
    let login = match c.login_request() {
        CltSoupBinTcpMsg::LoginRequest(l) => l,
        _ => panic!("not a login"),
    };
    let ca = CltSoupBinTcpProtocolAuth::<P, P>::new(login, IO_TIMEOUT);
    match s.on_login_request(&RecvStatus::Completed(Some(ca.login_request()))) {
        SvcLoginDecision::Accept { accepted, replay } => {
            assert!(replay.is_empty());
            let got = ca.on_login_reply(&RecvStatus::Completed(Some(accepted))).unwrap();
            assert_eq!(got.sequence_number().value(), Some(1));
        }
        _ => panic!("login refused"),
    }
    let bad = CltSoupBinTcpProtocolAuth::<P, P>::new(
        match clt(b"nope", b"favsession", 0).login_request() {
            CltSoupBinTcpMsg::LoginRequest(l) => l,
            _ => panic!("not a login"),
        },
        IO_TIMEOUT,
    );
    assert!(matches!(
        s.on_login_request(&RecvStatus::Completed(Some(bad.login_request()))),
        SvcLoginDecision::Reject { .. }
    ));
    assert!(CltSoupBinTcpProtocolManual::<P, P>::default().is_connected());
}
