use soupbintcp::codec::{
    decode_clt, decode_svc, encode_clt, encode_svc, CltSoupBinTcpMessenger, SoupBinTcpFramer,
    SvcSoupBinTcpMessenger,
};
use soupbintcp::error::SoupBinTcpError;
use soupbintcp::model::{
    CltHeartbeat, CltSoupBinTcpMsg, EndOfSession, LoginAccepted, LoginRejected, LoginRequest,
    LogoutRequest, SPayload, SPayloadHeader, SvcHeartbeat, SvcSoupBinTcpMsg, UPayload,
    UPayloadHeader, LOGIN_REJECTED_PACKET_LENGTH,
    SOUPBINTCP_MAX_FRAME_SIZE_EXCLUDING_PAYLOAD_DEBUG,
};
use soupbintcp::payload::{Nil, SamplePayload, VecPayload};
use soupbintcp::samples::{clt_msgs_default, svc_msgs_default};
use soupbintcp::types::{LoginRejectReason, Password, SequenceNumber, SessionId, TimeoutMs, UserName};

type Clt = CltSoupBinTcpMsg<SamplePayload>;
type Svc = SvcSoupBinTcpMsg<SamplePayload>;

fn clt_round_trip(msg: &Clt, expected_len: usize) {
    let ser = encode_clt(msg).unwrap();
    assert_eq!(expected_len, ser.len());
    let msg_out: Clt = decode_clt(&ser).unwrap();
    assert_eq!(&msg_out, msg);
}

fn svc_round_trip(msg: &Svc, expected_len: usize) -> Vec<u8> {
    let ser = encode_svc(msg).unwrap();
    assert_eq!(expected_len, ser.len());
    let msg_out: Svc = decode_svc(&ser).unwrap();
    assert_eq!(&msg_out, msg);
    ser
}

#[test]
fn test_clt_heartbeat_byteserde() {
    let msg_inp = Clt::HBeat(CltHeartbeat::default());
    clt_round_trip(&msg_inp, 3);
    assert_eq!(encode_clt(&msg_inp).unwrap(), vec![0, 1, b'R']);
}

#[test]
fn test_login_request_byteserde() {
    let msg_inp = LoginRequest::new(
        UserName::new(b"abcdef"),
        Password::new(b"1234567890"),
        SessionId::new(b"session #1"),
        SequenceNumber::from_u64(1),
        TimeoutMs::from_millis(5000),
    );
    let msg = Clt::LoginRequest(msg_inp);
    clt_round_trip(&msg, 54);
    let ser = encode_clt(&msg).unwrap();
    assert_eq!(&ser[0..3], &[0, 52, b'L']);
    assert_eq!(&ser[3..9], b"abcdef");
    assert_eq!(&ser[29..49], b"                   1");
    assert_eq!(&ser[49..54], b" 5000");
    assert_eq!(LoginRequest::default().sequence_number, SequenceNumber::from_u64(1));
}

#[test]
fn test_logout_request_byteserde() {
    let msg_inp = Clt::LogoutRequest(LogoutRequest::default());
    clt_round_trip(&msg_inp, 3);
}

#[test]
fn test_debug_byteserde() {
    let msg_inp = soupbintcp::model::Debug::default();
    let expected_packet_len = msg_inp.text.len() + 1;
    let expected_byte_len = expected_packet_len + 2;
    let msg = Clt::Dbg(msg_inp.clone());
    clt_round_trip(&msg, expected_byte_len);
    let svc = Svc::Dbg(msg_inp);
    svc_round_trip(&svc, expected_byte_len);
}

#[test]
fn test_sequenced_data_header() {
    let msg_inp = SPayloadHeader::new(10);
    let ser = msg_inp.encode();
    assert_eq!(3, ser.len());
    assert_eq!(ser, vec![0, 10, b'S']);
    let msg_out = SPayloadHeader::decode(&ser).unwrap();
    assert_eq!(msg_out, msg_inp);
}

#[test]
fn test_sequenced_data_byteserde() {
    let expected_len = 3 + 20;
    let msg_inp = SPayload::new(SamplePayload::default());
    assert_eq!(msg_inp.header().packet_length, 21);
    svc_round_trip(&Svc::SPayload(msg_inp), expected_len);
}

#[test]
fn test_unsequenced_data_header() {
    let msg_inp = UPayloadHeader::new(10);
    let ser = msg_inp.encode();
    assert_eq!(3, ser.len());
    let msg_out = UPayloadHeader::decode(&ser).unwrap();
    assert_eq!(msg_out, msg_inp);
}

#[test]
fn test_unsequenced_data_byteserde() {
    let expected_len = 3 + 20;
    let msg_inp = UPayload::new(SamplePayload::default());
    clt_round_trip(&Clt::UPayload(msg_inp), expected_len);
}

#[test]
fn test_end_of_session_byteserde() {
    let ser = svc_round_trip(&Svc::EndOfSession(EndOfSession::default()), 3);
    assert_eq!(ser, vec![0, 1, b'Z']);
}

#[test]
fn test_svc_heartbeat() {
    let ser = svc_round_trip(&Svc::HBeat(SvcHeartbeat::default()), 3);
    assert_eq!(ser, vec![0, 1, b'H']);
}

#[test]
fn test_login_accepted_byteserde() {
    let msg_inp = LoginAccepted::default();
    let ser = svc_round_trip(&Svc::LoginAccepted(msg_inp), 33);
    assert_eq!(&ser[0..3], &[0, 31, b'A']);
    assert_eq!(&ser[3..13], b"session #1");
}

#[test]
fn test_login_rejected_byteserde() {
    let msg_inp = LoginRejected::not_authorized();
    let ser = svc_round_trip(&Svc::LoginRejected(msg_inp), 4);
    assert_eq!(ser[3], b'A');

    let msg_inp = LoginRejected::session_not_available();
    let ser = svc_round_trip(&Svc::LoginRejected(msg_inp), 4);
    assert_eq!(ser.len() - 2, LOGIN_REJECTED_PACKET_LENGTH as usize);
    assert_eq!(ser[3], b'S');
    assert!(msg_inp.is_session_not_available());
    assert!(!msg_inp.is_not_authorized());
}

#[test]
fn test_soupbintcp_clt_byteserde() {
    let msg_inp = clt_msgs_default::<SamplePayload>();
    let mut ser: Vec<u8> = vec![];
    for msg in msg_inp.iter() {
        ser.extend_from_slice(&encode_clt(msg).unwrap());
    }
    let mut msg_out = vec![];
    let mut rest: &[u8] = &ser;
    while !rest.is_empty() {
        let n = SoupBinTcpFramer::get_frame_length(rest).unwrap();
        msg_out.push(decode_clt::<SamplePayload>(&rest[..n]).unwrap());
        rest = &rest[n..];
    }
    assert_eq!(msg_inp, msg_out);
}

#[test]
fn test_soupbintcp_svc_byteserde() {
    let msg_inp = svc_msgs_default::<SamplePayload>();
    let mut ser: Vec<u8> = vec![];
    for msg in msg_inp.iter() {
        ser.extend_from_slice(&encode_svc(msg).unwrap());
    }
    let mut msg_out = vec![];
    let mut rest: &[u8] = &ser;
    while !rest.is_empty() {
        let n = SoupBinTcpFramer::get_frame_length(rest).unwrap();
        msg_out.push(decode_svc::<SamplePayload>(&rest[..n]).unwrap());
        rest = &rest[n..];
    }
    assert_eq!(msg_inp, msg_out);
}

#[test]
fn test_soupbintcp_max_frame_size() {
    let clt_max = clt_msgs_default::<Nil>()
        .iter()
        .filter(|m| !matches!(m, CltSoupBinTcpMsg::Dbg(_)))
        .map(|m| encode_clt(m).unwrap().len())
        .max()
        .unwrap();
    let svc_max = svc_msgs_default::<Nil>()
        .iter()
        .filter(|m| !matches!(m, SvcSoupBinTcpMsg::Dbg(_)))
        .map(|m| encode_svc(m).unwrap().len())
        .max()
        .unwrap();
    let max_frame_size_no_payload = std::cmp::max(clt_max, svc_max);
    assert_eq!(max_frame_size_no_payload, SOUPBINTCP_MAX_FRAME_SIZE_EXCLUDING_PAYLOAD_DEBUG);
}

fn split_frames(bytes: &[u8]) -> Vec<Vec<u8>> {
    let mut frames = vec![];
    let mut rest = bytes;
    while let Some(n) = SoupBinTcpFramer::get_frame_length(rest) {
        frames.push(rest[..n].to_vec());
        rest = &rest[n..];
    }
    assert!(rest.is_empty());
    frames
}

#[test]
fn test_soup_bin_clt_framing() {
    let msg_inp = clt_msgs_default::<SamplePayload>();
    let mut bytes: Vec<u8> = vec![];
    for msg in msg_inp.iter() {
        bytes.extend_from_slice(&encode_clt(msg).unwrap());
    }
    let msg_out: Vec<Clt> = split_frames(&bytes).iter().map(|f| decode_clt(f).unwrap()).collect();
    assert_eq!(msg_inp, msg_out);
}

#[test]
fn test_soup_bin_svc_framing() {
    let msg_inp = svc_msgs_default::<SamplePayload>();
    let mut bytes: Vec<u8> = vec![];
    for msg in msg_inp.iter() {
        bytes.extend_from_slice(&encode_svc(msg).unwrap());
    }
    let msg_out: Vec<Svc> = split_frames(&bytes).iter().map(|f| decode_svc(f).unwrap()).collect();
    assert_eq!(msg_inp, msg_out);
}

type CltMessenger = CltSoupBinTcpMessenger<SamplePayload, SamplePayload>;
type SvcMessenger = SvcSoupBinTcpMessenger<SamplePayload, SamplePayload>;

#[test]
fn test_soup_bin_clt_send_messenger() {
    const CAP: usize = 1024;
    let msg_inp = clt_msgs_default::<SamplePayload>();
    let mut bytes: Vec<u8> = vec![];
    for msg in msg_inp.iter() {
        let (buf, size) = CltMessenger::serialize::<CAP>(msg).unwrap();
        bytes.extend_from_slice(&buf[..size]);
    }
    let mut msg_out: Vec<Clt> = vec![];
    let mut rest: &[u8] = &bytes;
    while let Some(n) = SvcMessenger::get_frame_length(rest) {
        msg_out.push(SvcMessenger::deserialize(&rest[..n]).unwrap());
        rest = &rest[n..];
    }
    assert_eq!(msg_inp, msg_out);
}

#[test]
fn test_soup_bin_svc_send_messenger() {
    const CAP: usize = 1024;
    let msg_inp = svc_msgs_default::<SamplePayload>();
    let mut bytes: Vec<u8> = vec![];
    for msg in msg_inp.iter() {
        let (buf, size) = SvcMessenger::serialize::<CAP>(msg).unwrap();
        bytes.extend_from_slice(&buf[..size]);
    }
    let mut msg_out: Vec<Svc> = vec![];
    let mut rest: &[u8] = &bytes;
    while let Some(n) = CltMessenger::get_frame_length(rest) {
        msg_out.push(CltMessenger::deserialize(&rest[..n]).unwrap());
        rest = &rest[n..];
    }
    assert_eq!(msg_inp, msg_out);
}

#[test]
fn framer_waits_for_whole_frame() {
    assert_eq!(SoupBinTcpFramer::get_frame_length(&[]), None);
    assert_eq!(SoupBinTcpFramer::get_frame_length(&[0]), None);
    assert_eq!(SoupBinTcpFramer::get_frame_length(&[0, 3, b'U', 1]), None);
    assert_eq!(SoupBinTcpFramer::get_frame_length(&[0, 3, b'U', 1, 2]), Some(5));
    assert_eq!(SoupBinTcpFramer::get_frame_length(&[0, 3, b'U', 1, 2, 9, 9]), Some(5));
    assert_eq!(SoupBinTcpFramer::get_frame_length(&[1, 0]), None);
    assert_eq!(SoupBinTcpFramer::get_frame_length(&[0, 0, 7]), Some(2));
}

#[test]
fn frame_length_prefix_is_big_endian() {
    let payload = VecPayload::new(vec![7u8; 300]);
    let msg = CltSoupBinTcpMsg::udata(payload);
    let f = encode_clt(&msg).unwrap();
    assert_eq!(f.len(), 2 + 301);
    assert_eq!(f[0], 1);
    assert_eq!(f[1], 45);
    assert_eq!(((f[0] as usize) << 8) + f[1] as usize, f.len() - 2);
    assert_eq!(SoupBinTcpFramer::get_frame_length(&f), Some(f.len()));
}

#[test]
fn decode_rejects_malformed_frames() {
    // a length of zero leaves no type byte
    assert_eq!(decode_clt::<Nil>(&[0, 0]), Err(SoupBinTcpError::DecodeError));
    // unknown type byte
    assert_eq!(decode_clt::<Nil>(&[0, 1, b'Q']), Err(SoupBinTcpError::DecodeError));
    assert_eq!(decode_svc::<Nil>(&[0, 1, b'R']), Err(SoupBinTcpError::DecodeError));
    // prefix that does not match the frame
    assert_eq!(decode_svc::<Nil>(&[0, 2, b'H']), Err(SoupBinTcpError::DecodeError));
    // heartbeat with a body
    assert_eq!(decode_svc::<Nil>(&[0, 2, b'H', 1]), Err(SoupBinTcpError::DecodeError));
    // a login request cut short
    assert_eq!(decode_clt::<Nil>(&[0, 2, b'L', b'a']), Err(SoupBinTcpError::DecodeError));
    // a payload the payload type does not accept
    assert_eq!(decode_svc::<Nil>(&[0, 2, b'S', 1]), Err(SoupBinTcpError::DecodeError));
    assert_eq!(decode_svc::<SamplePayload>(&[0, 2, b'S', 1]), Err(SoupBinTcpError::DecodeError));
    assert_eq!(
        decode_svc::<VecPayload>(&[0, 2, b'S', 1]),
        Ok(SvcSoupBinTcpMsg::sdata(VecPayload::new(vec![1])))
    );
}

#[test]
fn encode_rejects_oversized_messages() {
    let big = VecPayload::new(vec![0u8; 65535]);
    let msg = SvcSoupBinTcpMsg::sdata(big);
    assert_eq!(encode_svc(&msg), Err(SoupBinTcpError::EncodeError));
    let fits = VecPayload::new(vec![0u8; 65534]);
    assert_eq!(encode_svc(&SvcSoupBinTcpMsg::sdata(fits)).unwrap().len(), 65537);
    let small = SvcSoupBinTcpMsg::<VecPayload>::hbeat();
    assert!(SvcSoupBinTcpMessenger::<VecPayload, VecPayload>::serialize::<2>(&small).is_err());
    let (buf, n) = SvcSoupBinTcpMessenger::<VecPayload, VecPayload>::serialize::<3>(&small).unwrap();
    assert_eq!(n, 3);
    assert_eq!(buf, [0, 1, b'H']);
}

#[test]
fn tags_of_every_kind_differ() {
    let mut tags: Vec<u8> = clt_msgs_default::<Nil>().iter().map(|m| encode_clt(m).unwrap()[2]).collect();
    tags.sort();
    tags.dedup();
    assert_eq!(tags.len(), 6);
    let mut tags: Vec<u8> = svc_msgs_default::<Nil>().iter().map(|m| encode_svc(m).unwrap()[2]).collect();
    tags.sort();
    tags.dedup();
    assert_eq!(tags.len(), 7);
}

#[test]
fn fields_pad_cut_and_parse() {
    assert_eq!(&SessionId::new(b"abc").0, b"abc       ");
    assert_eq!(&SessionId::new(b"0123456789XYZ").0, b"0123456789");
    assert_eq!(&UserName::new(b"userid").0, b"userid");
    assert!(SessionId::default().is_current());
    assert!(!SessionId::new(b"favsession").is_current());
    assert_eq!(&SequenceNumber::from_u64(0).0, b"                   0");
    assert_eq!(&SequenceNumber::from_u64(u64::MAX).0, b"18446744073709551615");
    assert_eq!(SequenceNumber::from_u64(u64::MAX).value(), Some(u64::MAX));
    assert_eq!(SequenceNumber::from_u64(6).value(), Some(6));
    assert_eq!(SequenceNumber(*b"6                   ").value(), Some(6));
    assert_eq!(SequenceNumber(*b"00000000000000000042").value(), Some(42));
    assert_eq!(SequenceNumber(*b"                    ").value(), None);
    assert_eq!(SequenceNumber(*b"          1 2       ").value(), None);
    assert_eq!(SequenceNumber(*b"99999999999999999999").value(), None);
    assert_eq!(&TimeoutMs::from_millis(2500).0, b" 2500");
    assert_eq!(TimeoutMs(*b"x2500").value(), None);
}

#[test]
fn login_reject_reason_codes() {
    let msg_inp = LoginRejectReason::not_authorized();
    assert_eq!(msg_inp.0, b'A');
    assert!(msg_inp.is_not_authorized());
    assert_eq!(msg_inp, LoginRejectReason::new(b'A'));
    let msg_inp = LoginRejectReason::session_not_available();
    assert_eq!(msg_inp.0, b'S');
    assert!(msg_inp.is_session_not_available());
    assert_eq!(msg_inp, LoginRejectReason::new(b'S'));
}
