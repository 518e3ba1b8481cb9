//! One message of each kind, for exercising codecs and transports.
use crate::model::{
    CltHeartbeat, CltSoupBinTcpMsg, EndOfSession, LoginAccepted, LoginRejected, LoginRequest,
    LogoutRequest, SPayload, SvcHeartbeat, SvcSoupBinTcpMsg, UPayload,
};
use crate::payload::SoupBinTcpPayload;
use vstd::prelude::*;

verus! {

/// Each kind of server message once, payloads from `P::default()`.
pub fn svc_msgs_default<P: SoupBinTcpPayload + Default>() -> (r: Vec<SvcSoupBinTcpMsg<P>>)
    ensures
        r@.len() == 7,
        r@[0] is HBeat,
        r@[1] is Dbg,
        r@[2] is LoginAccepted,
        r@[3] is LoginRejected,
        r@[4] is EndOfSession,
        r@[5] is SPayload,
        r@[6] is UPayload,
{
    let mut v: Vec<SvcSoupBinTcpMsg<P>> = Vec::new();
    v.push(SvcSoupBinTcpMsg::HBeat(SvcHeartbeat::new()));
    v.push(SvcSoupBinTcpMsg::Dbg(crate::model::Debug::default()));
    v.push(SvcSoupBinTcpMsg::LoginAccepted(LoginAccepted::default()));
    v.push(SvcSoupBinTcpMsg::LoginRejected(LoginRejected::not_authorized()));
    v.push(SvcSoupBinTcpMsg::EndOfSession(EndOfSession::new()));
    v.push(SvcSoupBinTcpMsg::SPayload(SPayload::new(P::default())));
    v.push(SvcSoupBinTcpMsg::UPayload(UPayload::new(P::default())));
    v
}

/// Each kind of client message once, payloads from `P::default()`.
pub fn clt_msgs_default<P: SoupBinTcpPayload + Default>() -> (r: Vec<CltSoupBinTcpMsg<P>>)
    ensures
        r@.len() == 6,
        r@[0] is HBeat,
        r@[1] is Dbg,
        r@[2] is LoginRequest,
        r@[3] is LogoutRequest,
        r@[4] is SPayload,
        r@[5] is UPayload,
{
    let mut v: Vec<CltSoupBinTcpMsg<P>> = Vec::new();
    v.push(CltSoupBinTcpMsg::HBeat(CltHeartbeat::new()));
    v.push(CltSoupBinTcpMsg::Dbg(crate::model::Debug::default()));
    v.push(CltSoupBinTcpMsg::LoginRequest(LoginRequest::default()));
    v.push(CltSoupBinTcpMsg::LogoutRequest(LogoutRequest::new()));
    v.push(CltSoupBinTcpMsg::SPayload(SPayload::new(P::default())));
    v.push(CltSoupBinTcpMsg::UPayload(UPayload::new(P::default())));
    v
}

} // verus!
