//! What each side tracks of its connection and its session. Times are readings of a
//! monotonic clock in nanoseconds, handed in by the caller.
use crate::model::{CltSoupBinTcpMsg, SvcMsgModel, SvcSoupBinTcpMsg};
use crate::payload::SoupBinTcpPayload;
use crate::types::ascii_u64;
use vstd::prelude::*;

verus! {

pub const NANOS_PER_MILLI: u64 = 1000000;

/// Time gone from `since` to `now`; none where the clock reads earlier than `since`.
pub open spec fn elapsed(since: u64, now: u64) -> u64 {
    if now >= since {
        (now - since) as u64
    } else {
        0
    }
}

fn elapsed_exec(since: u64, now: u64) -> (r: u64)
    ensures
        r == elapsed(since, now),
{
    if now >= since {
        now - since
    } else {
        0
    }
}

/// What a client has received: when the login was accepted or refused, when the session
/// ended, and when anything last arrived.
#[derive(Clone, Copy, Debug)]
pub struct CltSoupBinTcpRecvConnectionState {
    pub max_recv_interval: u64,
    pub login_accepted: Option<u64>,
    pub login_rejected: Option<u64>,
    pub end_of_session: Option<u64>,
    pub any_msg_recved: Option<u64>,
}

impl CltSoupBinTcpRecvConnectionState {
    /// The state after receiving `m` at `now`.
    pub open spec fn after_recv(self, m: SvcMsgModel, now: u64) -> Self {
        CltSoupBinTcpRecvConnectionState {
            login_accepted: if m is LoginAccepted {
                Some(now)
            } else {
                self.login_accepted
            },
            login_rejected: if m is LoginRejected {
                Some(now)
            } else {
                self.login_rejected
            },
            end_of_session: if m is EndOfSession {
                Some(now)
            } else {
                self.end_of_session
            },
            any_msg_recved: Some(now),
            ..self
        }
    }

    /// Accepted, neither refused nor ended, and something arrived within the interval.
    pub open spec fn spec_is_connected(self, now: u64) -> bool {
        &&& self.login_accepted is Some
        &&& self.login_rejected is None
        &&& self.end_of_session is None
        &&& self.any_msg_recved matches Some(t) && elapsed(t, now) < self.max_recv_interval
    }

    pub fn new(max_recv_interval: u64) -> (r: Self)
        ensures
            r.max_recv_interval == max_recv_interval,
            r.login_accepted is None,
            r.login_rejected is None,
            r.end_of_session is None,
            r.any_msg_recved is None,
    {
        CltSoupBinTcpRecvConnectionState {
            max_recv_interval,
            login_accepted: None,
            login_rejected: None,
            end_of_session: None,
            any_msg_recved: None,
        }
    }

    pub fn on_recv<RecvP: SoupBinTcpPayload>(&mut self, msg: &SvcSoupBinTcpMsg<RecvP>, now: u64)
        ensures
            *final(self) == old(self).after_recv(msg@, now),
    {
        match msg {
            SvcSoupBinTcpMsg::LoginAccepted(_) => self.login_accepted = Some(now),
            SvcSoupBinTcpMsg::LoginRejected(_) => self.login_rejected = Some(now),
            SvcSoupBinTcpMsg::EndOfSession(_) => self.end_of_session = Some(now),
            _ => {},
        }
        self.any_msg_recved = Some(now);
    }

    pub fn is_connected(&self, now: u64) -> (r: bool)
        ensures
            r == self.spec_is_connected(now),
    {
        match (self.login_accepted, self.any_msg_recved, self.login_rejected, self.end_of_session) {
            (Some(_), Some(last), None, None) => elapsed_exec(last, now) < self.max_recv_interval,
            _ => false,
        }
    }
}

/// The heartbeat interval of a login request in nanoseconds, where its field holds one.
pub open spec fn hbeat_interval_nanos(field: Seq<u8>) -> Option<u64> {
    match ascii_u64(field) {
        Some(ms) => if ms <= u64::MAX / NANOS_PER_MILLI {
            Some((ms * NANOS_PER_MILLI) as u64)
        } else {
            None
        },
        None => None,
    }
}

/// What a server has received: the interval the client's login asked for, and when
/// anything last arrived.
#[derive(Clone, Copy, Debug)]
pub struct SvcSoupBinTcpRecvConnectionState {
    pub max_recv_interval: Option<u64>,
    pub any_msg_recved: Option<u64>,
}

impl SvcSoupBinTcpRecvConnectionState {
    /// The state after receiving `m` at `now`.
    pub open spec fn after_recv(self, m: crate::model::CltMsgModel, now: u64) -> Self {
        SvcSoupBinTcpRecvConnectionState {
            max_recv_interval: match m {
                crate::model::CltMsgModel::LoginRequest { hbeat_timeout_ms, .. } =>
                    hbeat_interval_nanos(hbeat_timeout_ms),
                _ => self.max_recv_interval,
            },
            any_msg_recved: Some(now),
        }
    }

    /// A login arrived with an interval, and something arrived within it.
    pub open spec fn spec_is_connected(self, now: u64) -> bool {
        &&& self.max_recv_interval matches Some(max)
        &&& self.any_msg_recved matches Some(t) && elapsed(t, now) < max
    }

    pub fn new() -> (r: Self)
        ensures
            r.max_recv_interval is None,
            r.any_msg_recved is None,
    {
        SvcSoupBinTcpRecvConnectionState { max_recv_interval: None, any_msg_recved: None }
    }

    pub fn on_recv<RecvP: SoupBinTcpPayload>(&mut self, msg: &CltSoupBinTcpMsg<RecvP>, now: u64)
        ensures
            *final(self) == old(self).after_recv(msg@, now),
    {
        if let CltSoupBinTcpMsg::LoginRequest(l) = msg {
            self.max_recv_interval =
                match l.hbeat_timeout_ms.value() {
                    Some(ms) => if ms <= u64::MAX / NANOS_PER_MILLI {
                        Some(ms * NANOS_PER_MILLI)
                    } else {
                        None
                    },
                    None => None,
                };
        }
        self.any_msg_recved = Some(now);
    }

    pub fn is_connected(&self, now: u64) -> (r: bool)
        ensures
            r == self.spec_is_connected(now),
    {
        match (self.any_msg_recved, self.max_recv_interval) {
            (Some(last), Some(max)) => elapsed_exec(last, now) < max,
            _ => false,
        }
    }
}

impl Default for SvcSoupBinTcpRecvConnectionState {
    fn default() -> (r: Self)
        ensures
            r.max_recv_interval is None,
            r.any_msg_recved is None,
    {
        SvcSoupBinTcpRecvConnectionState::new()
    }
}

/// What a server has sent on a connection: when it accepted the login and when it ended
/// the session.
#[derive(Clone, Copy, Debug)]
pub struct SvcSoupBinTcpSendConnectionState {
    pub login_accepted: Option<u64>,
    pub end_of_session: Option<u64>,
}

impl SvcSoupBinTcpSendConnectionState {
    /// The state after sending `m` at `now`.
    pub open spec fn after_sent(self, m: SvcMsgModel, now: u64) -> Self {
        SvcSoupBinTcpSendConnectionState {
            login_accepted: if m is LoginAccepted {
                Some(now)
            } else {
                self.login_accepted
            },
            end_of_session: if m is EndOfSession {
                Some(now)
            } else {
                self.end_of_session
            },
        }
    }

    /// The login was accepted and the session has not been ended.
    pub open spec fn spec_is_connected(self) -> bool {
        self.login_accepted is Some && self.end_of_session is None
    }

    pub fn new() -> (r: Self)
        ensures
            r.login_accepted is None,
            r.end_of_session is None,
    {
        SvcSoupBinTcpSendConnectionState { login_accepted: None, end_of_session: None }
    }

    pub fn on_sent<SendP: SoupBinTcpPayload>(&mut self, msg: &SvcSoupBinTcpMsg<SendP>, now: u64)
        ensures
            *final(self) == old(self).after_sent(msg@, now),
    {
        match msg {
            SvcSoupBinTcpMsg::LoginAccepted(_) => self.login_accepted = Some(now),
            SvcSoupBinTcpMsg::EndOfSession(_) => self.end_of_session = Some(now),
            _ => {},
        }
    }

    pub fn is_connected(&self) -> (r: bool)
        ensures
            r == self.spec_is_connected(),
    {
        self.login_accepted.is_some() && self.end_of_session.is_none()
    }
}

impl Default for SvcSoupBinTcpSendConnectionState {
    fn default() -> (r: Self)
        ensures
            r.login_accepted is None,
            r.end_of_session is None,
    {
        SvcSoupBinTcpSendConnectionState::new()
    }
}

/// A server connection is up while both what it received and what it sent say so.
pub fn svc_is_connected(
    recv: &SvcSoupBinTcpRecvConnectionState,
    send: &SvcSoupBinTcpSendConnectionState,
    now: u64,
) -> (r: bool)
    ensures
        r == (recv.spec_is_connected(now) && send.spec_is_connected()),
{
    recv.is_connected(now) && send.is_connected()
}

/// The sequenced payloads among `s`, in their order.
pub open spec fn sequenced(s: Seq<SvcMsgModel>) -> Seq<SvcMsgModel>
    decreases s.len(),
{
    if s.len() == 0 {
        Seq::empty()
    } else {
        let before = sequenced(s.drop_last());
        if s.last() is SPayload {
            before.push(s.last())
        } else {
            before
        }
    }
}

/// `s` without its first `k` items; empty where it has fewer.
pub open spec fn skip(s: Seq<SvcMsgModel>, k: int) -> Seq<SvcMsgModel> {
    if 0 <= k <= s.len() {
        s.subrange(k, s.len() as int)
    } else {
        Seq::empty()
    }
}

/// The models of a run of server messages.
pub open spec fn svc_models<P: SoupBinTcpPayload>(v: Seq<SvcSoupBinTcpMsg<P>>) -> Seq<
    SvcMsgModel,
> {
    v.map_values(|m: SvcSoupBinTcpMsg<P>| m@)
}

/// Every message a server has sent in its session, in order, and how many of them were
/// sequenced payloads.
#[derive(Debug)]
pub struct SvcSoupBinTcpSendSessionState<SendP> {
    sequenced_payload_number: usize,
    storage: Vec<SvcSoupBinTcpMsg<SendP>>,
}

impl<SendP: SoupBinTcpPayload> SvcSoupBinTcpSendSessionState<SendP> {
    /// The messages sent so far, in order.
    pub closed spec fn sent(&self) -> Seq<SvcMsgModel> {
        svc_models(self.storage@)
    }

    pub closed spec fn count(&self) -> nat {
        self.sequenced_payload_number as nat
    }

    /// The count is the number of sequenced payloads in the log, and the log can grow.
    pub closed spec fn wf(&self) -> bool {
        &&& self.sequenced_payload_number as nat == sequenced(self.sent()).len()
        &&& self.storage@.len() < usize::MAX
    }

    pub fn new() -> (r: Self)
        ensures
            r.wf(),
            r.sent() == Seq::<SvcMsgModel>::empty(),
            r.count() == 0,
    {
        let r = SvcSoupBinTcpSendSessionState { sequenced_payload_number: 0, storage: Vec::new() };
        assert(r.sent() =~= Seq::<SvcMsgModel>::empty());
        r
    }

    /// Logs a message that was sent; a sequenced payload also advances the count.
    pub fn on_sent(&mut self, msg: &SvcSoupBinTcpMsg<SendP>)
        requires
            old(self).wf(),
            old(self).sent().len() + 1 < usize::MAX,
        ensures
            final(self).wf(),
            final(self).sent() == old(self).sent().push(msg@),
            final(self).count() == old(self).count() + if msg@ is SPayload {
                1nat
            } else {
                0nat
            },
    {
        let ghost before = self.sent();
        let is_s = matches!(msg, SvcSoupBinTcpMsg::SPayload(_));
        self.storage.push(msg.copy_msg());
        proof {
            assert(self.sent() =~= before.push(msg@));
            assert(self.sent().drop_last() =~= before);
            lemma_sequenced_len(before);
        }
        if is_s {
            self.sequenced_payload_number = self.sequenced_payload_number + 1;
        }
    }

    pub fn current_sequence_payload_number(&self) -> (r: usize)
        requires
            self.wf(),
        ensures
            r == self.count(),
            r == sequenced(self.sent()).len(),
    {
        self.sequenced_payload_number
    }

    pub fn next_sequenced_payload_number(&self) -> (r: usize)
        requires
            self.wf(),
        ensures
            r == self.count() + 1,
            r == sequenced(self.sent()).len() + 1,
    {
        proof {
            lemma_sequenced_len(self.sent());
        }
        self.sequenced_payload_number + 1
    }

    pub fn get_storage(&self) -> (r: &Vec<SvcSoupBinTcpMsg<SendP>>)
        ensures
            svc_models(r@) == self.sent(),
    {
        &self.storage
    }

    /// Copies of the sequenced payloads from number `start` on (the first is number 1),
    /// in the order they were sent.
    pub fn sequenced_from(&self, start: usize) -> (r: Vec<SvcSoupBinTcpMsg<SendP>>)
        requires
            self.wf(),
            start >= 1,
        ensures
            svc_models(r@) == skip(sequenced(self.sent()), start - 1),
    {
        let k: usize = start - 1;
        let mut out: Vec<SvcSoupBinTcpMsg<SendP>> = Vec::new();
        let mut seen: usize = 0;
        let mut i: usize = 0;
        let n = self.storage.len();
        while i < n
            invariant
                n == self.storage@.len(),
                i <= n,
                k == start - 1,
                seen as nat == sequenced(svc_models(self.storage@.subrange(0, i as int))).len(),
                svc_models(out@) == skip(
                    sequenced(svc_models(self.storage@.subrange(0, i as int))),
                    k as int,
                ),
            decreases n - i,
        {
            let ghost pre = svc_models(self.storage@.subrange(0, i as int));
            let ghost post = svc_models(self.storage@.subrange(0, i + 1));
            proof {
                assert(post.drop_last() =~= pre);
                assert(post.last() == self.storage@[i as int]@);
                lemma_sequenced_len(pre);
            }
            let m = &self.storage[i];
            if let SvcSoupBinTcpMsg::SPayload(_) = m {
                if seen >= k {
                    let ghost old_out = svc_models(out@);
                    out.push(m.copy_msg());
                    proof {
                        assert(svc_models(out@) =~= old_out.push(m@));
                        assert(skip(sequenced(post), k as int) =~= skip(sequenced(pre), k as int).push(
                            m@,
                        ));
                    }
                } else {
                    assert(skip(sequenced(post), k as int) =~= Seq::<SvcMsgModel>::empty());
                }
                seen = seen + 1;
            }
            i = i + 1;
        }
        assert(self.storage@.subrange(0, n as int) =~= self.storage@);
        out
    }
}

proof fn lemma_sequenced_len(s: Seq<SvcMsgModel>)
    ensures
        sequenced(s).len() <= s.len(),
    decreases s.len(),
{
    if s.len() > 0 {
        lemma_sequenced_len(s.drop_last());
    }
}

/// Sequenced payloads of two runs sent one after the other are those of the first run,
/// then those of the second.
pub proof fn lemma_sequenced_concat(a: Seq<SvcMsgModel>, b: Seq<SvcMsgModel>)
    ensures
        sequenced(a + b) == sequenced(a) + sequenced(b),
    decreases b.len(),
{
    if b.len() == 0 {
        assert(a + b =~= a);
        assert(sequenced(a) + sequenced(b) =~= sequenced(a));
    } else {
        lemma_sequenced_concat(a, b.drop_last());
        assert((a + b).drop_last() =~= a + b.drop_last());
        assert((a + b).last() == b.last());
        if b.last() is SPayload {
            assert(sequenced(a) + sequenced(b) =~= (sequenced(a) + sequenced(b.drop_last())).push(
                b.last(),
            ));
        }
    }
}

/// Every item that `sequenced` keeps is a sequenced payload of the run, in the run's order.
pub proof fn lemma_sequenced_items(s: Seq<SvcMsgModel>, k: int)
    requires
        0 <= k < sequenced(s).len(),
    ensures
        sequenced(s)[k] is SPayload,
        s.contains(sequenced(s)[k]),
    decreases s.len(),
{
    let before = sequenced(s.drop_last());
    if k < before.len() {
        lemma_sequenced_items(s.drop_last(), k);
        let x = before[k];
        let j = choose|j: int| 0 <= j < s.drop_last().len() && s.drop_last()[j] == x;
        assert(s[j] == x);
    } else {
        assert(s[s.len() - 1] == s.last());
    }
}

/// The count a session keeps is the number of sequenced payloads among all it has sent,
/// whatever the run of sends: after sends holding `k` sequenced payloads it is `k`.
pub proof fn lemma_sequenced_count<SendP: SoupBinTcpPayload>(
    st: &SvcSoupBinTcpSendSessionState<SendP>,
)
    requires
        st.wf(),
    ensures
        st.count() == sequenced(st.sent()).len(),
        st.count() <= st.sent().len(),
{
    lemma_sequenced_len(st.sent());
}

/// Once nothing has arrived for the whole interval, a client no longer counts as
/// connected, and stays so for as long as nothing arrives.
pub proof fn lemma_clt_silence_disconnects(
    c: CltSoupBinTcpRecvConnectionState,
    now: u64,
    later: u64,
)
    requires
        c.any_msg_recved matches Some(t) && elapsed(t, now) >= c.max_recv_interval,
        later >= now,
    ensures
        !c.spec_is_connected(now),
        !c.spec_is_connected(later),
{
}

/// Once nothing has arrived for the whole interval the client asked for, a server no
/// longer counts the connection as up, and stays so for as long as nothing arrives.
pub proof fn lemma_svc_silence_disconnects(
    s: SvcSoupBinTcpRecvConnectionState,
    send: SvcSoupBinTcpSendConnectionState,
    now: u64,
    later: u64,
)
    requires
        s.any_msg_recved matches Some(t) && s.max_recv_interval matches Some(max) && elapsed(t, now)
            >= max,
        later >= now,
    ensures
        !(s.spec_is_connected(now) && send.spec_is_connected()),
        !(s.spec_is_connected(later) && send.spec_is_connected()),
{
}

} // verus!
