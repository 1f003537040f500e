//! Session-authenticated client for the upstream DNS host-record store:
//! the lazy re-authentication state machine and the URLs it talks to.
//!
//! The outbound HTTP calls themselves are an outside concern. The client
//! decides, step by step, what the next call is — probe the held session,
//! create one, or upsert the record — and the driver performs the call and
//! hands the outcome back.

use vstd::prelude::*;
use vstd::string::{StrSliceExecFns, StringExecFns, StringSliceAdditionalSpecFns};

verus! {

/// Why one host-record synchronisation attempt was aborted.
#[derive(Clone, Copy, PartialEq, Eq, Structural, Debug)]
pub enum SyncError {
    /// A session could not be created.
    AuthenticationFailure,
    /// The upstream answered the upsert with this non-success status.
    UpstreamHttpError(u16),
    /// The upsert got no answer at all.
    TransportError,
}

/// The pending command of an upsert, or how it ended.
#[derive(Clone, Copy, PartialEq, Eq, Structural, Debug)]
pub enum SyncStep {
    /// Probe the validity of the held session id.
    Probe,
    /// Create a session with the configured password.
    CreateSession,
    /// Upsert the host record, authorized by the held session id.
    PutRecord,
    /// The record is upserted.
    Done,
    /// The attempt is aborted.
    Failed(SyncError),
}

/// What the session-creation call came back with.
pub enum SessionReply {
    /// No usable answer: a transport failure or an unreadable body.
    Failed,
    /// The upstream's answer: whether it granted a session, and its id.
    Granted { valid: bool, sid: Option<String> },
}

/// What the driver hands back after performing one command.
pub enum SyncEvent {
    /// Whether the probe of the held session succeeded.
    ProbeResult(bool),
    /// The answer of the session-creation call.
    SessionResult(SessionReply),
    /// The HTTP status of the upsert, or `None` on a transport failure.
    PutResult(Option<u16>),
}

/// A session reply grants a usable session: marked valid, with an id.
pub open spec fn session_accepted(reply: SessionReply) -> bool {
    match reply {
        SessionReply::Granted { valid, sid } => valid && sid is Some,
        SessionReply::Failed => false,
    }
}

/// The session id a reply carries.
pub open spec fn reply_sid(reply: SessionReply) -> Option<String> {
    match reply {
        SessionReply::Granted { valid: _, sid } => sid,
        SessionReply::Failed => None,
    }
}

/// The first command of an upsert: probe a held session, else create one.
pub open spec fn start_spec(sid: Option<String>) -> SyncStep {
    if sid is Some {
        SyncStep::Probe
    } else {
        SyncStep::CreateSession
    }
}

/// After the probe: a valid session goes straight to the record write; an
/// invalid (or unanswered) one has a session created first.
pub open spec fn probe_spec(probe_ok: bool) -> SyncStep {
    if probe_ok {
        SyncStep::PutRecord
    } else {
        SyncStep::CreateSession
    }
}

/// After the session-creation call: a granted session retries the record
/// write; anything else aborts the attempt.
pub open spec fn session_spec(reply: SessionReply) -> SyncStep {
    if session_accepted(reply) {
        SyncStep::PutRecord
    } else {
        SyncStep::Failed(SyncError::AuthenticationFailure)
    }
}

/// An HTTP status that counts as success.
pub open spec fn http_success(status: u16) -> bool {
    200 <= status < 300
}

/// After the record write: done on success, aborted otherwise.
pub open spec fn put_spec(outcome: Option<u16>) -> SyncStep {
    match outcome {
        Some(status) => if http_success(status) {
            SyncStep::Done
        } else {
            SyncStep::Failed(SyncError::UpstreamHttpError(status))
        },
        None => SyncStep::Failed(SyncError::TransportError),
    }
}

/// The client: where the upstream lives, the password that buys a session,
/// and the one shared mutable field — the session id.
pub struct DnsSyncClient {
    pub server_url: String,
    pub password: String,
    pub sid: Option<String>,
}

impl DnsSyncClient {
    /// A client with no session yet.
    pub fn new(server_url: String, password: String) -> (c: Self)
        ensures
            c.server_url == server_url,
            c.password == password,
            c.sid is None,
    {
        DnsSyncClient { server_url, password, sid: None }
    }

    /// The held session id, if any.
    pub fn current_sid(&self) -> (r: Option<String>)
        ensures
            r == self.sid,
    {
        match &self.sid {
            Some(s) => Some(s.clone()),
            None => None,
        }
    }

    /// Begins a host-record upsert: names the first outbound call to make.
    pub fn start_upsert(&self) -> (s: SyncStep)
        ensures
            s == start_spec(self.sid),
    {
        match &self.sid {
            Some(_) => SyncStep::Probe,
            None => SyncStep::CreateSession,
        }
    }

    /// Takes the probe's outcome and names the next call.
    pub fn on_probe_result(&self, probe_ok: bool) -> (s: SyncStep)
        ensures
            s == probe_spec(probe_ok),
    {
        if probe_ok {
            SyncStep::PutRecord
        } else {
            SyncStep::CreateSession
        }
    }

    /// Takes the session-creation answer: a granted session replaces the
    /// held id wholesale and the record write is retried; any other answer
    /// aborts, leaving the held id as it was.
    pub fn on_session_result(&mut self, reply: SessionReply) -> (s: SyncStep)
        ensures
            s == session_spec(reply),
            final(self).sid == (if session_accepted(reply) {
                reply_sid(reply)
            } else {
                old(self).sid
            }),
            final(self).server_url == old(self).server_url,
            final(self).password == old(self).password,
    {
        match reply {
            SessionReply::Granted { valid, sid } => {
                if valid {
                    match sid {
                        Some(s) => {
                            self.sid = Some(s);
                            SyncStep::PutRecord
                        },
                        None => SyncStep::Failed(SyncError::AuthenticationFailure),
                    }
                } else {
                    SyncStep::Failed(SyncError::AuthenticationFailure)
                }
            },
            SessionReply::Failed => SyncStep::Failed(SyncError::AuthenticationFailure),
        }
    }

    /// Takes the record write's outcome and closes the attempt.
    pub fn on_put_result(&self, outcome: Option<u16>) -> (s: SyncStep)
        ensures
            s == put_spec(outcome),
    {
        match outcome {
            Some(status) => {
                if 200 <= status && status < 300 {
                    SyncStep::Done
                } else {
                    SyncStep::Failed(SyncError::UpstreamHttpError(status))
                }
            },
            None => SyncStep::Failed(SyncError::TransportError),
        }
    }
}

/// A byte the urlencoded byte serialisation keeps as it is: alphanumeric
/// or one of `*-._`.
pub open spec fn url_byte_unchanged(b: u8) -> bool {
    b == 42 || b == 45 || b == 46 || b == 95 || (48 <= b <= 57) || (65 <= b <= 90) || (97 <= b
        <= 122)
}

/// The uppercase hex digit for a value below sixteen.
pub open spec fn hex_digit(v: u8) -> char
    recommends
        v < 16,
{
    if v < 10 {
        ((48 + v) as u8) as char
    } else {
        ((55 + v) as u8) as char
    }
}

/// The urlencoded form of one byte: kept, a plus for a space, or a
/// percent-escape in uppercase hex.
pub open spec fn urlencoded_byte(b: u8) -> Seq<char> {
    if url_byte_unchanged(b) {
        seq![b as char]
    } else if b == 32 {
        seq!['+']
    } else {
        seq!['%', hex_digit(b / 16), hex_digit(b % 16)]
    }
}

/// The urlencoded form of a byte string.
pub open spec fn urlencoded(bytes: Seq<u8>) -> Seq<char>
    decreases bytes.len(),
{
    if bytes.len() == 0 {
        Seq::empty()
    } else {
        urlencoded_byte(bytes[0]) + urlencoded(bytes.drop_first())
    }
}

/// Relies on url::form_urlencoded::byte_serialize: each byte is kept if
/// alphanumeric or one of `*-._`, a space becomes `+`, and any other byte
/// becomes `%` and two uppercase hex digits.
#[verifier::external_body]
fn urlencode_bytes(bytes: &Vec<u8>) -> (r: String)
    ensures
        r@ == urlencoded(bytes@),
{
    url::form_urlencoded::byte_serialize(bytes.as_slice()).collect()
}

/// The bytes of the upstream's name for a host record: the address, one
/// space (byte 32), then the hostname.
pub open spec fn record_key_bytes(ip: Seq<u8>, hostname: Seq<u8>) -> Seq<u8> {
    ip + seq![32u8] + hostname
}

fn record_key(ip: &str, hostname: &str) -> (r: Vec<u8>)
    ensures
        r@ == record_key_bytes(ip.spec_bytes(), hostname.spec_bytes()),
{
    let mut buf = ip.as_bytes_vec();
    buf.push(32);
    let mut rest = hostname.as_bytes_vec();
    buf.append(&mut rest);
    proof {
        assert(buf@ =~= record_key_bytes(ip.spec_bytes(), hostname.spec_bytes()));
    }
    buf
}

impl DnsSyncClient {
    /// The URL under the upstream's API for `path`.
    fn api_path(&self, path: &str) -> (r: String)
        ensures
            r@ == self.server_url@ + "/api/"@ + path@,
    {
        let mut r = self.server_url.clone();
        r.append("/api/");
        r.append(path);
        r
    }

    /// Where a session is created.
    pub fn auth_url(&self) -> (r: String)
        ensures
            r@ == self.server_url@ + "/api/auth"@,
    {
        let r = self.api_path("auth");
        proof {
            reveal_strlit("/api/");
            reveal_strlit("auth");
            reveal_strlit("/api/auth");
            assert(r@ =~= self.server_url@ + "/api/auth"@);
        }
        r
    }

    /// Where the held session's validity is probed.
    pub fn sessions_url(&self) -> (r: String)
        ensures
            r@ == self.server_url@ + "/api/auth/sessions"@,
    {
        let r = self.api_path("auth/sessions");
        proof {
            reveal_strlit("/api/");
            reveal_strlit("auth/sessions");
            reveal_strlit("/api/auth/sessions");
            assert(r@ =~= self.server_url@ + "/api/auth/sessions"@);
        }
        r
    }

    /// Where the host record for `(ip, hostname)` is upserted: the record's
    /// key is the urlencoded pair, separated by a space.
    pub fn host_record_url(&self, ip: &str, hostname: &str) -> (r: String)
        ensures
            r@ == self.server_url@ + "/api/config/dns/hosts/"@ + urlencoded(
                record_key_bytes(ip.spec_bytes(), hostname.spec_bytes()),
            ),
    {
        let key = record_key(ip, hostname);
        let encoded = urlencode_bytes(&key);
        let mut r = self.api_path("config/dns/hosts/");
        r.append(encoded.as_str());
        proof {
            reveal_strlit("/api/");
            reveal_strlit("config/dns/hosts/");
            reveal_strlit("/api/config/dns/hosts/");
            assert(r@ =~= self.server_url@ + "/api/config/dns/hosts/"@ + urlencoded(
                record_key_bytes(ip.spec_bytes(), hostname.spec_bytes()),
            ));
        }
        r
    }
}

/// One transition of the upsert protocol: the pending command and the held
/// session id, advanced by the event the driver got back. An event that
/// does not answer the pending command changes nothing.
pub open spec fn machine_step(cur: SyncStep, sid: Option<String>, ev: SyncEvent) -> (
    SyncStep,
    Option<String>,
) {
    match cur {
        SyncStep::Probe => match ev {
            SyncEvent::ProbeResult(ok) => (probe_spec(ok), sid),
            _ => (cur, sid),
        },
        SyncStep::CreateSession => match ev {
            SyncEvent::SessionResult(reply) => (
                session_spec(reply),
                if session_accepted(reply) {
                    reply_sid(reply)
                } else {
                    sid
                },
            ),
            _ => (cur, sid),
        },
        SyncStep::PutRecord => match ev {
            SyncEvent::PutResult(outcome) => (put_spec(outcome), sid),
            _ => (cur, sid),
        },
        _ => (cur, sid),
    }
}

/// The commands an upsert run visits, starting from `cur`, as the events
/// in `evs` come back one by one.
pub open spec fn machine_trace(cur: SyncStep, sid: Option<String>, evs: Seq<SyncEvent>) -> Seq<
    SyncStep,
>
    decreases evs.len(),
{
    if evs.len() == 0 {
        seq![cur]
    } else {
        let next = machine_step(cur, sid, evs[0]);
        seq![cur] + machine_trace(next.0, next.1, evs.drop_first())
    }
}

/// Law: with a session id held and a probe that answers valid, the upsert
/// goes straight to the record write — no session is created anywhere in
/// the run.
pub proof fn lemma_valid_probe_creates_no_session(sid: Option<String>, put_outcome: Option<u16>)
    requires
        sid is Some,
    ensures
        machine_trace(
            start_spec(sid),
            sid,
            seq![SyncEvent::ProbeResult(true), SyncEvent::PutResult(put_outcome)],
        ) =~= seq![SyncStep::Probe, SyncStep::PutRecord, put_spec(put_outcome)],
{
    reveal_with_fuel(machine_trace, 3);
    let evs = seq![SyncEvent::ProbeResult(true), SyncEvent::PutResult(put_outcome)];
    let tail = seq![SyncEvent::PutResult(put_outcome)];
    assert(evs.drop_first() =~= tail);
    assert(tail.drop_first() =~= Seq::<SyncEvent>::empty());
    assert(machine_trace(put_spec(put_outcome), sid, Seq::empty()) =~= seq![put_spec(put_outcome)]);
    assert(machine_trace(SyncStep::PutRecord, sid, tail) =~= seq![SyncStep::PutRecord, put_spec(
        put_outcome,
    )]);
}

/// Law: with a session id held and a probe that answers invalid, exactly
/// one session creation stands between the probe and the retried record
/// write.
pub proof fn lemma_invalid_probe_creates_one_session(
    sid: Option<String>,
    reply: SessionReply,
    put_outcome: Option<u16>,
)
    requires
        sid is Some,
        session_accepted(reply),
    ensures
        machine_trace(
            start_spec(sid),
            sid,
            seq![
                SyncEvent::ProbeResult(false),
                SyncEvent::SessionResult(reply),
                SyncEvent::PutResult(put_outcome),
            ],
        ) =~= seq![SyncStep::Probe, SyncStep::CreateSession, SyncStep::PutRecord, put_spec(
            put_outcome,
        )],
{
    reveal_with_fuel(machine_trace, 4);
    let evs = seq![
        SyncEvent::ProbeResult(false),
        SyncEvent::SessionResult(reply),
        SyncEvent::PutResult(put_outcome),
    ];
    let tail2 = seq![SyncEvent::SessionResult(reply), SyncEvent::PutResult(put_outcome)];
    let tail1 = seq![SyncEvent::PutResult(put_outcome)];
    assert(evs.drop_first() =~= tail2);
    assert(tail2.drop_first() =~= tail1);
    assert(tail1.drop_first() =~= Seq::<SyncEvent>::empty());
    assert(machine_trace(put_spec(put_outcome), sid, Seq::empty()) =~= seq![put_spec(put_outcome)]);
    assert(machine_trace(SyncStep::PutRecord, reply_sid(reply), tail1) =~= seq![
        SyncStep::PutRecord,
        put_spec(put_outcome),
    ]);
    assert(machine_trace(SyncStep::CreateSession, sid, tail2) =~= seq![
        SyncStep::CreateSession,
        SyncStep::PutRecord,
        put_spec(put_outcome),
    ]);
}

} // verus!
