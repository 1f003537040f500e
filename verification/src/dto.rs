//! The wire payloads the agent sends and the server receives, and the
//! reading and writing of the change-kind field they carry.

use vstd::prelude::*;
use crate::watcher::ChangeKind;

verus! {

/// Body of a registration request.
pub struct RegisterPayload {
    pub node_id: String,
    pub hostname: String,
    pub agent_version: String,
    pub ipv4: Option<String>,
}

/// Body of a heartbeat request.
pub struct Heartbeat {
    pub node_id: String,
}

/// Body of an address-update request; `event` names the change kind on the
/// wire.
pub struct IpUpdatePayload {
    pub node_id: String,
    pub ipv4: Option<String>,
    pub event: String,
}

/// The change kind an event field names, if any.
pub open spec fn parse_change_kind_spec(event: Seq<char>) -> Option<ChangeKind> {
    if event == "add"@ {
        Some(ChangeKind::Add)
    } else if event == "del"@ {
        Some(ChangeKind::Del)
    } else {
        None
    }
}

/// Reads the change kind off the wire; anything but `add` or `del` is
/// rejected.
pub fn parse_change_kind(event: &str) -> (r: Option<ChangeKind>)
    ensures
        r == parse_change_kind_spec(event@),
{
    let e = event.to_owned();
    if e == String::from_str("add") {
        Some(ChangeKind::Add)
    } else if e == String::from_str("del") {
        Some(ChangeKind::Del)
    } else {
        None
    }
}

/// The event field's text for a change kind.
pub open spec fn event_text(kind: ChangeKind) -> Seq<char> {
    match kind {
        ChangeKind::Add => "add"@,
        ChangeKind::Del => "del"@,
    }
}

/// Writes the change kind as it goes on the wire.
pub fn change_kind_event(kind: ChangeKind) -> (r: &'static str)
    ensures
        r@ == event_text(kind),
{
    match kind {
        ChangeKind::Add => "add",
        ChangeKind::Del => "del",
    }
}

/// Reading an event field back gives the kind that was written.
pub proof fn lemma_change_kind_round_trip(kind: ChangeKind)
    ensures
        parse_change_kind_spec(event_text(kind)) == Some(kind),
{
    reveal_strlit("add");
    reveal_strlit("del");
    assert("add"@ != "del"@) by {
        assert("add"@[0] == 'a' && "del"@[0] == 'd');
    }
}

} // verus!
