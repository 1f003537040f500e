//! Agent-side interface address watcher: models the OS address-change
//! notifications, picks the IPv4 they carry, and deduplicates transitions
//! against the last reported address.
//!
//! The subscription to the OS itself is an outside concern; the watcher is
//! fed one notification at a time and decides whether a change report goes
//! out.

use vstd::prelude::*;
use crate::ipv4::Ipv4;

verus! {

/// Whether an address was added to or removed from the interface.
#[derive(Clone, Copy, PartialEq, Eq, Structural, Debug)]
pub enum ChangeKind {
    Add,
    Del,
}

/// One attribute of an OS address notification: the IPv4 address it
/// carries, or anything else (an IPv6 address, a label, ...).
#[derive(Clone, Copy, PartialEq, Eq, Structural, Debug)]
pub enum AddrAttr {
    Ipv4(Ipv4),
    Other,
}

/// The body of an OS address notification: the interface it concerns and
/// its attributes.
pub struct AddressInfo {
    pub link_index: u32,
    pub attrs: Vec<AddrAttr>,
}

/// An OS route-layer notification, as far as the watcher reads it.
pub enum RouteNotification {
    NewAddress(AddressInfo),
    DelAddress(AddressInfo),
    Other,
}

/// A deduplicated address change, ready to be reported.
#[derive(Clone, Copy, PartialEq, Eq, Structural, Debug)]
pub struct Report {
    pub ipv4: Ipv4,
    pub kind: ChangeKind,
}

/// The first IPv4 attribute at or after position `i`.
pub open spec fn first_ipv4_from(attrs: Seq<AddrAttr>, i: int) -> Option<Ipv4>
    decreases attrs.len() - i,
{
    if i < 0 || i >= attrs.len() {
        None
    } else {
        match attrs[i] {
            AddrAttr::Ipv4(ip) => Some(ip),
            AddrAttr::Other => first_ipv4_from(attrs, i + 1),
        }
    }
}

/// The first IPv4 attribute of a notification body.
pub open spec fn first_ipv4(attrs: Seq<AddrAttr>) -> Option<Ipv4> {
    first_ipv4_from(attrs, 0)
}

/// Returns the first IPv4 entry among the attributes; entries that do not
/// carry an IPv4 address are skipped.
pub fn extract_ipv4(attrs: &Vec<AddrAttr>) -> (r: Option<Ipv4>)
    ensures
        r == first_ipv4(attrs@),
{
    let n = attrs.len();
    for i in 0..n
        invariant
            n == attrs@.len(),
            first_ipv4(attrs@) == first_ipv4_from(attrs@, i as int),
    {
        match attrs[i] {
            AddrAttr::Ipv4(ip) => {
                return Some(ip);
            },
            AddrAttr::Other => {},
        }
    }
    None
}

/// The first IPv4 bound to the watched interface at or after entry `i`.
pub open spec fn initial_ipv4_from(entries: Seq<AddressInfo>, link_index: u32, i: int) -> Option<
    Ipv4,
>
    decreases entries.len() - i,
{
    if i < 0 || i >= entries.len() {
        None
    } else if entries[i].link_index == link_index && first_ipv4(entries[i].attrs@) is Some {
        first_ipv4(entries[i].attrs@)
    } else {
        initial_ipv4_from(entries, link_index, i + 1)
    }
}

/// The first IPv4 bound to the watched interface, over a finite listing of
/// the OS address table.
pub open spec fn initial_ipv4_spec(entries: Seq<AddressInfo>, link_index: u32) -> Option<Ipv4> {
    initial_ipv4_from(entries, link_index, 0)
}

/// Returns the first IPv4 entry of the address table that belongs to the
/// watched interface, or `None` if no IPv4 is bound there.
pub fn initial_ipv4(entries: &Vec<AddressInfo>, link_index: u32) -> (r: Option<Ipv4>)
    ensures
        r == initial_ipv4_spec(entries@, link_index),
{
    let n = entries.len();
    for i in 0..n
        invariant
            n == entries@.len(),
            initial_ipv4_spec(entries@, link_index) == initial_ipv4_from(
                entries@,
                link_index,
                i as int,
            ),
    {
        if entries[i].link_index == link_index {
            match extract_ipv4(&entries[i].attrs) {
                Some(ip) => {
                    return Some(ip);
                },
                None => {},
            }
        }
    }
    None
}

/// The watcher's own state: the resolved interface and the last reported
/// IPv4, against which new notifications are deduplicated.
pub struct AddressWatcher {
    pub link_index: u32,
    pub last_ip: Option<Ipv4>,
}

/// The IPv4 a notification body carries for the watched interface, if any.
pub open spec fn event_ipv4(w: AddressWatcher, info: AddressInfo) -> Option<Ipv4> {
    if info.link_index == w.link_index {
        first_ipv4(info.attrs@)
    } else {
        None
    }
}

/// The report a notification produces: `None` when the notification is not
/// an add/del address event, concerns another interface, carries no IPv4,
/// or repeats the last reported address.
pub open spec fn step_report(w: AddressWatcher, n: RouteNotification) -> Option<Report> {
    match n {
        RouteNotification::NewAddress(info) => body_report(w, info, ChangeKind::Add),
        RouteNotification::DelAddress(info) => body_report(w, info, ChangeKind::Del),
        RouteNotification::Other => None,
    }
}

/// The report an add/del notification body produces.
pub open spec fn body_report(w: AddressWatcher, info: AddressInfo, kind: ChangeKind) -> Option<
    Report,
> {
    match event_ipv4(w, info) {
        Some(ip) => if w.last_ip == Some(ip) {
            None
        } else {
            Some(Report { ipv4: ip, kind })
        },
        None => None,
    }
}

/// The cursor after a notification: it moves exactly when a report goes
/// out.
pub open spec fn step_cursor(w: AddressWatcher, n: RouteNotification) -> Option<Ipv4> {
    match step_report(w, n) {
        Some(rep) => Some(rep.ipv4),
        None => w.last_ip,
    }
}

impl AddressWatcher {
    /// A watcher for the interface with the given index, with no address
    /// reported yet.
    pub fn new(link_index: u32) -> (w: Self)
        ensures
            w.link_index == link_index,
            w.last_ip is None,
    {
        AddressWatcher { link_index, last_ip: None }
    }

    /// Consumes one OS notification: discards anything that is not an
    /// add/del address event on the watched interface carrying a new IPv4,
    /// and otherwise updates the cursor and returns the change to report.
    pub fn step(&mut self, n: &RouteNotification) -> (r: Option<Report>)
        ensures
            r == step_report(*old(self), *n),
            final(self).link_index == old(self).link_index,
            final(self).last_ip == step_cursor(*old(self), *n),
    {
        match n {
            RouteNotification::NewAddress(info) => self.step_body(info, ChangeKind::Add),
            RouteNotification::DelAddress(info) => self.step_body(info, ChangeKind::Del),
            RouteNotification::Other => None,
        }
    }

    fn step_body(&mut self, info: &AddressInfo, kind: ChangeKind) -> (r: Option<Report>)
        ensures
            r == body_report(*old(self), *info, kind),
            final(self).link_index == old(self).link_index,
            final(self).last_ip == (match r {
                Some(rep) => Some(rep.ipv4),
                None => old(self).last_ip,
            }),
    {
        if info.link_index != self.link_index {
            return None;
        }
        let ip = match extract_ipv4(&info.attrs) {
            Some(ip) => ip,
            None => {
                return None;
            },
        };
        let repeated = match self.last_ip {
            Some(prev) => prev == ip,
            None => false,
        };
        if repeated {
            return None;
        }
        self.last_ip = Some(ip);
        Some(Report { ipv4: ip, kind })
    }
}

/// The reports a watcher emits over a finite run of notifications.
pub open spec fn run_reports(w: AddressWatcher, notes: Seq<RouteNotification>) -> Seq<Report>
    decreases notes.len(),
{
    if notes.len() == 0 {
        Seq::empty()
    } else {
        let head = match step_report(w, notes[0]) {
            Some(rep) => seq![rep],
            None => Seq::<Report>::empty(),
        };
        let w1 = AddressWatcher {
            link_index: w.link_index,
            last_ip: step_cursor(w, notes[0]),
        };
        head + run_reports(w1, notes.drop_first())
    }
}

/// Whether a notification is an add/del address event on interface
/// `link_index` whose first IPv4 is `ip`.
pub open spec fn carries(n: RouteNotification, link_index: u32, ip: Ipv4) -> bool {
    match n {
        RouteNotification::NewAddress(info) => info.link_index == link_index && first_ipv4(
            info.attrs@,
        ) == Some(ip),
        RouteNotification::DelAddress(info) => info.link_index == link_index && first_ipv4(
            info.attrs@,
        ) == Some(ip),
        RouteNotification::Other => false,
    }
}

/// Once the cursor already holds `ip`, a run of notifications that all
/// carry `ip` for the watched interface emits nothing.
proof fn lemma_repeat_suppressed(w: AddressWatcher, notes: Seq<RouteNotification>, ip: Ipv4)
    requires
        w.last_ip == Some(ip),
        forall|i: int| 0 <= i < notes.len() ==> carries(#[trigger] notes[i], w.link_index, ip),
    ensures
        run_reports(w, notes) =~= Seq::<Report>::empty(),
    decreases notes.len(),
{
    if notes.len() > 0 {
        let w1 = AddressWatcher { link_index: w.link_index, last_ip: step_cursor(w, notes[0]) };
        assert(step_report(w, notes[0]) is None);
        assert(forall|i: int|
            0 <= i < notes.drop_first().len() ==> carries(
                #[trigger] notes.drop_first()[i],
                w1.link_index,
                ip,
            ));
        lemma_repeat_suppressed(w1, notes.drop_first(), ip);
    }
}

/// In a run's reports, the first never repeats the cursor, and neighbours
/// never repeat each other.
proof fn lemma_run_reports_chain(w: AddressWatcher, notes: Seq<RouteNotification>)
    ensures
        run_reports(w, notes).len() > 0 && w.last_ip is Some ==> run_reports(w, notes)[0].ipv4
            != w.last_ip.unwrap(),
        forall|i: int|
            0 <= i < run_reports(w, notes).len() - 1 ==> run_reports(w, notes)[i].ipv4 != (
            #[trigger] run_reports(w, notes)[i + 1]).ipv4,
    decreases notes.len(),
{
    if notes.len() > 0 {
        let w1 = AddressWatcher { link_index: w.link_index, last_ip: step_cursor(w, notes[0]) };
        let rest = run_reports(w1, notes.drop_first());
        lemma_run_reports_chain(w1, notes.drop_first());
        match step_report(w, notes[0]) {
            Some(rep) => {
                assert(run_reports(w, notes) =~= seq![rep] + rest);
                assert(w1.last_ip == Some(rep.ipv4));
                assert forall|i: int| 0 <= i < run_reports(w, notes).len() - 1 implies run_reports(
                    w,
                    notes,
                )[i].ipv4 != (#[trigger] run_reports(w, notes)[i + 1]).ipv4 by {
                    if i == 0 {
                        assert(rest[0].ipv4 != rep.ipv4);
                    } else {
                        assert(rest[i - 1].ipv4 != rest[(i - 1) + 1].ipv4);
                    }
                }
            },
            None => {
                assert(run_reports(w, notes) =~= rest);
                assert(w1.last_ip == w.last_ip);
            },
        }
    }
}

/// Deduplication, in general: over any run of notifications whatsoever,
/// two neighbouring reports never carry the same address — a repetition of
/// the last reported IPv4 is always suppressed.
pub proof fn lemma_adjacent_reports_differ(
    w: AddressWatcher,
    notes: Seq<RouteNotification>,
    i: int,
)
    requires
        0 <= i < run_reports(w, notes).len() - 1,
    ensures
        run_reports(w, notes)[i].ipv4 != run_reports(w, notes)[i + 1].ipv4,
{
    lemma_run_reports_chain(w, notes);
}

/// Deduplication: over any run of add/del notifications on the watched
/// interface that all carry the same IPv4, at most one report goes out.
pub proof fn lemma_dedup_same_address(w: AddressWatcher, notes: Seq<RouteNotification>, ip: Ipv4)
    requires
        forall|i: int| 0 <= i < notes.len() ==> carries(#[trigger] notes[i], w.link_index, ip),
    ensures
        run_reports(w, notes).len() <= 1,
    decreases notes.len(),
{
    if notes.len() > 0 {
        let w1 = AddressWatcher { link_index: w.link_index, last_ip: step_cursor(w, notes[0]) };
        assert(step_cursor(w, notes[0]) == Some(ip));
        assert(forall|i: int|
            0 <= i < notes.drop_first().len() ==> carries(
                #[trigger] notes.drop_first()[i],
                w1.link_index,
                ip,
            ));
        lemma_repeat_suppressed(w1, notes.drop_first(), ip);
    }
}

} // verus!
