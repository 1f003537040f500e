//! Server-side node registry: a concurrent map from node id to node record,
//! with liveness derived from the time of last contact.
//!
//! The map itself is a sharded concurrent structure from an outside crate;
//! its contents are modelled as a `Map` from node id to record, and every
//! operation of the registry is specified as a transition of that model.

use vstd::prelude::*;
use crate::shared_map::{entries_list, node_map_contents, node_map_entries, node_map_get,
    node_map_insert, node_map_new};
use crate::watcher::ChangeKind;

verus! {

/// Seconds without contact after which a node counts as offline.
pub const ONLINE_WINDOW_SECS: u64 = 120;

/// Seconds without contact after which the staleness sweep flags a node.
pub const STALE_AFTER_SECS: u64 = 300;

/// What the registry holds for one node.
#[derive(Clone)]
pub struct NodeRecord {
    pub hostname: String,
    pub agent_version: String,
    pub ipv4: Option<String>,
    pub registered_at: u64,
    pub last_seen: u64,
}

/// The mathematical shape of a node record.
pub ghost struct NodeRecordV {
    pub hostname: Seq<char>,
    pub agent_version: Seq<char>,
    pub ipv4: Option<Seq<char>>,
    pub registered_at: int,
    pub last_seen: int,
}

impl View for NodeRecord {
    type V = NodeRecordV;

    open spec fn view(&self) -> NodeRecordV {
        NodeRecordV {
            hostname: self.hostname@,
            agent_version: self.agent_version@,
            ipv4: self.ipv4.deep_view(),
            registered_at: self.registered_at as int,
            last_seen: self.last_seen as int,
        }
    }
}

/// The registry model: node id to record.
pub type RegistryModel = Map<Seq<char>, NodeRecordV>;

/// The model of a registry with no nodes.
pub open spec fn empty_model() -> RegistryModel {
    Map::empty()
}

/// Registration: unconditional insert-or-replace of the whole record, with
/// both instants set to `now`.
pub open spec fn spec_register(
    m: RegistryModel,
    node_id: Seq<char>,
    hostname: Seq<char>,
    agent_version: Seq<char>,
    ipv4: Option<Seq<char>>,
    now: int,
) -> RegistryModel {
    m.insert(
        node_id,
        NodeRecordV { hostname, agent_version, ipv4, registered_at: now, last_seen: now },
    )
}

/// Address update: if the id is known, its record gets the new address and
/// a fresh `last_seen`; an unknown id changes nothing.
pub open spec fn spec_update_address(
    m: RegistryModel,
    node_id: Seq<char>,
    ipv4: Option<Seq<char>>,
    now: int,
) -> RegistryModel {
    if m.contains_key(node_id) {
        m.insert(
            node_id,
            NodeRecordV {
                hostname: m[node_id].hostname,
                agent_version: m[node_id].agent_version,
                ipv4,
                registered_at: m[node_id].registered_at,
                last_seen: now,
            },
        )
    } else {
        m
    }
}

/// Heartbeat: if the id is known, only `last_seen` moves; an unknown id
/// changes nothing.
pub open spec fn spec_heartbeat(m: RegistryModel, node_id: Seq<char>, now: int) -> RegistryModel {
    if m.contains_key(node_id) {
        m.insert(
            node_id,
            NodeRecordV {
                hostname: m[node_id].hostname,
                agent_version: m[node_id].agent_version,
                ipv4: m[node_id].ipv4,
                registered_at: m[node_id].registered_at,
                last_seen: now,
            },
        )
    } else {
        m
    }
}

/// A node is online while less than `ONLINE_WINDOW_SECS` have passed since
/// its last contact; at exactly that age it is offline.
pub open spec fn online_at(last_seen: int, now: int) -> bool {
    now - last_seen < ONLINE_WINDOW_SECS
}

/// A node is stale once more than `STALE_AFTER_SECS` have passed since its
/// last contact.
pub open spec fn stale_at(last_seen: int, now: int) -> bool {
    now - last_seen > STALE_AFTER_SECS
}

/// The ids of the nodes of `m` that are online at `now`.
pub open spec fn online_ids(m: RegistryModel, now: int) -> Set<Seq<char>> {
    m.dom().filter(|k: Seq<char>| online_at(m[k].last_seen, now))
}

/// One row of the `list` snapshot.
pub struct AgentSummary {
    pub node_id: String,
    pub hostname: String,
    pub agent_version: String,
    pub ipv4: Option<String>,
    pub online: bool,
    pub registered_at: u64,
    pub last_seen_sec: u64,
}

/// The row `s` renders the record `rec`, held under `id`, as of `now`.
pub open spec fn summary_of(s: AgentSummary, id: Seq<char>, rec: NodeRecordV, now: int) -> bool {
    &&& s.node_id@ == id
    &&& s.hostname@ == rec.hostname
    &&& s.agent_version@ == rec.agent_version
    &&& s.ipv4.deep_view() == rec.ipv4
    &&& s.registered_at == rec.registered_at
    &&& s.online == online_at(rec.last_seen, now)
    &&& s.last_seen_sec == now - rec.last_seen
}

/// The rows `r` are a faithful snapshot of the model `m` as of `now`: one
/// row per node, in some order.
pub open spec fn summaries_list(r: Seq<AgentSummary>, m: RegistryModel, now: int) -> bool {
    &&& r.len() == m.dom().len()
    &&& forall|i: int|
        0 <= i < r.len() ==> m.contains_key(#[trigger] r[i].node_id@) && summary_of(
            r[i],
            r[i].node_id@,
            m[r[i].node_id@],
            now,
        )
    &&& forall|i: int, j: int| 0 <= i < j < r.len() ==> r[i].node_id@ != r[j].node_id@
    &&& forall|k: Seq<char>|
        m.contains_key(k) ==> exists|i: int| 0 <= i < r.len() && (#[trigger] r[i].node_id@) == k
}

/// The `stats` counts, as of one instant.
pub struct RegistryStats {
    pub total: usize,
    pub online: usize,
    pub offline: usize,
}

/// The pairs `r` name exactly the stale nodes of `m` as of `now`, each with
/// its staleness in seconds.
pub open spec fn stale_listing(r: Seq<(String, u64)>, m: RegistryModel, now: int) -> bool {
    &&& forall|i: int|
        0 <= i < r.len() ==> m.contains_key(#[trigger] r[i].0@) && stale_at(m[r[i].0@].last_seen, now)
            && r[i].1 == now - m[r[i].0@].last_seen
    &&& forall|i: int, j: int| 0 <= i < j < r.len() ==> r[i].0@ != r[j].0@
    &&& forall|k: Seq<char>|
        m.contains_key(k) && stale_at(m[k].last_seen, now) ==> exists|i: int|
            0 <= i < r.len() && (#[trigger] r[i].0@) == k
}

/// The ids among the first `n` entries whose node is online at `now`.
pub open spec fn prefix_online_ids(
    entries: Seq<(String, NodeRecord)>,
    m: RegistryModel,
    now: int,
    n: int,
) -> Set<Seq<char>> {
    Set::new(
        |k: Seq<char>|
            online_at(m[k].last_seen, now) && exists|j: int|
                0 <= j < n && (#[trigger] entries[j].0@) == k,
    )
}

/// The server-side registry of nodes, backed by a sharded concurrent map
/// so that operations on distinct ids do not contend.
pub struct NodeRegistry {
    nodes: dashmap::DashMap<String, NodeRecord>,
}

impl View for NodeRegistry {
    type V = RegistryModel;

    closed spec fn view(&self) -> RegistryModel {
        node_map_contents(self.nodes)
    }
}

impl NodeRegistry {
    /// A registry with no nodes.
    pub fn new() -> (r: Self)
        ensures
            r@ == empty_model(),
    {
        NodeRegistry { nodes: node_map_new() }
    }

    /// Unconditional insert-or-replace of the full record for `node_id`:
    /// last writer wins, both instants set to `now`.
    pub fn register(
        &mut self,
        node_id: String,
        hostname: String,
        agent_version: String,
        ipv4: Option<String>,
        now: u64,
    )
        ensures
            final(self)@ == spec_register(
                old(self)@,
                node_id@,
                hostname@,
                agent_version@,
                ipv4.deep_view(),
                now as int,
            ),
    {
        let record = NodeRecord { hostname, agent_version, ipv4, registered_at: now, last_seen: now };
        node_map_insert(&mut self.nodes, node_id, record);
    }

    /// The record held for `node_id`, if any.
    pub fn get(&self, node_id: &String) -> (r: Option<NodeRecord>)
        ensures
            match r {
                Some(rec) => self@.contains_key(node_id@) && rec@ == self@[node_id@],
                None => !self@.contains_key(node_id@),
            },
    {
        node_map_get(&self.nodes, node_id)
    }

    /// If `node_id` is registered, sets its address and refreshes
    /// `last_seen`; an unknown id changes nothing and the call reports it.
    /// Additions and removals run through this same path: the change kind
    /// is not recorded.
    pub fn update_address(
        &mut self,
        node_id: &String,
        ipv4: Option<String>,
        _kind: ChangeKind,
        now: u64,
    ) -> (applied: bool)
        requires
            old(self)@.contains_key(node_id@) ==> old(self)@[node_id@].last_seen <= now as int,
        ensures
            applied == old(self)@.contains_key(node_id@),
            final(self)@ == spec_update_address(old(self)@, node_id@, ipv4.deep_view(), now as int),
    {
        match node_map_get(&self.nodes, node_id) {
            Some(mut record) => {
                record.ipv4 = ipv4;
                record.last_seen = now;
                node_map_insert(&mut self.nodes, node_id.clone(), record);
                true
            },
            None => false,
        }
    }

    /// If `node_id` is registered, refreshes `last_seen`; an unknown id
    /// changes nothing and the call reports it.
    pub fn heartbeat(&mut self, node_id: &String, now: u64) -> (applied: bool)
        requires
            old(self)@.contains_key(node_id@) ==> old(self)@[node_id@].last_seen <= now as int,
        ensures
            applied == old(self)@.contains_key(node_id@),
            final(self)@ == spec_heartbeat(old(self)@, node_id@, now as int),
    {
        match node_map_get(&self.nodes, node_id) {
            Some(mut record) => {
                record.last_seen = now;
                node_map_insert(&mut self.nodes, node_id.clone(), record);
                true
            },
            None => false,
        }
    }

    /// A point-in-time snapshot of all records, each annotated with its
    /// derived liveness and its seconds since last contact.
    pub fn list(&self, now: u64) -> (r: Vec<AgentSummary>)
        requires
            forall|k: Seq<char>| self@.contains_key(k) ==> self@[k].last_seen <= now as int,
        ensures
            summaries_list(r@, self@, now as int),
    {
        let entries = node_map_entries(&self.nodes);
        let n = entries.len();
        let mut out: Vec<AgentSummary> = Vec::new();
        for i in 0..n
            invariant
                entries_list(entries@, self@),
                forall|k: Seq<char>| self@.contains_key(k) ==> self@[k].last_seen <= now as int,
                n == entries@.len(),
                out@.len() == i,
                forall|j: int|
                    0 <= j < i ==> (#[trigger] out@[j].node_id@) == entries@[j].0@ && summary_of(
                        out@[j],
                        out@[j].node_id@,
                        self@[out@[j].node_id@],
                        now as int,
                    ),
        {
            let id: &String = &entries[i].0;
            let rec: &NodeRecord = &entries[i].1;
            proof {
                assert(self@.contains_key(id@) && self@[id@] == rec@);
            }
            let last_seen_sec = now - rec.last_seen;
            let ipv4 = match &rec.ipv4 {
                Some(s) => Some(s.clone()),
                None => None,
            };
            out.push(
                AgentSummary {
                    node_id: id.clone(),
                    hostname: rec.hostname.clone(),
                    agent_version: rec.agent_version.clone(),
                    ipv4,
                    online: last_seen_sec < ONLINE_WINDOW_SECS,
                    registered_at: rec.registered_at,
                    last_seen_sec,
                },
            );
        }
        proof {
            assert forall|k: Seq<char>| self@.contains_key(k) implies exists|i: int|
                0 <= i < out@.len() && (#[trigger] out@[i].node_id@) == k by {
                let j = choose|j: int| 0 <= j < entries@.len() && (#[trigger] entries@[j].0@) == k;
                assert(out@[j].node_id@ == k);
            }
            assert(forall|i: int|
                0 <= i < out@.len() ==> self@.contains_key(#[trigger] out@[i].node_id@));
        }
        out
    }

    /// The totals as of `now`: how many nodes are registered, and how many
    /// of them are online and offline.
    pub fn stats(&self, now: u64) -> (r: RegistryStats)
        requires
            forall|k: Seq<char>| self@.contains_key(k) ==> self@[k].last_seen <= now as int,
        ensures
            r.total == self@.dom().len(),
            r.online == online_ids(self@, now as int).len(),
            r.offline == r.total - r.online,
            r.online <= r.total,
    {
        broadcast use vstd::set::axiom_set_insert_len;

        let entries = node_map_entries(&self.nodes);
        let ghost m = self@;
        let total = entries.len();
        let mut online_count: usize = 0;
        proof {
            assert(prefix_online_ids(entries@, m, now as int, 0) =~= Set::empty());
        }
        for i in 0..total
            invariant
                entries_list(entries@, m),
                m == self@,
                forall|k: Seq<char>| m.contains_key(k) ==> m[k].last_seen <= now as int,
                total == entries@.len(),
                online_count <= i,
                prefix_online_ids(entries@, m, now as int, i as int).finite(),
                online_count == prefix_online_ids(entries@, m, now as int, i as int).len(),
        {
            let ghost p_cur = prefix_online_ids(entries@, m, now as int, i as int);
            let ghost p_next = prefix_online_ids(entries@, m, now as int, i as int + 1);
            let ghost k = entries@[i as int].0@;
            let rec: &NodeRecord = &entries[i].1;
            proof {
                assert(m.contains_key(k) && m[k] == rec@);
            }
            let online = now - rec.last_seen < ONLINE_WINDOW_SECS;
            if online {
                proof {
                    assert(!p_cur.contains(k));
                    assert(p_next =~= p_cur.insert(k));
                }
                online_count += 1;
            } else {
                proof {
                    assert(p_next =~= p_cur);
                }
            }
        }
        proof {
            let p = prefix_online_ids(entries@, m, now as int, total as int);
            assert forall|k: Seq<char>| online_ids(m, now as int).contains(k) implies p.contains(
                k,
            ) by {
                let j = choose|j: int| 0 <= j < entries@.len() && (#[trigger] entries@[j].0@) == k;
            }
            assert(p =~= online_ids(m, now as int));
            vstd::set_lib::lemma_len_subset(online_ids(m, now as int), m.dom());
        }
        RegistryStats { total, online: online_count, offline: total - online_count }
    }

    /// The staleness sweep: a read-only scan naming every node whose last
    /// contact lies more than `STALE_AFTER_SECS` in the past, with its
    /// staleness in seconds.
    pub fn stale_nodes(&self, now: u64) -> (r: Vec<(String, u64)>)
        requires
            forall|k: Seq<char>| self@.contains_key(k) ==> self@[k].last_seen <= now as int,
        ensures
            stale_listing(r@, self@, now as int),
    {
        let entries = node_map_entries(&self.nodes);
        let n = entries.len();
        let mut out: Vec<(String, u64)> = Vec::new();
        for i in 0..n
            invariant
                entries_list(entries@, self@),
                forall|k: Seq<char>| self@.contains_key(k) ==> self@[k].last_seen <= now as int,
                n == entries@.len(),
                stale_sweep_inv(entries@, self@, now as int, i as int, out@),
        {
            let id: &String = &entries[i].0;
            let rec: &NodeRecord = &entries[i].1;
            proof {
                assert(self@.contains_key(id@) && self@[id@] == rec@);
            }
            let age = now - rec.last_seen;
            if age > STALE_AFTER_SECS {
                let row = (id.clone(), age);
                proof {
                    lemma_stale_sweep_push(entries@, self@, now as int, i as int, out@, row);
                }
                out.push(row);
            } else {
                proof {
                    lemma_stale_sweep_skip(entries@, self@, now as int, i as int, out@);
                }
            }
        }
        proof {
            lemma_stale_sweep_complete(entries@, self@, now as int, out@);
        }
        out
    }
}

/// The loop state of the staleness sweep: `out` lists exactly the stale
/// nodes among the first `n` entries, each once.
pub open spec fn stale_sweep_inv(
    entries: Seq<(String, NodeRecord)>,
    m: RegistryModel,
    now: int,
    n: int,
    out: Seq<(String, u64)>,
) -> bool {
    &&& forall|l: int|
        0 <= l < out.len() ==> m.contains_key(#[trigger] out[l].0@) && stale_at(
            m[out[l].0@].last_seen,
            now,
        ) && out[l].1 == now - m[out[l].0@].last_seen
    &&& forall|l: int|
        0 <= l < out.len() ==> exists|j: int| 0 <= j < n && (#[trigger] out[l].0@) == entries[j].0@
    &&& forall|l1: int, l2: int| 0 <= l1 < l2 < out.len() ==> out[l1].0@ != out[l2].0@
    &&& forall|j: int|
        0 <= j < n && stale_at(m[(#[trigger] entries[j].0@)].last_seen, now) ==> exists|l: int|
            0 <= l < out.len() && (#[trigger] entries[j].0@) == out[l].0@
}

/// Taking the stale entry at position `i` into the sweep's rows keeps the
/// sweep faithful through position `i`.
proof fn lemma_stale_sweep_push(
    entries: Seq<(String, NodeRecord)>,
    m: RegistryModel,
    now: int,
    i: int,
    out: Seq<(String, u64)>,
    row: (String, u64),
)
    requires
        entries_list(entries, m),
        0 <= i < entries.len(),
        stale_sweep_inv(entries, m, now, i, out),
        row.0@ == entries[i].0@,
        stale_at(m[row.0@].last_seen, now),
        row.1 == now - m[row.0@].last_seen,
    ensures
        stale_sweep_inv(entries, m, now, i + 1, out.push(row)),
{
    let grown = out.push(row);
    assert forall|l: int| 0 <= l < grown.len() implies exists|j: int|
        0 <= j < i + 1 && (#[trigger] grown[l].0@) == entries[j].0@ by {
        if l < out.len() {
            let j = choose|j: int| 0 <= j < i && (#[trigger] out[l].0@) == entries[j].0@;
            assert(grown[l].0@ == entries[j].0@);
        } else {
            assert(grown[l].0@ == entries[i].0@);
        }
    }
    assert forall|l1: int, l2: int| 0 <= l1 < l2 < grown.len() implies grown[l1].0@
        != grown[l2].0@ by {
        if l2 < out.len() {
            assert(out[l1].0@ != out[l2].0@);
        } else {
            let j = choose|j: int| 0 <= j < i && (#[trigger] out[l1].0@) == entries[j].0@;
            assert(entries[j].0@ != entries[i].0@);
        }
    }
    assert forall|j: int|
        0 <= j < i + 1 && stale_at(m[(#[trigger] entries[j].0@)].last_seen, now) implies exists|l: int|
        0 <= l < grown.len() && (#[trigger] entries[j].0@) == grown[l].0@ by {
        if j < i {
            let l = choose|l: int| 0 <= l < out.len() && (#[trigger] entries[j].0@) == out[l].0@;
            assert(entries[j].0@ == grown[l].0@);
        } else {
            assert(entries[j].0@ == grown[out.len() as int].0@);
        }
    }
}

/// Passing over the non-stale entry at position `i` keeps the sweep
/// faithful through position `i`.
proof fn lemma_stale_sweep_skip(
    entries: Seq<(String, NodeRecord)>,
    m: RegistryModel,
    now: int,
    i: int,
    out: Seq<(String, u64)>,
)
    requires
        entries_list(entries, m),
        0 <= i < entries.len(),
        stale_sweep_inv(entries, m, now, i, out),
        !stale_at(m[entries[i].0@].last_seen, now),
    ensures
        stale_sweep_inv(entries, m, now, i + 1, out),
{
    assert forall|l: int| 0 <= l < out.len() implies exists|j: int|
        0 <= j < i + 1 && (#[trigger] out[l].0@) == entries[j].0@ by {
        let j = choose|j: int| 0 <= j < i && (#[trigger] out[l].0@) == entries[j].0@;
    }
    assert forall|j: int|
        0 <= j < i + 1 && stale_at(m[(#[trigger] entries[j].0@)].last_seen, now) implies exists|l: int|
        0 <= l < out.len() && (#[trigger] entries[j].0@) == out[l].0@ by {
        assert(j != i);
    }
}

/// A sweep faithful through the whole listing names exactly the stale
/// nodes of the registry.
proof fn lemma_stale_sweep_complete(
    entries: Seq<(String, NodeRecord)>,
    m: RegistryModel,
    now: int,
    out: Seq<(String, u64)>,
)
    requires
        entries_list(entries, m),
        stale_sweep_inv(entries, m, now, entries.len() as int, out),
    ensures
        stale_listing(out, m, now),
{
    assert forall|k: Seq<char>|
        m.contains_key(k) && stale_at(m[k].last_seen, now) implies exists|l: int|
        0 <= l < out.len() && (#[trigger] out[l].0@) == k by {
        let j = choose|j: int| 0 <= j < entries.len() && (#[trigger] entries[j].0@) == k;
        assert(stale_at(m[entries[j].0@].last_seen, now));
        let l = choose|l: int| 0 <= l < out.len() && (#[trigger] entries[j].0@) == out[l].0@;
        assert(out[l].0@ == k);
    }
}

/// Law: registering a node and then updating its address leaves a record
/// holding the new address, last seen no earlier than its registration.
pub proof fn lemma_register_then_update(
    m: RegistryModel,
    node_id: Seq<char>,
    hostname: Seq<char>,
    agent_version: Seq<char>,
    ipv4: Option<Seq<char>>,
    now1: int,
    ipv4_later: Option<Seq<char>>,
    now2: int,
)
    requires
        now1 <= now2,
    ensures
        ({
            let m2 = spec_update_address(
                spec_register(m, node_id, hostname, agent_version, ipv4, now1),
                node_id,
                ipv4_later,
                now2,
            );
            &&& m2.contains_key(node_id)
            &&& m2[node_id].ipv4 == ipv4_later
            &&& m2[node_id].last_seen >= m2[node_id].registered_at
        }),
{
}

/// Law: an address update never creates a record: the set of registered
/// ids — and so the registry's cardinality — is unchanged, and for an
/// unregistered id the whole registry is unchanged.
pub proof fn lemma_update_never_creates(
    m: RegistryModel,
    node_id: Seq<char>,
    ipv4: Option<Seq<char>>,
    now: int,
)
    ensures
        spec_update_address(m, node_id, ipv4, now).dom() =~= m.dom(),
        !m.contains_key(node_id) ==> spec_update_address(m, node_id, ipv4, now) == m,
{
}

/// Law: a heartbeat never creates a record: the set of registered ids — and
/// so the registry's cardinality — is unchanged, and for an unregistered id
/// the whole registry is unchanged.
pub proof fn lemma_heartbeat_never_creates(m: RegistryModel, node_id: Seq<char>, now: int)
    ensures
        spec_heartbeat(m, node_id, now).dom() =~= m.dom(),
        !m.contains_key(node_id) ==> spec_heartbeat(m, node_id, now) == m,
{
}

/// Law: registrations of distinct ids are independent: applied in either
/// order, they leave the same registry. (That the backing map also lets
/// them run concurrently without blocking each other is a property of the
/// sharded structure, exercised under load rather than stated here.)
pub proof fn lemma_register_commutes(
    m: RegistryModel,
    id1: Seq<char>,
    hostname1: Seq<char>,
    version1: Seq<char>,
    ipv41: Option<Seq<char>>,
    now1: int,
    id2: Seq<char>,
    hostname2: Seq<char>,
    version2: Seq<char>,
    ipv42: Option<Seq<char>>,
    now2: int,
)
    requires
        id1 != id2,
    ensures
        spec_register(
            spec_register(m, id1, hostname1, version1, ipv41, now1),
            id2,
            hostname2,
            version2,
            ipv42,
            now2,
        ) =~= spec_register(
            spec_register(m, id2, hostname2, version2, ipv42, now2),
            id1,
            hostname1,
            version1,
            ipv41,
            now1,
        ),
{
}

/// Every record was last seen no earlier than it was registered.
pub open spec fn records_ordered(m: RegistryModel) -> bool {
    forall|k: Seq<char>|
        m.contains_key(k) ==> (#[trigger] m[k]).registered_at <= m[k].last_seen
}

/// Law: no transition moves a record's `last_seen` before its
/// `registered_at`: registration sets the two equal, and an update or
/// heartbeat driven by a clock that has not gone backwards only moves
/// `last_seen` forward.
pub proof fn lemma_transitions_keep_records_ordered(
    m: RegistryModel,
    node_id: Seq<char>,
    hostname: Seq<char>,
    agent_version: Seq<char>,
    ipv4: Option<Seq<char>>,
    now: int,
)
    requires
        records_ordered(m),
        m.contains_key(node_id) ==> m[node_id].last_seen <= now,
    ensures
        records_ordered(spec_register(m, node_id, hostname, agent_version, ipv4, now)),
        records_ordered(spec_update_address(m, node_id, ipv4, now)),
        records_ordered(spec_heartbeat(m, node_id, now)),
{
}

/// Law: a node is online strictly inside the window since its last
/// contact, and offline at exactly `ONLINE_WINDOW_SECS` past it.
pub proof fn lemma_online_window_boundary(last_seen: int)
    ensures
        !online_at(last_seen, last_seen + ONLINE_WINDOW_SECS),
        forall|now: int|
            last_seen <= now < last_seen + ONLINE_WINDOW_SECS ==> #[trigger] online_at(
                last_seen,
                now,
            ),
{
}

} // verus!
