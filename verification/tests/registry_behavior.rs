use piwatch::registry::{AgentSummary, NodeRegistry};
use piwatch::watcher::ChangeKind;

fn find<'a>(rows: &'a [AgentSummary], node_id: &str) -> Option<&'a AgentSummary> {
    rows.iter().find(|r| r.node_id == node_id)
}

#[test]
fn register_then_update_address() {
    let mut reg = NodeRegistry::new();
    reg.register("n1".to_string(), "host1".to_string(), "1.0.0".to_string(),
        Some("10.0.0.5".to_string()), 100);
    let applied = reg.update_address(&"n1".to_string(), Some("10.0.0.9".to_string()),
        ChangeKind::Add, 150);
    assert!(applied);
    let rows = reg.list(150);
    let n1 = find(&rows, "n1").expect("n1 must be listed");
    assert_eq!(n1.ipv4.as_deref(), Some("10.0.0.9"));
    assert_eq!(n1.registered_at, 100);
    assert_eq!(n1.last_seen_sec, 0);
    assert!(n1.online);
}

#[test]
fn listed_after_register() {
    let mut reg = NodeRegistry::new();
    reg.register("n1".to_string(), "host1".to_string(), "1.0.0".to_string(),
        Some("10.0.0.5".to_string()), 10);
    let rows = reg.list(10);
    assert_eq!(rows.len(), 1);
    let n1 = find(&rows, "n1").expect("n1 must be listed");
    assert_eq!(n1.hostname, "host1");
    assert_eq!(n1.agent_version, "1.0.0");
    assert_eq!(n1.ipv4.as_deref(), Some("10.0.0.5"));
    assert!(n1.online);
}

#[test]
fn update_of_unknown_id_creates_nothing() {
    let mut reg = NodeRegistry::new();
    reg.register("n1".to_string(), "host1".to_string(), "1.0.0".to_string(), None, 10);
    let applied = reg.update_address(&"n2".to_string(), Some("10.0.0.9".to_string()),
        ChangeKind::Add, 20);
    assert!(!applied);
    let rows = reg.list(20);
    assert_eq!(rows.len(), 1);
    assert!(find(&rows, "n2").is_none());
}

#[test]
fn heartbeat_of_unknown_id_creates_nothing() {
    let mut reg = NodeRegistry::new();
    let applied = reg.heartbeat(&"ghost".to_string(), 5);
    assert!(!applied);
    assert_eq!(reg.list(5).len(), 0);
    let s = reg.stats(5);
    assert_eq!(s.total, 0);
    assert_eq!(s.online, 0);
    assert_eq!(s.offline, 0);
}

#[test]
fn heartbeat_refreshes_last_seen() {
    let mut reg = NodeRegistry::new();
    reg.register("n1".to_string(), "host1".to_string(), "1.0.0".to_string(), None, 0);
    assert!(reg.heartbeat(&"n1".to_string(), 200));
    let rows = reg.list(200);
    let n1 = find(&rows, "n1").unwrap();
    assert_eq!(n1.last_seen_sec, 0);
    assert!(n1.online);
}

#[test]
fn online_flips_exactly_at_the_window() {
    let mut reg = NodeRegistry::new();
    reg.register("n1".to_string(), "host1".to_string(), "1.0.0".to_string(), None, 0);
    let just_inside = find(&reg.list(119), "n1").unwrap().online;
    assert!(just_inside);
    let at_boundary = find(&reg.list(120), "n1").unwrap().online;
    assert!(!at_boundary);
}

#[test]
fn register_replaces_whole_record() {
    let mut reg = NodeRegistry::new();
    reg.register("n1".to_string(), "host1".to_string(), "1.0.0".to_string(),
        Some("10.0.0.5".to_string()), 10);
    reg.register("n1".to_string(), "host9".to_string(), "2.0.0".to_string(), None, 40);
    let rows = reg.list(40);
    assert_eq!(rows.len(), 1);
    let n1 = find(&rows, "n1").unwrap();
    assert_eq!(n1.hostname, "host9");
    assert_eq!(n1.agent_version, "2.0.0");
    assert_eq!(n1.ipv4, None);
    assert_eq!(n1.registered_at, 40);
}

#[test]
fn distinct_ids_both_registered() {
    let mut reg = NodeRegistry::new();
    reg.register("n1".to_string(), "host1".to_string(), "1.0.0".to_string(), None, 0);
    reg.register("n2".to_string(), "host2".to_string(), "1.0.0".to_string(), None, 0);
    let rows = reg.list(0);
    assert_eq!(rows.len(), 2);
    assert!(find(&rows, "n1").is_some());
    assert!(find(&rows, "n2").is_some());
}

#[test]
fn stats_counts_online_and_offline() {
    let mut reg = NodeRegistry::new();
    reg.register("fresh".to_string(), "a".to_string(), "1".to_string(), None, 500);
    reg.register("old".to_string(), "b".to_string(), "1".to_string(), None, 100);
    reg.register("older".to_string(), "c".to_string(), "1".to_string(), None, 0);
    let s = reg.stats(500);
    assert_eq!(s.total, 3);
    assert_eq!(s.online, 1);
    assert_eq!(s.offline, 2);
}

#[test]
fn stale_sweep_flags_only_past_the_threshold() {
    let mut reg = NodeRegistry::new();
    reg.register("quiet".to_string(), "a".to_string(), "1".to_string(), None, 0);
    reg.register("chatty".to_string(), "b".to_string(), "1".to_string(), None, 200);
    let at_threshold = reg.stale_nodes(300);
    assert_eq!(at_threshold.len(), 0);
    let past = reg.stale_nodes(301);
    assert_eq!(past.len(), 1);
    assert_eq!(past[0].0, "quiet");
    assert_eq!(past[0].1, 301);
}
