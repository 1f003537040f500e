use piwatch::ipv4::{ipv4_string, Ipv4};
use piwatch::watcher::{extract_ipv4, initial_ipv4, AddrAttr, AddressInfo, AddressWatcher,
    ChangeKind, Report, RouteNotification};

fn ip(a: u8, b: u8, c: u8, d: u8) -> Ipv4 {
    Ipv4 { a, b, c, d }
}

fn new_addr(index: u32, attrs: Vec<AddrAttr>) -> RouteNotification {
    RouteNotification::NewAddress(AddressInfo { link_index: index, attrs })
}

fn del_addr(index: u32, attrs: Vec<AddrAttr>) -> RouteNotification {
    RouteNotification::DelAddress(AddressInfo { link_index: index, attrs })
}

#[test]
fn extract_ipv4_picks_first_v4() {
    let attrs = vec![AddrAttr::Other, AddrAttr::Ipv4(ip(1, 2, 3, 4)), AddrAttr::Ipv4(ip(5, 6, 7, 8))];
    assert_eq!(extract_ipv4(&attrs), Some(ip(1, 2, 3, 4)));
}

#[test]
fn extract_ipv4_skips_non_v4() {
    let attrs = vec![AddrAttr::Other, AddrAttr::Other];
    assert_eq!(extract_ipv4(&attrs), None);
    assert_eq!(extract_ipv4(&Vec::new()), None);
}

#[test]
fn initial_ipv4_respects_interface() {
    let entries = vec![
        AddressInfo { link_index: 7, attrs: vec![AddrAttr::Ipv4(ip(9, 9, 9, 9))] },
        AddressInfo { link_index: 3, attrs: vec![AddrAttr::Other] },
        AddressInfo { link_index: 3, attrs: vec![AddrAttr::Ipv4(ip(10, 0, 0, 5))] },
    ];
    assert_eq!(initial_ipv4(&entries, 3), Some(ip(10, 0, 0, 5)));
    assert_eq!(initial_ipv4(&entries, 5), None);
}

#[test]
fn consecutive_same_ip_reports_once() {
    let mut w = AddressWatcher::new(3);
    let first = w.step(&new_addr(3, vec![AddrAttr::Ipv4(ip(10, 0, 0, 5))]));
    assert_eq!(first, Some(Report { ipv4: ip(10, 0, 0, 5), kind: ChangeKind::Add }));
    let second = w.step(&new_addr(3, vec![AddrAttr::Ipv4(ip(10, 0, 0, 5))]));
    assert_eq!(second, None);
    let third = w.step(&del_addr(3, vec![AddrAttr::Ipv4(ip(10, 0, 0, 5))]));
    assert_eq!(third, None);
}

#[test]
fn changed_ip_reports_again() {
    let mut w = AddressWatcher::new(3);
    assert!(w.step(&new_addr(3, vec![AddrAttr::Ipv4(ip(10, 0, 0, 5))])).is_some());
    let changed = w.step(&new_addr(3, vec![AddrAttr::Ipv4(ip(10, 0, 0, 6))]));
    assert_eq!(changed, Some(Report { ipv4: ip(10, 0, 0, 6), kind: ChangeKind::Add }));
}

#[test]
fn del_event_carries_del_kind() {
    let mut w = AddressWatcher::new(3);
    let r = w.step(&del_addr(3, vec![AddrAttr::Ipv4(ip(10, 0, 0, 5))]));
    assert_eq!(r, Some(Report { ipv4: ip(10, 0, 0, 5), kind: ChangeKind::Del }));
}

#[test]
fn other_interface_is_discarded() {
    let mut w = AddressWatcher::new(3);
    assert_eq!(w.step(&new_addr(4, vec![AddrAttr::Ipv4(ip(10, 0, 0, 5))])), None);
    assert_eq!(w.step(&RouteNotification::Other), None);
    assert_eq!(w.step(&new_addr(3, vec![AddrAttr::Other])), None);
}

#[test]
fn ipv4_string_renders_dotted_decimal() {
    assert_eq!(ipv4_string(&ip(10, 0, 0, 5)), "10.0.0.5");
    assert_eq!(ipv4_string(&ip(192, 168, 129, 33)), "192.168.129.33");
    assert_eq!(ipv4_string(&ip(255, 255, 255, 255)), "255.255.255.255");
    assert_eq!(ipv4_string(&ip(0, 0, 0, 0)), "0.0.0.0");
}
