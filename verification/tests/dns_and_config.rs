use piwatch::agent_config;
use piwatch::dns_sync::{DnsSyncClient, SessionReply, SyncError, SyncStep};
use piwatch::dto::{change_kind_event, parse_change_kind};
use piwatch::parse::parse_u16;
use piwatch::server_config;
use piwatch::watcher::ChangeKind;

fn client_with_sid(sid: &str) -> DnsSyncClient {
    let mut c = DnsSyncClient::new("http://pi.hole".to_string(), "secret".to_string());
    let step = c.on_session_result(SessionReply::Granted {
        valid: true,
        sid: Some(sid.to_string()),
    });
    assert_eq!(step, SyncStep::PutRecord);
    c
}

#[test]
fn valid_probe_creates_no_session() {
    let c = client_with_sid("s1");
    assert_eq!(c.start_upsert(), SyncStep::Probe);
    assert_eq!(c.on_probe_result(true), SyncStep::PutRecord);
    assert_eq!(c.on_put_result(Some(200)), SyncStep::Done);
    assert_eq!(c.current_sid().as_deref(), Some("s1"));
}

#[test]
fn invalid_probe_creates_one_session() {
    let mut c = client_with_sid("s1");
    assert_eq!(c.start_upsert(), SyncStep::Probe);
    assert_eq!(c.on_probe_result(false), SyncStep::CreateSession);
    let step = c.on_session_result(SessionReply::Granted {
        valid: true,
        sid: Some("s2".to_string()),
    });
    assert_eq!(step, SyncStep::PutRecord);
    assert_eq!(c.current_sid().as_deref(), Some("s2"));
    assert_eq!(c.on_put_result(Some(204)), SyncStep::Done);
}

#[test]
fn no_session_starts_with_create() {
    let c = DnsSyncClient::new("http://pi.hole".to_string(), "secret".to_string());
    assert_eq!(c.start_upsert(), SyncStep::CreateSession);
    assert_eq!(c.current_sid(), None);
}

#[test]
fn rejected_session_aborts_and_keeps_sid() {
    let mut c = client_with_sid("s1");
    let rejected = c.on_session_result(SessionReply::Granted { valid: false, sid: None });
    assert_eq!(rejected, SyncStep::Failed(SyncError::AuthenticationFailure));
    assert_eq!(c.current_sid().as_deref(), Some("s1"));
    let missing_sid = c.on_session_result(SessionReply::Granted { valid: true, sid: None });
    assert_eq!(missing_sid, SyncStep::Failed(SyncError::AuthenticationFailure));
    let no_answer = c.on_session_result(SessionReply::Failed);
    assert_eq!(no_answer, SyncStep::Failed(SyncError::AuthenticationFailure));
    assert_eq!(c.current_sid().as_deref(), Some("s1"));
}

#[test]
fn put_outcome_maps_to_result() {
    let c = client_with_sid("s1");
    assert_eq!(c.on_put_result(Some(299)), SyncStep::Done);
    assert_eq!(c.on_put_result(Some(300)),
        SyncStep::Failed(SyncError::UpstreamHttpError(300)));
    assert_eq!(c.on_put_result(Some(404)),
        SyncStep::Failed(SyncError::UpstreamHttpError(404)));
    assert_eq!(c.on_put_result(None), SyncStep::Failed(SyncError::TransportError));
}

#[test]
fn upstream_urls() {
    let c = DnsSyncClient::new("http://pi.hole".to_string(), "secret".to_string());
    assert_eq!(c.auth_url(), "http://pi.hole/api/auth");
    assert_eq!(c.sessions_url(), "http://pi.hole/api/auth/sessions");
}

#[test]
fn host_record_url_encodes_the_pair() {
    let c = DnsSyncClient::new("http://pi.hole".to_string(), "secret".to_string());
    assert_eq!(c.host_record_url("10.0.0.5", "host1"),
        "http://pi.hole/api/config/dns/hosts/10.0.0.5+host1");
    assert_eq!(c.host_record_url("1.2.3.4", "a/b"),
        "http://pi.hole/api/config/dns/hosts/1.2.3.4+a%2Fb");
}

#[test]
fn parse_u16_accepts_plain_decimals() {
    assert_eq!(parse_u16("8888"), Some(8888));
    assert_eq!(parse_u16("0"), Some(0));
    assert_eq!(parse_u16("+80"), Some(80));
    assert_eq!(parse_u16("0070"), Some(70));
    assert_eq!(parse_u16("65535"), Some(65535));
}

#[test]
fn parse_u16_rejects_everything_else() {
    assert_eq!(parse_u16(""), None);
    assert_eq!(parse_u16("+"), None);
    assert_eq!(parse_u16("65536"), None);
    assert_eq!(parse_u16("99999999"), None);
    assert_eq!(parse_u16("12a"), None);
    assert_eq!(parse_u16("-1"), None);
    assert_eq!(parse_u16(" 80"), None);
}

#[test]
fn agent_config_prefers_environment() {
    let loaded = agent_config::load_config(Some("http://server:8080".to_string()), None, None,
        None).expect("environment values must win");
    assert_eq!(loaded.piwatch_server_url, "http://server:8080");
    assert_eq!(loaded.listening_interface, "eth0");
    assert_eq!(loaded.bind_port, 8887);
}

#[test]
fn agent_config_reads_port_and_interface() {
    let loaded = agent_config::load_config(Some("u".to_string()), Some("wlan0".to_string()),
        Some("9000".to_string()), None).unwrap();
    assert_eq!(loaded.listening_interface, "wlan0");
    assert_eq!(loaded.bind_port, 9000);
}

#[test]
fn agent_config_bad_port_falls_back_to_file() {
    let file = agent_config::Config {
        piwatch_server_url: "http://real".to_string(),
        listening_interface: "eth1".to_string(),
        bind_port: 1,
    };
    let loaded = agent_config::load_config(Some("u".to_string()), None,
        Some("no-number".to_string()), Some(file)).unwrap();
    assert_eq!(loaded.piwatch_server_url, "http://real");
}

#[test]
fn agent_config_rejects_placeholder_file() {
    let file = <agent_config::Config as Default>::default();
    let err = agent_config::load_config(None, None, None, Some(file)).unwrap_err();
    assert_eq!(err, agent_config::ConfigError::PlaceholderConfig);
}

#[test]
fn agent_config_asks_for_a_file() {
    let err = agent_config::load_config(None, None, None, None).unwrap_err();
    assert_eq!(err, agent_config::ConfigError::MissingConfigFile);
}

#[test]
fn server_config_needs_url_and_pass() {
    let loaded = server_config::load_config(Some("http://pi.hole".to_string()),
        Some("pw".to_string()), None, None).unwrap();
    assert_eq!(loaded.pihole_url, "http://pi.hole");
    assert_eq!(loaded.pihole_pass, "pw");
    assert_eq!(loaded.bind_port, 8888);
    let err = server_config::load_config(Some("http://pi.hole".to_string()), None, None, None)
        .unwrap_err();
    assert_eq!(err, server_config::ConfigError::MissingConfigFile);
}

#[test]
fn server_config_rejects_placeholder_file() {
    let mut file = <server_config::Config as Default>::default();
    file.pihole_url = "http://real".to_string();
    let err = server_config::load_config(None, None, None, Some(file)).unwrap_err();
    assert_eq!(err, server_config::ConfigError::PlaceholderConfig);
    let good = server_config::Config {
        pihole_url: "http://real".to_string(),
        pihole_pass: "pw".to_string(),
        bind_port: 8080,
    };
    let loaded = server_config::load_config(None, None, None, Some(good)).unwrap();
    assert_eq!(loaded.bind_port, 8080);
}

#[test]
fn change_kind_round_trips_on_the_wire() {
    assert_eq!(parse_change_kind("add"), Some(ChangeKind::Add));
    assert_eq!(parse_change_kind("del"), Some(ChangeKind::Del));
    assert_eq!(parse_change_kind("ADD"), None);
    assert_eq!(parse_change_kind(""), None);
    assert_eq!(parse_change_kind(change_kind_event(ChangeKind::Add)), Some(ChangeKind::Add));
    assert_eq!(parse_change_kind(change_kind_event(ChangeKind::Del)), Some(ChangeKind::Del));
}
