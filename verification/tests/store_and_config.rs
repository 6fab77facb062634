use sentiric_sip_b2bua_service::config::{AppConfig, ConfigError, EnvVars, RequiredVar};
use sentiric_sip_b2bua_service::store::{
    backup_key, Backup, CallSession, CallSessionData, CallState, CallStore, IpAddress,
    SocketAddress, BACKUP_TTL_SECS,
};

fn data(id: &str) -> CallSessionData {
    CallSessionData {
        call_id: id.to_string(),
        state: CallState::Trying,
        from_uri: "<sip:a@x>".to_string(),
        to_uri: "<sip:b@y>".to_string(),
        rtp_port: 30000,
        local_tag: "l".to_string(),
        caller_tag: "c".to_string(),
        client_contact: "<sip:a@1.2.3.4>".to_string(),
        proxy_addr: SocketAddress { ip: IpAddress::V6(0, 0, 0, 0, 0, 0, 0, 1), port: 5060 },
    }
}

#[test]
fn read_after_insert() {
    let mut s = CallStore::new();
    assert!(s.get("a").is_none());
    match s.insert(CallSession::new(data("a"))) {
        Backup::Store { key, ttl_secs, data } => {
            assert_eq!(key, "b2bua:call:a");
            assert_eq!(ttl_secs, 86400);
            assert_eq!(ttl_secs, BACKUP_TTL_SECS);
            assert_eq!(data.call_id, "a");
        }
        other => panic!("unexpected {:?}", other),
    }
    let got = s.get("a").unwrap();
    assert_eq!(got.data.call_id, "a");
    assert_eq!(got.data.rtp_port, 30000);
    assert!(s.get("b").is_none());
}

#[test]
fn insert_replaces_and_keeps_others() {
    let mut s = CallStore::new();
    s.insert(CallSession::new(data("a")));
    s.insert(CallSession::new(data("b")));
    let mut d = data("a");
    d.rtp_port = 31000;
    s.insert(CallSession::new(d));
    assert_eq!(s.get("a").unwrap().data.rtp_port, 31000);
    assert_eq!(s.get("b").unwrap().data.rtp_port, 30000);
}

#[test]
fn remove_takes_out_and_forgets_cancel() {
    let mut s = CallStore::new();
    s.insert(CallSession::new(data("a")));
    s.mark_early_cancelled("a");
    assert!(s.is_early_cancelled("a"));
    let (removed, backup) = s.remove("a");
    assert_eq!(removed.unwrap().data.call_id, "a");
    match backup {
        Backup::Delete { key } => assert_eq!(key, "b2bua:call:a"),
        other => panic!("unexpected {:?}", other),
    }
    assert!(s.get("a").is_none());
    assert!(!s.is_early_cancelled("a"));
    let (removed, _) = s.remove("a");
    assert!(removed.is_none());
}

#[test]
fn invite_claimed_once() {
    let mut s = CallStore::new();
    assert!(s.try_lock_invite("x"));
    assert!(!s.try_lock_invite("x"));
    assert!(s.try_lock_invite("y"));
    s.unlock_invite("x");
    assert!(s.try_lock_invite("x"));
}

#[test]
fn update_state_only_existing() {
    let mut s = CallStore::new();
    assert!(matches!(s.update_state("a", CallState::Established), Backup::Nothing));
    assert!(s.get("a").is_none());
    s.insert(CallSession::new(data("a")));
    match s.update_state("a", CallState::Established) {
        Backup::Store { key, data, .. } => {
            assert_eq!(key, "b2bua:call:a");
            assert_eq!(data.state, CallState::Established);
        }
        other => panic!("unexpected {:?}", other),
    }
    let got = s.get("a").unwrap();
    assert_eq!(got.data.state, CallState::Established);
    assert_eq!(got.data.local_tag, "l");
}

#[test]
fn restore_from_backup() {
    let mut s = CallStore::new();
    let r = s.restore("k", data("k"));
    assert_eq!(r.data.call_id, "k");
    assert_eq!(s.get("k").unwrap().data.caller_tag, "c");
    assert_eq!(backup_key("k"), "b2bua:call:k");
}

fn full_env() -> EnvVars {
    let s = |v: &str| Some(v.to_string());
    EnvVars {
        sbc_sip_target: s("sbc:5060"),
        sbc_public_ip: s("203.0.113.1"),
        node_ip: s("10.1.1.1"),
        media_service_url: s("https://media:13031"),
        registrar_service_url: s("https://reg:13061"),
        dialplan_service_url: s("https://dp:12021"),
        rabbitmq_url: s("amqp://mq"),
        redis_url: s("redis://r"),
        cert_path: s("/c.pem"),
        key_path: s("/k.pem"),
        ca_path: s("/ca.pem"),
        tenant_id: s("tenant-a"),
        ..EnvVars::default()
    }
}

#[test]
fn config_defaults() {
    let c = AppConfig::load_from_env(&full_env(), "1.2.3").unwrap();
    assert_eq!(c.grpc_listen_port, 13081);
    assert_eq!(c.http_listen_port, 13080);
    assert_eq!(c.sip_port, 13084);
    assert_eq!(c.sip_bind_ip, "0.0.0.0");
    assert_eq!(c.proxy_sip_addr, "sip-proxy-service:13074");
    assert_eq!(c.public_sip_port, 5060);
    assert_eq!(c.proxy_service_url, "");
    assert_eq!(c.user_service_url, "");
    assert_eq!(c.sip_realm, "sentiric_demo");
    assert_eq!(c.env, "production");
    assert_eq!(c.rust_log, "info");
    assert_eq!(c.log_format, "json");
    assert_eq!(c.node_hostname, "localhost");
    assert_eq!(c.service_version, "1.2.3");
    assert_eq!(c.public_ip, "10.1.1.1");
    assert_eq!(c.tenant_id, "tenant-a");
}

#[test]
fn config_values_and_errors() {
    let mut e = full_env();
    e.sip_port = Some("+5070".to_string());
    e.grpc_port = Some("9000".to_string());
    e.sbc_advertised_port = Some("nope".to_string());
    let c = AppConfig::load_from_env(&e, "v").unwrap();
    assert_eq!(c.sip_port, 5070);
    assert_eq!(c.grpc_listen_port, 9000);
    assert_eq!(c.public_sip_port, 5060);

    let mut e = full_env();
    e.sip_port = Some("x".to_string());
    e.node_ip = None;
    assert_eq!(AppConfig::load_from_env(&e, "v").unwrap_err(), ConfigError::InvalidSipPort);

    let mut e = full_env();
    e.grpc_port = Some("+80".to_string());
    assert_eq!(AppConfig::load_from_env(&e, "v").unwrap_err(), ConfigError::InvalidGrpcAddress);

    let mut e = full_env();
    e.http_port = Some("99999".to_string());
    assert_eq!(AppConfig::load_from_env(&e, "v").unwrap_err(), ConfigError::InvalidHttpAddress);

    let mut e = full_env();
    e.node_ip = None;
    e.redis_url = None;
    assert_eq!(
        AppConfig::load_from_env(&e, "v").unwrap_err(),
        ConfigError::Missing(RequiredVar::NodeIp)
    );
    assert_eq!(RequiredVar::NodeIp.name(), "NODE_IP");

    let mut e = full_env();
    e.tenant_id = None;
    assert_eq!(
        AppConfig::load_from_env(&e, "v").unwrap_err(),
        ConfigError::Missing(RequiredVar::TenantId)
    );
}

#[test]
fn get_or_restore_prefers_memory() {
    let mut s = CallStore::new();
    assert!(s.get_or_restore("m", None).is_none());
    assert!(s.get("m").is_none());
    let r = s.get_or_restore("m", Some(data("m"))).unwrap();
    assert_eq!(r.data.call_id, "m");
    assert_eq!(s.get("m").unwrap().data.rtp_port, 30000);
    let mut other = data("m");
    other.rtp_port = 1;
    assert_eq!(s.get_or_restore("m", Some(other)).unwrap().data.rtp_port, 30000);
}

#[test]
fn marks_and_sessions_last_until_removed() {
    let mut s = CallStore::new();
    s.insert(CallSession::new(data("a")));
    s.mark_early_cancelled("a");
    s.insert(CallSession::new(data("b")));
    s.try_lock_invite("a");
    s.unlock_invite("a");
    s.update_state("b", CallState::Established);
    let _ = s.remove("b");
    assert!(s.is_early_cancelled("a"));
    assert_eq!(s.get("a").unwrap().data.state, CallState::Trying);
    let _ = s.remove("a");
    s.insert(CallSession::new(data("a")));
    assert!(!s.is_early_cancelled("a"));
}
