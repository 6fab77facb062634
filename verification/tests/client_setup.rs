use sentiric_sip_b2bua_service::config::{AppConfig, EnvVars};
use sentiric_sip_b2bua_service::service::{endpoint_plan, plan_clients, ClientSetupError, InternalService};
use sentiric_sip_b2bua_service::store::CallStore;

fn config_with(user_url: Option<&str>, ca: &str) -> AppConfig {
    let s = |v: &str| Some(v.to_string());
    let vars = EnvVars {
        sbc_sip_target: s("sbc:5060"),
        sbc_public_ip: s("203.0.113.1"),
        node_ip: s("10.1.1.1"),
        media_service_url: s("https://media:13031"),
        registrar_service_url: s("http://reg:13061"),
        user_service_url: user_url.map(|u| u.to_string()),
        dialplan_service_url: s("https://dp:12021"),
        rabbitmq_url: s("amqp://mq"),
        redis_url: s("redis://r"),
        cert_path: s("/c.pem"),
        key_path: s("/k.pem"),
        ca_path: s(ca),
        tenant_id: s("tenant-a"),
        ..EnvVars::default()
    };
    AppConfig::load_from_env(&vars, "1").unwrap()
}

#[test]
fn endpoint_plans() {
    let p = endpoint_plan("https://media:13031").unwrap();
    assert!(p.tls);
    assert_eq!(p.uri.host(), Some("media"));
    assert_eq!(p.uri.port_u16(), Some(13031));
    let q = endpoint_plan("http://reg:13061").unwrap();
    assert!(!q.tls);
    assert!(endpoint_plan("").is_none());
    assert!(endpoint_plan("http://bad host").is_none());
}

#[test]
fn empty_user_url_refuses_client_setup() {
    let c = config_with(None, "/ca.pem");
    assert_eq!(plan_clients(&c).err(), Some(ClientSetupError::InvalidUrl(InternalService::User)));
}

#[test]
fn missing_ca_is_refused_before_urls() {
    let c = config_with(None, "");
    assert_eq!(plan_clients(&c).err(), Some(ClientSetupError::CaPathMissing));
}

#[test]
fn good_configuration_gives_all_endpoints() {
    let c = config_with(Some("https://user:13011"), "/ca.pem");
    let plan = plan_clients(&c).ok().unwrap();
    assert!(plan.media.tls);
    assert!(!plan.registrar.tls);
    assert!(plan.user.tls);
    assert!(plan.dialplan.tls);
    assert_eq!(plan.user.uri.host(), Some("user"));
}

#[test]
fn backup_client_needs_a_redis_url() {
    assert!(CallStore::backup_client("").is_none());
    assert!(CallStore::backup_client("http://r").is_none());
    assert!(CallStore::backup_client("redis://r:6379").is_some());
}
