//! Service settings, read from the process environment.
use vstd::prelude::*;
use crate::text::{all_digits, chars_of, digits_value, parse_u16, parse_u16_in};

verus! {

/// The values of the environment variables that the service reads; `None`
/// where a variable is unset or not valid Unicode.
#[derive(Debug, Default)]
pub struct EnvVars {
    pub grpc_port: Option<String>,
    pub http_port: Option<String>,
    pub sip_port: Option<String>,
    pub proxy_sip_target: Option<String>,
    pub sbc_sip_target: Option<String>,
    pub sbc_public_ip: Option<String>,
    pub sbc_advertised_port: Option<String>,
    pub node_ip: Option<String>,
    pub media_service_url: Option<String>,
    pub proxy_service_url: Option<String>,
    pub registrar_service_url: Option<String>,
    pub user_service_url: Option<String>,
    pub dialplan_service_url: Option<String>,
    pub rabbitmq_url: Option<String>,
    pub redis_url: Option<String>,
    pub sip_realm: Option<String>,
    pub env: Option<String>,
    pub rust_log: Option<String>,
    pub log_format: Option<String>,
    pub node_hostname: Option<String>,
    pub cert_path: Option<String>,
    pub key_path: Option<String>,
    pub ca_path: Option<String>,
    pub tenant_id: Option<String>,
}

/// A variable that must be set.
#[derive(Debug, Clone, Copy, PartialEq, Eq, Structural)]
pub enum RequiredVar {
    SbcSipTarget,
    SbcPublicIp,
    NodeIp,
    MediaServiceUrl,
    RegistrarServiceUrl,
    DialplanServiceUrl,
    RabbitmqUrl,
    RedisUrl,
    CertPath,
    KeyPath,
    CaPath,
    TenantId,
}

/// The name in the environment of a variable that must be set.
pub open spec fn required_var_name(v: RequiredVar) -> Seq<char> {
    match v {
        RequiredVar::SbcSipTarget => "SIP_SBC_SERVICE_SIP_TARGET"@,
        RequiredVar::SbcPublicIp => "SIP_SBC_SERVICE_PUBLIC_IP"@,
        RequiredVar::NodeIp => "NODE_IP"@,
        RequiredVar::MediaServiceUrl => "MEDIA_SERVICE_TARGET_GRPC_URL"@,
        RequiredVar::RegistrarServiceUrl => "SIP_REGISTRAR_SERVICE_TARGET_GRPC_URL"@,
        RequiredVar::DialplanServiceUrl => "DIALPLAN_SERVICE_TARGET_GRPC_URL"@,
        RequiredVar::RabbitmqUrl => "RABBITMQ_URL"@,
        RequiredVar::RedisUrl => "REDIS_URL"@,
        RequiredVar::CertPath => "SIP_B2BUA_SERVICE_CERT_PATH"@,
        RequiredVar::KeyPath => "SIP_B2BUA_SERVICE_KEY_PATH"@,
        RequiredVar::CaPath => "GRPC_TLS_CA_PATH"@,
        RequiredVar::TenantId => "TENANT_ID"@,
    }
}

impl RequiredVar {
    /// The variable's name in the environment.
    pub fn name(&self) -> (n: &'static str)
        ensures
            n@ == required_var_name(*self),
    {
        match self {
            RequiredVar::SbcSipTarget => "SIP_SBC_SERVICE_SIP_TARGET",
            RequiredVar::SbcPublicIp => "SIP_SBC_SERVICE_PUBLIC_IP",
            RequiredVar::NodeIp => "NODE_IP",
            RequiredVar::MediaServiceUrl => "MEDIA_SERVICE_TARGET_GRPC_URL",
            RequiredVar::RegistrarServiceUrl => "SIP_REGISTRAR_SERVICE_TARGET_GRPC_URL",
            RequiredVar::DialplanServiceUrl => "DIALPLAN_SERVICE_TARGET_GRPC_URL",
            RequiredVar::RabbitmqUrl => "RABBITMQ_URL",
            RequiredVar::RedisUrl => "REDIS_URL",
            RequiredVar::CertPath => "SIP_B2BUA_SERVICE_CERT_PATH",
            RequiredVar::KeyPath => "SIP_B2BUA_SERVICE_KEY_PATH",
            RequiredVar::CaPath => "GRPC_TLS_CA_PATH",
            RequiredVar::TenantId => "TENANT_ID",
        }
    }
}

/// Why the settings could not be read.
#[derive(Debug, Clone, Copy, PartialEq, Eq, Structural)]
pub enum ConfigError {
    /// The SIP port is not a 16-bit number.
    InvalidSipPort,
    /// The gRPC port does not make a listen address.
    InvalidGrpcAddress,
    /// The HTTP port does not make a listen address.
    InvalidHttpAddress,
    /// A variable that must be set is not.
    Missing(RequiredVar),
}

/// The service settings.
#[derive(Debug, Clone)]
pub struct AppConfig {
    /// Port of the gRPC listen address `[::]:port`.
    pub grpc_listen_port: u16,
    /// Port of the HTTP listen address `[::]:port`.
    pub http_listen_port: u16,
    pub sip_bind_ip: String,
    pub sip_port: u16,
    pub media_service_url: String,
    pub proxy_service_url: String,
    pub registrar_service_url: String,
    pub user_service_url: String,
    pub dialplan_service_url: String,
    pub rabbitmq_url: String,
    pub redis_url: String,
    pub proxy_sip_addr: String,
    pub sbc_sip_addr: String,
    pub sbc_public_ip: String,
    pub public_ip: String,
    pub sip_realm: String,
    pub public_sip_port: u16,
    pub env: String,
    pub rust_log: String,
    pub log_format: String,
    pub service_version: String,
    pub node_hostname: String,
    pub cert_path: String,
    pub key_path: String,
    pub ca_path: String,
    pub tenant_id: String,
}

/// The port of the socket address `[::]:s`: one or more ASCII digits whose
/// value fits in 16 bits.
pub open spec fn listen_port(s: Seq<char>) -> Option<u16> {
    if s.len() > 0 && all_digits(s) && digits_value(s) <= 0xffff {
        Some(digits_value(s) as u16)
    } else {
        None
    }
}

/// A port read from `v`, or `default` when `v` is unset; `with_sign` reads it as
/// `str::parse::<u16>` does, else as the port of a socket address.
pub open spec fn port_or(v: Option<String>, default: u16, with_sign: bool) -> Option<u16> {
    match v {
        Some(s) => if with_sign {
            parse_u16(s@)
        } else {
            listen_port(s@)
        },
        None => Some(default),
    }
}

pub open spec fn sip_port_of(vars: EnvVars) -> Option<u16> {
    port_or(vars.sip_port, 13084, true)
}

pub open spec fn grpc_port_of(vars: EnvVars) -> Option<u16> {
    port_or(vars.grpc_port, 13081, false)
}

pub open spec fn http_port_of(vars: EnvVars) -> Option<u16> {
    port_or(vars.http_port, 13080, false)
}

/// The advertised SIP port: the variable when it is a 16-bit number, else 5060.
pub open spec fn advertised_port_of(vars: EnvVars) -> u16 {
    match vars.sbc_advertised_port {
        Some(s) => match parse_u16(s@) {
            Some(p) => p,
            None => 5060,
        },
        None => 5060,
    }
}

/// The first problem with the settings, in the order in which they are read.
pub open spec fn config_error(vars: EnvVars) -> Option<ConfigError> {
    if sip_port_of(vars) is None {
        Some(ConfigError::InvalidSipPort)
    } else if grpc_port_of(vars) is None {
        Some(ConfigError::InvalidGrpcAddress)
    } else if http_port_of(vars) is None {
        Some(ConfigError::InvalidHttpAddress)
    } else if vars.sbc_sip_target is None {
        Some(ConfigError::Missing(RequiredVar::SbcSipTarget))
    } else if vars.sbc_public_ip is None {
        Some(ConfigError::Missing(RequiredVar::SbcPublicIp))
    } else if vars.node_ip is None {
        Some(ConfigError::Missing(RequiredVar::NodeIp))
    } else if vars.media_service_url is None {
        Some(ConfigError::Missing(RequiredVar::MediaServiceUrl))
    } else if vars.registrar_service_url is None {
        Some(ConfigError::Missing(RequiredVar::RegistrarServiceUrl))
    } else if vars.dialplan_service_url is None {
        Some(ConfigError::Missing(RequiredVar::DialplanServiceUrl))
    } else if vars.rabbitmq_url is None {
        Some(ConfigError::Missing(RequiredVar::RabbitmqUrl))
    } else if vars.redis_url is None {
        Some(ConfigError::Missing(RequiredVar::RedisUrl))
    } else if vars.cert_path is None {
        Some(ConfigError::Missing(RequiredVar::CertPath))
    } else if vars.key_path is None {
        Some(ConfigError::Missing(RequiredVar::KeyPath))
    } else if vars.ca_path is None {
        Some(ConfigError::Missing(RequiredVar::CaPath))
    } else if vars.tenant_id is None {
        Some(ConfigError::Missing(RequiredVar::TenantId))
    } else {
        None
    }
}

/// The text of `v`, or `default` when `v` is unset.
pub open spec fn text_or(v: Option<String>, default: Seq<char>) -> Seq<char> {
    match v {
        Some(s) => s@,
        None => default,
    }
}

/// Whether `c` holds the settings that `vars` gives, with `version` as the service version.
pub open spec fn config_from(vars: EnvVars, version: Seq<char>, c: AppConfig) -> bool {
    &&& Some(c.grpc_listen_port) == grpc_port_of(vars)
    &&& Some(c.http_listen_port) == http_port_of(vars)
    &&& c.sip_bind_ip@ == "0.0.0.0"@
    &&& Some(c.sip_port) == sip_port_of(vars)
    &&& c.proxy_sip_addr@ == text_or(vars.proxy_sip_target, "sip-proxy-service:13074"@)
    &&& c.sbc_sip_addr@ == vars.sbc_sip_target.unwrap()@
    &&& c.sbc_public_ip@ == vars.sbc_public_ip.unwrap()@
    &&& c.media_service_url@ == vars.media_service_url.unwrap()@
    &&& c.proxy_service_url@ == text_or(vars.proxy_service_url, Seq::empty())
    &&& c.registrar_service_url@ == vars.registrar_service_url.unwrap()@
    &&& c.user_service_url@ == text_or(vars.user_service_url, Seq::empty())
    &&& c.dialplan_service_url@ == vars.dialplan_service_url.unwrap()@
    &&& c.rabbitmq_url@ == vars.rabbitmq_url.unwrap()@
    &&& c.redis_url@ == vars.redis_url.unwrap()@
    &&& c.public_ip@ == vars.node_ip.unwrap()@
    &&& c.public_sip_port == advertised_port_of(vars)
    &&& c.sip_realm@ == text_or(vars.sip_realm, "sentiric_demo"@)
    &&& c.env@ == text_or(vars.env, "production"@)
    &&& c.rust_log@ == text_or(vars.rust_log, "info"@)
    &&& c.log_format@ == text_or(vars.log_format, "json"@)
    &&& c.service_version@ == version
    &&& c.node_hostname@ == text_or(vars.node_hostname, "localhost"@)
    &&& c.cert_path@ == vars.cert_path.unwrap()@
    &&& c.key_path@ == vars.key_path.unwrap()@
    &&& c.ca_path@ == vars.ca_path.unwrap()@
    &&& c.tenant_id@ == vars.tenant_id.unwrap()@
}

fn text_or_default(v: &Option<String>, default: &str) -> (s: String)
    ensures
        s@ == text_or(*v, default@),
{
    match v {
        Some(t) => t.clone(),
        None => default.to_owned(),
    }
}

fn required(v: &Option<String>, var: RequiredVar) -> (r: Result<String, ConfigError>)
    ensures
        match v {
            Some(t) => r matches Ok(s) && s@ == t@,
            None => r == Err::<String, ConfigError>(ConfigError::Missing(var)),
        },
{
    match v {
        Some(t) => Ok(t.clone()),
        None => Err(ConfigError::Missing(var)),
    }
}

fn listen_port_in(v: &[char]) -> (r: Option<u16>)
    ensures
        r == listen_port(v@),
{
    if v.len() == 0 || v[0] == '+' {
        return None;
    }
    let r = parse_u16_in(v, 0, v.len());
    assert(v@.subrange(0, v@.len() as int) =~= v@);
    r
}

fn read_port(
    v: &Option<String>,
    default: u16,
    with_sign: bool,
) -> (r: Option<u16>)
    ensures
        r == port_or(*v, default, with_sign),
{
    match v {
        Some(t) => {
            let cs = chars_of(t.as_str());
            if with_sign {
                let r = parse_u16_in(cs.as_slice(), 0, cs.len());
                assert(cs@.subrange(0, cs@.len() as int) =~= cs@);
                r
            } else {
                listen_port_in(cs.as_slice())
            }
        },
        None => Some(default),
    }
}

impl AppConfig {
    /// Reads the settings from the values of the environment variables;
    /// `service_version` is the version the service was built as.
    pub fn load_from_env(vars: &EnvVars, service_version: &str) -> (r: Result<AppConfig, ConfigError>)
        ensures
            match config_error(*vars) {
                Some(e) => r == Err::<AppConfig, ConfigError>(e),
                None => r matches Ok(c) && config_from(*vars, service_version@, c),
            },
            r matches Ok(c) ==> match vars.proxy_sip_target {
                Some(t) => c.proxy_sip_addr@ == t@,
                None => c.proxy_sip_addr@ == "sip-proxy-service:13074"@,
            },
    {
        let sip_port = match read_port(&vars.sip_port, 13084, true) {
            Some(p) => p,
            None => return Err(ConfigError::InvalidSipPort),
        };
        let grpc_listen_port = match read_port(&vars.grpc_port, 13081, false) {
            Some(p) => p,
            None => return Err(ConfigError::InvalidGrpcAddress),
        };
        let http_listen_port = match read_port(&vars.http_port, 13080, false) {
            Some(p) => p,
            None => return Err(ConfigError::InvalidHttpAddress),
        };
        let proxy_sip_addr = text_or_default(&vars.proxy_sip_target, "sip-proxy-service:13074");
        let sbc_sip_addr = match required(&vars.sbc_sip_target, RequiredVar::SbcSipTarget) {
            Ok(s) => s,
            Err(e) => return Err(e),
        };
        let sbc_public_ip = match required(&vars.sbc_public_ip, RequiredVar::SbcPublicIp) {
            Ok(s) => s,
            Err(e) => return Err(e),
        };
        let public_sip_port = match &vars.sbc_advertised_port {
            Some(t) => {
                let cs = chars_of(t.as_str());
                assert(cs@.subrange(0, cs@.len() as int) =~= cs@);
                match parse_u16_in(cs.as_slice(), 0, cs.len()) {
                    Some(p) => p,
                    None => 5060,
                }
            },
            None => 5060,
        };
        let public_ip = match required(&vars.node_ip, RequiredVar::NodeIp) {
            Ok(s) => s,
            Err(e) => return Err(e),
        };
        let media_service_url = match required(&vars.media_service_url, RequiredVar::MediaServiceUrl) {
            Ok(s) => s,
            Err(e) => return Err(e),
        };
        let proxy_service_url = text_or_default(&vars.proxy_service_url, "");
        let registrar_service_url = match required(
            &vars.registrar_service_url,
            RequiredVar::RegistrarServiceUrl,
        ) {
            Ok(s) => s,
            Err(e) => return Err(e),
        };
        let user_service_url = text_or_default(&vars.user_service_url, "");
        let dialplan_service_url = match required(
            &vars.dialplan_service_url,
            RequiredVar::DialplanServiceUrl,
        ) {
            Ok(s) => s,
            Err(e) => return Err(e),
        };
        let rabbitmq_url = match required(&vars.rabbitmq_url, RequiredVar::RabbitmqUrl) {
            Ok(s) => s,
            Err(e) => return Err(e),
        };
        let redis_url = match required(&vars.redis_url, RequiredVar::RedisUrl) {
            Ok(s) => s,
            Err(e) => return Err(e),
        };
        let sip_realm = text_or_default(&vars.sip_realm, "sentiric_demo");
        let env = text_or_default(&vars.env, "production");
        let rust_log = text_or_default(&vars.rust_log, "info");
        let log_format = text_or_default(&vars.log_format, "json");
        let node_hostname = text_or_default(&vars.node_hostname, "localhost");
        let cert_path = match required(&vars.cert_path, RequiredVar::CertPath) {
            Ok(s) => s,
            Err(e) => return Err(e),
        };
        let key_path = match required(&vars.key_path, RequiredVar::KeyPath) {
            Ok(s) => s,
            Err(e) => return Err(e),
        };
        let ca_path = match required(&vars.ca_path, RequiredVar::CaPath) {
            Ok(s) => s,
            Err(e) => return Err(e),
        };
        let tenant_id = match required(&vars.tenant_id, RequiredVar::TenantId) {
            Ok(s) => s,
            Err(e) => return Err(e),
        };
        proof {
            reveal_strlit("");
        }
        let c = AppConfig {
            grpc_listen_port,
            http_listen_port,
            sip_bind_ip: "0.0.0.0".to_owned(),
            sip_port,
            media_service_url,
            proxy_service_url,
            registrar_service_url,
            user_service_url,
            dialplan_service_url,
            rabbitmq_url,
            redis_url,
            proxy_sip_addr,
            sbc_sip_addr,
            sbc_public_ip,
            public_ip,
            sip_realm,
            public_sip_port,
            env,
            rust_log,
            log_format,
            service_version: service_version.to_owned(),
            node_hostname,
            cert_path,
            key_path,
            ca_path,
            tenant_id,
        };
        assert(c.sip_bind_ip@ == "0.0.0.0"@);
        assert(c.proxy_service_url@ == text_or(vars.proxy_service_url, Seq::empty()));
        assert(c.user_service_url@ == text_or(vars.user_service_url, Seq::empty()));
        assert(c.public_sip_port == advertised_port_of(*vars));
        assert(c.service_version@ == service_version@);
        Ok(c)
    }
}

/// The SIP proxy that outbound INVITEs go to is `SIP_PROXY_SERVICE_SIP_TARGET`
/// when it is set, else `sip-proxy-service:13074`, whatever the proxy's gRPC
/// URL says.
pub proof fn law_proxy_sip_addr_from_sip_target(vars: EnvVars, version: Seq<char>, c: AppConfig)
    requires
        config_from(vars, version, c),
    ensures
        vars.proxy_sip_target matches Some(t) ==> c.proxy_sip_addr@ == t@,
        vars.proxy_sip_target is None ==> c.proxy_sip_addr@ == "sip-proxy-service:13074"@,
{
}

} // verus!
