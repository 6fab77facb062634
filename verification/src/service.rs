//! The gRPC face of the service: calls that other services ask for.
use vstd::prelude::*;
use crate::config::AppConfig;
use crate::text::{chars_of, has_prefix, has_prefix_in};
use tonic::transport::Uri;

verus! {

/// The Call-ID of a call that another service asks to set up: the one it
/// asked for, or `fresh` (a newly drawn random id) when it asked for none.
pub fn initiate_call_id(requested: String, fresh: String) -> (id: String)
    ensures
        requested@.len() > 0 ==> id == requested,
        requested@.len() == 0 ==> id == fresh,
{
    if requested.as_str().is_empty() {
        fresh
    } else {
        requested
    }
}

/// The other services this one is a client of.
#[derive(Debug, Clone, Copy, PartialEq, Eq, Structural)]
pub enum InternalService {
    Media,
    Registrar,
    User,
    Dialplan,
}

/// Why the clients of the other services could not be set up.
#[derive(Debug, Clone, Copy, PartialEq, Eq, Structural)]
pub enum ClientSetupError {
    /// No CA certificate is configured; mutual TLS cannot be had, and plain
    /// connections are not allowed.
    CaPathMissing,
    /// The URL configured for this service is not a URI.
    InvalidUrl(InternalService),
}

/// Whether the clients of the other services may be set up: only with mutual
/// TLS, so only when a CA certificate path is configured.
pub fn check_client_tls(ca_path: &str) -> (r: Result<(), ClientSetupError>)
    ensures
        r is Ok <==> ca_path@.len() > 0,
        r is Err ==> r == Err::<(), ClientSetupError>(ClientSetupError::CaPathMissing),
{
    if ca_path.is_empty() {
        Err(ClientSetupError::CaPathMissing)
    } else {
        Ok(())
    }
}

/// Whether the endpoint at `url` is reached over TLS: when its URL starts with `https`.
pub fn endpoint_uses_tls(url: &str) -> (b: bool)
    ensures
        b == has_prefix(url@, seq!['h', 't', 't', 'p', 's']),
{
    let cs = chars_of(url);
    let https = vec!['h', 't', 't', 'p', 's'];
    assert(https@ =~= seq!['h', 't', 't', 'p', 's']);
    assert(cs@.subrange(0, cs@.len() as int) =~= cs@);
    has_prefix_in(cs.as_slice(), 0, cs.len(), https.as_slice())
}

#[verifier::external_type_specification]
#[verifier::external_body]
pub struct ExUri(Uri);

/// Whether `http` parses the text `url` as a URI.
pub uninterp spec fn uri_parses(url: Seq<char>) -> bool;

/// `str::parse::<tonic::transport::Uri>` (http's `Uri::from_str`): the URI when
/// the text parses as one. http refuses the empty text (`Uri::from_shared`).
#[verifier::external_body]
fn parse_uri(url: &str) -> (r: Option<Uri>)
    ensures
        r is Some <==> uri_parses(url@),
        url@.len() == 0 ==> r is None,
{
    url.parse::<Uri>().ok()
}

/// How to reach one service: its URI, and whether TLS applies to it.
pub struct EndpointPlan {
    pub uri: Uri,
    pub tls: bool,
}

/// Whether `url` names a TLS endpoint: when it starts with `https`.
pub open spec fn https_url(url: Seq<char>) -> bool {
    has_prefix(url, seq!['h', 't', 't', 'p', 's'])
}

/// The endpoint of `url`: `None` when the URL does not parse (the empty URL
/// never does); else its URI, reached over TLS when the URL starts with `https`.
pub fn endpoint_plan(url: &str) -> (r: Option<EndpointPlan>)
    ensures
        r is Some <==> uri_parses(url@),
        url@.len() == 0 ==> r is None,
        r matches Some(p) ==> p.tls == https_url(url@),
{
    match parse_uri(url) {
        Some(uri) => Some(EndpointPlan { uri, tls: endpoint_uses_tls(url) }),
        None => None,
    }
}

/// The endpoints of the four services the clients are set up for.
pub struct ClientPlan {
    pub media: EndpointPlan,
    pub registrar: EndpointPlan,
    pub user: EndpointPlan,
    pub dialplan: EndpointPlan,
}

/// The URL configured for `service`.
pub open spec fn service_url(c: AppConfig, service: InternalService) -> Seq<char> {
    match service {
        InternalService::Media => c.media_service_url@,
        InternalService::Registrar => c.registrar_service_url@,
        InternalService::User => c.user_service_url@,
        InternalService::Dialplan => c.dialplan_service_url@,
    }
}

/// The place of `service` in the order the clients are set up in.
pub open spec fn setup_rank(service: InternalService) -> nat {
    match service {
        InternalService::Media => 0,
        InternalService::Registrar => 1,
        InternalService::User => 2,
        InternalService::Dialplan => 3,
    }
}

/// The first service, in set-up order, whose URL does not parse.
pub open spec fn first_bad_url(c: AppConfig) -> Option<InternalService> {
    if !uri_parses(c.media_service_url@) {
        Some(InternalService::Media)
    } else if !uri_parses(c.registrar_service_url@) {
        Some(InternalService::Registrar)
    } else if !uri_parses(c.user_service_url@) {
        Some(InternalService::User)
    } else if !uri_parses(c.dialplan_service_url@) {
        Some(InternalService::Dialplan)
    } else {
        None
    }
}

/// Whether every service set up before `service` has a URL that parses.
pub open spec fn earlier_urls_parse(c: AppConfig, service: InternalService) -> bool {
    forall|t: InternalService|
        setup_rank(t) < setup_rank(service) ==> uri_parses(#[trigger] service_url(c, t))
}

/// The set-up of the clients of the other services: refused without a CA
/// certificate path, then refused at the first service (media, registrar, user,
/// dialplan) whose URL does not parse; else the four endpoints.
pub fn plan_clients(config: &AppConfig) -> (r: Result<ClientPlan, ClientSetupError>)
    ensures
        config.ca_path@.len() == 0 ==> r == Err::<ClientPlan, ClientSetupError>(
            ClientSetupError::CaPathMissing,
        ),
        config.ca_path@.len() > 0 ==> match first_bad_url(*config) {
            Some(s) => r == Err::<ClientPlan, ClientSetupError>(ClientSetupError::InvalidUrl(s)),
            None => r matches Ok(p) && {
                &&& p.media.tls == https_url(config.media_service_url@)
                &&& p.registrar.tls == https_url(config.registrar_service_url@)
                &&& p.user.tls == https_url(config.user_service_url@)
                &&& p.dialplan.tls == https_url(config.dialplan_service_url@)
            },
        },
        forall|s: InternalService|
            config.ca_path@.len() > 0 && earlier_urls_parse(*config, s) && service_url(*config, s).len()
                == 0 ==> r == Err::<ClientPlan, ClientSetupError>(ClientSetupError::InvalidUrl(s)),
{
    if check_client_tls(config.ca_path.as_str()).is_err() {
        return Err(ClientSetupError::CaPathMissing);
    }
    let ghost c = *config;
    let media = match endpoint_plan(config.media_service_url.as_str()) {
        Some(p) => p,
        None => {
            assert(!uri_parses(service_url(c, InternalService::Media)));
            return Err(ClientSetupError::InvalidUrl(InternalService::Media));
        },
    };
    assert(uri_parses(service_url(c, InternalService::Media)));
    let registrar = match endpoint_plan(config.registrar_service_url.as_str()) {
        Some(p) => p,
        None => {
            assert(!uri_parses(service_url(c, InternalService::Registrar)));
            return Err(ClientSetupError::InvalidUrl(InternalService::Registrar));
        },
    };
    assert(uri_parses(service_url(c, InternalService::Registrar)));
    let user = match endpoint_plan(config.user_service_url.as_str()) {
        Some(p) => p,
        None => {
            assert(!uri_parses(service_url(c, InternalService::User)));
            return Err(ClientSetupError::InvalidUrl(InternalService::User));
        },
    };
    assert(uri_parses(service_url(c, InternalService::User)));
    let dialplan = match endpoint_plan(config.dialplan_service_url.as_str()) {
        Some(p) => p,
        None => {
            assert(!uri_parses(service_url(c, InternalService::Dialplan)));
            return Err(ClientSetupError::InvalidUrl(InternalService::Dialplan));
        },
    };
    assert(uri_parses(service_url(c, InternalService::Dialplan)));
    Ok(ClientPlan { media, registrar, user, dialplan })
}

} // verus!
