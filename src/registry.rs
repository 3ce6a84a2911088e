use vstd::prelude::*;
use crate::auth::{AuthConfig, AuthRefreshConfig, InternalAuthConfig, JWTTokenAuth, RefreshRequest};
use crate::breaker::{BreakerModel, CircuitBreaker, CircuitBreakerConfig};
use crate::errors::{ResponseErrors, ValidationError};
use crate::table::KeyedTable;

verus! {

/// A request to register a service reachable at `host:port`.
#[derive(Debug)]
pub struct ServiceRegisterRequest {
    pub service_name: String,
    pub host: String,
    pub port: String,
    pub health_check_endpoint: String,
    pub oauth_config: Option<InternalAuthConfig>,
}

/// Everything the gateway keeps about one registered service.
#[derive(Debug)]
pub struct ServiceConfig {
    pub endpoint: String,
    pub service_name: String,
    pub auth_config: Option<AuthConfig>,
    pub breaker: CircuitBreaker,
}

/// The endpoint URL of a service at `host:port`.
pub open spec fn spec_endpoint(host: Seq<char>, port: Seq<char>) -> Seq<char> {
    "http://"@ + host + ":"@ + port
}

/// Builds `http://{host}:{port}`.
pub fn endpoint_for(host: &str, port: &str) -> (r: String)
    ensures
        r@ == spec_endpoint(host@, port@),
{
    let mut s = String::from_str("http://");
    s.append(host);
    s.append(":");
    s.append(port);
    s
}

/// The result of checking a bearer credential against its refresher before
/// registration.
#[derive(Debug)]
pub enum AuthCheck {
    /// The refresher answered the current refresh token, or no check is needed.
    Passed,
    /// The refresher call failed.
    RefreshFailed,
    /// The service's endpoint could not be reached.
    Unreachable,
}

/// The message for a failed registration check.
pub open spec fn spec_check_message(c: AuthCheck) -> Seq<char> {
    match c {
        AuthCheck::RefreshFailed => "faild to refresh oauth config"@,
        _ => ResponseErrors::ServiceUnAvailable.spec_message(),
    }
}

impl ServiceConfig {
    /// Replaces the tokens, expiry and refresher of a bearer credential;
    /// any other credential, or none, is left as it is.
    pub fn update_auth_refresh_config(&mut self, auth_refresh_config: AuthRefreshConfig)
        ensures
            final(self).endpoint == old(self).endpoint,
            final(self).service_name == old(self).service_name,
            final(self).breaker == old(self).breaker,
            match old(self).auth_config {
                Some(AuthConfig::JWTTokenAuth(j)) => final(self).auth_config == Some(
                    AuthConfig::JWTTokenAuth(
                        JWTTokenAuth {
                            access_token: auth_refresh_config.access_token,
                            refresh_token: auth_refresh_config.refresh_token,
                            expired_at: auth_refresh_config.expired_at,
                            service_name: auth_refresh_config.service_name,
                            method: auth_refresh_config.method,
                            ..j
                        },
                    ),
                ),
                _ => final(self).auth_config == old(self).auth_config,
            },
    {
        match &mut self.auth_config {
            Some(AuthConfig::JWTTokenAuth(j)) => {
                j.access_token = auth_refresh_config.access_token;
                j.refresh_token = auth_refresh_config.refresh_token;
                j.expired_at = auth_refresh_config.expired_at;
                j.service_name = auth_refresh_config.service_name;
                j.method = auth_refresh_config.method;
            },
            _ => {},
        }
    }

    /// The refresher call that must succeed before this service may be
    /// registered: one for a bearer credential, none otherwise.
    pub fn validation_call(&self) -> (r: Option<RefreshRequest>)
        ensures
            r is Some <==> self.auth_config matches Some(AuthConfig::JWTTokenAuth(_)),
            r matches Some(q) ==> self.auth_config matches Some(AuthConfig::JWTTokenAuth(j))
                && q.endpoint@ == self.endpoint@ && q.service_name@ == j.service_name@
                && q.method@ == j.method@ && q.refresh_token@ == j.refresh_token@,
    {
        match &self.auth_config {
            Some(AuthConfig::JWTTokenAuth(j)) => Some(
                RefreshRequest {
                    endpoint: self.endpoint.clone(),
                    service_name: j.service_name.clone(),
                    method: j.method.clone(),
                    refresh_token: j.refresh_token.clone(),
                },
            ),
            _ => None,
        }
    }
}

/// The registered services, by name.
#[derive(Debug)]
pub struct ServiceRegistry {
    services: KeyedTable<ServiceConfig>,
    breaker_config: CircuitBreakerConfig,
}

impl ServiceRegistry {
    pub closed spec fn wf(&self) -> bool {
        self.services.wf()
    }

    /// The registered services as a map from name to configuration.
    pub closed spec fn view_map(&self) -> Map<Seq<char>, ServiceConfig> {
        self.services.map()
    }

    /// The breaker configuration given to newly registered services.
    pub closed spec fn spec_breaker_config(&self) -> CircuitBreakerConfig {
        self.breaker_config
    }

    /// An empty registry whose services get breakers configured with
    /// `breaker_config`.
    pub fn new(breaker_config: CircuitBreakerConfig) -> (r: Self)
        ensures
            r.wf(),
            r.view_map() == Map::<Seq<char>, ServiceConfig>::empty(),
            r.spec_breaker_config() == breaker_config,
    {
        ServiceRegistry { services: KeyedTable::new(), breaker_config }
    }

    /// Builds the configuration for a registration request: the endpoint
    /// `http://{host}:{port}`, the credential if one is given, and a fresh
    /// closed breaker. A bearer credential without a complete refresher is
    /// refused.
    pub fn prepare(&self, req: ServiceRegisterRequest) -> (r: Result<ServiceConfig, ValidationError>)
        ensures
            r is Ok <==> (req.oauth_config matches Some(c) ==> c.spec_is_valid()),
            r matches Err(e) ==> e.0@ == ResponseErrors::OAuthRefreshConfigMissingError.spec_message(),
            r matches Ok(c) ==> {
                &&& c.endpoint@ == spec_endpoint(req.host@, req.port@)
                &&& c.service_name@ == req.service_name@
                &&& c.breaker@ == BreakerModel::initial(self.spec_breaker_config())
                &&& c.auth_config == match req.oauth_config {
                    Some(a) => Some(a.spec_credential()),
                    None => None::<AuthConfig>,
                }
            },
    {
        let endpoint = endpoint_for(req.host.as_str(), req.port.as_str());
        let auth_config = match req.oauth_config {
            Some(c) => match c.into_credential() {
                Ok(a) => Some(a),
                Err(e) => {
                    return Err(e);
                },
            },
            None => None,
        };
        Ok(
            ServiceConfig {
                endpoint,
                service_name: req.service_name,
                auth_config,
                breaker: CircuitBreaker::new(self.breaker_config),
            },
        )
    }

    /// Stores a prepared configuration under its service name once its
    /// credential check passed, replacing an earlier registration, and
    /// returns its endpoint. A failed check stores nothing.
    pub fn register(&mut self, config: ServiceConfig, check: AuthCheck) -> (r: Result<
        String,
        ValidationError,
    >)
        requires
            old(self).wf(),
        ensures
            final(self).wf(),
            final(self).spec_breaker_config() == old(self).spec_breaker_config(),
            check is Passed ==> (r matches Ok(ep) && ep@ == config.endpoint@),
            check is Passed ==> final(self).view_map() == old(self).view_map().insert(
                config.service_name@,
                config,
            ),
            !(check is Passed) ==> (r matches Err(e) && e.0@ == spec_check_message(check)),
            !(check is Passed) ==> final(self).view_map() == old(self).view_map(),
    {
        match check {
            AuthCheck::Passed => {
                let endpoint = config.endpoint.clone();
                let name = config.service_name.clone();
                self.services.insert(name, config);
                Ok(endpoint)
            },
            AuthCheck::RefreshFailed => Err(
                ValidationError(String::from_str("faild to refresh oauth config")),
            ),
            AuthCheck::Unreachable => Err(ValidationError(ResponseErrors::ServiceUnAvailable.message())),
        }
    }

    /// The configuration registered under `service_name`.
    pub fn discover(&self, service_name: &str) -> (r: Option<&ServiceConfig>)
        requires
            self.wf(),
        ensures
            r is None <==> !self.view_map().contains_key(service_name@),
            r matches Some(c) ==> *c == self.view_map()[service_name@],
    {
        self.services.get(service_name)
    }

    /// Replaces the credential of a registered service; an unknown name
    /// changes nothing. Returns whether the service was found.
    pub fn update_auth_config(&mut self, service_name: &str, auth_config: AuthConfig) -> (r: bool)
        requires
            old(self).wf(),
        ensures
            final(self).wf(),
            final(self).spec_breaker_config() == old(self).spec_breaker_config(),
            r == old(self).view_map().contains_key(service_name@),
            !r ==> final(self).view_map() == old(self).view_map(),
            r ==> final(self).view_map() == old(self).view_map().insert(
                service_name@,
                ServiceConfig { auth_config: Some(auth_config), ..old(self).view_map()[service_name@] },
            ),
    {
        match self.services.position(service_name) {
            Some(i) => {
                let old_config = self.services.value_at(i);
                let new_config = ServiceConfig {
                    endpoint: old_config.endpoint.clone(),
                    service_name: old_config.service_name.clone(),
                    auth_config: Some(auth_config),
                    breaker: old_config.breaker,
                };
                self.services.replace_at(i, new_config);
                true
            },
            None => false,
        }
    }

    /// Asks the breaker of a registered service for a permit at time `now`
    /// (milliseconds); `None` for an unknown name.
    pub fn permit(&mut self, service_name: &str, now: u64) -> (r: Option<bool>)
        requires
            old(self).wf(),
        ensures
            final(self).wf(),
            final(self).spec_breaker_config() == old(self).spec_breaker_config(),
            r is None <==> !old(self).view_map().contains_key(service_name@),
            r is None ==> final(self).view_map() == old(self).view_map(),
            r matches Some(b) ==> {
                let c = old(self).view_map()[service_name@];
                &&& b == c.breaker@.permits(now)
                &&& final(self).view_map().dom() == old(self).view_map().dom()
                &&& final(self).view_map()[service_name@].breaker@ == c.breaker@.after_permit(now)
                &&& final(self).view_map()[service_name@].auth_config == c.auth_config
                &&& final(self).view_map()[service_name@].endpoint == c.endpoint
            },
    {
        match self.services.position(service_name) {
            Some(i) => {
                let old_config = self.services.value_at(i);
                let mut breaker = old_config.breaker;
                let allowed = breaker.is_allowed(now);
                let new_config = ServiceConfig {
                    endpoint: old_config.endpoint.clone(),
                    service_name: old_config.service_name.clone(),
                    auth_config: clone_auth(&old_config.auth_config),
                    breaker,
                };
                self.services.replace_at(i, new_config);
                Some(allowed)
            },
            None => None,
        }
    }

    /// Records the outcome of a call to a registered service, completed at
    /// time `now` (milliseconds). Returns whether the service was found.
    pub fn record_outcome(&mut self, service_name: &str, success: bool, now: u64) -> (r: bool)
        requires
            old(self).wf(),
        ensures
            final(self).wf(),
            final(self).spec_breaker_config() == old(self).spec_breaker_config(),
            r == old(self).view_map().contains_key(service_name@),
            !r ==> final(self).view_map() == old(self).view_map(),
            r ==> {
                let c = old(self).view_map()[service_name@];
                &&& final(self).view_map().dom() == old(self).view_map().dom()
                &&& final(self).view_map()[service_name@].breaker@ == if success {
                    c.breaker@.after_success()
                } else {
                    c.breaker@.after_failure(now)
                }
                &&& final(self).view_map()[service_name@].auth_config == c.auth_config
                &&& final(self).view_map()[service_name@].endpoint == c.endpoint
            },
    {
        match self.services.position(service_name) {
            Some(i) => {
                let old_config = self.services.value_at(i);
                let mut breaker = old_config.breaker;
                if success {
                    breaker.record_success();
                } else {
                    breaker.record_failure(now);
                }
                let new_config = ServiceConfig {
                    endpoint: old_config.endpoint.clone(),
                    service_name: old_config.service_name.clone(),
                    auth_config: clone_auth(&old_config.auth_config),
                    breaker,
                };
                self.services.replace_at(i, new_config);
                true
            },
            None => false,
        }
    }
}

/// An equal copy of a credential.
pub fn clone_auth(a: &Option<AuthConfig>) -> (r: Option<AuthConfig>)
    ensures
        r == *a,
{
    match a {
        None => None,
        Some(AuthConfig::APIKeyAuth(k)) => Some(
            AuthConfig::APIKeyAuth(
                crate::auth::APIKeyAuth { header_name: k.header_name.clone(), value: k.value.clone() },
            ),
        ),
        Some(AuthConfig::JWTTokenAuth(j)) => Some(
            AuthConfig::JWTTokenAuth(
                JWTTokenAuth {
                    header_name: j.header_name.clone(),
                    access_token: j.access_token.clone(),
                    refresh_token: j.refresh_token.clone(),
                    expired_at: j.expired_at,
                    service_name: j.service_name.clone(),
                    method: j.method.clone(),
                },
            ),
        ),
    }
}

} // verus!
