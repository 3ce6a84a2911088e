use vstd::prelude::*;
use prost_reflect::{DynamicMessage, MethodDescriptor};
use crate::auth::{AuthConfig, RefreshAuthTokenJson, RefreshDecision, RefreshRequest};
use crate::breaker::{BreakerModel, CircuitBreakerConfig};
use crate::descriptor::{spec_method_key, CachedDescriptors};
use crate::errors::{spec_not_registered, ResponseErrors, ValidationError};
use crate::proto::{
    clone_method, decode_message, encode_message, input_of, is_wire_encoding, json_of,
    json_reads_as, message_from_json, message_to_json, method_input, method_output, output_of,
    wire_decodes_as,
};
use crate::registry::{spec_endpoint, clone_auth, AuthCheck, ServiceConfig, ServiceRegisterRequest, ServiceRegistry};

verus! {

/// The gRPC status code `UNAVAILABLE`.
pub const GRPC_UNAVAILABLE: i32 = 14;

/// Why one invocation failed.
#[derive(Debug)]
pub enum InvokeError {
    /// The descriptor cache has no such method.
    MethodNotFound { service: String, method: String },
    /// The payload could not be transcoded into the request message.
    BadRequest(String),
    /// The credential could not be refreshed.
    Unauthorized(String),
    /// The channel was not ready.
    Unavailable(String),
    /// The transport failed.
    Transport(String),
    /// The upstream answered with a non-OK gRPC status.
    Status { code: i32, message: String },
    /// The response bytes are not a message of the output type.
    Decode(String),
    /// The circuit breaker refused the call.
    BreakerOpen,
    /// The gateway failed for a reason of its own.
    Internal(String),
}

impl InvokeError {
    pub open spec fn spec_message(&self) -> Seq<char> {
        match self {
            InvokeError::MethodNotFound { service, method } => "Method "@ + spec_method_key(
                service@,
                method@,
            ) + " not found"@,
            InvokeError::BadRequest(m) => m@,
            InvokeError::Unauthorized(m) => m@,
            InvokeError::Unavailable(m) => m@,
            InvokeError::Transport(m) => m@,
            InvokeError::Status { message, .. } => message@,
            InvokeError::Decode(m) => m@,
            InvokeError::BreakerOpen => ResponseErrors::ServiceUnAvailable.spec_message(),
            InvokeError::Internal(m) => m@,
        }
    }

    pub fn message(&self) -> (r: String)
        ensures
            r@ == self.spec_message(),
    {
        match self {
            InvokeError::MethodNotFound { service, method } => {
                let mut s = String::from_str("Method ");
                s.append(service.as_str());
                s.append(".");
                s.append(method.as_str());
                s.append(" not found");
                s
            },
            InvokeError::BadRequest(m) => m.clone(),
            InvokeError::Unauthorized(m) => m.clone(),
            InvokeError::Unavailable(m) => m.clone(),
            InvokeError::Transport(m) => m.clone(),
            InvokeError::Status { message, .. } => message.clone(),
            InvokeError::Decode(m) => m.clone(),
            InvokeError::BreakerOpen => ResponseErrors::ServiceUnAvailable.message(),
            InvokeError::Internal(m) => m.clone(),
        }
    }

    /// The failure means the upstream is unavailable: the breaker is open,
    /// the channel was not ready, or the status is `UNAVAILABLE`.
    pub open spec fn spec_is_unavailable(&self) -> bool {
        match self {
            InvokeError::BreakerOpen => true,
            InvokeError::Unavailable(_) => true,
            InvokeError::Status { code, .. } => *code == GRPC_UNAVAILABLE,
            _ => false,
        }
    }
}

/// The outcome kinds of a call, each with its HTTP-style status code.
#[derive(Debug, Clone, Copy, PartialEq, Eq, Structural)]
pub enum OutcomeKind {
    Success,
    ServiceNotRegistered,
    BadRequest,
    Unauthorized,
    TransportFailure,
    ServiceUnavailable,
    InternalServerError,
}

impl OutcomeKind {
    pub open spec fn spec_status_code(&self) -> u16 {
        match self {
            OutcomeKind::Success => 200,
            OutcomeKind::ServiceNotRegistered => 400,
            OutcomeKind::BadRequest => 400,
            OutcomeKind::Unauthorized => 400,
            OutcomeKind::TransportFailure => 502,
            OutcomeKind::ServiceUnavailable => 503,
            OutcomeKind::InternalServerError => 500,
        }
    }

    pub fn status_code(&self) -> (r: u16)
        ensures
            r == self.spec_status_code(),
    {
        match self {
            OutcomeKind::Success => 200,
            OutcomeKind::ServiceNotRegistered => 400,
            OutcomeKind::BadRequest => 400,
            OutcomeKind::Unauthorized => 400,
            OutcomeKind::TransportFailure => 502,
            OutcomeKind::ServiceUnavailable => 503,
            OutcomeKind::InternalServerError => 500,
        }
    }
}

/// The kind a failed invocation is reported as.
pub open spec fn spec_error_kind(e: InvokeError) -> OutcomeKind {
    if e.spec_is_unavailable() {
        OutcomeKind::ServiceUnavailable
    } else {
        match e {
            InvokeError::Transport(_) => OutcomeKind::TransportFailure,
            InvokeError::Internal(_) => OutcomeKind::InternalServerError,
            InvokeError::Unauthorized(_) => OutcomeKind::Unauthorized,
            _ => OutcomeKind::BadRequest,
        }
    }
}

/// The message a failed invocation is reported with.
pub open spec fn spec_error_message(e: InvokeError) -> Seq<char> {
    match spec_error_kind(e) {
        OutcomeKind::ServiceUnavailable => ResponseErrors::ServiceUnAvailable.spec_message(),
        OutcomeKind::TransportFailure => ResponseErrors::TransportFailure.spec_message(),
        OutcomeKind::InternalServerError => ResponseErrors::InternalServerError.spec_message(),
        _ => e.spec_message(),
    }
}

/// The envelope returned for every call.
#[derive(Debug)]
pub struct Response {
    pub message: String,
    pub status: String,
    pub status_code: u16,
    pub data: Option<serde_json::Value>,
}

/// Why no client could be made for an endpoint.
#[derive(Debug)]
pub enum ClientError {
    /// The channel could not be established.
    Transport(String),
    /// Any other failure, such as a failed initial descriptor load.
    Other(String),
}

impl Response {
    fn error(message: String, status_code: u16) -> (r: Response)
        ensures
            r.message@ == message@,
            r.status@ == ResponseErrors::Error.spec_message(),
            r.status_code == status_code,
            r.data is None,
    {
        Response { message, status: ResponseErrors::Error.message(), status_code, data: None }
    }

    /// The envelope for a service that is not registered.
    pub fn not_registered(service: &str) -> (r: Response)
        ensures
            r.message@ == spec_not_registered(service@),
            r.status@ == ResponseErrors::Error.spec_message(),
            r.status_code == OutcomeKind::ServiceNotRegistered.spec_status_code(),
            r.data is None,
    {
        let name = service.to_owned();
        let m = ResponseErrors::ServiceNotRegister(name).message();
        Response::error(m, 400)
    }

    /// The envelope for a client that could not be made.
    pub fn client_failure(e: ClientError) -> (r: Response)
        ensures
            e is Transport ==> r.message@ == ResponseErrors::TransportFailure.spec_message()
                && r.status_code == OutcomeKind::TransportFailure.spec_status_code(),
            e matches ClientError::Other(m) ==> r.message@ == m@ && r.status_code
                == OutcomeKind::BadRequest.spec_status_code(),
            r.status@ == ResponseErrors::Error.spec_message(),
            r.data is None,
    {
        match e {
            ClientError::Transport(_) => Response::error(ResponseErrors::TransportFailure.message(), 502),
            ClientError::Other(m) => Response::error(m, 400),
        }
    }

    /// The envelope for the outcome of an invocation.
    pub fn from_outcome(outcome: Result<serde_json::Value, InvokeError>) -> (r: Response)
        ensures
            match outcome {
                Ok(v) => {
                    &&& r.message@ == ResponseErrors::Success.spec_message()
                    &&& r.status@ == ResponseErrors::Success.spec_message()
                    &&& r.status_code == OutcomeKind::Success.spec_status_code()
                    &&& r.data == Some(v)
                },
                Err(e) => {
                    &&& r.message@ == spec_error_message(e)
                    &&& r.status@ == ResponseErrors::Error.spec_message()
                    &&& r.status_code == spec_error_kind(e).spec_status_code()
                    &&& r.data is None
                },
            },
    {
        match outcome {
            Ok(v) => Response {
                message: ResponseErrors::Success.message(),
                status: ResponseErrors::Success.message(),
                status_code: 200,
                data: Some(v),
            },
            Err(e) => {
                let unavailable = match &e {
                    InvokeError::BreakerOpen => true,
                    InvokeError::Unavailable(_) => true,
                    InvokeError::Status { code, .. } => *code == GRPC_UNAVAILABLE,
                    _ => false,
                };
                if unavailable {
                    Response::error(ResponseErrors::ServiceUnAvailable.message(), 503)
                } else {
                    match e {
                        InvokeError::Transport(_) => Response::error(
                            ResponseErrors::TransportFailure.message(),
                            502,
                        ),
                        InvokeError::Internal(_) => Response::error(
                            ResponseErrors::InternalServerError.message(),
                            500,
                        ),
                        _ => Response::error(e.message(), 400),
                    }
                }
            },
        }
    }
}

/// The path of a unary method: `/{service}/{method}`.
pub open spec fn spec_method_path(service: Seq<char>, method: Seq<char>) -> Seq<char> {
    "/"@ + service + "/"@ + method
}

pub fn method_path(service: &str, method: &str) -> (r: String)
    ensures
        r@ == spec_method_path(service@, method@),
{
    let mut s = String::from_str("/");
    s.append(service);
    s.append("/");
    s.append(method);
    s
}

/// A request ready to be sent: its path, its encoded body, and the method
/// whose output type decodes the response.
#[derive(Debug)]
pub struct PreparedCall {
    pub path: String,
    pub body: Vec<u8>,
    pub method: MethodDescriptor,
}

/// Looks the method up in `cache` and transcodes the JSON payload into the
/// wire encoding of its input message. An unknown method fails with
/// `MethodNotFound`, a payload that is not a valid input message with
/// `BadRequest`.
pub fn prepare_call(
    cache: &CachedDescriptors,
    service: &str,
    method: &str,
    payload: serde_json::Value,
) -> (r: Result<PreparedCall, InvokeError>)
    requires
        cache.wf(),
    ensures
        !cache.method_map().contains_key(spec_method_key(service@, method@)) <==> (r matches Err(
            InvokeError::MethodNotFound { .. },
        )),
        r matches Err(InvokeError::MethodNotFound { service: s, method: m }) ==> s@ == service@
            && m@ == method@,
        r matches Err(e) ==> e is MethodNotFound || e is BadRequest,
        cache.method_map().contains_key(spec_method_key(service@, method@)) ==> (r is Ok
            <==> spec_payload_fits(cache.method_map()[spec_method_key(service@, method@)], payload)),
        r matches Ok(c) ==> {
            &&& c.path@ == spec_method_path(service@, method@)
            &&& c.method == cache.method_map()[spec_method_key(service@, method@)]
            &&& spec_encodes_payload(c.method, payload, c.body@)
        },
{
    let desc = match cache.get_method(service, method) {
        Some(d) => clone_method(d),
        None => {
            return Err(
                InvokeError::MethodNotFound { service: service.to_owned(), method: method.to_owned() },
            );
        },
    };
    let message = match message_from_json(method_input(&desc), payload) {
        Ok(m) => m,
        Err(e) => {
            return Err(InvokeError::BadRequest(e.to_string()));
        },
    };
    let body = encode_message(&message);
    Ok(PreparedCall { path: method_path(service, method), body, method: desc })
}

/// The payload reads as a message of the input type of `method`.
pub open spec fn spec_payload_fits(method: MethodDescriptor, payload: serde_json::Value) -> bool {
    exists|m: DynamicMessage| #[trigger] json_reads_as(input_of(method), payload, m)
}

/// `body` is a wire encoding of a message of the input type of `method`
/// that the payload reads as.
pub open spec fn spec_encodes_payload(
    method: MethodDescriptor,
    payload: serde_json::Value,
    body: Seq<u8>,
) -> bool {
    exists|m: DynamicMessage|
        #[trigger] json_reads_as(input_of(method), payload, m) && is_wire_encoding(m, body)
}

/// `v` is the JSON rendering of a message of the output type of `method`
/// that the reply bytes decode to.
pub open spec fn spec_decodes_to(method: MethodDescriptor, bytes: Seq<u8>, v: serde_json::Value) -> bool {
    exists|m: DynamicMessage|
        #[trigger] wire_decodes_as(output_of(method), bytes, m) && json_of(m) == Some(v)
}

/// The reply bytes are not a message of the output type of `method`, or
/// such a message does not render as JSON.
pub open spec fn spec_reply_fails(method: MethodDescriptor, bytes: Seq<u8>) -> bool {
    (forall|m: DynamicMessage| !#[trigger] wire_decodes_as(output_of(method), bytes, m))
        || exists|m: DynamicMessage|
        #[trigger] wire_decodes_as(output_of(method), bytes, m) && json_of(m) is None
}

/// Decodes response bytes as the output message of `method` and renders it
/// as canonical protobuf JSON; bytes that are not such a message fail with
/// `Decode`.
pub fn decode_response(method: &MethodDescriptor, bytes: &[u8]) -> (r: Result<
    serde_json::Value,
    InvokeError,
>)
    ensures
        r matches Err(e) ==> e is Decode,
        r matches Ok(v) ==> spec_decodes_to(*method, bytes@, v),
        r is Err ==> spec_reply_fails(*method, bytes@),
{
    let message = match decode_message(method_output(method), bytes) {
        Ok(m) => m,
        Err(e) => {
            return Err(InvokeError::Decode(e.to_string()));
        },
    };
    match message_to_json(&message) {
        Ok(v) => Ok(v),
        Err(e) => Err(InvokeError::Decode(e.to_string())),
    }
}

/// What to do about the credential of a service before sending a call.
#[derive(Debug)]
pub enum CredentialStep {
    /// The service has no credential.
    NoCredential,
    /// Attach `value` under `header_name`.
    Attach { header_name: String, value: String },
    /// Renew the token first, with this request.
    Refresh(RefreshRequest),
}

/// The gateway's state: the registered services, each with its credential
/// and its circuit breaker. Each step of one call is a method here; the
/// network work between the steps is done by the caller.
#[derive(Debug)]
pub struct Gateway {
    registry: ServiceRegistry,
}

impl Gateway {
    pub closed spec fn wf(&self) -> bool {
        self.registry.wf()
    }

    /// The registered services, by name.
    pub closed spec fn services(&self) -> Map<Seq<char>, ServiceConfig> {
        self.registry.view_map()
    }

    pub closed spec fn spec_breaker_config(&self) -> CircuitBreakerConfig {
        self.registry.spec_breaker_config()
    }

    /// A gateway with no services, whose breakers use `config`.
    pub fn with_breaker_config(config: CircuitBreakerConfig) -> (r: Self)
        ensures
            r.wf(),
            r.services() == Map::<Seq<char>, ServiceConfig>::empty(),
            r.spec_breaker_config() == config,
    {
        Gateway { registry: ServiceRegistry::new(config) }
    }

    /// A gateway with no services and the default breaker configuration.
    pub fn new() -> (r: Self)
        ensures
            r.wf(),
            r.services() == Map::<Seq<char>, ServiceConfig>::empty(),
            r.spec_breaker_config().failure_threshold == 5,
            r.spec_breaker_config().recovery_timeout_ms == 30_000,
            r.spec_breaker_config().half_open_max_calls == 2,
    {
        Gateway::with_breaker_config(CircuitBreakerConfig::default())
    }

    pub fn registry(&self) -> (r: &ServiceRegistry)
        ensures
            r.view_map() == self.services(),
            r.wf() == self.wf(),
            r.spec_breaker_config() == self.spec_breaker_config(),
    {
        &self.registry
    }

    /// Builds the configuration for a registration request (see
    /// `ServiceRegistry::prepare`).
    pub fn prepare_registration(&self, req: ServiceRegisterRequest) -> (r: Result<
        ServiceConfig,
        ValidationError,
    >)
        ensures
            r is Ok <==> (req.oauth_config matches Some(c) ==> c.spec_is_valid()),
            r matches Err(e) ==> e.0@ == ResponseErrors::OAuthRefreshConfigMissingError.spec_message(),
            r matches Ok(c) ==> {
                &&& c.endpoint@ == spec_endpoint(req.host@, req.port@)
                &&& c.service_name@ == req.service_name@
                &&& c.breaker@ == BreakerModel::initial(self.spec_breaker_config())
                &&& c.auth_config == match req.oauth_config {
                    Some(a) => Some(a.spec_credential()),
                    None => None::<AuthConfig>,
                }
            },
    {
        self.registry.prepare(req)
    }

    /// Stores a prepared configuration once its credential check passed,
    /// and returns its endpoint.
    pub fn register(&mut self, config: ServiceConfig, check: AuthCheck) -> (r: Result<
        String,
        ValidationError,
    >)
        requires
            old(self).wf(),
        ensures
            final(self).wf(),
            final(self).spec_breaker_config() == old(self).spec_breaker_config(),
            check is Passed ==> (r matches Ok(ep) && ep@ == config.endpoint@),
            check is Passed ==> final(self).services() == old(self).services().insert(
                config.service_name@,
                config,
            ),
            !(check is Passed) ==> r is Err && final(self).services() == old(self).services(),
    {
        self.registry.register(config, check)
    }

    /// The endpoint of a registered service, or the envelope that reports
    /// the name as not registered.
    pub fn resolve(&self, service: &str) -> (r: Result<String, Response>)
        requires
            self.wf(),
        ensures
            self.services().contains_key(service@) <==> r is Ok,
            r matches Ok(ep) ==> ep@ == self.services()[service@].endpoint@,
            r matches Err(resp) ==> {
                &&& resp.message@ == spec_not_registered(service@)
                &&& resp.status@ == ResponseErrors::Error.spec_message()
                &&& resp.status_code == OutcomeKind::ServiceNotRegistered.spec_status_code()
                &&& resp.data is None
            },
    {
        match self.registry.discover(service) {
            Some(c) => Ok(c.endpoint.clone()),
            None => Err(Response::not_registered(service)),
        }
    }

    /// Asks the breaker of `service` for a permit at time `now`
    /// (milliseconds). A refused permit is reported as unavailable.
    pub fn acquire_permit(&mut self, service: &str, now: u64) -> (r: Result<(), Response>)
        requires
            old(self).wf(),
        ensures
            final(self).wf(),
            final(self).spec_breaker_config() == old(self).spec_breaker_config(),
            !old(self).services().contains_key(service@) ==> final(self).services()
                == old(self).services() && (r matches Err(resp) && resp.status_code
                == OutcomeKind::ServiceNotRegistered.spec_status_code() && resp.message@
                == spec_not_registered(service@) && resp.status@ == ResponseErrors::Error.spec_message()
                && resp.data is None),
            old(self).services().contains_key(service@) ==> {
                let c = old(self).services()[service@];
                &&& final(self).services().dom() == old(self).services().dom()
                &&& final(self).services()[service@].breaker@ == c.breaker@.after_permit(now)
                &&& final(self).services()[service@].auth_config == c.auth_config
                &&& final(self).services()[service@].endpoint == c.endpoint
                &&& (r is Ok <==> c.breaker@.permits(now))
                &&& (r matches Err(resp) ==> resp.status_code
                    == OutcomeKind::ServiceUnavailable.spec_status_code()
                    && resp.message@ == ResponseErrors::ServiceUnAvailable.spec_message()
                    && resp.status@ == ResponseErrors::Error.spec_message() && resp.data is None)
            },
    {
        match self.registry.permit(service, now) {
            None => Err(Response::not_registered(service)),
            Some(true) => Ok(()),
            Some(false) => Err(Response::from_outcome(Err(InvokeError::BreakerOpen))),
        }
    }

    /// Decides, at time `now_secs` (seconds since the Unix epoch), how the
    /// credential of `service` goes on the outgoing call.
    pub fn credential_step(&self, service: &str, now_secs: u64) -> (r: CredentialStep)
        requires
            self.wf(),
        ensures
            match (self.services().contains_key(service@), r) {
                (false, CredentialStep::NoCredential) => true,
                (false, _) => false,
                (true, r) => {
                    let c = self.services()[service@];
                    match (c.auth_config, r) {
                        (None, CredentialStep::NoCredential) => true,
                        (Some(a), CredentialStep::Attach { header_name, value }) => {
                            &&& !a.spec_requires_refresh(now_secs)
                            &&& header_name@ == a.spec_header_name()
                            &&& value@ == a.spec_value()
                        },
                        (Some(a), CredentialStep::Refresh(q)) => {
                            &&& a.spec_requires_refresh(now_secs)
                            &&& a matches AuthConfig::JWTTokenAuth(j)
                            &&& q.endpoint@ == c.endpoint@
                            &&& q.service_name@ == j.service_name@
                            &&& q.method@ == j.method@
                            &&& q.refresh_token@ == j.refresh_token@
                        },
                        _ => false,
                    }
                },
            },
    {
        match self.registry.discover(service) {
            None => CredentialStep::NoCredential,
            Some(c) => match &c.auth_config {
                None => CredentialStep::NoCredential,
                Some(a) => match a.refresh_if_expired(c.endpoint.as_str(), now_secs) {
                    RefreshDecision::Current(v) => CredentialStep::Attach {
                        header_name: a.header_name().to_owned(),
                        value: v,
                    },
                    RefreshDecision::Refresh(q) => CredentialStep::Refresh(q),
                },
            },
        }
    }

    /// Applies the outcome of a renewal of the credential of `service`: on
    /// success the renewed credential is stored and the header to attach is
    /// returned; on failure nothing changes and the call fails as
    /// unauthorized.
    pub fn complete_refresh(
        &mut self,
        service: &str,
        outcome: Result<RefreshAuthTokenJson, ValidationError>,
    ) -> (r: Result<(String, String), InvokeError>)
        requires
            old(self).wf(),
        ensures
            final(self).wf(),
            final(self).spec_breaker_config() == old(self).spec_breaker_config(),
            r is Err ==> final(self).services() == old(self).services() && r->Err_0 is Unauthorized,
            r is Ok <==> (old(self).services().contains_key(service@) && old(self).services()[service@].auth_config is Some && outcome is Ok),
            r matches Ok((h, v)) ==> {
                let c = old(self).services()[service@];
                let a = c.auth_config->Some_0.spec_refreshed(outcome->Ok_0);
                &&& final(self).services() == old(self).services().insert(
                    service@,
                    ServiceConfig { auth_config: Some(a), ..c },
                )
                &&& h@ == a.spec_header_name()
                &&& v@ == a.spec_value()
            },
            old(self).services().contains_key(service@) && old(self).services()[service@].auth_config is Some
                ==> (outcome matches Err(e) ==> (r matches Err(InvokeError::Unauthorized(m)) && m@
                == e.0@)),
    {
        let mut auth = match self.registry.discover(service) {
            None => {
                return Err(InvokeError::Unauthorized(ResponseErrors::ServiceNotRegister(service.to_owned()).message()));
            },
            Some(c) => match clone_auth(&c.auth_config) {
                None => {
                    return Err(InvokeError::Unauthorized(ResponseErrors::OAuthRefreshConfigMissingError.message()));
                },
                Some(a) => a,
            },
        };
        match auth.complete_refresh(outcome) {
            Ok(v) => {
                let h = auth.header_name().to_owned();
                self.registry.update_auth_config(service, auth);
                Ok((h, v))
            },
            Err(e) => Err(InvokeError::Unauthorized(e.0)),
        }
    }

    /// Records the outcome of a call to `service` in its breaker, at time
    /// `now` (milliseconds), and returns the envelope for it.
    pub fn finish_call(
        &mut self,
        service: &str,
        outcome: Result<serde_json::Value, InvokeError>,
        now: u64,
    ) -> (r: Response)
        requires
            old(self).wf(),
        ensures
            final(self).wf(),
            final(self).spec_breaker_config() == old(self).spec_breaker_config(),
            !old(self).services().contains_key(service@) ==> final(self).services() == old(self).services(),
            old(self).services().contains_key(service@) ==> {
                let c = old(self).services()[service@];
                &&& final(self).services().dom() == old(self).services().dom()
                &&& final(self).services()[service@].breaker@ == if outcome is Ok {
                    c.breaker@.after_success()
                } else {
                    c.breaker@.after_failure(now)
                }
                &&& final(self).services()[service@].auth_config == c.auth_config
            },
            match outcome {
                Ok(v) => r.status_code == OutcomeKind::Success.spec_status_code() && r.data == Some(v)
                    && r.message@ == ResponseErrors::Success.spec_message() && r.status@
                    == ResponseErrors::Success.spec_message(),
                Err(e) => r.status_code == spec_error_kind(e).spec_status_code() && r.message@
                    == spec_error_message(e) && r.status@ == ResponseErrors::Error.spec_message()
                    && r.data is None,
            },
    {
        let success = outcome.is_ok();
        self.registry.record_outcome(service, success, now);
        Response::from_outcome(outcome)
    }
}

} // verus!
