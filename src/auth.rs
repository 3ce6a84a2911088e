use vstd::prelude::*;
use crate::errors::{ResponseErrors, ValidationError};

verus! {

/// A static API key, attached verbatim under `header_name`.
#[derive(Debug)]
pub struct APIKeyAuth {
    pub header_name: String,
    pub value: String,
}

impl APIKeyAuth {
    pub fn new(header_name: String, value: String) -> (r: Self)
        ensures
            r.header_name == header_name,
            r.value == value,
    {
        APIKeyAuth { header_name, value }
    }

    pub fn header_name(&self) -> (r: &str)
        ensures
            r@ == self.header_name@,
    {
        self.header_name.as_str()
    }

    pub fn value(&self) -> (r: String)
        ensures
            r@ == self.value@,
    {
        self.value.clone()
    }
}

/// A bearer token that expires at `expired_at` (seconds since the Unix
/// epoch) and is renewed by calling `service_name`/`method` with the
/// refresh token.
#[derive(Debug)]
pub struct JWTTokenAuth {
    pub header_name: String,
    pub access_token: String,
    pub refresh_token: String,
    pub expired_at: u64,
    pub service_name: String,
    pub method: String,
}

impl JWTTokenAuth {
    pub fn header_name(&self) -> (r: &str)
        ensures
            r@ == self.header_name@,
    {
        self.header_name.as_str()
    }

    pub fn value(&self) -> (r: String)
        ensures
            r@ == self.access_token@,
    {
        self.access_token.clone()
    }

    /// The token is expired at time `now` (seconds since the Unix epoch).
    pub open spec fn spec_is_expired(&self, now: u64) -> bool {
        now >= self.expired_at
    }

    pub fn is_expired(&self, now: u64) -> (r: bool)
        ensures
            r == self.spec_is_expired(now),
    {
        now >= self.expired_at
    }
}

/// The kind of a credential given at registration, with the header it is
/// attached under and its value.
#[derive(Debug)]
pub enum AuthType {
    APIKey { header_name: String, value: String },
    JWTToken { header_name: String, value: String },
}

/// How a bearer token is renewed, and the tokens it starts from.
#[derive(Debug)]
pub struct AuthRefreshConfig {
    pub service_name: String,
    pub method: String,
    pub access_token: String,
    pub expired_at: u64,
    pub refresh_token: String,
}

/// A credential as given at registration.
#[derive(Debug)]
pub struct InternalAuthConfig {
    pub auth_type: AuthType,
    pub auth_refresh_config: Option<AuthRefreshConfig>,
}

impl InternalAuthConfig {
    /// The registration form names a usable credential: an API key, or a
    /// bearer token with a non-empty refresher service and method.
    pub open spec fn spec_is_valid(&self) -> bool {
        match self.auth_type {
            AuthType::APIKey { .. } => true,
            AuthType::JWTToken { .. } => self.auth_refresh_config matches Some(c) && c.service_name@.len()
                > 0 && c.method@.len() > 0,
        }
    }

    /// The credential that a valid registration form stands for.
    pub open spec fn spec_credential(&self) -> AuthConfig {
        match self.auth_type {
            AuthType::APIKey { header_name, value } => AuthConfig::APIKeyAuth(
                APIKeyAuth { header_name, value },
            ),
            AuthType::JWTToken { header_name, .. } => {
                let rc = self.auth_refresh_config->Some_0;
                AuthConfig::JWTTokenAuth(
                    JWTTokenAuth {
                        header_name,
                        access_token: rc.access_token,
                        refresh_token: rc.refresh_token,
                        expired_at: rc.expired_at,
                        service_name: rc.service_name,
                        method: rc.method,
                    },
                )
            },
        }
    }

    /// Turns the registration form into a credential; a bearer token
    /// without a complete refresher is refused.
    pub fn into_credential(self) -> (r: Result<AuthConfig, ValidationError>)
        ensures
            r is Ok <==> self.spec_is_valid(),
            r matches Err(e) ==> e.0@ == ResponseErrors::OAuthRefreshConfigMissingError.spec_message(),
            r matches Ok(c) ==> c == self.spec_credential(),
            r matches Ok(c) ==> match (self.auth_type, c) {
                (AuthType::APIKey { header_name, value }, AuthConfig::APIKeyAuth(k)) => k.header_name@
                    == header_name@ && k.value@ == value@,
                (AuthType::JWTToken { header_name, .. }, AuthConfig::JWTTokenAuth(j)) => {
                    let rc = self.auth_refresh_config->Some_0;
                    &&& j.header_name@ == header_name@
                    &&& j.access_token@ == rc.access_token@
                    &&& j.refresh_token@ == rc.refresh_token@
                    &&& j.expired_at == rc.expired_at
                    &&& j.service_name@ == rc.service_name@
                    &&& j.method@ == rc.method@
                },
                _ => false,
            },
    {
        match self.auth_type {
            AuthType::APIKey { header_name, value } => Ok(
                AuthConfig::APIKeyAuth(APIKeyAuth::new(header_name, value)),
            ),
            AuthType::JWTToken { header_name, value: _ } => match self.auth_refresh_config {
                Some(rc) => {
                    if rc.service_name.as_str().is_empty() || rc.method.as_str().is_empty() {
                        Err(ValidationError(ResponseErrors::OAuthRefreshConfigMissingError.message()))
                    } else {
                        Ok(
                            AuthConfig::JWTTokenAuth(
                                JWTTokenAuth {
                                    header_name,
                                    access_token: rc.access_token,
                                    refresh_token: rc.refresh_token,
                                    expired_at: rc.expired_at,
                                    service_name: rc.service_name,
                                    method: rc.method,
                                },
                            ),
                        )
                    }
                },
                None => Err(ValidationError(ResponseErrors::OAuthRefreshConfigMissingError.message())),
            },
        }
    }
}

/// A credential attached to calls of one service.
#[derive(Debug)]
pub enum AuthConfig {
    APIKeyAuth(APIKeyAuth),
    JWTTokenAuth(JWTTokenAuth),
}

/// The renewal call that an expired bearer token needs: `method` of
/// `service_name` at `endpoint`, with body `{"refresh_token": refresh_token}`.
#[derive(Debug)]
pub struct RefreshRequest {
    pub endpoint: String,
    pub service_name: String,
    pub method: String,
    pub refresh_token: String,
}

/// What to do before a call that carries a credential.
#[derive(Debug)]
pub enum RefreshDecision {
    /// Attach this value as it is.
    Current(String),
    /// Renew the token first.
    Refresh(RefreshRequest),
}

/// The renewal response: `{ accessToken, refreshToken, expiredAt }`, with
/// `expiredAt` already read as seconds since the Unix epoch.
#[derive(Debug)]
pub struct RefreshAuthTokenJson {
    pub access_token: String,
    pub refresh_token: String,
    pub expired_at: u64,
}

/// The decimal digit that `c` denotes.
pub open spec fn digit_value(c: char) -> int {
    c as int - '0' as int
}

pub open spec fn is_digit(c: char) -> bool {
    '0' <= c && c <= '9'
}

/// The value of a string of decimal digits, most significant first.
pub open spec fn digits_value(s: Seq<char>) -> int
    decreases s.len(),
{
    if s.len() == 0 {
        0
    } else {
        digits_value(s.drop_last()) * 10 + digit_value(s.last())
    }
}

/// `s` without one leading `+`, if it has one.
pub open spec fn unsigned_digits(s: Seq<char>) -> Seq<char> {
    if s.len() > 0 && s[0] == '+' {
        s.drop_first()
    } else {
        s
    }
}

/// Every character of `d` is a decimal digit.
pub open spec fn all_digits(d: Seq<char>) -> bool {
    forall|i: int| 0 <= i < d.len() ==> is_digit(#[trigger] d[i])
}

/// The unsigned 64-bit integer that `s` spells: an optional `+`, then one
/// or more decimal digits, with a value that fits in 64 bits.
pub open spec fn spec_parse_u64(s: Seq<char>) -> Option<u64> {
    let d = unsigned_digits(s);
    if d.len() > 0 && all_digits(d) && digits_value(d) <= u64::MAX {
        Some(digits_value(d) as u64)
    } else {
        None
    }
}

proof fn lemma_digits_prefix_monotone(d: Seq<char>, k: int)
    requires
        0 <= k <= d.len(),
        forall|i: int| 0 <= i < d.len() ==> is_digit(#[trigger] d[i]),
    ensures
        digits_value(d.subrange(0, k)) <= digits_value(d),
        digits_value(d) >= 0,
    decreases d.len() - k,
{
    if k < d.len() {
        lemma_digits_prefix_monotone(d, k + 1);
        let p = d.subrange(0, k + 1);
        assert(p.drop_last() =~= d.subrange(0, k));
        lemma_digits_nonneg(d.subrange(0, k));
    } else {
        assert(d.subrange(0, k) =~= d);
        lemma_digits_nonneg(d);
    }
}

proof fn lemma_digits_nonneg(d: Seq<char>)
    requires
        forall|i: int| 0 <= i < d.len() ==> is_digit(#[trigger] d[i]),
    ensures
        digits_value(d) >= 0,
    decreases d.len(),
{
    if d.len() > 0 {
        lemma_digits_nonneg(d.drop_last());
    }
}

/// Reads an unsigned 64-bit integer written in decimal, as `str::parse::<u64>`
/// does.
pub fn parse_u64(s: &str) -> (r: Option<u64>)
    ensures
        r == spec_parse_u64(s@),
{
    let n = s.unicode_len();
    let mut start: usize = 0;
    if n > 0 && s.get_char(0) == '+' {
        start = 1;
    }
    let ghost d = unsigned_digits(s@);
    assert(d =~= s@.subrange(start as int, n as int));
    if start >= n {
        return None;
    }
    let mut acc: u64 = 0;
    let mut i: usize = start;
    while i < n
        invariant
            start <= i <= n,
            n == s@.len(),
            d =~= s@.subrange(start as int, n as int),
            d == unsigned_digits(s@),
            forall|j: int| 0 <= j < i - start ==> is_digit(#[trigger] d[j]),
            acc as int == digits_value(d.subrange(0, i - start)),
        decreases n - i,
    {
        let c = s.get_char(i);
        if c < '0' || c > '9' {
            assert(d[i - start] == c);
            proof {
                lemma_not_digit_none(s@, (i - start) as int);
            }
            return None;
        }
        let dv = (c as u32 - '0' as u32) as u64;
        assert(d[i - start] == c);
        assert(is_digit(d[i - start]));
        assert(dv as int == digit_value(c));
        let ghost pre = d.subrange(0, i - start);
        let ghost next = d.subrange(0, i + 1 - start);
        assert(next.drop_last() =~= pre);
        assert(next.last() == c);
        match acc.checked_mul(10) {
            Some(m) => match m.checked_add(dv) {
                Some(v) => {
                    acc = v;
                },
                None => {
                    proof {
                        assert(digits_value(next) == acc * 10 + digit_value(c));
                        lemma_too_large(d, (i + 1 - start) as int);
                    }
                    return None;
                },
            },
            None => {
                proof {
                    lemma_digits_nonneg(pre);
                    assert(digits_value(next) == acc * 10 + digit_value(c));
                    lemma_too_large(d, (i + 1 - start) as int);
                }
                return None;
            },
        }
        i = i + 1;
    }
    assert(d.subrange(0, n - start) =~= d);
    Some(acc)
}

proof fn lemma_not_digit_none(s: Seq<char>, k: int)
    requires
        0 <= k < unsigned_digits(s).len(),
        !is_digit(unsigned_digits(s)[k]),
    ensures
        spec_parse_u64(s) is None,
{
}

/// Once a prefix of digits is too large, so is the whole, whatever follows.
proof fn lemma_too_large(d: Seq<char>, k: int)
    requires
        0 < k <= d.len(),
        forall|j: int| 0 <= j < k ==> is_digit(#[trigger] d[j]),
        digits_value(d.subrange(0, k)) > u64::MAX,
    ensures
        !(d.len() > 0 && all_digits(d) && digits_value(d) <= u64::MAX),
{
    if all_digits(d) {
        lemma_digits_prefix_monotone(d, k);
    }
}

impl RefreshAuthTokenJson {
    /// Builds the renewal response from its three fields as received;
    /// `expired_at` must spell an unsigned 64-bit integer.
    pub fn parse(access_token: String, refresh_token: String, expired_at: &str) -> (r: Option<Self>)
        ensures
            r is Some <==> spec_parse_u64(expired_at@) is Some,
            r matches Some(v) ==> v.access_token@ == access_token@ && v.refresh_token@
                == refresh_token@ && v.expired_at == spec_parse_u64(expired_at@)->Some_0,
    {
        match parse_u64(expired_at) {
            Some(e) => Some(RefreshAuthTokenJson { access_token, refresh_token, expired_at: e }),
            None => None,
        }
    }
}

impl AuthConfig {
    pub open spec fn spec_header_name(&self) -> Seq<char> {
        match self {
            AuthConfig::APIKeyAuth(k) => k.header_name@,
            AuthConfig::JWTTokenAuth(j) => j.header_name@,
        }
    }

    pub open spec fn spec_value(&self) -> Seq<char> {
        match self {
            AuthConfig::APIKeyAuth(k) => k.value@,
            AuthConfig::JWTTokenAuth(j) => j.access_token@,
        }
    }

    /// A renewal is due at time `now` (seconds since the Unix epoch).
    pub open spec fn spec_requires_refresh(&self, now: u64) -> bool {
        match self {
            AuthConfig::APIKeyAuth(_) => false,
            AuthConfig::JWTTokenAuth(j) => j.spec_is_expired(now),
        }
    }

    /// The credential after a successful renewal with `data`.
    pub open spec fn spec_refreshed(&self, data: RefreshAuthTokenJson) -> AuthConfig {
        match self {
            AuthConfig::APIKeyAuth(_) => *self,
            AuthConfig::JWTTokenAuth(j) => AuthConfig::JWTTokenAuth(
                JWTTokenAuth {
                    access_token: data.access_token,
                    refresh_token: data.refresh_token,
                    expired_at: data.expired_at,
                    ..*j
                },
            ),
        }
    }

    pub fn auth_type_is_api_key(&self) -> (r: bool)
        ensures
            r == (self is APIKeyAuth),
    {
        match self {
            AuthConfig::APIKeyAuth(_) => true,
            AuthConfig::JWTTokenAuth(_) => false,
        }
    }

    /// The header the credential is attached under.
    pub fn header_name(&self) -> (r: &str)
        ensures
            r@ == self.spec_header_name(),
    {
        match self {
            AuthConfig::APIKeyAuth(k) => k.header_name.as_str(),
            AuthConfig::JWTTokenAuth(j) => j.header_name.as_str(),
        }
    }

    /// The exact header value.
    pub fn value(&self) -> (r: String)
        ensures
            r@ == self.spec_value(),
    {
        match self {
            AuthConfig::APIKeyAuth(k) => k.value.clone(),
            AuthConfig::JWTTokenAuth(j) => j.access_token.clone(),
        }
    }

    pub fn requires_refresh(&self, now: u64) -> (r: bool)
        ensures
            r == self.spec_requires_refresh(now),
    {
        match self {
            AuthConfig::APIKeyAuth(_) => false,
            AuthConfig::JWTTokenAuth(j) => j.is_expired(now),
        }
    }

    /// Decides, at time `now` (seconds since the Unix epoch), whether the
    /// credential can be attached as it is or must be renewed through
    /// `service_endpoint` first. An API key never is; a bearer token is
    /// exactly when `now >= expired_at`.
    pub fn refresh_if_expired(&self, service_endpoint: &str, now: u64) -> (r: RefreshDecision)
        ensures
            !self.spec_requires_refresh(now) <==> r is Current,
            r matches RefreshDecision::Current(v) ==> v@ == self.spec_value(),
            r matches RefreshDecision::Refresh(q) ==> self matches AuthConfig::JWTTokenAuth(j)
                && q.endpoint@ == service_endpoint@ && q.service_name@ == j.service_name@
                && q.method@ == j.method@ && q.refresh_token@ == j.refresh_token@,
    {
        match self {
            AuthConfig::APIKeyAuth(k) => RefreshDecision::Current(k.value.clone()),
            AuthConfig::JWTTokenAuth(j) => {
                if j.is_expired(now) {
                    RefreshDecision::Refresh(
                        RefreshRequest {
                            endpoint: service_endpoint.to_owned(),
                            service_name: j.service_name.clone(),
                            method: j.method.clone(),
                            refresh_token: j.refresh_token.clone(),
                        },
                    )
                } else {
                    RefreshDecision::Current(j.access_token.clone())
                }
            },
        }
    }

    /// Applies the outcome of a renewal call: on success the three token
    /// fields are replaced and the new access token is returned; on failure
    /// the credential is left as it was and the failure is returned.
    pub fn complete_refresh(&mut self, outcome: Result<RefreshAuthTokenJson, ValidationError>) -> (r:
        Result<String, ValidationError>)
        ensures
            match outcome {
                Ok(data) => {
                    &&& *final(self) == old(self).spec_refreshed(data)
                    &&& r matches Ok(v) && v@ == final(self).spec_value()
                },
                Err(e) => {
                    &&& *final(self) == *old(self)
                    &&& r matches Err(e2) && e2.0@ == e.0@
                },
            },
    {
        match outcome {
            Ok(data) => {
                match self {
                    AuthConfig::APIKeyAuth(k) => Ok(k.value.clone()),
                    AuthConfig::JWTTokenAuth(j) => {
                        j.access_token = data.access_token;
                        j.refresh_token = data.refresh_token;
                        j.expired_at = data.expired_at;
                        Ok(j.access_token.clone())
                    },
                }
            },
            Err(e) => Err(e),
        }
    }
}

/// With a clock that only moves forward, each expiry brings at most one
/// renewal: whether a renewal is due only ever changes from no to yes as
/// time passes, an API key is never renewed, and once a renewal sets an
/// expiry after `t2`, no further renewal is due at `t2` or at any time
/// before it.
pub proof fn lemma_one_refresh_per_expiry(
    c: AuthConfig,
    data: RefreshAuthTokenJson,
    t1: u64,
    t2: u64,
)
    requires
        t1 <= t2,
    ensures
        c.spec_requires_refresh(t1) ==> c.spec_requires_refresh(t2),
        !c.spec_requires_refresh(t2) ==> !c.spec_requires_refresh(t1),
        t2 < data.expired_at ==> !c.spec_refreshed(data).spec_requires_refresh(t2)
            && !c.spec_refreshed(data).spec_requires_refresh(t1),
        c is APIKeyAuth ==> !c.spec_requires_refresh(t2),
{
}

} // verus!
