use grpc_gateway::auth::{
    parse_u64, APIKeyAuth, AuthConfig, AuthRefreshConfig, AuthType, InternalAuthConfig,
    JWTTokenAuth, RefreshAuthTokenJson, RefreshDecision,
};
use grpc_gateway::errors::{ResponseBuilder, ResponseErrors, ResponseSuccess, ValidationError};

fn bearer(expired_at: u64) -> AuthConfig {
    AuthConfig::JWTTokenAuth(JWTTokenAuth {
        header_name: "authorization".to_string(),
        access_token: "old-access".to_string(),
        refresh_token: "old-refresh".to_string(),
        expired_at,
        service_name: "auth.Tokens".to_string(),
        method: "Refresh".to_string(),
    })
}

#[test]
fn parse_u64_accepts_decimal() {
    assert_eq!(parse_u64("0"), Some(0));
    assert_eq!(parse_u64("1700000000"), Some(1_700_000_000));
    assert_eq!(parse_u64("+42"), Some(42));
    assert_eq!(parse_u64("18446744073709551615"), Some(u64::MAX));
}

#[test]
fn parse_u64_rejects_malformed() {
    assert_eq!(parse_u64(""), None);
    assert_eq!(parse_u64("+"), None);
    assert_eq!(parse_u64("-1"), None);
    assert_eq!(parse_u64("12a"), None);
    assert_eq!(parse_u64(" 1"), None);
    assert_eq!(parse_u64("18446744073709551616"), None);
    assert_eq!(parse_u64("99999999999999999999999"), None);
}

#[test]
fn refresh_response_parses_expiry_string() {
    let r = RefreshAuthTokenJson::parse("a".to_string(), "r".to_string(), "1234").unwrap();
    assert_eq!(r.access_token, "a");
    assert_eq!(r.refresh_token, "r");
    assert_eq!(r.expired_at, 1234);
    assert!(RefreshAuthTokenJson::parse("a".to_string(), "r".to_string(), "soon").is_none());
}

#[test]
fn api_key_never_refreshes() {
    let k = AuthConfig::APIKeyAuth(APIKeyAuth::new("x-api-key".to_string(), "k1".to_string()));
    assert_eq!(k.header_name(), "x-api-key");
    assert_eq!(k.value(), "k1");
    assert!(!k.requires_refresh(u64::MAX));
    match k.refresh_if_expired("http://h:1", u64::MAX) {
        RefreshDecision::Current(v) => assert_eq!(v, "k1"),
        RefreshDecision::Refresh(_) => panic!("api key refreshed"),
    }
}

#[test]
fn bearer_refreshes_only_when_expired() {
    let b = bearer(100);
    assert!(matches!(b.refresh_if_expired("http://h:1", 99), RefreshDecision::Current(ref v) if v == "old-access"));
    match b.refresh_if_expired("http://h:1", 100) {
        RefreshDecision::Refresh(q) => {
            assert_eq!(q.endpoint, "http://h:1");
            assert_eq!(q.service_name, "auth.Tokens");
            assert_eq!(q.method, "Refresh");
            assert_eq!(q.refresh_token, "old-refresh");
        }
        RefreshDecision::Current(_) => panic!("expired token not refreshed"),
    }
}

#[test]
fn one_refresh_per_expiry() {
    let mut b = bearer(100);
    let mut refreshes: u32 = 0;
    for now in [100u64, 101, 150, 199, 200, 250] {
        if let RefreshDecision::Refresh(_) = b.refresh_if_expired("http://h:1", now) {
            refreshes += 1;
            let data = RefreshAuthTokenJson {
                access_token: format!("tok-{}", now),
                refresh_token: "r".to_string(),
                expired_at: now + 100,
            };
            b.complete_refresh(Ok(data)).unwrap();
        }
    }
    assert_eq!(refreshes, 2);
    assert_eq!(b.value(), "tok-200");
}

#[test]
fn complete_refresh_updates_tokens() {
    let mut b = bearer(10);
    let data = RefreshAuthTokenJson {
        access_token: "new-access".to_string(),
        refresh_token: "new-refresh".to_string(),
        expired_at: 500,
    };
    let v = b.complete_refresh(Ok(data)).unwrap();
    assert_eq!(v, "new-access");
    match &b {
        AuthConfig::JWTTokenAuth(j) => {
            assert_eq!(j.access_token, "new-access");
            assert_eq!(j.refresh_token, "new-refresh");
            assert_eq!(j.expired_at, 500);
            assert_eq!(j.header_name, "authorization");
        }
        AuthConfig::APIKeyAuth(_) => panic!("variant changed"),
    }
}

#[test]
fn failed_refresh_leaves_credential() {
    let mut b = bearer(10);
    let e = b.complete_refresh(Err(ValidationError("upstream down".to_string()))).unwrap_err();
    assert_eq!(e.message(), "upstream down");
    assert_eq!(b.value(), "old-access");
    assert!(b.requires_refresh(10));
}

#[test]
fn registration_form_checks_refresher() {
    let ok = InternalAuthConfig {
        auth_type: AuthType::JWTToken { header_name: "authorization".to_string(), value: String::new() },
        auth_refresh_config: Some(AuthRefreshConfig {
            service_name: "auth.Tokens".to_string(),
            method: "Refresh".to_string(),
            access_token: "a".to_string(),
            expired_at: 7,
            refresh_token: "r".to_string(),
        }),
    };
    match ok.into_credential().unwrap() {
        AuthConfig::JWTTokenAuth(j) => {
            assert_eq!(j.access_token, "a");
            assert_eq!(j.expired_at, 7);
        }
        AuthConfig::APIKeyAuth(_) => panic!("wrong variant"),
    }
    let empty_method = InternalAuthConfig {
        auth_type: AuthType::JWTToken { header_name: "authorization".to_string(), value: String::new() },
        auth_refresh_config: Some(AuthRefreshConfig {
            service_name: "auth.Tokens".to_string(),
            method: String::new(),
            access_token: "a".to_string(),
            expired_at: 7,
            refresh_token: "r".to_string(),
        }),
    };
    let e = empty_method.into_credential().unwrap_err();
    assert_eq!(e.message(), "oauth refresh config is missing");
    let missing = InternalAuthConfig {
        auth_type: AuthType::JWTToken { header_name: "authorization".to_string(), value: String::new() },
        auth_refresh_config: None,
    };
    assert!(missing.into_credential().is_err());
    let key = InternalAuthConfig {
        auth_type: AuthType::APIKey { header_name: "x-key".to_string(), value: "v".to_string() },
        auth_refresh_config: None,
    };
    assert!(matches!(key.into_credential(), Ok(AuthConfig::APIKeyAuth(_))));
}

#[test]
fn response_messages() {
    assert_eq!(ResponseErrors::Success.message(), "success");
    assert_eq!(ResponseErrors::ServiceUnAvailable.message(), "service unavailable");
    assert_eq!(
        ResponseErrors::ServiceNotRegister("x.Y".to_string()).message(),
        "x.Y is not register, please register the sevice"
    );
    assert_eq!(ResponseErrors::TransportFailure.message(), "Unknown transport failure");
    assert_eq!(ResponseErrors::Error.message(), "error");
    assert_eq!(ResponseErrors::OAuthRefreshConfigMissingError.message(), "oauth refresh config is missing");
    assert_eq!(ResponseErrors::InternalServerError.message(), "internal server error");
    assert_eq!(
        ResponseSuccess::ServiceRegisterSuccessfully("greet.Greeter".to_string()).message(),
        "greet.Greeter has been register successfully"
    );
}

#[test]
fn response_builder_envelopes() {
    let ok = ResponseBuilder::success("done".to_string(), 7u32);
    assert!(ok.status);
    assert_eq!(ok.message, "done");
    assert_eq!(ok.data, Some(7));
    let bad: ResponseBuilder<u32> = ResponseBuilder::bad_request("nope".to_string());
    assert!(!bad.status);
    assert_eq!(bad.message, "nope");
    assert!(bad.data.is_none());
}
