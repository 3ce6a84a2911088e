use grpc_gateway::auth::{
    AuthConfig, AuthRefreshConfig, AuthType, InternalAuthConfig, RefreshAuthTokenJson,
};
use grpc_gateway::breaker::{CircuitBreakerConfig, CircuitBreakerState};
use grpc_gateway::codec::{BytesCodec, BytesDecoder, BytesEncoder};
use grpc_gateway::descriptor::{
    method_key, CachedDescriptors, DescriptorLoadError, ReflectionDiscriptorManager,
    DEFAULT_REFRESH_INTERVAL_MS,
};
use grpc_gateway::errors::ValidationError;
use grpc_gateway::gateway::{
    decode_response, method_path, prepare_call, ClientError, CredentialStep, Gateway, InvokeError,
    OutcomeKind, Response, GRPC_UNAVAILABLE,
};
use grpc_gateway::registry::{endpoint_for, AuthCheck, ServiceRegisterRequest, ServiceRegistry};
use prost::Message;
use prost_reflect::{DynamicMessage, Value as PValue};
use prost_types::field_descriptor_proto::{Label, Type};
use prost_types::{
    DescriptorProto, FieldDescriptorProto, FileDescriptorProto, MethodDescriptorProto,
    ServiceDescriptorProto,
};
use serde_json::Value;

fn string_field(name: &str, number: i32) -> FieldDescriptorProto {
    let mut f = FieldDescriptorProto {
        name: Some(name.to_string()),
        number: Some(number),
        json_name: Some(name.to_string()),
        ..Default::default()
    };
    f.set_label(Label::Optional);
    f.set_type(Type::String);
    f
}

fn message(name: &str, field: &str) -> DescriptorProto {
    DescriptorProto {
        name: Some(name.to_string()),
        field: vec![string_field(field, 1)],
        ..Default::default()
    }
}

fn rpc(name: &str, input: &str, output: &str) -> MethodDescriptorProto {
    MethodDescriptorProto {
        name: Some(name.to_string()),
        input_type: Some(input.to_string()),
        output_type: Some(output.to_string()),
        ..Default::default()
    }
}

/// `greet.proto`: `greet.Greeter` with `SayHello` and, optionally, `Echo`.
fn greet_file(with_echo: bool) -> Vec<u8> {
    let mut methods = vec![rpc("SayHello", ".greet.HelloRequest", ".greet.HelloReply")];
    if with_echo {
        methods.push(rpc("Echo", ".greet.HelloRequest", ".greet.HelloRequest"));
    }
    FileDescriptorProto {
        name: Some("greet.proto".to_string()),
        package: Some("greet".to_string()),
        message_type: vec![message("HelloRequest", "name"), message("HelloReply", "message")],
        service: vec![ServiceDescriptorProto {
            name: Some("Greeter".to_string()),
            method: methods,
            ..Default::default()
        }],
        syntax: Some("proto3".to_string()),
        ..Default::default()
    }
    .encode_to_vec()
}

fn json(text: &str) -> Value {
    serde_json::from_str(text).unwrap()
}

fn greeter_cache(with_echo: bool, now: u64) -> CachedDescriptors {
    CachedDescriptors::load_discriptor(&vec![greet_file(with_echo)], now).unwrap()
}

/// Plays the upstream `greet.Greeter/SayHello`: answers `hello, <name>`.
fn say_hello_upstream(cache: &CachedDescriptors, body: &[u8]) -> Vec<u8> {
    let req_desc = cache.pool().get_message_by_name("greet.HelloRequest").unwrap();
    let req = DynamicMessage::decode(req_desc, body).unwrap();
    let name = req.get_field_by_name("name").unwrap().as_str().unwrap().to_string();
    let reply_desc = cache.pool().get_message_by_name("greet.HelloReply").unwrap();
    let mut reply = DynamicMessage::new(reply_desc);
    reply.set_field_by_name("message", PValue::String(format!("hello, {}", name)));
    reply.encode_to_vec()
}

fn register_plain(gw: &mut Gateway, name: &str, host: &str, port: &str) -> String {
    let req = ServiceRegisterRequest {
        service_name: name.to_string(),
        host: host.to_string(),
        port: port.to_string(),
        health_check_endpoint: String::new(),
        oauth_config: None,
    };
    let config = gw.prepare_registration(req).unwrap();
    gw.register(config, AuthCheck::Passed).unwrap()
}

#[test]
fn endpoint_is_http_host_port() {
    assert_eq!(endpoint_for("127.0.0.1", "50051"), "http://127.0.0.1:50051");
}

#[test]
fn method_key_and_path() {
    assert_eq!(method_key("greet.Greeter", "SayHello"), "greet.Greeter.SayHello");
    assert_eq!(method_path("greet.Greeter", "SayHello"), "/greet.Greeter/SayHello");
}

#[test]
fn cache_indexes_services_and_methods() {
    let cache = greeter_cache(true, 10);
    assert_eq!(cache.get_all_service(), vec!["greet.Greeter".to_string()]);
    assert!(cache.get_service("greet.Greeter").is_some());
    assert!(cache.get_service("Greeter").is_none());
    assert!(cache.get_method("greet.Greeter", "SayHello").is_some());
    assert!(cache.get_method("greet.Greeter", "Echo").is_some());
    assert!(cache.get_method("greet.Greeter", "sayhello").is_none());
    assert!(cache.get_method("Greeter", "SayHello").is_none());
    assert_eq!(cache.last_updated_at(), 10);
}

#[test]
fn cache_staleness() {
    let cache = greeter_cache(false, 1000);
    assert!(!cache.is_stale(500, 1500));
    assert!(cache.is_stale(500, 1501));
    assert!(!cache.is_stale(0, 1000));
    assert!(!cache.is_stale(0, 10));
}

#[test]
fn empty_cache_has_nothing() {
    let cache = CachedDescriptors::new(3);
    assert!(cache.get_all_service().is_empty());
    assert!(cache.get_method("a", "b").is_none());
}

#[test]
fn load_rejects_garbage_blob() {
    let r = CachedDescriptors::load_discriptor(&vec![vec![0xff, 0xff, 0xff]], 0);
    assert!(matches!(r, Err(DescriptorLoadError::Decode(_))));
}

#[test]
fn load_rejects_dangling_reference() {
    let broken = FileDescriptorProto {
        name: Some("broken.proto".to_string()),
        package: Some("b".to_string()),
        service: vec![ServiceDescriptorProto {
            name: Some("S".to_string()),
            method: vec![rpc("M", ".b.Missing", ".b.Missing")],
            ..Default::default()
        }],
        syntax: Some("proto3".to_string()),
        ..Default::default()
    }
    .encode_to_vec();
    let r = CachedDescriptors::load_discriptor(&vec![greet_file(false), broken], 0);
    assert!(matches!(r, Err(DescriptorLoadError::Integrity(_))));
}

#[test]
fn happy_path_say_hello() {
    let mut gw = Gateway::new();
    let ep = register_plain(&mut gw, "greet.Greeter", "127.0.0.1", "50051");
    assert_eq!(ep, "http://127.0.0.1:50051");
    assert_eq!(gw.resolve("greet.Greeter").unwrap(), "http://127.0.0.1:50051");
    let cache = greeter_cache(false, 0);
    let call = prepare_call(&cache, "greet.Greeter", "SayHello", json(r#"{"name":"Ada"}"#)).unwrap();
    assert_eq!(call.path, "/greet.Greeter/SayHello");
    assert!(gw.acquire_permit("greet.Greeter", 0).is_ok());
    assert!(matches!(gw.credential_step("greet.Greeter", 0), CredentialStep::NoCredential));
    let reply = say_hello_upstream(&cache, &call.body);
    let outcome = decode_response(&call.method, &reply);
    let resp = gw.finish_call("greet.Greeter", outcome, 1);
    assert_eq!(resp.status_code, 200);
    assert_eq!(resp.message, "success");
    assert_eq!(resp.status, "success");
    assert_eq!(resp.data, Some(json(r#"{"message":"hello, Ada"}"#)));
}

#[test]
fn unregistered_service() {
    let gw = Gateway::new();
    let resp = gw.resolve("x.Y").unwrap_err();
    assert_eq!(resp.status_code, 400);
    assert!(resp.message.contains("is not register"));
    assert_eq!(resp.status, "error");
    assert!(resp.data.is_none());
}

#[test]
fn transport_failure() {
    let mut gw = Gateway::new();
    register_plain(&mut gw, "greet.Greeter", "10.255.255.1", "1");
    assert!(gw.resolve("greet.Greeter").is_ok());
    let resp = Response::client_failure(ClientError::Transport("transport error".to_string()));
    assert_eq!(resp.status_code, 502);
    assert_eq!(resp.message, "Unknown transport failure");
    let resp = Response::client_failure(ClientError::Other("reflection failed".to_string()));
    assert_eq!(resp.status_code, 400);
    assert_eq!(resp.message, "reflection failed");
}

#[test]
fn outcome_classification() {
    let r = Response::from_outcome(Err(InvokeError::BreakerOpen));
    assert_eq!((r.status_code, r.message.as_str()), (503, "service unavailable"));
    let r = Response::from_outcome(Err(InvokeError::Status {
        code: GRPC_UNAVAILABLE,
        message: "down".to_string(),
    }));
    assert_eq!(r.status_code, 503);
    let r = Response::from_outcome(Err(InvokeError::Status { code: 5, message: "not found".to_string() }));
    assert_eq!((r.status_code, r.message.as_str()), (400, "not found"));
    let r = Response::from_outcome(Err(InvokeError::Unavailable("not ready".to_string())));
    assert_eq!(r.status_code, 503);
    let r = Response::from_outcome(Err(InvokeError::Transport("reset".to_string())));
    assert_eq!((r.status_code, r.message.as_str()), (502, "Unknown transport failure"));
    let r = Response::from_outcome(Err(InvokeError::Internal("x".to_string())));
    assert_eq!((r.status_code, r.message.as_str()), (500, "internal server error"));
    let r = Response::from_outcome(Err(InvokeError::MethodNotFound {
        service: "a.B".to_string(),
        method: "C".to_string(),
    }));
    assert_eq!((r.status_code, r.message.as_str()), (400, "Method a.B.C not found"));
    let r = Response::from_outcome(Err(InvokeError::Unauthorized("bad token".to_string())));
    assert_eq!((r.status_code, r.message.as_str()), (400, "bad token"));
    let r = Response::from_outcome(Err(InvokeError::Decode("bad bytes".to_string())));
    assert_eq!(r.status_code, 400);
    let r = Response::from_outcome(Err(InvokeError::BadRequest("bad json".to_string())));
    assert_eq!((r.status_code, r.message.as_str()), (400, "bad json"));
    assert_eq!(OutcomeKind::ServiceUnavailable.status_code(), 503);
    assert_eq!(OutcomeKind::Success.status_code(), 200);
}

#[test]
fn gateway_breaker_opens_and_recovers() {
    let mut gw = Gateway::with_breaker_config(CircuitBreakerConfig {
        failure_threshold: 3,
        recovery_timeout_ms: 1000,
        half_open_max_calls: 2,
    });
    register_plain(&mut gw, "greet.Greeter", "127.0.0.1", "50051");
    for t in 0..3u64 {
        assert!(gw.acquire_permit("greet.Greeter", t).is_ok());
        let r = gw.finish_call("greet.Greeter", Err(InvokeError::Transport("reset".to_string())), t);
        assert_eq!(r.status_code, 502);
    }
    let r = gw.acquire_permit("greet.Greeter", 3).unwrap_err();
    assert_eq!(r.status_code, 503);
    assert_eq!(r.message, "service unavailable");
    assert!(gw.acquire_permit("greet.Greeter", 1002).is_ok());
    gw.finish_call("greet.Greeter", Ok(json("{}")), 1002);
    assert!(gw.acquire_permit("greet.Greeter", 1003).is_ok());
    gw.finish_call("greet.Greeter", Ok(json("{}")), 1003);
    let breaker = gw.registry().discover("greet.Greeter").unwrap().breaker;
    assert_eq!(breaker.state(), CircuitBreakerState::Closed);
    assert!(gw.acquire_permit("greet.Greeter", 1004).is_ok());
}

#[test]
fn bearer_refresh_then_call() {
    let mut gw = Gateway::new();
    let now: u64 = 1_700_000_000;
    let req = ServiceRegisterRequest {
        service_name: "greet.Greeter".to_string(),
        host: "127.0.0.1".to_string(),
        port: "50051".to_string(),
        health_check_endpoint: String::new(),
        oauth_config: Some(InternalAuthConfig {
            auth_type: AuthType::JWTToken {
                header_name: "authorization".to_string(),
                value: String::new(),
            },
            auth_refresh_config: Some(AuthRefreshConfig {
                service_name: "auth.Tokens".to_string(),
                method: "Refresh".to_string(),
                access_token: "old-access".to_string(),
                expired_at: now - 1,
                refresh_token: "old-refresh".to_string(),
            }),
        }),
    };
    let config = gw.prepare_registration(req).unwrap();
    let check = config.validation_call().unwrap();
    assert_eq!(check.refresh_token, "old-refresh");
    gw.register(config, AuthCheck::Passed).unwrap();
    let q = match gw.credential_step("greet.Greeter", now) {
        CredentialStep::Refresh(q) => q,
        _ => panic!("expired token must be refreshed"),
    };
    assert_eq!(q.endpoint, "http://127.0.0.1:50051");
    assert_eq!(q.service_name, "auth.Tokens");
    assert_eq!(q.method, "Refresh");
    assert_eq!(q.refresh_token, "old-refresh");
    let data = RefreshAuthTokenJson::parse(
        "new-access".to_string(),
        "new-refresh".to_string(),
        "1700003600",
    )
    .unwrap();
    let (h, v) = gw.complete_refresh("greet.Greeter", Ok(data)).unwrap();
    assert_eq!(h, "authorization");
    assert_eq!(v, "new-access");
    match gw.credential_step("greet.Greeter", now) {
        CredentialStep::Attach { header_name, value } => {
            assert_eq!(header_name, "authorization");
            assert_eq!(value, "new-access");
        }
        _ => panic!("renewed token must be attached as it is"),
    }
    match &gw.registry().discover("greet.Greeter").unwrap().auth_config {
        Some(AuthConfig::JWTTokenAuth(j)) => {
            assert_eq!(j.refresh_token, "new-refresh");
            assert_eq!(j.expired_at, 1_700_003_600);
        }
        _ => panic!("credential lost"),
    }
    assert!(gw.acquire_permit("greet.Greeter", 0).is_ok());
    let resp = gw.finish_call("greet.Greeter", Ok(json(r#"{"message":"hi"}"#)), 1);
    assert_eq!(resp.status_code, 200);
}

#[test]
fn failed_refresh_is_unauthorized() {
    let mut gw = Gateway::new();
    let req = ServiceRegisterRequest {
        service_name: "s.S".to_string(),
        host: "h".to_string(),
        port: "1".to_string(),
        health_check_endpoint: String::new(),
        oauth_config: Some(InternalAuthConfig {
            auth_type: AuthType::JWTToken { header_name: "auth".to_string(), value: String::new() },
            auth_refresh_config: Some(AuthRefreshConfig {
                service_name: "a.T".to_string(),
                method: "R".to_string(),
                access_token: "x".to_string(),
                expired_at: 0,
                refresh_token: "y".to_string(),
            }),
        }),
    };
    let config = gw.prepare_registration(req).unwrap();
    gw.register(config, AuthCheck::Passed).unwrap();
    let e = gw
        .complete_refresh("s.S", Err(ValidationError("refresher down".to_string())))
        .unwrap_err();
    assert!(matches!(e, InvokeError::Unauthorized(ref m) if m == "refresher down"));
    let r = Response::from_outcome(Err(e));
    assert_eq!(r.status_code, 400);
}

#[test]
fn registration_check_failures_store_nothing() {
    let mut reg = ServiceRegistry::new(CircuitBreakerConfig::default());
    let req = ServiceRegisterRequest {
        service_name: "a.B".to_string(),
        host: "h".to_string(),
        port: "2".to_string(),
        health_check_endpoint: String::new(),
        oauth_config: None,
    };
    let config = reg.prepare(req).unwrap();
    let e = reg.register(config, AuthCheck::RefreshFailed).unwrap_err();
    assert_eq!(e.message(), "faild to refresh oauth config");
    assert!(reg.discover("a.B").is_none());
    let req = ServiceRegisterRequest {
        service_name: "a.B".to_string(),
        host: "h".to_string(),
        port: "2".to_string(),
        health_check_endpoint: String::new(),
        oauth_config: None,
    };
    let config = reg.prepare(req).unwrap();
    let e = reg.register(config, AuthCheck::Unreachable).unwrap_err();
    assert_eq!(e.message(), "service unavailable");
    assert!(reg.discover("a.B").is_none());
}

#[test]
fn registration_overwrites_and_updates_auth() {
    let mut reg = ServiceRegistry::new(CircuitBreakerConfig::default());
    for port in ["1", "2"] {
        let req = ServiceRegisterRequest {
            service_name: "a.B".to_string(),
            host: "h".to_string(),
            port: port.to_string(),
            health_check_endpoint: String::new(),
            oauth_config: None,
        };
        let config = reg.prepare(req).unwrap();
        reg.register(config, AuthCheck::Passed).unwrap();
    }
    assert_eq!(reg.discover("a.B").unwrap().endpoint, "http://h:2");
    let key = grpc_gateway::auth::APIKeyAuth::new("x-key".to_string(), "v".to_string());
    assert!(reg.update_auth_config("a.B", AuthConfig::APIKeyAuth(key)));
    let key = grpc_gateway::auth::APIKeyAuth::new("x-key".to_string(), "v".to_string());
    assert!(!reg.update_auth_config("nope", AuthConfig::APIKeyAuth(key)));
    assert_eq!(reg.discover("a.B").unwrap().auth_config.as_ref().unwrap().value(), "v");
}

#[test]
fn update_auth_refresh_config_replaces_tokens() {
    let mut reg = ServiceRegistry::new(CircuitBreakerConfig::default());
    let req = ServiceRegisterRequest {
        service_name: "s.S".to_string(),
        host: "h".to_string(),
        port: "1".to_string(),
        health_check_endpoint: String::new(),
        oauth_config: Some(InternalAuthConfig {
            auth_type: AuthType::JWTToken { header_name: "auth".to_string(), value: String::new() },
            auth_refresh_config: Some(AuthRefreshConfig {
                service_name: "a.T".to_string(),
                method: "R".to_string(),
                access_token: "x".to_string(),
                expired_at: 0,
                refresh_token: "y".to_string(),
            }),
        }),
    };
    let mut config = reg.prepare(req).unwrap();
    config.update_auth_refresh_config(AuthRefreshConfig {
        service_name: "a.T2".to_string(),
        method: "R2".to_string(),
        access_token: "x2".to_string(),
        expired_at: 9,
        refresh_token: "y2".to_string(),
    });
    match config.auth_config.as_ref().unwrap() {
        AuthConfig::JWTTokenAuth(j) => {
            assert_eq!(j.access_token, "x2");
            assert_eq!(j.method, "R2");
            assert_eq!(j.expired_at, 9);
            assert_eq!(j.header_name, "auth");
        }
        AuthConfig::APIKeyAuth(_) => panic!("wrong variant"),
    }
}

#[test]
fn descriptor_refresh_atomicity() {
    let mut manager =
        ReflectionDiscriptorManager::new(greeter_cache(true, 0), DEFAULT_REFRESH_INTERVAL_MS, 0);
    let snapshot_v1 = manager.current();
    // call A holds v1; a refresh publishes v2 without Echo
    manager.complete_refresh(Ok(greeter_cache(false, 10)), 10).unwrap();
    let call_a = prepare_call(&snapshot_v1, "greet.Greeter", "Echo", json(r#"{"name":"Ada"}"#)).unwrap();
    let echoed = decode_response(&call_a.method, &call_a.body).unwrap();
    assert_eq!(echoed, json(r#"{"name":"Ada"}"#));
    assert!(manager.get_method("greet.Greeter", "Echo").is_none());
    let v2 = manager.current();
    let err = prepare_call(&v2, "greet.Greeter", "Echo", json("{}")).err().unwrap();
    assert!(matches!(err, InvokeError::MethodNotFound { .. }));
    assert_eq!(Response::from_outcome(Err(err)).message, "Method greet.Greeter.Echo not found");
}

#[test]
fn failed_refresh_keeps_published_cache() {
    let mut manager =
        ReflectionDiscriptorManager::new(greeter_cache(true, 0), DEFAULT_REFRESH_INTERVAL_MS, 0);
    let before = manager.current();
    let failed = CachedDescriptors::load_discriptor(&vec![vec![0xff, 0xff]], 5);
    assert!(manager.complete_refresh(failed, 5).is_err());
    let after = manager.current();
    assert!(std::sync::Arc::ptr_eq(&before, &after));
    assert!(manager.refresh_due(DEFAULT_REFRESH_INTERVAL_MS));
    assert!(!manager.refresh_due(DEFAULT_REFRESH_INTERVAL_MS - 1));
    assert_eq!(manager.list_services(), vec!["greet.Greeter".to_string()]);
}

#[test]
fn json_round_trip_is_canonical() {
    let cache = greeter_cache(true, 0);
    let call = prepare_call(&cache, "greet.Greeter", "Echo", json(r#"{"name":"Grace"}"#)).unwrap();
    assert_eq!(decode_response(&call.method, &call.body).unwrap(), json(r#"{"name":"Grace"}"#));
    let call = prepare_call(&cache, "greet.Greeter", "Echo", json(r#"{}"#)).unwrap();
    assert!(call.body.is_empty());
    assert_eq!(decode_response(&call.method, &call.body).unwrap(), json("{}"));
}

#[test]
fn bad_payload_is_bad_request() {
    let cache = greeter_cache(false, 0);
    let err = prepare_call(&cache, "greet.Greeter", "SayHello", json(r#"{"name":5}"#)).err().unwrap();
    assert!(matches!(err, InvokeError::BadRequest(_)));
    let err = prepare_call(&cache, "greet.Greeter", "SayHello", json(r#"{"nope":"x"}"#)).err().unwrap();
    assert!(matches!(err, InvokeError::BadRequest(_)));
}

#[test]
fn bad_response_bytes_fail_decode() {
    let cache = greeter_cache(false, 0);
    let call = prepare_call(&cache, "greet.Greeter", "SayHello", json(r#"{"name":"A"}"#)).unwrap();
    assert!(matches!(decode_response(&call.method, &[0xff, 0xff]), Err(InvokeError::Decode(_))));
}

#[test]
fn codec_passes_bytes_through() {
    let mut codec = BytesCodec;
    let mut enc: BytesEncoder = codec.encoder();
    let mut dst = vec![1u8];
    enc.encode(&vec![2u8, 3], &mut dst);
    assert_eq!(dst, vec![1, 2, 3]);
    let mut dec: BytesDecoder = codec.decoder();
    let mut src = vec![7u8, 8];
    assert_eq!(dec.decode(&mut src), Some(vec![7, 8]));
    assert!(src.is_empty());
    assert_eq!(dec.decode(&mut src), None);
}

#[test]
fn load_of_no_files_is_empty() {
    let cache = CachedDescriptors::load_discriptor(&Vec::new(), 4).unwrap();
    assert!(cache.get_all_service().is_empty());
    assert_eq!(cache.last_updated_at(), 4);
}

#[test]
fn registered_credential_is_kept() {
    let mut gw = Gateway::new();
    let req = ServiceRegisterRequest {
        service_name: "k.K".to_string(),
        host: "h".to_string(),
        port: "9".to_string(),
        health_check_endpoint: String::new(),
        oauth_config: Some(InternalAuthConfig {
            auth_type: AuthType::APIKey { header_name: "x-key".to_string(), value: "secret".to_string() },
            auth_refresh_config: None,
        }),
    };
    let config = gw.prepare_registration(req).unwrap();
    assert!(config.validation_call().is_none());
    gw.register(config, AuthCheck::Passed).unwrap();
    match gw.credential_step("k.K", 0) {
        CredentialStep::Attach { header_name, value } => {
            assert_eq!(header_name, "x-key");
            assert_eq!(value, "secret");
        }
        _ => panic!("api key must be attached"),
    }
}
