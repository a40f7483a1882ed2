use forward_gateway::cookies::{assemble_cookies, split_cookie};
use forward_gateway::envelope::{finish, unsupported_envelope, ResponseEnvelope, SuccessParts};
use forward_gateway::errors::GatewayError;
use forward_gateway::headers::{check_value, normalize_headers};
use forward_gateway::method::{classify_method, MethodKind};
use forward_gateway::pipeline::{
    assemble_response, create_client_config, plan_request, Plan, RunRequest,
};
use forward_gateway::profile::{pool_vec, random_profile, BrowserTag};
use forward_gateway::text::to_lower;

fn request(method: &str, headers: Vec<(String, String)>) -> RunRequest {
    RunRequest {
        url: "https://example.test/".to_string(),
        method: method.to_string(),
        data: String::new(),
        headers,
        proxy: "http://127.0.0.1:9/".to_string(),
        timeout: 5,
    }
}

#[test]
fn lower_cases_ascii_only() {
    assert_eq!(to_lower("X-Test"), "x-test");
    assert_eq!(to_lower("already-lower"), "already-lower");
    assert_eq!(to_lower("MiXeD123"), "mixed123");
    assert_eq!(to_lower(""), "");
}

#[test]
fn classifies_methods_case_insensitively() {
    assert_eq!(classify_method("GET"), MethodKind::Get);
    assert_eq!(classify_method("get"), MethodKind::Get);
    assert_eq!(classify_method("PoSt"), MethodKind::Post);
    assert_eq!(classify_method("POST"), MethodKind::Post);
    assert_eq!(classify_method("PATCH"), MethodKind::Unsupported);
    assert_eq!(classify_method("DELETE"), MethodKind::Unsupported);
    assert_eq!(classify_method(""), MethodKind::Unsupported);
    assert_eq!(classify_method("GETS"), MethodKind::Unsupported);
}

#[test]
fn header_names_are_case_insensitive() {
    let upper = vec![("X-Test".to_string(), "1".to_string())];
    let lower = vec![("x-test".to_string(), "1".to_string())];
    let a = normalize_headers(&upper).unwrap();
    let b = normalize_headers(&lower).unwrap();
    assert_eq!(a, b);
    assert_eq!(a, vec![("x-test".to_string(), "1".to_string())]);
}

#[test]
fn header_values_are_kept_verbatim() {
    let hs = vec![("Accept".to_string(), "Text/HTML, */*".to_string())];
    let out = normalize_headers(&hs).unwrap();
    assert_eq!(out, vec![("accept".to_string(), "Text/HTML, */*".to_string())]);
}

#[test]
fn illegal_header_value_aborts_the_request() {
    let hs = vec![
        ("ok".to_string(), "fine".to_string()),
        ("bad".to_string(), "line\nbreak".to_string()),
    ];
    match normalize_headers(&hs) {
        Err(GatewayError::HeaderEncoding(msg)) => assert!(!msg.is_empty()),
        _ => panic!("a header value with a line break must abort"),
    }
}

#[test]
fn header_value_validity_follows_the_transport() {
    assert!(check_value("plain value"));
    assert!(check_value("tab\tis fine"));
    assert!(check_value("beyond ascii is fine: \u{00e9}\u{4e2d}"));
    assert!(!check_value("del\u{7f}"));
    assert!(!check_value("cr\r"));
    assert!(!check_value("nul\u{0}"));
}

#[test]
fn cookie_splits_at_the_first_separator() {
    assert_eq!(
        split_cookie("a=b").unwrap(),
        ("a".to_string(), "b".to_string())
    );
    assert_eq!(
        split_cookie("a=b=c").unwrap(),
        ("a".to_string(), "b=c".to_string())
    );
    assert_eq!(
        split_cookie("=leading").unwrap(),
        ("".to_string(), "leading".to_string())
    );
}

#[test]
fn cookie_of_one_separator_splits_into_empty_halves() {
    assert_eq!(
        split_cookie("=").unwrap(),
        ("".to_string(), "".to_string())
    );
    assert_eq!(
        split_cookie("trailing=").unwrap(),
        ("trailing".to_string(), "".to_string())
    );
}

#[test]
fn empty_cookie_batch_stays_empty() {
    assert_eq!(assemble_cookies(&vec![]).unwrap(), vec![]);
}

#[test]
fn cookie_without_separator_fails_the_request() {
    match split_cookie("abc") {
        Err(GatewayError::Decode(msg)) => assert!(!msg.is_empty()),
        _ => panic!("a cookie without = must fail"),
    }
    let raw = vec!["a=b".to_string(), "nosep".to_string()];
    assert!(matches!(assemble_cookies(&raw), Err(GatewayError::Decode(_))));
}

#[test]
fn cookie_batch_keeps_order_and_split_points() {
    let raw = vec!["a=b".to_string(), "x=y=z".to_string()];
    let out = assemble_cookies(&raw).unwrap();
    assert_eq!(
        out,
        vec![
            ("a".to_string(), "b".to_string()),
            ("x".to_string(), "y=z".to_string()),
        ]
    );
}

#[test]
fn nameless_response_headers_are_dropped_silently() {
    let raw = vec![
        (Some("server".to_string()), Some("test".to_string())),
        (None, Some("continuation".to_string())),
        (None, None),
        (Some("etag".to_string()), Some("\"1\"".to_string())),
    ];
    let out = forward_gateway::response::assemble_headers(&raw).unwrap();
    assert_eq!(
        out,
        vec![
            ("server".to_string(), "test".to_string()),
            ("etag".to_string(), "\"1\"".to_string()),
        ]
    );
}

#[test]
fn named_header_without_text_value_is_fatal() {
    let raw = vec![(Some("server".to_string()), None)];
    assert!(matches!(
        forward_gateway::response::assemble_headers(&raw),
        Err(GatewayError::Decode(_))
    ));
}

#[test]
fn unsupported_method_yields_the_fixed_notice() {
    let env = unsupported_envelope();
    assert_eq!(env.code(), -1);
    match env {
        ResponseEnvelope::Unsupported { message } => {
            assert_eq!(message, "method not supported");
        },
        _ => panic!("the notice must use the unsupported variant"),
    }
}

#[test]
fn patch_is_rejected_without_a_dispatch_plan() {
    let req = request("PATCH", vec![]);
    match plan_request(&req).unwrap() {
        Plan::Reject(env) => {
            assert_eq!(env.code(), -1);
            match env {
                ResponseEnvelope::Unsupported { message } => {
                    assert_eq!(message, "method not supported");
                },
                _ => panic!("rejection must carry the unsupported notice"),
            }
        },
        Plan::Dispatch { .. } => panic!("PATCH must never be dispatched"),
    }
}

#[test]
fn get_plan_normalizes_headers_and_fixes_the_policy() {
    let req = request(
        "GET",
        vec![("X-Test".to_string(), "1".to_string())],
    );
    match plan_request(&req).unwrap() {
        Plan::Dispatch { config, get, url, body, headers } => {
            assert!(get);
            assert_eq!(url, "https://example.test/");
            assert_eq!(body, "");
            assert_eq!(headers, vec![("x-test".to_string(), "1".to_string())]);
            assert_eq!(config.proxy, "http://127.0.0.1:9/");
            assert!(!config.cert_verification);
            assert!(config.brotli);
            assert_eq!(config.timeout_secs, 10);
        },
        Plan::Reject(_) => panic!("GET must be dispatched"),
    }
}

#[test]
fn get_plan_with_no_headers_dispatches_none() {
    let req = request("GET", vec![]);
    match plan_request(&req).unwrap() {
        Plan::Dispatch { headers, .. } => assert!(headers.is_empty()),
        Plan::Reject(_) => panic!("GET must be dispatched"),
    }
}

#[test]
fn post_plan_carries_the_body() {
    let mut req = request("post", vec![]);
    req.data = "payload".to_string();
    match plan_request(&req).unwrap() {
        Plan::Dispatch { get, body, .. } => {
            assert!(!get);
            assert_eq!(body, "payload");
        },
        Plan::Reject(_) => panic!("POST must be dispatched"),
    }
}

#[test]
fn bad_header_value_stops_the_plan() {
    let req = request(
        "GET",
        vec![("h".to_string(), "bad\u{0}".to_string())],
    );
    assert!(matches!(
        plan_request(&req),
        Err(GatewayError::HeaderEncoding(_))
    ));
}

#[test]
fn success_envelope_passes_the_status_through() {
    let parts = assemble_response(
        418,
        &vec![(Some("server".to_string()), Some("teapot".to_string()))],
        "short and stout".to_string(),
        &vec!["a=b=c".to_string()],
        &BrowserTag::Chrome131,
    )
    .unwrap();
    assert_eq!(parts.status_code, 418);
    assert_eq!(parts.text, "short and stout");
    assert_eq!(parts.tls, "Chrome131");
    assert_eq!(
        parts.cookies,
        vec![("a".to_string(), "b=c".to_string())]
    );
    let env = finish(Ok(parts), 12);
    assert_eq!(env.code(), 0);
    match env {
        ResponseEnvelope::Success { status_code, cost, .. } => {
            assert_eq!(status_code, 418);
            assert_eq!(cost, 12);
        },
        _ => panic!("a completed exchange must wrap as a success"),
    }
}

#[test]
fn failure_envelope_carries_message_and_cost() {
    let env = finish(
        Err(GatewayError::Network("connection refused".to_string())),
        7,
    );
    assert_eq!(env.code(), 400);
    match env {
        ResponseEnvelope::Failure { message, cost } => {
            assert!(!message.is_empty());
            assert_eq!(message, "connection refused");
            assert_eq!(cost, 7);
        },
        _ => panic!("an error must wrap as a failure"),
    }
}

#[test]
fn configuration_error_becomes_a_failure_before_any_dispatch() {
    let env = finish(
        Err(GatewayError::Configuration("proxy url is malformed".to_string())),
        0,
    );
    assert_eq!(env.code(), 400);
    match env {
        ResponseEnvelope::Failure { message, cost } => {
            assert!(!message.is_empty());
            assert_eq!(cost, 0);
        },
        _ => panic!("a configuration error must wrap as a failure"),
    }
}

#[test]
fn profile_pool_is_the_declared_catalog() {
    let pool = pool_vec();
    assert_eq!(pool.len(), 18);
    assert_eq!(pool[0], BrowserTag::Chrome142);
    assert_eq!(pool[17], BrowserTag::Chrome124);
    assert_eq!(BrowserTag::Chrome142.name(), "Chrome142");
    assert_eq!(BrowserTag::Chrome124.name(), "Chrome124");
}

#[test]
fn selection_stays_in_the_pool_and_reaches_every_profile() {
    let pool = pool_vec();
    let mut seen = vec![0usize; pool.len()];
    for _ in 0..2000 {
        let tag = random_profile();
        let idx = pool
            .iter()
            .position(|t| *t == tag)
            .expect("a selected profile must come from the pool");
        seen[idx] += 1;
    }
    for (idx, count) in seen.iter().enumerate() {
        assert!(
            *count > 0,
            "profile {:?} was never selected in 2000 trials",
            pool[idx]
        );
    }
}

#[test]
fn every_context_uses_the_fixed_policy() {
    let config = create_client_config("http://proxy.test:8080/".to_string());
    assert_eq!(config.proxy, "http://proxy.test:8080/");
    assert!(!config.cert_verification);
    assert!(config.brotli);
    assert_eq!(config.timeout_secs, 10);
    assert!(pool_vec().contains(&config.profile));
}
