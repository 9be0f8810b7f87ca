use threescale_auth::authrep::{authrep, build_call, decimal_text, AuthError, AuthRep};
use threescale_auth::configuration::{Backend, Configuration, Upstream};
use threescale_auth::credentials::{Application, Credentials, Location, Param, Request};
use threescale_auth::glob::{glob_match, GlobPatternSet};
use threescale_auth::http_context::{
    forbidden_body, metadata_headers, HeadersAction, HttpAuthThreescale, Phase, Verdict,
};
use threescale_auth::mapping::{match_usages, MappingRule, Usage};
use threescale_auth::service::{Environment, Service};

fn s(x: &str) -> String {
    x.to_string()
}

fn param(n: &str, v: &str) -> Param {
    Param { name: s(n), value: s(v) }
}

fn rule(method: &str, pattern: &str, metric: &str, delta: u64, last: bool) -> MappingRule {
    MappingRule { method: s(method), pattern: s(pattern), metric: s(metric), delta, last }
}

fn user_key_creds() -> Credentials {
    Credentials {
        user_key: vec![Location::Header(s("x-user-key")), Location::QueryString(s("user_key"))],
        app_id: vec![Location::Header(s("x-app-id"))],
        app_key: vec![Location::Header(s("x-app-key"))],
        oauth_token: vec![Location::Header(s("authorization"))],
    }
}

fn service_s1(rules: Vec<MappingRule>) -> Service {
    Service {
        id: s("S1"),
        environment: Environment::default(),
        token: s("T1"),
        authorities: GlobPatternSet::new(vec![s("*.example.com")]),
        credentials: user_key_creds(),
        mapping_rules: rules,
    }
}

fn backend() -> Backend {
    Backend { upstream: Upstream { name: s("outbound|443||su1.3scale.net"), url: s("https://su1.3scale.net"), default_timeout: 5000 } }
}

fn config(rules: Vec<MappingRule>, with_backend: bool, passthrough: bool) -> Configuration {
    Configuration {
        services: vec![service_s1(rules)],
        backend: if with_backend { Some(backend()) } else { None },
        passthrough_metadata: Some(passthrough),
    }
}

fn request(method: &str, path: &str, headers: Vec<Param>) -> Request {
    Request { method: s(method), path: s(path), authority: s("api.example.com"), headers, query: vec![] }
}

fn widgets_rule() -> Vec<MappingRule> {
    vec![rule("GET", "/v1/*", "hits", 1, true)]
}

fn metrics(us: &[Usage]) -> Vec<(String, u64)> {
    us.iter().map(|u| (u.metric.clone(), u.delta)).collect()
}

#[test]
fn glob_star_matches_subdomain_only() {
    assert!(glob_match("*.example.com", "api.example.com"));
    assert!(!glob_match("*.example.com", "example.com"));
    assert!(!glob_match("*.example.com", "api.example.org"));
    assert!(glob_match("exact.host", "exact.host"));
    assert!(!glob_match("Exact.host", "exact.host"));
}

#[test]
fn empty_pattern_set_matches_nothing() {
    let set = GlobPatternSet::new(vec![]);
    assert!(!set.is_match("api.example.com"));
    let svc = Service { authorities: GlobPatternSet::new(vec![]), ..service_s1(vec![]) };
    assert!(!svc.match_authority("anything"));
    assert!(svc.admits("anything"));
}

#[test]
fn empty_rules_give_empty_usages() {
    let us = match_usages(&vec![], "GET", "/v1/widgets");
    assert!(us.is_empty());
}

#[test]
fn overlapping_rules_accumulate_in_order() {
    let rules = vec![rule("GET", "/v1/*", "hits", 1, false), rule("GET", "/v1/widgets", "widgets", 2, false), rule("POST", "/v1/*", "writes", 3, false)];
    let first = match_usages(&rules, "GET", "/v1/widgets");
    let again = match_usages(&rules, "GET", "/v1/widgets");
    assert_eq!(metrics(&first), vec![(s("hits"), 1), (s("widgets"), 2)]);
    assert_eq!(metrics(&first), metrics(&again));
}

#[test]
fn last_rule_stops_evaluation() {
    let rules = vec![rule("GET", "/v1/*", "hits", 1, true), rule("GET", "/v1/widgets", "widgets", 2, false)];
    assert_eq!(metrics(&match_usages(&rules, "GET", "/v1/widgets")), vec![(s("hits"), 1)]);
    let rules = vec![rule("GET", "/v2/*", "other", 5, true), rule("GET", "/v1/widgets", "widgets", 2, false)];
    assert_eq!(metrics(&match_usages(&rules, "GET", "/v1/widgets")), vec![(s("widgets"), 2)]);
}

#[test]
fn user_key_wins_over_app_id() {
    let req = request("GET", "/v1/widgets", vec![param("x-app-id", "A1"), param("x-user-key", "K1")]);
    match user_key_creds().resolve(&req) {
        Some(Application::UserKey(k)) => assert_eq!(k, "K1"),
        _ => panic!("expected a user key"),
    }
}

#[test]
fn app_id_takes_optional_key() {
    let req = request("GET", "/", vec![param("x-app-id", "A1"), param("x-app-key", "AK")]);
    match user_key_creds().resolve(&req) {
        Some(Application::AppId(id, Some(key))) => {
            assert_eq!(id, "A1");
            assert_eq!(key, "AK");
        }
        _ => panic!("expected app id and key"),
    }
    let req = request("GET", "/", vec![]);
    assert!(user_key_creds().resolve(&req).is_none());
}

#[test]
fn scenario_user_key_resolves_and_builds_authrep() {
    let cfg = config(widgets_rule(), true, false);
    let req = request("GET", "/v1/widgets", vec![param("x-user-key", "K1")]);
    let ar = authrep(&cfg, &req).unwrap();
    assert_eq!(ar.service_id, "S1");
    assert_eq!(ar.service_token, "T1");
    assert_eq!(metrics(&ar.usages), vec![(s("hits"), 1)]);
    let call = build_call(&ar).unwrap();
    assert_eq!(call.method, "GET");
    assert!(call.uri.starts_with("/transactions/authrep.xml?"));
    assert!(call.uri.contains("service_id=S1"));
    assert!(call.uri.contains("service_token=T1"));
    assert!(call.uri.contains("user_key=K1"));
    assert!(call.uri.contains("hits"));
    assert!(call.body.is_none());
}

#[test]
fn build_call_refuses_oauth_and_missing_token() {
    let ar = AuthRep { service_id: s("S1"), service_token: s("T1"), app: Application::OAuthToken(s("tok")), usages: vec![] };
    assert!(matches!(build_call(&ar), Err(AuthError::BuildRequestFailed)));
    let ar = AuthRep { service_id: s("S1"), service_token: s(""), app: Application::UserKey(s("K1")), usages: vec![] };
    assert!(matches!(build_call(&ar), Err(AuthError::BuildRequestFailed)));
}

#[test]
fn unknown_authority_is_configuration_missing() {
    let cfg = config(widgets_rule(), true, false);
    let mut req = request("GET", "/v1/widgets", vec![param("x-user-key", "K1")]);
    req.authority = s("api.example.org");
    assert!(matches!(authrep(&cfg, &req), Err(AuthError::ConfigurationMissing)));
}

#[test]
fn failed_credentials_forbid_without_dispatch() {
    let mut ctx = HttpAuthThreescale::new(config(widgets_rule(), true, false), 1, 1, s("ctx1"));
    let req = request("GET", "/v1/widgets", vec![]);
    assert!(matches!(ctx.on_http_request_headers(&req), HeadersAction::Forbid(AuthError::CredentialResolutionFailed)));
    assert_eq!(ctx.phase, Phase::Done);
    assert_eq!(ctx.on_dispatch_result(Some(3)), Verdict::Ignore);
    assert_eq!(forbidden_body(), "Access forbidden.\n");
}

#[test]
fn no_backend_forbids() {
    let mut ctx = HttpAuthThreescale::new(config(widgets_rule(), false, false), 1, 1, s("ctx1"));
    let req = request("GET", "/v1/widgets", vec![param("x-user-key", "K1")]);
    assert!(matches!(ctx.on_http_request_headers(&req), HeadersAction::Forbid(AuthError::ConfigurationMissing)));
    assert_eq!(ctx.phase, Phase::Done);
}

#[test]
fn dispatch_failure_forbids() {
    let mut ctx = HttpAuthThreescale::new(config(widgets_rule(), true, false), 1, 1, s("ctx1"));
    let req = request("GET", "/v1/widgets", vec![param("x-user-key", "K1")]);
    assert!(matches!(ctx.on_http_request_headers(&req), HeadersAction::Dispatch(_)));
    assert_eq!(ctx.on_dispatch_result(None), Verdict::Forbid(AuthError::DispatchFailed));
}

#[test]
fn backend_403_rejects_request() {
    let mut ctx = HttpAuthThreescale::new(config(widgets_rule(), true, false), 1, 1, s("ctx1"));
    let req = request("GET", "/v1/widgets", vec![param("x-user-key", "K1")]);
    assert!(matches!(ctx.on_http_request_headers(&req), HeadersAction::Dispatch(_)));
    assert_eq!(ctx.on_dispatch_result(Some(7)), Verdict::Wait);
    assert_eq!(ctx.phase, Phase::Awaiting(7));
    let resp = vec![param(":status", "403")];
    assert_eq!(ctx.on_http_call_response(7, &resp), Verdict::Forbid(AuthError::BackendRejected));
    assert_eq!(ctx.phase, Phase::Done);
}

#[test]
fn backend_200_resumes_once() {
    let mut ctx = HttpAuthThreescale::new(config(widgets_rule(), true, false), 1, 1, s("ctx1"));
    let req = request("GET", "/v1/widgets", vec![param("x-user-key", "K1")]);
    ctx.on_http_request_headers(&req);
    ctx.on_dispatch_result(Some(9));
    let ok = vec![param("content-type", "text/xml"), param(":status", "200")];
    assert_eq!(ctx.on_http_call_response(8, &ok), Verdict::Ignore);
    assert_eq!(ctx.on_http_call_response(9, &ok), Verdict::Resume);
    assert_eq!(ctx.on_http_call_response(9, &ok), Verdict::Ignore);
}

#[test]
fn missing_status_rejects() {
    let mut ctx = HttpAuthThreescale::new(config(widgets_rule(), true, false), 1, 1, s("ctx1"));
    let req = request("GET", "/v1/widgets", vec![param("x-user-key", "K1")]);
    ctx.on_http_request_headers(&req);
    ctx.on_dispatch_result(Some(2));
    assert_eq!(ctx.on_http_call_response(2, &vec![]), Verdict::Forbid(AuthError::BackendRejected));
}

#[test]
fn passthrough_adds_metadata_headers() {
    let mut ctx = HttpAuthThreescale::new(config(widgets_rule(), true, true), 1, 1, s("ctx1"));
    let req = request("GET", "/v1/widgets", vec![param("x-app-id", "A1"), param("x-app-key", "AK")]);
    let h = match ctx.on_http_request_headers(&req) {
        HeadersAction::AddHeaders(h) => h,
        _ => panic!("expected metadata headers"),
    };
    let pairs: Vec<(String, String)> = h.iter().map(|p| (p.name.clone(), p.value.clone())).collect();
    assert_eq!(pairs[0], (s("x-3scale-app-id"), s("A1:AK")));
    assert_eq!(pairs[1], (s("x-3scale-cluster-name"), s("outbound|443||su1.3scale.net")));
    assert_eq!(pairs[2], (s("x-3scale-upstream-url"), s("https://su1.3scale.net")));
    assert_eq!(pairs[3], (s("x-3scale-timeout"), s("5000")));
    assert_eq!(pairs[4], (s("x-3scale-service-id"), s("S1")));
    assert_eq!(pairs[5], (s("x-3scale-service-token"), s("T1")));
    assert_eq!(pairs[6], (s("x-3scale-usages"), s("[[\"hits\",1]]")));
    assert_eq!(ctx.phase, Phase::Done);
}

#[test]
fn passthrough_refuses_oauth() {
    let mut ctx = HttpAuthThreescale::new(config(widgets_rule(), true, true), 1, 1, s("ctx1"));
    let req = request("GET", "/v1/widgets", vec![param("authorization", "tok")]);
    assert!(matches!(ctx.on_http_request_headers(&req), HeadersAction::Forbid(AuthError::MetadataEncodingFailed)));
}

#[test]
fn metadata_needs_backend() {
    let ar = AuthRep { service_id: s("S1"), service_token: s("T1"), app: Application::UserKey(s("K1")), usages: vec![] };
    assert!(matches!(metadata_headers(None, &ar, "[]"), Err(AuthError::ConfigurationMissing)));
    let b = backend();
    let h = metadata_headers(Some(&b.upstream), &ar, "[]").unwrap();
    assert_eq!(h[0].name, "x-3scale-user-key");
    assert_eq!(h[0].value, "K1");
}

#[test]
fn environment_names() {
    assert_eq!(Environment::default().as_str(), "production");
    assert_eq!(Environment::from_name("staging"), Environment::Staging);
    assert_eq!(Environment::from_name("qa"), Environment::Unknown);
    assert_eq!(Environment::Sandbox.as_str(), "sandbox");
    let svc = service_s1(vec![]);
    assert_eq!(svc.environment(), "production");
    assert_eq!(svc.id(), "S1");
    assert_eq!(svc.token(), "T1");
}

#[test]
fn response_marker_header() {
    let ctx = HttpAuthThreescale::new(config(vec![], true, false), 1, 1, s("ctx1"));
    let p = ctx.on_http_response_headers();
    assert_eq!(p.name, "Powered-By");
    assert_eq!(p.value, "3scale");
}

#[test]
fn app_id_and_key_are_encoded() {
    let ar = AuthRep {
        service_id: s("S1"),
        service_token: s("T1"),
        app: Application::AppId(s("A1"), Some(s("AK"))),
        usages: vec![Usage { metric: s("hits"), delta: 12 }],
    };
    let call = build_call(&ar).unwrap();
    assert!(call.uri.contains("app_id=A1"));
    assert!(call.uri.contains("app_key=AK"));
    assert!(call.uri.contains("=12"));
    assert!(!call.uri.contains("user_key"));
    assert!(call.headers.iter().any(|h| h.name == "User-Agent"));
}

#[test]
fn service_well_formedness() {
    let cfg = config(vec![], true, false);
    assert!(cfg.is_well_formed());
    let bad = Configuration { services: vec![Service { token: s(""), ..service_s1(vec![]) }], backend: None, passthrough_metadata: None };
    assert!(!bad.is_well_formed());
}

#[test]
fn decimal_text_writes_plain_digits() {
    assert_eq!(decimal_text(0), "0");
    assert_eq!(decimal_text(5000), "5000");
    assert_eq!(decimal_text(u64::MAX), u64::MAX.to_string());
}

#[test]
fn passthrough_with_no_usages_succeeds() {
    let mut ctx = HttpAuthThreescale::new(config(vec![], true, true), 1, 1, s("ctx1"));
    let req = request("GET", "/v1/widgets", vec![param("x-user-key", "K1")]);
    let h = match ctx.on_http_request_headers(&req) {
        HeadersAction::AddHeaders(h) => h,
        _ => panic!("expected metadata headers"),
    };
    assert_eq!(h.len(), 7);
    assert_eq!(h[0].name, "x-3scale-user-key");
    assert_eq!(h[6].name, "x-3scale-usages");
    assert_eq!(h[6].value, "[]");
}
