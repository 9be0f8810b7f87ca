use threescale_auth::target::{find_char, parse_query, request_from_target, split_on, split_target};
use threescale_auth::credentials::Param;

fn pairs(ps: &[Param]) -> Vec<(String, String)> {
    ps.iter().map(|p| (p.name.clone(), p.value.clone())).collect()
}

fn p(a: &str, b: &str) -> (String, String) {
    (a.to_string(), b.to_string())
}

#[test]
fn split_keeps_empty_pieces() {
    assert_eq!(split_on("a&&b", '&'), vec!["a", "", "b"]);
    assert_eq!(split_on("", '&'), vec![""]);
    assert_eq!(find_char("ab=c=d", '='), Some(2));
    assert_eq!(find_char("abc", '='), None);
}

#[test]
fn query_pieces_become_params() {
    let q = parse_query("user_key=K1&&flag&x=a=b");
    assert_eq!(pairs(&q), vec![p("user_key", "K1"), p("flag", ""), p("x", "a=b")]);
    assert!(parse_query("").is_empty());
}

#[test]
fn target_splits_at_first_question_mark() {
    let (path, q) = split_target("/v1/widgets?user_key=K1?x");
    assert_eq!(path, "/v1/widgets");
    assert_eq!(pairs(&q), vec![p("user_key", "K1?x")]);
    let (path, q) = split_target("/plain");
    assert_eq!(path, "/plain");
    assert!(q.is_empty());
}

#[test]
fn request_from_target_reads_query_credentials() {
    let req = request_from_target("GET".to_string(), "/v1/widgets?user_key=K1", "api.example.com".to_string(), vec![]);
    assert_eq!(req.path, "/v1/widgets");
    assert_eq!(pairs(&req.query), vec![p("user_key", "K1")]);
}
