use webhook_proxy::denylist::Denylist;
use webhook_proxy::extract::{find_head_commit_author, find_pr_author};
use webhook_proxy::forward_uri;
use webhook_proxy::gateway::strip_host_headers;
use webhook_proxy::json::JsonValue;
use webhook_proxy::port::{parse_port, startup_port};

fn obj(entries: Vec<(&str, JsonValue)>) -> JsonValue {
    JsonValue::Object(
        entries
            .into_iter()
            .map(|(k, v)| (k.to_string(), v))
            .collect(),
    )
}

fn s(text: &str) -> JsonValue {
    JsonValue::Str(text.to_string())
}

#[test]
fn forward_uri_preserves_path_and_query() {
    assert_eq!(
        forward_uri("/api/webhooks/foo?x=1"),
        "https://discord.com/api/webhooks/foo?x=1"
    );
}

#[test]
fn forward_uri_preserves_a_bare_path() {
    assert_eq!(
        forward_uri("/api/webhooks/foo"),
        "https://discord.com/api/webhooks/foo"
    );
}

#[test]
fn pr_strategy_extracts_the_login() {
    let v = obj(vec![(
        "pull_request",
        obj(vec![("user", obj(vec![("login", s("alice"))]))]),
    )]);
    assert_eq!(find_pr_author(&v), Some("alice".to_string()));
    assert_eq!(find_head_commit_author(&v), None);
}

#[test]
fn head_commit_strategy_extracts_the_name() {
    let v = obj(vec![(
        "head_commit",
        obj(vec![("author", obj(vec![("name", s("bob"))]))]),
    )]);
    assert_eq!(find_head_commit_author(&v), Some("bob".to_string()));
    assert_eq!(find_pr_author(&v), None);
}

#[test]
fn strategies_ignore_missing_or_misshapen_steps() {
    assert_eq!(find_pr_author(&JsonValue::Null), None);
    assert_eq!(find_pr_author(&s("alice")), None);
    assert_eq!(find_pr_author(&obj(vec![("pull_request", s("alice"))])), None);
    let login_is_number = obj(vec![(
        "pull_request",
        obj(vec![("user", obj(vec![("login", JsonValue::Number)]))]),
    )]);
    assert_eq!(find_pr_author(&login_is_number), None);
}

#[test]
fn member_returns_the_first_binding_of_a_key() {
    let v = JsonValue::Object(vec![
        ("k".to_string(), s("first")),
        ("k".to_string(), s("second")),
    ]);
    assert_eq!(v.member("k"), Some(&s("first")));
}

#[test]
fn denylist_membership_is_an_exact_string_match() {
    let deny = Denylist::banned_set();
    assert!(deny.contains(&"dependabot[bot]".to_string()));
    assert!(!deny.contains(&"alice".to_string()));
    assert!(!deny.contains(&"dependabot".to_string()));
    let empty = Denylist::new();
    assert!(!empty.contains(&"dependabot[bot]".to_string()));
}

#[test]
fn host_header_is_stripped_and_order_kept() {
    let headers = vec![
        ("content-type".to_string(), "application/json".to_string()),
        ("host".to_string(), "proxy.example".to_string()),
        ("x-github-event".to_string(), "push".to_string()),
    ];
    let stripped = strip_host_headers(headers);
    assert_eq!(
        stripped,
        vec![
            ("content-type".to_string(), "application/json".to_string()),
            ("x-github-event".to_string(), "push".to_string()),
        ]
    );
}

#[test]
fn parse_port_accepts_exactly_decimal_port_numbers() {
    assert_eq!(parse_port("9000"), Some(9000));
    assert_eq!(parse_port("0"), Some(0));
    assert_eq!(parse_port("65535"), Some(65535));
    assert_eq!(parse_port("08080"), Some(8080));
    assert_eq!(parse_port(""), None);
    assert_eq!(parse_port("abc"), None);
    assert_eq!(parse_port("80a"), None);
    assert_eq!(parse_port("-1"), None);
    assert_eq!(parse_port("65536"), None);
    assert_eq!(parse_port("999999999"), None);
}

#[test]
fn startup_port_defaults_only_when_unconfigured() {
    assert_eq!(startup_port(None), Some(8080));
    assert_eq!(startup_port(Some("9000")), Some(9000));
    assert_eq!(startup_port(Some("not a port")), None);
}
