use rexy::config::{
    default_path, parse_csp_value, rule_from_file, rules_from_file, validate_host, validate_path,
    validate_target, FileRule,
};
use hudsucker::hyper::header::{HeaderMap, CONTENT_SECURITY_POLICY};
use rexy::error::Error;
use rexy::proxy_handler::CspOverride;

fn entry(host: &str, path: Option<&str>, target: &str, csp: Option<&str>) -> FileRule {
    FileRule {
        host: host.into(),
        path: path.map(String::from).unwrap_or_else(default_path),
        target: target.into(),
        csp_override: csp.map(String::from),
    }
}

#[test]
fn parse_csp_value_accepts_off_and_policy() {
    assert_eq!(parse_csp_value("off").unwrap(), CspOverride::Off);
    assert_eq!(
        parse_csp_value("frame-ancestors *").unwrap(),
        CspOverride::Policy("frame-ancestors *".into())
    );
    assert!(parse_csp_value("   ").is_err());
    assert!(parse_csp_value("x\ny").is_err());
}

#[test]
fn parse_csp_value_is_case_insensitive_and_trims() {
    assert_eq!(parse_csp_value("  OfF \t").unwrap(), CspOverride::Off);
    assert_eq!(
        parse_csp_value("\u{3000}default-src 'self'\n").unwrap(),
        CspOverride::Policy("default-src 'self'".into())
    );
    assert_eq!(parse_csp_value("").err(), Some(Error::CspEmpty));
    assert_eq!(
        parse_csp_value("a\u{7f}b").err(),
        Some(Error::CspInvalidHeader("a\u{7f}b".into()))
    );
    assert_eq!(
        parse_csp_value("tab\tand é").unwrap(),
        CspOverride::Policy("tab\tand é".into())
    );
}

#[test]
fn csp_error_messages() {
    assert_eq!(
        parse_csp_value("x\ny").err().unwrap().message(),
        "csp override contains characters invalid for an HTTP header: \"x\\ny\""
    );
    assert_eq!(
        Error::CspEmpty.message(),
        "csp override cannot be empty: pass a policy or 'off'"
    );
}

#[test]
fn host_checks() {
    assert_eq!(validate_host(""), Err(Error::HostEmpty));
    assert_eq!(validate_host("https://a.example.com"), Err(Error::HostHasScheme));
    assert_eq!(validate_host("a.example.com/app"), Err(Error::HostHasPath));
    assert_eq!(validate_host("a.example.com:8443"), Ok(()));
    assert_eq!(Error::HostHasPath.message(), "host must not contain a path");
}

#[test]
fn path_checks() {
    assert_eq!(validate_path("/"), Ok(()));
    assert_eq!(validate_path("/app/"), Ok(()));
    assert_eq!(validate_path("app"), Err(Error::PathNotAbsolute));
    assert_eq!(validate_path(""), Err(Error::PathNotAbsolute));
}

#[test]
fn target_checks() {
    assert_eq!(validate_target("http://127.0.0.1:1111"), Ok(()));
    assert_eq!(validate_target("https://localhost"), Ok(()));
    assert_eq!(validate_target("ftp://127.0.0.1:1111"), Err(Error::TargetNotHttp));
    assert_eq!(validate_target("/only/a/path"), Err(Error::TargetNotHttp));
    match validate_target("http://exa mple.com") {
        Err(Error::TargetUnparsable(message)) => assert!(!message.is_empty()),
        other => panic!("unexpected {other:?}"),
    }
}

#[test]
fn loads_multiple_rules_with_defaults() {
    let rules = rules_from_file(vec![
        entry("a.example.com", None, "http://127.0.0.1:1111", None),
        entry("b.example.com", Some("/app/"), "http://127.0.0.1:2222", Some("off")),
    ])
    .unwrap();

    assert_eq!(rules.len(), 2);
    assert_eq!(rules[0].host(), "a.example.com");
    assert_eq!(rules[0].path(), "/");
    assert_eq!(rules[0].target(), "http://127.0.0.1:1111");
    assert_eq!(rules[0].csp_override(), None);
    assert_eq!(rules[1].host(), "b.example.com");
    assert_eq!(rules[1].path(), "/app/");
    assert_eq!(rules[1].target(), "http://127.0.0.1:2222");
    assert_eq!(rules[1].csp_override(), Some(&CspOverride::Off));
}

#[test]
fn csp_override_policy_is_parsed() {
    let rules = rules_from_file(vec![entry(
        "a.example.com",
        None,
        "http://127.0.0.1:1111",
        Some("frame-ancestors *"),
    )])
    .unwrap();

    assert_eq!(
        rules[0].csp_override(),
        Some(&CspOverride::Policy("frame-ancestors *".into()))
    );
}

#[test]
fn empty_rules_list_is_ok() {
    assert_eq!(rules_from_file(vec![]).unwrap().len(), 0);
}

#[test]
fn rejects_invalid_host() {
    assert!(rules_from_file(vec![entry(
        "https://a.example.com",
        None,
        "http://127.0.0.1:1111",
        None
    )])
    .is_err());
}

#[test]
fn rejects_invalid_target() {
    assert!(rules_from_file(vec![entry("a.example.com", None, "ftp://127.0.0.1:1111", None)])
        .is_err());
}

#[test]
fn rejects_invalid_csp_override() {
    assert!(rules_from_file(vec![entry(
        "a.example.com",
        None,
        "http://127.0.0.1:1111",
        Some("frame-ancestors *\nX-Evil: y")
    )])
    .is_err());
}

#[test]
fn first_failing_entry_decides() {
    let result = rules_from_file(vec![
        entry("a.example.com", None, "http://127.0.0.1:1111", None),
        entry("b.example.com", Some("app"), "http://127.0.0.1:2222", None),
        entry("", None, "http://127.0.0.1:2222", None),
    ]);
    assert_eq!(result.err(), Some(Error::PathNotAbsolute));
}

#[test]
fn rule_from_file_checks_in_order() {
    assert_eq!(
        rule_from_file(entry("", Some("x"), "ftp://x", Some(""))).err(),
        Some(Error::HostEmpty)
    );
    assert_eq!(
        rule_from_file(entry("a", Some("x"), "ftp://x", Some(""))).err(),
        Some(Error::PathNotAbsolute)
    );
    assert_eq!(
        rule_from_file(entry("a", None, "ftp://x", Some(""))).err(),
        Some(Error::TargetNotHttp)
    );
    assert_eq!(
        rule_from_file(entry("a", None, "http://x", Some(""))).err(),
        Some(Error::CspEmpty)
    );
    let rule = rule_from_file(entry("A.B.", None, "http://x//", None)).unwrap();
    assert_eq!(rule.host(), "a.b");
    assert_eq!(rule.target(), "http://x");
}

#[test]
fn accepted_policy_header_is_applied() {
    let policy = parse_csp_value("  script-src 'none' ").unwrap();
    let mut headers = HeaderMap::new();
    rexy::proxy_handler::apply_csp_override(&mut headers, &policy);
    assert_eq!(headers[CONTENT_SECURITY_POLICY], "script-src 'none'");
}
