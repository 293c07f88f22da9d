use rexy::cli::{pac_hosts, pac_url, resolve_rules, RuleSource, RunArgs};
use rexy::error::Error;
use rexy::proxy_handler::{CspOverride, RedirectRule};

fn base_args() -> RunArgs {
    RunArgs {
        browser: "chrome".into(),
        file: None,
        host: None,
        path: None,
        target: None,
        proxy_port: 0,
        csp_override: None,
        browser_args: vec![],
    }
}

fn inline_rules(args: &RunArgs) -> Vec<RedirectRule> {
    match resolve_rules(args).unwrap() {
        RuleSource::Rules(rules) => rules,
        RuleSource::File(path) => panic!("unexpected file source {path}"),
    }
}

#[test]
fn file_conflicts_with_single_rule_flags() {
    let mut args = base_args();
    args.file = Some("rules.toml".into());
    args.host = Some("a.example.com".into());

    assert!(resolve_rules(&args).is_err());
}

#[test]
fn single_rule_mode_requires_host_and_target() {
    let args = base_args();
    assert!(resolve_rules(&args).is_err());

    let mut args = base_args();
    args.host = Some("a.example.com".into());
    assert!(resolve_rules(&args).is_err());
}

#[test]
fn single_rule_mode_defaults_path() {
    let mut args = base_args();
    args.host = Some("a.example.com".into());
    args.target = Some("http://127.0.0.1:1111".into());

    let rules = inline_rules(&args);

    assert_eq!(rules.len(), 1);
    assert_eq!(rules[0].host(), "a.example.com");
    assert_eq!(rules[0].path(), "/");
    assert_eq!(rules[0].target(), "http://127.0.0.1:1111");
}

#[test]
fn single_rule_mode_rejects_invalid_csp() {
    let mut args = base_args();
    args.host = Some("a.example.com".into());
    args.target = Some("http://127.0.0.1:1111".into());
    args.csp_override = Some("bad\nheader".into());

    assert!(resolve_rules(&args).is_err());
}

#[test]
fn file_mode_names_the_file() {
    let mut args = base_args();
    args.file = Some("rules.toml".into());
    match resolve_rules(&args).unwrap() {
        RuleSource::File(path) => assert_eq!(path, "rules.toml"),
        RuleSource::Rules(_) => panic!("expected the file"),
    }
}

#[test]
fn file_conflicts_with_each_single_rule_flag() {
    for which in 0..4 {
        let mut args = base_args();
        args.file = Some("rules.toml".into());
        match which {
            0 => args.host = Some("a.example.com".into()),
            1 => args.path = Some("/".into()),
            2 => args.target = Some("http://127.0.0.1:1".into()),
            _ => args.csp_override = Some("off".into()),
        }
        assert_eq!(resolve_rules(&args).err(), Some(Error::FileWithRuleFlags));
    }
}

#[test]
fn missing_target_is_reported() {
    let mut args = base_args();
    args.host = Some("a.example.com".into());
    assert_eq!(resolve_rules(&args).err(), Some(Error::HostOrTargetMissing));
    assert_eq!(
        Error::HostOrTargetMissing.message(),
        "either --file or --host/--target are required"
    );
}

#[test]
fn single_rule_mode_keeps_path_and_override() {
    let mut args = base_args();
    args.host = Some("A.Example.COM.".into());
    args.path = Some("/app/".into());
    args.target = Some("http://127.0.0.1:5173/".into());
    args.csp_override = Some("  frame-ancestors *  ".into());

    let rules = inline_rules(&args);

    assert_eq!(rules[0].host(), "a.example.com");
    assert_eq!(rules[0].path(), "/app/");
    assert_eq!(rules[0].target(), "http://127.0.0.1:5173");
    assert_eq!(
        rules[0].csp_override(),
        Some(&CspOverride::Policy("frame-ancestors *".into()))
    );
}

#[test]
fn override_is_checked_before_host() {
    let mut args = base_args();
    args.host = Some("https://a.example.com".into());
    args.target = Some("http://127.0.0.1:1111".into());
    args.csp_override = Some("   ".into());
    assert_eq!(resolve_rules(&args).err(), Some(Error::CspEmpty));

    args.csp_override = None;
    assert_eq!(resolve_rules(&args).err(), Some(Error::HostHasScheme));
}

#[test]
fn single_rule_mode_rejects_relative_path_and_bad_target() {
    let mut args = base_args();
    args.host = Some("a.example.com".into());
    args.target = Some("http://127.0.0.1:1111".into());
    args.path = Some("app".into());
    assert_eq!(resolve_rules(&args).err(), Some(Error::PathNotAbsolute));

    args.path = None;
    args.target = Some("ftp://127.0.0.1:1111".into());
    assert_eq!(resolve_rules(&args).err(), Some(Error::TargetNotHttp));
}

#[test]
fn pac_hosts_and_url() {
    let rules = vec![
        RedirectRule::new("a.example.com".into(), "/".into(), "http://127.0.0.1:1".into(), None),
        RedirectRule::new("B.example.com".into(), "/x".into(), "http://127.0.0.1:2".into(), None),
    ];
    assert_eq!(pac_hosts(&rules), vec!["a.example.com".to_string(), "b.example.com".to_string()]);
    assert_eq!(pac_url("127.0.0.1:40000"), "http://127.0.0.1:40000/proxy.pac");
}
