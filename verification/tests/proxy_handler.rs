use hudsucker::hyper::header::{self, HeaderMap};
use hudsucker::hyper::Response;
use hudsucker::Body;
use rexy::proxy_handler::{
    apply_csp_override, normalize_host, normalize_path_prefix, CspOverride, DevRedirect,
    RedirectRule, RequestHead,
};

fn headers_with_csp(values: &[&str]) -> HeaderMap {
    let mut headers = HeaderMap::new();
    for value in values {
        headers.append(header::CONTENT_SECURITY_POLICY, value.parse().unwrap());
    }
    headers
}

fn handler(csp_override: Option<CspOverride>) -> DevRedirect {
    DevRedirect::new(
        "example.com".into(),
        "/".into(),
        "http://127.0.0.1:5173".into(),
        csp_override,
    )
}

/// The parts of `https://{host}{path}` with a `Host: {host}` header that the
/// handler reads.
fn request_to(host: &str, path: &str) -> RequestHead {
    RequestHead {
        host: Some(host.to_string()),
        path: path.split('?').next().unwrap().to_string(),
        path_and_query: Some(path.to_string()),
    }
}

fn response_with_csp(policy: &str) -> Response<Body> {
    let mut res = Response::new(Body::empty());
    res.headers_mut()
        .insert(header::CONTENT_SECURITY_POLICY, policy.parse().unwrap());
    res
}

fn respond(h: &mut DevRedirect, mut res: Response<Body>) -> Response<Body> {
    h.handle_response_inner(res.headers_mut());
    res
}

#[test]
fn policy_replaces_existing_csp() {
    let mut headers = headers_with_csp(&["frame-ancestors 'self'"]);
    apply_csp_override(
        &mut headers,
        &CspOverride::Policy("frame-ancestors *".into()),
    );

    assert_eq!(
        headers[header::CONTENT_SECURITY_POLICY],
        "frame-ancestors *"
    );
}

#[test]
fn off_removes_all_csp_headers() {
    let mut headers = headers_with_csp(&["default-src 'self'", "frame-ancestors 'none'"]);
    apply_csp_override(&mut headers, &CspOverride::Off);

    assert!(!headers.contains_key(header::CONTENT_SECURITY_POLICY));
}

#[test]
fn policy_collapses_multiple_csp_headers_into_one() {
    let mut headers = headers_with_csp(&["default-src 'self'", "frame-ancestors 'self'"]);
    apply_csp_override(
        &mut headers,
        &CspOverride::Policy("frame-ancestors *".into()),
    );

    assert_eq!(
        headers
            .get_all(header::CONTENT_SECURITY_POLICY)
            .iter()
            .count(),
        1
    );
}

#[test]
fn report_only_is_untouched() {
    let mut headers = headers_with_csp(&["frame-ancestors 'self'"]);
    headers.append(
        header::CONTENT_SECURITY_POLICY_REPORT_ONLY,
        "default-src 'none'".parse().unwrap(),
    );

    apply_csp_override(&mut headers, &CspOverride::Off);

    assert!(!headers.contains_key(header::CONTENT_SECURITY_POLICY));
    assert_eq!(
        headers[header::CONTENT_SECURITY_POLICY_REPORT_ONLY],
        "default-src 'none'"
    );
}

#[test]
fn invalid_policy_leaves_headers_alone() {
    let mut headers = headers_with_csp(&["frame-ancestors 'self'"]);
    apply_csp_override(&mut headers, &CspOverride::Policy("a\nb".into()));
    assert_eq!(headers[header::CONTENT_SECURITY_POLICY], "frame-ancestors 'self'");
}

#[test]
fn override_twice_is_override_once() {
    let mut headers = headers_with_csp(&["a", "b"]);
    let policy = CspOverride::Policy("c".into());
    apply_csp_override(&mut headers, &policy);
    let once = headers.clone();
    apply_csp_override(&mut headers, &policy);
    assert_eq!(headers, once);
}

#[test]
fn response_for_redirected_request_gets_override() {
    let mut h = handler(Some(CspOverride::Off));

    let req = request_to("example.com", "/app.js");
    let _ = h.handle_request_inner(&req);

    let res = respond(&mut h, response_with_csp("frame-ancestors 'self'"));

    assert!(!res.headers().contains_key(header::CONTENT_SECURITY_POLICY));
}

#[test]
fn response_for_passthrough_request_is_untouched() {
    let mut h = handler(Some(CspOverride::Off));

    let req = request_to("other.com", "/app.js");
    let _ = h.handle_request_inner(&req);

    let res = respond(&mut h, response_with_csp("frame-ancestors 'self'"));

    assert_eq!(
        res.headers()[header::CONTENT_SECURITY_POLICY],
        "frame-ancestors 'self'"
    );
}

#[test]
fn response_without_override_keeps_csp() {
    let mut h = handler(None);

    let req = request_to("example.com", "/app.js");
    let _ = h.handle_request_inner(&req);

    let res = respond(&mut h, response_with_csp("frame-ancestors 'self'"));

    assert_eq!(
        res.headers()[header::CONTENT_SECURITY_POLICY],
        "frame-ancestors 'self'"
    );
}

#[test]
fn response_without_prior_request_is_untouched() {
    let mut h = handler(Some(CspOverride::Off));

    let res = respond(&mut h, response_with_csp("frame-ancestors 'self'"));

    assert_eq!(
        res.headers()[header::CONTENT_SECURITY_POLICY],
        "frame-ancestors 'self'"
    );
}

#[test]
fn non_redirected_state_does_not_leak_into_cloned_handler() {
    let mut connect_handler = handler(Some(CspOverride::Off));
    let _ = connect_handler.handle_request_inner(&request_to("other.com", "/"));

    let mut inner = connect_handler.clone();
    let _ = inner.handle_request_inner(&request_to("example.com", "/"));

    let res = respond(&mut inner, response_with_csp("frame-ancestors 'self'"));

    assert!(!res.headers().contains_key(header::CONTENT_SECURITY_POLICY));
}

#[test]
fn second_response_is_untouched() {
    let mut h = handler(Some(CspOverride::Off));
    let _ = h.handle_request_inner(&request_to("example.com", "/"));
    let first = respond(&mut h, response_with_csp("a"));
    assert!(!first.headers().contains_key(header::CONTENT_SECURITY_POLICY));
    let second = respond(&mut h, response_with_csp("a"));
    assert_eq!(second.headers()[header::CONTENT_SECURITY_POLICY], "a");
}

#[test]
fn redirected_request_goes_to_target() {
    let mut h = handler(None);
    let rewrite = h.handle_request_inner(&request_to("Example.COM:443", "/app.js?v=1"));
    let uri = rewrite.uri.expect("redirected");
    assert_eq!(uri.into_uri().to_string(), "http://127.0.0.1:5173/app.js?v=1");
    assert_eq!(rewrite.host.expect("host header"), "127.0.0.1:5173");
}

#[test]
fn request_without_host_header_passes_through() {
    let mut h = handler(Some(CspOverride::Off));
    let rewrite = h.handle_request_inner(&RequestHead {
        host: None,
        path: "/".into(),
        path_and_query: Some("/".into()),
    });
    assert!(rewrite.uri.is_none());
    assert!(rewrite.host.is_none());
    let res = respond(&mut h, response_with_csp("a"));
    assert_eq!(res.headers()[header::CONTENT_SECURITY_POLICY], "a");
}

#[test]
fn first_matching_rule_wins() {
    let mut h = DevRedirect::with_rules(vec![
        RedirectRule::new("a.com".into(), "/app/".into(), "http://127.0.0.1:1".into(), None),
        RedirectRule::new("a.com".into(), "/".into(), "http://127.0.0.1:2/".into(), Some(CspOverride::Policy("x".into()))),
    ]);
    let rewrite = h.handle_request_inner(&request_to("a.com", "/app/index.html"));
    assert_eq!(rewrite.uri.unwrap().into_uri().to_string(), "http://127.0.0.1:1/app/index.html");
    let res = respond(&mut h, response_with_csp("a"));
    assert_eq!(res.headers()[header::CONTENT_SECURITY_POLICY], "a");

    let rewrite = h.handle_request_inner(&request_to("a.com", "/other"));
    assert_eq!(rewrite.uri.unwrap().into_uri().to_string(), "http://127.0.0.1:2/other");
    let res = respond(&mut h, response_with_csp("a"));
    assert_eq!(res.headers()[header::CONTENT_SECURITY_POLICY], "x");
}

#[test]
fn path_prefix_must_match() {
    let mut h = DevRedirect::new("a.com".into(), "/app/".into(), "http://127.0.0.1:1".into(), None);
    let rewrite = h.handle_request_inner(&request_to("a.com", "/ap"));
    assert!(rewrite.uri.is_none());
}

#[test]
fn tls_interception_only_for_rule_hosts() {
    let h = DevRedirect::new("Example.com.".into(), "".into(), "http://127.0.0.1:1".into(), None);
    assert!(h.matches_host("example.com"));
    assert!(h.matches_host(" EXAMPLE.com:443 "));
    assert!(h.matches_host("example.com..."));
    assert!(!h.matches_host("example.com.:443"));
    assert!(!h.matches_host("sub.example.com"));
    assert!(!h.matches_host("other.com"));
    assert_eq!(h.rules()[0].path(), "/");
}

#[test]
fn host_and_path_normalization() {
    assert_eq!(normalize_host("  Example.COM.:8443 "), "example.com.");
    assert_eq!(normalize_host("  Example.COM:8443 "), "example.com");
    assert_eq!(normalize_host("a.b..."), "a.b");
    assert_eq!(normalize_path_prefix(""), "/");
    assert_eq!(normalize_path_prefix("app"), "/app");
    assert_eq!(normalize_path_prefix("/app"), "/app");
}

#[test]
fn redirected_uri_keeps_path_and_query() {
    let mut h = DevRedirect::new("example.com".into(), "/app/".into(), "http://127.0.0.1:5173/".into(), None);
    let rewrite = h.handle_request_inner(&request_to("example.com", "/app/x.js?v=1"));
    let uri = rewrite.uri.expect("redirected");
    assert_eq!(uri.scheme(), Some("http"));
    assert_eq!(uri.authority(), Some("127.0.0.1:5173"));
    assert_eq!(uri.host(), Some("127.0.0.1"));
    assert_eq!(uri.path_and_query(), Some("/app/x.js?v=1"));
    assert_eq!(uri.into_uri().to_string(), "http://127.0.0.1:5173/app/x.js?v=1");
    assert_eq!(rewrite.host.expect("host header"), "127.0.0.1:5173");
}

fn many_names(n: usize) -> HeaderMap {
    let mut headers = headers_with_csp(&["a"]);
    for i in 0..n {
        let name = header::HeaderName::from_bytes(format!("x-h{i}").as_bytes()).unwrap();
        headers.insert(name, "v".parse().unwrap());
    }
    headers
}

#[test]
fn override_applies_to_a_map_with_many_header_names() {
    let mut h = handler(Some(CspOverride::Policy("p".into())));
    let _ = h.handle_request_inner(&request_to("example.com", "/"));
    let mut headers = many_names(6554);
    h.handle_response_inner(&mut headers);
    assert_eq!(headers[header::CONTENT_SECURITY_POLICY], "p");
    assert_eq!(headers.keys_len(), 6555);
    let second = respond(&mut h, response_with_csp("a"));
    assert_eq!(second.headers()[header::CONTENT_SECURITY_POLICY], "a");

    let mut h = handler(Some(CspOverride::Off));
    let _ = h.handle_request_inner(&request_to("example.com", "/"));
    let mut headers = many_names(6554);
    h.handle_response_inner(&mut headers);
    assert!(!headers.contains_key(header::CONTENT_SECURITY_POLICY));
}

#[test]
fn matching_rule_is_the_first_that_applies() {
    let h = DevRedirect::with_rules(vec![
        RedirectRule::new("a.com".into(), "/app/".into(), "http://127.0.0.1:1".into(), None),
        RedirectRule::new("A.com.".into(), "/".into(), "http://127.0.0.1:2".into(), None),
    ]);
    assert_eq!(h.matching_rule(&request_to("a.com", "/app/x")), Some(0));
    assert_eq!(h.matching_rule(&request_to(" A.COM:443 ", "/other")), Some(1));
    assert_eq!(h.matching_rule(&request_to("b.com", "/app/x")), None);
    let no_host = RequestHead { host: None, path: "/app/x".into(), path_and_query: None };
    assert_eq!(h.matching_rule(&no_host), None);
}

#[test]
fn rewrite_request_decides_without_changing_the_handler() {
    let h = DevRedirect::new("example.com".into(), "/app/".into(), "http://127.0.0.1:5173/".into(), None);
    let (rule, rewrite) = h.rewrite_request(&request_to("example.com", "/app/x.js?v=1"));
    assert_eq!(rule, Some(0));
    assert_eq!(rewrite.uri.unwrap().into_uri().to_string(), "http://127.0.0.1:5173/app/x.js?v=1");
    let (rule, rewrite) = h.rewrite_request(&request_to("example.com", "/other"));
    assert_eq!(rule, None);
    assert!(rewrite.uri.is_none() && rewrite.host.is_none());
}
