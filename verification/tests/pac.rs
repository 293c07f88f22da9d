use rexy::pac::{content, pac_response, request_done};

#[test]
fn pac_contains_all_hosts() {
    let pac = content(&["a.example.com".into(), "b.example.com".into()], 8888);

    assert!(pac.contains("host === \"a.example.com\" || host.endsWith(\".a.example.com\")"));
    assert!(pac.contains("host === \"b.example.com\" || host.endsWith(\".b.example.com\")"));
    assert!(pac.contains("PROXY 127.0.0.1:8888"));
}

#[test]
fn pac_empty_hosts_routes_direct() {
    let pac = content(&[], 8888);

    assert!(pac.contains("if (false)"));
    assert!(pac.contains("PROXY 127.0.0.1:8888"));
}

#[test]
fn pac_script_is_exact() {
    let pac = content(&[" A.Example.com. ".into(), "b.example.com".into()], 0);
    assert_eq!(
        pac,
        "function FindProxyForURL(url, host) {\n  host = host.toLowerCase();\n  if (host === \"a.example.com\" || host.endsWith(\".a.example.com\")\n    || host === \"b.example.com\" || host.endsWith(\".b.example.com\")) {\n    return \"PROXY 127.0.0.1:0\";\n  }\n  return \"DIRECT\";\n}\n"
    );
}

#[test]
fn pac_port_placeholder_in_host_is_lowercased_first() {
    let pac = content(&["x__PORT__y".into()], 65535);
    assert!(pac.contains("host === \"x__port__y\""));
    assert!(pac.contains("PROXY 127.0.0.1:65535"));
}

#[test]
fn pac_response_carries_length_and_script() {
    assert_eq!(
        pac_response("héllo"),
        "HTTP/1.1 200 OK\r\nContent-Type: application/x-ns-proxy-autoconfig\r\nContent-Length: 6\r\nCache-Control: no-cache\r\nConnection: close\r\n\r\nhéllo"
    );
}

#[test]
fn request_done_on_empty_line_or_full_buffer() {
    let buf = b"GET /proxy.pac HTTP/1.1\r\nHost: x\r\n\r\n....";
    assert!(request_done(buf, buf.len() - 4));
    assert!(!request_done(buf, 20));
    assert!(request_done(&buf[..20], 20));
    assert!(!request_done(buf, 0));
    assert!(request_done(b"\r\n\r", 3));
    assert!(!request_done(b"\r\n\rx", 3));
}
