//! The PAC script that routes only the intercepted hosts (and their
//! subdomains) through the local proxy and everything else `DIRECT`, and the
//! one-shot HTTP exchange that serves it.
use vstd::prelude::*;
use vstd::string::StringSliceAdditionalSpecFns;

use crate::text::{
    lemma_contains_extend, lemma_join_contains_part, lemma_join_lacks, lemma_replace_all_absent,
    lower_char, ascii_lower, ascii_lower_chars, chars_of, decimal, decimal_chars, join, push_chars, push_str,
    replace_all, replace_all_chars, string_of, trim, trim_chars, trim_end_matches,
    trim_end_matches_chars,
};

verus! {

/// A host as the PAC script tests it: trimmed, trailing dots removed, ASCII
/// lower case.
pub open spec fn pac_host(host: Seq<char>) -> Seq<char> {
    ascii_lower(trim_end_matches(trim(host), '.'))
}

/// The JavaScript test for one host: the host itself or any subdomain.
pub open spec fn host_condition(host: Seq<char>) -> Seq<char> {
    "host === \""@ + pac_host(host) + "\" || host.endsWith(\"."@ + pac_host(host) + "\")"@
}

/// The tests of all hosts, one per line joined by `||`; `false` when there
/// are none.
pub open spec fn host_conditions(hosts: Seq<Seq<char>>) -> Seq<char> {
    if hosts.len() == 0 {
        "false"@
    } else {
        join(hosts.map_values(|h: Seq<char>| host_condition(h)), "\n    || "@)
    }
}

/// The placeholder of the port in the script's template. It is filled after
/// the host conditions are in place; a host in lower case cannot hold it.
pub open spec fn port_placeholder() -> Seq<char> {
    "__PORT__"@
}

/// The condition line of the script.
pub open spec fn condition_line(conditions: Seq<char>) -> Seq<char> {
    "if ("@ + conditions + ") {"@
}

/// The answer of the script for the routed hosts.
pub open spec fn proxy_answer(port: u16) -> Seq<char> {
    "PROXY 127.0.0.1:"@ + decimal(port as nat)
}

/// The PAC script for these hosts and proxy port.
pub open spec fn pac_script(hosts: Seq<Seq<char>>, port: u16) -> Seq<char> {
    "function FindProxyForURL(url, host) {\n  host = host.toLowerCase();\n  "@ + condition_line(
        replace_all(host_conditions(hosts), port_placeholder(), decimal(port as nat)),
    ) + "\n    return \""@ + proxy_answer(port) + "\";\n  }\n  return \"DIRECT\";\n}\n"@
}

/// The views of a list of strings.
pub open spec fn string_views(v: Seq<String>) -> Seq<Seq<char>> {
    v.map_values(|s: String| s@)
}

/// The test for one host.
fn host_condition_chars(host: &str) -> (r: Vec<char>)
    ensures
        r@ == host_condition(host@),
{
    let chars = chars_of(host);
    let trimmed = trim_chars(&chars);
    let no_dots = trim_end_matches_chars(&trimmed, '.');
    let h = ascii_lower_chars(&no_dots);
    let mut out: Vec<char> = Vec::new();
    push_str(&mut out, "host === \"");
    push_chars(&mut out, &h);
    push_str(&mut out, "\" || host.endsWith(\".");
    push_chars(&mut out, &h);
    push_str(&mut out, "\")");
    out
}

/// The tests of all hosts.
fn host_conditions_chars(hosts: &[String]) -> (r: Vec<char>)
    ensures
        r@ == host_conditions(string_views(hosts@)),
{
    let ghost views = string_views(hosts@);
    let ghost conds = views.map_values(|h: Seq<char>| host_condition(h));
    if hosts.len() == 0 {
        let mut out: Vec<char> = Vec::new();
        push_str(&mut out, "false");
        return out;
    }
    let mut out = host_condition_chars(hosts[0].as_str());
    assert(conds.take(1) =~= seq![conds[0]]);
    let mut i: usize = 1;
    while i < hosts.len()
        invariant
            1 <= i <= hosts@.len(),
            views == string_views(hosts@),
            conds == views.map_values(|h: Seq<char>| host_condition(h)),
            out@ == join(conds.take(i as int), "\n    || "@),
        decreases hosts@.len() - i,
    {
        push_str(&mut out, "\n    || ");
        let c = host_condition_chars(hosts[i].as_str());
        push_chars(&mut out, &c);
        assert(conds.take(i + 1).drop_last() =~= conds.take(i as int));
        i = i + 1;
    }
    assert(conds.take(hosts@.len() as int) =~= conds);
    out
}

/// PAC script that routes only the intercepted hosts through the local MITM
/// proxy and lets everything else (messenger, WebRTC/STUN, long-poll, CDN) go
/// DIRECT.
pub fn content(hosts: &[String], proxy_port: u16) -> (r: String)
    ensures
        r@ == pac_script(string_views(hosts@), proxy_port),
{
    let port = decimal_chars(proxy_port as u64);
    let conditions = host_conditions_chars(hosts);
    let placeholder = chars_of("__PORT__");
    assert(placeholder@.len() > 0) by {
        reveal_strlit("__PORT__");
    }
    let filled = replace_all_chars(&conditions, &placeholder, &port);
    let mut out: Vec<char> = Vec::new();
    push_str(&mut out, "function FindProxyForURL(url, host) {\n  host = host.toLowerCase();\n  ");
    push_str(&mut out, "if (");
    push_chars(&mut out, &filled);
    push_str(&mut out, ") {");
    push_str(&mut out, "\n    return \"");
    push_str(&mut out, "PROXY 127.0.0.1:");
    push_chars(&mut out, &port);
    push_str(&mut out, "\";\n  }\n  return \"DIRECT\";\n}\n");
    let r = string_of(&out);
    proof {
        assert(r@ =~= pac_script(string_views(hosts@), proxy_port));
    }
    r
}

/// `seen` bytes of `buf` hold a complete request head: the empty line
/// `\r\n\r\n` occurs in them.
pub open spec fn head_complete(buf: Seq<u8>, seen: int) -> bool {
    exists|i: int|
        0 <= i && i + 4 <= seen && #[trigger] buf.subrange(i, i + 4) == seq![13u8, 10, 13, 10]
}

/// Whether the PAC server stops reading the request: the head is complete,
/// or the buffer is full.
pub fn request_done(buf: &[u8], seen: usize) -> (r: bool)
    requires
        seen <= buf@.len(),
    ensures
        r == (head_complete(buf@, seen as int) || seen == buf@.len()),
{
    if seen == buf.len() {
        return true;
    }
    if seen < 4 {
        return false;
    }
    let mut i: usize = 0;
    while i <= seen - 4
        invariant
            4 <= seen <= buf@.len(),
            forall|k: int|
                0 <= k < i ==> #[trigger] buf@.subrange(k, k + 4) != seq![13u8, 10, 13, 10],
        decreases seen - i,
    {
        if buf[i] == 13 && buf[i + 1] == 10 && buf[i + 2] == 13 && buf[i + 3] == 10 {
            assert(buf@.subrange(i as int, i + 4) =~= seq![13u8, 10, 13, 10]);
            return true;
        }
        assert(buf@.subrange(i as int, i + 4) != seq![13u8, 10, 13, 10]) by {
            if buf@.subrange(i as int, i + 4) == seq![13u8, 10, 13, 10] {
                assert(buf@.subrange(i as int, i + 4)[0] == buf@[i as int]);
                assert(buf@.subrange(i as int, i + 4)[1] == buf@[i + 1]);
                assert(buf@.subrange(i as int, i + 4)[2] == buf@[i + 2]);
                assert(buf@.subrange(i as int, i + 4)[3] == buf@[i + 3]);
            }
        }
        i = i + 1;
    }
    false
}

/// The HTTP response that carries the PAC script.
pub open spec fn pac_response_text(content: Seq<char>, content_bytes: nat) -> Seq<char> {
    "HTTP/1.1 200 OK\r\nContent-Type: application/x-ns-proxy-autoconfig\r\nContent-Length: "@
        + decimal(content_bytes) + "\r\nCache-Control: no-cache\r\nConnection: close\r\n\r\n"@
        + content
}

/// The HTTP response that carries the PAC script; its length is the script's
/// length in bytes (`str::len`).
pub fn pac_response(content: &str) -> (r: String)
    ensures
        r@ == pac_response_text(content@, content.len() as nat),
{
    let length = decimal_chars(content.len() as u64);
    let mut out: Vec<char> = Vec::new();
    push_str(
        &mut out,
        "HTTP/1.1 200 OK\r\nContent-Type: application/x-ns-proxy-autoconfig\r\nContent-Length: ",
    );
    push_chars(&mut out, &length);
    push_str(&mut out, "\r\nCache-Control: no-cache\r\nConnection: close\r\n\r\n");
    push_str(&mut out, content);
    string_of(&out)
}

} // verus!

verus! {

// ---------------------------------------------------------------------------
// Laws
// ---------------------------------------------------------------------------

/// The script routes what its condition accepts to the proxy on the given
/// port: it holds the condition line and the proxy answer.
pub proof fn law_pac_routes_to_proxy(hosts: Seq<Seq<char>>, port: u16)
    ensures
        crate::text::contains(pac_script(hosts, port), proxy_answer(port)),
        crate::text::contains(
            pac_script(hosts, port),
            condition_line(replace_all(host_conditions(hosts), port_placeholder(), decimal(port as nat))),
        ),
{
    let head = "function FindProxyForURL(url, host) {\n  host = host.toLowerCase();\n  "@;
    let line = condition_line(
        replace_all(host_conditions(hosts), port_placeholder(), decimal(port as nat)),
    );
    let mid = "\n    return \""@;
    let tail = "\";\n  }\n  return \"DIRECT\";\n}\n"@;
    let answer = proxy_answer(port);
    crate::text::lemma_contains_middle(head + line + mid, answer, tail);
    crate::text::lemma_contains_middle(head, line, mid + answer + tail);
    assert(head + line + (mid + answer + tail) =~= pac_script(hosts, port));
}

/// A host in canonical form holds no upper case `P`, and neither does its
/// test.
proof fn lemma_host_condition_lacks_p(host: Seq<char>)
    ensures
        !host_condition(host).contains('P'),
{
    reveal_strlit("host === \"");
    reveal_strlit("\" || host.endsWith(\".");
    reveal_strlit("\")");
    let h = pac_host(host);
    assert(!h.contains('P')) by {
        if h.contains('P') {
            let k = choose|k: int| 0 <= k < h.len() && h[k] == 'P';
            assert(h[k] == lower_char(trim_end_matches(trim(host), '.')[k]));
        }
    }
    let a = "host === \""@;
    let b = "\" || host.endsWith(\"."@;
    let c = "\")"@;
    let cond = a + h + b + h + c;
    assert forall|k: int| 0 <= k < cond.len() implies cond[k] != 'P' by {
        if k < a.len() {
            assert(cond[k] == a[k]);
        } else if k < a.len() + h.len() {
            assert(cond[k] == h[k - a.len()]);
        } else if k < a.len() + h.len() + b.len() {
            assert(cond[k] == b[k - a.len() - h.len()]);
        } else if k < a.len() + h.len() + b.len() + h.len() {
            assert(cond[k] == h[k - a.len() - h.len() - b.len()]);
        } else {
            assert(cond[k] == c[k - a.len() - h.len() - b.len() - h.len()]);
        }
    }
}

/// The host tests never hold the port placeholder, so filling it in leaves
/// them as they are.
proof fn lemma_conditions_unchanged_by_port(hosts: Seq<Seq<char>>, port: u16)
    ensures
        replace_all(host_conditions(hosts), port_placeholder(), decimal(port as nat))
            == host_conditions(hosts),
{
    reveal_strlit("__PORT__");
    reveal_strlit("false");
    reveal_strlit("\n    || ");
    if hosts.len() > 0 {
        let conds = hosts.map_values(|h: Seq<char>| host_condition(h));
        assert forall|i: int| 0 <= i < conds.len() implies !(#[trigger] conds[i]).contains('P') by {
            lemma_host_condition_lacks_p(hosts[i]);
        }
        lemma_join_lacks(conds, "\n    || "@, 'P');
    }
    assert(port_placeholder()[2] == 'P');
    lemma_replace_all_absent(host_conditions(hosts), port_placeholder(), decimal(port as nat), 2);
}

/// The script sends each configured host, and each of its subdomains, to the
/// proxy: its test is part of the script's condition, whatever the port.
pub proof fn law_pac_tests_each_host(hosts: Seq<Seq<char>>, port: u16, i: int)
    requires
        0 <= i < hosts.len(),
    ensures
        crate::text::contains(
            pac_script(hosts, port),
            condition_line(host_conditions(hosts)),
        ),
        crate::text::contains(pac_script(hosts, port), host_condition(hosts[i])),
{
    reveal_strlit("\n    || ");
    let conds = hosts.map_values(|h: Seq<char>| host_condition(h));
    lemma_join_contains_part(conds, "\n    || "@, i);
    lemma_conditions_unchanged_by_port(hosts, port);
    law_pac_routes_to_proxy(hosts, port);
    let head = "function FindProxyForURL(url, host) {\n  host = host.toLowerCase();\n  "@;
    let rest = "\n    return \""@ + proxy_answer(port) + "\";\n  }\n  return \"DIRECT\";\n}\n"@;
    lemma_contains_extend(head + "if ("@, host_conditions(hosts), ") {"@ + rest, host_condition(hosts[i]));
    assert(head + "if ("@ + host_conditions(hosts) + (") {"@ + rest) =~= pac_script(hosts, port));
}

/// Without hosts the script's condition is `false`: everything goes DIRECT.
pub proof fn law_pac_without_hosts_is_direct(port: u16)
    ensures
        host_conditions(Seq::empty()) == "false"@,
        crate::text::contains(pac_script(Seq::empty(), port), "if (false) {"@),
{
    reveal_strlit("false");
    reveal_strlit("__PORT__");
    reveal_strlit("if (");
    reveal_strlit(") {");
    reveal_strlit("if (false) {");
    assert(replace_all("false"@, port_placeholder(), decimal(port as nat)) == "false"@);
    assert(condition_line("false"@) =~= "if (false) {"@);
    law_pac_routes_to_proxy(Seq::empty(), port);
}

/// The script's condition is the disjunction of the hosts' tests: `false`
/// without hosts, the one test for one host, and each further host's test
/// appended on a new line after `||`.
pub proof fn law_pac_condition_is_a_disjunction(hosts: Seq<Seq<char>>)
    ensures
        hosts.len() == 0 ==> host_conditions(hosts) == "false"@,
        hosts.len() == 1 ==> host_conditions(hosts) == host_condition(hosts[0]),
        hosts.len() >= 2 ==> host_conditions(hosts) == host_conditions(hosts.drop_last())
            + "\n    || "@ + host_condition(hosts.last()),
{
    let conds = hosts.map_values(|h: Seq<char>| host_condition(h));
    if hosts.len() >= 2 {
        assert(conds.drop_last() =~= hosts.drop_last().map_values(|h: Seq<char>| host_condition(h)));
    }
}

/// The test for one host accepts the host itself and its subdomains, the
/// host taken trimmed of white space and trailing dots, in ASCII lower case.
pub proof fn law_pac_host_test(host: Seq<char>)
    ensures
        host_condition(host) == "host === \""@ + ascii_lower(trim_end_matches(trim(host), '.'))
            + "\" || host.endsWith(\"."@ + ascii_lower(trim_end_matches(trim(host), '.'))
            + "\")"@,
{
}

/// The whole script: the host is lower-cased, the condition of all hosts'
/// tests sends it to the proxy on `127.0.0.1` at the given port, and every
/// other host goes `DIRECT`.
pub proof fn law_pac_script_text(hosts: Seq<Seq<char>>, port: u16)
    ensures
        pac_script(hosts, port) == "function FindProxyForURL(url, host) {\n  host = host.toLowerCase();\n  "@
            + "if ("@ + host_conditions(hosts) + ") {"@ + "\n    return \""@
            + "PROXY 127.0.0.1:"@ + decimal(port as nat) + "\";\n  }\n  return \"DIRECT\";\n}\n"@,
{
    lemma_conditions_unchanged_by_port(hosts, port);
    assert(pac_script(hosts, port) =~= "function FindProxyForURL(url, host) {\n  host = host.toLowerCase();\n  "@
        + "if ("@ + host_conditions(hosts) + ") {"@ + "\n    return \""@ + "PROXY 127.0.0.1:"@
        + decimal(port as nat) + "\";\n  }\n  return \"DIRECT\";\n}\n"@);
}

} // verus!
