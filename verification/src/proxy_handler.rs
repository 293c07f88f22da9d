//! Redirect rules and the proxy's decisions: which TLS connections it
//! intercepts, which requests it sends to the local dev server and how, and
//! what it does to the `Content-Security-Policy` of the answers.
use hudsucker::hyper::header::{HeaderMap, HeaderValue};
use vstd::prelude::*;
use vstd::string::StringSliceAdditionalSpecFns;
use vstd::utf8::encode_utf8;

use crate::http::{
    csp_header_name, csp_name_bytes, header_map_contents, header_map_insert_bound,
    header_map_remove, header_map_try_insert, header_value_bytes, header_value_from_str,
    is_header_value, parse_uri, uri_parse, ParsedUri, UriParts,
};
use crate::text::{
    ascii_lower, ascii_lower_chars, before_first, before_first_chars, chars_of, opt_chars,
    push_str, starts_with, starts_with_chars, string_of, trim, trim_chars, trim_end_matches,
    trim_end_matches_chars,
};

verus! {

// ---------------------------------------------------------------------------
// Content-Security-Policy override
// ---------------------------------------------------------------------------

/// How to rewrite the `Content-Security-Policy` header of responses served
/// from the local target.
#[derive(Clone, Debug, PartialEq)]
pub enum CspOverride {
    /// Remove all Content-Security-Policy headers.
    Off,
    /// Replace all Content-Security-Policy headers with this policy string.
    Policy(String),
}

/// A `CspOverride` with its policy as characters.
pub ghost enum CspAction {
    Remove,
    Replace(Seq<char>),
}

impl View for CspOverride {
    type V = CspAction;

    open spec fn view(&self) -> CspAction {
        match self {
            CspOverride::Off => CspAction::Remove,
            CspOverride::Policy(p) => CspAction::Replace(p@),
        }
    }
}

/// An optional override by its view.
pub open spec fn csp_option_view(o: Option<CspOverride>) -> Option<CspAction> {
    match o {
        Some(c) => Some(c@),
        None => None,
    }
}

/// Header contents after an override: `Remove` drops every CSP value;
/// `Replace` leaves exactly the policy under the CSP name when the policy is a
/// valid header value, and changes nothing otherwise. No other header is
/// touched (the report-only header has another name).
pub open spec fn csp_applied(
    contents: Map<Seq<u8>, Seq<Seq<u8>>>,
    action: CspAction,
) -> Map<Seq<u8>, Seq<Seq<u8>>> {
    match action {
        CspAction::Remove => contents.remove(csp_name_bytes()),
        CspAction::Replace(p) => if is_header_value(encode_utf8(p)) {
            contents.insert(csp_name_bytes(), seq![encode_utf8(p)])
        } else {
            contents
        },
    }
}

/// Whether an override inserts into the map: it is a policy that may stand in
/// a header value.
pub open spec fn inserts_policy(action: CspAction) -> bool {
    match action {
        CspAction::Replace(p) => is_header_value(encode_utf8(p)),
        CspAction::Remove => false,
    }
}

/// What applying `action` to headers with contents `before` may leave: the
/// override applied; or, where a policy is inserted into a map with too many
/// header names for its table to be sure to grow, possibly the map as it was
/// (the insert then fails instead of panicking).
pub open spec fn csp_result(
    before: Map<Seq<u8>, Seq<Seq<u8>>>,
    action: CspAction,
    after: Map<Seq<u8>, Seq<Seq<u8>>>,
) -> bool {
    ||| after == csp_applied(before, action)
    ||| (inserts_policy(action) && before.dom().len() >= header_map_insert_bound() && after
        == before)
}

/// Replace or remove every `Content-Security-Policy` header.
pub fn apply_csp_override(headers: &mut HeaderMap<HeaderValue>, csp: &CspOverride)
    ensures
        csp_result(header_map_contents(*old(headers)), csp@, header_map_contents(*final(headers))),
{
    match csp {
        CspOverride::Off => {
            let name = csp_header_name();
            header_map_remove(headers, &name);
        },
        CspOverride::Policy(policy) => {
            let text = policy.as_str();
            assert(text.spec_bytes() == encode_utf8(policy@));
            match header_value_from_str(text) {
                Some(value) => {
                    header_map_try_insert(headers, csp_header_name(), value);
                },
                None => {},
            }
        },
    }
}

// ---------------------------------------------------------------------------
// Rules
// ---------------------------------------------------------------------------

/// Canonical form of a rule's production host: trailing dots removed, ASCII
/// lower case.
pub open spec fn rule_host(host: Seq<char>) -> Seq<char> {
    ascii_lower(trim_end_matches(host, '.'))
}

/// Canonical form of a path prefix: `/` for the empty prefix, otherwise the
/// prefix with a leading `/` added when it lacks one.
pub open spec fn path_prefix(path: Seq<char>) -> Seq<char> {
    if path.len() == 0 {
        seq!['/']
    } else if path[0] == '/' {
        path
    } else {
        seq!['/'] + path
    }
}

/// Canonical form of a rule's target: trailing slashes removed.
pub open spec fn target_base(target: Seq<char>) -> Seq<char> {
    trim_end_matches(target, '/')
}

/// The host of a request as rules compare it: trimmed of white space, trailing
/// dots removed, the port (from the first `:`) removed, ASCII lower case.
pub open spec fn request_host(host: Seq<char>) -> Seq<char> {
    ascii_lower(before_first(trim_end_matches(trim(host), '.'), ':'))
}

/// One redirect: requests to `host` whose path starts with `path` are served
/// from `target`.
#[derive(Clone, Debug, PartialEq)]
pub struct RedirectRule {
    host: String,
    path: String,
    target: String,
    csp_override: Option<CspOverride>,
}

/// A rule by its parts.
pub ghost struct RuleView {
    pub host: Seq<char>,
    pub path: Seq<char>,
    pub target: Seq<char>,
    pub csp: Option<CspAction>,
}

impl View for RedirectRule {
    type V = RuleView;

    closed spec fn view(&self) -> RuleView {
        RuleView {
            host: self.host@,
            path: self.path@,
            target: self.target@,
            csp: csp_option_view(self.csp_override),
        }
    }
}

/// The rule that `RedirectRule::new` makes of these parts.
pub open spec fn rule_of(
    host: Seq<char>,
    path: Seq<char>,
    target: Seq<char>,
    csp: Option<CspAction>,
) -> RuleView {
    RuleView { host: rule_host(host), path: path_prefix(path), target: target_base(target), csp }
}

/// The views of a list of rules.
pub open spec fn rule_views(rules: Seq<RedirectRule>) -> Seq<RuleView> {
    rules.map_values(|r: RedirectRule| r@)
}

impl RedirectRule {
    /// A rule with its host, path and target put into canonical form.
    pub fn new(
        host: String,
        path: String,
        target: String,
        csp_override: Option<CspOverride>,
    ) -> (r: Self)
        ensures
            r@ == rule_of(host@, path@, target@, csp_option_view(csp_override)),
    {
        let host_chars = chars_of(host.as_str());
        let host_trimmed = trim_end_matches_chars(&host_chars, '.');
        let host_lower = ascii_lower_chars(&host_trimmed);
        let target_chars = chars_of(target.as_str());
        let target_trimmed = trim_end_matches_chars(&target_chars, '/');
        RedirectRule {
            host: string_of(&host_lower),
            path: normalize_path_prefix(path.as_str()),
            target: string_of(&target_trimmed),
            csp_override,
        }
    }

    /// The production host, in canonical form.
    pub fn host(&self) -> (r: &str)
        ensures
            r@ == self@.host,
    {
        self.host.as_str()
    }

    /// The path prefix, in canonical form.
    pub fn path(&self) -> (r: &str)
        ensures
            r@ == self@.path,
    {
        self.path.as_str()
    }

    /// The local target, without trailing slashes.
    pub fn target(&self) -> (r: &str)
        ensures
            r@ == self@.target,
    {
        self.target.as_str()
    }

    /// The CSP override of responses redirected by this rule.
    pub fn csp_override(&self) -> (r: Option<&CspOverride>)
        ensures
            csp_option_view(
                match r {
                    Some(c) => Some(*c),
                    None => None,
                },
            ) == self@.csp,
    {
        match &self.csp_override {
            Some(c) => Some(c),
            None => None,
        }
    }
}

/// The canonical form of a path prefix.
pub fn normalize_path_prefix(path: &str) -> (r: String)
    ensures
        r@ == path_prefix(path@),
{
    let chars = chars_of(path);
    let mut out: Vec<char> = Vec::new();
    if chars.len() == 0 || chars[0] != '/' {
        out.push('/');
    }
    push_str(&mut out, path);
    proof {
        if path@.len() == 0 {
            assert(out@ =~= seq!['/']);
        } else if path@[0] != '/' {
            assert(out@ =~= seq!['/'] + path@);
        } else {
            assert(out@ =~= path@);
        }
    }
    string_of(&out)
}

/// The host of a request in the form rules compare.
pub fn normalize_host(host: &str) -> (r: String)
    ensures
        r@ == request_host(host@),
{
    let chars = chars_of(host);
    let trimmed = trim_chars(&chars);
    let no_dots = trim_end_matches_chars(&trimmed, '.');
    let no_port = before_first_chars(&no_dots, ':');
    let lower = ascii_lower_chars(&no_port);
    string_of(&lower)
}

// ---------------------------------------------------------------------------
// Requests
// ---------------------------------------------------------------------------

/// What the redirect logic reads of a request: its `Host` header (where it is
/// present and visible ASCII), the path of its URI and the path with query.
pub struct RequestHead {
    pub host: Option<String>,
    pub path: String,
    pub path_and_query: Option<String>,
}

/// A request head by its parts.
pub ghost struct HeadView {
    pub host: Option<Seq<char>>,
    pub path: Seq<char>,
    pub path_and_query: Option<Seq<char>>,
}

impl View for RequestHead {
    type V = HeadView;

    open spec fn view(&self) -> HeadView {
        HeadView {
            host: opt_chars(self.host),
            path: self.path@,
            path_and_query: opt_chars(self.path_and_query),
        }
    }
}

/// A rule applies to a request when the request's host, in canonical form, is
/// the rule's host and the request's path starts with the rule's prefix.
pub open spec fn rule_matches(rule: RuleView, head: HeadView) -> bool {
    &&& head.host matches Some(h)
    &&& request_host(h) == rule.host
    &&& starts_with(head.path, rule.path)
}

/// The first rule from index `i` on that applies to the request.
pub open spec fn first_match_from(rules: Seq<RuleView>, head: HeadView, i: int) -> Option<int>
    decreases rules.len() - i,
{
    if i >= rules.len() || i < 0 {
        None
    } else if rule_matches(rules[i], head) {
        Some(i)
    } else {
        first_match_from(rules, head, i + 1)
    }
}

/// The first rule that applies to the request.
pub open spec fn first_match(rules: Seq<RuleView>, head: HeadView) -> Option<int> {
    first_match_from(rules, head, 0)
}

/// The URI a redirected request is sent to: the rule's target followed by the
/// request's path and query (`/` where it has none).
pub open spec fn redirect_text(rule: RuleView, head: HeadView) -> Seq<char> {
    rule.target + match head.path_and_query {
        Some(pq) => pq,
        None => seq!['/'],
    }
}

/// What handling a request decides: the rule that redirected it, the new URI
/// and the new `Host` header value (as bytes).
pub ghost struct RewriteView {
    pub redirected: Option<int>,
    pub uri: Option<UriParts>,
    pub host: Option<Seq<u8>>,
}

/// The decision for a request. The first rule that applies to it gives the new
/// URI; where that does not parse, nothing changes. The new `Host` header is
/// the authority of the rule's target, set where it is a valid header value;
/// where the target has no authority the URI is still replaced but the request
/// does not count as redirected.
pub open spec fn rewrite_outcome(rules: Seq<RuleView>, head: HeadView) -> RewriteView {
    match first_match(rules, head) {
        None => RewriteView { redirected: None, uri: None, host: None },
        Some(i) => match uri_parse(redirect_text(rules[i], head)) {
            Err(_) => RewriteView { redirected: None, uri: None, host: None },
            Ok(parts) => match uri_parse(rules[i].target) {
                Ok(UriParts { authority: Some(authority), .. }) => RewriteView {
                    redirected: Some(i),
                    uri: Some(parts),
                    host: if is_header_value(encode_utf8(authority)) {
                        Some(encode_utf8(authority))
                    } else {
                        None
                    },
                },
                _ => RewriteView { redirected: None, uri: Some(parts), host: None },
            },
        },
    }
}

/// What to change in a request: the URI to put in place of its own, and the
/// value for its `Host` header.
pub struct RequestRewrite {
    pub uri: Option<ParsedUri>,
    pub host: Option<HeaderValue>,
}

impl View for RequestRewrite {
    type V = (Option<UriParts>, Option<Seq<u8>>);

    open spec fn view(&self) -> (Option<UriParts>, Option<Seq<u8>>) {
        (
            match self.uri {
                Some(u) => Some(u@),
                None => None,
            },
            match self.host {
                Some(v) => Some(header_value_bytes(v)),
                None => None,
            },
        )
    }
}

// ---------------------------------------------------------------------------
// The handler
// ---------------------------------------------------------------------------

/// The proxy's handler: the rules, and the rule that redirected the most
/// recent request handled by this instance, which the response to that
/// request consumes.
///
/// The proxy clones the handler per request, from an instance that may
/// already have handled the CONNECT request; handling a request overwrites
/// the field, so what a clone inherits never decides anything.
#[derive(Clone, Debug)]
pub struct DevRedirect {
    rules: Vec<RedirectRule>,
    redirected: Option<usize>,
}

/// A handler by its rules and its pending redirect.
pub ghost struct HandlerView {
    pub rules: Seq<RuleView>,
    pub redirected: Option<int>,
}

impl View for DevRedirect {
    type V = HandlerView;

    closed spec fn view(&self) -> HandlerView {
        HandlerView {
            rules: rule_views(self.rules@),
            redirected: match self.redirected {
                Some(i) => Some(i as int),
                None => None,
            },
        }
    }
}

/// The handler after a request: same rules, the request's outcome pending.
pub open spec fn after_request(h: HandlerView, head: HeadView) -> HandlerView {
    HandlerView { rules: h.rules, redirected: rewrite_outcome(h.rules, head).redirected }
}

/// The override that the next response gets: the one of the rule that
/// redirected the pending request, if any.
pub open spec fn pending_override(h: HandlerView) -> Option<CspAction> {
    match h.redirected {
        Some(i) => if 0 <= i < h.rules.len() {
            h.rules[i].csp
        } else {
            None
        },
        None => None,
    }
}

/// Header contents of a response after the handler has seen it.
pub open spec fn response_contents(
    h: HandlerView,
    contents: Map<Seq<u8>, Seq<Seq<u8>>>,
) -> Map<Seq<u8>, Seq<Seq<u8>>> {
    match pending_override(h) {
        Some(action) => csp_applied(contents, action),
        None => contents,
    }
}

/// The handler after a response: same rules, nothing pending.
pub open spec fn after_response(h: HandlerView) -> HandlerView {
    HandlerView { rules: h.rules, redirected: None }
}

impl DevRedirect {
    /// A handler with one rule.
    pub fn new(
        prod_host: String,
        path_prefix: String,
        local_target: String,
        csp_override: Option<CspOverride>,
    ) -> (r: Self)
        ensures
            r@.rules == seq![
                rule_of(prod_host@, path_prefix@, local_target@, csp_option_view(csp_override)),
            ],
            r@.redirected is None,
    {
        let rule = RedirectRule::new(prod_host, path_prefix, local_target, csp_override);
        let mut rules: Vec<RedirectRule> = Vec::new();
        rules.push(rule);
        let r = DevRedirect { rules, redirected: None };
        assert(r@.rules =~= seq![rule@]);
        r
    }

    /// A handler with the given rules.
    pub fn with_rules(rules: Vec<RedirectRule>) -> (r: Self)
        ensures
            r@.rules == rule_views(rules@),
            r@.redirected is None,
    {
        DevRedirect { rules, redirected: None }
    }

    /// The rules, in the order in which they are tried.
    pub fn rules(&self) -> (r: &Vec<RedirectRule>)
        ensures
            rule_views(r@) == self@.rules,
    {
        &self.rules
    }

    /// Whether TLS to `host` is intercepted: some rule's host is the host in
    /// canonical form.
    pub fn matches_host(&self, host: &str) -> (r: bool)
        ensures
            r == exists|i: int|
                0 <= i < self@.rules.len() && #[trigger] self@.rules[i].host == request_host(
                    host@,
                ),
    {
        let wanted = normalize_host(host);
        let mut i: usize = 0;
        while i < self.rules.len()
            invariant
                i <= self.rules@.len(),
                wanted@ == request_host(host@),
                forall|j: int| 0 <= j < i ==> #[trigger] self@.rules[j].host != wanted@,
            decreases self.rules@.len() - i,
        {
            if self.rules[i].host == wanted {
                assert(self@.rules[i as int].host == request_host(host@));
                return true;
            }
            i = i + 1;
        }
        false
    }

    /// Whether rule `i` applies to a request whose canonical host is `host`.
    fn rule_applies(&self, i: usize, host: &Option<String>, head: &RequestHead) -> (r: bool)
        requires
            i < self@.rules.len(),
            opt_chars(*host) == match head@.host {
                Some(h) => Some(request_host(h)),
                None => None,
            },
        ensures
            r == rule_matches(self@.rules[i as int], head@),
    {
        let rule = &self.rules[i];
        match host {
            Some(h) => {
                if *h != rule.host {
                    return false;
                }
                let path = chars_of(head.path.as_str());
                let prefix = chars_of(rule.path.as_str());
                starts_with_chars(&path, &prefix)
            },
            None => false,
        }
    }

    /// The first rule that applies to the request: the request's `Host`
    /// header in canonical form is the rule's host and its path starts with
    /// the rule's prefix. A request without a `Host` header matches none.
    pub fn matching_rule(&self, head: &RequestHead) -> (r: Option<usize>)
        ensures
            r matches Some(i) ==> i < self@.rules.len(),
            match r {
                Some(i) => first_match(self@.rules, head@) == Some(i as int),
                None => first_match(self@.rules, head@) is None,
            },
    {
        let host: Option<String> = match &head.host {
            Some(h) => Some(normalize_host(h.as_str())),
            None => None,
        };
        let mut i: usize = 0;
        while i < self.rules.len()
            invariant
                i <= self.rules@.len(),
                opt_chars(host) == match head@.host {
                    Some(h) => Some(request_host(h)),
                    None => None,
                },
                first_match(self@.rules, head@) == first_match_from(self@.rules, head@, i as int),
            decreases self.rules@.len() - i,
        {
            if self.rule_applies(i, &host, head) {
                return Some(i);
            }
            i = i + 1;
        }
        None
    }

    /// Where the request goes: the rule that redirects it, and what to change
    /// in it (nothing, for a request no rule applies to). The handler itself
    /// is not changed.
    pub fn rewrite_request(&self, head: &RequestHead) -> (r: (Option<usize>, RequestRewrite))
        ensures
            ({
                let out = rewrite_outcome(self@.rules, head@);
                &&& r.1@ == (out.uri, out.host)
                &&& out.redirected == match r.0 {
                    Some(i) => Some(i as int),
                    None => None,
                }
            }),
    {
        let nothing = RequestRewrite { uri: None, host: None };
        let i = match self.matching_rule(head) {
            Some(i) => i,
            None => {
                return (None, nothing);
            },
        };
        let rule = &self.rules[i];
        assert(self@.rules[i as int] == rule@);
        let mut text = chars_of(rule.target.as_str());
        match &head.path_and_query {
            Some(pq) => push_str(&mut text, pq.as_str()),
            None => push_str(&mut text, "/"),
        }
        let text = string_of(&text);
        assert(text@ == redirect_text(self@.rules[i as int], head@)) by {
            reveal_strlit("/");
        }
        let parsed = match parse_uri(text.as_str()) {
            Ok(parsed) => parsed,
            Err(_) => {
                return (None, nothing);
            },
        };
        let target = parse_uri(rule.target.as_str());
        let authority = match &target {
            Ok(target) => target.authority(),
            Err(_) => None,
        };
        match authority {
            Some(text) => {
                let host = header_value_from_str(text);
                (Some(i), RequestRewrite { uri: Some(parsed), host })
            },
            None => (None, RequestRewrite { uri: Some(parsed), host: None }),
        }
    }

    /// Handles a request: decides whether it goes to the local target and
    /// remembers that decision for the response.
    pub fn handle_request_inner(&mut self, head: &RequestHead) -> (r: RequestRewrite)
        ensures
            final(self)@ == after_request(old(self)@, head@),
            r@ == (rewrite_outcome(old(self)@.rules, head@).uri, rewrite_outcome(
                old(self)@.rules,
                head@,
            ).host),
    {
        let (redirected, rewrite) = self.rewrite_request(head);
        self.redirected = redirected;
        rewrite
    }

    /// Handles the headers of a response: applies the override of the rule
    /// that redirected the pending request, if it has one, and clears the
    /// pending request.
    pub fn handle_response_inner(&mut self, headers: &mut HeaderMap<HeaderValue>)
        ensures
            final(self)@ == after_response(old(self)@),
            match pending_override(old(self)@) {
                Some(action) => csp_result(
                    header_map_contents(*old(headers)),
                    action,
                    header_map_contents(*final(headers)),
                ),
                None => header_map_contents(*final(headers)) == header_map_contents(*old(headers)),
            },
    {
        let redirected = self.redirected;
        self.redirected = None;
        if let Some(i) = redirected {
            if i < self.rules.len() {
                if let Some(csp) = &self.rules[i].csp_override {
                    apply_csp_override(headers, csp);
                }
            }
        }
    }
}

} // verus!

verus! {

// ---------------------------------------------------------------------------
// Laws
// ---------------------------------------------------------------------------

/// An override touches no header but `Content-Security-Policy`; in particular
/// `Content-Security-Policy-Report-Only` keeps its values.
pub proof fn law_override_touches_only_csp(contents: Map<Seq<u8>, Seq<Seq<u8>>>, action: CspAction)
    ensures
        forall|name: Seq<u8>|
            name != csp_name_bytes() ==> (#[trigger] csp_applied(contents, action).dom().contains(
                name,
            ) == contents.dom().contains(name) && (contents.dom().contains(name) ==> csp_applied(
                contents,
                action,
            )[name] == contents[name])),
{
}

/// `off` leaves no `Content-Security-Policy` value at all.
pub proof fn law_off_removes_every_csp_value(contents: Map<Seq<u8>, Seq<Seq<u8>>>)
    ensures
        !csp_applied(contents, CspAction::Remove).dom().contains(csp_name_bytes()),
{
}

/// A valid policy leaves exactly one `Content-Security-Policy` value, the
/// policy, however many there were.
pub proof fn law_policy_leaves_one_value(contents: Map<Seq<u8>, Seq<Seq<u8>>>, policy: Seq<char>)
    requires
        is_header_value(encode_utf8(policy)),
    ensures
        csp_applied(contents, CspAction::Replace(policy)).dom().contains(csp_name_bytes()),
        csp_applied(contents, CspAction::Replace(policy))[csp_name_bytes()] == seq![
            encode_utf8(policy),
        ],
{
}

/// Applying an override twice is applying it once.
pub proof fn law_override_idempotent(contents: Map<Seq<u8>, Seq<Seq<u8>>>, action: CspAction)
    ensures
        csp_applied(csp_applied(contents, action), action) == csp_applied(contents, action),
{
    match action {
        CspAction::Remove => {
            assert(csp_applied(csp_applied(contents, action), action) =~= csp_applied(
                contents,
                action,
            ));
        },
        CspAction::Replace(p) => {
            assert(csp_applied(csp_applied(contents, action), action) =~= csp_applied(
                contents,
                action,
            ));
        },
    }
}

/// A response whose request was not redirected (or that comes with no request
/// before it) keeps its headers.
pub proof fn law_unredirected_response_untouched(
    h: HandlerView,
    contents: Map<Seq<u8>, Seq<Seq<u8>>>,
)
    requires
        h.redirected is None,
    ensures
        response_contents(h, contents) == contents,
{
}

/// The response consumes the pending request: a further response is untouched.
pub proof fn law_response_consumes_pending(h: HandlerView, contents: Map<Seq<u8>, Seq<Seq<u8>>>)
    ensures
        after_response(h).redirected is None,
        response_contents(after_response(h), contents) == contents,
{
}

/// What a handler decides for a request does not depend on what it decided
/// before: a handler cloned from one that handled another request (such as the
/// CONNECT request) behaves as a fresh one.
pub proof fn law_request_forgets_history(h1: HandlerView, h2: HandlerView, head: HeadView)
    requires
        h1.rules == h2.rules,
    ensures
        after_request(h1, head) == after_request(h2, head),
{
}

/// `first_match_from` finds a rule at or after `i` that applies, and none
/// before it (from `i` on) applies.
proof fn lemma_first_match_from(rules: Seq<RuleView>, head: HeadView, i: int)
    requires
        0 <= i,
    ensures
        match first_match_from(rules, head, i) {
            Some(k) => i <= k < rules.len() && rule_matches(rules[k], head) && forall|j: int|
                i <= j < k ==> !rule_matches(#[trigger] rules[j], head),
            None => forall|j: int| i <= j < rules.len() ==> !rule_matches(#[trigger] rules[j], head),
        },
    decreases rules.len() - i,
{
    if i < rules.len() && !rule_matches(rules[i], head) {
        lemma_first_match_from(rules, head, i + 1);
    }
}

/// A request is redirected only by the first rule that applies to it: the
/// request's host in canonical form is that rule's host and its path starts
/// with that rule's prefix. Its new URI is what the rule's target text (with
/// its own path, if any) followed by the request's path and query (`/` where
/// it has none) parses to; its `Host` header becomes the authority of the
/// target, where that is a valid header value; and its response gets that
/// rule's override.
pub proof fn law_redirect_follows_first_matching_rule(
    h: HandlerView,
    head: HeadView,
    contents: Map<Seq<u8>, Seq<Seq<u8>>>,
)
    requires
        rewrite_outcome(h.rules, head).redirected is Some,
    ensures
        ({
            let i = rewrite_outcome(h.rules, head).redirected->0;
            &&& 0 <= i < h.rules.len()
            &&& head.host matches Some(host) && request_host(host) == h.rules[i].host
            &&& starts_with(head.path, h.rules[i].path)
            &&& forall|j: int| 0 <= j < i ==> !rule_matches(#[trigger] h.rules[j], head)
            &&& uri_parse(h.rules[i].target + match head.path_and_query {
                Some(pq) => pq,
                None => seq!['/'],
            }) is Ok
            &&& rewrite_outcome(h.rules, head).uri == Some(
                uri_parse(h.rules[i].target + match head.path_and_query {
                    Some(pq) => pq,
                    None => seq!['/'],
                })->Ok_0,
            )
            &&& uri_parse(h.rules[i].target) matches Ok(t) && t.authority matches Some(a) && (
            rewrite_outcome(h.rules, head).host == if is_header_value(encode_utf8(a)) {
                Some(encode_utf8(a))
            } else {
                None
            })
            &&& response_contents(after_request(h, head), contents) == match h.rules[i].csp {
                Some(action) => csp_applied(contents, action),
                None => contents,
            }
        }),
{
    lemma_first_match_from(h.rules, head, 0);
}

/// A request to which no rule applies is left alone, and so is its response.
pub proof fn law_unmatched_request_passes_through(
    h: HandlerView,
    head: HeadView,
    contents: Map<Seq<u8>, Seq<Seq<u8>>>,
)
    requires
        forall|j: int| 0 <= j < h.rules.len() ==> !rule_matches(#[trigger] h.rules[j], head),
    ensures
        rewrite_outcome(h.rules, head) == (RewriteView { redirected: None, uri: None, host: None }),
        response_contents(after_request(h, head), contents) == contents,
{
    lemma_first_match_from(h.rules, head, 0);
}

/// A rule keeps its target without the trailing slashes (everything else of
/// the target, its own path included, stays), and keeps its path where that
/// starts with `/`; an empty path becomes `/`, any other gets a `/` in front.
pub proof fn law_rule_keeps_target_and_path(
    host: Seq<char>,
    path: Seq<char>,
    target: Seq<char>,
    csp: Option<CspAction>,
)
    ensures
        ({
            let r = rule_of(host, path, target, csp);
            &&& r.target.len() <= target.len()
            &&& target.take(r.target.len() as int) == r.target
            &&& forall|i: int| r.target.len() <= i < target.len() ==> #[trigger] target[i] == '/'
            &&& (r.target.len() == 0 || r.target.last() != '/')
            &&& (path.len() > 0 && path[0] == '/' ==> r.path == path)
            &&& (path.len() == 0 ==> r.path == seq!['/'])
            &&& (path.len() > 0 && path[0] != '/' ==> r.path == seq!['/'] + path)
            &&& r.csp == csp
        }),
{
    crate::text::lemma_trim_end_matches_shape(target, '/');
}

} // verus!
