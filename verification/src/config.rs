//! Validation of redirect rules, whether they come from the command line or
//! from the `[[rules]]` entries of a configuration file.
use vstd::prelude::*;
use vstd::string::StringSliceAdditionalSpecFns;
use vstd::utf8::encode_utf8;

use crate::error::{Error, ErrorView};
use crate::http::{header_value_from_str, is_header_value, parse_uri, uri_parse};
use crate::proxy_handler::{rule_of, rule_views, CspAction, CspOverride, RedirectRule, RuleView};
use crate::text::{
    ascii_lower, ascii_lower_chars, chars_of, contains, contains_char, contains_chars, eq_chars,
    eq_str, owned, starts_with, string_of, trim, trim_chars,
};

verus! {

/// One `[[rules]]` entry of a configuration file, as read from the file. A
/// missing `path` reads as `default_path()`, a missing `csp_override` as `None`.
pub struct FileRule {
    pub host: String,
    pub path: String,
    pub target: String,
    pub csp_override: Option<String>,
}

/// A file entry by its parts.
pub ghost struct FileRuleView {
    pub host: Seq<char>,
    pub path: Seq<char>,
    pub target: Seq<char>,
    pub csp_override: Option<Seq<char>>,
}

impl View for FileRule {
    type V = FileRuleView;

    open spec fn view(&self) -> FileRuleView {
        FileRuleView {
            host: self.host@,
            path: self.path@,
            target: self.target@,
            csp_override: match self.csp_override {
                Some(c) => Some(c@),
                None => None,
            },
        }
    }
}

/// The path of a rule that gives none.
pub fn default_path() -> (r: String)
    ensures
        r@ == seq!['/'],
{
    let r = owned("/");
    proof {
        reveal_strlit("/");
    }
    r
}

/// The error of a check that yields nothing, if it failed.
pub open spec fn failure(r: Result<(), Error>) -> Option<ErrorView> {
    match r {
        Ok(_) => None,
        Err(e) => Some(e@),
    }
}

/// What is wrong with a production host: it is empty, holds a scheme, or holds
/// a path.
pub open spec fn host_failure(host: Seq<char>) -> Option<ErrorView> {
    if host.len() == 0 {
        Some(ErrorView::HostEmpty)
    } else if contains(host, "://"@) {
        Some(ErrorView::HostHasScheme)
    } else if host.contains('/') {
        Some(ErrorView::HostHasPath)
    } else {
        None
    }
}

/// What is wrong with a path prefix: it does not start with `/`.
pub open spec fn path_failure(path: Seq<char>) -> Option<ErrorView> {
    if starts_with(path, seq!['/']) {
        None
    } else {
        Some(ErrorView::PathNotAbsolute)
    }
}

/// What is wrong with a target: it is no URI, its scheme is neither `http` nor
/// `https`, or it has no host.
pub open spec fn target_failure(target: Seq<char>) -> Option<ErrorView> {
    match uri_parse(target) {
        Err(message) => Some(ErrorView::TargetUnparsable(message)),
        Ok(parts) => if parts.scheme != Some("http"@) && parts.scheme != Some("https"@) {
            Some(ErrorView::TargetNotHttp)
        } else if parts.host is None {
            Some(ErrorView::TargetWithoutHost)
        } else {
            None
        },
    }
}

/// Checks a production host.
pub fn validate_host(host: &str) -> (r: Result<(), Error>)
    ensures
        failure(r) == host_failure(host@),
{
    let chars = chars_of(host);
    if chars.len() == 0 {
        return Err(Error::HostEmpty);
    }
    let scheme_mark = chars_of("://");
    if contains_chars(&chars, &scheme_mark) {
        return Err(Error::HostHasScheme);
    }
    if contains_char(&chars, '/') {
        return Err(Error::HostHasPath);
    }
    Ok(())
}

/// Checks a path prefix.
pub fn validate_path(path: &str) -> (r: Result<(), Error>)
    ensures
        failure(r) == path_failure(path@),
{
    let chars = chars_of(path);
    if chars.len() > 0 && chars[0] == '/' {
        assert(path@.subrange(0, 1) =~= seq!['/']);
        Ok(())
    } else {
        proof {
            if path@.len() > 0 {
                assert(path@.subrange(0, 1)[0] == path@[0]);
            }
        }
        Err(Error::PathNotAbsolute)
    }
}

/// Checks a local target URL.
pub fn validate_target(target: &str) -> (r: Result<(), Error>)
    ensures
        failure(r) == target_failure(target@),
{
    let parsed = match parse_uri(target) {
        Ok(parsed) => parsed,
        Err(message) => {
            return Err(Error::TargetUnparsable(message));
        },
    };
    let http_like = match parsed.scheme() {
        Some(scheme) => eq_str(scheme, "http") || eq_str(scheme, "https"),
        None => false,
    };
    if !http_like {
        return Err(Error::TargetNotHttp);
    }
    if parsed.host().is_none() {
        return Err(Error::TargetWithoutHost);
    }
    Ok(())
}

/// What a CSP override value means: `off` in any ASCII case removes the
/// header; any other non-empty value, trimmed of white space, replaces it when
/// every byte of it may stand in a header value.
pub open spec fn csp_parse(value: Seq<char>) -> Result<CspAction, ErrorView> {
    let v = trim(value);
    if v.len() == 0 {
        Err(ErrorView::CspEmpty)
    } else if ascii_lower(v) == "off"@ {
        Ok(CspAction::Remove)
    } else if !is_header_value(encode_utf8(v)) {
        Err(ErrorView::CspInvalidHeader(v))
    } else {
        Ok(CspAction::Replace(v))
    }
}

/// A parsed override by its view.
pub open spec fn csp_result_view(r: Result<CspOverride, Error>) -> Result<CspAction, ErrorView> {
    match r {
        Ok(c) => Ok(c@),
        Err(e) => Err(e@),
    }
}

/// Parse the CSP override value shared by the CLI flag and config entries:
/// `off` removes the header, any other string replaces it.
pub fn parse_csp_value(value: &str) -> (r: Result<CspOverride, Error>)
    ensures
        csp_result_view(r) == csp_parse(value@),
{
    let chars = chars_of(value);
    let trimmed = trim_chars(&chars);
    if trimmed.len() == 0 {
        return Err(Error::CspEmpty);
    }
    let lower = ascii_lower_chars(&trimmed);
    let off = chars_of("off");
    if eq_chars(&lower, &off) {
        return Ok(CspOverride::Off);
    }
    let policy = string_of(&trimmed);
    let text = policy.as_str();
    assert(text.spec_bytes() == encode_utf8(trimmed@));
    if header_value_from_str(text).is_none() {
        return Err(Error::CspInvalidHeader(policy));
    }
    Ok(CspOverride::Policy(policy))
}

/// The override a rule gets from an optional value.
pub open spec fn csp_option_parse(value: Option<Seq<char>>) -> Result<
    Option<CspAction>,
    ErrorView,
> {
    match value {
        None => Ok(None),
        Some(v) => match csp_parse(v) {
            Ok(a) => Ok(Some(a)),
            Err(e) => Err(e),
        },
    }
}

/// The rule a file entry makes: host, path and target are checked in that
/// order, then the override is parsed; the first failure is the result.
pub open spec fn file_rule_outcome(f: FileRuleView) -> Result<RuleView, ErrorView> {
    if host_failure(f.host) is Some {
        Err(host_failure(f.host)->0)
    } else if path_failure(f.path) is Some {
        Err(path_failure(f.path)->0)
    } else if target_failure(f.target) is Some {
        Err(target_failure(f.target)->0)
    } else {
        match csp_option_parse(f.csp_override) {
            Err(e) => Err(e),
            Ok(csp) => Ok(rule_of(f.host, f.path, f.target, csp)),
        }
    }
}

/// A rule result by its view.
pub open spec fn rule_result_view(r: Result<RedirectRule, Error>) -> Result<RuleView, ErrorView> {
    match r {
        Ok(rule) => Ok(rule@),
        Err(e) => Err(e@),
    }
}

/// Parses an optional override value.
fn parse_optional_csp(value: Option<String>) -> (r: Result<Option<CspOverride>, Error>)
    ensures
        match r {
            Ok(c) => csp_option_parse(
                match value {
                    Some(v) => Some(v@),
                    None => None,
                },
            ) == Ok::<Option<CspAction>, ErrorView>(crate::proxy_handler::csp_option_view(c)),
            Err(e) => csp_option_parse(
                match value {
                    Some(v) => Some(v@),
                    None => None,
                },
            ) == Err::<Option<CspAction>, ErrorView>(e@),
        },
{
    match value {
        None => Ok(None),
        Some(v) => match parse_csp_value(v.as_str()) {
            Ok(c) => Ok(Some(c)),
            Err(e) => Err(e),
        },
    }
}

/// The rule a file entry makes.
pub fn rule_from_file(rule: FileRule) -> (r: Result<RedirectRule, Error>)
    ensures
        rule_result_view(r) == file_rule_outcome(rule@),
{
    let ghost f = rule@;
    if let Err(e) = validate_host(rule.host.as_str()) {
        return Err(e);
    }
    if let Err(e) = validate_path(rule.path.as_str()) {
        return Err(e);
    }
    if let Err(e) = validate_target(rule.target.as_str()) {
        return Err(e);
    }
    let csp_override = match parse_optional_csp(rule.csp_override) {
        Ok(c) => c,
        Err(e) => {
            return Err(e);
        },
    };
    Ok(RedirectRule::new(rule.host, rule.path, rule.target, csp_override))
}

/// The rules a list of file entries makes: all of them, in order, or the
/// failure of the first entry that fails.
pub open spec fn file_rules_outcome(fs: Seq<FileRuleView>) -> Result<Seq<RuleView>, ErrorView>
    decreases fs.len(),
{
    if fs.len() == 0 {
        Ok(Seq::empty())
    } else {
        match file_rules_outcome(fs.drop_last()) {
            Err(e) => Err(e),
            Ok(rules) => match file_rule_outcome(fs.last()) {
                Err(e) => Err(e),
                Ok(rule) => Ok(rules.push(rule)),
            },
        }
    }
}

/// The views of a list of file entries.
pub open spec fn file_rule_views(fs: Seq<FileRule>) -> Seq<FileRuleView> {
    fs.map_values(|f: FileRule| f@)
}

/// A list of rules by its view.
pub open spec fn rules_result_view(r: Result<Vec<RedirectRule>, Error>) -> Result<
    Seq<RuleView>,
    ErrorView,
> {
    match r {
        Ok(rules) => Ok(rule_views(rules@)),
        Err(e) => Err(e@),
    }
}

/// The rules of a configuration file's entries. An empty list is valid and
/// yields no rules.
pub fn rules_from_file(file_rules: Vec<FileRule>) -> (r: Result<Vec<RedirectRule>, Error>)
    ensures
        rules_result_view(r) == file_rules_outcome(file_rule_views(file_rules@)),
{
    let ghost all = file_rule_views(file_rules@);
    let n = file_rules.len();
    let mut rest = file_rules;
    let mut rules: Vec<RedirectRule> = Vec::new();
    let mut i: usize = 0;
    assert(all.take(0) =~= Seq::<FileRuleView>::empty());
    assert(rule_views(rules@) =~= Seq::<RuleView>::empty());
    assert(all.skip(0) =~= all);
    while rest.len() > 0
        invariant
            all == file_rule_views(file_rules@),
            all.len() == n,
            i + rest@.len() == all.len(),
            file_rule_views(rest@) == all.skip(i as int),
            file_rules_outcome(all.take(i as int)) == Ok::<Seq<RuleView>, ErrorView>(
                rule_views(rules@),
            ),
        decreases rest@.len(),
    {
        let ghost before = rest@;
        let entry = rest.remove(0);
        proof {
            assert(entry@ == all[i as int]) by {
                assert(file_rule_views(before)[0] == entry@);
            }
            assert(all.take(i + 1).drop_last() =~= all.take(i as int));
            assert(all.take(i + 1).last() == all[i as int]);
            assert(rest@ =~= before.remove(0));
            assert(file_rule_views(rest@) =~= file_rule_views(before).skip(1));
            assert(file_rule_views(rest@) =~= all.skip(i + 1));
        }
        match rule_from_file(entry) {
            Ok(rule) => {
                let ghost earlier = rules@;
                rules.push(rule);
                assert(rule_views(rules@) =~= rule_views(earlier).push(rule@));
            },
            Err(e) => {
                proof {
                    assert(file_rules_outcome(all.take(i + 1)) == Err::<Seq<RuleView>, ErrorView>(
                        e@,
                    ));
                    lemma_file_rules_error_sticks(all, i as int + 1, e@);
                    assert(rules_result_view(Err(e)) == file_rules_outcome(all));
                }
                return Err(e);
            },
        }
        i = i + 1;
    }
    assert(all.take(i as int) =~= all);
    Ok(rules)
}

/// Once a prefix of the entries fails, every longer prefix fails the same way.
proof fn lemma_file_rules_error_sticks(fs: Seq<FileRuleView>, n: int, e: ErrorView)
    requires
        0 <= n <= fs.len(),
        file_rules_outcome(fs.take(n)) == Err::<Seq<RuleView>, ErrorView>(e),
    ensures
        file_rules_outcome(fs) == Err::<Seq<RuleView>, ErrorView>(e),
    decreases fs.len() - n,
{
    if n < fs.len() {
        assert(fs.take(n + 1).drop_last() =~= fs.take(n));
        lemma_file_rules_error_sticks(fs, n + 1, e);
    } else {
        assert(fs.take(n) =~= fs);
    }
}

} // verus!

verus! {

// ---------------------------------------------------------------------------
// Laws
// ---------------------------------------------------------------------------

/// A policy that `parse_csp_value` accepts is always applied to a redirected
/// response: the header is never left as it was because the value turned out
/// invalid. The policy applied is the trimmed value.
pub proof fn law_accepted_policy_is_applied(value: Seq<char>, contents: Map<Seq<u8>, Seq<Seq<u8>>>)
    requires
        csp_parse(value) matches Ok(CspAction::Replace(_)),
    ensures
        csp_parse(value) == Ok::<CspAction, ErrorView>(CspAction::Replace(trim(value))),
        crate::proxy_handler::csp_applied(contents, csp_parse(value)->Ok_0) == contents.insert(
            crate::http::csp_name_bytes(),
            seq![encode_utf8(trim(value))],
        ),
{
}

/// A rule accepted from a file entry (or the command line, which checks the
/// same way) keeps its path as given, which starts with `/`, and has a host
/// without `/`.
pub proof fn law_accepted_rule_shape(f: FileRuleView)
    requires
        file_rule_outcome(f) is Ok,
    ensures
        ({
            let rule = file_rule_outcome(f)->Ok_0;
            &&& rule.path == f.path
            &&& starts_with(rule.path, seq!['/'])
            &&& !rule.host.contains('/')
            &&& rule.target == crate::proxy_handler::target_base(f.target)
        }),
{
    let rule = file_rule_outcome(f)->Ok_0;
    assert(f.path[0] == '/') by {
        assert(f.path.subrange(0, 1)[0] == f.path[0]);
    }
    crate::text::lemma_trim_end_matches_subset(f.host, '.', '/');
    crate::text::lemma_ascii_lower_keeps_non_letter(
        crate::text::trim_end_matches(f.host, '.'),
        '/',
    );
}

/// A path prefix is accepted exactly when it starts with `/`; nothing else
/// about it (a trailing `/`, its length) matters. Otherwise it is refused with
/// `PathNotAbsolute`.
pub proof fn law_path_needs_only_a_leading_slash(path: Seq<char>)
    ensures
        path_failure(path) is None <==> (path.len() > 0 && path[0] == '/'),
        path_failure(path) is Some ==> path_failure(path) == Some(ErrorView::PathNotAbsolute),
{
    if path.len() > 0 {
        assert(path.subrange(0, 1)[0] == path[0]);
        if path[0] == '/' {
            assert(path.subrange(0, 1) =~= seq!['/']);
        }
    }
}

/// A host is accepted exactly when it is non-empty and holds no `/`. An
/// empty one is refused with `HostEmpty`, one holding `://` with
/// `HostHasScheme`, any other one holding `/` with `HostHasPath`.
pub proof fn law_host_is_a_bare_name(host: Seq<char>)
    ensures
        host_failure(host) is None <==> (host.len() > 0 && forall|i: int|
            0 <= i < host.len() ==> host[i] != '/'),
        host.len() == 0 ==> host_failure(host) == Some(ErrorView::HostEmpty),
        (host.len() > 0 && exists|i: int|
            0 <= i && i + 2 < host.len() && host[i] == ':' && #[trigger] host[i + 1] == '/'
                && host[i + 2] == '/') ==> host_failure(host) == Some(ErrorView::HostHasScheme),
        (host.len() > 0 && !(exists|i: int|
            0 <= i && i + 2 < host.len() && host[i] == ':' && #[trigger] host[i + 1] == '/'
                && host[i + 2] == '/') && exists|i: int| 0 <= i < host.len() && host[i] == '/')
            ==> host_failure(host) == Some(ErrorView::HostHasPath),
{
    reveal_strlit("://");
    if exists|i: int|
        0 <= i && i + 2 < host.len() && host[i] == ':' && #[trigger] host[i + 1] == '/' && host[i
            + 2] == '/' {
        let i = choose|i: int|
            0 <= i && i + 2 < host.len() && host[i] == ':' && #[trigger] host[i + 1] == '/'
                && host[i + 2] == '/';
        assert(host.subrange(i, i + 3) =~= "://"@);
        assert(contains(host, "://"@)) by {
            assert(crate::text::occurs_at(host, "://"@, i));
        }
    } else {
        assert(!contains(host, "://"@)) by {
            if contains(host, "://"@) {
                let i = choose|i: int| crate::text::occurs_at(host, "://"@, i);
                assert(host.subrange(i, i + 3)[0] == host[i]);
                assert(host.subrange(i, i + 3)[1] == host[i + 1]);
                assert(host.subrange(i, i + 3)[2] == host[i + 2]);
            }
        }
    }
    if contains(host, "://"@) {
        let i = choose|i: int| crate::text::occurs_at(host, "://"@, i);
        assert(host.subrange(i, i + 3)[1] == host[i + 1]);
        assert(host[i + 1] == '/');
    }
}

/// A target is accepted exactly when it parses as a URI whose scheme is
/// `http` or `https` and which has a host.
pub proof fn law_target_is_an_http_url(target: Seq<char>)
    ensures
        target_failure(target) is None <==> (uri_parse(target) matches Ok(parts) && (parts.scheme
            == Some("http"@) || parts.scheme == Some("https"@)) && parts.host is Some),
{
}

/// A file entry makes a rule exactly when its host, path, target and
/// override are each accepted; the rule then keeps the entry's path.
pub proof fn law_entry_accepted_when_each_part_is(f: FileRuleView)
    ensures
        file_rule_outcome(f) is Ok <==> (f.host.len() > 0 && (forall|i: int|
            0 <= i < f.host.len() ==> f.host[i] != '/') && f.path.len() > 0 && f.path[0] == '/'
            && target_failure(f.target) is None && csp_option_parse(f.csp_override) is Ok),
        file_rule_outcome(f) is Ok ==> file_rule_outcome(f)->Ok_0.path == f.path,
{
    law_host_is_a_bare_name(f.host);
    law_path_needs_only_a_leading_slash(f.path);
}

} // verus!
