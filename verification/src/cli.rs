//! The options of `rexy run` and the rules they ask for.
use vstd::prelude::*;

use crate::config::{
    csp_option_parse, failure, host_failure, parse_csp_value, path_failure, target_failure,
    validate_host, validate_path, validate_target,
};
use crate::error::{Error, ErrorView};
use crate::proxy_handler::{rule_of, rule_views, CspAction, RedirectRule, RuleView};
use crate::text::{opt_chars, owned};

verus! {

/// The options of `rexy run`.
pub struct RunArgs {
    /// Browser to launch: chrome, chromium, or an executable path.
    pub browser: String,
    /// TOML file with `[[rules]]` entries; replaces host, path, target and CSP override.
    pub file: Option<String>,
    /// Production hostname to intercept (single-rule mode).
    pub host: Option<String>,
    /// Production path prefix to redirect (single-rule mode).
    pub path: Option<String>,
    /// Local development server (single-rule mode).
    pub target: Option<String>,
    /// Local proxy port; 0 picks a free port.
    pub proxy_port: u16,
    /// Override of the Content-Security-Policy of responses served from the
    /// target, `off` to remove it (single-rule mode).
    pub csp_override: Option<String>,
    /// Browser arguments after `--`.
    pub browser_args: Vec<String>,
}

/// The options of `rexy run` by their values.
pub ghost struct RunArgsView {
    pub browser: Seq<char>,
    pub file: Option<Seq<char>>,
    pub host: Option<Seq<char>>,
    pub path: Option<Seq<char>>,
    pub target: Option<Seq<char>>,
    pub proxy_port: u16,
    pub csp_override: Option<Seq<char>>,
    pub browser_args: Seq<Seq<char>>,
}

impl View for RunArgs {
    type V = RunArgsView;

    open spec fn view(&self) -> RunArgsView {
        RunArgsView {
            browser: self.browser@,
            file: opt_chars(self.file),
            host: opt_chars(self.host),
            path: opt_chars(self.path),
            target: opt_chars(self.target),
            proxy_port: self.proxy_port,
            csp_override: opt_chars(self.csp_override),
            browser_args: self.browser_args@.map_values(|a: String| a@),
        }
    }
}

/// Where the rules of a run come from: a configuration file still to be
/// read, or the one rule given on the command line.
pub enum RuleSource {
    File(String),
    Rules(Vec<RedirectRule>),
}

/// A rule source by its view.
pub ghost enum RuleSourceView {
    File(Seq<char>),
    Rules(Seq<RuleView>),
}

impl View for RuleSource {
    type V = RuleSourceView;

    open spec fn view(&self) -> RuleSourceView {
        match self {
            RuleSource::File(p) => RuleSourceView::File(p@),
            RuleSource::Rules(r) => RuleSourceView::Rules(rule_views(r@)),
        }
    }
}

/// The rule source the options ask for. A file excludes every single-rule
/// option. Without a file, host and target are required, the path defaults
/// to `/`, and the override is parsed before host, path and target are
/// checked; the first failure is the result.
pub open spec fn rule_source(a: RunArgsView) -> Result<RuleSourceView, ErrorView> {
    match a.file {
        Some(path) => if a.host is Some || a.path is Some || a.target is Some
            || a.csp_override is Some {
            Err(ErrorView::FileWithRuleFlags)
        } else {
            Ok(RuleSourceView::File(path))
        },
        None => if a.host is None || a.target is None {
            Err(ErrorView::HostOrTargetMissing)
        } else {
            single_rule(
                a.host->0,
                match a.path {
                    Some(p) => p,
                    None => seq!['/'],
                },
                a.target->0,
                a.csp_override,
            )
        },
    }
}

/// The one rule of the command line: the override is parsed before host,
/// path and target are checked; the first failure is the result.
pub open spec fn single_rule(
    host: Seq<char>,
    path: Seq<char>,
    target: Seq<char>,
    csp_override: Option<Seq<char>>,
) -> Result<RuleSourceView, ErrorView> {
    match csp_option_parse(csp_override) {
        Err(e) => Err(e),
        Ok(csp) => if host_failure(host) is Some {
            Err(host_failure(host)->0)
        } else if path_failure(path) is Some {
            Err(path_failure(path)->0)
        } else if target_failure(target) is Some {
            Err(target_failure(target)->0)
        } else {
            Ok(RuleSourceView::Rules(seq![rule_of(host, path, target, csp)]))
        },
    }
}

/// A rule-source result by its view.
pub open spec fn source_result_view(r: Result<RuleSource, Error>) -> Result<
    RuleSourceView,
    ErrorView,
> {
    match r {
        Ok(s) => Ok(s@),
        Err(e) => Err(e@),
    }
}

/// A copy of an optional string.
fn copy_option(o: &Option<String>) -> (r: Option<String>)
    ensures
        opt_chars(r) == opt_chars(*o),
{
    match o {
        Some(s) => Some(owned(s.as_str())),
        None => None,
    }
}

/// The rules `rexy run` asks for.
pub fn resolve_rules(args: &RunArgs) -> (r: Result<RuleSource, Error>)
    ensures
        source_result_view(r) == rule_source(args@),
{
    if let Some(path) = &args.file {
        if args.host.is_some() || args.path.is_some() || args.target.is_some()
            || args.csp_override.is_some() {
            return Err(Error::FileWithRuleFlags);
        }
        return Ok(RuleSource::File(owned(path.as_str())));
    }
    let host = match copy_option(&args.host) {
        Some(h) => h,
        None => {
            return Err(Error::HostOrTargetMissing);
        },
    };
    let target = match copy_option(&args.target) {
        Some(t) => t,
        None => {
            return Err(Error::HostOrTargetMissing);
        },
    };
    let path = match copy_option(&args.path) {
        Some(p) => p,
        None => {
            let p = owned("/");
            proof {
                reveal_strlit("/");
                assert(p@ =~= seq!['/']);
            }
            p
        },
    };
    let csp_override = match &args.csp_override {
        None => None,
        Some(v) => match parse_csp_value(v.as_str()) {
            Ok(c) => Some(c),
            Err(e) => {
                return Err(e);
            },
        },
    };
    let ghost csp = crate::proxy_handler::csp_option_view(csp_override);
    assert(csp_option_parse(args@.csp_override) == Ok::<Option<CspAction>, ErrorView>(csp));
    assert(rule_source(args@) == single_rule(host@, path@, target@, args@.csp_override));
    if let Err(e) = validate_host(host.as_str()) {
        return Err(e);
    }
    if let Err(e) = validate_path(path.as_str()) {
        return Err(e);
    }
    if let Err(e) = validate_target(target.as_str()) {
        return Err(e);
    }
    let rule = RedirectRule::new(host, path, target, csp_override);
    let mut rules: Vec<RedirectRule> = Vec::new();
    rules.push(rule);
    assert(rule_views(rules@) =~= seq![rule@]);
    Ok(RuleSource::Rules(rules))
}

/// The hosts the PAC script routes through the proxy: each rule's host.
pub fn pac_hosts(rules: &Vec<RedirectRule>) -> (r: Vec<String>)
    ensures
        r@.len() == rules@.len(),
        forall|i: int| 0 <= i < r@.len() ==> #[trigger] r@[i]@ == rule_views(rules@)[i].host,
{
    let mut out: Vec<String> = Vec::new();
    let mut i: usize = 0;
    while i < rules.len()
        invariant
            i <= rules@.len(),
            out@.len() == i,
            forall|k: int| 0 <= k < i ==> #[trigger] out@[k]@ == rule_views(rules@)[k].host,
        decreases rules@.len() - i,
    {
        out.push(owned(rules[i].host()));
        i = i + 1;
    }
    out
}

/// The URL the browser fetches the PAC script from, for the address the PAC
/// server listens on.
pub fn pac_url(addr: &str) -> (r: String)
    ensures
        r@ == "http://"@ + addr@ + "/proxy.pac"@,
{
    let mut s = owned("http://");
    s.append(addr);
    s.append("/proxy.pac");
    s
}

} // verus!
