//! Which browser to launch, where to look for it, and how to launch it.
use vstd::prelude::*;

use crate::error::{Error, ErrorView};
use crate::platform::{path_separator, separator, Platform};
use crate::text::{eq_str, join_path_with, join_path_with_str, owned, push_str, string_of};

verus! {

/// A browser executable, found or given.
#[derive(Debug, Clone)]
pub struct Browser {
    executable: String,
}

impl View for Browser {
    type V = Seq<char>;

    closed spec fn view(&self) -> Seq<char> {
        self.executable@
    }
}

/// The browser the `--browser` value names.
pub enum BrowserChoice {
    Chrome,
    Chromium,
    /// An executable given by its path.
    Executable(String),
}

/// A browser choice by its view.
pub ghost enum ChoiceView {
    Chrome,
    Chromium,
    Executable(Seq<char>),
}

impl View for BrowserChoice {
    type V = ChoiceView;

    open spec fn view(&self) -> ChoiceView {
        match self {
            BrowserChoice::Chrome => ChoiceView::Chrome,
            BrowserChoice::Chromium => ChoiceView::Chromium,
            BrowserChoice::Executable(p) => ChoiceView::Executable(p@),
        }
    }
}

/// `chrome` and `chromium` name those browsers; any other value is a path.
pub open spec fn choice_of(value: Seq<char>) -> ChoiceView {
    if value == "chrome"@ {
        ChoiceView::Chrome
    } else if value == "chromium"@ {
        ChoiceView::Chromium
    } else {
        ChoiceView::Executable(value)
    }
}

/// The browser a `--browser` value names.
pub fn browser_choice(value: &str) -> (r: BrowserChoice)
    ensures
        r@ == choice_of(value@),
{
    if eq_str(value, "chrome") {
        BrowserChoice::Chrome
    } else if eq_str(value, "chromium") {
        BrowserChoice::Chromium
    } else {
        BrowserChoice::Executable(owned(value))
    }
}

/// A place where a browser may be installed: a path, relative to the
/// directory held by an environment variable where `base` is that directory.
pub struct Candidate {
    pub base: Option<String>,
    pub relative: String,
}

/// A candidate by its parts.
pub ghost struct CandidateView {
    pub base: Option<Seq<char>>,
    pub relative: Seq<char>,
}

impl View for Candidate {
    type V = CandidateView;

    open spec fn view(&self) -> CandidateView {
        CandidateView {
            base: match self.base {
                Some(b) => Some(b@),
                None => None,
            },
            relative: self.relative@,
        }
    }
}

/// The directories Windows keeps programs in, from `PROGRAMFILES`,
/// `PROGRAMFILES(X86)` and `LOCALAPPDATA`, where set.
pub struct WindowsDirs {
    pub program_files: Option<String>,
    pub program_files_x86: Option<String>,
    pub local_app_data: Option<String>,
}

/// An optional string by its view.
pub open spec fn opt_view(o: Option<String>) -> Option<Seq<char>> {
    match o {
        Some(s) => Some(s@),
        None => None,
    }
}

/// A candidate with an absolute path.
pub open spec fn fixed(path: Seq<char>) -> CandidateView {
    CandidateView { base: None, relative: path }
}

/// The candidate under a directory, when the directory is known.
pub open spec fn under(dir: Option<Seq<char>>, relative: Seq<char>) -> Seq<CandidateView> {
    match dir {
        Some(d) => seq![CandidateView { base: Some(d), relative }],
        None => Seq::empty(),
    }
}

/// Where Google Chrome may be installed, in the order searched.
pub open spec fn chrome_candidates(platform: Platform, dirs: (Option<Seq<char>>, Option<Seq<char>>, Option<Seq<char>>)) -> Seq<CandidateView> {
    match platform {
        Platform::MacOs => seq![
            fixed("/Applications/Google Chrome.app/Contents/MacOS/Google Chrome"@),
            fixed("/Applications/Google Chrome Canary.app/Contents/MacOS/Google Chrome Canary"@),
        ],
        Platform::Windows => under(dirs.0, "Google/Chrome/Application/chrome.exe"@) + under(
            dirs.1,
            "Google/Chrome/Application/chrome.exe"@,
        ) + under(dirs.2, "Google/Chrome/Application/chrome.exe"@),
        Platform::Linux => seq![
            fixed("/usr/bin/google-chrome"@),
            fixed("/usr/bin/google-chrome-stable"@),
            fixed("/usr/bin/chromium"@),
            fixed("/usr/bin/chromium-browser"@),
        ],
        Platform::Other => Seq::empty(),
    }
}

/// Where Chromium may be installed, in the order searched.
pub open spec fn chromium_candidates(platform: Platform, local_app_data: Option<Seq<char>>) -> Seq<CandidateView> {
    match platform {
        Platform::MacOs => seq![fixed("/Applications/Chromium.app/Contents/MacOS/Chromium"@)],
        Platform::Windows => under(local_app_data, "Chromium/Application/chrome.exe"@),
        Platform::Linux => seq![fixed("/usr/bin/chromium"@), fixed("/usr/bin/chromium-browser"@)],
        Platform::Other => Seq::empty(),
    }
}

/// Where to look for the chosen browser, in order; a path given by the user
/// is the one place.
pub open spec fn search_order(choice: ChoiceView, platform: Platform, dirs: (Option<Seq<char>>, Option<Seq<char>>, Option<Seq<char>>)) -> Seq<CandidateView> {
    match choice {
        ChoiceView::Chrome => chrome_candidates(platform, dirs),
        ChoiceView::Chromium => chromium_candidates(platform, dirs.2),
        ChoiceView::Executable(p) => seq![fixed(p)],
    }
}

/// The Windows directories by their views.
pub open spec fn dirs_view(dirs: &WindowsDirs) -> (Option<Seq<char>>, Option<Seq<char>>, Option<Seq<char>>) {
    (opt_view(dirs.program_files), opt_view(dirs.program_files_x86), opt_view(dirs.local_app_data))
}

/// The views of a list of candidates.
pub open spec fn candidate_views(v: Seq<Candidate>) -> Seq<CandidateView> {
    v.map_values(|c: Candidate| c@)
}

/// A copy of an optional string.
fn copy_option(o: &Option<String>) -> (r: Option<String>)
    ensures
        opt_view(r) == opt_view(*o),
{
    match o {
        Some(s) => Some(owned(s.as_str())),
        None => None,
    }
}

/// Appends a candidate under `dir` when `dir` is known.
fn push_under(v: &mut Vec<Candidate>, dir: &Option<String>, relative: &str)
    ensures
        candidate_views(final(v)@) == candidate_views(old(v)@) + under(opt_view(*dir), relative@),
{
    let ghost before = v@;
    match dir {
        Some(d) => {
            v.push(Candidate { base: Some(owned(d.as_str())), relative: owned(relative) });
            assert(candidate_views(v@) =~= candidate_views(before) + under(opt_view(*dir), relative@));
        },
        None => {
            assert(candidate_views(v@) =~= candidate_views(before) + under(opt_view(*dir), relative@));
        },
    }
}

/// Appends a candidate with an absolute path.
fn push_fixed(v: &mut Vec<Candidate>, path: &str)
    ensures
        candidate_views(final(v)@) == candidate_views(old(v)@).push(fixed(path@)),
{
    let ghost before = v@;
    v.push(Candidate { base: None, relative: owned(path) });
    assert(candidate_views(v@) =~= candidate_views(before).push(fixed(path@)));
}

/// Where to look for the chosen browser, in order.
pub fn candidates(choice: &BrowserChoice, platform: Platform, dirs: &WindowsDirs) -> (r: Vec<Candidate>)
    ensures
        candidate_views(r@) == search_order(choice@, platform, dirs_view(dirs)),
{
    let mut v: Vec<Candidate> = Vec::new();
    assert(candidate_views(v@) =~= Seq::<CandidateView>::empty());
    match choice {
        BrowserChoice::Chrome => match platform {
            Platform::MacOs => {
                push_fixed(&mut v, "/Applications/Google Chrome.app/Contents/MacOS/Google Chrome");
                push_fixed(&mut v, "/Applications/Google Chrome Canary.app/Contents/MacOS/Google Chrome Canary");
                assert(candidate_views(v@) =~= search_order(choice@, platform, dirs_view(dirs)));
            },
            Platform::Windows => {
                push_under(&mut v, &dirs.program_files, "Google/Chrome/Application/chrome.exe");
                push_under(&mut v, &dirs.program_files_x86, "Google/Chrome/Application/chrome.exe");
                push_under(&mut v, &dirs.local_app_data, "Google/Chrome/Application/chrome.exe");
                assert(candidate_views(v@) =~= search_order(choice@, platform, dirs_view(dirs)));
            },
            Platform::Linux => {
                push_fixed(&mut v, "/usr/bin/google-chrome");
                push_fixed(&mut v, "/usr/bin/google-chrome-stable");
                push_fixed(&mut v, "/usr/bin/chromium");
                push_fixed(&mut v, "/usr/bin/chromium-browser");
                assert(candidate_views(v@) =~= search_order(choice@, platform, dirs_view(dirs)));
            },
            Platform::Other => {},
        },
        BrowserChoice::Chromium => match platform {
            Platform::MacOs => {
                push_fixed(&mut v, "/Applications/Chromium.app/Contents/MacOS/Chromium");
                assert(candidate_views(v@) =~= search_order(choice@, platform, dirs_view(dirs)));
            },
            Platform::Windows => {
                push_under(&mut v, &dirs.local_app_data, "Chromium/Application/chrome.exe");
                assert(candidate_views(v@) =~= search_order(choice@, platform, dirs_view(dirs)));
            },
            Platform::Linux => {
                push_fixed(&mut v, "/usr/bin/chromium");
                push_fixed(&mut v, "/usr/bin/chromium-browser");
                assert(candidate_views(v@) =~= search_order(choice@, platform, dirs_view(dirs)));
            },
            Platform::Other => {},
        },
        BrowserChoice::Executable(p) => {
            push_fixed(&mut v, p.as_str());
            assert(candidate_views(v@) =~= search_order(choice@, platform, dirs_view(dirs)));
        },
    }
    v
}

/// The full path of a candidate on `platform`: the directory joined with the
/// relative path (`Path::join`), or the path itself.
pub open spec fn candidate_path(c: CandidateView, platform: Platform) -> Seq<char> {
    match c.base {
        Some(b) => join_path_with(b, c.relative, separator(platform)),
        None => c.relative,
    }
}

/// The full paths to look at for the chosen browser, in order.
pub open spec fn search_paths(
    choice: ChoiceView,
    platform: Platform,
    dirs: (Option<Seq<char>>, Option<Seq<char>>, Option<Seq<char>>),
) -> Seq<Seq<char>> {
    search_order(choice, platform, dirs).map_values(|c: CandidateView| candidate_path(c, platform))
}

/// The full paths of the candidates, in order.
pub fn candidate_paths(candidates: &Vec<Candidate>, platform: Platform) -> (r: Vec<String>)
    ensures
        r@.len() == candidates@.len(),
        forall|i: int|
            0 <= i < r@.len() ==> #[trigger] r@[i]@ == candidate_path(candidates@[i]@, platform),
{
    let sep = path_separator(platform);
    let mut out: Vec<String> = Vec::new();
    let mut i: usize = 0;
    while i < candidates.len()
        invariant
            i <= candidates@.len(),
            sep == separator(platform),
            out@.len() == i,
            forall|k: int|
                0 <= k < i ==> #[trigger] out@[k]@ == candidate_path(candidates@[k]@, platform),
        decreases candidates@.len() - i,
    {
        let c = &candidates[i];
        let path = match &c.base {
            Some(b) => join_path_with_str(b.as_str(), c.relative.as_str(), sep),
            None => owned(c.relative.as_str()),
        };
        out.push(path);
        i = i + 1;
    }
    out
}

/// A candidate looked at on disk: its full path and whether it exists.
pub struct Probe {
    pub path: String,
    pub exists: bool,
}

/// The first probed path that exists.
pub open spec fn first_existing(probes: Seq<Probe>) -> Option<int> {
    if exists|i: int| 0 <= i < probes.len() && #[trigger] probes[i].exists {
        Some(choose|i: int| 0 <= i < probes.len() && #[trigger] probes[i].exists && (forall|j: int| 0 <= j < i ==> !probes[j].exists))
    } else {
        None
    }
}

/// What resolving a `--browser` value yields: the first probed candidate that
/// exists, or the error for the choice.
pub open spec fn browser_outcome(value: Seq<char>, probes: Seq<Probe>) -> Result<Seq<char>, ErrorView> {
    match first_existing(probes) {
        Some(i) => Ok(probes[i].path@),
        None => match choice_of(value) {
            ChoiceView::Chrome => Err(ErrorView::ChromeNotFound),
            ChoiceView::Chromium => Err(ErrorView::ChromiumNotFound),
            ChoiceView::Executable(p) => Err(ErrorView::BrowserMissing(p)),
        },
    }
}

/// A browser result by its view.
pub open spec fn browser_result_view(r: Result<Browser, Error>) -> Result<Seq<char>, ErrorView> {
    match r {
        Ok(b) => Ok(b@),
        Err(e) => Err(e@),
    }
}

/// The browser to launch for a `--browser` value, given its candidates (in
/// the order of `candidates`) as probed on disk.
pub fn resolve_browser(value: &str, probes: &Vec<Probe>) -> (r: Result<Browser, Error>)
    ensures
        browser_result_view(r) == browser_outcome(value@, probes@),
{
    let mut i: usize = 0;
    while i < probes.len()
        invariant
            i <= probes@.len(),
            forall|j: int| 0 <= j < i ==> !#[trigger] probes@[j].exists,
        decreases probes@.len() - i,
    {
        if probes[i].exists {
            let ghost k = i as int;
            assert(0 <= k < probes@.len() && probes@[k].exists);
            proof {
                let c = choose|j: int| 0 <= j < probes@.len() && #[trigger] probes@[j].exists && (forall|m: int| 0 <= m < j ==> !probes@[m].exists);
                assert(c == k) by {
                    if c < k {
                        assert(!probes@[c].exists);
                    } else if c > k {
                        assert(!probes@[k].exists);
                    }
                }
            }
            return Ok(Browser { executable: owned(probes[i].path.as_str()) });
        }
        i = i + 1;
    }
    match browser_choice(value) {
        BrowserChoice::Chrome => Err(Error::ChromeNotFound),
        BrowserChoice::Chromium => Err(Error::ChromiumNotFound),
        BrowserChoice::Executable(p) => Err(Error::BrowserMissing(p)),
    }
}

/// The arguments the browser is launched with: the PAC URL, QUIC disabled
/// (so that all of its traffic takes the proxy's route), then the user's own.
pub open spec fn launch_arguments(pac_url: Seq<char>, extra: Seq<Seq<char>>) -> Seq<Seq<char>> {
    seq!["--proxy-pac-url="@ + pac_url, "--disable-quic"@] + extra
}

impl Browser {
    /// The executable.
    pub fn executable(&self) -> (r: &str)
        ensures
            r@ == self@,
    {
        self.executable.as_str()
    }

    /// The arguments to launch the browser with.
    pub fn launch_args(&self, pac_url: &str, browser_args: &Vec<String>) -> (r: Vec<String>)
        ensures
            r@.map_values(|s: String| s@) == launch_arguments(
                pac_url@,
                browser_args@.map_values(|s: String| s@),
            ),
    {
        let mut first: Vec<char> = Vec::new();
        push_str(&mut first, "--proxy-pac-url=");
        push_str(&mut first, pac_url);
        let mut out: Vec<String> = Vec::new();
        out.push(string_of(&first));
        out.push(owned("--disable-quic"));
        let mut i: usize = 0;
        while i < browser_args.len()
            invariant
                i <= browser_args@.len(),
                out@.map_values(|s: String| s@) == seq!["--proxy-pac-url="@ + pac_url@, "--disable-quic"@]
                    + browser_args@.map_values(|s: String| s@).take(i as int),
            decreases browser_args@.len() - i,
        {
            let ghost before = out@.map_values(|s: String| s@);
            out.push(owned(browser_args[i].as_str()));
            assert(browser_args@.map_values(|s: String| s@).take(i + 1) =~= browser_args@.map_values(
                |s: String| s@,
            ).take(i as int).push(browser_args@[i as int]@));
            assert(out@.map_values(|s: String| s@) =~= before.push(browser_args@[i as int]@));
            i = i + 1;
        }
        assert(browser_args@.map_values(|s: String| s@).take(browser_args@.len() as int)
            =~= browser_args@.map_values(|s: String| s@));
        out
    }
}

} // verus!

verus! {

// ---------------------------------------------------------------------------
// Laws
// ---------------------------------------------------------------------------

/// Whatever tells whether a path exists, the browser found for a `--browser`
/// value is the first of its search paths that exists; where none does, the
/// result is the choice's error. A value that is neither `chrome` nor
/// `chromium` is the one path looked at.
pub proof fn law_browser_is_first_existing_path(
    value: Seq<char>,
    platform: Platform,
    dirs: (Option<Seq<char>>, Option<Seq<char>>, Option<Seq<char>>),
    exists_at: spec_fn(Seq<char>) -> bool,
    probes: Seq<Probe>,
)
    requires
        probes.len() == search_paths(choice_of(value), platform, dirs).len(),
        forall|i: int|
            0 <= i < probes.len() ==> (#[trigger] probes[i]).path@ == search_paths(
                choice_of(value),
                platform,
                dirs,
            )[i] && probes[i].exists == exists_at(probes[i].path@),
    ensures
        ({
            let paths = search_paths(choice_of(value), platform, dirs);
            &&& choice_of(value) matches ChoiceView::Executable(p) ==> paths == seq![p]
            &&& match browser_outcome(value, probes) {
                Ok(path) => exists|k: int|
                    0 <= k < paths.len() && path == paths[k] && exists_at(#[trigger] paths[k])
                        && forall|j: int| 0 <= j < k ==> !exists_at(#[trigger] paths[j]),
                Err(e) => (forall|k: int| 0 <= k < paths.len() ==> !exists_at(#[trigger] paths[k]))
                    && e == match choice_of(value) {
                    ChoiceView::Chrome => ErrorView::ChromeNotFound,
                    ChoiceView::Chromium => ErrorView::ChromiumNotFound,
                    ChoiceView::Executable(p) => ErrorView::BrowserMissing(p),
                },
            }
        }),
{
    let paths = search_paths(choice_of(value), platform, dirs);
    if let ChoiceView::Executable(p) = choice_of(value) {
        assert(paths =~= seq![p]);
    }
    match first_existing(probes) {
        Some(k) => {
            assert(probes[k].exists);
            assert forall|j: int| 0 <= j < k implies !exists_at(#[trigger] paths[j]) by {
                assert(!probes[j].exists);
            }
            assert(exists_at(paths[k]));
        },
        None => {
            assert forall|k: int| 0 <= k < paths.len() implies !exists_at(#[trigger] paths[k]) by {
                assert(!probes[k].exists);
            }
        },
    }
}

/// Where each browser is looked for, in order. `chrome`: on macOS Google
/// Chrome, then Chrome Canary, in `/Applications`; on Windows
/// `Google/Chrome/Application/chrome.exe` under `PROGRAMFILES`,
/// `PROGRAMFILES(X86)` and `LOCALAPPDATA`, each where set; on Linux
/// `google-chrome`, `google-chrome-stable`, `chromium`, `chromium-browser` in
/// `/usr/bin`. `chromium`: on macOS Chromium in `/Applications`, on Windows
/// `Chromium/Application/chrome.exe` under `LOCALAPPDATA`, on Linux
/// `chromium`, `chromium-browser` in `/usr/bin`. Elsewhere nowhere.
pub proof fn law_browser_search_paths(a: Seq<char>, b: Seq<char>, c: Seq<char>)
    ensures
        search_paths(ChoiceView::Chrome, Platform::MacOs, (None, None, None)) == seq![
            "/Applications/Google Chrome.app/Contents/MacOS/Google Chrome"@,
            "/Applications/Google Chrome Canary.app/Contents/MacOS/Google Chrome Canary"@,
        ],
        search_paths(ChoiceView::Chrome, Platform::Windows, (Some(a), Some(b), Some(c))) == seq![
            join_path_with(a, "Google/Chrome/Application/chrome.exe"@, '\\'),
            join_path_with(b, "Google/Chrome/Application/chrome.exe"@, '\\'),
            join_path_with(c, "Google/Chrome/Application/chrome.exe"@, '\\'),
        ],
        search_paths(ChoiceView::Chrome, Platform::Windows, (None, Some(b), None)) == seq![
            join_path_with(b, "Google/Chrome/Application/chrome.exe"@, '\\'),
        ],
        search_paths(ChoiceView::Chrome, Platform::Windows, (None, None, None)) == Seq::<
            Seq<char>,
        >::empty(),
        search_paths(ChoiceView::Chrome, Platform::Linux, (None, None, None)) == seq![
            "/usr/bin/google-chrome"@,
            "/usr/bin/google-chrome-stable"@,
            "/usr/bin/chromium"@,
            "/usr/bin/chromium-browser"@,
        ],
        search_paths(ChoiceView::Chrome, Platform::Other, (Some(a), Some(b), Some(c))) == Seq::<
            Seq<char>,
        >::empty(),
        search_paths(ChoiceView::Chromium, Platform::MacOs, (None, None, None)) == seq![
            "/Applications/Chromium.app/Contents/MacOS/Chromium"@,
        ],
        search_paths(ChoiceView::Chromium, Platform::Windows, (Some(a), Some(b), Some(c))) == seq![
            join_path_with(c, "Chromium/Application/chrome.exe"@, '\\'),
        ],
        search_paths(ChoiceView::Chromium, Platform::Windows, (Some(a), Some(b), None)) == Seq::<
            Seq<char>,
        >::empty(),
        search_paths(ChoiceView::Chromium, Platform::Linux, (None, None, None)) == seq![
            "/usr/bin/chromium"@,
            "/usr/bin/chromium-browser"@,
        ],
        search_paths(ChoiceView::Chromium, Platform::Other, (None, None, None)) == Seq::<
            Seq<char>,
        >::empty(),
        search_paths(ChoiceView::Executable(a), Platform::Windows, (Some(a), Some(b), Some(c)))
            == seq![a],
{
    assert(search_paths(ChoiceView::Chrome, Platform::MacOs, (None, None, None)) =~= seq![
        "/Applications/Google Chrome.app/Contents/MacOS/Google Chrome"@,
        "/Applications/Google Chrome Canary.app/Contents/MacOS/Google Chrome Canary"@,
    ]);
    assert(search_paths(ChoiceView::Chrome, Platform::Windows, (Some(a), Some(b), Some(c))) =~= seq![
        join_path_with(a, "Google/Chrome/Application/chrome.exe"@, '\\'),
        join_path_with(b, "Google/Chrome/Application/chrome.exe"@, '\\'),
        join_path_with(c, "Google/Chrome/Application/chrome.exe"@, '\\'),
    ]);
    assert(search_paths(ChoiceView::Chrome, Platform::Windows, (None, Some(b), None)) =~= seq![
        join_path_with(b, "Google/Chrome/Application/chrome.exe"@, '\\'),
    ]);
    assert(search_paths(ChoiceView::Chrome, Platform::Windows, (None, None, None)) =~= Seq::<Seq<char>>::empty());
    assert(search_paths(ChoiceView::Chrome, Platform::Linux, (None, None, None)) =~= seq![
        "/usr/bin/google-chrome"@,
        "/usr/bin/google-chrome-stable"@,
        "/usr/bin/chromium"@,
        "/usr/bin/chromium-browser"@,
    ]);
    assert(search_paths(ChoiceView::Chrome, Platform::Other, (Some(a), Some(b), Some(c))) =~= Seq::<Seq<char>>::empty());
    assert(search_paths(ChoiceView::Chromium, Platform::MacOs, (None, None, None)) =~= seq![
        "/Applications/Chromium.app/Contents/MacOS/Chromium"@,
    ]);
    assert(search_paths(ChoiceView::Chromium, Platform::Windows, (Some(a), Some(b), Some(c))) =~= seq![
        join_path_with(c, "Chromium/Application/chrome.exe"@, '\\'),
    ]);
    assert(search_paths(ChoiceView::Chromium, Platform::Windows, (Some(a), Some(b), None)) =~= Seq::<Seq<char>>::empty());
    assert(search_paths(ChoiceView::Chromium, Platform::Linux, (None, None, None)) =~= seq![
        "/usr/bin/chromium"@,
        "/usr/bin/chromium-browser"@,
    ]);
    assert(search_paths(ChoiceView::Chromium, Platform::Other, (None, None, None)) =~= Seq::<Seq<char>>::empty());
    assert(search_paths(ChoiceView::Executable(a), Platform::Windows, (Some(a), Some(b), Some(c))) =~= seq![a]);
}

/// `chrome` and `chromium` choose those browsers by name; every other value
/// is taken as the executable's path, as given.
pub proof fn law_browser_choice(value: Seq<char>)
    ensures
        choice_of("chrome"@) == ChoiceView::Chrome,
        choice_of("chromium"@) == ChoiceView::Chromium,
        value != "chrome"@ && value != "chromium"@ ==> choice_of(value) == ChoiceView::Executable(
            value,
        ),
{
    reveal_strlit("chrome");
    reveal_strlit("chromium");
    assert("chromium"@.len() != "chrome"@.len());
}

} // verus!
