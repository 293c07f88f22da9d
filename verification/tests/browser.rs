use rexy::browser::{
    browser_choice, candidate_paths, candidates, resolve_browser, BrowserChoice, Candidate, Probe, WindowsDirs,
};
use rexy::error::Error;
use rexy::platform::Platform;

fn no_dirs() -> WindowsDirs {
    WindowsDirs { program_files: None, program_files_x86: None, local_app_data: None }
}

fn names(c: &[Candidate]) -> Vec<(Option<String>, String)> {
    c.iter().map(|c| (c.base.clone(), c.relative.clone())).collect()
}

fn probe(path: &str, exists: bool) -> Probe {
    Probe { path: path.into(), exists }
}

#[test]
fn choices() {
    assert!(matches!(browser_choice("chrome"), BrowserChoice::Chrome));
    assert!(matches!(browser_choice("chromium"), BrowserChoice::Chromium));
    match browser_choice("Chrome") {
        BrowserChoice::Executable(p) => assert_eq!(p, "Chrome"),
        _ => panic!("a path"),
    }
}

#[test]
fn chrome_candidates_per_platform() {
    let linux = candidates(&BrowserChoice::Chrome, Platform::Linux, &no_dirs());
    assert_eq!(
        names(&linux),
        vec![
            (None, "/usr/bin/google-chrome".to_string()),
            (None, "/usr/bin/google-chrome-stable".to_string()),
            (None, "/usr/bin/chromium".to_string()),
            (None, "/usr/bin/chromium-browser".to_string()),
        ]
    );
    let dirs = WindowsDirs {
        program_files: Some("C:\\PF".into()),
        program_files_x86: None,
        local_app_data: Some("C:\\L".into()),
    };
    let windows = candidates(&BrowserChoice::Chrome, Platform::Windows, &dirs);
    assert_eq!(
        names(&windows),
        vec![
            (Some("C:\\PF".to_string()), "Google/Chrome/Application/chrome.exe".to_string()),
            (Some("C:\\L".to_string()), "Google/Chrome/Application/chrome.exe".to_string()),
        ]
    );
    assert_eq!(candidates(&BrowserChoice::Chrome, Platform::MacOs, &no_dirs()).len(), 2);
    assert!(candidates(&BrowserChoice::Chrome, Platform::Other, &no_dirs()).is_empty());
}

#[test]
fn chromium_and_path_candidates() {
    assert_eq!(
        names(&candidates(&BrowserChoice::Chromium, Platform::MacOs, &no_dirs())),
        vec![(None, "/Applications/Chromium.app/Contents/MacOS/Chromium".to_string())]
    );
    assert!(candidates(&BrowserChoice::Chromium, Platform::Windows, &no_dirs()).is_empty());
    assert_eq!(
        names(&candidates(&BrowserChoice::Executable("/opt/b".into()), Platform::Linux, &no_dirs())),
        vec![(None, "/opt/b".to_string())]
    );
}

#[test]
fn resolve_takes_first_existing() {
    let b = resolve_browser("chrome", &vec![probe("/a", false), probe("/b", true), probe("/c", true)])
        .unwrap();
    assert_eq!(b.executable(), "/b");
}

#[test]
fn resolve_errors() {
    assert_eq!(resolve_browser("chrome", &vec![probe("/a", false)]).err(), Some(Error::ChromeNotFound));
    assert_eq!(resolve_browser("chromium", &vec![]).err(), Some(Error::ChromiumNotFound));
    let err = resolve_browser("/no/such", &vec![probe("/no/such", false)]).err().unwrap();
    assert_eq!(err, Error::BrowserMissing("/no/such".into()));
    assert_eq!(err.message(), "browser executable does not exist: /no/such");
}

#[test]
fn launch_arguments() {
    let b = resolve_browser("x", &vec![probe("x", true)]).unwrap();
    assert_eq!(
        b.launch_args("http://127.0.0.1:9/proxy.pac", &vec!["--new-window".into(), "https://a/".into()]),
        vec![
            "--proxy-pac-url=http://127.0.0.1:9/proxy.pac".to_string(),
            "--disable-quic".to_string(),
            "--new-window".to_string(),
            "https://a/".to_string(),
        ]
    );
}

#[test]
fn candidate_full_paths() {
    let dirs = WindowsDirs {
        program_files: Some("C:\\Program Files".into()),
        program_files_x86: Some("D:\\x86\\".into()),
        local_app_data: Some("E:/data/".into()),
    };
    let paths = candidate_paths(&candidates(&BrowserChoice::Chrome, Platform::Windows, &dirs), Platform::Windows);
    assert_eq!(
        paths,
        vec![
            "C:\\Program Files\\Google/Chrome/Application/chrome.exe".to_string(),
            "D:\\x86\\Google/Chrome/Application/chrome.exe".to_string(),
            "E:/data/Google/Chrome/Application/chrome.exe".to_string(),
        ]
    );
    let paths = candidate_paths(&candidates(&BrowserChoice::Chromium, Platform::Linux, &no_dirs()), Platform::Linux);
    assert_eq!(paths, vec!["/usr/bin/chromium".to_string(), "/usr/bin/chromium-browser".to_string()]);
    let probes: Vec<Probe> = paths.into_iter().map(|p| probe(&p, p.ends_with("browser"))).collect();
    assert_eq!(resolve_browser("chromium", &probes).unwrap().executable(), "/usr/bin/chromium-browser");
}

#[test]
fn candidate_under_a_bare_drive() {
    let dirs = WindowsDirs { program_files: None, program_files_x86: None, local_app_data: Some("C:".into()) };
    let paths = candidate_paths(&candidates(&BrowserChoice::Chromium, Platform::Windows, &dirs), Platform::Windows);
    assert_eq!(paths, vec!["C:Chromium/Application/chrome.exe".to_string()]);
}
