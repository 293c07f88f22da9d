use rexy::error::Error;
use rexy::platform::Platform;
use rexy::trust::{
    check_linux, install, is_likely_installed, login_keychain, remove, remove_linux,
    remove_windows, step_result, CommandOutcome, CommandSpec, OnFailure, TrustProbe, TrustStep,
};

fn line(c: &CommandSpec) -> String {
    let mut s = c.program.clone();
    for a in &c.args {
        s.push(' ');
        s.push_str(a);
    }
    s
}

fn lines(steps: &[TrustStep]) -> Vec<String> {
    steps.iter().map(|s| line(&s.command)).collect()
}

#[test]
fn install_needs_the_certificate() {
    assert_eq!(
        install(Platform::Linux, "ca/rexy.cer", false, None).err(),
        Some(Error::CaCertificateMissing)
    );
}

#[test]
fn install_on_linux_copies_then_updates() {
    let steps = install(Platform::Linux, "ca/rexy.cer", true, None).unwrap();
    assert_eq!(
        lines(&steps),
        vec![
            "pkexec cp ca/rexy.cer /usr/local/share/ca-certificates/local-dev-proxy.crt",
            "pkexec update-ca-certificates",
        ]
    );
    assert!(matches!(steps[0].on_failure, OnFailure::Fail(Error::TrustStoreCopyFailed)));
    assert!(matches!(steps[1].on_failure, OnFailure::Report));
}

#[test]
fn install_on_macos_replaces_old_certificate() {
    let steps = install(Platform::MacOs, "ca/rexy.cer", true, Some("/Users/me".into())).unwrap();
    assert_eq!(
        lines(&steps),
        vec![
            "security delete-certificate -c Rexy Local CA /Users/me/Library/Keychains/login.keychain-db",
            "security add-trusted-cert -r trustRoot -p ssl -k /Users/me/Library/Keychains/login.keychain-db ca/rexy.cer",
        ]
    );
    assert!(matches!(steps[0].on_failure, OnFailure::Ignore));
    assert!(matches!(steps[1].on_failure, OnFailure::Report));
    assert_eq!(
        install(Platform::MacOs, "ca/rexy.cer", true, None).err(),
        Some(Error::HomeNotSet)
    );
}

#[test]
fn install_on_windows_and_elsewhere() {
    let steps = install(Platform::Windows, "ca\\rexy.cer", true, None).unwrap();
    assert_eq!(lines(&steps), vec!["certutil -user -addstore Root ca\\rexy.cer"]);
    assert_eq!(
        install(Platform::Other, "ca/rexy.cer", true, None).err(),
        Some(Error::InstallUnsupported)
    );
}

#[test]
fn removal_per_platform() {
    assert_eq!(
        lines(&remove(Platform::MacOs, Some("/Users/me/".into())).unwrap()),
        vec!["security delete-certificate -c Rexy Local CA /Users/me/Library/Keychains/login.keychain-db"]
    );
    let mac = remove(Platform::MacOs, Some("/h".into())).unwrap();
    assert!(matches!(mac[0].on_failure, OnFailure::Fail(Error::KeychainRemoveFailed)));
    assert_eq!(lines(&remove_windows()), vec!["certutil -user -delstore Root Rexy Local CA"]);
    assert_eq!(
        lines(&remove_linux()),
        vec![
            "pkexec rm -f /usr/local/share/ca-certificates/local-dev-proxy.crt",
            "pkexec update-ca-certificates",
        ]
    );
    assert_eq!(remove(Platform::Other, None).err(), Some(Error::RemoveUnsupported));
    assert_eq!(remove(Platform::MacOs, None).err(), Some(Error::HomeNotSet));
}

#[test]
fn installed_check_per_platform() {
    match is_likely_installed(Platform::Linux, None) {
        TrustProbe::FileExists(path) => assert_eq!(path, check_linux()),
        _ => panic!("expected a file check"),
    }
    match is_likely_installed(Platform::Windows, None) {
        TrustProbe::CommandSucceeds(c) => {
            assert_eq!(line(&c), "certutil -user -verifystore Root Rexy Local CA")
        }
        _ => panic!("expected a command"),
    }
    match is_likely_installed(Platform::MacOs, Some("/u".into())) {
        TrustProbe::CommandSucceeds(c) => assert_eq!(
            line(&c),
            "security find-certificate -a -c Rexy Local CA /u/Library/Keychains/login.keychain-db"
        ),
        _ => panic!("expected a command"),
    }
    assert!(matches!(is_likely_installed(Platform::MacOs, None), TrustProbe::Never));
    assert!(matches!(is_likely_installed(Platform::Other, None), TrustProbe::Never));
}

#[test]
fn keychain_join() {
    assert_eq!(login_keychain(""), "Library/Keychains/login.keychain-db");
    assert_eq!(login_keychain("/x/"), "/x/Library/Keychains/login.keychain-db");
}

fn step(on_failure: OnFailure) -> TrustStep {
    TrustStep {
        command: CommandSpec { program: "pkexec".into(), args: vec!["update-ca-certificates".into()] },
        on_failure,
    }
}

#[test]
fn step_outcomes() {
    let exited = |ok: bool| CommandOutcome::Exited(ok, "exit status: 1".into());
    assert_eq!(step_result(step(OnFailure::Ignore), exited(false)), Ok(()));
    assert_eq!(step_result(step(OnFailure::Ignore), CommandOutcome::NotRun("x".into())), Ok(()));
    assert_eq!(step_result(step(OnFailure::Report), exited(true)), Ok(()));
    let err = step_result(step(OnFailure::Report), exited(false)).unwrap_err();
    assert_eq!(err.message(), "pkexec exited with status exit status: 1");
    assert_eq!(
        step_result(step(OnFailure::Report), CommandOutcome::NotRun("No such file".into())),
        Err(Error::CommandNotRun("No such file".into()))
    );
    assert_eq!(
        step_result(step(OnFailure::Fail(Error::TrustStoreCopyFailed)), exited(false)),
        Err(Error::TrustStoreCopyFailed)
    );
    assert_eq!(step_result(step(OnFailure::Fail(Error::TrustStoreCopyFailed)), exited(true)), Ok(()));
    assert_eq!(
        step_result(step(OnFailure::Fail(Error::TrustStoreCopyFailed)), CommandOutcome::NotRun("e".into())),
        Err(Error::CommandNotRun("e".into()))
    );
}
