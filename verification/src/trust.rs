//! Installing the local CA into the operating system's trust store and
//! removing it again: the commands to run, in order, and what a failure of
//! each means. Running them is left to the caller.
use vstd::prelude::*;

use crate::error::{Error, ErrorView};
use crate::platform::Platform;
use crate::text::{join_path, join_path_str, owned};

verus! {

/// A program with its arguments.
pub struct CommandSpec {
    pub program: String,
    pub args: Vec<String>,
}

/// A command by its program and arguments.
pub ghost struct CommandView {
    pub program: Seq<char>,
    pub args: Seq<Seq<char>>,
}

impl View for CommandSpec {
    type V = CommandView;

    open spec fn view(&self) -> CommandView {
        CommandView { program: self.program@, args: self.args@.map_values(|a: String| a@) }
    }
}

/// What a failure of a step means.
pub enum OnFailure {
    /// Neither a command that cannot be started nor one that fails stops the
    /// sequence.
    Ignore,
    /// The sequence stops; the error names the program and its exit status.
    Report,
    /// The sequence stops with this error (a command that cannot be started
    /// stops it with the system's error).
    Fail(Error),
}

/// `OnFailure` by its view.
pub ghost enum OnFailureView {
    Ignore,
    Report,
    Fail(ErrorView),
}

/// One command of an installation or removal.
pub struct TrustStep {
    pub command: CommandSpec,
    pub on_failure: OnFailure,
}

/// A step by its view.
pub ghost struct StepView {
    pub command: CommandView,
    pub on_failure: OnFailureView,
}

impl View for TrustStep {
    type V = StepView;

    open spec fn view(&self) -> StepView {
        StepView {
            command: self.command@,
            on_failure: match self.on_failure {
                OnFailure::Ignore => OnFailureView::Ignore,
                OnFailure::Report => OnFailureView::Report,
                OnFailure::Fail(e) => OnFailureView::Fail(e@),
            },
        }
    }
}

/// The views of a list of steps.
pub open spec fn step_views(steps: Seq<TrustStep>) -> Seq<StepView> {
    steps.map_values(|s: TrustStep| s@)
}

/// How running a command ended.
pub enum CommandOutcome {
    /// It could not be started; the system's explanation.
    NotRun(String),
    /// It exited: whether successfully, and its exit status as text.
    Exited(bool, String),
}

/// A command outcome by its view.
pub ghost enum OutcomeView {
    NotRun(Seq<char>),
    Exited(bool, Seq<char>),
}

impl View for CommandOutcome {
    type V = OutcomeView;

    open spec fn view(&self) -> OutcomeView {
        match self {
            CommandOutcome::NotRun(m) => OutcomeView::NotRun(m@),
            CommandOutcome::Exited(ok, status) => OutcomeView::Exited(*ok, status@),
        }
    }
}

/// What the outcome of a step's command means for the sequence: go on
/// (`Ok`), or stop with an error. An ignored step never stops it. Otherwise a
/// command that cannot be started stops it with the system's explanation, and
/// an unsuccessful exit with the step's own error, or, for a reported step,
/// with the program and its status.
pub open spec fn step_verdict(step: StepView, outcome: OutcomeView) -> Result<(), ErrorView> {
    match step.on_failure {
        OnFailureView::Ignore => Ok(()),
        OnFailureView::Report => match outcome {
            OutcomeView::NotRun(m) => Err(ErrorView::CommandNotRun(m)),
            OutcomeView::Exited(true, _) => Ok(()),
            OutcomeView::Exited(false, status) => Err(
                ErrorView::CommandExited(step.command.program, status),
            ),
        },
        OnFailureView::Fail(e) => match outcome {
            OutcomeView::NotRun(m) => Err(ErrorView::CommandNotRun(m)),
            OutcomeView::Exited(true, _) => Ok(()),
            OutcomeView::Exited(false, _) => Err(e),
        },
    }
}

/// A unit result by its view.
pub open spec fn verdict_view(r: Result<(), Error>) -> Result<(), ErrorView> {
    match r {
        Ok(_) => Ok(()),
        Err(e) => Err(e@),
    }
}

/// Whether the sequence of steps goes on after this step's command ended
/// with `outcome`, or the error it stops with.
pub fn step_result(step: TrustStep, outcome: CommandOutcome) -> (r: Result<(), Error>)
    ensures
        verdict_view(r) == step_verdict(step@, outcome@),
{
    match step.on_failure {
        OnFailure::Ignore => Ok(()),
        OnFailure::Report => match outcome {
            CommandOutcome::NotRun(m) => Err(Error::CommandNotRun(m)),
            CommandOutcome::Exited(true, _) => Ok(()),
            CommandOutcome::Exited(false, status) => Err(
                Error::CommandExited(step.command.program, status),
            ),
        },
        OnFailure::Fail(e) => match outcome {
            CommandOutcome::NotRun(m) => Err(Error::CommandNotRun(m)),
            CommandOutcome::Exited(true, _) => Ok(()),
            CommandOutcome::Exited(false, _) => Err(e),
        },
    }
}

/// How to tell whether the CA is likely installed.
pub enum TrustProbe {
    /// It is not (or cannot be told).
    Never,
    /// It is when this file exists.
    FileExists(String),
    /// It is when this command succeeds.
    CommandSucceeds(CommandSpec),
}

/// A probe by its view.
pub ghost enum ProbeView {
    Never,
    FileExists(Seq<char>),
    CommandSucceeds(CommandView),
}

impl View for TrustProbe {
    type V = ProbeView;

    open spec fn view(&self) -> ProbeView {
        match self {
            TrustProbe::Never => ProbeView::Never,
            TrustProbe::FileExists(p) => ProbeView::FileExists(p@),
            TrustProbe::CommandSucceeds(c) => ProbeView::CommandSucceeds(c@),
        }
    }
}

// ---------------------------------------------------------------------------
// The commands
// ---------------------------------------------------------------------------

/// The common name of the CA certificate.
pub open spec fn ca_name() -> Seq<char> {
    "Rexy Local CA"@
}

/// Where the CA certificate goes on Linux.
pub open spec fn linux_ca_file() -> Seq<char> {
    "/usr/local/share/ca-certificates/local-dev-proxy.crt"@
}

/// The login keychain under a home directory.
pub open spec fn login_keychain_path(home: Seq<char>) -> Seq<char> {
    join_path(home, "Library/Keychains/login.keychain-db"@)
}

/// A command by its parts.
pub open spec fn command_of(program: Seq<char>, args: Seq<Seq<char>>) -> CommandView {
    CommandView { program, args }
}

/// A step by its parts.
pub open spec fn step_of(command: CommandView, on_failure: OnFailureView) -> StepView {
    StepView { command, on_failure }
}

/// Deletes the CA certificate from a keychain.
pub open spec fn keychain_delete(keychain: Seq<char>) -> CommandView {
    command_of("security"@, seq!["delete-certificate"@, "-c"@, ca_name(), keychain])
}

/// macOS installation: delete an older Rexy CA, whatever the outcome, then add
/// the certificate as a trusted SSL root to the login keychain.
pub open spec fn install_macos_steps(cert: Seq<char>, keychain: Seq<char>) -> Seq<StepView> {
    seq![
        step_of(keychain_delete(keychain), OnFailureView::Ignore),
        step_of(
            command_of(
                "security"@,
                seq![
                    "add-trusted-cert"@,
                    "-r"@,
                    "trustRoot"@,
                    "-p"@,
                    "ssl"@,
                    "-k"@,
                    keychain,
                    cert,
                ],
            ),
            OnFailureView::Report,
        ),
    ]
}

/// macOS removal: delete the certificate from the login keychain.
pub open spec fn remove_macos_steps(keychain: Seq<char>) -> Seq<StepView> {
    seq![
        step_of(keychain_delete(keychain), OnFailureView::Fail(ErrorView::KeychainRemoveFailed)),
    ]
}

/// macOS check: the certificate is found in the login keychain.
pub open spec fn check_macos_command(keychain: Seq<char>) -> CommandView {
    command_of("security"@, seq!["find-certificate"@, "-a"@, "-c"@, ca_name(), keychain])
}

/// Windows installation: add the certificate to the user's `Root` store.
pub open spec fn install_windows_steps(cert: Seq<char>) -> Seq<StepView> {
    seq![
        step_of(
            command_of("certutil"@, seq!["-user"@, "-addstore"@, "Root"@, cert]),
            OnFailureView::Report,
        ),
    ]
}

/// Windows removal: delete the certificate from the user's `Root` store.
pub open spec fn remove_windows_steps() -> Seq<StepView> {
    seq![
        step_of(
            command_of("certutil"@, seq!["-user"@, "-delstore"@, "Root"@, ca_name()]),
            OnFailureView::Report,
        ),
    ]
}

/// Windows check: the user's `Root` store verifies the certificate.
pub open spec fn check_windows_command() -> CommandView {
    command_of("certutil"@, seq!["-user"@, "-verifystore"@, "Root"@, ca_name()])
}

/// Rebuilds the Linux certificate bundle.
pub open spec fn update_ca_certificates() -> CommandView {
    command_of("pkexec"@, seq!["update-ca-certificates"@])
}

/// Linux installation: copy the certificate into the system's CA directory,
/// then rebuild the bundle.
pub open spec fn install_linux_steps(cert: Seq<char>) -> Seq<StepView> {
    seq![
        step_of(
            command_of("pkexec"@, seq!["cp"@, cert, linux_ca_file()]),
            OnFailureView::Fail(ErrorView::TrustStoreCopyFailed),
        ),
        step_of(update_ca_certificates(), OnFailureView::Report),
    ]
}

/// Linux removal: delete the certificate from the system's CA directory, then
/// rebuild the bundle.
pub open spec fn remove_linux_steps() -> Seq<StepView> {
    seq![
        step_of(command_of("pkexec"@, seq!["rm"@, "-f"@, linux_ca_file()]), OnFailureView::Report),
        step_of(update_ca_certificates(), OnFailureView::Report),
    ]
}

/// A step list result by its view.
pub open spec fn plan_view(r: Result<Vec<TrustStep>, Error>) -> Result<Seq<StepView>, ErrorView> {
    match r {
        Ok(steps) => Ok(step_views(steps@)),
        Err(e) => Err(e@),
    }
}

/// The installation for a platform: the certificate must exist, macOS needs a
/// home directory, and other systems are not supported.
pub open spec fn install_plan(
    platform: Platform,
    cert: Seq<char>,
    cert_exists: bool,
    home: Option<Seq<char>>,
) -> Result<Seq<StepView>, ErrorView> {
    if !cert_exists {
        Err(ErrorView::CaCertificateMissing)
    } else {
        match platform {
            Platform::MacOs => match home {
                Some(h) => Ok(install_macos_steps(cert, login_keychain_path(h))),
                None => Err(ErrorView::HomeNotSet),
            },
            Platform::Windows => Ok(install_windows_steps(cert)),
            Platform::Linux => Ok(install_linux_steps(cert)),
            Platform::Other => Err(ErrorView::InstallUnsupported),
        }
    }
}

/// The removal for a platform.
pub open spec fn remove_plan(platform: Platform, home: Option<Seq<char>>) -> Result<
    Seq<StepView>,
    ErrorView,
> {
    match platform {
        Platform::MacOs => match home {
            Some(h) => Ok(remove_macos_steps(login_keychain_path(h))),
            None => Err(ErrorView::HomeNotSet),
        },
        Platform::Windows => Ok(remove_windows_steps()),
        Platform::Linux => Ok(remove_linux_steps()),
        Platform::Other => Err(ErrorView::RemoveUnsupported),
    }
}

/// How to tell whether the CA is installed on a platform.
pub open spec fn installed_probe(platform: Platform, home: Option<Seq<char>>) -> ProbeView {
    match platform {
        Platform::MacOs => match home {
            Some(h) => ProbeView::CommandSucceeds(check_macos_command(login_keychain_path(h))),
            None => ProbeView::Never,
        },
        Platform::Windows => ProbeView::CommandSucceeds(check_windows_command()),
        Platform::Linux => ProbeView::FileExists(linux_ca_file()),
        Platform::Other => ProbeView::Never,
    }
}

/// An optional string by its view.
pub open spec fn opt_view(o: Option<String>) -> Option<Seq<char>> {
    match o {
        Some(s) => Some(s@),
        None => None,
    }
}

// ---------------------------------------------------------------------------
// Building the commands
// ---------------------------------------------------------------------------

/// A command from a program and its arguments.
fn command(program: &str, args: Vec<String>) -> (r: CommandSpec)
    ensures
        r@ == command_of(program@, args@.map_values(|a: String| a@)),
{
    CommandSpec { program: owned(program), args }
}

/// A list of one argument.
fn args1(a: &str) -> (r: Vec<String>)
    ensures
        r@.map_values(|s: String| s@) == seq![a@],
{
    let mut v: Vec<String> = Vec::new();
    v.push(owned(a));
    assert(v@.map_values(|s: String| s@) =~= seq![a@]);
    v
}

/// A list of three arguments.
fn args3(a: &str, b: &str, c: &str) -> (r: Vec<String>)
    ensures
        r@.map_values(|s: String| s@) == seq![a@, b@, c@],
{
    let mut v: Vec<String> = Vec::new();
    v.push(owned(a));
    v.push(owned(b));
    v.push(owned(c));
    assert(v@.map_values(|s: String| s@) =~= seq![a@, b@, c@]);
    v
}

/// A list of four arguments.
fn args4(a: &str, b: &str, c: &str, d: &str) -> (r: Vec<String>)
    ensures
        r@.map_values(|s: String| s@) == seq![a@, b@, c@, d@],
{
    let mut v: Vec<String> = Vec::new();
    v.push(owned(a));
    v.push(owned(b));
    v.push(owned(c));
    v.push(owned(d));
    assert(v@.map_values(|s: String| s@) =~= seq![a@, b@, c@, d@]);
    v
}

/// A list of five arguments.
fn args5(a: &str, b: &str, c: &str, d: &str, e: &str) -> (r: Vec<String>)
    ensures
        r@.map_values(|s: String| s@) == seq![a@, b@, c@, d@, e@],
{
    let mut v = args4(a, b, c, d);
    let ghost before = v@;
    v.push(owned(e));
    assert(v@.map_values(|s: String| s@) =~= before.map_values(|s: String| s@).push(e@));
    v
}

/// A list of eight arguments.
fn args8(a: &str, b: &str, c: &str, d: &str, e: &str, f: &str, g: &str, h: &str) -> (r: Vec<
    String,
>)
    ensures
        r@.map_values(|s: String| s@) == seq![a@, b@, c@, d@, e@, f@, g@, h@],
{
    let mut v = args4(a, b, c, d);
    let ghost v0 = v@.map_values(|s: String| s@);
    v.push(owned(e));
    v.push(owned(f));
    v.push(owned(g));
    v.push(owned(h));
    assert(v@.map_values(|s: String| s@) =~= v0 + seq![e@, f@, g@, h@]);
    v
}

/// A one-step list.
fn steps1(a: TrustStep) -> (r: Vec<TrustStep>)
    ensures
        step_views(r@) == seq![a@],
{
    let mut v: Vec<TrustStep> = Vec::new();
    v.push(a);
    assert(step_views(v@) =~= seq![a@]);
    v
}

/// A two-step list.
fn steps2(a: TrustStep, b: TrustStep) -> (r: Vec<TrustStep>)
    ensures
        step_views(r@) == seq![a@, b@],
{
    let mut v: Vec<TrustStep> = Vec::new();
    v.push(a);
    v.push(b);
    assert(step_views(v@) =~= seq![a@, b@]);
    v
}

/// The login keychain under a home directory.
pub fn login_keychain(home: &str) -> (r: String)
    ensures
        r@ == login_keychain_path(home@),
{
    join_path_str(home, "Library/Keychains/login.keychain-db")
}

/// The steps that install the CA on macOS.
pub fn install_macos(cert: &str, keychain: &str) -> (r: Vec<TrustStep>)
    ensures
        step_views(r@) == install_macos_steps(cert@, keychain@),
{
    let delete = TrustStep {
        command: command("security", args4("delete-certificate", "-c", "Rexy Local CA", keychain)),
        on_failure: OnFailure::Ignore,
    };
    let add = TrustStep {
        command: command(
            "security",
            args8("add-trusted-cert", "-r", "trustRoot", "-p", "ssl", "-k", keychain, cert),
        ),
        on_failure: OnFailure::Report,
    };
    steps2(delete, add)
}

/// The steps that remove the CA on macOS.
pub fn remove_macos(keychain: &str) -> (r: Vec<TrustStep>)
    ensures
        step_views(r@) == remove_macos_steps(keychain@),
{
    steps1(
        TrustStep {
            command: command(
                "security",
                args4("delete-certificate", "-c", "Rexy Local CA", keychain),
            ),
            on_failure: OnFailure::Fail(Error::KeychainRemoveFailed),
        },
    )
}

/// The command that finds the CA on macOS.
pub fn check_macos(keychain: &str) -> (r: CommandSpec)
    ensures
        r@ == check_macos_command(keychain@),
{
    command("security", args5("find-certificate", "-a", "-c", "Rexy Local CA", keychain))
}

/// The steps that install the CA on Windows.
pub fn install_windows(cert: &str) -> (r: Vec<TrustStep>)
    ensures
        step_views(r@) == install_windows_steps(cert@),
{
    steps1(
        TrustStep {
            command: command("certutil", args4("-user", "-addstore", "Root", cert)),
            on_failure: OnFailure::Report,
        },
    )
}

/// The steps that remove the CA on Windows.
pub fn remove_windows() -> (r: Vec<TrustStep>)
    ensures
        step_views(r@) == remove_windows_steps(),
{
    steps1(
        TrustStep {
            command: command("certutil", args4("-user", "-delstore", "Root", "Rexy Local CA")),
            on_failure: OnFailure::Report,
        },
    )
}

/// The command that verifies the CA on Windows.
pub fn check_windows() -> (r: CommandSpec)
    ensures
        r@ == check_windows_command(),
{
    command("certutil", args4("-user", "-verifystore", "Root", "Rexy Local CA"))
}

/// The command that rebuilds the Linux bundle.
fn update_ca() -> (r: CommandSpec)
    ensures
        r@ == update_ca_certificates(),
{
    command("pkexec", args1("update-ca-certificates"))
}

/// The steps that install the CA on Linux.
pub fn install_linux(cert: &str) -> (r: Vec<TrustStep>)
    ensures
        step_views(r@) == install_linux_steps(cert@),
{
    let copy = TrustStep {
        command: command(
            "pkexec",
            args3("cp", cert, "/usr/local/share/ca-certificates/local-dev-proxy.crt"),
        ),
        on_failure: OnFailure::Fail(Error::TrustStoreCopyFailed),
    };
    let update = TrustStep { command: update_ca(), on_failure: OnFailure::Report };
    steps2(copy, update)
}

/// The steps that remove the CA on Linux.
pub fn remove_linux() -> (r: Vec<TrustStep>)
    ensures
        step_views(r@) == remove_linux_steps(),
{
    let delete = TrustStep {
        command: command(
            "pkexec",
            args3("rm", "-f", "/usr/local/share/ca-certificates/local-dev-proxy.crt"),
        ),
        on_failure: OnFailure::Report,
    };
    let update = TrustStep { command: update_ca(), on_failure: OnFailure::Report };
    steps2(delete, update)
}

/// The file whose presence tells that the CA is installed on Linux.
pub fn check_linux() -> (r: String)
    ensures
        r@ == linux_ca_file(),
{
    owned("/usr/local/share/ca-certificates/local-dev-proxy.crt")
}

/// The steps that install the CA into the trust store of `platform`; `cert` is
/// the certificate's path, `home` the home directory where there is one.
pub fn install(platform: Platform, cert: &str, cert_exists: bool, home: Option<String>) -> (r:
    Result<Vec<TrustStep>, Error>)
    ensures
        plan_view(r) == install_plan(platform, cert@, cert_exists, opt_view(home)),
{
    if !cert_exists {
        return Err(Error::CaCertificateMissing);
    }
    match platform {
        Platform::MacOs => match home {
            Some(h) => {
                let keychain = login_keychain(h.as_str());
                Ok(install_macos(cert, keychain.as_str()))
            },
            None => Err(Error::HomeNotSet),
        },
        Platform::Windows => Ok(install_windows(cert)),
        Platform::Linux => Ok(install_linux(cert)),
        Platform::Other => Err(Error::InstallUnsupported),
    }
}

/// The steps that remove the CA from the trust store of `platform`.
pub fn remove(platform: Platform, home: Option<String>) -> (r: Result<Vec<TrustStep>, Error>)
    ensures
        plan_view(r) == remove_plan(platform, opt_view(home)),
{
    match platform {
        Platform::MacOs => match home {
            Some(h) => {
                let keychain = login_keychain(h.as_str());
                Ok(remove_macos(keychain.as_str()))
            },
            None => Err(Error::HomeNotSet),
        },
        Platform::Windows => Ok(remove_windows()),
        Platform::Linux => Ok(remove_linux()),
        Platform::Other => Err(Error::RemoveUnsupported),
    }
}

/// How to tell whether the CA is likely installed on `platform`.
pub fn is_likely_installed(platform: Platform, home: Option<String>) -> (r: TrustProbe)
    ensures
        r@ == installed_probe(platform, opt_view(home)),
{
    match platform {
        Platform::MacOs => match home {
            Some(h) => {
                let keychain = login_keychain(h.as_str());
                TrustProbe::CommandSucceeds(check_macos(keychain.as_str()))
            },
            None => TrustProbe::Never,
        },
        Platform::Windows => TrustProbe::CommandSucceeds(check_windows()),
        Platform::Linux => TrustProbe::FileExists(check_linux()),
        Platform::Other => TrustProbe::Never,
    }
}

} // verus!

verus! {

// ---------------------------------------------------------------------------
// Laws
// ---------------------------------------------------------------------------

/// Installing on macOS first deletes the certificate that removal deletes,
/// ignoring a failure, so installing again after regenerating the CA
/// replaces the old certificate.
pub proof fn law_macos_reinstall_replaces(cert: Seq<char>, keychain: Seq<char>)
    ensures
        install_macos_steps(cert, keychain)[0] == step_of(
            remove_macos_steps(keychain)[0].command,
            OnFailureView::Ignore,
        ),
        check_macos_command(keychain).args.last() == keychain,
{
}

/// On Linux, installation copies the certificate to the very file that
/// removal deletes and that the check looks for.
pub proof fn law_linux_one_location(cert: Seq<char>, home: Option<Seq<char>>)
    ensures
        install_linux_steps(cert)[0].command.args.last() == linux_ca_file(),
        remove_linux_steps()[0].command.args.last() == linux_ca_file(),
        installed_probe(Platform::Linux, home) == ProbeView::FileExists(linux_ca_file()),
{
}

/// On Windows, installation, removal and check all use the user's `Root`
/// store, and removal and check name the CA by its common name.
pub proof fn law_windows_one_store(cert: Seq<char>)
    ensures
        install_windows_steps(cert)[0].command.args[2] == "Root"@,
        remove_windows_steps()[0].command.args[2] == "Root"@,
        remove_windows_steps()[0].command.args[3] == ca_name(),
        check_windows_command().args[2] == "Root"@,
        check_windows_command().args[3] == ca_name(),
{
}

/// A step by its program, arguments and failure meaning.
pub open spec fn run_step(program: Seq<char>, args: Seq<Seq<char>>, on_failure: OnFailureView) -> StepView {
    StepView { command: CommandView { program, args }, on_failure }
}

/// Without the certificate file nothing is installed, whatever the platform:
/// the installation fails with `CaCertificateMissing` and runs no command.
pub proof fn law_install_needs_the_certificate(
    platform: Platform,
    cert: Seq<char>,
    home: Option<Seq<char>>,
)
    ensures
        install_plan(platform, cert, false, home) == Err::<Seq<StepView>, ErrorView>(
            ErrorView::CaCertificateMissing,
        ),
{
}

/// With the certificate file, each platform installs it with these commands:
/// on macOS the old Rexy CA is deleted from the login keychain under the home
/// directory (a failure ignored) and the certificate is added as a trusted SSL
/// root; on Windows it is added to the user's `Root` store; on Linux it is
/// copied to the system CA directory (a failed copy stops with
/// `TrustStoreCopyFailed`) and the bundle is rebuilt. macOS without a home
/// directory and other systems fail.
pub proof fn law_install_commands(cert: Seq<char>, home: Seq<char>)
    ensures
        install_plan(Platform::MacOs, cert, true, Some(home)) == Ok::<Seq<StepView>, ErrorView>(
            seq![
                run_step(
                    "security"@,
                    seq![
                        "delete-certificate"@,
                        "-c"@,
                        "Rexy Local CA"@,
                        join_path(home, "Library/Keychains/login.keychain-db"@),
                    ],
                    OnFailureView::Ignore,
                ),
                run_step(
                    "security"@,
                    seq![
                        "add-trusted-cert"@,
                        "-r"@,
                        "trustRoot"@,
                        "-p"@,
                        "ssl"@,
                        "-k"@,
                        join_path(home, "Library/Keychains/login.keychain-db"@),
                        cert,
                    ],
                    OnFailureView::Report,
                ),
            ],
        ),
        install_plan(Platform::MacOs, cert, true, None) == Err::<Seq<StepView>, ErrorView>(
            ErrorView::HomeNotSet,
        ),
        install_plan(Platform::Windows, cert, true, Some(home)) == Ok::<Seq<StepView>, ErrorView>(
            seq![
                run_step(
                    "certutil"@,
                    seq!["-user"@, "-addstore"@, "Root"@, cert],
                    OnFailureView::Report,
                ),
            ],
        ),
        install_plan(Platform::Linux, cert, true, Some(home)) == Ok::<Seq<StepView>, ErrorView>(
            seq![
                run_step(
                    "pkexec"@,
                    seq!["cp"@, cert, "/usr/local/share/ca-certificates/local-dev-proxy.crt"@],
                    OnFailureView::Fail(ErrorView::TrustStoreCopyFailed),
                ),
                run_step("pkexec"@, seq!["update-ca-certificates"@], OnFailureView::Report),
            ],
        ),
        install_plan(Platform::Other, cert, true, Some(home)) == Err::<Seq<StepView>, ErrorView>(
            ErrorView::InstallUnsupported,
        ),
{
}

/// Removal deletes the CA where installation put it: from the login keychain
/// on macOS (a failure stops with `KeychainRemoveFailed`), from the user's
/// `Root` store by its name on Windows, and on Linux the copied file, followed
/// by a rebuild of the bundle. macOS without a home directory and other
/// systems fail.
pub proof fn law_remove_commands(home: Seq<char>)
    ensures
        remove_plan(Platform::MacOs, Some(home)) == Ok::<Seq<StepView>, ErrorView>(
            seq![
                run_step(
                    "security"@,
                    seq![
                        "delete-certificate"@,
                        "-c"@,
                        "Rexy Local CA"@,
                        join_path(home, "Library/Keychains/login.keychain-db"@),
                    ],
                    OnFailureView::Fail(ErrorView::KeychainRemoveFailed),
                ),
            ],
        ),
        remove_plan(Platform::MacOs, None) == Err::<Seq<StepView>, ErrorView>(ErrorView::HomeNotSet),
        remove_plan(Platform::Windows, Some(home)) == Ok::<Seq<StepView>, ErrorView>(
            seq![
                run_step(
                    "certutil"@,
                    seq!["-user"@, "-delstore"@, "Root"@, "Rexy Local CA"@],
                    OnFailureView::Report,
                ),
            ],
        ),
        remove_plan(Platform::Linux, Some(home)) == Ok::<Seq<StepView>, ErrorView>(
            seq![
                run_step(
                    "pkexec"@,
                    seq!["rm"@, "-f"@, "/usr/local/share/ca-certificates/local-dev-proxy.crt"@],
                    OnFailureView::Report,
                ),
                run_step("pkexec"@, seq!["update-ca-certificates"@], OnFailureView::Report),
            ],
        ),
        remove_plan(Platform::Other, Some(home)) == Err::<Seq<StepView>, ErrorView>(
            ErrorView::RemoveUnsupported,
        ),
{
}

/// The CA counts as installed on macOS when `security` finds it by name in the
/// login keychain, on Windows when the user's `Root` store verifies it, and on
/// Linux when the copied file exists; without a home directory on macOS, and
/// on other systems, it never does.
pub proof fn law_installed_checks(home: Seq<char>)
    ensures
        installed_probe(Platform::MacOs, Some(home)) == ProbeView::CommandSucceeds(
            CommandView {
                program: "security"@,
                args: seq![
                    "find-certificate"@,
                    "-a"@,
                    "-c"@,
                    "Rexy Local CA"@,
                    join_path(home, "Library/Keychains/login.keychain-db"@),
                ],
            },
        ),
        installed_probe(Platform::MacOs, None) == ProbeView::Never,
        installed_probe(Platform::Windows, Some(home)) == ProbeView::CommandSucceeds(
            CommandView {
                program: "certutil"@,
                args: seq!["-user"@, "-verifystore"@, "Root"@, "Rexy Local CA"@],
            },
        ),
        installed_probe(Platform::Linux, Some(home)) == ProbeView::FileExists(
            "/usr/local/share/ca-certificates/local-dev-proxy.crt"@,
        ),
        installed_probe(Platform::Other, Some(home)) == ProbeView::Never,
{
}

} // verus!
