//! The errors of rexy and the messages they are reported with.
use vstd::prelude::*;

use crate::text::owned;

verus! {

/// Everything that can go wrong in rexy's own logic.
#[derive(Debug, Clone, PartialEq)]
pub enum Error {
    HostEmpty,
    HostHasScheme,
    HostHasPath,
    PathNotAbsolute,
    /// The target is not a URI; the parser's own explanation.
    TargetUnparsable(String),
    TargetNotHttp,
    TargetWithoutHost,
    CspEmpty,
    /// The (trimmed) CSP override holds bytes no header value may hold.
    CspInvalidHeader(String),
    FileWithRuleFlags,
    HostOrTargetMissing,
    ChromeNotFound,
    ChromiumNotFound,
    /// The browser executable given as a path does not exist.
    BrowserMissing(String),
    CaFilesMissing,
    /// The CA private key does not parse; the parser's explanation.
    CaKeyInvalid(String),
    /// The CA certificate does not parse; the parser's explanation.
    CaCertificateInvalid(String),
    CaCertificateMissing,
    HomeNotSet,
    InstallUnsupported,
    RemoveUnsupported,
    TrustStoreCopyFailed,
    KeychainRemoveFailed,
    /// A command could not be run; the system's explanation.
    CommandNotRun(String),
    /// A command exited unsuccessfully: the program and its exit status.
    CommandExited(String, String),
}

/// An `Error` with its text payloads as character sequences.
pub ghost enum ErrorView {
    HostEmpty,
    HostHasScheme,
    HostHasPath,
    PathNotAbsolute,
    TargetUnparsable(Seq<char>),
    TargetNotHttp,
    TargetWithoutHost,
    CspEmpty,
    CspInvalidHeader(Seq<char>),
    FileWithRuleFlags,
    HostOrTargetMissing,
    ChromeNotFound,
    ChromiumNotFound,
    BrowserMissing(Seq<char>),
    CaFilesMissing,
    CaKeyInvalid(Seq<char>),
    CaCertificateInvalid(Seq<char>),
    CaCertificateMissing,
    HomeNotSet,
    InstallUnsupported,
    RemoveUnsupported,
    TrustStoreCopyFailed,
    KeychainRemoveFailed,
    CommandNotRun(Seq<char>),
    CommandExited(Seq<char>, Seq<char>),
}

impl View for Error {
    type V = ErrorView;

    open spec fn view(&self) -> ErrorView {
        match self {
            Error::HostEmpty => ErrorView::HostEmpty,
            Error::HostHasScheme => ErrorView::HostHasScheme,
            Error::HostHasPath => ErrorView::HostHasPath,
            Error::PathNotAbsolute => ErrorView::PathNotAbsolute,
            Error::TargetUnparsable(m) => ErrorView::TargetUnparsable(m@),
            Error::TargetNotHttp => ErrorView::TargetNotHttp,
            Error::TargetWithoutHost => ErrorView::TargetWithoutHost,
            Error::CspEmpty => ErrorView::CspEmpty,
            Error::CspInvalidHeader(v) => ErrorView::CspInvalidHeader(v@),
            Error::FileWithRuleFlags => ErrorView::FileWithRuleFlags,
            Error::HostOrTargetMissing => ErrorView::HostOrTargetMissing,
            Error::ChromeNotFound => ErrorView::ChromeNotFound,
            Error::ChromiumNotFound => ErrorView::ChromiumNotFound,
            Error::BrowserMissing(p) => ErrorView::BrowserMissing(p@),
            Error::CaFilesMissing => ErrorView::CaFilesMissing,
            Error::CaKeyInvalid(m) => ErrorView::CaKeyInvalid(m@),
            Error::CaCertificateInvalid(m) => ErrorView::CaCertificateInvalid(m@),
            Error::CaCertificateMissing => ErrorView::CaCertificateMissing,
            Error::HomeNotSet => ErrorView::HomeNotSet,
            Error::InstallUnsupported => ErrorView::InstallUnsupported,
            Error::RemoveUnsupported => ErrorView::RemoveUnsupported,
            Error::TrustStoreCopyFailed => ErrorView::TrustStoreCopyFailed,
            Error::KeychainRemoveFailed => ErrorView::KeychainRemoveFailed,
            Error::CommandNotRun(m) => ErrorView::CommandNotRun(m@),
            Error::CommandExited(p, s) => ErrorView::CommandExited(p@, s@),
        }
    }
}

/// `s` as `{:?}` writes it: quoted, with quotes, backslashes and control
/// characters escaped.
pub uninterp spec fn debug_str(s: Seq<char>) -> Seq<char>;

/// `<str as Debug>::fmt`, through `format!("{:?}")`.
#[verifier::external_body]
fn debug_quoted(s: &str) -> (r: String)
    ensures
        r@ == debug_str(s@),
{
    format!("{:?}", s)
}

/// The message an error is reported with.
pub open spec fn error_message(e: ErrorView) -> Seq<char> {
    match e {
        ErrorView::HostEmpty => "host cannot be empty"@,
        ErrorView::HostHasScheme => "host must contain only hostname, e.g. superapp.example.com"@,
        ErrorView::HostHasPath => "host must not contain a path"@,
        ErrorView::PathNotAbsolute => "path must start with '/'"@,
        ErrorView::TargetUnparsable(m) => m,
        ErrorView::TargetNotHttp => "target must be an http:// or https:// URL"@,
        ErrorView::TargetWithoutHost => "target must contain a hostname"@,
        ErrorView::CspEmpty => "csp override cannot be empty: pass a policy or 'off'"@,
        ErrorView::CspInvalidHeader(v) => "csp override contains characters invalid for an HTTP header: "@
            + debug_str(v),
        ErrorView::FileWithRuleFlags =>
            "--file cannot be combined with --host, --path, --target or --csp-override; configure rules inside the file"@,
        ErrorView::HostOrTargetMissing => "either --file or --host/--target are required"@,
        ErrorView::ChromeNotFound => "Google Chrome was not found; pass --browser /path/to/chrome"@,
        ErrorView::ChromiumNotFound =>
            "Chromium was not found; pass --browser /path/to/chromium"@,
        ErrorView::BrowserMissing(p) => "browser executable does not exist: "@ + p,
        ErrorView::CaFilesMissing => "CA files are missing. Run ./generate_ca.sh first."@,
        ErrorView::CaKeyInvalid(m) => m,
        ErrorView::CaCertificateInvalid(m) => m,
        ErrorView::CaCertificateMissing =>
            "CA certificate does not exist. Run ./generate_ca.sh first."@,
        ErrorView::HomeNotSet => "HOME environment variable is not set"@,
        ErrorView::InstallUnsupported => "automatic CA installation is not supported on this OS"@,
        ErrorView::RemoveUnsupported => "automatic CA removal is not supported on this OS"@,
        ErrorView::TrustStoreCopyFailed => "failed to copy CA to system trust store"@,
        ErrorView::KeychainRemoveFailed => "failed to remove Rexy Local CA from login keychain"@,
        ErrorView::CommandNotRun(m) => m,
        ErrorView::CommandExited(p, s) => p + " exited with status "@ + s,
    }
}

/// Concatenation of two strings.
fn concat(a: &str, b: &str) -> (r: String)
    ensures
        r@ == a@ + b@,
{
    let mut s = owned(a);
    s.append(b);
    s
}

impl Error {
    /// The message this error is reported with.
    pub fn message(&self) -> (r: String)
        ensures
            r@ == error_message(self@),
    {
        match self {
            Error::HostEmpty => owned("host cannot be empty"),
            Error::HostHasScheme => owned(
                "host must contain only hostname, e.g. superapp.example.com",
            ),
            Error::HostHasPath => owned("host must not contain a path"),
            Error::PathNotAbsolute => owned("path must start with '/'"),
            Error::TargetUnparsable(m) => owned(m.as_str()),
            Error::TargetNotHttp => owned("target must be an http:// or https:// URL"),
            Error::TargetWithoutHost => owned("target must contain a hostname"),
            Error::CspEmpty => owned("csp override cannot be empty: pass a policy or 'off'"),
            Error::CspInvalidHeader(v) => {
                let quoted = debug_quoted(v.as_str());
                concat(
                    "csp override contains characters invalid for an HTTP header: ",
                    quoted.as_str(),
                )
            },
            Error::FileWithRuleFlags => owned(
                "--file cannot be combined with --host, --path, --target or --csp-override; configure rules inside the file",
            ),
            Error::HostOrTargetMissing => owned("either --file or --host/--target are required"),
            Error::ChromeNotFound => owned(
                "Google Chrome was not found; pass --browser /path/to/chrome",
            ),
            Error::ChromiumNotFound => owned(
                "Chromium was not found; pass --browser /path/to/chromium",
            ),
            Error::BrowserMissing(p) => concat("browser executable does not exist: ", p.as_str()),
            Error::CaFilesMissing => owned("CA files are missing. Run ./generate_ca.sh first."),
            Error::CaKeyInvalid(m) => owned(m.as_str()),
            Error::CaCertificateInvalid(m) => owned(m.as_str()),
            Error::CaCertificateMissing => owned(
                "CA certificate does not exist. Run ./generate_ca.sh first.",
            ),
            Error::HomeNotSet => owned("HOME environment variable is not set"),
            Error::InstallUnsupported => owned(
                "automatic CA installation is not supported on this OS",
            ),
            Error::RemoveUnsupported => owned("automatic CA removal is not supported on this OS"),
            Error::TrustStoreCopyFailed => owned("failed to copy CA to system trust store"),
            Error::KeychainRemoveFailed => owned(
                "failed to remove Rexy Local CA from login keychain",
            ),
            Error::CommandNotRun(m) => owned(m.as_str()),
            Error::CommandExited(p, status) => {
                let head = concat(p.as_str(), " exited with status ");
                concat(head.as_str(), status.as_str())
            },
        }
    }
}

} // verus!
