//! The operating systems rexy knows how to drive.
use vstd::prelude::*;

verus! {

/// The operating system rexy runs on.
#[derive(Clone, Copy, Debug, PartialEq, Eq)]
pub enum Platform {
    MacOs,
    Windows,
    Linux,
    /// Any other system: no browser is found and the trust store is not managed.
    Other,
}

/// The main path separator of a platform: a backslash on Windows, `/` elsewhere.
pub open spec fn separator(p: Platform) -> char {
    match p {
        Platform::Windows => '\\',
        _ => '/',
    }
}

/// The main path separator of `platform`.
pub fn path_separator(platform: Platform) -> (r: char)
    ensures
        r == separator(platform),
{
    match platform {
        Platform::Windows => '\\',
        _ => '/',
    }
}

} // verus!
