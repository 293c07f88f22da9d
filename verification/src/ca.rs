//! Where the local certificate authority lives.
use hudsucker::certificate_authority::RcgenAuthority;
use rcgen::{Issuer, KeyPair};
use hudsucker::rustls::crypto::{aws_lc_rs, CryptoProvider};
use vstd::prelude::*;

use crate::error::{Error, ErrorView};
use crate::platform::{path_separator, separator, Platform};
use crate::text::{join_path_with, join_path_with_str, owned};

verus! {

/// The directory of the CA files.
pub fn ca_dir() -> (r: String)
    ensures
        r@ == "ca"@,
{
    owned("ca")
}

/// The CA certificate, on `platform` (whose separator the path uses).
pub fn cert_path(platform: Platform) -> (r: String)
    ensures
        r@ == join_path_with("ca"@, "rexy.cer"@, separator(platform)),
{
    let dir = ca_dir();
    join_path_with_str(dir.as_str(), "rexy.cer", path_separator(platform))
}

/// The CA private key, on `platform` (whose separator the path uses).
pub fn key_path(platform: Platform) -> (r: String)
    ensures
        r@ == join_path_with("ca"@, "rexy.key"@, separator(platform)),
{
    let dir = ca_dir();
    join_path_with_str(dir.as_str(), "rexy.key", path_separator(platform))
}

/// Succeeds when both CA files exist.
pub fn ensure_exists(cert_exists: bool, key_exists: bool) -> (r: Result<(), Error>)
    ensures
        r is Ok <==> cert_exists && key_exists,
        r matches Err(e) ==> e == Error::CaFilesMissing,
{
    if !cert_exists || !key_exists {
        return Err(Error::CaFilesMissing);
    }
    Ok(())
}

#[verifier::external_type_specification]
#[verifier::external_body]
pub struct ExKeyPair(KeyPair);

#[verifier::external_type_specification]
#[verifier::external_body]
#[verifier::reject_recursive_types(S)]
pub struct ExIssuer<'a, S>(Issuer<'a, S>);

#[verifier::external_type_specification]
#[verifier::external_body]
pub struct ExRcgenAuthority(RcgenAuthority);

#[verifier::external_type_specification]
#[verifier::external_body]
pub struct ExCryptoProvider(CryptoProvider);

/// The `Display` text of the error of `KeyPair::from_pem` on this text where
/// the text itself holds no usable key, or `None` where it does.
pub uninterp spec fn key_pem_error(pem: Seq<char>) -> Option<Seq<char>>;

/// The `Display` text of the error of `Issuer::from_ca_cert_pem` on this
/// certificate text, or `None` where it succeeds. The signing key is only
/// stored by the call, so the outcome depends on the text alone.
pub uninterp spec fn ca_cert_pem_error(pem: Seq<char>) -> Option<Seq<char>>;

/// `rcgen::KeyPair::from_pem`, its error turned into its `Display` text. A
/// text without a usable key always fails, with the error that `key_pem_error`
/// names. A text with one may still fail: with the `ring` backend, loading an
/// ECDSA key draws from the system's random number generator, and a failure
/// there is reported as an unparsable key. So success implies a usable key,
/// and nothing is stated of the error in that case.
#[verifier::external_body]
fn key_pair_from_pem(pem: &str) -> (r: Result<KeyPair, String>)
    ensures
        match r {
            Ok(_) => key_pem_error(pem@) is None,
            Err(e) => key_pem_error(pem@) is Some ==> key_pem_error(pem@) == Some(e@),
        },
{
    match KeyPair::from_pem(pem) {
        Ok(key) => Ok(key),
        Err(err) => Err(err.to_string()),
    }
}

/// `rcgen::Issuer::from_ca_cert_pem`, its error turned into its `Display` text.
#[verifier::external_body]
fn issuer_from_ca_cert_pem(pem: &str, key: KeyPair) -> (r: Result<Issuer<'static, KeyPair>, String>)
    ensures
        match r {
            Ok(_) => ca_cert_pem_error(pem@) is None,
            Err(m) => ca_cert_pem_error(pem@) == Some(m@),
        },
{
    match Issuer::from_ca_cert_pem(pem, key) {
        Ok(issuer) => Ok(issuer),
        Err(err) => Err(err.to_string()),
    }
}

/// `rustls::crypto::aws_lc_rs::default_provider`. The provider is an opaque
/// value here: nothing is stated of it.
#[verifier::external_body]
fn default_crypto_provider() -> CryptoProvider {
    aws_lc_rs::default_provider()
}

/// `hudsucker::certificate_authority::RcgenAuthority::new`: an authority that
/// signs with `issuer`, caches up to `cache_size` certificates and uses
/// `provider`. Issuer, provider and authority are opaque values here, so no
/// clause states that relation.
#[verifier::external_body]
fn rcgen_authority(issuer: Issuer<'static, KeyPair>, cache_size: u64, provider: CryptoProvider) -> RcgenAuthority {
    RcgenAuthority::new(issuer, cache_size, provider)
}

/// How loading the CA from its key and certificate texts ends: the key's
/// error, else the certificate's error, else success.
pub open spec fn ca_load_failure(key_pem: Seq<char>, cert_pem: Seq<char>) -> Option<ErrorView> {
    match key_pem_error(key_pem) {
        Some(m) => Some(ErrorView::CaKeyInvalid(m)),
        None => match ca_cert_pem_error(cert_pem) {
            Some(m) => Some(ErrorView::CaCertificateInvalid(m)),
            None => None,
        },
    }
}

/// The certificate authority that signs the intercepted hosts' certificates,
/// made from the CA's private key and certificate (PEM texts). It caches
/// 1000 generated certificates.
///
/// Where both texts are usable, loading may still fail while the key is read
/// (see `key_pair_from_pem`); the error is then `CaKeyInvalid`. Once the key
/// is read, the outcome is that of `authority_from_key`.
pub fn load_ca(key_pem: &str, cert_pem: &str) -> (r: Result<RcgenAuthority, Error>)
    ensures
        r is Ok ==> ca_load_failure(key_pem@, cert_pem@) is None,
        ca_load_failure(key_pem@, cert_pem@) is Some ==> r is Err,
        match r {
            Ok(_) => true,
            Err(e) => (key_pem_error(key_pem@) is Some ==> Some(e@) == ca_load_failure(
                key_pem@,
                cert_pem@,
            )) && (Some(e@) == ca_load_failure(key_pem@, cert_pem@) || (key_pem_error(
                key_pem@,
            ) is None && e is CaKeyInvalid)),
        },
{
    match key_pair_from_pem(key_pem) {
        Ok(key) => authority_from_key(key, cert_pem),
        Err(m) => Err(Error::CaKeyInvalid(m)),
    }
}

/// The certificate authority made from a key that was read and the CA's
/// certificate (PEM text): it succeeds exactly when the certificate text is
/// usable, and otherwise reports the certificate's error. It caches 1000
/// generated certificates.
pub fn authority_from_key(key: KeyPair, cert_pem: &str) -> (r: Result<RcgenAuthority, Error>)
    ensures
        r is Ok <==> ca_cert_pem_error(cert_pem@) is None,
        r matches Err(e) ==> e@ == ErrorView::CaCertificateInvalid(ca_cert_pem_error(cert_pem@)->0),
{
    let issuer = match issuer_from_ca_cert_pem(cert_pem, key) {
        Ok(issuer) => issuer,
        Err(m) => {
            return Err(Error::CaCertificateInvalid(m));
        },
    };
    Ok(rcgen_authority(issuer, 1000, default_crypto_provider()))
}

} // verus!
