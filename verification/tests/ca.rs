use rexy::ca::{authority_from_key, ca_dir, cert_path, ensure_exists, key_path, load_ca};
use rexy::error::Error;
use rexy::platform::Platform;

#[test]
fn ca_paths() {
    assert_eq!(ca_dir(), "ca");
    assert_eq!(cert_path(Platform::Linux), "ca/rexy.cer");
    assert_eq!(key_path(Platform::MacOs), "ca/rexy.key");
    assert_eq!(cert_path(Platform::Windows), "ca\\rexy.cer");
    assert_eq!(key_path(Platform::Windows), "ca\\rexy.key");
}

#[test]
fn both_files_must_exist() {
    assert_eq!(ensure_exists(true, true), Ok(()));
    assert_eq!(ensure_exists(false, true), Err(Error::CaFilesMissing));
    assert_eq!(ensure_exists(true, false), Err(Error::CaFilesMissing));
    assert_eq!(
        Error::CaFilesMissing.message(),
        "CA files are missing. Run ./generate_ca.sh first."
    );
}

#[test]
fn load_ca_from_generated_authority() {
    let key = rcgen::KeyPair::generate().unwrap();
    let mut params = rcgen::CertificateParams::new(Vec::<String>::new()).unwrap();
    params.is_ca = rcgen::IsCa::Ca(rcgen::BasicConstraints::Unconstrained);
    let cert = params.self_signed(&key).unwrap();
    assert!(load_ca(&key.serialize_pem(), &cert.pem()).is_ok());
}

#[test]
fn load_ca_reports_bad_key_then_bad_certificate() {
    let key = rcgen::KeyPair::generate().unwrap();
    match load_ca("not a key", "not a cert") {
        Err(Error::CaKeyInvalid(m)) => assert!(!m.is_empty()),
        Err(other) => panic!("unexpected {other:?}"),
        Ok(_) => panic!("a key was accepted"),
    }
    match load_ca(&key.serialize_pem(), "not a cert") {
        Err(Error::CaCertificateInvalid(m)) => assert!(!m.is_empty()),
        Err(other) => panic!("unexpected {other:?}"),
        Ok(_) => panic!("a certificate was accepted"),
    }
}

#[test]
fn authority_from_key_reports_only_the_certificate() {
    let key = rcgen::KeyPair::generate().unwrap();
    let mut params = rcgen::CertificateParams::new(Vec::<String>::new()).unwrap();
    params.is_ca = rcgen::IsCa::Ca(rcgen::BasicConstraints::Unconstrained);
    let cert = params.self_signed(&key).unwrap();
    let pem = key.serialize_pem();
    assert!(authority_from_key(key, &cert.pem()).is_ok());
    let key = rcgen::KeyPair::from_pem(&pem).unwrap();
    match authority_from_key(key, "not a cert") {
        Err(Error::CaCertificateInvalid(m)) => assert!(!m.is_empty()),
        Err(other) => panic!("unexpected {other:?}"),
        Ok(_) => panic!("a certificate was accepted"),
    }
}
