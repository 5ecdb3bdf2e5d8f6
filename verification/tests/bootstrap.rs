use stevedore::Artifact;
use stevedore::BootstrapError;
use stevedore::ClientCertificatePlan;
use stevedore::CredentialStore;
use stevedore::certificate_not_after;
use stevedore::complete_issuance;
use stevedore::ensure_root;
use stevedore::plan_client_certificate;
use stevedore::root_fetch_request;

fn now_unix() -> i64 {
    std::time::SystemTime::now()
        .duration_since(std::time::UNIX_EPOCH)
        .unwrap()
        .as_secs() as i64
}

/// A self-signed certificate (PEM) expiring at `not_after_unix`, with its key.
fn make_cert(not_after_unix: i64) -> (Vec<u8>, Vec<u8>) {
    let rsa = openssl::rsa::Rsa::generate(2048).unwrap();
    let key = openssl::pkey::PKey::from_rsa(rsa).unwrap();
    let mut builder = openssl::x509::X509Builder::new().unwrap();
    builder.set_version(2).unwrap();
    builder.set_pubkey(&key).unwrap();
    let not_before = openssl::asn1::Asn1Time::from_unix(0).unwrap();
    builder.set_not_before(&not_before).unwrap();
    let not_after = openssl::asn1::Asn1Time::from_unix(not_after_unix).unwrap();
    builder.set_not_after(&not_after).unwrap();
    builder
        .sign(&key, openssl::hash::MessageDigest::sha256())
        .unwrap();
    let cert = builder.build();
    (
        cert.to_pem().unwrap(),
        key.private_key_to_pem_pkcs8().unwrap(),
    )
}

#[test]
fn root_kept_unchanged_when_authority_reports_no_update() {
    let cached = b"cached root bytes".to_vec();
    let mut store = CredentialStore::new(Some(cached.clone()), None, None);
    let r = ensure_root(&mut store, Ok(None)).unwrap();
    assert_eq!(r, cached);
    assert_eq!(store.load(Artifact::RootCertificate), Some(cached));
}

#[test]
fn root_fetch_fatal_without_cache() {
    let mut store = CredentialStore::empty();
    let r = ensure_root(&mut store, Err(BootstrapError::Transport("down".to_string())));
    assert!(matches!(r, Err(BootstrapError::NoTrustAnchor)));
    let r2 = ensure_root(&mut store, Ok(None));
    assert!(matches!(r2, Err(BootstrapError::NoTrustAnchor)));
}

#[test]
fn root_fetch_falls_back_to_cache_on_failure() {
    let cached = b"old but present".to_vec();
    let mut store = CredentialStore::new(Some(cached.clone()), None, None);
    let r = ensure_root(&mut store, Err(BootstrapError::Transport("down".to_string()))).unwrap();
    assert_eq!(r, cached);
    assert_eq!(store.load(Artifact::RootCertificate), Some(cached));
}

#[test]
fn root_update_is_persisted() {
    let mut store = CredentialStore::new(Some(b"old".to_vec()), None, None);
    let fresh = b"fresh root".to_vec();
    let r = ensure_root(&mut store, Ok(Some(fresh.clone()))).unwrap();
    assert_eq!(r, fresh);
    assert_eq!(store.load(Artifact::RootCertificate), Some(fresh));
}

#[test]
fn root_fetch_request_sends_the_cached_root() {
    let store = CredentialStore::new(Some(b"anchor".to_vec()), None, None);
    assert_eq!(root_fetch_request(&store), Some(b"anchor".to_vec()));
    assert_eq!(root_fetch_request(&CredentialStore::empty()), None);
}

#[test]
fn valid_pair_is_reused_without_issuance() {
    let now = now_unix();
    let (cert, key) = make_cert(now + 10 * 365 * 86400);
    let store = CredentialStore::new(None, Some(cert.clone()), Some(key.clone()));
    match plan_client_certificate(&store, now).unwrap() {
        ClientCertificatePlan::UseCached {
            certificate,
            private_key,
        } => {
            assert_eq!(certificate, cert);
            assert_eq!(private_key, key);
        }
        ClientCertificatePlan::Issue { .. } => panic!("a valid pair must be reused"),
    }
}

#[test]
fn boundary_expiry_forces_reissuance() {
    let now = now_unix();
    let (cert, key) = make_cert(now);
    let store = CredentialStore::new(None, Some(cert), Some(key));
    assert!(matches!(
        plan_client_certificate(&store, now).unwrap(),
        ClientCertificatePlan::Issue { .. }
    ));
}

#[test]
fn expired_pair_is_reissued_and_both_files_overwritten() {
    let now = now_unix();
    let (old_cert, old_key) = make_cert(now - 1);
    let mut store = CredentialStore::new(
        Some(b"root".to_vec()),
        Some(old_cert.clone()),
        Some(old_key.clone()),
    );
    let request = match plan_client_certificate(&store, now).unwrap() {
        ClientCertificatePlan::Issue { request } => request,
        ClientCertificatePlan::UseCached { .. } => panic!("an expired pair must not be reused"),
    };
    let (new_cert, _) = make_cert(now + 86400);
    let issued_key = request.private_key.clone();
    let (cert_out, key_out) = complete_issuance(&mut store, request, Ok(new_cert.clone())).unwrap();
    assert_eq!(cert_out, new_cert);
    assert_eq!(key_out, issued_key);
    assert_eq!(store.load(Artifact::ClientCertificate), Some(new_cert));
    assert_eq!(store.load(Artifact::PrivateKey), Some(issued_key));
    assert_ne!(store.load(Artifact::ClientCertificate), Some(old_cert));
    assert_eq!(store.load(Artifact::RootCertificate), Some(b"root".to_vec()));
}

#[test]
fn missing_key_forces_reissuance_even_with_valid_certificate() {
    let now = now_unix();
    let (cert, _) = make_cert(now + 86400);
    let store = CredentialStore::new(None, Some(cert), None);
    assert!(matches!(
        plan_client_certificate(&store, now).unwrap(),
        ClientCertificatePlan::Issue { .. }
    ));
}

#[test]
fn malformed_certificate_is_treated_as_expired() {
    let store = CredentialStore::new(
        None,
        Some(b"not a certificate".to_vec()),
        Some(b"not a key".to_vec()),
    );
    assert!(matches!(
        plan_client_certificate(&store, now_unix()).unwrap(),
        ClientCertificatePlan::Issue { .. }
    ));
}

#[test]
fn failed_issuance_persists_nothing() {
    let now = now_unix();
    let mut store = CredentialStore::empty();
    let request = match plan_client_certificate(&store, now).unwrap() {
        ClientCertificatePlan::Issue { request } => request,
        ClientCertificatePlan::UseCached { .. } => panic!("nothing cached to reuse"),
    };
    let r = complete_issuance(
        &mut store,
        request,
        Err(BootstrapError::Authority("rejected".to_string())),
    );
    assert!(matches!(r, Err(BootstrapError::Authority(_))));
    assert_eq!(store.load(Artifact::ClientCertificate), None);
    assert_eq!(store.load(Artifact::PrivateKey), None);
}

#[test]
fn issuance_request_carries_a_fresh_account_identifier() {
    let store = CredentialStore::empty();
    let request = match plan_client_certificate(&store, now_unix()).unwrap() {
        ClientCertificatePlan::Issue { request } => request,
        ClientCertificatePlan::UseCached { .. } => panic!("nothing cached to reuse"),
    };
    assert_eq!(request.account.len(), 36);
    assert!(uuid::Uuid::parse_str(&request.account).is_ok());

    // The CSR parses, names the account, and is signed by exactly the
    // private key carried beside it.
    let csr = openssl::x509::X509Req::from_pem(&request.csr).unwrap();
    let named_account = csr
        .subject_name()
        .entries()
        .any(|e| e.data().as_utf8().map(|s| s.to_string()).ok() == Some(request.account.clone()));
    assert!(named_account);
    let key = openssl::pkey::PKey::private_key_from_pem(&request.private_key).unwrap();
    assert!(csr.verify(&key).unwrap());
}

#[test]
fn encryption_headed_certificate_is_treated_as_unreadable() {
    // A PEM block carrying encryption headers is never handed to the
    // parser (a passphrase prompt could follow); it reads as having no
    // expiry and so forces reissuance.
    let headed = b"-----BEGIN CERTIFICATE-----\nProc-Type: 4,ENCRYPTED\nDEK-Info: AES-256-CBC\n-----END CERTIFICATE-----\n"
        .to_vec();
    assert_eq!(certificate_not_after(&headed), None);
    let store = CredentialStore::new(None, Some(headed), Some(b"key".to_vec()));
    assert!(matches!(
        plan_client_certificate(&store, now_unix()).unwrap(),
        ClientCertificatePlan::Issue { .. }
    ));
}

#[test]
fn not_after_is_read_back_exactly() {
    let t: i64 = 2_000_000_123;
    let (cert, _) = make_cert(t);
    assert_eq!(certificate_not_after(&cert), Some(t));
    assert_eq!(certificate_not_after(&b"garbage".to_vec()), None);
}
