use stevedore::Artifact;
use stevedore::BootstrapError;
use stevedore::ClientCertificatePlan;
use stevedore::CredentialStore;
use stevedore::build;
use stevedore::complete_issuance;
use stevedore::ensure_root;
use stevedore::plan_client_certificate;

fn now_unix() -> i64 {
    std::time::SystemTime::now()
        .duration_since(std::time::UNIX_EPOCH)
        .unwrap()
        .as_secs() as i64
}

fn make_cert(not_after_unix: i64) -> (Vec<u8>, Vec<u8>) {
    let rsa = openssl::rsa::Rsa::generate(2048).unwrap();
    let key = openssl::pkey::PKey::from_rsa(rsa).unwrap();
    let mut builder = openssl::x509::X509Builder::new().unwrap();
    builder.set_version(2).unwrap();
    builder.set_pubkey(&key).unwrap();
    let not_before = openssl::asn1::Asn1Time::from_unix(0).unwrap();
    builder.set_not_before(&not_before).unwrap();
    let not_after = openssl::asn1::Asn1Time::from_unix(not_after_unix).unwrap();
    builder.set_not_after(&not_after).unwrap();
    builder
        .sign(&key, openssl::hash::MessageDigest::sha256())
        .unwrap();
    let cert = builder.build();
    (
        cert.to_pem().unwrap(),
        key.private_key_to_pem_pkcs8().unwrap(),
    )
}

#[test]
fn first_run_bootstraps_everything() {
    let now = now_unix();
    let mut store = CredentialStore::empty();

    // The authority hands out a root on the first fetch.
    let (authority_root, _) = make_cert(now + 5 * 365 * 86400);
    let root = ensure_root(&mut store, Ok(Some(authority_root.clone()))).unwrap();
    assert_eq!(root, authority_root);

    // No pair is cached, so a signing request is prepared and submitted.
    let request = match plan_client_certificate(&store, now).unwrap() {
        ClientCertificatePlan::Issue { request } => request,
        ClientCertificatePlan::UseCached { .. } => panic!("nothing cached on a first run"),
    };
    let (signed_cert, _) = make_cert(now + 365 * 86400);
    let issued_key = request.private_key.clone();
    let (cert, key) = complete_issuance(&mut store, request, Ok(signed_cert.clone())).unwrap();

    // All three artifacts are now persisted.
    assert_eq!(store.load(Artifact::RootCertificate), Some(authority_root));
    assert_eq!(store.load(Artifact::ClientCertificate), Some(signed_cert));
    assert_eq!(store.load(Artifact::PrivateKey), Some(issued_key));

    // And the material assembles into a usable channel configuration.
    let config = build(root, cert, key, "127.0.0.1".to_string()).unwrap();
    assert_eq!(config.target_name, "127.0.0.1");
}

#[test]
fn fully_cached_material_needs_nothing_from_the_network() {
    let now = now_unix();
    let (root, _) = make_cert(now + 5 * 365 * 86400);
    let (cert, key) = make_cert(now + 10 * 365 * 86400);
    let store = CredentialStore::new(Some(root.clone()), Some(cert.clone()), Some(key.clone()));

    // The whole pass is answered from cache: with a root present and a
    // ten-year certificate the bundle comes back unchanged and no authority
    // call is planned at all, not even a root fetch.
    let (got_root, got_cert, got_key) =
        stevedore::cached_bundle(&store, now).expect("a warm cache must settle the pass");
    assert_eq!(got_root, root);
    assert_eq!(got_cert, cert);
    assert_eq!(got_key, key);

    let config = build(got_root, got_cert, got_key, "127.0.0.1".to_string()).unwrap();
    assert_eq!(config.root_certificate, root);
    assert_eq!(config.certificate, cert);
    assert_eq!(config.private_key, key);

    // Nothing was rewritten.
    assert_eq!(store.load(Artifact::RootCertificate), Some(root));
    assert_eq!(store.load(Artifact::ClientCertificate), Some(cert));
    assert_eq!(store.load(Artifact::PrivateKey), Some(key));
}

#[test]
fn cold_or_stale_caches_do_not_settle_the_pass() {
    let now = now_unix();
    // Nothing cached at all.
    assert!(stevedore::cached_bundle(&CredentialStore::empty(), now).is_none());
    // A pair but no root.
    let (cert, key) = make_cert(now + 86400);
    let store = CredentialStore::new(None, Some(cert.clone()), Some(key.clone()));
    assert!(stevedore::cached_bundle(&store, now).is_none());
    // A root but an expired pair.
    let (root, _) = make_cert(now + 86400);
    let (old_cert, old_key) = make_cert(now - 1);
    let store = CredentialStore::new(Some(root), Some(old_cert), Some(old_key));
    assert!(stevedore::cached_bundle(&store, now).is_none());
}

#[test]
fn one_second_expired_pair_is_replaced_and_root_untouched() {
    let now = now_unix();
    let (root, _) = make_cert(now + 5 * 365 * 86400);
    let (old_cert, old_key) = make_cert(now - 1);
    let mut store = CredentialStore::new(Some(root.clone()), Some(old_cert), Some(old_key));

    // The authority reports no root update: ca_cert.pem stays as it is.
    let got_root = ensure_root(&mut store, Ok(None)).unwrap();
    assert_eq!(got_root, root);

    let request = match plan_client_certificate(&store, now).unwrap() {
        ClientCertificatePlan::Issue { request } => request,
        ClientCertificatePlan::UseCached { .. } => panic!("an expired pair must not be reused"),
    };
    let (signed_cert, _) = make_cert(now + 365 * 86400);
    let issued_key = request.private_key.clone();
    complete_issuance(&mut store, request, Ok(signed_cert.clone())).unwrap();

    assert_eq!(store.load(Artifact::RootCertificate), Some(root));
    assert_eq!(store.load(Artifact::ClientCertificate), Some(signed_cert));
    assert_eq!(store.load(Artifact::PrivateKey), Some(issued_key));
}

#[test]
fn corrupt_root_is_still_served_while_corrupt_certificate_is_reissued() {
    let now = now_unix();
    let corrupt = b"-----NOT PEM-----".to_vec();
    let mut store = CredentialStore::new(Some(corrupt.clone()), Some(corrupt.clone()), None);

    // Root validity is never parsed: the corrupted-but-present bytes are
    // returned even when the authority is unreachable.
    let got_root = ensure_root(
        &mut store,
        Err(BootstrapError::Transport("unreachable".to_string())),
    )
    .unwrap();
    assert_eq!(got_root, corrupt);

    // The client certificate is parsed for expiry, so the same corruption
    // there triggers reissuance instead.
    assert!(matches!(
        plan_client_certificate(&store, now).unwrap(),
        ClientCertificatePlan::Issue { .. }
    ));
}
