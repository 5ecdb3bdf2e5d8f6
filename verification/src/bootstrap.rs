//! The credential bootstrapper: decides, for each bootstrap pass, which root
//! certificate to trust, whether the cached client pair is still valid, and
//! what a fresh issuance submits and persists.
//!
//! The two authority calls are the only suspension points of a pass; the
//! embedding program performs them and hands their outcome back as a plain
//! `Result`, so every decision below is verified for every outcome.

use vstd::prelude::*;

use crate::crypto;
use crate::crypto::DistinguishedName;
use crate::crypto::PEM_SIZE_LIMIT;
use crate::crypto::csr_of;
use crate::crypto::is_private_key_pem;
use crate::crypto::is_uuid;
use crate::crypto::not_after_parts;
use crate::crypto::pem_safe_for_parsing;
use crate::errors::BootstrapError;
use crate::store::Artifact;
use crate::store::CredentialStore;
use crate::store::StoreModel;
use crate::store::spec_save;

verus! {

/// Seconds in a day, for turning openssl's days/seconds split into seconds.
pub const SECONDS_PER_DAY: i64 = 86400;

/// A certificate's not-after time as seconds since the Unix epoch, or `None`
/// when the stored bytes cannot be parsed for it.
pub open spec fn cert_not_after(pem: Seq<u8>) -> Option<int> {
    match not_after_parts(pem) {
        Some(parts) => Some(parts.0 * (SECONDS_PER_DAY as int) + parts.1),
        None => None,
    }
}

/// An exact copy of a byte buffer.
fn clone_bytes(v: &Vec<u8>) -> (r: Vec<u8>)
    ensures
        r@ == v@,
{
    let r = v.clone();
    proof {
        assert(r@ =~= v@);
    }
    r
}

/// The not-after time of a PEM certificate, in seconds since the Unix epoch;
/// `None` when the bytes do not parse as a certificate or the time cannot be
/// read. Bytes that openssl's reader cannot safely be handed at all — too
/// long for its buffer, or carrying PEM encryption headers — are rejected
/// here without touching the parser and also yield `None`.
pub fn certificate_not_after(pem: &Vec<u8>) -> (r: Option<i64>)
    ensures
        pem_safe_for_parsing(pem@) ==> match r {
            Some(t) => cert_not_after(pem@) == Some(t as int),
            None => cert_not_after(pem@) is None,
        },
        !pem_safe_for_parsing(pem@) ==> r is None,
{
    if !crypto::check_pem_safe(pem) {
        return None;
    }
    match crypto::not_after_components(pem) {
        Some(parts) => Some((parts.0 as i64) * SECONDS_PER_DAY + (parts.1 as i64)),
        None => None,
    }
}

/// The cached root certificate to send along with a root fetch; absent is
/// tolerated and becomes `None` on the wire.
pub fn root_fetch_request(store: &CredentialStore) -> (r: Option<Vec<u8>>)
    ensures
        crate::store::opt_bytes_view(r) == store@.root,
{
    store.load(Artifact::RootCertificate)
}

/// The cached root when one exists; the fatal no-trust-anchor error when the
/// store holds none.
fn cached_root_or_fatal(store: &CredentialStore) -> (r: Result<Vec<u8>, BootstrapError>)
    ensures
        match store@.root {
            Some(cached) => r matches Ok(root) && root@ == cached,
            None => r matches Err(e) && e is NoTrustAnchor,
        },
{
    match store.load(Artifact::RootCertificate) {
        Some(cached) => Ok(cached),
        None => Err(BootstrapError::NoTrustAnchor),
    }
}

/// Settles the trust root from the cached artifact and the authority's reply
/// to a root fetch.
///
/// - A fresh root from the authority is persisted and returned.
/// - No update from the authority returns the cached root unchanged; with no
///   cache this is fatal, since the authority offered no root either.
/// - A failed authority call falls back to the cached root; with no cache it
///   is fatal. The store is never changed on fallback, so a stale root is
///   never silently installed.
pub fn ensure_root(
    store: &mut CredentialStore,
    fetched: Result<Option<Vec<u8>>, BootstrapError>,
) -> (r: Result<Vec<u8>, BootstrapError>)
    ensures
        match fetched {
            Ok(Some(fresh)) => {
                &&& final(store)@ == spec_save(old(store)@, Artifact::RootCertificate, fresh@)
                &&& r matches Ok(root) && root@ == fresh@
            },
            Ok(None) => final(store)@ == old(store)@ && match old(store)@.root {
                Some(cached) => r matches Ok(root) && root@ == cached,
                None => r matches Err(e) && e is NoTrustAnchor,
            },
            Err(_) => final(store)@ == old(store)@ && match old(store)@.root {
                Some(cached) => r matches Ok(root) && root@ == cached,
                None => r matches Err(e) && e is NoTrustAnchor,
            },
        },
{
    match fetched {
        Ok(Some(fresh)) => {
            let root = clone_bytes(&fresh);
            store.save(Artifact::RootCertificate, fresh);
            Ok(root)
        }
        Ok(None) => cached_root_or_fatal(store),
        Err(_) => cached_root_or_fatal(store),
    }
}

/// A signing request ready for submission: the CSR bytes, the locally
/// generated private key that signed them, and the account identifier named
/// in them. The key never leaves the process; only the CSR is transmitted.
pub struct IssuanceRequest {
    pub csr: Vec<u8>,
    pub private_key: Vec<u8>,
    pub account: String,
}

impl IssuanceRequest {
    /// The CSR was built from exactly this private key, the fixed
    /// organizational name, and this account identifier — so a certificate
    /// issued for it pairs with this key and no other. The account is a
    /// textual UUID of the hyphenated 36-character form, and the key is the
    /// parseable PEM the generator handed back, within the parser's size
    /// bound.
    pub open spec fn wf(&self) -> bool {
        &&& self.csr@ == csr_of(
            self.private_key@,
            "US"@,
            "California"@,
            "Los Angeles"@,
            "Stevedore"@,
            "Stevedore"@,
            self.account@,
        )
        &&& self.account@.len() == 36
        &&& is_uuid(self.account@)
        &&& is_private_key_pem(self.private_key@)
        &&& self.private_key@.len() < PEM_SIZE_LIMIT
    }
}

/// The fixed organizational distinguished name, bound to a per-request
/// account identifier.
fn organizational_name(account: String) -> (dn: DistinguishedName)
    ensures
        dn.country@ == "US"@,
        dn.state@ == "California"@,
        dn.locality@ == "Los Angeles"@,
        dn.organization@ == "Stevedore"@,
        dn.common_name@ == "Stevedore"@,
        dn.account == account,
{
    DistinguishedName {
        country: "US".to_owned(),
        state: "California".to_owned(),
        locality: "Los Angeles".to_owned(),
        organization: "Stevedore".to_owned(),
        common_name: "Stevedore".to_owned(),
        account,
    }
}

/// Builds a signing request from a freshly generated key pair and a newly
/// generated account identifier. Purely local: nothing is transmitted and
/// nothing is persisted yet.
pub fn prepare_issuance() -> (r: Result<IssuanceRequest, BootstrapError>)
    ensures
        r matches Ok(request) ==> request.wf(),
        r matches Err(e) ==> e is Crypto,
{
    let private_key = match crypto::generate_key_pem() {
        Ok(key) => key,
        Err(failure) => return Err(BootstrapError::Crypto(crypto::error_stack_text(&failure))),
    };
    if private_key.len() >= PEM_SIZE_LIMIT {
        return Err(
            BootstrapError::Crypto("generated key exceeds the PEM size bound".to_owned()),
        );
    }
    let account = crypto::new_uuid_string();
    let dn = organizational_name(account.clone());
    proof {
        reveal_strlit("US");
        reveal_strlit("California");
        reveal_strlit("Los Angeles");
        reveal_strlit("Stevedore");
        assert(dn.country@.len() == 2);
        assert(dn.state@.len() == 10);
        assert(dn.locality@.len() == 11);
        assert(dn.organization@.len() == 9);
        assert(dn.common_name@.len() == 9);
    }
    match crypto::build_signing_request(&private_key, &dn) {
        Ok(csr) => Ok(IssuanceRequest { csr, private_key, account }),
        Err(failure) => Err(BootstrapError::Crypto(crypto::error_stack_text(&failure))),
    }
}

/// What a bootstrap pass does about the client certificate: keep the cached
/// pair, or submit the enclosed signing request to the authority.
pub enum ClientCertificatePlan {
    UseCached { certificate: Vec<u8>, private_key: Vec<u8> },
    Issue { request: IssuanceRequest },
}

/// Whether the stored pair is valid at `now`: both artifacts present, the
/// certificate safe to hand to the parser with its not-after time readable,
/// and `now` strictly before that time. Boundary equality counts as invalid,
/// so a certificate expiring exactly now is renewed rather than re-expiring
/// under clock skew.
pub open spec fn cached_pair_valid(m: StoreModel, now: int) -> bool {
    &&& m.certificate is Some
    &&& m.private_key is Some
    &&& pem_safe_for_parsing(m.certificate.unwrap())
    &&& cert_not_after(m.certificate.unwrap()) is Some
    &&& now < cert_not_after(m.certificate.unwrap()).unwrap()
}

/// Prepares an issuance and wraps it as a plan.
fn plan_issuance() -> (r: Result<ClientCertificatePlan, BootstrapError>)
    ensures
        r matches Ok(p) ==> p matches ClientCertificatePlan::Issue { request } && request.wf(),
        r matches Err(e) ==> e is Crypto,
{
    match prepare_issuance() {
        Ok(request) => Ok(ClientCertificatePlan::Issue { request }),
        Err(e) => Err(e),
    }
}

/// Decides the client-certificate step of a bootstrap pass at time `now`
/// (seconds since the Unix epoch).
///
/// A cached pair that is present and unexpired is returned unchanged and no
/// network call is planned. A missing, expired, boundary-expired or
/// unparsable certificate all lead to one and the same reissuance plan; a
/// parse failure is never surfaced as an error, since a fresh pair resolves
/// it. Only local key generation can fail here.
pub fn plan_client_certificate(store: &CredentialStore, now: i64) -> (r: Result<
    ClientCertificatePlan,
    BootstrapError,
>)
    ensures
        cached_pair_valid(store@, now as int) ==> (r matches Ok(p) && (p matches
        ClientCertificatePlan::UseCached { certificate, private_key } && Some(certificate@)
            == store@.certificate && Some(private_key@) == store@.private_key)),
        !cached_pair_valid(store@, now as int) ==> match r {
            Ok(p) => p matches ClientCertificatePlan::Issue { request } && request.wf(),
            Err(e) => e is Crypto,
        },
{
    let cached_certificate = store.load(Artifact::ClientCertificate);
    let cached_key = store.load(Artifact::PrivateKey);
    match (cached_certificate, cached_key) {
        (Some(certificate), Some(private_key)) => {
            match certificate_not_after(&certificate) {
                Some(not_after) => {
                    if now < not_after {
                        Ok(ClientCertificatePlan::UseCached { certificate, private_key })
                    } else {
                        plan_issuance()
                    }
                }
                None => plan_issuance(),
            }
        }
        _ => plan_issuance(),
    }
}

/// The whole bootstrap pass answered from cache alone: exactly when a root
/// is present and the stored client pair is valid at `now`, the credential
/// bundle (root, certificate, private key) is returned unchanged and the
/// pass is over with zero network calls — the embedding program then asks
/// the authority for nothing, not even a root update.
pub fn cached_bundle(store: &CredentialStore, now: i64) -> (r: Option<(Vec<u8>, Vec<u8>, Vec<u8>)>)
    ensures
        r is Some <==> store@.root is Some && cached_pair_valid(store@, now as int),
        r matches Some(bundle) ==> Some(bundle.0@) == store@.root && Some(bundle.1@)
            == store@.certificate && Some(bundle.2@) == store@.private_key,
{
    let root = match store.load(Artifact::RootCertificate) {
        Some(bytes) => bytes,
        None => return None,
    };
    let certificate = match store.load(Artifact::ClientCertificate) {
        Some(bytes) => bytes,
        None => return None,
    };
    let private_key = match store.load(Artifact::PrivateKey) {
        Some(bytes) => bytes,
        None => return None,
    };
    match certificate_not_after(&certificate) {
        Some(not_after) => {
            if now < not_after {
                Some((root, certificate, private_key))
            } else {
                None
            }
        }
        None => None,
    }
}

/// Settles an issuance from the authority's reply to the submitted CSR.
///
/// A signed certificate is persisted together with — and before — the private
/// key that produced the request, and the pair is returned. On any failure
/// nothing is persisted and the failure is handed back unchanged: a key is
/// never written without its confirmed certificate.
pub fn complete_issuance(
    store: &mut CredentialStore,
    request: IssuanceRequest,
    reply: Result<Vec<u8>, BootstrapError>,
) -> (r: Result<(Vec<u8>, Vec<u8>), BootstrapError>)
    ensures
        reply matches Ok(certificate) ==> {
            &&& final(store)@ == spec_save(
                spec_save(old(store)@, Artifact::ClientCertificate, certificate@),
                Artifact::PrivateKey,
                request.private_key@,
            )
            &&& r matches Ok(pair) && pair.0@ == certificate@ && pair.1@ == request.private_key@
        },
        reply matches Err(e) ==> final(store)@ == old(store)@ && r == Err::<
            (Vec<u8>, Vec<u8>),
            BootstrapError,
        >(e),
{
    match reply {
        Ok(certificate) => {
            let certificate_out = clone_bytes(&certificate);
            let key_out = clone_bytes(&request.private_key);
            store.save(Artifact::ClientCertificate, certificate);
            store.save(Artifact::PrivateKey, request.private_key);
            Ok((certificate_out, key_out))
        }
        Err(e) => Err(e),
    }
}

/// A stored pair whose certificate is missing, expired at `now` — boundary
/// equality included — or unreadable is never treated as valid.
pub proof fn lemma_stale_pair_never_valid(m: StoreModel, now: int)
    requires
        m.certificate matches Some(cert) ==> match cert_not_after(cert) {
            Some(t) => t <= now,
            None => true,
        },
    ensures
        !cached_pair_valid(m, now),
{
}

/// Persisting a freshly issued pair overwrites both the certificate and the
/// key and leaves the root exactly as it was.
pub proof fn lemma_issuance_overwrites_pair(m: StoreModel, certificate: Seq<u8>, key: Seq<u8>)
    ensures
        ({
            let settled = spec_save(
                spec_save(m, Artifact::ClientCertificate, certificate),
                Artifact::PrivateKey,
                key,
            );
            settled.certificate == Some(certificate) && settled.private_key == Some(key)
                && settled.root == m.root
        }),
{
}

} // verus!
