//! In-memory model of the credential store: the three named PEM artifacts
//! that the subsystem persists between runs.
//!
//! The store itself is pure state. The embedding program fills it from disk
//! before a bootstrap pass (a missing file becomes `None`; a file that exists
//! but cannot be read is surfaced as a `Filesystem` error there, never
//! silently treated as absent) and writes changed artifacts back afterwards.

use vstd::prelude::*;

verus! {

/// The three artifacts the subsystem persists. Their file names are part of
/// the storage contract, not an incidental choice; see [`artifact_file_name`].
#[derive(Clone, Copy, PartialEq, Eq, Structural)]
pub enum Artifact {
    RootCertificate,
    ClientCertificate,
    PrivateKey,
}

/// Mathematical model of the store: what each artifact currently holds.
pub ghost struct StoreModel {
    pub root: Option<Seq<u8>>,
    pub certificate: Option<Seq<u8>>,
    pub private_key: Option<Seq<u8>>,
}

/// Reads and writes the three named artifacts, overwriting wholesale on every
/// save; no artifact is ever partially updated.
pub struct CredentialStore {
    root: Option<Vec<u8>>,
    certificate: Option<Vec<u8>>,
    private_key: Option<Vec<u8>>,
}

/// The artifact a model holds under a name, `None` when it is absent.
pub open spec fn spec_load(m: StoreModel, a: Artifact) -> Option<Seq<u8>> {
    match a {
        Artifact::RootCertificate => m.root,
        Artifact::ClientCertificate => m.certificate,
        Artifact::PrivateKey => m.private_key,
    }
}

/// The model after a named artifact is overwritten; the other two artifacts
/// are untouched.
pub open spec fn spec_save(m: StoreModel, a: Artifact, bytes: Seq<u8>) -> StoreModel {
    match a {
        Artifact::RootCertificate => StoreModel { root: Some(bytes), ..m },
        Artifact::ClientCertificate => StoreModel { certificate: Some(bytes), ..m },
        Artifact::PrivateKey => StoreModel { private_key: Some(bytes), ..m },
    }
}

/// The view of an optional byte buffer.
pub open spec fn opt_bytes_view(o: Option<Vec<u8>>) -> Option<Seq<u8>> {
    match o {
        Some(b) => Some(b@),
        None => None,
    }
}

impl View for CredentialStore {
    type V = StoreModel;

    closed spec fn view(&self) -> StoreModel {
        StoreModel {
            root: opt_bytes_view(self.root),
            certificate: opt_bytes_view(self.certificate),
            private_key: opt_bytes_view(self.private_key),
        }
    }
}

impl CredentialStore {
    /// A store holding exactly the artifacts the caller loaded from storage.
    pub fn new(
        root: Option<Vec<u8>>,
        certificate: Option<Vec<u8>>,
        private_key: Option<Vec<u8>>,
    ) -> (s: CredentialStore)
        ensures
            s@.root == opt_bytes_view(root),
            s@.certificate == opt_bytes_view(certificate),
            s@.private_key == opt_bytes_view(private_key),
    {
        CredentialStore { root, certificate, private_key }
    }

    /// A store with no artifacts at all, as on a first run.
    pub fn empty() -> (s: CredentialStore)
        ensures
            s@.root is None,
            s@.certificate is None,
            s@.private_key is None,
    {
        CredentialStore { root: None, certificate: None, private_key: None }
    }

    /// Reads a named artifact; `None` means the artifact is absent, which is
    /// tolerated and triggers fetch or issuance, never an error.
    pub fn load(&self, a: Artifact) -> (r: Option<Vec<u8>>)
        ensures
            opt_bytes_view(r) == spec_load(self@, a),
    {
        let stored = match a {
            Artifact::RootCertificate => &self.root,
            Artifact::ClientCertificate => &self.certificate,
            Artifact::PrivateKey => &self.private_key,
        };
        match stored {
            Some(bytes) => Some(bytes.clone()),
            None => None,
        }
    }

    /// Overwrites a named artifact wholesale; the other artifacts keep their
    /// value.
    pub fn save(&mut self, a: Artifact, bytes: Vec<u8>)
        ensures
            final(self)@ == spec_save(old(self)@, a, bytes@),
    {
        match a {
            Artifact::RootCertificate => self.root = Some(bytes),
            Artifact::ClientCertificate => self.certificate = Some(bytes),
            Artifact::PrivateKey => self.private_key = Some(bytes),
        }
    }
}

/// The on-disk file name of each artifact; these names are part of the
/// storage contract shared with the authority deployment.
pub fn artifact_file_name(a: Artifact) -> (r: String)
    ensures
        a is RootCertificate ==> r@ == "ca_cert.pem"@,
        a is ClientCertificate ==> r@ == "cert.pem"@,
        a is PrivateKey ==> r@ == "key.pem"@,
{
    match a {
        Artifact::RootCertificate => "ca_cert.pem".to_owned(),
        Artifact::ClientCertificate => "cert.pem".to_owned(),
        Artifact::PrivateKey => "key.pem".to_owned(),
    }
}

/// An artifact written under a name is read back under that name unchanged:
/// the store round-trips every byte sequence it is given.
pub proof fn lemma_save_load_round_trip(m: StoreModel, a: Artifact, bytes: Seq<u8>)
    ensures
        spec_load(spec_save(m, a, bytes), a) == Some(bytes),
{
}

/// Saving one artifact never disturbs another: loading a different name
/// after a save yields what it held before.
pub proof fn lemma_save_preserves_others(m: StoreModel, a: Artifact, b: Artifact, bytes: Seq<u8>)
    requires
        a != b,
    ensures
        spec_load(spec_save(m, a, bytes), b) == spec_load(m, b),
{
}

} // verus!
