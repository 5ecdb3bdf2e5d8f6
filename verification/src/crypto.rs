//! The cryptographic surface of the library: every call into openssl and
//! uuid stands here behind a trusted item, and everything around those calls
//! is verified.
//!
//! openssl's PEM readers have two hazards that the trusted contracts must
//! respect. Their in-memory BIO asserts that the buffer is shorter than
//! 2^31 bytes, so every wrapper that hands bytes to a reader requires that
//! bound. And a PEM block carrying encryption headers (`Proc-Type:` /
//! `DEK-Info:`) diverts a reader that was given no passphrase callback to a
//! terminal prompt, so the certificate wrappers require such input away and
//! the verified [`pem_safe_for_parsing`] test stands in front of them; the
//! private-key reads use the empty-passphrase variant instead, whose result
//! is deterministic for every input.

use vstd::prelude::*;

use openssl::hash::MessageDigest;
use openssl::nid::Nid;
use openssl::pkey::PKey;
use openssl::x509::X509;
use openssl::x509::X509NameBuilder;
use openssl::x509::X509ReqBuilder;

verus! {

#[verifier::external_type_specification]
#[verifier::external_body]
pub struct ExErrorStack(openssl::error::ErrorStack);

/// The longest byte buffer openssl's in-memory BIO accepts without
/// panicking: its length must stay below 2^31.
pub const PEM_SIZE_LIMIT: usize = 0x8000_0000;

/// Whether `needle` occurs as a contiguous run inside `hay`.
pub open spec fn contains_bytes(hay: Seq<u8>, needle: Seq<u8>) -> bool {
    exists|i: int|
        0 <= i && i + needle.len() <= hay.len() && #[trigger] hay.subrange(i, i + needle.len())
            == needle
}

/// The bytes of the `Proc-Type:` PEM header name.
pub open spec fn proc_type_marker() -> Seq<u8> {
    seq![80u8, 114u8, 111u8, 99u8, 45u8, 84u8, 121u8, 112u8, 101u8, 58u8]
}

/// The bytes of the `DEK-Info:` PEM header name.
pub open spec fn dek_info_marker() -> Seq<u8> {
    seq![68u8, 69u8, 75u8, 45u8, 73u8, 110u8, 102u8, 111u8, 58u8]
}

/// Whether the bytes carry a PEM encryption header. A reader given no
/// passphrase callback would prompt the terminal on such input.
pub open spec fn pem_encryption_headed(pem: Seq<u8>) -> bool {
    contains_bytes(pem, proc_type_marker()) || contains_bytes(pem, dek_info_marker())
}

/// What openssl's certificate readers can safely be handed: short enough
/// for their buffer and free of encryption headers. The scan covers the
/// whole buffer, deliberately: preamble text that merely mentions a header
/// name also disqualifies the artifact, which is conservative — such bytes
/// read as an unreadable certificate and trigger reissuance, never a prompt.
pub open spec fn pem_safe_for_parsing(pem: Seq<u8>) -> bool {
    pem.len() < PEM_SIZE_LIMIT && !pem_encryption_headed(pem)
}

/// The `Proc-Type:` header name as bytes.
fn proc_type_marker_bytes() -> (r: Vec<u8>)
    ensures
        r@ == proc_type_marker(),
{
    let mut v: Vec<u8> = Vec::new();
    v.push(80u8);
    v.push(114u8);
    v.push(111u8);
    v.push(99u8);
    v.push(45u8);
    v.push(84u8);
    v.push(121u8);
    v.push(112u8);
    v.push(101u8);
    v.push(58u8);
    proof {
        assert(v@ =~= proc_type_marker());
    }
    v
}

/// The `DEK-Info:` header name as bytes.
fn dek_info_marker_bytes() -> (r: Vec<u8>)
    ensures
        r@ == dek_info_marker(),
{
    let mut v: Vec<u8> = Vec::new();
    v.push(68u8);
    v.push(69u8);
    v.push(75u8);
    v.push(45u8);
    v.push(73u8);
    v.push(110u8);
    v.push(102u8);
    v.push(111u8);
    v.push(58u8);
    proof {
        assert(v@ =~= dek_info_marker());
    }
    v
}

/// Whether `needle` occurs anywhere in `hay`.
fn find_bytes(hay: &Vec<u8>, needle: &Vec<u8>) -> (r: bool)
    requires
        needle@.len() >= 1,
    ensures
        r == contains_bytes(hay@, needle@),
{
    if hay.len() < needle.len() {
        return false;
    }
    let mut i: usize = 0;
    let last = hay.len() - needle.len();
    while i <= last
        invariant
            needle@.len() >= 1,
            hay@.len() <= usize::MAX,
            last == hay@.len() - needle@.len(),
            i <= last + 1,
            forall|k: int|
                0 <= k < i ==> #[trigger] hay@.subrange(k, k + needle@.len()) != needle@,
        decreases last - i + 1,
    {
        let mut j: usize = 0;
        let mut matched = true;
        while j < needle.len()
            invariant
                needle@.len() >= 1,
                hay@.len() <= usize::MAX,
                i + needle@.len() <= hay@.len(),
                j <= needle@.len(),
                matched ==> forall|t: int| 0 <= t < j ==> hay@[i + t] == needle@[t],
                !matched ==> hay@.subrange(i as int, i + needle@.len()) != needle@,
            decreases needle@.len() - j,
        {
            if hay[i + j] != needle[j] {
                proof {
                    let sub = hay@.subrange(i as int, i + needle@.len());
                    assert(sub[j as int] == hay@[i + j]);
                }
                matched = false;
                j = needle.len();
            } else {
                j += 1;
            }
        }
        if matched {
            proof {
                assert(hay@.subrange(i as int, i + needle@.len()) =~= needle@);
            }
            return true;
        }
        i += 1;
    }
    proof {
        assert forall|k: int| 0 <= k && k + needle@.len() <= hay@.len() implies #[trigger] hay@
            .subrange(k, k + needle@.len()) != needle@ by {
            assert(k < i);
        }
    }
    false
}

/// Runs the checks that make a byte buffer safe to hand to openssl's
/// certificate readers: the size bound and the absence of encryption
/// headers.
pub(crate) fn check_pem_safe(pem: &Vec<u8>) -> (r: bool)
    ensures
        r == pem_safe_for_parsing(pem@),
{
    if pem.len() >= PEM_SIZE_LIMIT {
        return false;
    }
    let proc_type = proc_type_marker_bytes();
    let dek_info = dek_info_marker_bytes();
    !find_bytes(pem, &proc_type) && !find_bytes(pem, &dek_info)
}

/// The days/seconds split that openssl reports between the Unix epoch and a
/// certificate's not-after time, or `None` when the PEM does not parse or
/// the time cannot be read. A function of the certificate bytes alone, on
/// the inputs the wrapper admits.
pub uninterp spec fn not_after_parts(pem: Seq<u8>) -> Option<(i32, i32)>;

/// Whether a byte sequence is a PEM-encoded X.509 certificate that openssl
/// accepts. A function of the bytes alone, on the inputs the wrapper admits.
pub uninterp spec fn is_x509_pem(pem: Seq<u8>) -> bool;

/// Whether a byte sequence is a PEM-encoded private key that openssl
/// accepts when offered an empty passphrase. A function of the bytes alone.
pub uninterp spec fn is_private_key_pem(pem: Seq<u8>) -> bool;

/// The PEM-encoded certificate signing request that openssl builds from a
/// private key and the given distinguished-name entries. RSA signing with
/// SHA-256 is deterministic, so the bytes are a function of the arguments
/// alone.
pub uninterp spec fn csr_of(
    key_pem: Seq<u8>,
    country: Seq<char>,
    state: Seq<char>,
    locality: Seq<char>,
    organization: Seq<char>,
    common_name: Seq<char>,
    account: Seq<char>,
) -> Seq<u8>;

/// The distinguished-name entries embedded in a signing request.
pub struct DistinguishedName {
    pub country: String,
    pub state: String,
    pub locality: String,
    pub organization: String,
    pub common_name: String,
    pub account: String,
}

/// Relies on openssl `X509::from_pem`, `X509Ref::not_after` and
/// `Asn1TimeRef::diff` (from `Asn1Time::from_unix(0)`): the days/seconds
/// distance from the epoch to the certificate's expiry, which depends on the
/// certificate bytes alone. The reader's buffer bound and its passphrase
/// prompt on encryption-headed input are what the precondition excludes.
#[verifier::external_body]
pub(crate) fn not_after_components(pem: &Vec<u8>) -> (r: Option<(i32, i32)>)
    requires
        pem_safe_for_parsing(pem@),
    ensures
        r == not_after_parts(pem@),
{
    let cert = match X509::from_pem(pem) {
        Ok(c) => c,
        Err(_) => return None,
    };
    let epoch = match openssl::asn1::Asn1Time::from_unix(0) {
        Ok(t) => t,
        Err(_) => return None,
    };
    match epoch.diff(cert.not_after()) {
        Ok(d) => Some((d.days, d.secs)),
        Err(_) => None,
    }
}

/// Relies on openssl `X509::from_pem`: acceptance depends on the bytes
/// alone on the admitted inputs (the precondition excludes the reader's
/// buffer bound and its passphrase prompt on encryption-headed input).
#[verifier::external_body]
pub(crate) fn x509_parses(pem: &Vec<u8>) -> (r: bool)
    requires
        pem_safe_for_parsing(pem@),
    ensures
        r == is_x509_pem(pem@),
{
    X509::from_pem(pem).is_ok()
}

/// Relies on openssl `PKey::private_key_from_pem_passphrase` with an empty
/// passphrase: no prompt can occur and acceptance depends on the bytes
/// alone; only the reader's buffer bound is excluded.
#[verifier::external_body]
pub(crate) fn private_key_parses(pem: &Vec<u8>) -> (r: bool)
    requires
        pem@.len() < PEM_SIZE_LIMIT,
    ensures
        r == is_private_key_pem(pem@),
{
    PKey::private_key_from_pem_passphrase(pem, b"").is_ok()
}

/// Relies on openssl `Rsa::generate(4096)`, `PKey::from_rsa` and
/// `PKey::private_key_to_pem_pkcs8`. The key is fresh random material, so
/// nothing is promised of which bytes come back; but the output is openssl's
/// own unencrypted PKCS#8 PEM, which its reader accepts again.
#[verifier::external_body]
pub(crate) fn generate_key_pem() -> (r: Result<Vec<u8>, openssl::error::ErrorStack>)
    ensures
        r matches Ok(key) ==> is_private_key_pem(key@),
{
    let rsa = openssl::rsa::Rsa::generate(4096)?;
    let key = PKey::from_rsa(rsa)?;
    key.private_key_to_pem_pkcs8()
}

/// Relies on openssl `PKey::private_key_from_pem_passphrase` (empty
/// passphrase, so no prompt), `X509NameBuilder`, `X509ReqBuilder`
/// (`set_subject_name`, `set_version`, `set_pubkey`, `sign` with SHA-256)
/// and `X509Req::to_pem`: a request whose bytes depend on the key and name
/// entries alone, since RSA PKCS#1 signing with SHA-256 is deterministic.
/// The preconditions exclude the buffer bounds the BIO and the name builder
/// assert on; the name builder's bound is on the UTF-8 byte length of an
/// entry, and a character encodes to at most four bytes, so each name
/// entry's character count must stay under a quarter of the limit.
#[verifier::external_body]
pub(crate) fn build_signing_request(
    key_pem: &Vec<u8>,
    dn: &DistinguishedName,
) -> (r: Result<Vec<u8>, openssl::error::ErrorStack>)
    requires
        key_pem@.len() < PEM_SIZE_LIMIT,
        4 * dn.country@.len() < PEM_SIZE_LIMIT,
        4 * dn.state@.len() < PEM_SIZE_LIMIT,
        4 * dn.locality@.len() < PEM_SIZE_LIMIT,
        4 * dn.organization@.len() < PEM_SIZE_LIMIT,
        4 * dn.common_name@.len() < PEM_SIZE_LIMIT,
        4 * dn.account@.len() < PEM_SIZE_LIMIT,
    ensures
        r matches Ok(csr) ==> csr@ == csr_of(
            key_pem@,
            dn.country@,
            dn.state@,
            dn.locality@,
            dn.organization@,
            dn.common_name@,
            dn.account@,
        ),
{
    let key = PKey::private_key_from_pem_passphrase(key_pem, b"")?;
    let mut names = X509NameBuilder::new()?;
    names.append_entry_by_nid(Nid::COUNTRYNAME, &dn.country)?;
    names.append_entry_by_nid(Nid::STATEORPROVINCENAME, &dn.state)?;
    names.append_entry_by_nid(Nid::LOCALITYNAME, &dn.locality)?;
    names.append_entry_by_nid(Nid::ORG, &dn.organization)?;
    names.append_entry_by_nid(Nid::COMMONNAME, &dn.common_name)?;
    names.append_entry_by_nid(Nid::ACCOUNT, &dn.account)?;
    let mut builder = X509ReqBuilder::new()?;
    builder.set_subject_name(&names.build())?;
    builder.set_version(2)?;
    builder.set_pubkey(&key)?;
    builder.sign(&key, MessageDigest::sha256())?;
    builder.build().to_pem()
}

/// Relies on the `Display` rendering of openssl `ErrorStack`: a textual
/// description of the failure, kept as the error's cause.
#[verifier::external_body]
pub(crate) fn error_stack_text(e: &openssl::error::ErrorStack) -> (r: String) {
    format!("{}", e)
}

/// Relies on `uuid::Uuid::new_v4` and its `Display` rendering: a freshly
/// generated random identifier in the 36-character hyphenated form, which
/// `uuid::Uuid::parse_str` accepts back.
#[verifier::external_body]
pub(crate) fn new_uuid_string() -> (r: String)
    ensures
        r@.len() == 36,
        is_uuid(r@),
{
    uuid::Uuid::new_v4().to_string()
}

/// Relies on `uuid::Uuid::parse_str`: a pure parser whose acceptance
/// depends on the characters alone.
#[verifier::external_body]
pub(crate) fn uuid_parses(s: &String) -> (r: bool)
    ensures
        r == is_uuid(s@),
{
    uuid::Uuid::parse_str(s).is_ok()
}

/// Whether a string is a textual UUID that `uuid::Uuid::parse_str` accepts.
/// A function of the characters alone.
pub uninterp spec fn is_uuid(s: Seq<char>) -> bool;

} // verus!
