//! The secure-channel factory: assembles the trust root, the client identity
//! and the expected server name into a ready-to-use channel configuration.

use vstd::prelude::*;

use crate::crypto;
use crate::crypto::PEM_SIZE_LIMIT;
use crate::crypto::is_private_key_pem;
use crate::crypto::is_x509_pem;
use crate::crypto::pem_safe_for_parsing;
use crate::errors::BootstrapError;

verus! {

/// Everything a transport needs to open a mutually authenticated connection:
/// a trust store built from the root certificate, a client identity built
/// from the certificate/key pair, and the server name to verify. Pure data;
/// the embedding program turns it into an actual TLS-configured channel.
pub struct SecureChannelConfig {
    pub root_certificate: Vec<u8>,
    pub certificate: Vec<u8>,
    pub private_key: Vec<u8>,
    pub target_name: String,
}

/// Assembles a channel configuration from the bootstrap results.
///
/// Malformed PEM material is surfaced here as a configuration error,
/// distinct from the network and authority errors of the bootstrap itself.
/// The configuration is produced exactly when both certificates can safely
/// be handed to the parser and parse, and the key is within the parser's
/// size bound and parses (against an empty passphrase, so an encrypted key
/// is rejected rather than prompting for one).
pub fn build(
    root_certificate: Vec<u8>,
    certificate: Vec<u8>,
    private_key: Vec<u8>,
    target_name: String,
) -> (r: Result<SecureChannelConfig, BootstrapError>)
    ensures
        r is Ok <==> pem_safe_for_parsing(root_certificate@) && is_x509_pem(root_certificate@)
            && pem_safe_for_parsing(certificate@) && is_x509_pem(certificate@)
            && private_key@.len() < PEM_SIZE_LIMIT && is_private_key_pem(private_key@),
        r matches Ok(config) ==> config.root_certificate@ == root_certificate@
            && config.certificate@ == certificate@ && config.private_key@ == private_key@
            && config.target_name@ == target_name@,
        r matches Err(e) ==> e is Configuration,
{
    let root_usable = crypto::check_pem_safe(&root_certificate) && crypto::x509_parses(
        &root_certificate,
    );
    if !root_usable {
        return Err(BootstrapError::Configuration("root certificate is not usable PEM".to_owned()));
    }
    let certificate_usable = crypto::check_pem_safe(&certificate) && crypto::x509_parses(
        &certificate,
    );
    if !certificate_usable {
        return Err(
            BootstrapError::Configuration("client certificate is not usable PEM".to_owned()),
        );
    }
    let key_usable = private_key.len() < PEM_SIZE_LIMIT && crypto::private_key_parses(
        &private_key,
    );
    if !key_usable {
        return Err(BootstrapError::Configuration("private key is not usable PEM".to_owned()));
    }
    Ok(SecureChannelConfig { root_certificate, certificate, private_key, target_name })
}

} // verus!
