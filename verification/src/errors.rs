//! Unified error taxonomy for the bootstrap subsystem.

use vstd::prelude::*;

verus! {

/// One tagged error set for every bootstrap-phase failure, each variant
/// carrying a textual cause where one exists.
///
/// - `Transport`: the certificate authority could not be reached.
/// - `Authority`: the authority answered with an application-level error.
/// - `Filesystem`: a stored artifact exists but could not be read or written.
/// - `Crypto`: local key generation or signing-request construction failed.
/// - `Configuration`: channel assembly was handed malformed PEM material.
/// - `NoTrustAnchor`: no root certificate could be established at all; the
///   bootstrap is fatal and the caller decides how to exit.
#[derive(Debug)]
pub enum BootstrapError {
    Transport(String),
    Authority(String),
    Filesystem(String),
    Crypto(String),
    Configuration(String),
    NoTrustAnchor,
}

impl BootstrapError {
    /// True exactly for the error that means no trust anchor exists: the one
    /// bootstrap failure that can never be resolved by fallback or reissuance.
    pub fn is_fatal_trust_failure(&self) -> (r: bool)
        ensures
            r == (self is NoTrustAnchor),
    {
        match self {
            BootstrapError::NoTrustAnchor => true,
            _ => false,
        }
    }
}

} // verus!
