//! Client-side mutual-TLS credential bootstrap for the Stevedore job runner.
//!
//! The library obtains and caches a trust-root certificate, obtains or renews
//! a client identity certificate signed by a remote certificate authority,
//! and assembles the pieces into a secure channel configuration. Network and
//! file transfer are driven by the embedding program; every decision about
//! the credentials themselves is made here.

mod bootstrap;
mod channel;
mod cli;
mod crypto;
mod errors;
mod store;

pub use channel::SecureChannelConfig;
pub use channel::build;
pub use cli::Command;
pub use cli::ParseError;
pub use cli::QueryJobRequest;
pub use cli::StartJobRequest;
pub use cli::StopJobRequest;
pub use cli::StreamJobRequest;
pub use cli::first_positional_from;
pub use cli::has_flag_in;
pub use cli::is_graceful_flag;
pub use cli::parse_cmd;
pub use cli::string_views;
pub use cli::validate_job_id;

pub use bootstrap::ClientCertificatePlan;
pub use bootstrap::IssuanceRequest;
pub use bootstrap::SECONDS_PER_DAY;
pub use bootstrap::cached_bundle;
pub use bootstrap::cached_pair_valid;
pub use bootstrap::cert_not_after;
pub use bootstrap::certificate_not_after;
pub use bootstrap::complete_issuance;
pub use bootstrap::ensure_root;
pub use bootstrap::lemma_issuance_overwrites_pair;
pub use bootstrap::lemma_stale_pair_never_valid;
pub use bootstrap::plan_client_certificate;
pub use bootstrap::prepare_issuance;
pub use bootstrap::root_fetch_request;

pub use crypto::DistinguishedName;
pub use crypto::PEM_SIZE_LIMIT;
pub use crypto::contains_bytes;
pub use crypto::csr_of;
pub use crypto::dek_info_marker;
pub use crypto::pem_encryption_headed;
pub use crypto::pem_safe_for_parsing;
pub use crypto::proc_type_marker;
pub use crypto::is_private_key_pem;
pub use crypto::is_uuid;
pub use crypto::is_x509_pem;
pub use crypto::not_after_parts;
pub use errors::BootstrapError;
pub use store::Artifact;
pub use store::CredentialStore;
pub use store::StoreModel;
pub use store::artifact_file_name;
pub use store::lemma_save_load_round_trip;
pub use store::lemma_save_preserves_others;
pub use store::opt_bytes_view;
pub use store::spec_load;
pub use store::spec_save;
