//! Webhook authenticity verification and trusted-action triggering.
//!
//! An inbound automation request claims, through three headers and a
//! body, the authority to trigger a deployment action. The library
//! proves the request fresh and genuinely signed by the holder of a
//! specific private key, and only then hands the verified artifact
//! reference to the caller for dispatch. Every verification decision —
//! header extraction, the fingerprint gate, the freshness window, the
//! canonical signing string, the uniform rejection response and the
//! audit record — is specified and verified here; the HTTP transport,
//! the clock and the deployment process stay outside.

mod bytes_util;
mod canonical;
mod crypto;
mod keys;
mod outcome;
mod request;
mod static_files;
mod timestamp;

pub use bytes_util::{
    bytes_eq, concat_bytes, ct_eq, header_text, hex_encode, is_text_byte, spec_header_text,
    spec_hex,
};
pub use canonical::{canonical_message, lemma_canonical_url_injective, spec_canonical};
pub use crypto::{spec_b64_decode, spec_key_der, spec_sha256, spec_sig_verifies};
pub use keys::{KeyLoadError, PublicKeyMaterial};
pub use outcome::{
    build_audit_record, dispatch_payload, lemma_rejections_uniform, outcome_label,
    response_status, spec_outcome_label, spec_response, view_dispatch, AuditRecord,
    DeploymentResult, HeaderField, Reason, ResponseStatus, VerificationOutcome,
};
pub use request::{
    extract_headers, lemma_accepted_fingerprint_matches, lemma_genuine_request_accepted,
    lemma_stale_timestamp_rejected, process_request, spec_extract, spec_verdict, view_header,
    IncomingClaim,
};
pub use static_files::{
    content_type_for, extension_of, files, rfind_byte, spec_content_type, spec_extension,
    spec_files, spec_lookup, spec_rfind, StaticDir, StaticFile,
};
pub use timestamp::{
    all_digits, dec_value, is_digit, parse_i64, spec_fresh, spec_parse_i64, timestamp_fresh,
    validate_timestamp, TimestampError, FRESHNESS_WINDOW_SECS,
};
