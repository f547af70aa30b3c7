//! The verification pipeline: header extraction, fingerprint gate, freshness gate
//! and signature verifier, run strictly in order with short-circuiting,
//! and the laws that hold of every verdict.

use crate::bytes_util::{ct_eq, header_text, spec_header_text};
use crate::canonical::{canonical_message, spec_canonical};
use crate::crypto::{base64_decode, spec_b64_decode, spec_sig_verifies};
use crate::keys::PublicKeyMaterial;
use crate::outcome::{HeaderField, Reason, VerificationOutcome};
use crate::timestamp::{spec_fresh, spec_parse_i64, validate_timestamp, TimestampError};
use vstd::prelude::*;

verus! {

/// The value of an optional header, as a sequence of bytes.
pub open spec fn view_header(h: Option<&[u8]>) -> Option<Seq<u8>> {
    match h {
        Some(s) => Some(s@),
        None => None,
    }
}

/// The textual claim extracted from one request: the three
/// authentication header values and the body's artifact reference.
/// Ephemeral: built per request and discarded when the request is done.
pub struct IncomingClaim {
    pub fingerprint: Vec<u8>,
    pub timestamp: Vec<u8>,
    pub signature: Vec<u8>,
    pub artifact_url: Vec<u8>,
}

/// What the header extractor yields: the three header values in order,
/// or the first failure, checking each field for presence and then for
/// textual content, fingerprint first, then timestamp, then signature.
pub open spec fn spec_extract(fp: Option<Seq<u8>>, ts: Option<Seq<u8>>, sig: Option<Seq<u8>>) -> Result<(Seq<u8>, Seq<u8>, Seq<u8>), Reason> {
    match fp {
        None => Err(Reason::MissingHeader(HeaderField::Fingerprint)),
        Some(f) => if !spec_header_text(f) {
            Err(Reason::InvalidEncoding(HeaderField::Fingerprint))
        } else {
            match ts {
                None => Err(Reason::MissingHeader(HeaderField::Timestamp)),
                Some(t) => if !spec_header_text(t) {
                    Err(Reason::InvalidEncoding(HeaderField::Timestamp))
                } else {
                    match sig {
                        None => Err(Reason::MissingHeader(HeaderField::Signature)),
                        Some(s) => if !spec_header_text(s) {
                            Err(Reason::InvalidEncoding(HeaderField::Signature))
                        } else {
                            Ok((f, t, s))
                        },
                    }
                },
            }
        },
    }
}

/// Header extractor: pulls the three required fields out of a request,
/// failing closed on an absent or non-textual value.
pub fn extract_headers(
    fp: Option<&[u8]>,
    ts: Option<&[u8]>,
    sig: Option<&[u8]>,
    artifact_url: &[u8],
) -> (r: Result<IncomingClaim, Reason>)
    ensures
        r is Ok <==> spec_extract(view_header(fp), view_header(ts), view_header(sig)) is Ok,
        r matches Ok(c) ==> Some(c.fingerprint@) == view_header(fp) && Some(c.timestamp@)
            == view_header(ts) && Some(c.signature@) == view_header(sig) && c.artifact_url@
            == artifact_url@,
        r matches Err(e) ==> spec_extract(view_header(fp), view_header(ts), view_header(sig))
            == Err::<(Seq<u8>, Seq<u8>, Seq<u8>), Reason>(e),
{
    let f = match fp {
        None => {
            return Err(Reason::MissingHeader(HeaderField::Fingerprint));
        },
        Some(v) => v,
    };
    if !header_text(f) {
        return Err(Reason::InvalidEncoding(HeaderField::Fingerprint));
    }
    let t = match ts {
        None => {
            return Err(Reason::MissingHeader(HeaderField::Timestamp));
        },
        Some(v) => v,
    };
    if !header_text(t) {
        return Err(Reason::InvalidEncoding(HeaderField::Timestamp));
    }
    let s = match sig {
        None => {
            return Err(Reason::MissingHeader(HeaderField::Signature));
        },
        Some(v) => v,
    };
    if !header_text(s) {
        return Err(Reason::InvalidEncoding(HeaderField::Signature));
    }
    Ok(IncomingClaim {
        fingerprint: vstd::slice::slice_to_vec(f),
        timestamp: vstd::slice::slice_to_vec(t),
        signature: vstd::slice::slice_to_vec(s),
        artifact_url: vstd::slice::slice_to_vec(artifact_url),
    })
}

/// The verdict of the whole gate sequence: `None` for acceptance, or the
/// reason of the first gate that failed, in the fixed order header
/// extraction, fingerprint, freshness, signature encoding, signature.
pub open spec fn spec_verdict(
    trusted_fp: Seq<u8>,
    pem: Seq<u8>,
    fp: Option<Seq<u8>>,
    ts: Option<Seq<u8>>,
    sig: Option<Seq<u8>>,
    url: Seq<u8>,
    now: int,
) -> Option<Reason> {
    match spec_extract(fp, ts, sig) {
        Err(e) => Some(e),
        Ok((f, t, s)) => if f != trusted_fp {
            Some(Reason::FingerprintMismatch)
        } else {
            match spec_parse_i64(t) {
                None => Some(Reason::InvalidTimestamp),
                Some(tv) => if !spec_fresh(tv, now) {
                    Some(Reason::TimestampExpired)
                } else {
                    match spec_b64_decode(s) {
                        None => Some(Reason::BadSignatureEncoding),
                        Some(sb) => if !spec_sig_verifies(pem, spec_canonical(t, url), sb) {
                            Some(Reason::InvalidSignature)
                        } else {
                            None
                        },
                    }
                },
            }
        },
    }
}

/// Runs the full gate sequence over one request: header extraction, then
/// the fingerprint gate (a constant-time, full-length, case-sensitive
/// comparison), then the freshness gate, then base64 decoding of the
/// claimed signature, then cryptographic verification of the canonical
/// signing string. The result is exactly `spec_verdict`; on acceptance
/// it carries the artifact reference unchanged.
pub fn process_request(
    material: &PublicKeyMaterial,
    fp: Option<&[u8]>,
    ts: Option<&[u8]>,
    sig: Option<&[u8]>,
    artifact_url: &[u8],
    now: i64,
) -> (r: VerificationOutcome)
    ensures
        r.spec_reason() == spec_verdict(
            material.spec_fingerprint(),
            material.spec_pem(),
            view_header(fp),
            view_header(ts),
            view_header(sig),
            artifact_url@,
            now as int,
        ),
        r.spec_is_accepted() <==> spec_verdict(
            material.spec_fingerprint(),
            material.spec_pem(),
            view_header(fp),
            view_header(ts),
            view_header(sig),
            artifact_url@,
            now as int,
        ) is None,
        r matches VerificationOutcome::Accepted { artifact_url: u } ==> u@ == artifact_url@,
        r.spec_is_accepted() ==> view_header(fp) == Some(material.spec_fingerprint()),
        r.spec_is_accepted() ==> (view_header(ts) matches Some(t) && spec_parse_i64(t)
            matches Some(tv) && spec_fresh(tv, now as int)),
{
    let claim = match extract_headers(fp, ts, sig, artifact_url) {
        Err(reason) => {
            return VerificationOutcome::Rejected { reason };
        },
        Ok(c) => c,
    };
    if !ct_eq(claim.fingerprint.as_slice(), material.fingerprint().as_slice()) {
        return VerificationOutcome::Rejected { reason: Reason::FingerprintMismatch };
    }
    match validate_timestamp(claim.timestamp.as_slice(), now) {
        Err(TimestampError::Unparseable) => {
            return VerificationOutcome::Rejected { reason: Reason::InvalidTimestamp };
        },
        Err(TimestampError::OutOfWindow) => {
            return VerificationOutcome::Rejected { reason: Reason::TimestampExpired };
        },
        Ok(_) => {},
    }
    let sig_bytes = match base64_decode(claim.signature.as_slice()) {
        Err(_) => {
            return VerificationOutcome::Rejected { reason: Reason::BadSignatureEncoding };
        },
        Ok(b) => b,
    };
    let message = canonical_message(
        claim.timestamp.as_slice(),
        claim.artifact_url.as_slice(),
    );
    if !material.verify_signature(message.as_slice(), sig_bytes.as_slice()) {
        return VerificationOutcome::Rejected { reason: Reason::InvalidSignature };
    }
    VerificationOutcome::Accepted { artifact_url: claim.artifact_url }
}

/// Every accepted request claimed exactly the cached trusted
/// fingerprint: acceptance is impossible under any other claimed value.
pub proof fn lemma_accepted_fingerprint_matches(
    trusted_fp: Seq<u8>,
    pem: Seq<u8>,
    fp: Option<Seq<u8>>,
    ts: Option<Seq<u8>>,
    sig: Option<Seq<u8>>,
    url: Seq<u8>,
    now: int,
)
    requires
        spec_verdict(trusted_fp, pem, fp, ts, sig, url, now) is None,
    ensures
        fp == Some(trusted_fp),
{
}

/// A timestamp farther than the freshness window from the current time
/// is rejected, whatever the fingerprint, the signature, or anything
/// else in the request.
pub proof fn lemma_stale_timestamp_rejected(
    trusted_fp: Seq<u8>,
    pem: Seq<u8>,
    fp: Option<Seq<u8>>,
    t: Seq<u8>,
    sig: Option<Seq<u8>>,
    url: Seq<u8>,
    now: int,
    tv: int,
)
    requires
        spec_parse_i64(t) == Some(tv),
        !spec_fresh(tv, now),
    ensures
        spec_verdict(trusted_fp, pem, fp, Some(t), sig, url, now) is Some,
{
}

/// A request whose three headers are present and textual, whose claimed
/// fingerprint is the trusted one, whose timestamp is fresh, and whose
/// signature decodes and verifies over the canonical signing string of
/// its timestamp and artifact reference, is accepted.
pub proof fn lemma_genuine_request_accepted(
    trusted_fp: Seq<u8>,
    pem: Seq<u8>,
    t: Seq<u8>,
    s: Seq<u8>,
    url: Seq<u8>,
    now: int,
    tv: int,
    sb: Seq<u8>,
)
    requires
        spec_header_text(trusted_fp),
        spec_header_text(t),
        spec_header_text(s),
        spec_parse_i64(t) == Some(tv),
        spec_fresh(tv, now),
        spec_b64_decode(s) == Some(sb),
        spec_sig_verifies(pem, spec_canonical(t, url), sb),
    ensures
        spec_verdict(trusted_fp, pem, Some(trusted_fp), Some(t), Some(s), url, now) is None,
{
}

} // verus!
