//! End-to-end tests of the verification pipeline against real key material: a fresh
//! RSA key pair, real SHA-512 signatures, and real base64 encoding.

use webhook::{
    build_audit_record, dispatch_payload, process_request, response_status, DeploymentResult,
    HeaderField, PublicKeyMaterial, Reason, ResponseStatus, VerificationOutcome,
};

use base64::Engine;
use openssl::hash::MessageDigest;
use openssl::pkey::{PKey, Private};
use openssl::sign::Signer;

const NOW: i64 = 1_700_000_000;
const URL: &str = "https://cdn.example/x.tar.gz";

fn test_keypair() -> (PKey<Private>, Vec<u8>) {
    let rsa = openssl::rsa::Rsa::generate(2048).unwrap();
    let key = PKey::from_rsa(rsa).unwrap();
    let pem = key.public_key_to_pem().unwrap();
    (key, pem)
}

fn sign(key: &PKey<Private>, message: &[u8]) -> Vec<u8> {
    let mut signer = Signer::new(MessageDigest::sha512(), key).unwrap();
    signer.update(message).unwrap();
    signer.sign_to_vec().unwrap()
}

fn canonical(ts: &str, url: &str) -> Vec<u8> {
    webhook::canonical_message(ts.as_bytes(), url.as_bytes())
}

fn b64(bytes: &[u8]) -> String {
    base64::engine::general_purpose::STANDARD.encode(bytes)
}

struct Fixture {
    material: PublicKeyMaterial,
    fingerprint: Vec<u8>,
    key: PKey<Private>,
}

fn fixture() -> Fixture {
    let (key, pem) = test_keypair();
    let material = PublicKeyMaterial::load(&pem).unwrap();
    let fingerprint = material.fingerprint().clone();
    Fixture { material, fingerprint, key }
}

fn run(
    f: &Fixture,
    fp: Option<&[u8]>,
    ts: Option<&[u8]>,
    sig: Option<&[u8]>,
    url: &str,
) -> VerificationOutcome {
    process_request(&f.material, fp, ts, sig, url.as_bytes(), NOW)
}

#[test]
fn fingerprint_matches_openssl_derivation() {
    let (key, pem) = test_keypair();
    let material = PublicKeyMaterial::load(&pem).unwrap();
    let der = key.public_key_to_der().unwrap();
    let expected = hex::encode(openssl::sha::sha256(&der));
    assert_eq!(material.fingerprint().as_slice(), expected.as_bytes());
    assert_eq!(material.fingerprint().len(), 64);
}

#[test]
fn malformed_key_material_is_rejected() {
    assert!(PublicKeyMaterial::load(b"not a pem").is_err());
    assert!(PublicKeyMaterial::load(b"").is_err());
}

#[test]
fn genuine_request_is_accepted_and_dispatched() {
    let f = fixture();
    let ts = NOW.to_string();
    let sig = b64(&sign(&f.key, &canonical(&ts, URL)));
    let outcome = run(
        &f,
        Some(&f.fingerprint),
        Some(ts.as_bytes()),
        Some(sig.as_bytes()),
        URL,
    );
    assert!(outcome.is_accepted());
    assert_eq!(outcome.reason(), None);
    let payload = dispatch_payload(&outcome);
    assert_eq!(payload.unwrap().as_slice(), URL.as_bytes());
    let dispatch = DeploymentResult::from_invocation(true, Vec::new());
    let status = response_status(&outcome, Some(&dispatch));
    assert_eq!(status, ResponseStatus::Success);
}

#[test]
fn stale_timestamp_is_rejected_and_never_dispatched() {
    let f = fixture();
    let ts = (NOW - 400).to_string();
    let sig = b64(&sign(&f.key, &canonical(&ts, URL)));
    let outcome = run(
        &f,
        Some(&f.fingerprint),
        Some(ts.as_bytes()),
        Some(sig.as_bytes()),
        URL,
    );
    assert!(!outcome.is_accepted());
    assert_eq!(outcome.reason(), Some(Reason::TimestampExpired));
    assert!(dispatch_payload(&outcome).is_none());
}

#[test]
fn future_timestamp_outside_window_is_rejected() {
    let f = fixture();
    let ts = (NOW + 301).to_string();
    let sig = b64(&sign(&f.key, &canonical(&ts, URL)));
    let outcome = run(
        &f,
        Some(&f.fingerprint),
        Some(ts.as_bytes()),
        Some(sig.as_bytes()),
        URL,
    );
    assert_eq!(outcome.reason(), Some(Reason::TimestampExpired));
}

#[test]
fn timestamp_at_window_edge_is_accepted() {
    let f = fixture();
    let ts = (NOW - 300).to_string();
    let sig = b64(&sign(&f.key, &canonical(&ts, URL)));
    let outcome = run(
        &f,
        Some(&f.fingerprint),
        Some(ts.as_bytes()),
        Some(sig.as_bytes()),
        URL,
    );
    assert!(outcome.is_accepted());
}

#[test]
fn flipped_signature_bit_is_rejected() {
    let f = fixture();
    let ts = NOW.to_string();
    let mut sig_bytes = sign(&f.key, &canonical(&ts, URL));
    sig_bytes[0] ^= 0x01;
    let sig = b64(&sig_bytes);
    let outcome = run(
        &f,
        Some(&f.fingerprint),
        Some(ts.as_bytes()),
        Some(sig.as_bytes()),
        URL,
    );
    assert_eq!(outcome.reason(), Some(Reason::InvalidSignature));
}

#[test]
fn mutated_artifact_url_invalidates_signature() {
    let f = fixture();
    let ts = NOW.to_string();
    let sig = b64(&sign(&f.key, &canonical(&ts, URL)));
    let mut mutated = URL.as_bytes().to_vec();
    let last = mutated.len() - 1;
    mutated[last] ^= 0x01;
    let outcome = process_request(
        &f.material,
        Some(&f.fingerprint),
        Some(ts.as_bytes()),
        Some(sig.as_bytes()),
        &mutated,
        NOW,
    );
    assert_eq!(outcome.reason(), Some(Reason::InvalidSignature));
}

#[test]
fn unrelated_fingerprint_fails_before_signature_is_decoded() {
    let f = fixture();
    let ts = NOW.to_string();
    let other_fp = "ab".repeat(32);
    assert_ne!(other_fp.as_bytes(), f.fingerprint.as_slice());
    // The signature header is not even valid base64: if the fingerprint
    // gate did not fire first, the reason would be BadSignatureEncoding.
    let outcome = run(
        &f,
        Some(other_fp.as_bytes()),
        Some(ts.as_bytes()),
        Some(b"%%% not base64 %%%"),
        URL,
    );
    assert_eq!(outcome.reason(), Some(Reason::FingerprintMismatch));
}

#[test]
fn dispatch_failure_yields_server_error_with_accepted_audit() {
    let f = fixture();
    let ts = NOW.to_string();
    let sig = b64(&sign(&f.key, &canonical(&ts, URL)));
    let outcome = run(
        &f,
        Some(&f.fingerprint),
        Some(ts.as_bytes()),
        Some(sig.as_bytes()),
        URL,
    );
    assert!(outcome.is_accepted());
    let dispatch = DeploymentResult::from_invocation(false, b"exit status 2".to_vec());
    let status = response_status(&outcome, Some(&dispatch));
    assert_eq!(status, ResponseStatus::ServerError);
    let record = build_audit_record(&outcome, Some(&dispatch), b"127.0.0.1", NOW);
    assert_eq!(record.outcome_label, "accepted");
    assert_eq!(record.dispatch_label, Some("dispatch_failure"));
    assert_eq!(record.dispatch_diagnostics, b"exit status 2".to_vec());
}

#[test]
fn each_missing_header_is_rejected_with_the_same_response() {
    let f = fixture();
    let ts = NOW.to_string();
    let sig = b64(&sign(&f.key, &canonical(&ts, URL)));
    let cases: Vec<(Option<&[u8]>, Option<&[u8]>, Option<&[u8]>, Reason)> = vec![
        (
            None,
            Some(ts.as_bytes()),
            Some(sig.as_bytes()),
            Reason::MissingHeader(HeaderField::Fingerprint),
        ),
        (
            Some(f.fingerprint.as_slice()),
            None,
            Some(sig.as_bytes()),
            Reason::MissingHeader(HeaderField::Timestamp),
        ),
        (
            Some(f.fingerprint.as_slice()),
            Some(ts.as_bytes()),
            None,
            Reason::MissingHeader(HeaderField::Signature),
        ),
    ];
    let mut statuses = Vec::new();
    for (fp, tsh, sigh, expected) in cases {
        let outcome = run(&f, fp, tsh, sigh, URL);
        assert_eq!(outcome.reason(), Some(expected));
        statuses.push(response_status(&outcome, None));
    }
    // Identical in shape to any other rejection, including a bad signature.
    let bad_sig = run(
        &f,
        Some(&f.fingerprint),
        Some(ts.as_bytes()),
        Some(b"AAAA"),
        URL,
    );
    assert_eq!(bad_sig.reason(), Some(Reason::InvalidSignature));
    statuses.push(response_status(&bad_sig, None));
    for s in &statuses {
        assert_eq!(*s, ResponseStatus::NotFound);
    }
}

#[test]
fn non_textual_header_is_rejected_as_invalid_encoding() {
    let f = fixture();
    let ts = NOW.to_string();
    let outcome = run(
        &f,
        Some(&[0x80, 0x41]),
        Some(ts.as_bytes()),
        Some(b"AAAA"),
        URL,
    );
    assert_eq!(
        outcome.reason(),
        Some(Reason::InvalidEncoding(HeaderField::Fingerprint))
    );
    let outcome = run(
        &f,
        Some(&f.fingerprint),
        Some(&[0x31, 0x00]),
        Some(b"AAAA"),
        URL,
    );
    assert_eq!(
        outcome.reason(),
        Some(Reason::InvalidEncoding(HeaderField::Timestamp))
    );
}

#[test]
fn unparseable_timestamp_is_rejected() {
    let f = fixture();
    for ts in ["abc", "", "12 34", "12.5", "--4", "+"] {
        let outcome = run(
            &f,
            Some(&f.fingerprint),
            Some(ts.as_bytes()),
            Some(b"AAAA"),
            URL,
        );
        assert_eq!(outcome.reason(), Some(Reason::InvalidTimestamp), "{ts:?}");
    }
}

#[test]
fn invalid_base64_signature_is_rejected() {
    let f = fixture();
    let ts = NOW.to_string();
    for sig in ["not base64!", "AAA", "AA=A"] {
        let outcome = run(
            &f,
            Some(&f.fingerprint),
            Some(ts.as_bytes()),
            Some(sig.as_bytes()),
            URL,
        );
        assert_eq!(
            outcome.reason(),
            Some(Reason::BadSignatureEncoding),
            "{sig:?}"
        );
    }
}

#[test]
fn audit_labels_are_fixed_per_reason() {
    let accepted = VerificationOutcome::Accepted {
        artifact_url: URL.as_bytes().to_vec(),
    };
    assert_eq!(webhook::outcome_label(&accepted), "accepted");
    let rejected = VerificationOutcome::Rejected {
        reason: Reason::FingerprintMismatch,
    };
    assert_eq!(webhook::outcome_label(&rejected), "fingerprint_mismatch");
    let rejected = VerificationOutcome::Rejected {
        reason: Reason::MissingHeader(HeaderField::Signature),
    };
    assert_eq!(webhook::outcome_label(&rejected), "missing_header_signature");
    let record = build_audit_record(&rejected, None, b"10.0.0.1", 77);
    assert_eq!(record.outcome_label, "missing_header_signature");
    assert_eq!(record.dispatch_label, None);
    assert_eq!(record.source, b"10.0.0.1".to_vec());
    assert_eq!(record.arrival_time, 77);
}
