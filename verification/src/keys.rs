//! The key material cache: the trusted public key, parsed once at
//! startup, together with its derived fingerprint.

use crate::bytes_util::hex_encode;
use crate::crypto::{load_key_and_der, sha256_digest, spec_key_der, spec_sha256, spec_sig_verifies};
use crate::bytes_util::spec_hex;
use vstd::prelude::*;

verus! {

/// Loading the trusted key failed: the bundled PEM bytes do not denote a
/// public key. This is a fatal startup condition; no verification
/// request may be served after it.
#[derive(Clone, Copy, Debug, PartialEq, Eq, Structural)]
pub enum KeyLoadError {
    MalformedKey,
}

/// The trusted public key, its PEM source bytes, and its fingerprint:
/// the lowercase hex SHA-256 digest of the key's DER-encoded public-key
/// structure. Constructed once from the bundled PEM bytes and never
/// mutated; the fields are private so that every value of this type was
/// built by `load`, which ties the key handle to the PEM bytes.
pub struct PublicKeyMaterial {
    key: openssl::pkey::PKey<openssl::pkey::Public>,
    pem: Vec<u8>,
    fingerprint: Vec<u8>,
}

impl PublicKeyMaterial {
    /// The PEM bytes this key material was loaded from.
    pub closed spec fn spec_pem(&self) -> Seq<u8> {
        self.pem@
    }

    /// The cached trusted fingerprint.
    pub closed spec fn spec_fingerprint(&self) -> Seq<u8> {
        self.fingerprint@
    }

    /// Well-formedness: the PEM bytes denote a key, and the cached
    /// fingerprint is the lowercase hex SHA-256 digest of that key's DER
    /// encoding.
    pub open spec fn wf(&self) -> bool {
        match spec_key_der(self.spec_pem()) {
            Some(der) => self.spec_fingerprint() == spec_hex(spec_sha256(der)),
            None => false,
        }
    }

    /// Parses the bundled PEM bytes and derives the trusted fingerprint.
    /// Succeeds exactly when the bytes denote a PEM public key; a failure
    /// is fatal at startup and is never retried per request.
    pub fn load(pem_bytes: &[u8]) -> (r: Result<Self, KeyLoadError>)
        ensures
            r is Ok <==> spec_key_der(pem_bytes@) is Some,
            r matches Ok(m) ==> m.wf() && m.spec_pem() == pem_bytes@,
    {
        match load_key_and_der(pem_bytes) {
            Err(_) => Err(KeyLoadError::MalformedKey),
            Ok(key_and_der) => {
                let (key, der) = key_and_der;
                let digest = sha256_digest(der.as_slice());
                let fingerprint = hex_encode(digest.as_slice());
                let pem = vstd::slice::slice_to_vec(pem_bytes);
                Ok(PublicKeyMaterial { key, pem, fingerprint })
            },
        }
    }

    /// The cached trusted fingerprint, as lowercase hex bytes.
    pub fn fingerprint(&self) -> (r: &Vec<u8>)
        ensures
            r@ == self.spec_fingerprint(),
    {
        &self.fingerprint
    }

    /// Relies on openssl's `Verifier` with a SHA-512 message digest over
    /// the key held here: the outcome is a deterministic function of the
    /// key — itself parsed from the PEM bytes `spec_pem` by `load`, the
    /// only constructor of this type — and of the message and signature
    /// bytes. Any internal error of the cryptographic operation is
    /// reported as an ordinary verification failure, indistinguishable
    /// from a mismatched signature.
    #[verifier::external_body]
    pub fn verify_signature(&self, message: &[u8], signature: &[u8]) -> (r: bool)
        ensures
            r == spec_sig_verifies(self.spec_pem(), message@, signature@),
    {
        let verifier = openssl::sign::Verifier::new(openssl::hash::MessageDigest::sha512(), &self.key);
        match verifier {
            Ok(mut v) => match v.update(message) {
                Ok(()) => match v.verify(signature) {
                    Ok(b) => b,
                    Err(_) => false,
                },
                Err(_) => false,
            },
            Err(_) => false,
        }
    }
}

} // verus!
