//! The trusted boundary to the cryptographic primitives: declarations of
//! the outside types the verifier must know about, names for results that
//! no short specification can state, and the wrappers whose contracts the
//! verifier believes without proof.

use vstd::prelude::*;

verus! {

#[verifier::external_type_specification]
#[verifier::external_body]
#[verifier::reject_recursive_types(T)]
pub struct ExPKey<T>(openssl::pkey::PKey<T>);

#[verifier::external_type_specification]
#[verifier::external_body]
pub struct ExPublic(openssl::pkey::Public);

#[verifier::external_type_specification]
#[verifier::external_body]
pub struct ExErrorStack(openssl::error::ErrorStack);

#[verifier::external_type_specification]
#[verifier::external_body]
pub struct ExDecodeError(base64::DecodeError);

/// The DER-encoded SubjectPublicKeyInfo structure of the public key that
/// a PEM byte string denotes, or nothing when the bytes are not a valid
/// PEM-encoded public key. A deterministic function of the PEM bytes.
pub uninterp spec fn spec_key_der(pem: Seq<u8>) -> Option<Seq<u8>>;

/// The SHA-256 digest of a byte sequence.
pub uninterp spec fn spec_sha256(data: Seq<u8>) -> Seq<u8>;

/// The bytes that a standard (padded) base64 string decodes to, or
/// nothing when the input is not valid base64.
pub uninterp spec fn spec_b64_decode(s: Seq<u8>) -> Option<Seq<u8>>;

/// Whether `signature` is a valid signature over `message` under the
/// public key that the PEM byte string `pem` denotes, with SHA-512 as the
/// message digest. A deterministic function of its three arguments.
pub uninterp spec fn spec_sig_verifies(pem: Seq<u8>, message: Seq<u8>, signature: Seq<u8>) -> bool;

/// Relies on openssl's `PKey::public_key_from_pem` and
/// `PKeyRef::public_key_to_der`. The two calls stand in one wrapper
/// because the DER encoding is a function of the PEM bytes only through
/// the parsed key handle, which is opaque here: together they realise
/// `spec_key_der`. Parsing succeeds exactly on valid PEM public keys, and
/// both steps depend on the input bytes alone.
#[verifier::external_body]
pub(crate) fn load_key_and_der(pem: &[u8]) -> (r: Result<
    (openssl::pkey::PKey<openssl::pkey::Public>, Vec<u8>),
    openssl::error::ErrorStack,
>)
    ensures
        r is Ok <==> spec_key_der(pem@) is Some,
        r matches Ok(p) ==> Some(p.1@) == spec_key_der(pem@),
{
    let key = openssl::pkey::PKey::public_key_from_pem(pem)?;
    let der = key.public_key_to_der()?;
    Ok((key, der))
}

/// Relies on openssl's `sha::sha256`: the 32-byte SHA-256 digest of the
/// input, a function of the input bytes alone.
#[verifier::external_body]
pub(crate) fn sha256_digest(data: &[u8]) -> (r: Vec<u8>)
    ensures
        r@ == spec_sha256(data@),
        r@.len() == 32,
{
    openssl::sha::sha256(data).to_vec()
}

/// Relies on the base64 crate's `Engine::decode` with the standard
/// alphabet and mandatory padding: it succeeds exactly on valid input and
/// its result depends on the input bytes alone.
#[verifier::external_body]
pub(crate) fn base64_decode(s: &[u8]) -> (r: Result<Vec<u8>, base64::DecodeError>)
    ensures
        r is Ok <==> spec_b64_decode(s@) is Some,
        r matches Ok(v) ==> Some(v@) == spec_b64_decode(s@),
{
    base64::Engine::decode(&base64::engine::general_purpose::STANDARD, s)
}

} // verus!
