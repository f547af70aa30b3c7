//! The canonical signing string: the exact byte sequence that the trusted
//! private key signs and the verifier reconstructs.

use crate::bytes_util::concat_bytes;
use vstd::prelude::*;
use vstd::string::*;

verus! {

/// The canonical signing string for a claimed timestamp (in its original
/// textual form) and an artifact reference: the literal field name
/// `timestamp`, `=`, the timestamp text, `|`, the literal field name
/// `artifact_url`, `=`, and the artifact reference. Nothing else is
/// covered by the signature.
pub open spec fn spec_canonical(ts: Seq<u8>, url: Seq<u8>) -> Seq<u8> {
    "timestamp=".spec_bytes() + ts + "|artifact_url=".spec_bytes() + url
}

/// Builds the canonical signing string for a timestamp and an artifact
/// reference.
pub fn canonical_message(ts: &[u8], url: &[u8]) -> (r: Vec<u8>)
    ensures
        r@ == spec_canonical(ts@, url@),
{
    let mut m: Vec<u8> = Vec::new();
    m = concat_bytes(m, "timestamp=".as_bytes());
    m = concat_bytes(m, ts);
    m = concat_bytes(m, "|artifact_url=".as_bytes());
    m = concat_bytes(m, url);
    proof {
        assert(m@ =~= spec_canonical(ts@, url@));
    }
    m
}

/// With the timestamp held fixed, two distinct artifact references always
/// produce distinct canonical signing strings, so a signature over one
/// never speaks for the other.
pub proof fn lemma_canonical_url_injective(ts: Seq<u8>, u1: Seq<u8>, u2: Seq<u8>)
    requires
        u1 != u2,
    ensures
        spec_canonical(ts, u1) != spec_canonical(ts, u2),
{
    let p = "timestamp=".spec_bytes() + ts + "|artifact_url=".spec_bytes();
    assert(spec_canonical(ts, u1) =~= p + u1);
    assert(spec_canonical(ts, u2) =~= p + u2);
    if spec_canonical(ts, u1) == spec_canonical(ts, u2) {
        assert((p + u1).len() == (p + u2).len());
        assert(u1.len() == u2.len());
        assert forall|i: int| 0 <= i < u1.len() implies u1[i] == u2[i] by {
            assert((p + u1)[p.len() + i] == u1[i]);
            assert((p + u2)[p.len() + i] == u2[i]);
        }
        assert(u1 =~= u2);
    }
}

} // verus!
