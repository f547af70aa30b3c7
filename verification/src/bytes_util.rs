//! Small verified helpers on byte slices: header-text validation,
//! constant-time comparison, concatenation and hex encoding.

use vstd::prelude::*;

verus! {

/// A byte that may appear in a textual header value: visible ASCII,
/// space, or horizontal tab.
pub open spec fn is_text_byte(b: u8) -> bool {
    (32 <= b < 127) || b == 9
}

/// Every byte of `s` is textual.
pub open spec fn spec_header_text(s: Seq<u8>) -> bool {
    forall|i: int| 0 <= i < s.len() ==> is_text_byte(#[trigger] s[i])
}

/// Checks that a header value consists of textual bytes only.
pub fn header_text(s: &[u8]) -> (r: bool)
    ensures
        r == spec_header_text(s@),
{
    let mut i: usize = 0;
    while i < s.len()
        invariant
            i <= s@.len(),
            forall|j: int| 0 <= j < i ==> is_text_byte(#[trigger] s@[j]),
        decreases s@.len() - i,
    {
        let b = s[i];
        if !((32 <= b && b < 127) || b == 9) {
            return false;
        }
        i += 1;
    }
    true
}

/// Equality of two byte slices that examines every position instead of
/// stopping at the first difference, so its running time does not reveal
/// how long a common prefix the inputs share.
pub fn ct_eq(a: &[u8], b: &[u8]) -> (r: bool)
    ensures
        r == (a@ == b@),
{
    if a.len() != b.len() {
        return false;
    }
    let mut diff: u8 = 0;
    let mut i: usize = 0;
    while i < a.len()
        invariant
            a@.len() == b@.len(),
            i <= a@.len(),
            (diff == 0) <==> (forall|j: int| 0 <= j < i ==> a@[j] == #[trigger] b@[j]),
        decreases a@.len() - i,
    {
        let x = a[i];
        let y = b[i];
        proof {
            assert(((diff | (x ^ y)) == 0) <==> (diff == 0 && x == y)) by (bit_vector);
        }
        diff = diff | (x ^ y);
        i += 1;
    }
    proof {
        if diff == 0 {
            assert(a@ =~= b@);
        } else {
            assert(a@ != b@);
        }
    }
    diff == 0
}

/// Plain equality of two byte slices.
pub fn bytes_eq(a: &[u8], b: &[u8]) -> (r: bool)
    ensures
        r == (a@ == b@),
{
    ct_eq(a, b)
}

/// Appends all of `s` to `v` and returns the extended vector.
pub fn concat_bytes(v: Vec<u8>, s: &[u8]) -> (r: Vec<u8>)
    ensures
        r@ == v@ + s@,
{
    let mut v = v;
    let ghost orig = v@;
    let mut i: usize = 0;
    while i < s.len()
        invariant
            i <= s@.len(),
            v@ == orig + s@.subrange(0, i as int),
        decreases s@.len() - i,
    {
        let b = s[i];
        proof {
            assert(s@.subrange(0, i + 1 as int) =~= s@.subrange(0, i as int).push(s@[i as int]));
        }
        v.push(b);
        i += 1;
    }
    proof {
        assert(s@.subrange(0, s@.len() as int) =~= s@);
    }
    v
}

/// The lowercase hex digit for a value below 16.
pub open spec fn spec_hex_digit(n: u8) -> u8
    recommends
        n < 16,
{
    if n < 10 {
        (48 + n) as u8
    } else {
        (87 + n) as u8
    }
}

/// Lowercase hex encoding of a byte sequence: two digits per byte,
/// high nibble first.
pub open spec fn spec_hex(s: Seq<u8>) -> Seq<u8>
    decreases s.len(),
{
    if s.len() == 0 {
        Seq::empty()
    } else {
        spec_hex(s.drop_last()) + seq![
            spec_hex_digit(s.last() / 16),
            spec_hex_digit(s.last() % 16),
        ]
    }
}

/// Encodes `s` as lowercase hex, two digits per byte.
pub fn hex_encode(s: &[u8]) -> (r: Vec<u8>)
    ensures
        r@ == spec_hex(s@),
        r@.len() == 2 * s@.len(),
{
    let mut out: Vec<u8> = Vec::new();
    let mut i: usize = 0;
    proof {
        lemma_spec_hex_len(s@);
    }
    while i < s.len()
        invariant
            i <= s@.len(),
            out@ == spec_hex(s@.subrange(0, i as int)),
            out@.len() == 2 * i,
        decreases s@.len() - i,
    {
        let b = s[i];
        let hi = b / 16;
        let lo = b % 16;
        let hi_d: u8 = if hi < 10 { 48 + hi } else { 87 + hi };
        let lo_d: u8 = if lo < 10 { 48 + lo } else { 87 + lo };
        out.push(hi_d);
        out.push(lo_d);
        proof {
            let pre = s@.subrange(0, i + 1 as int);
            assert(pre.drop_last() =~= s@.subrange(0, i as int));
            assert(pre.last() == s@[i as int]);
            assert(out@ =~= spec_hex(pre.drop_last()) + seq![
                spec_hex_digit(pre.last() / 16),
                spec_hex_digit(pre.last() % 16),
            ]);
        }
        i += 1;
    }
    proof {
        assert(s@.subrange(0, s@.len() as int) =~= s@);
    }
    out
}

/// The hex encoding of a sequence is twice as long as the sequence.
pub proof fn lemma_spec_hex_len(s: Seq<u8>)
    ensures
        spec_hex(s).len() == 2 * s.len(),
    decreases s.len(),
{
    if s.len() > 0 {
        lemma_spec_hex_len(s.drop_last());
    }
}

} // verus!
