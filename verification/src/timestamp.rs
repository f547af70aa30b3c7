//! The freshness gate: parsing a claimed timestamp as a signed decimal
//! count of seconds, and bounding its distance from the current time.

use vstd::prelude::*;

verus! {

/// An ASCII decimal digit.
pub open spec fn is_digit(b: u8) -> bool {
    48 <= b <= 57
}

/// Every byte of `s` is an ASCII decimal digit.
pub open spec fn all_digits(s: Seq<u8>) -> bool {
    forall|i: int| 0 <= i < s.len() ==> is_digit(#[trigger] s[i])
}

/// The value of a sequence of decimal digits, most significant first.
pub open spec fn dec_value(s: Seq<u8>) -> int
    decreases s.len(),
{
    if s.len() == 0 {
        0
    } else {
        dec_value(s.drop_last()) * 10 + (s.last() - 48)
    }
}

/// The integer a byte string denotes: an optional single `+` or `-` sign,
/// then one or more decimal digits, with the value in range for `i64`.
/// Anything else denotes nothing.
pub open spec fn spec_parse_i64(s: Seq<u8>) -> Option<int> {
    let signed = s.len() > 0 && (s[0] == 43 || s[0] == 45);
    let negative = s.len() > 0 && s[0] == 45;
    let digits = if signed { s.subrange(1, s.len() as int) } else { s };
    if digits.len() == 0 || !all_digits(digits) {
        None
    } else {
        let v = if negative { -dec_value(digits) } else { dec_value(digits) };
        if i64::MIN <= v <= i64::MAX {
            Some(v)
        } else {
            None
        }
    }
}

/// A sequence of digits has a nonnegative value.
pub proof fn lemma_dec_value_nonneg(s: Seq<u8>)
    requires
        all_digits(s),
    ensures
        dec_value(s) >= 0,
    decreases s.len(),
{
    if s.len() > 0 {
        assert(all_digits(s.drop_last())) by {
            assert(forall|i: int|
                0 <= i < s.drop_last().len() ==> #[trigger] s.drop_last()[i] == s[i]);
        }
        lemma_dec_value_nonneg(s.drop_last());
    }
}

/// Extending a digit string to the right never decreases its value.
pub proof fn lemma_dec_value_prefix(s: Seq<u8>, i: int)
    requires
        all_digits(s),
        0 <= i <= s.len(),
    ensures
        dec_value(s.subrange(0, i)) <= dec_value(s),
    decreases s.len() - i,
{
    if i == s.len() {
        assert(s.subrange(0, i) =~= s);
    } else {
        lemma_dec_value_prefix(s, i + 1);
        let p = s.subrange(0, i + 1);
        assert(p.drop_last() =~= s.subrange(0, i));
        assert(all_digits(s.subrange(0, i))) by {
            assert(forall|j: int|
                0 <= j < i ==> #[trigger] s.subrange(0, i)[j] == s[j]);
        }
        lemma_dec_value_nonneg(s.subrange(0, i));
        assert(dec_value(p) == dec_value(s.subrange(0, i)) * 10 + (s[i] - 48));
    }
}

/// Parses a byte string as a signed decimal `i64`, exactly when
/// `spec_parse_i64` gives it a value.
pub fn parse_i64(s: &[u8]) -> (r: Option<i64>)
    ensures
        r is Some <==> spec_parse_i64(s@) is Some,
        r matches Some(v) ==> spec_parse_i64(s@) == Some(v as int),
{
    let n = s.len();
    if n == 0 {
        return None;
    }
    let first = s[0];
    let negative = first == 45;
    let start: usize = if first == 43 || first == 45 {
        1
    } else {
        0
    };
    if start == n {
        return None;
    }
    let ghost digits = s@.subrange(start as int, n as int);
    proof {
        if start == 0 {
            assert(digits =~= s@);
        }
    }
    let mut i: usize = start;
    while i < n
        invariant
            start <= i <= n,
            n == s@.len(),
            start < n,
            start == 0 || start == 1,
            (start == 1) <==> (s@[0] == 43 || s@[0] == 45),
            digits == s@.subrange(start as int, n as int),
            start == 0 ==> digits == s@,
            forall|j: int| start <= j < i ==> is_digit(#[trigger] s@[j]),
        decreases n - i,
    {
        let b = s[i];
        if b < 48 || 57 < b {
            proof {
                assert(digits.len() == n - start);
                assert(digits[i - start] == s@[(i - start) + start]);
                assert(!is_digit(digits[i - start]));
                assert(!all_digits(digits));
            }
            return None;
        }
        i += 1;
    }
    proof {
        assert(all_digits(digits)) by {
            assert(forall|j: int|
                0 <= j < digits.len() ==> #[trigger] digits[j] == s@[j + start]);
        }
    }
    let mut acc: u64 = 0;
    let mut k: usize = start;
    while k < n
        invariant
            start <= k <= n,
            n == s@.len(),
            start < n,
            start == 0 || start == 1,
            (start == 1) <==> (s@[0] == 43 || s@[0] == 45),
            digits == s@.subrange(start as int, n as int),
            start == 0 ==> digits == s@,
            all_digits(digits),
            negative == (s@.len() > 0 && s@[0] == 45),
            acc == dec_value(digits.subrange(0, k - start)),
        decreases n - k,
    {
        let ghost m = (k - start) as int;
        proof {
            assert(digits.subrange(0, m + 1).drop_last() =~= digits.subrange(0, m));
            assert(digits.subrange(0, m + 1).last() == digits[m]);
            assert(digits[m] == s@[k as int]);
        }
        let d = s[k] - 48;
        if acc > 922337203685477580u64 {
            proof {
                let v1 = dec_value(digits.subrange(0, m + 1));
                assert(v1 == acc * 10 + (s@[k as int] - 48));
                assert(v1 > 9223372036854775808int);
                lemma_dec_value_prefix(digits, m + 1);
                assert(dec_value(digits) > 9223372036854775808int);
            }
            return None;
        }
        acc = acc * 10 + (d as u64);
        k += 1;
    }
    proof {
        assert(digits.subrange(0, n - start) =~= digits);
    }
    if negative {
        if acc <= 9223372036854775808u64 {
            if acc == 9223372036854775808u64 {
                Some(i64::MIN)
            } else {
                Some(-(acc as i64))
            }
        } else {
            None
        }
    } else {
        if acc <= 9223372036854775807u64 {
            Some(acc as i64)
        } else {
            None
        }
    }
}

/// Number of seconds a claimed timestamp may differ from the current
/// time, in either direction, and still be considered fresh.
pub const FRESHNESS_WINDOW_SECS: i64 = 300;

/// Whether a claimed timestamp `t` lies within the symmetric freshness
/// window around the current time `now`.
pub open spec fn spec_fresh(t: int, now: int) -> bool {
    -(FRESHNESS_WINDOW_SECS as int) <= now - t <= FRESHNESS_WINDOW_SECS as int
}

/// Freshness check on an already-parsed timestamp, computed without
/// overflow.
pub fn timestamp_fresh(t: i64, now: i64) -> (r: bool)
    ensures
        r == spec_fresh(t as int, now as int),
{
    let diff: i128 = (now as i128) - (t as i128);
    let window: i128 = FRESHNESS_WINDOW_SECS as i128;
    -window <= diff && diff <= window
}

/// Why a claimed timestamp was refused.
#[derive(Clone, Copy, Debug, PartialEq, Eq, Structural)]
pub enum TimestampError {
    /// The header is not a decimal integer in range.
    Unparseable,
    /// The timestamp lies outside the freshness window.
    OutOfWindow,
}

/// The freshness gate: accepts exactly the byte strings that denote an
/// `i64` within the freshness window around `now`, and says which of the
/// two checks failed otherwise.
pub fn validate_timestamp(s: &[u8], now: i64) -> (r: Result<i64, TimestampError>)
    ensures
        r matches Ok(t) ==> spec_parse_i64(s@) == Some(t as int) && spec_fresh(t as int, now as int),
        r == Err::<i64, TimestampError>(TimestampError::Unparseable) <==> spec_parse_i64(s@) is None,
        r == Err::<i64, TimestampError>(TimestampError::OutOfWindow) <==> (spec_parse_i64(s@) matches Some(t)
            && !spec_fresh(t, now as int)),
{
    match parse_i64(s) {
        None => Err(TimestampError::Unparseable),
        Some(t) => {
            if timestamp_fresh(t, now) {
                Ok(t)
            } else {
                Err(TimestampError::OutOfWindow)
            }
        },
    }
}

} // verus!
