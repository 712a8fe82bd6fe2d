//! Decimal-string encoding of unsigned integers.
//!
//! Plans carry `gas_limit` and `gas_price` as decimal strings; receipts hand
//! gas consumption back as machine words. This module parses and prints that
//! encoding, against one shared mathematical reading of a digit string.

use vstd::prelude::*;

verus! {

/// `c` is one of the ten decimal digit characters.
pub open spec fn spec_is_digit(c: char) -> bool {
    '0' <= c && c <= '9'
}

/// The numeric value of a digit character.
pub open spec fn spec_digit_val(c: char) -> int {
    c as int - '0' as int
}

/// Every character of `s` is a decimal digit.
pub open spec fn spec_all_digits(s: Seq<char>) -> bool {
    forall|i: int| 0 <= i < s.len() ==> spec_is_digit(#[trigger] s[i])
}

/// The number that the digit string `s` denotes, most significant digit first.
pub open spec fn spec_dec_val(s: Seq<char>) -> int
    decreases s.len(),
{
    if s.len() == 0 {
        0
    } else {
        spec_dec_val(s.drop_last()) * 10 + spec_digit_val(s.last())
    }
}

/// `s` is a decimal numeral that denotes a value within `u64` range:
/// non-empty, digits only, value at most `u64::MAX`.
pub open spec fn spec_parses_u64(s: Seq<char>) -> bool {
    &&& s.len() > 0
    &&& spec_all_digits(s)
    &&& spec_dec_val(s) <= u64::MAX
}

/// A digit string denotes a non-negative number.
pub proof fn lemma_dec_val_nonneg(s: Seq<char>)
    requires
        spec_all_digits(s),
    ensures
        spec_dec_val(s) >= 0,
    decreases s.len(),
{
    if s.len() > 0 {
        assert(spec_all_digits(s.drop_last())) by {
            assert(forall|i: int|
                0 <= i < s.len() - 1 ==> s.drop_last()[i] == #[trigger] s[i]);
        }
        lemma_dec_val_nonneg(s.drop_last());
    }
}

/// Extending a digit string can only grow the number it denotes.
pub proof fn lemma_dec_val_prefix_le(s: Seq<char>, i: int)
    requires
        spec_all_digits(s),
        0 <= i <= s.len(),
    ensures
        spec_dec_val(s.subrange(0, i)) <= spec_dec_val(s),
    decreases s.len() - i,
{
    if i < s.len() {
        let t = s.subrange(0, i + 1);
        assert(spec_all_digits(t)) by {
            assert(forall|j: int| 0 <= j < t.len() ==> t[j] == #[trigger] s[j]);
        }
        assert(t.drop_last() =~= s.subrange(0, i));
        lemma_dec_val_nonneg(s.subrange(0, i));
        assert(spec_dec_val(t) == spec_dec_val(s.subrange(0, i)) * 10 + spec_digit_val(s[i]));
        lemma_dec_val_prefix_le(s, i + 1);
    } else {
        assert(s.subrange(0, i) =~= s);
    }
}

/// Parse a decimal numeral into a `u64`.
///
/// Returns the denoted value exactly when `s` is non-empty, all digits, and
/// the value fits; returns `None` otherwise.
pub fn parse_u64(s: &str) -> (r: Option<u64>)
    ensures
        r is Some <==> spec_parses_u64(s@),
        r matches Some(v) ==> v == spec_dec_val(s@),
{
    let n = s.unicode_len();
    if n == 0 {
        return None;
    }
    let mut acc: u64 = 0;
    let mut i: usize = 0;
    while i < n
        invariant
            0 < n == s@.len(),
            0 <= i <= n,
            forall|j: int| 0 <= j < i ==> spec_is_digit(#[trigger] s@[j]),
            acc == spec_dec_val(s@.subrange(0, i as int)),
        decreases n - i,
    {
        let c = s.get_char(i);
        let u = c as u32;
        if u < 48 || u > 57 {
            assert(!spec_is_digit(s@[i as int]));
            return None;
        }
        let d: u64 = ((u - 48) as u8) as u64;
        assert(spec_is_digit(s@[i as int]) && d == spec_digit_val(s@[i as int]));
        proof {
            let p = s@.subrange(0, i as int);
            let q = s@.subrange(0, i + 1 as int);
            assert(q.drop_last() =~= p);
            assert(q.last() == s@[i as int]);
        }
        let next = match acc.checked_mul(10) {
            Some(t) => t.checked_add(d),
            None => None,
        };
        match next {
            Some(t) => {
                acc = t;
            },
            None => {
                proof {
                    assert(spec_dec_val(s@.subrange(0, i + 1 as int)) > u64::MAX);
                    if spec_all_digits(s@) {
                        lemma_dec_val_prefix_le(s@, i + 1 as int);
                    }
                }
                return None;
            },
        }
        i = i + 1;
    }
    proof {
        assert(s@.subrange(0, n as int) =~= s@);
    }
    Some(acc)
}

/// The one-character string for a digit value.
fn digit_str(d: u64) -> (r: &'static str)
    requires
        d < 10,
    ensures
        r@.len() == 1,
        spec_is_digit(r@[0]),
        spec_digit_val(r@[0]) == d,
{
    proof {
        reveal_strlit("0");
        reveal_strlit("1");
        reveal_strlit("2");
        reveal_strlit("3");
        reveal_strlit("4");
        reveal_strlit("5");
        reveal_strlit("6");
        reveal_strlit("7");
        reveal_strlit("8");
        reveal_strlit("9");
    }
    if d == 0 {
        "0"
    } else if d == 1 {
        "1"
    } else if d == 2 {
        "2"
    } else if d == 3 {
        "3"
    } else if d == 4 {
        "4"
    } else if d == 5 {
        "5"
    } else if d == 6 {
        "6"
    } else if d == 7 {
        "7"
    } else if d == 8 {
        "8"
    } else {
        "9"
    }
}

/// Print `v` as its canonical decimal numeral: digits only, no leading zero
/// except for the numeral `0` itself, denoting exactly `v`.
pub fn u64_to_dec(v: u64) -> (r: String)
    ensures
        spec_all_digits(r@),
        r@.len() > 0,
        spec_dec_val(r@) == v,
        r@.len() > 1 ==> r@[0] != '0',
    decreases v,
{
    if v < 10 {
        let r = digit_str(v).to_owned();
        proof {
            assert(r@.drop_last() =~= Seq::<char>::empty());
            assert(spec_dec_val(Seq::<char>::empty()) == 0);
            assert(r@.last() == r@[0]);
            assert(spec_dec_val(r@) == 0 * 10 + spec_digit_val(r@[0]));
        }
        r
    } else {
        let mut r = u64_to_dec(v / 10);
        let ghost prefix = r@;
        r.append(digit_str(v % 10));
        proof {
            assert(r@.drop_last() =~= prefix);
            assert(spec_dec_val(r@) == spec_dec_val(prefix) * 10 + (v % 10));
            assert(spec_dec_val(prefix) == v / 10);
            assert((v / 10) * 10 + v % 10 == v) by (nonlinear_arith);
            assert(forall|i: int|
                0 <= i < r@.len() - 1 ==> r@[i] == #[trigger] prefix[i]);
            if prefix.len() == 1 {
                assert(prefix.drop_last() =~= Seq::<char>::empty());
                assert(spec_dec_val(Seq::<char>::empty()) == 0);
                assert(prefix.last() == prefix[0]);
                assert(spec_dec_val(prefix) == 0 * 10 + spec_digit_val(prefix[0]));
                assert(spec_digit_val(prefix[0]) == v / 10);
                assert(v / 10 >= 1);
                assert(r@[0] != '0');
            }
        }
        r
    }
}

} // verus!
