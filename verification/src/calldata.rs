//! The byte encoding of a plan's `calldata` field: a `0x`-prefixed string of
//! hex digit pairs, decoded into the raw payload the transaction carries.

use vstd::prelude::*;

verus! {

/// `c` is a hexadecimal digit, either case.
pub open spec fn spec_is_hex_digit(c: char) -> bool {
    ||| '0' <= c && c <= '9'
    ||| 'a' <= c && c <= 'f'
    ||| 'A' <= c && c <= 'F'
}

/// The numeric value of a hexadecimal digit.
pub open spec fn spec_hex_val(c: char) -> int {
    if '0' <= c && c <= '9' {
        c as int - '0' as int
    } else if 'a' <= c && c <= 'f' {
        c as int - 'a' as int + 10
    } else {
        c as int - 'A' as int + 10
    }
}

/// `s` is a well-formed calldata encoding: `0x`, then an even number of hex
/// digits.
pub open spec fn spec_wf_calldata(s: Seq<char>) -> bool {
    &&& s.len() >= 2
    &&& s[0] == '0'
    &&& s[1] == 'x'
    &&& (s.len() - 2) % 2 == 0
    &&& forall|i: int| 2 <= i < s.len() ==> spec_is_hex_digit(#[trigger] s[i])
}

/// The bytes a well-formed calldata encoding denotes, one per digit pair.
pub open spec fn spec_calldata_bytes(s: Seq<char>) -> Seq<u8> {
    Seq::new(
        (((s.len() - 2) / 2) as nat),
        |i: int| (spec_hex_val(s[2 + 2 * i]) * 16 + spec_hex_val(s[2 + 2 * i + 1])) as u8,
    )
}

/// The value of a hexadecimal digit character, or `None` for any other
/// character.
fn hex_digit_val(c: char) -> (r: Option<u8>)
    ensures
        r is Some <==> spec_is_hex_digit(c),
        r matches Some(v) ==> v == spec_hex_val(c) && v < 16,
{
    let u = c as u32;
    if 48 <= u && u <= 57 {
        Some((u - 48) as u8)
    } else if 97 <= u && u <= 102 {
        Some((u - 97 + 10) as u8)
    } else if 65 <= u && u <= 70 {
        Some((u - 65 + 10) as u8)
    } else {
        None
    }
}

/// Decode a calldata string into its payload bytes.
///
/// Returns the denoted bytes exactly when the string is a well-formed
/// `0x`-prefixed even-length hex encoding; returns `None` otherwise.
pub fn decode_calldata(s: &str) -> (r: Option<Vec<u8>>)
    ensures
        r is Some <==> spec_wf_calldata(s@),
        r matches Some(b) ==> b@ == spec_calldata_bytes(s@),
{
    let n = s.unicode_len();
    if n < 2 {
        return None;
    }
    if s.get_char(0) != '0' || s.get_char(1) != 'x' {
        return None;
    }
    if (n - 2) % 2 != 0 {
        return None;
    }
    let mut out: Vec<u8> = Vec::new();
    let mut i: usize = 2;
    while i < n
        invariant
            2 <= i <= n == s@.len(),
            s@[0] == '0',
            s@[1] == 'x',
            (n - 2) % 2 == 0,
            (i - 2) % 2 == 0,
            forall|j: int| 2 <= j < i ==> spec_is_hex_digit(#[trigger] s@[j]),
            out@.len() == (i - 2) / 2,
            forall|k: int| 0 <= k < out@.len() ==> #[trigger] out@[k] == (spec_hex_val(
                s@[2 + 2 * k],
            ) * 16 + spec_hex_val(s@[2 + 2 * k + 1])) as u8,
        decreases n - i,
    {
        let hi = match hex_digit_val(s.get_char(i)) {
            Some(v) => v,
            None => {
                return None;
            },
        };
        let lo = match hex_digit_val(s.get_char(i + 1)) {
            Some(v) => v,
            None => {
                return None;
            },
        };
        out.push(hi * 16 + lo);
        i = i + 2;
    }
    proof {
        assert(out@ =~= spec_calldata_bytes(s@));
    }
    Some(out)
}

} // verus!
