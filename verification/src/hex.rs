//! Lower-case hexadecimal encoding and decoding of byte strings.
//!
//! Key identifiers and signatures travel through the system as hex text;
//! both directions are specified exactly so that contracts elsewhere can
//! speak of the bytes behind a hex string.

use vstd::prelude::*;
use crate::text::str_chars;
use crate::text::string_push;

verus! {

/// The sixteen lower-case hex digits, indexed by value.
pub const HEX_CHARS: [char; 16] = [
    '0', '1', '2', '3', '4', '5', '6', '7', '8', '9', 'a', 'b', 'c', 'd', 'e', 'f',
];

/// Whether `c` is a hex digit (either case).
pub open spec fn is_hex_digit(c: char) -> bool {
    (48 <= c as u32 && c as u32 <= 57)  // '0'..='9'
    || (97 <= c as u32 && c as u32 <= 102)  // 'a'..='f'
    || (65 <= c as u32 && c as u32 <= 70)  // 'A'..='F'
}

/// The value of the hex digit `c`; meaningful only when `is_hex_digit(c)`.
pub open spec fn hex_digit_val(c: char) -> u8 {
    if 48 <= c as u32 && c as u32 <= 57 {
        (c as u32 - 48) as u8
    } else if 97 <= c as u32 && c as u32 <= 102 {
        (c as u32 - 87) as u8
    } else {
        (c as u32 - 55) as u8
    }
}

/// A well-formed hex string: even length, hex digits throughout.
pub open spec fn is_hex_seq(s: Seq<char>) -> bool {
    s.len() % 2 == 0 && (forall|i: int| 0 <= i < s.len() ==> is_hex_digit(#[trigger] s[i]))
}

/// The value of the hex pair `hi`,`lo`; meaningful only for hex digits.
pub open spec fn hex_pair_val(hi: char, lo: char) -> u8 {
    (hex_digit_val(hi) * 16 + hex_digit_val(lo)) as u8
}

/// The bytes a hex string stands for; meaningful only when `is_hex_seq(s)`.
pub open spec fn hex_decoded(s: Seq<char>) -> Seq<u8> {
    Seq::new((s.len() / 2) as nat, |k: int| hex_pair_val(s[2 * k], s[2 * k + 1]))
}

/// The lower-case hex text for the bytes `b`.
pub open spec fn hex_encoded(b: Seq<u8>) -> Seq<char> {
    Seq::new((2 * b.len()) as nat, |k: int|
        if k % 2 == 0 {
            HEX_CHARS@[(b[k / 2] / 16) as int]
        } else {
            HEX_CHARS@[(b[k / 2] % 16) as int]
        })
}

/// The value of one hex digit character, or `None` if `c` is no hex digit.
fn digit_val(c: char) -> (r: Option<u8>)
    ensures
        r is Some <==> is_hex_digit(c),
        r matches Some(v) ==> v == hex_digit_val(c),
{
    let n = c as u32;
    if 48 <= n && n <= 57 {
        Some((n - 48) as u8)
    } else if 97 <= n && n <= 102 {
        Some((n - 87) as u8)
    } else if 65 <= n && n <= 70 {
        Some((n - 55) as u8)
    } else {
        None
    }
}

/// Decodes a hex string to bytes; `None` exactly on malformed input
/// (odd length or a non-hex character).
pub fn decode_hex(s: &str) -> (r: Option<Vec<u8>>)
    ensures
        r is Some <==> is_hex_seq(s@),
        r matches Some(v) ==> v@ == hex_decoded(s@),
{
    let cs = str_chars(s);
    if cs.len() % 2 != 0 {
        return None;
    }
    let mut out: Vec<u8> = Vec::new();
    let mut i: usize = 0;
    while i + 1 < cs.len()
        invariant
            cs@ == s@,
            cs.len() % 2 == 0,
            i % 2 == 0,
            i <= cs.len(),
            forall|j: int| 0 <= j < i ==> is_hex_digit(#[trigger] s@[j]),
            out@ == hex_decoded(s@).take(i as int / 2),
        decreases cs.len() - i,
    {
        let hi = match digit_val(cs[i]) {
            Some(v) => v,
            None => {
                return None;
            },
        };
        let lo = match digit_val(cs[i + 1]) {
            Some(v) => v,
            None => {
                return None;
            },
        };
        out.push(hi * 16 + lo);
        proof {
            assert(out@ =~= hex_decoded(s@).take(i as int / 2 + 1));
        }
        i = i + 2;
    }
    proof {
        assert(out@ =~= hex_decoded(s@));
    }
    Some(out)
}

/// Encodes bytes as lower-case hex text.
pub fn encode_hex(b: &[u8]) -> (r: String)
    ensures
        r@ == hex_encoded(b@),
{
    let mut out = String::new();
    let len = b.len();
    for i in 0..len
        invariant
            len == b@.len(),
            out@ == hex_encoded(b@).take(2 * i as int),
    {
        let byte = b[i];
        string_push(&mut out, HEX_CHARS[(byte / 16) as usize]);
        string_push(&mut out, HEX_CHARS[(byte % 16) as usize]);
        proof {
            assert(out@ =~= hex_encoded(b@).take(2 * (i as int + 1)));
        }
    }
    proof {
        assert(out@ =~= hex_encoded(b@));
    }
    out
}

/// Encoding then decoding gives the bytes back: the hex text of `b`
/// is well formed and stands for exactly `b`.
pub proof fn lemma_hex_round_trip(b: Seq<u8>)
    ensures
        is_hex_seq(hex_encoded(b)),
        hex_decoded(hex_encoded(b)) == b,
{
    assert forall|i: int| 0 <= i < hex_encoded(b).len() implies is_hex_digit(
        #[trigger] hex_encoded(b)[i],
    ) by {
        let v = if i % 2 == 0 {
            (b[i / 2] / 16) as int
        } else {
            (b[i / 2] % 16) as int
        };
        assert(0 <= v < 16);
        assert(is_hex_digit(HEX_CHARS@[v]));
    }
    assert forall|k: int| 0 <= k < b.len() implies hex_decoded(hex_encoded(b))[k] == b[k] by {
        let hi = HEX_CHARS@[(b[k] / 16) as int];
        let lo = HEX_CHARS@[(b[k] % 16) as int];
        assert(hex_encoded(b)[2 * k] == hi);
        assert(hex_encoded(b)[2 * k + 1] == lo);
        assert(hex_digit_val(hi) == b[k] / 16);
        assert(hex_digit_val(lo) == b[k] % 16);
    }
    assert(hex_decoded(hex_encoded(b)) =~= b);
}

} // verus!
