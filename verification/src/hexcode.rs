//! Hexadecimal decoding of ASCII bytes, with a ghost-level encoder and a
//! round-trip lemma. Decoding accepts both upper- and lower-case digits;
//! the ghost encoder produces lower case.

use vstd::prelude::*;

verus! {

/// ASCII byte that is a hexadecimal digit (`0-9`, `A-F`, `a-f`).
pub open spec fn is_hex_digit(b: u8) -> bool {
    (48 <= b <= 57) || (65 <= b <= 70) || (97 <= b <= 102)
}

/// Numeric value of a hexadecimal digit.
pub open spec fn hex_digit_value(b: u8) -> u8
    recommends
        is_hex_digit(b),
{
    if 48 <= b <= 57 {
        (b - 48) as u8
    } else if 65 <= b <= 70 {
        (b - 55) as u8
    } else {
        (b - 87) as u8
    }
}

pub open spec fn all_hex_digits(s: Seq<u8>) -> bool {
    forall|i: int| 0 <= i < s.len() ==> is_hex_digit(#[trigger] s[i])
}

/// The byte a pair of hexadecimal digits stands for, high digit first.
pub open spec fn spec_hex_byte(hi: u8, lo: u8) -> u8
    recommends
        is_hex_digit(hi),
        is_hex_digit(lo),
{
    (hex_digit_value(hi) as int * 16 + hex_digit_value(lo) as int) as u8
}

/// The bytes an even-length sequence of hexadecimal digits stands for.
pub open spec fn spec_hex_decode(s: Seq<u8>) -> Seq<u8>
    recommends
        s.len() % 2 == 0,
        all_hex_digits(s),
{
    Seq::new((s.len() / 2) as nat, |i: int| spec_hex_byte(s[2 * i], s[2 * i + 1]))
}

/// Lower-case hexadecimal digit for a value below 16.
pub open spec fn hex_char_of(v: u8) -> u8
    recommends
        v < 16,
{
    if v < 10 {
        (48 + v) as u8
    } else {
        (87 + v) as u8
    }
}

/// Lower-case hexadecimal encoding of a byte sequence, two digits per byte.
pub open spec fn spec_hex_encode(b: Seq<u8>) -> Seq<u8> {
    Seq::new(2 * b.len(), |i: int|
        if i % 2 == 0 {
            hex_char_of(b[i / 2] / 16)
        } else {
            hex_char_of(b[i / 2] % 16)
        })
}

fn hex_digit(b: u8) -> (r: Option<u8>)
    ensures
        r is Some <==> is_hex_digit(b),
        r matches Some(v) ==> v == hex_digit_value(b) && v < 16,
{
    if 48 <= b && b <= 57 {
        Some(b - 48)
    } else if 65 <= b && b <= 70 {
        Some(b - 55)
    } else if 97 <= b && b <= 102 {
        Some(b - 87)
    } else {
        None
    }
}

/// Decode a sequence of ASCII hexadecimal digits into bytes. Returns `None`
/// exactly when the input has odd length or holds a non-digit byte.
pub fn hex_decode(s: &[u8]) -> (r: Option<Vec<u8>>)
    ensures
        r is Some <==> (s@.len() % 2 == 0 && all_hex_digits(s@)),
        r matches Some(v) ==> v@ == spec_hex_decode(s@),
{
    let n = s.len();
    if n % 2 != 0 {
        return None;
    }
    let mut out: Vec<u8> = Vec::new();
    let mut i: usize = 0;
    while i < n
        invariant
            n == s@.len(),
            n % 2 == 0,
            i % 2 == 0,
            i <= n,
            all_hex_digits(s@.take(i as int)),
            out@.len() == i / 2,
            forall|j: int|
                0 <= j < out@.len() ==> out@[j] == spec_hex_byte(s@[2 * j], s@[2 * j + 1]),
        decreases n - i,
    {
        let hi = match hex_digit(s[i]) {
            Some(v) => v,
            None => {
                return None;
            },
        };
        let lo = match hex_digit(s[i + 1]) {
            Some(v) => v,
            None => {
                return None;
            },
        };
        out.push(hi * 16 + lo);
        i = i + 2;
        proof {
            assert forall|k: int| 0 <= k < i implies is_hex_digit(#[trigger] s@.take(i as int)[k]) by {
                if 0 <= k < i - 2 {
                    assert(s@.take((i - 2) as int)[k] == s@.take(i as int)[k]);
                }
            }
        }
    }
    proof {
        assert(s@.take(n as int) =~= s@);
        assert(out@ =~= spec_hex_decode(s@));
    }
    Some(out)
}

proof fn lemma_hex_digit_value_of_char(v: u8)
    requires
        v < 16,
    ensures
        is_hex_digit(hex_char_of(v)),
        hex_digit_value(hex_char_of(v)) == v,
{
}

/// Decoding inverts encoding: the lower-case hexadecimal encoding of any
/// byte sequence is an even-length string of hexadecimal digits, and
/// decoding it gives the original bytes back.
pub proof fn lemma_hex_round_trip(b: Seq<u8>)
    ensures
        spec_hex_encode(b).len() == 2 * b.len(),
        spec_hex_encode(b).len() % 2 == 0,
        all_hex_digits(spec_hex_encode(b)),
        spec_hex_decode(spec_hex_encode(b)) == b,
{
    let e = spec_hex_encode(b);
    assert forall|i: int| 0 <= i < e.len() implies is_hex_digit(#[trigger] e[i]) by {
        let v = if i % 2 == 0 {
            b[i / 2] / 16
        } else {
            b[i / 2] % 16
        };
        assert(v < 16);
        lemma_hex_digit_value_of_char(v);
    }
    assert forall|i: int| 0 <= i < b.len() implies spec_hex_decode(e)[i] == b[i] by {
        assert(e[2 * i] == hex_char_of(b[i] / 16));
        assert(e[2 * i + 1] == hex_char_of(b[i] % 16));
        lemma_hex_digit_value_of_char(b[i] / 16);
        lemma_hex_digit_value_of_char(b[i] % 16);
        assert(b[i] / 16 * 16 + b[i] % 16 == b[i]) by (nonlinear_arith);
    }
    assert(spec_hex_decode(e) =~= b);
}

} // verus!
