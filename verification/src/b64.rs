//! Standard base64 (with `=` padding), stated exactly as spec functions
//! over byte sequences, with the decode-of-encode round trip proved.
//! The executable encoder and decoder are the `base64` crate's `STANDARD`
//! engine, trusted to agree with these spec functions.

use vstd::prelude::*;

verus! {

use vstd::arithmetic::div_mod::{lemma_fundamental_div_mod, lemma_fundamental_div_mod_converse};

/// The byte of the standard base64 alphabet for a 6-bit value.
pub open spec fn b64_char(v: int) -> u8 {
    if 0 <= v < 26 {
        (v + 65) as u8  // 'A'..='Z'
    } else if 26 <= v < 52 {
        (v + 71) as u8  // 'a'..='z'
    } else if 52 <= v < 62 {
        (v - 4) as u8  // '0'..='9'
    } else if v == 62 {
        43u8  // '+'
    } else if v == 63 {
        47u8  // '/'
    } else {
        0u8
    }
}

/// The 6-bit value of an alphabet byte, or -1 for a byte outside the
/// alphabet (the padding byte `=` included).
pub open spec fn b64_val(b: u8) -> int {
    if 65 <= b <= 90 {
        b - 65
    } else if 97 <= b <= 122 {
        b - 97 + 26
    } else if 48 <= b <= 57 {
        b - 48 + 52
    } else if b == 43 {
        62
    } else if b == 47 {
        63
    } else {
        -1
    }
}

/// Canonical base64 encoding of a byte sequence, `=`-padded.
pub open spec fn b64_encode(s: Seq<u8>) -> Seq<u8>
    decreases s.len(),
{
    if s.len() == 0 {
        Seq::<u8>::empty()
    } else if s.len() == 1 {
        let b0 = s[0] as int;
        seq![b64_char(b0 / 4), b64_char((b0 % 4) * 16), 61u8, 61u8]
    } else if s.len() == 2 {
        let b0 = s[0] as int;
        let b1 = s[1] as int;
        seq![
            b64_char(b0 / 4),
            b64_char((b0 % 4) * 16 + b1 / 16),
            b64_char((b1 % 16) * 4),
            61u8,
        ]
    } else {
        let b0 = s[0] as int;
        let b1 = s[1] as int;
        let b2 = s[2] as int;
        seq![
            b64_char(b0 / 4),
            b64_char((b0 % 4) * 16 + b1 / 16),
            b64_char((b1 % 16) * 4 + b2 / 64),
            b64_char(b2 % 64),
        ] + b64_encode(s.subrange(3, s.len() as int))
    }
}

/// The three bytes carried by a full group of four 6-bit values.
pub open spec fn b64_group(v0: int, v1: int, v2: int, v3: int) -> Seq<u8> {
    seq![
        (v0 * 4 + v1 / 16) as u8,
        ((v1 % 16) * 16 + v2 / 4) as u8,
        ((v2 % 4) * 64 + v3) as u8,
    ]
}

/// Decoding of a final group of four bytes, which alone may carry `=`
/// padding; non-canonical padding (nonzero trailing bits) is rejected.
pub open spec fn b64_decode_tail(s: Seq<u8>) -> Option<Seq<u8>>
    recommends
        s.len() == 4,
{
    let v0 = b64_val(s[0]);
    let v1 = b64_val(s[1]);
    let v2 = b64_val(s[2]);
    let v3 = b64_val(s[3]);
    if s[3] == 61 {
        if s[2] == 61 {
            if v0 >= 0 && v1 >= 0 && v1 % 16 == 0 {
                Some(seq![(v0 * 4 + v1 / 16) as u8])
            } else {
                None
            }
        } else {
            if v0 >= 0 && v1 >= 0 && v2 >= 0 && v2 % 4 == 0 {
                Some(seq![(v0 * 4 + v1 / 16) as u8, ((v1 % 16) * 16 + v2 / 4) as u8])
            } else {
                None
            }
        }
    } else {
        if v0 >= 0 && v1 >= 0 && v2 >= 0 && v3 >= 0 {
            Some(b64_group(v0, v1, v2, v3))
        } else {
            None
        }
    }
}

/// Standard base64 decoding with required canonical padding: `Some`
/// exactly on sequences of the form `b64_encode(b)`, and then the bytes
/// `b` themselves.
pub open spec fn b64_decode(s: Seq<u8>) -> Option<Seq<u8>>
    decreases s.len(),
{
    if s.len() == 0 {
        Some(Seq::<u8>::empty())
    } else if s.len() % 4 != 0 {
        None
    } else if s.len() == 4 {
        b64_decode_tail(s)
    } else {
        let v0 = b64_val(s[0]);
        let v1 = b64_val(s[1]);
        let v2 = b64_val(s[2]);
        let v3 = b64_val(s[3]);
        if v0 >= 0 && v1 >= 0 && v2 >= 0 && v3 >= 0 {
            match b64_decode(s.subrange(4, s.len() as int)) {
                Some(rest) => Some(b64_group(v0, v1, v2, v3) + rest),
                None => None,
            }
        } else {
            None
        }
    }
}

/// The alphabet map and the value map are mutually inverse, and no
/// alphabet byte is the padding byte `=`.
pub proof fn lemma_b64_char_val(v: int)
    requires
        0 <= v < 64,
    ensures
        b64_val(b64_char(v)) == v,
        b64_char(v) != 61,
{
}

/// An encoding's length is a positive multiple of four for nonempty
/// input, and zero only for empty input.
pub proof fn lemma_b64_encode_len(s: Seq<u8>)
    ensures
        b64_encode(s).len() % 4 == 0,
        s.len() > 0 ==> b64_encode(s).len() >= 4,
        s.len() == 0 ==> b64_encode(s).len() == 0,
    decreases s.len(),
{
    if s.len() >= 3 {
        let rest = s.subrange(3, s.len() as int);
        lemma_b64_encode_len(rest);
        let r = b64_encode(rest).len() as int;
        lemma_fundamental_div_mod(r, 4);
        lemma_fundamental_div_mod_converse(4 + r, 4, 1 + r / 4, 0);
    }
}

/// Splitting a value `a * d + r` with `0 <= r < d` back into quotient
/// and remainder.
proof fn lemma_split(a: int, r: int, d: int)
    requires
        d > 0,
        0 <= r < d,
        0 <= a,
    ensures
        (a * d + r) / d == a,
        (a * d + r) % d == r,
{
    lemma_fundamental_div_mod_converse(a * d + r, d, a, r);
}

/// The four 6-bit values of a full group determine the three bytes.
proof fn lemma_group_arith(b0: int, b1: int, b2: int)
    requires
        0 <= b0 < 256,
        0 <= b1 < 256,
        0 <= b2 < 256,
    ensures
        ({
            let v0 = b0 / 4;
            let v1 = (b0 % 4) * 16 + b1 / 16;
            let v2 = (b1 % 16) * 4 + b2 / 64;
            let v3 = b2 % 64;
            &&& 0 <= v0 < 64
            &&& 0 <= v1 < 64
            &&& 0 <= v2 < 64
            &&& 0 <= v3 < 64
            &&& v0 * 4 + v1 / 16 == b0
            &&& (v1 % 16) * 16 + v2 / 4 == b1
            &&& (v2 % 4) * 64 + v3 == b2
        }),
{
    lemma_fundamental_div_mod(b0, 4);
    lemma_fundamental_div_mod(b1, 16);
    lemma_fundamental_div_mod(b2, 64);
    lemma_split(b0 % 4, b1 / 16, 16);
    lemma_split(b1 % 16, b2 / 64, 4);
}

/// Decoding inverts encoding: every byte sequence comes back intact.
pub proof fn lemma_b64_round_trip(s: Seq<u8>)
    ensures
        b64_decode(b64_encode(s)) == Some(s),
    decreases s.len(),
{
    let e = b64_encode(s);
    if s.len() == 0 {
        assert(s =~= Seq::<u8>::empty());
    } else if s.len() == 1 {
        let b0 = s[0] as int;
        lemma_fundamental_div_mod(b0, 4);
        lemma_split(b0 % 4, 0, 16);
        lemma_b64_char_val(b0 / 4);
        lemma_b64_char_val((b0 % 4) * 16);
        assert(b64_decode(e).unwrap() =~= s);
    } else if s.len() == 2 {
        let b0 = s[0] as int;
        let b1 = s[1] as int;
        lemma_fundamental_div_mod(b0, 4);
        lemma_fundamental_div_mod(b1, 16);
        lemma_split(b0 % 4, b1 / 16, 16);
        lemma_split(b1 % 16, 0, 4);
        lemma_b64_char_val(b0 / 4);
        lemma_b64_char_val((b0 % 4) * 16 + b1 / 16);
        lemma_b64_char_val((b1 % 16) * 4);
        assert(b64_decode(e).unwrap() =~= s);
    } else {
        let b0 = s[0] as int;
        let b1 = s[1] as int;
        let b2 = s[2] as int;
        let v0 = b0 / 4;
        let v1 = (b0 % 4) * 16 + b1 / 16;
        let v2 = (b1 % 16) * 4 + b2 / 64;
        let v3 = b2 % 64;
        lemma_group_arith(b0, b1, b2);
        lemma_b64_char_val(v0);
        lemma_b64_char_val(v1);
        lemma_b64_char_val(v2);
        lemma_b64_char_val(v3);
        let rest = s.subrange(3, s.len() as int);
        lemma_b64_encode_len(rest);
        lemma_b64_round_trip(rest);
        if s.len() == 3 {
            assert(b64_encode(rest) =~= Seq::<u8>::empty());
            assert(e.len() == 4);
            assert(b64_decode(e).unwrap() =~= s);
        } else {
            assert(e.len() >= 8);
            let r = b64_encode(rest).len() as int;
            lemma_fundamental_div_mod(r, 4);
            lemma_fundamental_div_mod_converse(4 + r, 4, 1 + r / 4, 0);
            assert(e.subrange(4, e.len() as int) =~= b64_encode(rest));
            assert(b64_decode(e).unwrap() =~= s);
        }
    }
}

/// Relies on the `base64` crate's `STANDARD` engine (`Engine::encode`):
/// standard alphabet, canonical `=` padding, result a function of the
/// input bytes alone.
#[verifier::external_body]
pub(crate) fn b64_encode_bytes(data: &[u8]) -> (r: Vec<u8>)
    ensures
        r@ == b64_encode(data@),
{
    base64::Engine::encode(&base64::engine::general_purpose::STANDARD, data).into_bytes()
}

/// Relies on the `base64` crate's `STANDARD` engine (`Engine::decode`):
/// it accepts exactly the canonically padded encodings (padding required,
/// trailing bits must be zero) and returns the bytes that were encoded.
#[verifier::external_body]
pub(crate) fn b64_decode_bytes(data: &[u8]) -> (r: Option<Vec<u8>>)
    ensures
        r is Some <==> b64_decode(data@) is Some,
        r is Some ==> r.unwrap()@ == b64_decode(data@).unwrap(),
{
    base64::Engine::decode(&base64::engine::general_purpose::STANDARD, data).ok()
}

} // verus!
