//! The fixed-length base64 digest prefix of a signed cookie value.
//!
//! A 32-byte MAC digest travels at the front of the signed value as 44
//! bytes of standard base64 (one `=` of padding). The prefix length is
//! structural, not delimited, so both directions of the encoding are
//! implemented and verified here: `encode_digest` produces the canonical
//! 44-byte form, `decode_digest` accepts exactly the canonical forms, and
//! `lemma_digest_b64_round_trip` shows that decoding inverts encoding.
use vstd::prelude::*;

verus! {

/// Encoded length of a 32-byte digest under standard base64.
pub const DIGEST_B64_LEN: usize = 44;

/// The base64 alphabet: the ASCII byte of a six-bit value.
pub open spec fn b64_char(s: u8) -> u8 {
    if s < 26 {
        (s + 65) as u8  // 'A'..='Z'
    } else if s < 52 {
        (s + 71) as u8  // 'a'..='z'
    } else if s < 62 {
        (s - 4) as u8  // '0'..='9'
    } else if s == 62 {
        43u8  // '+'
    } else {
        47u8  // '/'
    }
}

/// Inverse of the alphabet: the six-bit value of an ASCII byte, if any.
pub open spec fn b64_val(c: u8) -> Option<u8> {
    if 65 <= c && c <= 90 {
        Some((c - 65) as u8)
    } else if 97 <= c && c <= 122 {
        Some((c - 71) as u8)
    } else if 48 <= c && c <= 57 {
        Some((c + 4) as u8)
    } else if c == 43 {
        Some(62u8)
    } else if c == 47 {
        Some(63u8)
    } else {
        None
    }
}

/// The j-th six-bit group of a 32-byte digest, of the 43 groups that
/// carry data. The final group, at position 42, holds the low four bits
/// of the last byte followed by two zero bits.
pub open spec fn sextet(d: Seq<u8>, j: int) -> u8
    recommends
        d.len() == 32,
        0 <= j < 43,
{
    let g: int = j / 4;
    if j == 42 {
        (d[31] & 15u8) << 2u8
    } else if j % 4 == 0 {
        d[3 * g] >> 2u8
    } else if j % 4 == 1 {
        ((d[3 * g] & 3u8) << 4u8) | (d[3 * g + 1] >> 4u8)
    } else if j % 4 == 2 {
        ((d[3 * g + 1] & 15u8) << 2u8) | (d[3 * g + 2] >> 6u8)
    } else {
        d[3 * g + 2] & 63u8
    }
}

/// The 44-byte canonical base64 encoding of a 32-byte digest.
pub open spec fn digest_b64(d: Seq<u8>) -> Seq<u8>
    recommends
        d.len() == 32,
{
    Seq::new(44, |j: int| if j == 43 {
        61u8  // '='
    } else {
        b64_char(sextet(d, j))
    })
}

/// The i-th byte of the digest reconstructed from a 44-byte encoding.
pub open spec fn dec_byte(s: Seq<u8>, i: int) -> u8
    recommends
        s.len() == 44,
        0 <= i < 32,
{
    let g: int = i / 3;
    if i % 3 == 0 {
        (b64_val(s[4 * g]).unwrap() << 2u8) | (b64_val(s[4 * g + 1]).unwrap() >> 4u8)
    } else if i % 3 == 1 {
        ((b64_val(s[4 * g + 1]).unwrap() & 15u8) << 4u8) | (b64_val(s[4 * g + 2]).unwrap()
            >> 2u8)
    } else {
        ((b64_val(s[4 * g + 2]).unwrap() & 3u8) << 6u8) | b64_val(s[4 * g + 3]).unwrap()
    }
}

/// Decoding of a digest prefix: `Some` exactly on the canonical 44-byte
/// encodings (valid alphabet, `=` at the end, zero trailing bits).
pub open spec fn digest_b64_dec(s: Seq<u8>) -> Option<Seq<u8>> {
    if s.len() == 44 && s[43] == 61u8 && (forall|j: int|
        0 <= j < 43 ==> b64_val(#[trigger] s[j]) is Some) && (b64_val(s[42]).unwrap() & 3u8)
        == 0u8 {
        Some(Seq::new(32, |i: int| dec_byte(s, i)))
    } else {
        None
    }
}

fn enc_char(s: u8) -> (r: u8)
    requires
        s < 64,
    ensures
        r == b64_char(s),
{
    if s < 26 {
        s + 65
    } else if s < 52 {
        s + 71
    } else if s < 62 {
        s - 4
    } else if s == 62 {
        43
    } else {
        47
    }
}

fn dec_char(c: u8) -> (r: Option<u8>)
    ensures
        r == b64_val(c),
{
    if 65 <= c && c <= 90 {
        Some(c - 65)
    } else if 97 <= c && c <= 122 {
        Some(c - 71)
    } else if 48 <= c && c <= 57 {
        Some(c + 4)
    } else if c == 43 {
        Some(62)
    } else if c == 47 {
        Some(63)
    } else {
        None
    }
}

/// Encode a 32-byte digest into its canonical 44-byte base64 form.
pub fn encode_digest(d: &[u8; 32]) -> (r: Vec<u8>)
    ensures
        r@ == digest_b64(d@),
        r@.len() == 44,
{
    broadcast use vstd::array::array_len_matches_n;

    let mut out: Vec<u8> = Vec::new();
    let mut g: usize = 0;
    while g < 10
        invariant
            0 <= g <= 10,
            d@.len() == 32,
            out@.len() == 4 * g,
            forall|j: int| 0 <= j < 4 * g ==> out@[j] == digest_b64(d@)[j],
        decreases 10 - g,
    {
        let b0 = d[3 * g];
        let b1 = d[3 * g + 1];
        let b2 = d[3 * g + 2];
        assert(b0 >> 2u8 < 64) by (bit_vector);
        assert(((b0 & 3u8) << 4u8) | (b1 >> 4u8) < 64) by (bit_vector);
        assert(((b1 & 15u8) << 2u8) | (b2 >> 6u8) < 64) by (bit_vector);
        assert((b2 & 63u8) < 64) by (bit_vector);
        proof {
            assert((4 * g as int) / 4 == g as int);
            assert((4 * g as int + 1) / 4 == g as int && (4 * g as int + 1) % 4 == 1);
            assert((4 * g as int + 2) / 4 == g as int && (4 * g as int + 2) % 4 == 2);
            assert((4 * g as int + 3) / 4 == g as int && (4 * g as int + 3) % 4 == 3);
        }
        out.push(enc_char(b0 >> 2u8));
        out.push(enc_char(((b0 & 3u8) << 4u8) | (b1 >> 4u8)));
        out.push(enc_char(((b1 & 15u8) << 2u8) | (b2 >> 6u8)));
        out.push(enc_char(b2 & 63u8));
        g = g + 1;
    }
    let b0 = d[30];
    let b1 = d[31];
    assert(b0 >> 2u8 < 64) by (bit_vector);
    assert(((b0 & 3u8) << 4u8) | (b1 >> 4u8) < 64) by (bit_vector);
    assert((b1 & 15u8) << 2u8 < 64) by (bit_vector);
    out.push(enc_char(b0 >> 2u8));
    out.push(enc_char(((b0 & 3u8) << 4u8) | (b1 >> 4u8)));
    out.push(enc_char((b1 & 15u8) << 2u8));
    out.push(61);
    proof {
        assert(out@ =~= digest_b64(d@));
    }
    out
}

/// Decode a digest prefix; `None` on anything but a canonical encoding.
pub fn decode_digest(s: &[u8]) -> (r: Option<Vec<u8>>)
    ensures
        match r {
            Some(v) => digest_b64_dec(s@) == Some(v@) && v@.len() == 32,
            None => digest_b64_dec(s@) is None,
        },
{
    if s.len() != 44 {
        return None;
    }
    if s[43] != 61 {
        return None;
    }
    let mut vals: Vec<u8> = Vec::new();
    let mut j: usize = 0;
    while j < 43
        invariant
            0 <= j <= 43,
            s@.len() == 44,
            vals@.len() == j,
            forall|t: int| 0 <= t < j ==> b64_val(#[trigger] s@[t]) == Some(vals@[t]),
        decreases 43 - j,
    {
        match dec_char(s[j]) {
            Some(v) => vals.push(v),
            None => {
                return None;
            },
        }
        j = j + 1;
    }
    if vals[42] & 3 != 0 {
        return None;
    }
    let mut out: Vec<u8> = Vec::new();
    let mut i: usize = 0;
    while i < 32
        invariant
            0 <= i <= 32,
            s@.len() == 44,
            vals@.len() == 43,
            forall|t: int| 0 <= t < 43 ==> b64_val(#[trigger] s@[t]) == Some(vals@[t]),
            out@.len() == i,
            forall|t: int| 0 <= t < i ==> out@[t] == dec_byte(s@, t),
        decreases 32 - i,
    {
        let g: usize = i / 3;
        let k: usize = i % 3;
        let byte: u8 = if k == 0 {
            (vals[4 * g] << 2u8) | (vals[4 * g + 1] >> 4u8)
        } else if k == 1 {
            ((vals[4 * g + 1] & 15u8) << 4u8) | (vals[4 * g + 2] >> 2u8)
        } else {
            ((vals[4 * g + 2] & 3u8) << 6u8) | vals[4 * g + 3]
        };
        proof {
            assert(i as int / 3 == g as int && i as int % 3 == k as int);
        }
        out.push(byte);
        i = i + 1;
    }
    proof {
        assert(b64_val(s@[42]).unwrap() == vals@[42]);
        assert(digest_b64_dec(s@) == Some(out@)) by {
            assert(Seq::new(32, |t: int| dec_byte(s@, t)) =~= out@);
        }
    }
    Some(out)
}

/// Every data-carrying six-bit group is below 64.
pub proof fn lemma_sextet_bound(d: Seq<u8>, j: int)
    requires
        d.len() == 32,
        0 <= j < 43,
    ensures
        sextet(d, j) < 64,
{
    let g: int = j / 4;
    if j == 42 {
        let x = d[31];
        assert((x & 15u8) << 2u8 < 64) by (bit_vector);
    } else if j % 4 == 0 {
        let x = d[3 * g];
        assert(x >> 2u8 < 64) by (bit_vector);
    } else if j % 4 == 1 {
        let x = d[3 * g];
        let y = d[3 * g + 1];
        assert(((x & 3u8) << 4u8) | (y >> 4u8) < 64) by (bit_vector);
    } else if j % 4 == 2 {
        let x = d[3 * g + 1];
        let y = d[3 * g + 2];
        assert(((x & 15u8) << 2u8) | (y >> 6u8) < 64) by (bit_vector);
    } else {
        let x = d[3 * g + 2];
        assert((x & 63u8) < 64) by (bit_vector);
    }
}

/// The alphabet maps are mutually inverse on six-bit values.
pub proof fn lemma_char_val(s: u8)
    requires
        s < 64,
    ensures
        b64_val(b64_char(s)) == Some(s),
{
}

proof fn lemma_dec_byte(d: Seq<u8>, i: int)
    requires
        d.len() == 32,
        0 <= i < 32,
    ensures
        dec_byte(digest_b64(d), i) == d[i],
{
    let s = digest_b64(d);
    let g: int = i / 3;
    assert((4 * g) / 4 == g && (4 * g) % 4 == 0);
    assert((4 * g + 1) / 4 == g && (4 * g + 1) % 4 == 1);
    assert((4 * g + 2) / 4 == g && (4 * g + 2) % 4 == 2);
    assert((4 * g + 3) / 4 == g && (4 * g + 3) % 4 == 3);
    if i % 3 == 0 {
        let a = d[3 * g];
        let b = d[3 * g + 1];
        lemma_sextet_bound(d, 4 * g);
        lemma_sextet_bound(d, 4 * g + 1);
        lemma_char_val(sextet(d, 4 * g));
        lemma_char_val(sextet(d, 4 * g + 1));
        assert(((a >> 2u8) << 2u8) | ((((a & 3u8) << 4u8) | (b >> 4u8)) >> 4u8) == a)
            by (bit_vector);
    } else if i == 31 {
        let a = d[30];
        let b = d[31];
        lemma_sextet_bound(d, 41);
        lemma_sextet_bound(d, 42);
        lemma_char_val(sextet(d, 41));
        lemma_char_val(sextet(d, 42));
        assert(((((a & 3u8) << 4u8) | (b >> 4u8)) & 15u8) << 4u8 | (((b & 15u8) << 2u8) >> 2u8)
            == b) by (bit_vector);
    } else if i % 3 == 1 {
        let a = d[3 * g];
        let b = d[3 * g + 1];
        let c = d[3 * g + 2];
        lemma_sextet_bound(d, 4 * g + 1);
        lemma_sextet_bound(d, 4 * g + 2);
        lemma_char_val(sextet(d, 4 * g + 1));
        lemma_char_val(sextet(d, 4 * g + 2));
        assert(((((a & 3u8) << 4u8) | (b >> 4u8)) & 15u8) << 4u8 | ((((b & 15u8) << 2u8) | (c
            >> 6u8)) >> 2u8) == b) by (bit_vector);
    } else {
        let b = d[3 * g + 1];
        let c = d[3 * g + 2];
        lemma_sextet_bound(d, 4 * g + 2);
        lemma_sextet_bound(d, 4 * g + 3);
        lemma_char_val(sextet(d, 4 * g + 2));
        lemma_char_val(sextet(d, 4 * g + 3));
        assert(((((b & 15u8) << 2u8) | (c >> 6u8)) & 3u8) << 6u8 | (c & 63u8) == c)
            by (bit_vector);
    }
}

/// Decoding inverts encoding: the canonical form of a digest decodes to
/// that digest.
pub proof fn lemma_digest_b64_round_trip(d: Seq<u8>)
    requires
        d.len() == 32,
    ensures
        digest_b64_dec(digest_b64(d)) == Some(d),
{
    let s = digest_b64(d);
    assert(s.len() == 44);
    assert(s[43] == 61u8);
    assert forall|j: int| 0 <= j < 43 implies b64_val(#[trigger] s[j]) is Some by {
        lemma_sextet_bound(d, j);
        lemma_char_val(sextet(d, j));
    }
    let x = d[31];
    assert(((x & 15u8) << 2u8) & 3u8 == 0u8) by (bit_vector);
    lemma_sextet_bound(d, 42);
    lemma_char_val(sextet(d, 42));
    assert(b64_val(s[42]).unwrap() & 3u8 == 0u8);
    assert forall|i: int| 0 <= i < 32 implies #[trigger] dec_byte(s, i) == d[i] by {
        lemma_dec_byte(d, i);
    }
    assert(Seq::new(32, |i: int| dec_byte(s, i)) =~= d);
}

} // verus!
