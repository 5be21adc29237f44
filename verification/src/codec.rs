//! HMAC signing and verification of an opaque cookie value.
//!
//! The wire form of a signed value is the 44-byte base64 encoding of
//! `HMAC-SHA-256(key, value)` followed by the value itself, with no
//! separator. Verification first rejects anything shorter than the
//! digest prefix, then decodes the prefix and compares it against the
//! MAC recomputed under the primary key and then under each fallback key
//! in order.
use vstd::prelude::*;

use hmac::{Hmac, Mac, NewMac};
use sha2::Sha256;

use crate::b64::{digest_b64, digest_b64_dec, decode_digest, encode_digest, DIGEST_B64_LEN};
use crate::b64::lemma_digest_b64_round_trip;
use crate::bytes_eq;
use crate::keys::{SigningKey, SigningKeySet};

verus! {

/// Why a cookie value failed verification.
#[derive(Clone, Copy, Debug, PartialEq, Eq, Structural)]
pub enum VerifyError {
    /// Shorter than the digest prefix, or the prefix is not base64.
    Malformed,
    /// The digest matches no key of the set.
    SignatureMismatch,
}

/// The HMAC-SHA-256 digest of a message under a key. The digest is a
/// function of the key and the message alone.
pub uninterp spec fn hmac_sha256(key: Seq<u8>, msg: Seq<u8>) -> [u8; 32];

/// Relies on `hmac::Hmac<sha2::Sha256>`: the digest is 32 bytes and
/// depends on the key and message bytes alone; `new_from_slice` accepts
/// keys of any length and never fails.
#[verifier::external_body]
fn hmac_sha256_tag(key: &[u8], msg: &[u8]) -> (r: [u8; 32])
    ensures
        r == hmac_sha256(key@, msg@),
{
    let mut mac = <Hmac<Sha256> as NewMac>::new_from_slice(key)
        .expect("HMAC accepts keys of any length");
    mac.update(msg);
    let tag = mac.finalize().into_bytes();
    let mut out = [0u8; 32];
    out.copy_from_slice(&tag);
    out
}

/// The signed form of a value under a key: the base64 digest prefix
/// followed by the value.
pub open spec fn spec_sign(key: Seq<u8>, value: Seq<u8>) -> Seq<u8> {
    digest_b64(hmac_sha256(key, value)@) + value
}

/// What verification returns for a cookie value and an ordered key set:
/// too short or a bad prefix is `Malformed`; otherwise the raw remainder
/// is returned exactly when the decoded digest is its MAC under some key
/// of the set.
pub open spec fn spec_verify(c: Seq<u8>, keys: Seq<Seq<u8>>) -> Result<Seq<u8>, VerifyError> {
    if c.len() < 44 {
        Err(VerifyError::Malformed)
    } else {
        let raw = c.skip(44);
        match digest_b64_dec(c.subrange(0, 44)) {
            None => Err(VerifyError::Malformed),
            Some(dg) => if exists|i: int|
                0 <= i < keys.len() && hmac_sha256(#[trigger] keys[i], raw)@ == dg {
                Ok(raw)
            } else {
                Err(VerifyError::SignatureMismatch)
            },
        }
    }
}

/// Sign a value under one key.
pub fn sign_value(key: &SigningKey, value: &[u8]) -> (r: Vec<u8>)
    ensures
        r@ == spec_sign(key@, value@),
{
    broadcast use vstd::array::array_len_matches_n;

    let tag = hmac_sha256_tag(key.as_bytes(), value);
    let mut out = encode_digest(&tag);
    let mut i: usize = 0;
    while i < value.len()
        invariant
            0 <= i <= value@.len(),
            out@.len() == 44 + i,
            out@.subrange(0, 44) == digest_b64(tag@),
            forall|j: int| 0 <= j < i ==> out@[44 + j] == value@[j],
            tag == hmac_sha256(key@, value@),
        decreases value@.len() - i,
    {
        let prev = Ghost(out@);
        out.push(value[i]);
        proof {
            assert(out@.subrange(0, 44) =~= prev@.subrange(0, 44));
        }
        i = i + 1;
    }
    proof {
        assert(out@ =~= spec_sign(key@, value@));
    }
    out
}

/// Verify a signed value against every key of the set, primary first.
pub fn verify_value(cookie_value: &[u8], keys: &SigningKeySet) -> (r: Result<
    Vec<u8>,
    VerifyError,
>)
    requires
        keys.wf(),
    ensures
        match r {
            Ok(v) => spec_verify(cookie_value@, keys.key_seqs()) == Ok::<Seq<u8>, VerifyError>(
                v@,
            ),
            Err(e) => spec_verify(cookie_value@, keys.key_seqs()) == Err::<Seq<u8>, VerifyError>(
                e,
            ),
        },
{
    broadcast use vstd::array::array_len_matches_n;

    if cookie_value.len() < DIGEST_B64_LEN {
        return Err(VerifyError::Malformed);
    }
    let (digest_part, raw) = cookie_value.split_at(DIGEST_B64_LEN);
    proof {
        assert(digest_part@ =~= cookie_value@.subrange(0, 44));
        assert(raw@ =~= cookie_value@.skip(44));
    }
    let dg = match decode_digest(digest_part) {
        None => {
            return Err(VerifyError::Malformed);
        },
        Some(dg) => dg,
    };
    let n = keys.key_count();
    let mut i: usize = 0;
    while i < n
        invariant
            keys.wf(),
            0 <= i <= n,
            n == keys.key_seqs().len(),
            cookie_value@.len() >= 44,
            digest_b64_dec(cookie_value@.subrange(0, 44)) == Some(dg@),
            raw@ == cookie_value@.skip(44),
            forall|t: int|
                0 <= t < i ==> hmac_sha256(#[trigger] keys.key_seqs()[t], raw@)@ != dg@,
        decreases n - i,
    {
        let tag = hmac_sha256_tag(keys.key_bytes_at(i), raw);
        if bytes_eq(tag.as_slice(), dg.as_slice()) {
            proof {
                assert(hmac_sha256(keys.key_seqs()[i as int], raw@)@ == dg@);
                assert(spec_verify(cookie_value@, keys.key_seqs()) == Ok::<
                    Seq<u8>,
                    VerifyError,
                >(cookie_value@.skip(44)));
            }
            return Ok(vstd::slice::slice_to_vec(raw));
        }
        i = i + 1;
    }
    Err(VerifyError::SignatureMismatch)
}

/// Anything shorter than the digest prefix is rejected as malformed,
/// whatever the key set: the length check comes before any decoding.
pub proof fn lemma_short_value_malformed(c: Seq<u8>, keys: Seq<Seq<u8>>)
    requires
        c.len() < 44,
    ensures
        spec_verify(c, keys) == Err::<Seq<u8>, VerifyError>(VerifyError::Malformed),
{
}

/// Round trip: a value signed under any key of the set verifies under
/// that set and comes back unchanged. Applied with position 0 this is
/// the primary key; with a later position, a fallback key.
pub proof fn lemma_sign_verify_round_trip(keys: Seq<Seq<u8>>, i: int, value: Seq<u8>)
    requires
        0 <= i < keys.len(),
    ensures
        spec_verify(spec_sign(keys[i], value), keys) == Ok::<Seq<u8>, VerifyError>(value),
{
    broadcast use vstd::array::array_len_matches_n;

    let d = hmac_sha256(keys[i], value)@;
    assert(d.len() == 32);
    let c = spec_sign(keys[i], value);
    assert(digest_b64(d).len() == 44);
    assert(c.subrange(0, 44) =~= digest_b64(d));
    assert(c.skip(44) =~= value);
    lemma_digest_b64_round_trip(d);
    assert(hmac_sha256(keys[i], c.skip(44))@ == d);
}

/// Key rotation: a value signed under what is now a fallback key keeps
/// verifying, unchanged, as long as that key stays in the set.
pub proof fn lemma_fallback_key_verifies(keys: Seq<Seq<u8>>, i: int, value: Seq<u8>)
    requires
        1 <= i < keys.len(),
    ensures
        spec_verify(spec_sign(keys[i], value), keys) == Ok::<Seq<u8>, VerifyError>(value),
{
    lemma_sign_verify_round_trip(keys, i, value);
}

} // verus!
