//! Signed, tamper-evident session cookies: an HMAC-over-base64 signature
//! codec with key rotation, cookie attribute construction, and the
//! per-request session lifecycle decisions, together with a small
//! HTTPS-redirect host rewriting helper.
use vstd::prelude::*;
use vstd::string::StringSliceAdditionalSpecFns;

pub mod b64;
pub mod codec;
pub mod cookie_out;
pub mod force_https;
pub mod handler;
pub mod keys;
pub mod session;

verus! {

/// Byte-wise equality of two slices, used wherever the library compares
/// opaque values such as MAC digests or data keys.
pub fn bytes_eq(a: &[u8], b: &[u8]) -> (r: bool)
    ensures
        r <==> a@ =~= b@,
{
    if a.len() != b.len() {
        return false;
    }
    let mut i: usize = 0;
    while i < a.len()
        invariant
            0 <= i <= a@.len(),
            a@.len() == b@.len(),
            forall|j: int| 0 <= j < i ==> a@[j] == b@[j],
        decreases a@.len() - i,
    {
        if a[i] != b[i] {
            return false;
        }
        i = i + 1;
    }
    assert(a@ =~= b@);
    true
}

/// Equality of two string slices, decided byte-wise; two strings are
/// equal exactly when their UTF-8 encodings are.
pub fn str_eq(a: &str, b: &str) -> (r: bool)
    ensures
        r <==> a@ == b@,
{
    let r = bytes_eq(a.as_bytes(), b.as_bytes());
    proof {
        if a.spec_bytes() =~= b.spec_bytes() {
            vstd::utf8::encode_utf8_decode_utf8(a@);
            vstd::utf8::encode_utf8_decode_utf8(b@);
        }
    }
    r
}

} // verus!
