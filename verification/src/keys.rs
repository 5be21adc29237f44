//! Signing keys and the key set used for rotation.
//!
//! A key is derived from a caller-supplied secret of at least 64 bytes;
//! its signing half is the first 32 bytes of the secret. A key set holds
//! one primary key, used for signing new cookie values, and an ordered
//! list of fallback keys, used only to verify values signed under a
//! previous key.
use vstd::prelude::*;

verus! {

/// Failure to build the middleware from its configuration.
#[derive(Clone, Copy, Debug, PartialEq, Eq, Structural)]
pub enum ConfigError {
    /// A signing secret was too short to derive a MAC key from.
    InvalidKeyLength,
}

/// Length a secret must have for a key to be derived from it.
pub const MIN_SECRET_LEN: usize = 64;

/// Length of the signing half kept from a secret.
pub const SIGNING_KEY_LEN: usize = 32;

/// One MAC key: the 32-byte signing half of a secret.
pub struct SigningKey {
    bytes: Vec<u8>,
}

impl View for SigningKey {
    type V = Seq<u8>;

    closed spec fn view(&self) -> Seq<u8> {
        self.bytes@
    }
}

impl SigningKey {
    /// A key is always exactly 32 bytes.
    pub closed spec fn wf(&self) -> bool {
        self.bytes@.len() == 32
    }

    /// Derive a key from a secret: the first 32 bytes of a secret of at
    /// least 64 bytes; shorter secrets are rejected.
    pub fn from_secret(secret: &[u8]) -> (r: Result<SigningKey, ConfigError>)
        ensures
            match r {
                Ok(k) => secret@.len() >= 64 && k.wf() && k@ == secret@.subrange(0, 32),
                Err(e) => secret@.len() < 64 && e == ConfigError::InvalidKeyLength,
            },
    {
        if secret.len() < MIN_SECRET_LEN {
            return Err(ConfigError::InvalidKeyLength);
        }
        let mut bytes: Vec<u8> = Vec::new();
        let mut i: usize = 0;
        while i < SIGNING_KEY_LEN
            invariant
                0 <= i <= 32,
                secret@.len() >= 64,
                bytes@.len() == i,
                forall|j: int| 0 <= j < i ==> bytes@[j] == secret@[j],
            decreases 32 - i,
        {
            bytes.push(secret[i]);
            i = i + 1;
        }
        let k = SigningKey { bytes };
        proof {
            assert(k@ =~= secret@.subrange(0, 32));
        }
        Ok(k)
    }

    /// The raw key bytes, handed to the MAC.
    pub fn as_bytes(&self) -> (r: &[u8])
        ensures
            r@ == self@,
    {
        self.bytes.as_slice()
    }
}

/// The primary signing key plus the ordered fallback keys.
pub struct SigningKeySet {
    primary: SigningKey,
    fallbacks: Vec<SigningKey>,
}

impl SigningKeySet {
    pub closed spec fn wf(&self) -> bool {
        &&& self.primary.wf()
        &&& forall|i: int| 0 <= i < self.fallbacks@.len() ==> (#[trigger] self.fallbacks@[i]).wf()
        &&& self.fallbacks@.len() < usize::MAX
    }

    /// The keys in verification order: the primary first, then the
    /// fallbacks in the order they were added.
    pub closed spec fn key_seqs(&self) -> Seq<Seq<u8>> {
        seq![self.primary@] + self.fallbacks@.map_values(|k: SigningKey| k@)
    }

    /// The key new cookie values are signed under.
    pub closed spec fn primary_key(&self) -> Seq<u8> {
        self.primary@
    }

    /// Derive the whole set; fails if any secret is shorter than 64
    /// bytes.
    pub fn from_secrets(secret: &[u8], fallback_secrets: &Vec<Vec<u8>>) -> (r: Result<
        SigningKeySet,
        ConfigError,
    >)
        requires
            fallback_secrets@.len() < usize::MAX,
        ensures
            match r {
                Ok(s) => {
                    &&& s.wf()
                    &&& secret@.len() >= 64
                    &&& forall|i: int|
                        0 <= i < fallback_secrets@.len() ==> (
                        #[trigger] fallback_secrets@[i])@.len() >= 64
                    &&& s.primary_key() == secret@.subrange(0, 32)
                    &&& s.key_seqs()[0] == s.primary_key()
                    &&& s.key_seqs().len() == 1 + fallback_secrets@.len()
                    &&& forall|i: int|
                        0 <= i < fallback_secrets@.len() ==> #[trigger] s.key_seqs()[i + 1]
                            == fallback_secrets@[i]@.subrange(0, 32)
                },
                Err(e) => {
                    &&& e == ConfigError::InvalidKeyLength
                    &&& (secret@.len() < 64 || exists|i: int|
                        0 <= i < fallback_secrets@.len() && (
                        #[trigger] fallback_secrets@[i])@.len() < 64)
                },
            },
    {
        let primary = match SigningKey::from_secret(secret) {
            Ok(k) => k,
            Err(e) => {
                return Err(e);
            },
        };
        let mut fallbacks: Vec<SigningKey> = Vec::new();
        let mut i: usize = 0;
        while i < fallback_secrets.len()
            invariant
                0 <= i <= fallback_secrets@.len(),
                fallbacks@.len() == i,
                forall|j: int| 0 <= j < i ==> (#[trigger] fallbacks@[j]).wf(),
                forall|j: int|
                    0 <= j < i ==> (#[trigger] fallbacks@[j])@ == fallback_secrets@[j]@.subrange(
                        0,
                        32,
                    ),
                forall|j: int|
                    0 <= j < i ==> (#[trigger] fallback_secrets@[j])@.len() >= 64,
            decreases fallback_secrets@.len() - i,
        {
            match SigningKey::from_secret(fallback_secrets[i].as_slice()) {
                Ok(k) => fallbacks.push(k),
                Err(e) => {
                    return Err(e);
                },
            }
            i = i + 1;
        }
        let s = SigningKeySet { primary, fallbacks };
        proof {
            assert forall|j: int|
                0 <= j < fallback_secrets@.len() implies #[trigger] s.key_seqs()[j + 1]
                == fallback_secrets@[j]@.subrange(0, 32) by {
                assert(s.key_seqs()[j + 1] == s.fallbacks@.map_values(|k: SigningKey| k@)[j]);
            }
        }
        Ok(s)
    }

    /// The primary key itself.
    pub fn primary(&self) -> (r: &SigningKey)
        ensures
            r@ == self.primary_key(),
    {
        &self.primary
    }

    /// How many keys will be tried on verification.
    pub fn key_count(&self) -> (r: usize)
        requires
            self.wf(),
        ensures
            r == self.key_seqs().len(),
    {
        1 + self.fallbacks.len()
    }

    /// Bytes of the key at a position of the verification order.
    pub fn key_bytes_at(&self, i: usize) -> (r: &[u8])
        requires
            0 <= i < self.key_seqs().len(),
        ensures
            r@ == self.key_seqs()[i as int],
    {
        if i == 0 {
            self.primary.as_bytes()
        } else {
            proof {
                assert(self.key_seqs()[i as int] == self.fallbacks@.map_values(
                    |k: SigningKey| k@,
                )[i - 1]);
            }
            self.fallbacks[i - 1].as_bytes()
        }
    }
}

} // verus!
