//! The key-slot store: a fixed table of optional HOTP key records.

use vstd::prelude::*;

verus! {

use crate::text::spec_pow10;

/// Number of digits an HOTP token is rendered with.
#[derive(Copy, Clone, Debug, PartialEq, Eq, Structural)]
pub enum KeyDigits {
    Six,
    Seven,
    Eight,
}

impl KeyDigits {
    /// The digit count this variant stands for: 6, 7 or 8.
    pub open spec fn spec_count(self) -> int {
        match self {
            KeyDigits::Six => 6,
            KeyDigits::Seven => 7,
            KeyDigits::Eight => 8,
        }
    }

    pub fn count(&self) -> (r: usize)
        ensures
            r == self.spec_count(),
    {
        match self {
            KeyDigits::Six => 6,
            KeyDigits::Seven => 7,
            KeyDigits::Eight => 8,
        }
    }

    /// The modulus `10^digits` that limits a token to this many digits.
    pub fn modulus(&self) -> (r: u32)
        ensures
            r == spec_pow10(self.spec_count() as nat),
            1 <= r,
    {
        proof {
            reveal_with_fuel(spec_pow10, 9);
        }
        match self {
            KeyDigits::Six => 1_000_000,
            KeyDigits::Seven => 10_000_000,
            KeyDigits::Eight => 100_000_000,
        }
    }
}

/// Greatest key length, in bytes, that a slot can hold.
pub const MAX_KEY_BYTES: usize = 64;

/// One provisioned HOTP key slot.
#[derive(Copy, Clone)]
pub struct KeyState {
    /// Key length in bytes; only the first `len` bytes of `enc_key` are significant.
    pub len: usize,
    /// Encrypted key, to be decrypted through the decryption oracle.
    pub enc_key: [u8; 64],
    /// Initialization vector for the decryption oracle.
    pub iv: [u8; 16],
    /// Digits of this HOTP key (determines output encoding).
    pub digits: KeyDigits,
    /// Moving factor: the counter the next token is computed from.
    pub moving_factor: u64,
}

impl KeyState {
    /// A slot record is well formed when its key length is non-zero and fits
    /// the fixed key container.
    pub open spec fn wf(self) -> bool {
        1 <= self.len <= MAX_KEY_BYTES
    }

    /// The significant bytes of the stored (encrypted) key.
    pub open spec fn spec_key_bytes(self) -> Seq<u8> {
        self.enc_key@.subrange(0, self.len as int)
    }

    pub fn new(len: usize, enc_key: [u8; 64], iv: [u8; 16], digits: KeyDigits, moving_factor: u64) -> (r: KeyState)
        requires
            1 <= len <= MAX_KEY_BYTES,
        ensures
            r == (KeyState { len, enc_key, iv, digits, moving_factor }),
            r.wf(),
    {
        KeyState { len, enc_key, iv, digits, moving_factor }
    }
}

/// The moving factor after a successful generation: incremented by one,
/// wrapping silently on 64-bit overflow.
pub open spec fn spec_next_moving_factor(mf: u64) -> u64 {
    if mf == u64::MAX {
        0
    } else {
        (mf + 1) as u64
    }
}

/// Fixed-capacity ordered table of optional key slots.
pub struct KeyStore {
    pub slots: Vec<Option<KeyState>>,
}

/// Number of key slots a freshly constructed store has.
pub const KEY_SLOTS: usize = 4;

impl KeyStore {
    /// Every provisioned slot holds a well-formed record.
    pub open spec fn wf(self) -> bool {
        forall|i: int|
            0 <= i < self.slots@.len() ==> (#[trigger] self.slots@[i] matches Some(k) ==> k.wf())
    }

    /// A store with `KEY_SLOTS` empty slots.
    pub fn new() -> (r: KeyStore)
        ensures
            r.slots@.len() == KEY_SLOTS,
            forall|i: int| 0 <= i < r.slots@.len() ==> r.slots@[i] is None,
            r.wf(),
    {
        let mut slots: Vec<Option<KeyState>> = Vec::new();
        slots.push(None);
        slots.push(None);
        slots.push(None);
        slots.push(None);
        KeyStore { slots }
    }

    /// Provisions (or replaces) one slot with a key record.
    pub fn program_slot(&mut self, idx: usize, key: KeyState)
        requires
            old(self).wf(),
            idx < old(self).slots@.len(),
            key.wf(),
        ensures
            final(self).slots@ == old(self).slots@.update(idx as int, Some(key)),
            final(self).wf(),
    {
        self.slots.set(idx, Some(key));
    }
}

} // verus!
