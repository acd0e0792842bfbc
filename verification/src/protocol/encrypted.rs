//! Encrypted frames and the per-session nonce sequence.
//!
//! Every frame sent after key derivation is protected by
//! ChaCha20-Poly1305. The nonce of each frame is drawn from a
//! [`NonceSequence`], which yields strictly increasing 96-bit values:
//! within one session no two frames ever carry the same nonce.

use vstd::prelude::*;
use vstd::arithmetic::power2::*;
use vstd::arithmetic::div_mod::*;
use crate::crypto::chacha_ct;
use crate::crypto::chacha_tag;
use crate::errors::PortalError;

verus! {

/// Number of bytes in a ChaCha20-Poly1305 nonce.
pub const NONCE_SIZE: usize = 12;

/// Number of bytes in a Poly1305 authentication tag.
pub const TAG_SIZE: usize = 16;

/// Number of distinct 96-bit nonces: 2^96.
pub const NONCE_SPACE: u128 = 0x1000000000000000000000000;

/// Frames at least this long cannot be sealed: the cipher's 32-bit
/// block counter would wrap.
pub const AEAD_LENGTH_LIMIT: u64 = 0x100000000;

/// Concrete values of the powers of two that the nonce layout uses.
proof fn lemma_nonce_pow2_values()
    ensures
        pow2(96) == NONCE_SPACE,
        pow2(88) == 0x10000000000000000000000,
        pow2(8) == 256,
{
    lemma2_to64();
    lemma_pow2_adds(64, 32);
    lemma_pow2_adds(64, 24);
}

/// The big-endian value of a byte string.
pub open spec fn be_val(s: Seq<u8>) -> nat
    decreases s.len(),
{
    if s.len() == 0 {
        0
    } else {
        be_val(s.drop_last()) * 256 + s.last() as nat
    }
}

/// The `n`-byte big-endian encoding of `v % 2^(8n)`.
pub open spec fn be_bytes(v: nat, n: nat) -> Seq<u8> {
    Seq::new(n, |i: int| (v / pow2((8 * (n - 1 - i)) as nat) % 256) as u8)
}

/// Big-endian encoding and evaluation invert each other.
pub proof fn lemma_be_val_of_be_bytes(v: nat, n: nat)
    ensures
        be_val(be_bytes(v, n)) == v % pow2(8 * n),
    decreases n,
{
    lemma_pow2_pos(8 * n);
    if n == 0 {
        lemma2_to64();
        assert(be_bytes(v, 0) =~= Seq::<u8>::empty());
        assert(v % pow2(0) == 0) by {
            assert(pow2(0) == 1);
        }
    } else {
        lemma2_to64();
        lemma_pow2_pos((8 * (n - 1)) as nat);
        let b = be_bytes(v, n);
        let high = be_bytes(v / 256, (n - 1) as nat);
        assert(b.drop_last() =~= high) by {
            assert forall|i: int| 0 <= i < n - 1 implies b.drop_last()[i] == high[i] by {
                lemma_pow2_pos((8 * (n - 2 - i)) as nat);
                lemma_pow2_adds(8, (8 * (n - 2 - i)) as nat);
                lemma_div_denominator(v as int, 256, pow2((8 * (n - 2 - i)) as nat) as int);
            }
        }
        assert(b.last() == v % 256) by {
            assert(pow2(0) == 1);
            lemma_div_basics(v as int);
        }
        lemma_be_val_of_be_bytes(v / 256, (n - 1) as nat);
        assert(be_val(b) == (v / 256 % pow2((8 * (n - 1)) as nat)) * 256 + v % 256);
        assert(v % pow2(8 * n) == 256 * ((v / 256) % pow2((8 * (n - 1)) as nat)) + v % 256) by {
            lemma_pow2_adds(8, (8 * (n - 1)) as nat);
            assert(pow2(8) == 256);
            lemma_mod_breakdown(v as int, 256, pow2((8 * (n - 1)) as nat) as int);
        }
    }
}

/// The nonce produced by the `k`-th frame of a session whose sequence
/// started at `start`.
pub open spec fn nonce_at(start: nat, k: nat) -> Seq<u8> {
    be_bytes(start + k, 12)
}

/// No two frames of one session carry the same nonce, and later frames
/// carry strictly larger nonces when compared as 96-bit big-endian
/// integers. Holds for every pair of frame indices `i < j` as long as
/// the session stays below 2^96 frames from its random start.
pub proof fn lemma_nonces_strictly_increase(start: nat, i: nat, j: nat)
    requires
        i < j,
        start + j < pow2(96),
    ensures
        be_val(nonce_at(start, i)) < be_val(nonce_at(start, j)),
        nonce_at(start, i) != nonce_at(start, j),
{
    lemma_be_val_of_be_bytes(start + i, 12);
    lemma_be_val_of_be_bytes(start + j, 12);
    lemma_small_mod(start + i, pow2(96));
    lemma_small_mod(start + j, pow2(96));
}

/// An abstraction around a nonce sequence. Safely ensures there is no
/// nonce re-use during a session with a single key.
///
/// The state is the 96-bit value of the next nonce; it starts at a
/// random value and advances by one for every frame.
pub struct NonceSequence {
    prefix: u128,
}

impl NonceSequence {
    /// The nonce sequence state is a 96-bit counter.
    pub closed spec fn wf(&self) -> bool {
        self.prefix < NONCE_SPACE
    }

    /// The value of the nonce the next frame will use.
    pub closed spec fn next_val(&self) -> nat {
        self.prefix as nat
    }

    /// Initialize the sequence at a random 96-bit value.
    pub fn new() -> (r: NonceSequence)
        ensures
            r.wf(),
    {
        let raw = crate::crypto::random_u128();
        let prefix = raw >> 32u128;
        proof {
            assert(raw >> 32u128 < 0x1000000000000000000000000u128) by (bit_vector);
        }
        NonceSequence { prefix }
    }

    /// Advance the sequence and return the nonce to use for the current
    /// frame: the 12-byte big-endian form of the counter.
    pub fn next_unique(&mut self) -> (r: Result<Vec<u8>, PortalError>)
        requires
            old(self).wf(),
        ensures
            final(self).wf(),
            r matches Ok(nonce) && nonce@ == be_bytes(old(self).next_val(), 12),
            final(self).next_val() == (old(self).next_val() + 1) % (NONCE_SPACE as nat),
    {
        let v = self.prefix;
        let mut out: Vec<u8> = Vec::new();
        // 2^88, the place value of the leading big-endian byte.
        let mut place: u128 = 0x10000000000000000000000;
        let mut i: usize = 0;
        proof {
            lemma_nonce_pow2_values();
        }
        while i < 12
            invariant
                i <= 12,
                out@.len() == i,
                i < 12 ==> place == pow2((8 * (11 - i)) as nat),
                forall|k: int| 0 <= k < i ==> out@[k] == be_bytes(v as nat, 12)[k],
            decreases 12 - i,
        {
            proof {
                lemma_pow2_pos((8 * (11 - i)) as nat);
            }
            let byte = ((v / place) % 256) as u8;
            proof {
                assert(byte == be_bytes(v as nat, 12)[i as int]);
            }
            out.push(byte);
            if i < 11 {
                proof {
                    lemma_nonce_pow2_values();
                    lemma_pow2_adds(8, (8 * (10 - i)) as nat);
                }
                place = place / 256;
                assert(place == pow2((8 * (10 - i)) as nat));
            }
            i = i + 1;
        }
        proof {
            assert(out@ =~= be_bytes(v as nat, 12));
        }
        if self.prefix == NONCE_SPACE - 1 {
            self.prefix = 0;
        } else {
            self.prefix = self.prefix + 1;
        }
        Ok(out)
    }
}

/// The plaintext state of one encrypted frame: the nonce it was sealed
/// with, its authentication tag, and the length of the ciphertext that
/// follows the header on the wire.
#[derive(Debug, PartialEq, Eq)]
pub struct EncryptedMessage {
    /// Storage for the 12-byte ChaCha20-Poly1305 nonce.
    pub nonce: Vec<u8>,
    /// Storage for the 16-byte Poly1305 tag.
    pub tag: Vec<u8>,
    /// Length of the follow-on ciphertext. The data is not owned
    /// directly, to prevent copies.
    pub len: usize,
}

impl Default for EncryptedMessage {
    /// An all-zero frame header with no follow-on data.
    fn default() -> (r: EncryptedMessage)
        ensures
            r.wf(),
            r.nonce@ =~= seq![0u8; 12],
            r.tag@ =~= seq![0u8; 16],
            r.len == 0,
    {
        EncryptedMessage { nonce: vec![0u8; 12], tag: vec![0u8; 16], len: 0 }
    }
}

impl Default for NonceSequence {
    /// A fresh sequence at a random 96-bit value.
    fn default() -> (r: NonceSequence)
        ensures
            r.wf(),
    {
        NonceSequence::new()
    }
}

impl EncryptedMessage {
    /// Nonce and tag have their fixed wire sizes.
    pub open spec fn wf(&self) -> bool {
        self.nonce@.len() == NONCE_SIZE && self.tag@.len() == TAG_SIZE
    }

    /// Seal `data` in place: draw the next unique nonce from the
    /// session's sequence, encrypt the buffer with ChaCha20-Poly1305 and
    /// empty associated data, and return the header holding the nonce,
    /// the tag and the ciphertext length.
    pub fn encrypt(key: &Vec<u8>, nseq: &mut NonceSequence, data: &mut Vec<u8>) -> (r: Result<
        EncryptedMessage,
        PortalError,
    >)
        requires
            key@.len() == 32,
            old(nseq).wf(),
            old(data)@.len() < 0x100000000,
        ensures
            final(nseq).wf(),
            final(nseq).next_val() == (old(nseq).next_val() + 1) % (NONCE_SPACE as nat),
            r is Ok,
            r matches Ok(m) ==> {
                &&& m.wf()
                &&& m.nonce@ == be_bytes(old(nseq).next_val(), 12)
                &&& final(data)@ == chacha_ct(key@, m.nonce@, old(data)@)
                &&& m.tag@ == chacha_tag(key@, m.nonce@, old(data)@)
                &&& m.len == old(data)@.len()
                &&& final(data)@.len() == old(data)@.len()
            },
    {
        let nonce = match nseq.next_unique() {
            Ok(n) => n,
            Err(e) => { return Err(e) },
        };
        let len = data.len();
        let tag = match crate::crypto::aead_encrypt(key, &nonce, data) {
            Ok(t) => t,
            Err(e) => { return Err(e) },
        };
        Ok(EncryptedMessage { nonce, tag, len })
    }

    /// Open `data` in place with this header's own nonce and tag.
    ///
    /// The round-trip clause states that a buffer holding exactly the
    /// ciphertext that `encrypt` produced from some plaintext under the
    /// same key and this frame's nonce decrypts back to that plaintext.
    /// A frame whose tag does not authenticate is rejected with
    /// `DecryptError` and the buffer is left unchanged.
    pub fn decrypt(&self, key: &Vec<u8>, data: &mut Vec<u8>) -> (r: Result<usize, PortalError>)
        requires
            self.wf(),
            key@.len() == 32,
            old(data)@.len() < 0x100000000,
        ensures
            r matches Ok(n) ==> {
                &&& old(data)@ == chacha_ct(key@, self.nonce@, final(data)@)
                &&& self.tag@ == chacha_tag(key@, self.nonce@, final(data)@)
                &&& n == final(data)@.len()
                &&& final(data)@.len() == old(data)@.len()
            },
            forall|pt: Seq<u8>|
                old(data)@ == chacha_ct(key@, self.nonce@, pt) && self.tag@ == chacha_tag(
                    key@,
                    self.nonce@,
                    pt,
                ) ==> r is Ok && final(data)@ == pt,
            r is Err ==> r == Err::<usize, PortalError>(PortalError::DecryptError)
                && final(data)@ == old(data)@,
    {
        match crate::crypto::aead_decrypt(key, &self.nonce, &self.tag, data) {
            Ok(()) => Ok(data.len()),
            Err(_) => Err(PortalError::DecryptError),
        }
    }
}

} // verus!
