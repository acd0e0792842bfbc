//! Trusted bindings to the cryptographic crates.
//!
//! Every function here is a thin wrapper around one call into an
//! outside cryptography crate. Verus believes the stated contracts;
//! they are the trust boundary of the library. Results that have no
//! short mathematical description (digests, keystreams, derived keys)
//! are named by uninterpreted spec functions, so that the verified
//! callers can relate calls to each other without restating the
//! algorithms.

use vstd::prelude::*;
use chacha20poly1305::AeadInOut;
use chacha20poly1305::KeyInit;
use sha2::Digest;
use crate::errors::PortalError;

verus! {

/// Relies on rand::random: a uniformly random value. Nothing can be
/// promised of the result.
#[verifier::external_body]
pub(crate) fn random_u128() -> u128 {
    rand::random::<u128>()
}

/// The ciphertext that ChaCha20 produces for a given key, nonce and
/// plaintext: the plaintext combined with a keystream that depends on
/// the key and nonce alone.
pub uninterp spec fn chacha_ct(key: Seq<u8>, nonce: Seq<u8>, pt: Seq<u8>) -> Seq<u8>;

/// The Poly1305 tag over the ciphertext of a given key, nonce and
/// plaintext, with empty associated data.
pub uninterp spec fn chacha_tag(key: Seq<u8>, nonce: Seq<u8>, pt: Seq<u8>) -> Seq<u8>;

/// Relies on chacha20poly1305::ChaChaPoly1305::encrypt_inout_detached:
/// the keystream is determined by key and nonce alone, so ciphertext and
/// tag are functions of (key, nonce, plaintext); the ciphertext keeps
/// the plaintext's length and the tag is 16 bytes. The only failure is a
/// message of 2^32 or more blocks, which the length bound excludes.
#[verifier::external_body]
pub(crate) fn aead_encrypt(key: &Vec<u8>, nonce: &Vec<u8>, data: &mut Vec<u8>) -> (r: Result<
    Vec<u8>,
    PortalError,
>)
    requires
        key@.len() == 32,
        nonce@.len() == 12,
        old(data)@.len() < 0x100000000,
    ensures
        r is Ok,
        r matches Ok(tag) ==> final(data)@ == chacha_ct(key@, nonce@, old(data)@)
            && tag@ == chacha_tag(key@, nonce@, old(data)@)
            && final(data)@.len() == old(data)@.len() && tag@.len() == 16,
{
    let key_arr = chacha20poly1305::Key::try_from(key.as_slice()).or(Err(PortalError::EncryptError))?;
    let nonce_arr = chacha20poly1305::Nonce::try_from(nonce.as_slice()).or(Err(PortalError::EncryptError))?;
    let cipher = chacha20poly1305::ChaCha20Poly1305::new(&key_arr);
    match cipher.encrypt_inout_detached(&nonce_arr, b"", data.as_mut_slice().into()) {
        Ok(tag) => Ok(tag.to_vec()),
        Err(_) => Err(PortalError::EncryptError),
    }
}

/// Relies on chacha20poly1305::ChaChaPoly1305::decrypt_inout_detached:
/// it recomputes the Poly1305 tag over the ciphertext, compares in
/// constant time, and only then applies the keystream. Applying the
/// keystream twice is the identity, so decryption inverts encryption
/// exactly; a buffer whose tag does not verify is left unchanged.
#[verifier::external_body]
pub(crate) fn aead_decrypt(key: &Vec<u8>, nonce: &Vec<u8>, tag: &Vec<u8>, data: &mut Vec<u8>) -> (r:
    Result<(), PortalError>)
    requires
        key@.len() == 32,
        nonce@.len() == 12,
        tag@.len() == 16,
        old(data)@.len() < 0x100000000,
    ensures
        r is Ok ==> old(data)@ == chacha_ct(key@, nonce@, final(data)@) && tag@ == chacha_tag(
            key@,
            nonce@,
            final(data)@,
        ) && final(data)@.len() == old(data)@.len(),
        forall|pt: Seq<u8>|
            old(data)@ == chacha_ct(key@, nonce@, pt) && tag@ == chacha_tag(key@, nonce@, pt)
                ==> r is Ok && final(data)@ == pt,
        r is Err ==> final(data)@ == old(data)@,
{
    let key_arr = chacha20poly1305::Key::try_from(key.as_slice()).or(Err(PortalError::DecryptError))?;
    let nonce_arr = chacha20poly1305::Nonce::try_from(nonce.as_slice()).or(Err(PortalError::DecryptError))?;
    let tag_arr = chacha20poly1305::Tag::try_from(tag.as_slice()).or(Err(PortalError::DecryptError))?;
    let cipher = chacha20poly1305::ChaCha20Poly1305::new(&key_arr);
    match cipher.decrypt_inout_detached(&nonce_arr, b"", data.as_mut_slice().into(), &tag_arr) {
        Ok(()) => Ok(()),
        Err(_) => Err(PortalError::DecryptError),
    }
}

/// The SHA-256 digest of a byte string.
pub uninterp spec fn sha256_of(data: Seq<u8>) -> Seq<u8>;

/// Relies on sha2::Sha256: the digest is a function of the input bytes
/// alone, and is 32 bytes long.
#[verifier::external_body]
pub(crate) fn sha256(data: &Vec<u8>) -> (r: Vec<u8>)
    ensures
        r@ == sha256_of(data@),
        r@.len() == 32,
{
    let mut h = sha2::Sha256::new();
    h.update(data.as_slice());
    Digest::finalize(h).to_vec()
}

/// The lowercase hexadecimal digit for a nibble value.
pub open spec fn hex_digit(v: u8) -> char {
    if v == 0 {
        '0'
    } else if v == 1 {
        '1'
    } else if v == 2 {
        '2'
    } else if v == 3 {
        '3'
    } else if v == 4 {
        '4'
    } else if v == 5 {
        '5'
    } else if v == 6 {
        '6'
    } else if v == 7 {
        '7'
    } else if v == 8 {
        '8'
    } else if v == 9 {
        '9'
    } else if v == 10 {
        'a'
    } else if v == 11 {
        'b'
    } else if v == 12 {
        'c'
    } else if v == 13 {
        'd'
    } else if v == 14 {
        'e'
    } else {
        'f'
    }
}

/// The lowercase hexadecimal rendering of a byte string: two digits per
/// byte, high nibble first.
pub open spec fn hex_of(b: Seq<u8>) -> Seq<char> {
    Seq::new(
        b.len() * 2,
        |i: int|
            if i % 2 == 0 {
                hex_digit((b[i / 2] / 16) as u8)
            } else {
                hex_digit((b[i / 2] % 16) as u8)
            },
    )
}

/// Relies on hex::encode: each byte becomes two lowercase hexadecimal
/// digits, high nibble first.
#[verifier::external_body]
pub(crate) fn hex_encode(b: &Vec<u8>) -> (r: String)
    ensures
        r@ == hex_of(b@),
{
    hex::encode(b.as_slice())
}

/// The 42-byte HKDF-SHA256 expansion of the given key material with the
/// given info string and an empty salt.
pub uninterp spec fn hkdf42_of(ikm: Seq<u8>, info: Seq<u8>) -> Seq<u8>;

/// Relies on hkdf::Hkdf with SHA-256 and empty salt: the output is a
/// function of the key material and info string alone. Expanding to 42
/// bytes stays far below the RFC 5869 bound of 255 hash blocks, so the
/// expansion itself cannot fail.
#[verifier::external_body]
pub(crate) fn hkdf_expand42(ikm: &Vec<u8>, info: &Vec<u8>) -> (r: Result<Vec<u8>, PortalError>)
    ensures
        r is Ok,
        r matches Ok(v) ==> v@ == hkdf42_of(ikm@, info@) && v@.len() == 42,
{
    let h = hkdf::Hkdf::<sha2::Sha256>::new(None, ikm.as_slice());
    let mut okm = vec![0u8; 42];
    match h.expand(info.as_slice(), &mut okm) {
        Ok(()) => Ok(okm),
        Err(_) => Err(PortalError::BadMsg),
    }
}

/// Opaque holder for the spake2 PAKE state. Declaring
/// spake2::Spake2 itself is not possible here because its generic
/// parameter carries the outside trait bound spake2::Group, so the
/// consumed-exactly-once state is carried through this opaque struct
/// instead; nothing of it is visible to the proofs.
#[verifier::external_body]
pub struct PakeState {
    inner: spake2::Spake2<spake2::Ed25519Group>,
}

/// Relies on spake2::Spake2::start_symmetric: begins the symmetric PAKE
/// over Ed25519 with a fresh random scalar. The outbound message is one
/// side byte plus a 32-byte compressed group element; nothing more can
/// be promised of a randomized result.
#[verifier::external_body]
pub(crate) fn spake2_start(password: &Vec<u8>, identity: &Vec<u8>) -> (r: (PakeState, Vec<u8>))
    ensures
        r.1@.len() == 33,
{
    let (state, msg) = spake2::Spake2::<spake2::Ed25519Group>::start_symmetric(
        &spake2::Password::new(password.as_slice()),
        &spake2::Identity::new(identity.as_slice()),
    );
    (PakeState { inner: state }, msg)
}

/// Relies on spake2::Spake2::finish: consumes the state, rejects a peer
/// message that is not 33 bytes or not a canonical group element, and on
/// success returns the 32-byte SHA-256 transcript hash as the session
/// key.
#[verifier::external_body]
pub(crate) fn spake2_finish(state: PakeState, peer: &Vec<u8>) -> (r: Result<Vec<u8>, PortalError>)
    ensures
        r matches Ok(k) ==> k@.len() == 32,
        peer@.len() != 33 ==> r is Err,
{
    match state.inner.finish(peer.as_slice()) {
        Ok(k) => Ok(k),
        Err(_) => Err(PortalError::BadMsg),
    }
}

} // verus!
