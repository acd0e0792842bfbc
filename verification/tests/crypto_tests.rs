use hkdf::Hkdf;
use portal_lib::errors::PortalError;
use portal_lib::protocol::{
    Direction, EncryptedMessage, NonceSequence, PortalConfirmation, Protocol,
};
use portal_lib::Portal;
use sha2::{Digest, Sha256};

fn hkdf42(key: &[u8], info: &str) -> Vec<u8> {
    let h = Hkdf::<Sha256>::new(None, key);
    let mut okm = [0u8; 42];
    h.expand(info.as_bytes(), &mut okm).unwrap();
    okm.to_vec()
}

#[test]
fn init_hashes_the_identifier() {
    let portal = Portal::init(Direction::Sender, "id".to_string(), "test".to_string()).unwrap();
    let expected = hex::encode(Sha256::digest(b"id"));
    assert_eq!(portal.get_id(), &expected);
    // 64 lowercase hex characters of the SHA-256 digest.
    assert_eq!(portal.get_id().len(), 64);
}

#[test]
fn encrypt_then_decrypt_round_trip() {
    let key = vec![1u8; 32];
    let mut nseq = NonceSequence::new();
    let original: Vec<u8> = (0..200u8).collect();
    let mut data = original.clone();
    let header = EncryptedMessage::encrypt(&key, &mut nseq, &mut data).unwrap();
    assert_eq!(header.nonce.len(), 12);
    assert_eq!(header.tag.len(), 16);
    assert_eq!(header.len, original.len());
    // The ciphertext is not the plaintext.
    assert_ne!(data, original);
    // Decrypting with the frame's own nonce and tag restores the
    // plaintext exactly.
    let n = header.decrypt(&key, &mut data).unwrap();
    assert_eq!(n, original.len());
    assert_eq!(data, original);
}

#[test]
fn decrypt_rejects_flipped_ciphertext() {
    let key = vec![2u8; 32];
    let mut nseq = NonceSequence::new();
    let mut data = vec![0x55u8; 64];
    let header = EncryptedMessage::encrypt(&key, &mut nseq, &mut data).unwrap();
    // Flip one ciphertext bit before decryption.
    data[10] ^= 0x01;
    let tampered = data.clone();
    let err = header.decrypt(&key, &mut data).unwrap_err();
    assert_eq!(err, PortalError::DecryptError);
    // The buffer is left as it was handed in.
    assert_eq!(data, tampered);
}

#[test]
fn decrypt_rejects_flipped_tag() {
    let key = vec![3u8; 32];
    let mut nseq = NonceSequence::new();
    let mut data = vec![9u8; 32];
    let mut header = EncryptedMessage::encrypt(&key, &mut nseq, &mut data).unwrap();
    header.tag[0] ^= 0x80;
    let err = header.decrypt(&key, &mut data).unwrap_err();
    assert_eq!(err, PortalError::DecryptError);
}

#[test]
fn confirmation_values_match_hkdf() {
    let key = vec![7u8; 32];
    let id = "abc123".to_string();
    let (sender, receiver) = Protocol::confirmation_values(&id, &key).unwrap();
    assert_eq!(sender, hkdf42(&key, "abc123-senderinfo"));
    assert_eq!(receiver, hkdf42(&key, "abc123-receiverinfo"));
    assert_eq!(sender.len(), 42);
    assert_eq!(receiver.len(), 42);
}

#[test]
fn confirmation_accepts_the_peer_role_value() {
    let key = vec![8u8; 32];
    let id = "deadbeef".to_string();
    let (sender_confirm, receiver_confirm) = Protocol::confirmation_values(&id, &key).unwrap();
    // A sender expects the receiver's value, and the other way around.
    assert!(Protocol::check_peer_confirmation(
        &id,
        Direction::Sender,
        &key,
        &PortalConfirmation(receiver_confirm.clone())
    )
    .is_ok());
    assert!(Protocol::check_peer_confirmation(
        &id,
        Direction::Receiver,
        &key,
        &PortalConfirmation(sender_confirm.clone())
    )
    .is_ok());
    // Its own role's value does not confirm the peer.
    assert_eq!(
        Protocol::check_peer_confirmation(
            &id,
            Direction::Sender,
            &key,
            &PortalConfirmation(sender_confirm)
        )
        .unwrap_err(),
        PortalError::PeerKeyMismatch
    );
}

#[test]
fn confirmation_with_flipped_bit_is_rejected() {
    let key = vec![9u8; 32];
    let id = "feedface".to_string();
    let (_, mut receiver_confirm) = Protocol::confirmation_values(&id, &key).unwrap();
    receiver_confirm[17] ^= 0x04;
    assert_eq!(
        Protocol::check_peer_confirmation(
            &id,
            Direction::Sender,
            &key,
            &PortalConfirmation(receiver_confirm)
        )
        .unwrap_err(),
        PortalError::PeerKeyMismatch
    );
}
