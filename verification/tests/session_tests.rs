use hkdf::Hkdf;
use portal_lib::errors::PortalError;
use portal_lib::protocol::{
    ConnectMessage, Direction, EncryptedMessage, PortalConfirmation, PortalKeyExchange,
    PortalMessage, Protocol,
};
use portal_lib::stream::Stream;
use portal_lib::Portal;
use sha2::{Digest, Sha256};
use spake2::{Ed25519Group, Identity, Password, Spake2};
use std::cell::RefCell;
use std::collections::VecDeque;
use std::rc::Rc;

/// An in-memory byte stream: what one side writes the other reads.
struct ChannelStream {
    incoming: Rc<RefCell<VecDeque<u8>>>,
    outgoing: Rc<RefCell<VecDeque<u8>>>,
}

impl Stream for ChannelStream {
    fn read_exact_bytes(&mut self, n: usize) -> Result<Vec<u8>, PortalError> {
        let mut q = self.incoming.borrow_mut();
        if q.len() < n {
            return Err(PortalError::IOError);
        }
        let mut out = Vec::with_capacity(n);
        for _ in 0..n {
            out.push(q.pop_front().unwrap());
        }
        Ok(out)
    }

    fn write_all_bytes(&mut self, data: &[u8]) -> Result<(), PortalError> {
        let mut q = self.outgoing.borrow_mut();
        for b in data {
            q.push_back(*b);
        }
        Ok(())
    }
}

fn duplex() -> (ChannelStream, ChannelStream) {
    let a = Rc::new(RefCell::new(VecDeque::new()));
    let b = Rc::new(RefCell::new(VecDeque::new()));
    (
        ChannelStream {
            incoming: Rc::clone(&a),
            outgoing: Rc::clone(&b),
        },
        ChannelStream {
            incoming: b,
            outgoing: a,
        },
    )
}

/// Start a scripted peer: the raw PAKE state and its outbound payload,
/// built from the same pass-phrase and identifier derivation the
/// library uses.
fn scripted_peer(id: &str, pass: &str) -> (Spake2<Ed25519Group>, Vec<u8>) {
    let digest = Sha256::digest(id.as_bytes()).to_vec();
    Spake2::<Ed25519Group>::start_symmetric(
        &Password::new(pass.as_bytes()),
        &Identity::new(&digest),
    )
}

fn confirm_value(key: &[u8], hex_id: &str, role: &str) -> Vec<u8> {
    let info = format!("{}-{}", hex_id, role);
    let h = Hkdf::<Sha256>::new(None, key);
    let mut okm = [0u8; 42];
    h.expand(info.as_bytes(), &mut okm).unwrap();
    okm.to_vec()
}

fn send_msg(remote: &mut ChannelStream, msg: &PortalMessage) {
    let bytes = msg.serialize();
    remote.write_all_bytes(&bytes).unwrap();
}

#[test]
fn test_connect() {
    let pass = "test".to_string();
    let receiver = Portal::init(Direction::Receiver, "id".to_string(), pass).unwrap();
    let pass = "test".to_string();
    let sender = Portal::init(Direction::Sender, "id".to_string(), pass).unwrap();

    // Sender side: script the receiver's first two messages.
    let (mut sstream, mut sremote) = duplex();
    send_msg(
        &mut sremote,
        &PortalMessage::Connect(ConnectMessage {
            id: receiver.get_id().clone(),
            direction: Direction::Receiver,
        }),
    );
    send_msg(
        &mut sremote,
        &PortalMessage::KeyExchange(PortalKeyExchange(receiver.get_exchange().0.clone())),
    );
    let sender_got = Protocol::connect(
        &mut sstream,
        sender.get_id(),
        sender.get_direction(),
        PortalKeyExchange(sender.get_exchange().0.clone()),
    )
    .unwrap();
    assert_eq!(sender_got, *receiver.get_exchange());

    // Receiver side: script the sender's first two messages.
    let (mut rstream, mut rremote) = duplex();
    send_msg(
        &mut rremote,
        &PortalMessage::Connect(ConnectMessage {
            id: sender.get_id().clone(),
            direction: Direction::Sender,
        }),
    );
    send_msg(
        &mut rremote,
        &PortalMessage::KeyExchange(PortalKeyExchange(sender.get_exchange().0.clone())),
    );
    let receiver_got = Protocol::connect(
        &mut rstream,
        receiver.get_id(),
        receiver.get_direction(),
        PortalKeyExchange(receiver.get_exchange().0.clone()),
    )
    .unwrap();
    assert_eq!(receiver_got, *sender.get_exchange());
}

/// Drive one library-side handshake against a scripted peer and return
/// the library's portal and the peer's independently derived key.
fn handshake_against_peer(
    our_direction: Direction,
    our_pass: &str,
    peer_pass: &str,
) -> (Portal, Result<(), PortalError>, Vec<u8>) {
    let mut portal =
        Portal::init(our_direction, "id".to_string(), our_pass.to_string()).unwrap();
    let hex_id = portal.get_id().clone();
    let peer_direction = match our_direction {
        Direction::Sender => Direction::Receiver,
        Direction::Receiver => Direction::Sender,
    };
    let peer_role = match peer_direction {
        Direction::Sender => "senderinfo",
        Direction::Receiver => "receiverinfo",
    };
    let (peer_state, peer_msg) = scripted_peer("id", peer_pass);
    let peer_key = peer_state.finish(&portal.get_exchange().0).unwrap();
    let peer_confirm = confirm_value(&peer_key, &hex_id, peer_role);

    let (mut stream, mut remote) = duplex();
    send_msg(
        &mut remote,
        &PortalMessage::Connect(ConnectMessage {
            id: hex_id.clone(),
            direction: peer_direction,
        }),
    );
    send_msg(
        &mut remote,
        &PortalMessage::KeyExchange(PortalKeyExchange(peer_msg)),
    );
    send_msg(
        &mut remote,
        &PortalMessage::Confirm(PortalConfirmation(peer_confirm)),
    );
    let result = portal.handshake(&mut stream);

    // What the portal wrote: its connect, key exchange, confirmation.
    match PortalMessage::recv(&mut remote).unwrap() {
        PortalMessage::Connect(c) => {
            assert_eq!(c.id, hex_id);
            assert_eq!(c.direction, our_direction);
        }
        _ => panic!("expected a connect message"),
    }
    match PortalMessage::recv(&mut remote).unwrap() {
        PortalMessage::KeyExchange(x) => assert_eq!(x.0.len(), 33),
        _ => panic!("expected a key exchange message"),
    }
    if result.is_ok() {
        let our_role = match our_direction {
            Direction::Sender => "senderinfo",
            Direction::Receiver => "receiverinfo",
        };
        match PortalMessage::recv(&mut remote).unwrap() {
            PortalMessage::Confirm(c) => {
                assert_eq!(c.0, confirm_value(&peer_key, &hex_id, our_role));
            }
            _ => panic!("expected a confirm message"),
        }
    }
    (portal, result, peer_key)
}

#[test]
fn handshake_suceeds() {
    let (portal, result, peer_key) =
        handshake_against_peer(Direction::Receiver, "test", "test");
    result.unwrap();
    assert_eq!(portal.get_key().as_ref().unwrap(), &peer_key);
}

#[test]
fn test_key_derivation() {
    // Both ends of a successful handshake hold the same 32-byte key.
    let (portal, result, peer_key) = handshake_against_peer(Direction::Sender, "test", "test");
    result.unwrap();
    assert_eq!(peer_key.len(), 32);
    assert_eq!(portal.get_key().as_ref().unwrap(), &peer_key);
}

#[test]
fn test_key_confirmation() {
    // The confirmation value the library sends is the HKDF value of
    // its own role, which the scripted peer checks above; the peer's
    // value is accepted in turn.
    let (portal, result, peer_key) =
        handshake_against_peer(Direction::Receiver, "test", "test");
    result.unwrap();
    assert_eq!(portal.get_key().as_ref().unwrap(), &peer_key);
}

#[test]
fn handshake_passphrase_mismatch() {
    // Pass-phrases differ: both sides derive different keys, and the
    // confirmation round fails with PeerKeyMismatch.
    let (portal, result, peer_key) =
        handshake_against_peer(Direction::Sender, "test", "wrong");
    assert_eq!(result.unwrap_err(), PortalError::PeerKeyMismatch);
    assert!(portal.get_key().is_none());
    assert_eq!(peer_key.len(), 32);
}

#[test]
fn test_connect_badmsg() {
    let id = "id".to_string();
    let (mut stream, mut remote) = duplex();

    // Script a connect message, then a second connect message where
    // the peer expects a key exchange: connect() returns BadMsg.
    let message = PortalMessage::Connect(ConnectMessage {
        id: id.clone(),
        direction: Direction::Sender,
    });
    send_msg(&mut remote, &message);
    send_msg(&mut remote, &message);

    let result = Protocol::connect(
        &mut stream,
        &id,
        Direction::Receiver,
        PortalKeyExchange(vec![0u8; 33]),
    )
    .unwrap_err();
    assert_eq!(result, PortalError::BadMsg);
}

#[test]
fn test_confirm_peer_badmsg() {
    let id = "id".to_string();
    let (mut stream, mut remote) = duplex();

    // Script a connect message where the peer expects a confirmation:
    // confirm_peer() returns BadMsg.
    send_msg(
        &mut remote,
        &PortalMessage::Connect(ConnectMessage {
            id: id.clone(),
            direction: Direction::Sender,
        }),
    );

    let result =
        Protocol::confirm_peer(&mut stream, &id, Direction::Receiver, &vec![0u8; 32])
            .unwrap_err();
    assert_eq!(result, PortalError::BadMsg);
}

#[test]
fn test_confirm_peer_unexpected_hkdf() {
    let id = "id".to_string();
    let (mut stream, mut remote) = duplex();

    // Script a well-formed confirmation that does not match what the
    // key derives.
    send_msg(
        &mut remote,
        &PortalMessage::Confirm(PortalConfirmation(vec![1u8; 42])),
    );

    let result =
        Protocol::confirm_peer(&mut stream, &id, Direction::Receiver, &vec![0u8; 32])
            .unwrap_err();
    assert_eq!(result, PortalError::PeerKeyMismatch);
}

#[test]
fn test_read_encrypted_zero_copy_badmsg() {
    let (mut stream, mut remote) = duplex();

    // Script a connect message where an encrypted-data header is
    // expected.
    send_msg(
        &mut remote,
        &PortalMessage::Connect(ConnectMessage {
            id: "id".to_string(),
            direction: Direction::Sender,
        }),
    );

    let mut storage = vec![0u8; 1024];
    let result =
        Protocol::read_encrypted_zero_copy(&mut stream, &vec![0u8; 32], &mut storage)
            .unwrap_err();
    assert_eq!(result, PortalError::BadMsg);
}

#[test]
fn test_read_encrypted_zero_copy_buffertoosmall() {
    let (mut stream, mut remote) = duplex();

    // Script an encrypted-data header whose length exceeds the
    // provided storage.
    send_msg(
        &mut remote,
        &PortalMessage::EncryptedDataHeader(EncryptedMessage {
            nonce: vec![0u8; 12],
            tag: vec![0u8; 16],
            len: 1_000_000,
        }),
    );

    let mut storage = vec![0u8; 1024];
    let result =
        Protocol::read_encrypted_zero_copy(&mut stream, &vec![0u8; 32], &mut storage)
            .unwrap_err();
    assert_eq!(result, PortalError::BufferTooSmall);
}

#[test]
fn portal_handshake_no_peer() {
    let pass = "test".to_string();
    let mut receiver = Portal::init(Direction::Receiver, "id".to_string(), pass).unwrap();

    let (mut stream, mut remote) = duplex();
    // Queue a message that will make Protocol::connect() unhappy.
    send_msg(
        &mut remote,
        &PortalMessage::EncryptedDataHeader(EncryptedMessage {
            nonce: vec![0u8; 12],
            tag: vec![0u8; 16],
            len: 0,
        }),
    );

    let result = receiver.handshake(&mut stream);
    assert!(result.is_err());
    assert_eq!(result.unwrap_err(), PortalError::NoPeer);
}

#[test]
fn portal_send_file_no_peer() {
    let pass = "test".to_string();
    let mut portal = Portal::init(Direction::Sender, "id".to_string(), pass).unwrap();

    let (mut stream, _remote) = duplex();
    let contents = vec![0u8; 4];
    let result = portal.send_file(&mut stream, "/tmp/passwd", &contents, None::<fn(usize)>);
    assert!(result.is_err());
    assert_eq!(result.unwrap_err(), PortalError::NoPeer);
}

#[test]
fn portal_recv_file_no_peer() {
    let pass = "test".to_string();
    let mut portal = Portal::init(Direction::Sender, "id".to_string(), pass).unwrap();

    let (mut stream, _remote) = duplex();
    let result = portal.recv_file(&mut stream, None, None::<fn(usize)>);
    assert!(result.is_err());
    assert_eq!(result.unwrap_err(), PortalError::NoPeer);
}

#[test]
fn test_compressed_edwards_size() {
    // The exchanged message is the compressed Edwards point plus one
    // byte for the PAKE side tag.
    let edwards_point = <spake2::Ed25519Group as spake2::Group>::Element::default();
    let compressed = edwards_point.compress();
    let msg_size: usize = std::mem::size_of_val(&compressed) + 1;

    assert_eq!(33, msg_size);

    let portal =
        Portal::init(Direction::Sender, "id".to_string(), "test".to_string()).unwrap();
    assert_eq!(portal.get_exchange().0.len(), msg_size);
}

#[test]
fn test_getters_setters() {
    let pass = "test".to_string();
    let mut portal = Portal::init(Direction::Sender, "id".to_string(), pass).unwrap();

    // get/set ID
    portal.set_id("newID".to_string());
    assert_eq!("newID", portal.get_id());

    // get/set direction
    portal.set_direction(Direction::Receiver);
    assert_eq!(portal.get_direction(), Direction::Receiver);

    // get/set key
    portal.set_key(vec![0, 1, 2, 3]);
    assert_eq!(&Some(vec![0, 1, 2, 3]), portal.get_key());
}
