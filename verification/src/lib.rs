//! Portal: a two-peer encrypted file-transfer library.
//!
//! Two endpoints that share a short pass-phrase meet at an untrusted
//! rendezvous relay, derive a symmetric session key with a PAKE,
//! confirm the key, and stream files through encrypted, length-prefixed
//! frames. The relay never sees plaintext: it only pairs the two
//! connections and splices bytes between them.
//!
//! The library is split into two layers: the higher-level [`Portal`]
//! session type, which drives a whole transfer, and the lower-level
//! [`protocol::Protocol`] functions for direct access to the handshake
//! and the record layer.

use vstd::prelude::*;

pub mod chunks;
pub mod errors;
pub mod protocol;
pub mod relay;
pub mod stream;
pub mod wire;
pub(crate) mod crypto;

use crate::crypto::hex_of;
use crate::crypto::sha256_of;
use crate::crypto::PakeState;
use crate::errors::PortalError;
use crate::protocol::transferinfo::name_ok;
use crate::protocol::Direction;
use crate::protocol::Metadata;
use crate::protocol::NonceSequence;
use crate::protocol::PortalKeyExchange;
use crate::protocol::Protocol;
use crate::protocol::TransferInfo;
use crate::protocol::encrypted::AEAD_LENGTH_LIMIT;
use crate::protocol::transferinfo::encode_manifest_model;
use crate::protocol::transferinfo::leaf_model;
use crate::stream::Stream;
use vstd::string::StrSliceExecFns;
use vstd::utf8::encode_utf8;

verus! {

/// Default TCP port of the rendezvous relay.
pub const DEFAULT_PORT: u16 = 13265;

/// Size of a plaintext file chunk carried by one encrypted frame.
pub const CHUNK_SIZE: usize = 65536;

/// The primary interface into the library: one session of one peer.
pub struct Portal {
    /// Identifier used to correlate the two connections on the relay:
    /// the lowercase hex digest of the user-chosen identifier.
    pub(crate) id: String,
    pub(crate) direction: Direction,
    /// The locally generated key-exchange payload.
    pub(crate) exchange: PortalKeyExchange,
    /// A nonce sequence that must be used for the entire session to
    /// ensure no re-use.
    nseq: NonceSequence,
    /// Crypto state used to derive the key once the peer's exchange
    /// payload arrives; consumed exactly once.
    pub(crate) state: Option<PakeState>,
    /// Derived session key; absent until confirmation succeeds.
    key: Option<Vec<u8>>,
}

impl Portal {
    /// The session's structural invariant: the nonce sequence is a
    /// 96-bit counter and the exchange payload has its wire size.
    pub closed spec fn wf(&self) -> bool {
        self.nseq.wf() && self.exchange.wf()
    }

    /// The identifier as sent on the wire.
    pub closed spec fn view_id(&self) -> Seq<char> {
        self.id@
    }

    /// The session's direction.
    pub closed spec fn view_direction(&self) -> Direction {
        self.direction
    }

    /// The derived session key, once known.
    pub closed spec fn view_key(&self) -> Option<Seq<u8>> {
        match self.key {
            Some(k) => Some(k@),
            None => None,
        }
    }

    /// Whether the PAKE state is still waiting to be consumed.
    pub closed spec fn has_state(&self) -> bool {
        self.state is Some
    }

    /// The locally generated key-exchange payload.
    pub closed spec fn view_exchange(&self) -> Seq<u8> {
        self.exchange.0@
    }

    /// Initialize a new portal request: hash the identifier, start the
    /// symmetric PAKE from the pass-phrase and the identifier's digest,
    /// and arm a fresh nonce sequence. The identifier used on the wire
    /// is the lowercase hex form of the digest.
    pub fn init(direction: Direction, id: String, password: String) -> (r: Result<
        Portal,
        PortalError,
    >)
        ensures
            r is Ok,
            r matches Ok(p) ==> {
                &&& p.wf()
                &&& p.view_direction() == direction
                &&& p.view_id() == hex_of(sha256_of(encode_utf8(id@)))
                &&& p.has_state()
                &&& p.view_key() is None
                &&& p.view_exchange().len() == protocol::KEY_EXCHANGE_SIZE
            },
    {
        // Hash the ID string; the digest doubles as the PAKE identity.
        let id_bytes = id.as_str().as_bytes_vec();
        let digest = crate::crypto::sha256(&id_bytes);
        let id_hash = crate::crypto::hex_encode(&digest);
        // Initialize the PAKE state and the outbound payload.
        let password_bytes = password.as_str().as_bytes_vec();
        let (state, outbound) = crate::crypto::spake2_start(&password_bytes, &digest);
        Ok(
            Portal {
                direction,
                id: id_hash,
                exchange: PortalKeyExchange(outbound),
                nseq: NonceSequence::new(),
                state: Some(state),
                key: None,
            },
        )
    }

    /// Negotiate a secure connection over the insecure channel by
    /// performing the portal handshake: exchange connect and
    /// key-exchange messages, derive the session key, and verify the
    /// peer's key confirmation. Subsequent communication is encrypted.
    ///
    /// A session whose PAKE state was already consumed fails with
    /// `BadState`; a failed pairing with `NoPeer`; a peer that derived
    /// a different key with `PeerKeyMismatch`. The key is set only when
    /// the confirmation succeeds: on any failure it stays what it was.
    pub fn handshake<P: Stream>(&mut self, peer: &mut P) -> (r: Result<(), PortalError>)
        requires
            old(self).wf(),
        ensures
            final(self).wf(),
            final(self).view_id() == old(self).view_id(),
            final(self).view_direction() == old(self).view_direction(),
            r is Ok ==> old(self).has_state() && !final(self).has_state() && (final(self).view_key() matches Some(k) && k.len() == 32),
            r is Err ==> final(self).view_key() == old(self).view_key(),
    {
        // Send the connection message. If the relay cannot match us
        // with a peer this will fail.
        let msg = PortalKeyExchange(self.exchange.0.clone());
        let confirm = match Protocol::connect(peer, &self.id, self.direction, msg) {
            Ok(c) => c,
            Err(_) => { return Err(PortalError::NoPeer) },
        };
        // Deriving the key consumes the PAKE state, so it is taken out
        // of the session here, exactly once.
        let state = match self.state.take() {
            Some(s) => s,
            None => { return Err(PortalError::BadState) },
        };
        let key = match Protocol::derive_key(state, &confirm) {
            Ok(k) => k,
            Err(_) => { return Err(PortalError::BadMsg) },
        };
        // Confirm that the peer has the same key.
        match Protocol::confirm_peer(peer, &self.id, self.direction, &key) {
            Ok(()) => (),
            Err(e) => { return Err(e) },
        }
        // Set key for further use.
        self.key = Some(key);
        Ok(())
    }

    /// Fetch the session key as a fresh vector, or the error that the
    /// original interface reports when it is missing or unusable.
    fn usable_key(&self) -> (r: Result<Vec<u8>, PortalError>)
        ensures
            r matches Ok(k) ==> self.view_key() == Some(k@) && k@.len() == 32,
            self.view_key() is None <==> r == Err::<Vec<u8>, PortalError>(PortalError::NoPeer),
            (self.view_key() matches Some(k) && k.len() == 32) <==> r is Ok,
            r matches Err(e) ==> e == PortalError::NoPeer || e == PortalError::CryptoError,
    {
        match &self.key {
            Some(k) => {
                if k.len() == 32 {
                    Ok(k.clone())
                } else {
                    Err(PortalError::CryptoError)
                }
            },
            None => Err(PortalError::NoPeer),
        }
    }

    /// As the sender, communicate the transfer manifest to the receiver
    /// so that they may confirm or deny the transfer, over the
    /// encrypted channel. Returns the manifest's encoded size. The
    /// caller then sends each file of the manifest in order with
    /// [`Portal::send_file`].
    pub fn outgoing<W: Stream>(&mut self, peer: &mut W, info: &TransferInfo) -> (r: Result<
        usize,
        PortalError,
    >)
        requires
            old(self).wf(),
        ensures
            final(self).wf(),
            final(self).view_id() == old(self).view_id(),
            final(self).view_direction() == old(self).view_direction(),
            final(self).view_key() == old(self).view_key(),
            final(self).has_state() == old(self).has_state(),
            old(self).view_key() is None <==> r == Err::<usize, PortalError>(PortalError::NoPeer),
            (old(self).view_key() matches Some(k) && k.len() == 32 && encode_manifest_model(
                info.manifest(),
            ).len() >= AEAD_LENGTH_LIMIT) ==> r == Err::<usize, PortalError>(
                PortalError::EncryptError,
            ),
            r matches Ok(n) ==> n == encode_manifest_model(info.manifest()).len(),
    {
        // Check that the key exists to confirm the handshake is
        // complete.
        let key = match self.usable_key() {
            Ok(k) => k,
            Err(e) => { return Err(e) },
        };
        let mut data = info.serialize();
        if (data.len() as u64) >= AEAD_LENGTH_LIMIT {
            return Err(PortalError::EncryptError);
        }
        // Send all transfer info for the peer to confirm.
        Protocol::encrypt_and_write_object(peer, &key, &mut self.nseq, &mut data)
    }

    /// As the receiver, receive the transfer manifest. The optional
    /// verify callback is invoked exactly once, between receiving the
    /// manifest and any file data; if it returns false the session
    /// fails with `Cancelled` before any file bytes are read.
    pub fn incoming<R: Stream, V: Fn(&TransferInfo) -> bool>(
        &mut self,
        peer: &mut R,
        verify: Option<V>,
    ) -> (r: Result<TransferInfo, PortalError>)
        requires
            old(self).wf(),
            verify matches Some(f) ==> forall|i: &TransferInfo| #[trigger] f.requires((i,)),
        ensures
            final(self).wf(),
            final(self).view_id() == old(self).view_id(),
            final(self).view_direction() == old(self).view_direction(),
            final(self).view_key() == old(self).view_key(),
            final(self).has_state() == old(self).has_state(),
            old(self).view_key() is None <==> r == Err::<TransferInfo, PortalError>(
                PortalError::NoPeer,
            ),
            r matches Ok(info) ==> info.paths() =~= Seq::<Seq<char>>::empty(),
    {
        // Check that the key exists to confirm the handshake is
        // complete.
        let key = match self.usable_key() {
            Ok(k) => k,
            Err(e) => { return Err(e) },
        };
        // Receive the transfer info.
        let payload = match Protocol::read_encrypted_from(peer, &key) {
            Ok(v) => v,
            Err(e) => { return Err(e) },
        };
        let info = match TransferInfo::parse(payload.as_slice()) {
            Ok(i) => i,
            Err(e) => { return Err(e) },
        };
        // Process the verify callback if applicable.
        match verify {
            Some(f) => {
                if !f(&info) {
                    return Err(PortalError::Cancelled);
                }
            },
            None => (),
        }
        Ok(info)
    }

    /// Send one file over the portal: first its metadata (size and leaf
    /// name) as an encrypted object, then the contents in encrypted
    /// chunks of [`CHUNK_SIZE`] bytes, the last chunk carrying the
    /// remainder. Must be called after the handshake. The optional
    /// callback receives the cumulative byte count after every chunk.
    /// Returns the number of content bytes sent.
    pub fn send_file<W: Stream, D: Fn(usize)>(
        &mut self,
        peer: &mut W,
        path: &str,
        contents: &Vec<u8>,
        callback: Option<D>,
    ) -> (r: Result<usize, PortalError>)
        requires
            old(self).wf(),
            callback matches Some(f) ==> forall|x: usize| #[trigger] f.requires((x,)),
        ensures
            final(self).wf(),
            final(self).view_id() == old(self).view_id(),
            final(self).view_direction() == old(self).view_direction(),
            final(self).view_key() == old(self).view_key(),
            final(self).has_state() == old(self).has_state(),
            old(self).view_key() is None <==> r == Err::<usize, PortalError>(PortalError::NoPeer),
            (old(self).view_key() matches Some(k) && k.len() == 32 && leaf_model(path@) is None)
                ==> r == Err::<usize, PortalError>(PortalError::BadFileName),
            r == Err::<usize, PortalError>(PortalError::BadFileName) ==> leaf_model(path@) is None,
            (old(self).view_key() matches Some(k) && k.len() == 32 && (leaf_model(
                path@,
            ) matches Some(name) && 16 + encode_utf8(name).len() >= AEAD_LENGTH_LIMIT)) ==> r
                == Err::<usize, PortalError>(PortalError::EncryptError),
            r matches Ok(n) ==> n == contents@.len() && leaf_model(path@) is Some,
    {
        // Check that the key exists to confirm the handshake is
        // complete.
        let key = match self.usable_key() {
            Ok(k) => k,
            Err(e) => { return Err(e) },
        };
        // Obtain the file name stub from the path.
        let filename = match crate::protocol::transferinfo::leaf_name(path) {
            Some(name) => name,
            None => { return Err(PortalError::BadFileName) },
        };
        // Create and send the metadata object over the encrypted
        // channel.
        let metadata = Metadata { filesize: contents.len() as u64, filename };
        let mut md_bytes = metadata.serialize();
        proof {
            vstd::bytes::lemma_auto_spec_u64_to_from_le_bytes();
            assert(md_bytes@.len() == 16 + encode_utf8(metadata.filename@).len());
        }
        if (md_bytes.len() as u64) >= AEAD_LENGTH_LIMIT {
            return Err(PortalError::EncryptError);
        }
        match Protocol::encrypt_and_write_object(peer, &key, &mut self.nseq, &mut md_bytes) {
            Ok(_) => (),
            Err(e) => { return Err(e) },
        }
        // Send the contents in encrypted chunks.
        let mut total_sent: usize = 0;
        while total_sent < contents.len()
            invariant
                total_sent <= contents@.len(),
                old(self).view_key() is Some,
                self.view_key() == old(self).view_key(),
                self.has_state() == old(self).has_state(),
                leaf_model(path@) is Some,
                16 + encode_utf8(leaf_model(path@).unwrap()).len() < AEAD_LENGTH_LIMIT,
                self.wf(),
                self.view_id() == old(self).view_id(),
                self.view_direction() == old(self).view_direction(),
                key@.len() == 32,
                callback matches Some(f) ==> forall|x: usize| #[trigger] f.requires((x,)),
            decreases contents@.len() - total_sent,
        {
            let window = if contents.len() - total_sent < CHUNK_SIZE {
                contents.len() - total_sent
            } else {
                CHUNK_SIZE
            };
            // Encrypt the chunk in place and send the header, then the
            // ciphertext itself.
            let mut chunk = crate::wire::copy_range(
                contents.as_slice(),
                total_sent,
                total_sent + window,
            );
            match Protocol::encrypt_and_write_header_only(peer, &key, &mut self.nseq, &mut chunk) {
                Ok(_) => (),
                Err(e) => { return Err(e) },
            }
            match peer.write_all_bytes(chunk.as_slice()) {
                Ok(()) => (),
                Err(_) => { return Err(PortalError::IOError) },
            }
            // Increment and optionally invoke the callback.
            total_sent = total_sent + window;
            match &callback {
                Some(c) => {
                    c(total_sent);
                },
                None => (),
            }
        }
        Ok(total_sent)
    }

    /// Receive the next file over the portal: its metadata, then the
    /// contents from encrypted chunks. Must be called after the
    /// handshake. The filename of the returned metadata is reduced to
    /// its leaf component, so joining it onto a download directory
    /// cannot escape that directory; the returned bytes are exactly as
    /// many as the metadata declared, else the transfer fails with
    /// `Incomplete`. If an expected metadata record is provided, a
    /// mismatch fails with `BadMsg` before any file bytes are read. The
    /// optional callback receives the cumulative byte count after every
    /// chunk.
    pub fn recv_file<R: Stream, D: Fn(usize)>(
        &mut self,
        peer: &mut R,
        expected: Option<&Metadata>,
        display: Option<D>,
    ) -> (r: Result<(Metadata, Vec<u8>), PortalError>)
        requires
            old(self).wf(),
            display matches Some(f) ==> forall|x: usize| #[trigger] f.requires((x,)),
        ensures
            final(self).wf(),
            final(self).view_id() == old(self).view_id(),
            final(self).view_direction() == old(self).view_direction(),
            final(self).view_key() == old(self).view_key(),
            final(self).has_state() == old(self).has_state(),
            old(self).view_key() is None <==> r == Err::<(Metadata, Vec<u8>), PortalError>(
                PortalError::NoPeer,
            ),
            r matches Ok(p) ==> p.1@.len() == p.0.filesize && name_ok(p.0.filename@),
            r matches Ok(p) ==> (expected matches Some(e) ==> p.0.filesize == e.filesize && Some(
                p.0.filename@,
            ) == leaf_model(e.filename@)),
    {
        // Check that the key exists to confirm the handshake is
        // complete.
        let key = match self.usable_key() {
            Ok(k) => k,
            Err(e) => { return Err(e) },
        };
        // Receive the metadata.
        let payload = match Protocol::read_encrypted_from(peer, &key) {
            Ok(v) => v,
            Err(e) => { return Err(e) },
        };
        let (metadata, _) = match Metadata::parse_prefix(payload.as_slice()) {
            Ok(p) => p,
            Err(e) => { return Err(e) },
        };
        // Verify the metadata is expected, if a comparison is provided:
        // anything that differs from the declared record is rejected
        // before any file bytes are read.
        match expected {
            Some(exp) => {
                if !metadata.matches(exp) {
                    return Err(PortalError::BadMsg);
                }
            },
            None => (),
        }
        // Ensure the filename is only the name component.
        let filename = match crate::protocol::transferinfo::leaf_name(metadata.filename.as_str()) {
            Some(name) => name,
            None => { return Err(PortalError::BadFileName) },
        };
        proof {
            crate::protocol::transferinfo::lemma_leaf_name_ok(metadata.filename@);
        }
        if metadata.filesize > usize::MAX as u64 {
            return Err(PortalError::IOError);
        }
        let size = metadata.filesize as usize;
        // Receive the contents chunk by chunk.
        let mut out: Vec<u8> = Vec::new();
        let mut received: usize = 0;
        let mut offset: usize = 0;
        while offset < size
            invariant
                offset <= size,
                received <= offset,
                out@.len() == received,
                old(self).view_key() is Some,
                self.wf(),
                self.view_id() == old(self).view_id(),
                self.view_direction() == old(self).view_direction(),
                key@.len() == 32,
                display matches Some(f) ==> forall|x: usize| #[trigger] f.requires((x,)),
            decreases size - offset,
        {
            let window = if size - offset < CHUNK_SIZE {
                size - offset
            } else {
                CHUNK_SIZE
            };
            let mut chunk: Vec<u8> = vec![0u8; window];
            let n = match Protocol::read_encrypted_zero_copy(peer, &key, &mut chunk) {
                Ok(n) => n,
                Err(e) => { return Err(e) },
            };
            chunk.truncate(n);
            out.append(&mut chunk);
            received = received + n;
            offset = offset + window;
            // Optionally report progress.
            match &display {
                Some(c) => {
                    c(received);
                },
                None => (),
            }
        }
        // Check for incomplete transfers.
        if received != size {
            return Err(PortalError::Incomplete);
        }
        Ok((Metadata { filesize: metadata.filesize, filename }, out))
    }

    /// Returns a copy of the direction associated with this session.
    pub fn get_direction(&self) -> (r: Direction)
        ensures
            r == self.view_direction(),
    {
        self.direction
    }

    /// Sets the direction associated with this session.
    pub fn set_direction(&mut self, direction: Direction)
        requires
            old(self).wf(),
        ensures
            final(self).wf(),
            final(self).view_direction() == direction,
            final(self).view_id() == old(self).view_id(),
            final(self).view_key() == old(self).view_key(),
            final(self).has_state() == old(self).has_state(),
    {
        self.direction = direction;
    }

    /// Returns a reference to the wire identifier of this session.
    pub fn get_id(&self) -> (r: &String)
        ensures
            r@ == self.view_id(),
    {
        &self.id
    }

    /// Sets the wire identifier of this session.
    pub fn set_id(&mut self, id: String)
        requires
            old(self).wf(),
        ensures
            final(self).wf(),
            final(self).view_id() == id@,
            final(self).view_direction() == old(self).view_direction(),
            final(self).view_key() == old(self).view_key(),
            final(self).has_state() == old(self).has_state(),
    {
        self.id = id;
    }

    /// Returns a reference to the locally generated key-exchange
    /// payload that the handshake sends to the peer.
    pub fn get_exchange(&self) -> (r: &PortalKeyExchange)
        ensures
            r.0@ == self.view_exchange(),
    {
        &self.exchange
    }

    /// Returns a reference to the session key, if one was derived.
    pub fn get_key(&self) -> (r: &Option<Vec<u8>>)
        ensures
            match r {
                Some(k) => self.view_key() == Some(k@),
                None => self.view_key() is None,
            },
    {
        &self.key
    }

    /// Sets the session key.
    pub fn set_key(&mut self, key: Vec<u8>)
        requires
            old(self).wf(),
        ensures
            final(self).wf(),
            final(self).view_key() == Some(key@),
            final(self).view_id() == old(self).view_id(),
            final(self).view_direction() == old(self).view_direction(),
            final(self).has_state() == old(self).has_state(),
    {
        self.key = Some(key);
    }
}

} // verus!
