//! The Portal wire protocol: message envelopes, their byte encoding,
//! and the handshake and record-layer procedures.
//!
//! Four envelopes appear on a stream. Each is preceded by a one-byte
//! discriminant; integers are little-endian:
//!
//! - `Connect`: a length-prefixed identifier string and a direction
//!   byte (0 = sender, 1 = receiver); plaintext, sent once per
//!   connection as the very first bytes.
//! - `KeyExchange`: the 33-byte PAKE element; plaintext, one per side.
//! - `Confirm`: the 42-byte key-confirmation value; plaintext, one per
//!   side.
//! - `EncryptedDataHeader`: 12-byte nonce, 16-byte tag and a 64-bit
//!   ciphertext length, followed on the wire by that many opaque
//!   ciphertext bytes.
//!
//! The encoding is specified by [`encode_model`] and [`parse_model`]
//! over a mathematical model of the envelopes, and the executable
//! serializer and parser are proved against them.

use vstd::prelude::*;
use vstd::bytes::spec_u64_from_le_bytes;
use vstd::bytes::spec_u64_to_le_bytes;
use vstd::bytes::lemma_auto_spec_u64_to_from_le_bytes;
use vstd::bytes::u64_from_le_bytes;
use vstd::bytes::u64_to_le_bytes;
use vstd::string::StrSliceExecFns;
use vstd::utf8::encode_utf8;
use vstd::utf8::valid_utf8;
use vstd::utf8::decode_utf8_encode_utf8;
use crate::crypto::chacha_ct;
use crate::crypto::chacha_tag;
use crate::crypto::hkdf42_of;
use crate::crypto::PakeState;
use crate::errors::PortalError;
use crate::stream::Stream;
use crate::stream::read_exact;
use crate::wire::bytes_eq;
use crate::wire::copy_range;
use crate::wire::string_from_utf8;

pub mod encrypted;
pub mod exchange;
pub mod transferinfo;

pub use encrypted::EncryptedMessage;
pub use encrypted::NonceSequence;
pub use encrypted::NONCE_SIZE;
pub use encrypted::TAG_SIZE;
pub use exchange::PortalKeyExchange;
pub use exchange::PortalConfirmation;
pub use exchange::KEY_EXCHANGE_SIZE;
pub use exchange::CONFIRM_SIZE;
pub use transferinfo::Metadata;
pub use transferinfo::TransferInfo;
pub use transferinfo::TransferInfoBuilder;

use encrypted::be_bytes;
use encrypted::NONCE_SPACE;

verus! {

/// Size of the scratch region used when a whole encrypted object
/// (manifest or metadata) is read; both fit comfortably.
pub const OBJECT_SCRATCH_SIZE: usize = 2048;

/// Wire discriminant of a `Connect` envelope.
pub const CONNECT_TAG: u8 = 0;

/// Wire discriminant of a `KeyExchange` envelope.
pub const KEY_EXCHANGE_TAG: u8 = 1;

/// Wire discriminant of a `Confirm` envelope.
pub const CONFIRM_TAG: u8 = 2;

/// Wire discriminant of an `EncryptedDataHeader` envelope.
pub const ENCRYPTED_TAG: u8 = 3;

/// Size on the wire of one encoded `EncryptedDataHeader` envelope:
/// discriminant, nonce, tag and length field.
pub const ENCRYPTED_HEADER_WIRE_SIZE: usize = 37;

/// Longest identifier, in bytes, that `recv` will accept from a peer.
/// Identifiers on the wire are 64-character hex digests, so the bound
/// only guards against absurd allocations.
pub const MAX_WIRE_ID_BYTES: u64 = 65536;

/// An enum to describe the direction of each file transfer participant.
#[derive(Debug, Copy, Clone, PartialEq, Eq, Structural)]
pub enum Direction {
    Sender,
    Receiver,
}

/// The wire byte that stands for a direction.
pub open spec fn direction_byte(d: Direction) -> u8 {
    match d {
        Direction::Sender => 0,
        Direction::Receiver => 1,
    }
}

/// Information to correlate connections on the relay.
#[derive(Debug, PartialEq, Eq)]
pub struct ConnectMessage {
    pub id: String,
    pub direction: Direction,
}

/// The wrapped message type for every exchanged message.
#[derive(Debug, PartialEq, Eq)]
pub enum PortalMessage {
    /// Provides enough information to the relay to pair the two peers.
    Connect(ConnectMessage),
    /// PAKE key-derivation information.
    KeyExchange(PortalKeyExchange),
    /// Key-confirmation information.
    Confirm(PortalConfirmation),
    /// All other messages are encrypted: this header announces either
    /// metadata or a file chunk.
    EncryptedDataHeader(EncryptedMessage),
}

/// The mathematical shape of one envelope: what of a message the wire
/// encoding preserves.
pub enum MessageModel {
    Connect { id: Seq<u8>, dir: u8 },
    KeyExchange { data: Seq<u8> },
    Confirm { data: Seq<u8> },
    EncryptedDataHeader { nonce: Seq<u8>, tag: Seq<u8>, len: nat },
}

/// The sizes an envelope must respect so that its encoding parses back.
pub open spec fn model_wf(m: MessageModel) -> bool {
    match m {
        MessageModel::Connect { id, dir } => id.len() < 0x10000000000000000,
        MessageModel::KeyExchange { data } => data.len() == KEY_EXCHANGE_SIZE,
        MessageModel::Confirm { data } => data.len() == CONFIRM_SIZE,
        MessageModel::EncryptedDataHeader { nonce, tag, len } => nonce.len() == NONCE_SIZE
            && tag.len() == TAG_SIZE && len < 0x10000000000000000,
    }
}

/// The byte encoding of one envelope.
pub open spec fn encode_model(m: MessageModel) -> Seq<u8> {
    match m {
        MessageModel::Connect { id, dir } => seq![CONNECT_TAG] + spec_u64_to_le_bytes(
            id.len() as u64,
        ) + id + seq![dir],
        MessageModel::KeyExchange { data } => seq![KEY_EXCHANGE_TAG] + data,
        MessageModel::Confirm { data } => seq![CONFIRM_TAG] + data,
        MessageModel::EncryptedDataHeader { nonce, tag, len } => seq![ENCRYPTED_TAG] + nonce + tag
            + spec_u64_to_le_bytes(len as u64),
    }
}

/// Parse one envelope from the front of a byte string: the envelope and
/// how many bytes it occupied, or nothing if the bytes do not begin
/// with a complete envelope. Trailing bytes are ignored.
pub open spec fn parse_model(b: Seq<u8>) -> Option<(MessageModel, int)> {
    if b.len() < 1 {
        None
    } else if b[0] == CONNECT_TAG {
        if b.len() < 9 {
            None
        } else {
            let n = spec_u64_from_le_bytes(b.subrange(1, 9)) as int;
            if b.len() < 10 + n {
                None
            } else {
                Some(
                    (
                        MessageModel::Connect { id: b.subrange(9, 9 + n), dir: b[9 + n] },
                        10 + n,
                    ),
                )
            }
        }
    } else if b[0] == KEY_EXCHANGE_TAG {
        if b.len() < 34 {
            None
        } else {
            Some((MessageModel::KeyExchange { data: b.subrange(1, 34) }, 34))
        }
    } else if b[0] == CONFIRM_TAG {
        if b.len() < 43 {
            None
        } else {
            Some((MessageModel::Confirm { data: b.subrange(1, 43) }, 43))
        }
    } else if b[0] == ENCRYPTED_TAG {
        if b.len() < 37 {
            None
        } else {
            Some(
                (
                    MessageModel::EncryptedDataHeader {
                        nonce: b.subrange(1, 13),
                        tag: b.subrange(13, 29),
                        len: spec_u64_from_le_bytes(b.subrange(29, 37)) as nat,
                    },
                    37,
                ),
            )
        }
    } else {
        None
    }
}

/// The additional checks the executable parser makes beyond the shape:
/// a known direction byte and an identifier that is valid UTF-8.
pub open spec fn model_accepted(m: MessageModel) -> bool {
    match m {
        MessageModel::Connect { id, dir } => dir <= 1 && valid_utf8(id),
        MessageModel::EncryptedDataHeader { nonce, tag, len } => len <= usize::MAX,
        _ => true,
    }
}

/// What the executable parser yields on a byte string.
pub open spec fn parses_to(b: Seq<u8>) -> Option<MessageModel> {
    match parse_model(b) {
        Some((m, n)) => if model_accepted(m) {
            Some(m)
        } else {
            None
        },
        None => None,
    }
}

/// Parsing inverts encoding: an encoded envelope followed by any
/// further bytes parses back to the same envelope, consuming exactly
/// the encoding. Every envelope is serialize-then-parse stable, and the
/// encoding is prefix-unambiguous, which is what lets a receiver cut a
/// stream of frames back apart in order.
pub proof fn lemma_parse_of_encode(m: MessageModel, rest: Seq<u8>)
    requires
        model_wf(m),
    ensures
        parse_model(encode_model(m) + rest) == Some((m, encode_model(m).len() as int)),
{
    lemma_auto_spec_u64_to_from_le_bytes();
    let e = encode_model(m);
    let b = e + rest;
    match m {
        MessageModel::Connect { id, dir } => {
            let lenb = spec_u64_to_le_bytes(id.len() as u64);
            assert(b[0] == CONNECT_TAG);
            assert(b.subrange(1, 9) =~= lenb);
            let n = id.len() as int;
            assert(spec_u64_from_le_bytes(b.subrange(1, 9)) as int == n);
            assert(b.len() >= 10 + n);
            assert(b.subrange(9, 9 + n) =~= id);
            assert(b[9 + n] == dir);
            assert(e.len() == 10 + n);
        },
        MessageModel::KeyExchange { data } => {
            assert(b[0] == KEY_EXCHANGE_TAG);
            assert(b.subrange(1, 34) =~= data);
            assert(e.len() == 34);
        },
        MessageModel::Confirm { data } => {
            assert(b[0] == CONFIRM_TAG);
            assert(b.subrange(1, 43) =~= data);
            assert(e.len() == 43);
        },
        MessageModel::EncryptedDataHeader { nonce, tag, len } => {
            assert(b[0] == ENCRYPTED_TAG);
            assert(b.subrange(1, 13) =~= nonce);
            assert(b.subrange(13, 29) =~= tag);
            assert(b.subrange(29, 37) =~= spec_u64_to_le_bytes(len as u64));
            assert(spec_u64_from_le_bytes(b.subrange(29, 37)) as nat == len);
            assert(e.len() == 37);
        },
    }
}

/// Serialize-then-parse yields the same envelope: the round-trip law
/// for one message standing alone.
pub proof fn lemma_encode_parse_round_trip(m: MessageModel)
    requires
        model_wf(m),
    ensures
        parse_model(encode_model(m)) == Some((m, encode_model(m).len() as int)),
{
    assert(encode_model(m) + Seq::<u8>::empty() =~= encode_model(m));
    lemma_parse_of_encode(m, Seq::<u8>::empty());
}

impl PortalMessage {
    /// The envelope this message stands for.
    pub open spec fn model(&self) -> MessageModel {
        match self {
            PortalMessage::Connect(c) => MessageModel::Connect {
                id: encode_utf8(c.id@),
                dir: direction_byte(c.direction),
            },
            PortalMessage::KeyExchange(x) => MessageModel::KeyExchange { data: x.0@ },
            PortalMessage::Confirm(c) => MessageModel::Confirm { data: c.0@ },
            PortalMessage::EncryptedDataHeader(m) => MessageModel::EncryptedDataHeader {
                nonce: m.nonce@,
                tag: m.tag@,
                len: m.len as nat,
            },
        }
    }

    /// The message's payload sizes fit the wire format.
    pub open spec fn wf(&self) -> bool {
        model_wf(self.model())
    }

    /// Encode this message into its wire bytes.
    pub fn serialize(&self) -> (r: Vec<u8>)
        ensures
            r@ == encode_model(self.model()),
    {
        let mut out: Vec<u8> = Vec::new();
        match self {
            PortalMessage::Connect(c) => {
                out.push(CONNECT_TAG);
                let id_bytes = c.id.as_str().as_bytes_vec();
                let mut len_bytes = u64_to_le_bytes(id_bytes.len() as u64);
                out.append(&mut len_bytes);
                let mut id_owned = id_bytes;
                out.append(&mut id_owned);
                let dir_byte: u8 = match c.direction {
                    Direction::Sender => 0,
                    Direction::Receiver => 1,
                };
                out.push(dir_byte);
                proof {
                    assert(out@ =~= encode_model(self.model()));
                }
            },
            PortalMessage::KeyExchange(x) => {
                out.push(KEY_EXCHANGE_TAG);
                out.extend_from_slice(x.0.as_slice());
                proof {
                    assert(out@ =~= encode_model(self.model()));
                }
            },
            PortalMessage::Confirm(c) => {
                out.push(CONFIRM_TAG);
                out.extend_from_slice(c.0.as_slice());
                proof {
                    assert(out@ =~= encode_model(self.model()));
                }
            },
            PortalMessage::EncryptedDataHeader(m) => {
                out.push(ENCRYPTED_TAG);
                out.extend_from_slice(m.nonce.as_slice());
                out.extend_from_slice(m.tag.as_slice());
                let mut len_bytes = u64_to_le_bytes(m.len as u64);
                out.append(&mut len_bytes);
                proof {
                    assert(out@ =~= encode_model(self.model()));
                }
            },
        }
        out
    }

    /// Serialize this message and write it to the stream, returning how
    /// many bytes went out.
    pub fn send<S: Stream>(&self, writer: &mut S) -> (r: Result<usize, PortalError>)
        ensures
            r matches Ok(n) ==> n == encode_model(self.model()).len(),
            r matches Err(e) ==> e == PortalError::IOError,
    {
        let data = self.serialize();
        match writer.write_all_bytes(data.as_slice()) {
            Ok(()) => Ok(data.len()),
            Err(_) => Err(PortalError::IOError),
        }
    }

    /// Receive one message from the stream, reading exactly the bytes
    /// of one envelope. What arrives is up to the peer; every size and
    /// the identifier's encoding are checked before a message is built.
    pub fn recv<S: Stream>(reader: &mut S) -> (r: Result<PortalMessage, PortalError>)
        ensures
            r matches Ok(m) ==> m.wf(),
    {
        let tag_bytes = match read_exact(reader, 1) {
            Ok(v) => v,
            Err(_) => { return Err(PortalError::IOError) },
        };
        let tag = tag_bytes[0];
        if tag == CONNECT_TAG {
            let len_bytes = match read_exact(reader, 8) {
                Ok(v) => v,
                Err(e) => { return Err(e) },
            };
            let n64 = u64_from_le_bytes(len_bytes.as_slice());
            if n64 > MAX_WIRE_ID_BYTES {
                return Err(PortalError::BadMsg);
            }
            let id_bytes = match read_exact(reader, n64 as usize) {
                Ok(v) => v,
                Err(e) => { return Err(e) },
            };
            let dir_bytes = match read_exact(reader, 1) {
                Ok(v) => v,
                Err(e) => { return Err(e) },
            };
            let direction = if dir_bytes[0] == 0 {
                Direction::Sender
            } else if dir_bytes[0] == 1 {
                Direction::Receiver
            } else {
                return Err(PortalError::BadMsg);
            };
            proof {
                broadcast use decode_utf8_encode_utf8;

            }
            match string_from_utf8(id_bytes) {
                Some(id) => Ok(PortalMessage::Connect(ConnectMessage { id, direction })),
                None => Err(PortalError::BadMsg),
            }
        } else if tag == KEY_EXCHANGE_TAG {
            match read_exact(reader, KEY_EXCHANGE_SIZE) {
                Ok(v) => Ok(PortalMessage::KeyExchange(PortalKeyExchange(v))),
                Err(e) => Err(e),
            }
        } else if tag == CONFIRM_TAG {
            match read_exact(reader, CONFIRM_SIZE) {
                Ok(v) => Ok(PortalMessage::Confirm(PortalConfirmation(v))),
                Err(e) => Err(e),
            }
        } else if tag == ENCRYPTED_TAG {
            let nonce = match read_exact(reader, NONCE_SIZE) {
                Ok(v) => v,
                Err(e) => { return Err(e) },
            };
            let tag_field = match read_exact(reader, TAG_SIZE) {
                Ok(v) => v,
                Err(e) => { return Err(e) },
            };
            let len_bytes = match read_exact(reader, 8) {
                Ok(v) => v,
                Err(e) => { return Err(e) },
            };
            let len64 = u64_from_le_bytes(len_bytes.as_slice());
            if len64 > usize::MAX as u64 {
                return Err(PortalError::BadMsg);
            }
            Ok(
                PortalMessage::EncryptedDataHeader(
                    EncryptedMessage { nonce, tag: tag_field, len: len64 as usize },
                ),
            )
        } else {
            Err(PortalError::BadMsg)
        }
    }

    /// Deserialize one message from existing data, ignoring trailing
    /// bytes: exactly what [`parses_to`] describes.
    pub fn parse(data: &[u8]) -> (r: Result<PortalMessage, PortalError>)
        ensures
            r matches Ok(m) ==> m.wf() && parses_to(data@) == Some(m.model()),
            r is Err ==> parses_to(data@) is None && r == Err::<PortalMessage, PortalError>(
                PortalError::BadMsg,
            ),
    {
        proof {
            lemma_auto_spec_u64_to_from_le_bytes();
        }
        if data.len() < 1 {
            return Err(PortalError::BadMsg);
        }
        let tag = data[0];
        if tag == CONNECT_TAG {
            if data.len() < 9 {
                return Err(PortalError::BadMsg);
            }
            let len_bytes = copy_range(data, 1, 9);
            let n64 = u64_from_le_bytes(len_bytes.as_slice());
            if n64 > u64::MAX - 10 {
                return Err(PortalError::BadMsg);
            }
            if (data.len() as u64) < n64 + 10 {
                return Err(PortalError::BadMsg);
            }
            let n = n64 as usize;
            let id_bytes = copy_range(data, 9, 9 + n);
            let dir_byte = data[9 + n];
            let direction = if dir_byte == 0 {
                Direction::Sender
            } else if dir_byte == 1 {
                Direction::Receiver
            } else {
                return Err(PortalError::BadMsg);
            };
            proof {
                broadcast use decode_utf8_encode_utf8;

            }
            match string_from_utf8(id_bytes) {
                Some(id) => Ok(PortalMessage::Connect(ConnectMessage { id, direction })),
                None => Err(PortalError::BadMsg),
            }
        } else if tag == KEY_EXCHANGE_TAG {
            if data.len() < 34 {
                return Err(PortalError::BadMsg);
            }
            Ok(PortalMessage::KeyExchange(PortalKeyExchange(copy_range(data, 1, 34))))
        } else if tag == CONFIRM_TAG {
            if data.len() < 43 {
                return Err(PortalError::BadMsg);
            }
            Ok(PortalMessage::Confirm(PortalConfirmation(copy_range(data, 1, 43))))
        } else if tag == ENCRYPTED_TAG {
            if data.len() < 37 {
                return Err(PortalError::BadMsg);
            }
            let nonce = copy_range(data, 1, 13);
            let tag_bytes = copy_range(data, 13, 29);
            let len_bytes = copy_range(data, 29, 37);
            let len64 = u64_from_le_bytes(len_bytes.as_slice());
            if len64 > usize::MAX as u64 {
                return Err(PortalError::BadMsg);
            }
            Ok(
                PortalMessage::EncryptedDataHeader(
                    EncryptedMessage { nonce, tag: tag_bytes, len: len64 as usize },
                ),
            )
        } else {
            Err(PortalError::BadMsg)
        }
    }
}

/// The header announcing one encrypted frame: the session's counter as
/// its nonce, the tag of the frame's ciphertext, and the ciphertext's
/// length.
pub open spec fn frame_header(key: Seq<u8>, counter: nat, pt: Seq<u8>) -> MessageModel {
    MessageModel::EncryptedDataHeader {
        nonce: be_bytes(counter, 12),
        tag: chacha_tag(key, be_bytes(counter, 12), pt),
        len: pt.len(),
    }
}

/// One encrypted frame as it stands on the wire: its header, then its
/// ciphertext.
pub open spec fn frame_bytes(key: Seq<u8>, counter: nat, pt: Seq<u8>) -> Seq<u8> {
    encode_model(frame_header(key, counter, pt)) + chacha_ct(key, be_bytes(counter, 12), pt)
}

/// The wire bytes of a run of frames sent in order: each plaintext
/// sealed under the session's next counter value.
pub open spec fn frame_stream(key: Seq<u8>, counter: nat, pts: Seq<Seq<u8>>) -> Seq<u8>
    decreases pts.len(),
{
    if pts.len() == 0 {
        Seq::<u8>::empty()
    } else {
        frame_bytes(key, counter, pts[0]) + frame_stream(key, counter + 1, pts.drop_first())
    }
}

/// What a receiver walking a byte string recovers: frame by frame, the
/// parsed header is the sender's header for the matching plaintext and
/// counter, and the bytes that follow it are exactly that plaintext's
/// ciphertext, so decrypting each frame with its own header yields the
/// sender's plaintexts, in order, byte for byte.
pub open spec fn reads_frames(key: Seq<u8>, b: Seq<u8>, counter: nat, pts: Seq<Seq<u8>>) -> bool
    decreases pts.len(),
{
    if pts.len() == 0 {
        b.len() == 0
    } else {
        &&& parse_model(b) == Some((frame_header(key, counter, pts[0]), 37int))
        &&& b.subrange(37, 37 + pts[0].len() as int) == chacha_ct(key, be_bytes(counter, 12), pts[0])
        &&& reads_frames(key, b.skip(37 + pts[0].len() as int), counter + 1, pts.drop_first())
    }
}

/// A receiver recovers a sender's frames exactly, in order: the wire
/// bytes of any run of frames parse back into the same headers and
/// ciphertexts, one after the other. Together with the decryption
/// contract of [`EncryptedMessage::decrypt`] — a ciphertext and tag
/// produced from a plaintext decrypt back to it — the receiver's
/// decrypted plaintext equals the sender's plaintext stream.
///
/// The hypotheses are the validity of the frames themselves: each
/// plaintext's length fits the header's 64-bit field, and its tag and
/// ciphertext have the sizes that [`crate::crypto::aead_encrypt`]
/// guarantees of every frame the record layer seals; they hold of any
/// run of frames an actual session produces.
pub proof fn lemma_frame_stream_round_trip(key: Seq<u8>, counter: nat, pts: Seq<Seq<u8>>)
    requires
        forall|i: int| 0 <= i < pts.len() ==> (#[trigger] pts[i]).len() < 0x10000000000000000,
        forall|i: int|
            0 <= i < pts.len() ==> (#[trigger] chacha_tag(
                key,
                be_bytes((counter + i) as nat, 12),
                pts[i],
            )).len() == TAG_SIZE,
        forall|i: int|
            0 <= i < pts.len() ==> (#[trigger] chacha_ct(
                key,
                be_bytes((counter + i) as nat, 12),
                pts[i],
            )).len() == pts[i].len(),
    ensures
        reads_frames(key, frame_stream(key, counter, pts), counter, pts),
    decreases pts.len(),
{
    if pts.len() > 0 {
        let pt = pts[0];
        let nonce = be_bytes(counter, 12);
        let hdr = frame_header(key, counter, pt);
        let ct = chacha_ct(key, nonce, pt);
        let tail = frame_stream(key, counter + 1, pts.drop_first());
        let b = frame_stream(key, counter, pts);
        assert(chacha_tag(key, be_bytes((counter + 0) as nat, 12), pts[0]).len() == TAG_SIZE);
        assert(chacha_ct(key, be_bytes((counter + 0) as nat, 12), pts[0]).len() == pts[0].len());
        assert(model_wf(hdr));
        assert(b =~= encode_model(hdr) + (ct + tail));
        lemma_parse_of_encode(hdr, ct + tail);
        assert(encode_model(hdr).len() == 37);
        assert(b.subrange(37, 37 + pt.len() as int) =~= ct);
        assert(b.skip(37 + pt.len() as int) =~= tail);
        assert forall|i: int| 0 <= i < pts.drop_first().len() implies (#[trigger] chacha_tag(
            key,
            be_bytes((counter + 1 + i) as nat, 12),
            pts.drop_first()[i],
        )).len() == TAG_SIZE by {
            assert(pts.drop_first()[i] == pts[i + 1]);
            assert(chacha_tag(key, be_bytes((counter + (i + 1)) as nat, 12), pts[i + 1]).len()
                == TAG_SIZE);
        }
        assert forall|i: int| 0 <= i < pts.drop_first().len() implies (#[trigger] chacha_ct(
            key,
            be_bytes((counter + 1 + i) as nat, 12),
            pts.drop_first()[i],
        )).len() == pts.drop_first()[i].len() by {
            assert(pts.drop_first()[i] == pts[i + 1]);
            assert(chacha_ct(key, be_bytes((counter + (i + 1)) as nat, 12), pts[i + 1]).len()
                == pts[i + 1].len());
        }
        lemma_frame_stream_round_trip(key, counter + 1, pts.drop_first());
    }
}

/// The other participant's role.
pub open spec fn opposite_direction(d: Direction) -> Direction {
    match d {
        Direction::Sender => Direction::Receiver,
        Direction::Receiver => Direction::Sender,
    }
}

/// The bytes of `"-senderinfo"`.
pub open spec fn sender_info_suffix() -> Seq<u8> {
    seq![45u8, 115u8, 101u8, 110u8, 100u8, 101u8, 114u8, 105u8, 110u8, 102u8, 111u8]
}

/// The bytes of `"-receiverinfo"`.
pub open spec fn receiver_info_suffix() -> Seq<u8> {
    seq![45u8, 114u8, 101u8, 99u8, 101u8, 105u8, 118u8, 101u8, 114u8, 105u8, 110u8, 102u8, 111u8]
}

/// The HKDF info string of one role: the identifier, a dash, and the
/// role's name, as UTF-8 bytes.
pub open spec fn role_info(id: Seq<char>, direction: Direction) -> Seq<u8> {
    encode_utf8(id) + if direction == Direction::Sender {
        sender_info_suffix()
    } else {
        receiver_info_suffix()
    }
}

/// The confirmation value a role must present for a session key: the
/// 42-byte HKDF-SHA256 expansion of the key with that role's info
/// string.
pub open spec fn confirmation_of(key: Seq<u8>, id: Seq<char>, direction: Direction) -> Seq<u8> {
    hkdf42_of(key, role_info(id, direction))
}

/// Lower-level abstraction around the protocol. Use this directly for
/// more control than the higher-level Portal interface provides.
pub struct Protocol;

impl Protocol {
    /// Build the info bytes of one role.
    fn role_info_bytes(id: &String, direction: Direction) -> (r: Vec<u8>)
        ensures
            r@ == role_info(id@, direction),
    {
        let mut out = id.as_str().as_bytes_vec();
        let suffix: Vec<u8> = match direction {
            Direction::Sender => vec![45u8, 115u8, 101u8, 110u8, 100u8, 101u8, 114u8, 105u8, 110u8, 102u8, 111u8],
            Direction::Receiver => vec![45u8, 114u8, 101u8, 99u8, 101u8, 105u8, 118u8, 101u8, 114u8, 105u8, 110u8, 102u8, 111u8],
        };
        out.extend_from_slice(suffix.as_slice());
        proof {
            assert(out@ =~= role_info(id@, direction));
        }
        out
    }

    /// Compute the confirmation values of both roles for a session key:
    /// the sender's, then the receiver's.
    pub fn confirmation_values(id: &String, key: &Vec<u8>) -> (r: Result<
        (Vec<u8>, Vec<u8>),
        PortalError,
    >)
        ensures
            r is Ok,
            r matches Ok(p) ==> p.0@ == confirmation_of(key@, id@, Direction::Sender) && p.0@.len()
                == CONFIRM_SIZE && p.1@ == confirmation_of(key@, id@, Direction::Receiver)
                && p.1@.len() == CONFIRM_SIZE,
    {
        let sender_info = Self::role_info_bytes(id, Direction::Sender);
        let receiver_info = Self::role_info_bytes(id, Direction::Receiver);
        let sender_confirm = match crate::crypto::hkdf_expand42(key, &sender_info) {
            Ok(v) => v,
            Err(e) => { return Err(e) },
        };
        let receiver_confirm = match crate::crypto::hkdf_expand42(key, &receiver_info) {
            Ok(v) => v,
            Err(e) => { return Err(e) },
        };
        Ok((sender_confirm, receiver_confirm))
    }

    /// Decide whether the peer proved knowledge of the session key: the
    /// received confirmation is accepted exactly when it equals the
    /// HKDF value of the peer's role. A value that differs anywhere,
    /// even in one bit, is rejected with `PeerKeyMismatch`.
    pub fn check_peer_confirmation(
        id: &String,
        direction: Direction,
        key: &Vec<u8>,
        got: &PortalConfirmation,
    ) -> (r: Result<(), PortalError>)
        ensures
            r is Ok <==> got.0@ == confirmation_of(key@, id@, opposite_direction(direction)),
            r is Err ==> r == Err::<(), PortalError>(PortalError::PeerKeyMismatch),
    {
        let peer_role = match direction {
            Direction::Sender => Direction::Receiver,
            Direction::Receiver => Direction::Sender,
        };
        let info = Self::role_info_bytes(id, peer_role);
        let expected = match crate::crypto::hkdf_expand42(key, &info) {
            Ok(v) => v,
            Err(_) => { return Err(PortalError::PeerKeyMismatch) },
        };
        if bytes_eq(got.0.as_slice(), expected.as_slice()) {
            Ok(())
        } else {
            Err(PortalError::PeerKeyMismatch)
        }
    }

    /// Connect to a peer through the relay and exchange the initial key
    /// material: send our connect message, discard the peer's, send our
    /// key-exchange element and return the peer's.
    pub fn connect<P: Stream>(
        peer: &mut P,
        id: &String,
        direction: Direction,
        msg: PortalKeyExchange,
    ) -> (r: Result<PortalKeyExchange, PortalError>)
        ensures
            r matches Ok(x) ==> x.wf(),
    {
        let c = ConnectMessage { id: id.clone(), direction };
        match PortalMessage::Connect(c).send(peer) {
            Ok(_) => (),
            Err(e) => { return Err(e) },
        }
        // Nothing is done with the peer's connect message yet; it may
        // become useful for peer-to-peer setups.
        let _info = match PortalMessage::recv(peer) {
            Ok(m) => m,
            Err(e) => { return Err(e) },
        };
        match PortalMessage::KeyExchange(msg).send(peer) {
            Ok(_) => (),
            Err(e) => { return Err(e) },
        }
        match PortalMessage::recv(peer) {
            Ok(PortalMessage::KeyExchange(data)) => Ok(data),
            Ok(_) => Err(PortalError::BadMsg),
            Err(_) => Err(PortalError::IOError),
        }
    }

    /// Derive the shared session key from the consumed PAKE state and
    /// the peer's key-exchange payload. After this point the key is
    /// derived but the peer is not yet verified.
    pub fn derive_key(state: PakeState, peer_data: &PortalKeyExchange) -> (r: Result<
        Vec<u8>,
        PortalError,
    >)
        ensures
            r matches Ok(k) ==> k@.len() == 32,
            r is Err ==> r == Err::<Vec<u8>, PortalError>(PortalError::BadMsg),
    {
        match crate::crypto::spake2_finish(state, &peer_data.0) {
            Ok(k) => Ok(k),
            Err(_) => Err(PortalError::BadMsg),
        }
    }

    /// Use the derived session key to verify that the peer derived the
    /// same key: send our role's confirmation value, receive the
    /// peer's, and require it to equal the HKDF value of the peer's
    /// role, comparing every byte. After this the peer is fully
    /// confirmed.
    pub fn confirm_peer<P: Stream>(
        peer: &mut P,
        id: &String,
        direction: Direction,
        key: &Vec<u8>,
    ) -> (r: Result<(), PortalError>)
        ensures
            r matches Err(e) ==> e == PortalError::IOError || e == PortalError::BadMsg
                || e == PortalError::PeerKeyMismatch,
    {
        let (sender_confirm, receiver_confirm) = match Self::confirmation_values(id, key) {
            Ok(p) => p,
            Err(_) => { return Err(PortalError::BadMsg) },
        };
        // Determine our message based on direction.
        let to_send = match direction {
            Direction::Sender => sender_confirm,
            Direction::Receiver => receiver_confirm,
        };
        match PortalMessage::Confirm(PortalConfirmation(to_send)).send(peer) {
            Ok(_) => (),
            Err(_) => { return Err(PortalError::IOError) },
        }
        let peer_msg = match PortalMessage::recv(peer) {
            Ok(PortalMessage::Confirm(inner)) => inner,
            Ok(_) => { return Err(PortalError::BadMsg) },
            Err(_) => { return Err(PortalError::IOError) },
        };
        match Self::check_peer_confirmation(id, direction, key, &peer_msg) {
            Ok(()) => Ok(()),
            Err(e) => Err(e),
        }
    }

    /// Read an encrypted message from the peer, writing the resulting
    /// decrypted data into the front of the provided storage region,
    /// and return how many bytes of it were filled. The storage keeps
    /// its length; bytes past the frame keep their old values. What the
    /// peer sent cannot be constrained here; the frame's tag must
    /// authenticate its ciphertext or the read fails.
    pub fn read_encrypted_zero_copy<R: Stream>(
        reader: &mut R,
        key: &Vec<u8>,
        storage: &mut Vec<u8>,
    ) -> (r: Result<usize, PortalError>)
        requires
            key@.len() == 32,
            old(storage)@.len() < 0x100000000,
        ensures
            final(storage)@.len() == old(storage)@.len(),
            r matches Ok(n) ==> n <= old(storage)@.len() && final(storage)@.skip(n as int) == old(storage)@.skip(n as int),
            r matches Err(e) ==> final(storage)@ == old(storage)@ && (e == PortalError::IOError
                || e == PortalError::BadMsg || e == PortalError::BufferTooSmall
                || e == PortalError::DecryptError),
    {
        // Receive the message header; only an encrypted-data header may
        // stand here.
        let msg = match PortalMessage::recv(reader) {
            Ok(PortalMessage::EncryptedDataHeader(m)) => m,
            Ok(_) => { return Err(PortalError::BadMsg) },
            Err(_) => { return Err(PortalError::IOError) },
        };
        // Check that the storage region has enough room.
        if storage.len() < msg.len {
            return Err(PortalError::BufferTooSmall);
        }
        // Read the ciphertext and decrypt it in place.
        let mut data = match read_exact(reader, msg.len) {
            Ok(v) => v,
            Err(_) => { return Err(PortalError::IOError) },
        };
        let n = match msg.decrypt(key, &mut data) {
            Ok(n) => n,
            Err(e) => { return Err(e) },
        };
        // Lay the plaintext over the front of the storage region.
        let mut rebuilt = data;
        let mut tail = copy_range(storage.as_slice(), n, storage.len());
        rebuilt.append(&mut tail);
        proof {
            assert(rebuilt@.skip(n as int) =~= old(storage)@.skip(n as int));
        }
        *storage = rebuilt;
        Ok(n)
    }

    /// Read one encrypted envelope and return its decrypted payload,
    /// staged through a fixed-size scratch region large enough for
    /// manifest and metadata messages.
    pub fn read_encrypted_from<R: Stream>(reader: &mut R, key: &Vec<u8>) -> (r: Result<
        Vec<u8>,
        PortalError,
    >)
        requires
            key@.len() == 32,
        ensures
            r matches Ok(v) ==> v@.len() <= OBJECT_SCRATCH_SIZE,
            r matches Err(e) ==> e == PortalError::IOError || e == PortalError::BadMsg
                || e == PortalError::BufferTooSmall || e == PortalError::DecryptError,
    {
        let mut storage: Vec<u8> = vec![0u8; OBJECT_SCRATCH_SIZE];
        let n = match Self::read_encrypted_zero_copy(reader, key, &mut storage) {
            Ok(n) => n,
            Err(e) => { return Err(e) },
        };
        storage.truncate(n);
        Ok(storage)
    }

    /// Encrypt the serialized bytes of an object in place and send the
    /// encrypted-data header followed by the ciphertext; returns the
    /// payload's length. The nonce is drawn from the session's
    /// sequence.
    pub fn encrypt_and_write_object<W: Stream>(
        writer: &mut W,
        key: &Vec<u8>,
        nseq: &mut NonceSequence,
        data: &mut Vec<u8>,
    ) -> (r: Result<usize, PortalError>)
        requires
            key@.len() == 32,
            old(nseq).wf(),
            old(data)@.len() < 0x100000000,
        ensures
            final(nseq).wf(),
            r matches Ok(n) ==> n == old(data)@.len() && final(data)@ == chacha_ct(
                key@,
                be_bytes(old(nseq).next_val(), 12),
                old(data)@,
            ) && final(nseq).next_val() == (old(nseq).next_val() + 1) % (NONCE_SPACE as nat),
            r matches Err(e) ==> e == PortalError::IOError,
    {
        let header = match EncryptedMessage::encrypt(key, nseq, data) {
            Ok(h) => h,
            Err(e) => { return Err(e) },
        };
        match PortalMessage::EncryptedDataHeader(header).send(writer) {
            Ok(_) => (),
            Err(e) => { return Err(e) },
        }
        match writer.write_all_bytes(data.as_slice()) {
            Ok(()) => Ok(data.len()),
            Err(_) => Err(PortalError::IOError),
        }
    }

    /// Encrypt a region in place and send only the encrypted-data
    /// header; the caller writes the ciphertext itself, which avoids a
    /// copy for file chunks. Returns the header's size on the wire.
    pub fn encrypt_and_write_header_only<W: Stream>(
        writer: &mut W,
        key: &Vec<u8>,
        nseq: &mut NonceSequence,
        data: &mut Vec<u8>,
    ) -> (r: Result<usize, PortalError>)
        requires
            key@.len() == 32,
            old(nseq).wf(),
            old(data)@.len() < 0x100000000,
        ensures
            final(nseq).wf(),
            r matches Ok(n) ==> final(data)@ == chacha_ct(
                key@,
                be_bytes(old(nseq).next_val(), 12),
                old(data)@,
            ) && final(data)@.len() == old(data)@.len() && final(nseq).next_val() == (old(nseq).next_val() + 1) % (NONCE_SPACE as nat),
            r matches Ok(n) ==> n == ENCRYPTED_HEADER_WIRE_SIZE,
            r matches Err(e) ==> e == PortalError::IOError,
    {
        let header = match EncryptedMessage::encrypt(key, nseq, data) {
            Ok(h) => h,
            Err(e) => { return Err(e) },
        };
        let msg = PortalMessage::EncryptedDataHeader(header);
        proof {
            lemma_auto_spec_u64_to_from_le_bytes();
            assert(encode_model(msg.model()).len() == ENCRYPTED_HEADER_WIRE_SIZE);
        }
        msg.send(writer)
    }
}

} // verus!
