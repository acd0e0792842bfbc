use portal_lib::errors::PortalError;
use portal_lib::protocol::{Direction, TransferInfo};
use portal_lib::stream::Stream;
use portal_lib::{Portal, CHUNK_SIZE};
use std::cell::RefCell;
use std::collections::VecDeque;
use std::rc::Rc;

/// An in-memory byte stream: what one side writes the other reads.
struct PipeStream {
    incoming: Rc<RefCell<VecDeque<u8>>>,
    outgoing: Rc<RefCell<VecDeque<u8>>>,
}

impl Stream for PipeStream {
    fn read_exact_bytes(&mut self, n: usize) -> Result<Vec<u8>, PortalError> {
        let mut q = self.incoming.borrow_mut();
        if q.len() < n {
            return Err(PortalError::IOError);
        }
        let mut out = Vec::with_capacity(n);
        for _ in 0..n {
            out.push(q.pop_front().unwrap());
        }
        Ok(out)
    }

    fn write_all_bytes(&mut self, data: &[u8]) -> Result<(), PortalError> {
        let mut q = self.outgoing.borrow_mut();
        for b in data {
            q.push_back(*b);
        }
        Ok(())
    }
}

fn pair() -> (PipeStream, PipeStream) {
    let a = Rc::new(RefCell::new(VecDeque::new()));
    let b = Rc::new(RefCell::new(VecDeque::new()));
    (
        PipeStream {
            incoming: Rc::clone(&a),
            outgoing: Rc::clone(&b),
        },
        PipeStream {
            incoming: b,
            outgoing: a,
        },
    )
}

/// Two sessions that already agreed on a key, as after a handshake.
fn keyed_pair() -> (Portal, Portal) {
    let key = vec![42u8; 32];
    let mut sender =
        Portal::init(Direction::Sender, "id".to_string(), "test".to_string()).unwrap();
    sender.set_key(key.clone());
    let mut receiver =
        Portal::init(Direction::Receiver, "id".to_string(), "test".to_string()).unwrap();
    receiver.set_key(key);
    (sender, receiver)
}

#[test]
fn happy_path_single_file() {
    let (mut sender, mut receiver) = keyed_pair();
    let (mut sstream, mut rstream) = pair();

    let mut info = TransferInfo::empty();
    info.add_file("/tmp/a.bin", 1000).unwrap();
    sender.outgoing(&mut sstream, &info).unwrap();

    let contents = vec![0xABu8; 1000];
    let sent = sender
        .send_file(&mut sstream, "/tmp/a.bin", &contents, None::<fn(usize)>)
        .unwrap();
    assert_eq!(sent, 1000);

    let got = receiver
        .incoming(&mut rstream, None::<fn(&TransferInfo) -> bool>)
        .unwrap();
    assert_eq!(got.all.len(), 1);
    assert_eq!(got.all[0].filename, "a.bin");
    assert_eq!(got.all[0].filesize, 1000);

    let (md, bytes) = receiver
        .recv_file(&mut rstream, Some(&got.all[0]), None::<fn(usize)>)
        .unwrap();
    assert_eq!(md.filename, "a.bin");
    assert_eq!(md.filesize, 1000);
    assert_eq!(bytes, contents);
}

#[test]
fn test_file_roundtrip() {
    let (mut sender, mut receiver) = keyed_pair();
    let (mut sstream, mut rstream) = pair();

    let contents = b"Test File\n".to_vec();
    let sent_size = sender
        .send_file(
            &mut sstream,
            "/tmp/randomfile.txt",
            &contents,
            None::<fn(usize)>,
        )
        .unwrap();

    let (metadata, bytes) = receiver
        .recv_file(&mut rstream, None, None::<fn(usize)>)
        .unwrap();

    assert_eq!(metadata.filesize, sent_size as u64);
    assert_eq!(metadata.filename, "randomfile.txt");
    assert_eq!(bytes, contents);
}

#[test]
fn empty_file_transfers() {
    let (mut sender, mut receiver) = keyed_pair();
    let (mut sstream, mut rstream) = pair();

    let contents: Vec<u8> = Vec::new();
    let sent = sender
        .send_file(&mut sstream, "/tmp/empty", &contents, None::<fn(usize)>)
        .unwrap();
    assert_eq!(sent, 0);

    let (md, bytes) = receiver
        .recv_file(&mut rstream, None, None::<fn(usize)>)
        .unwrap();
    assert_eq!(md.filename, "empty");
    assert_eq!(md.filesize, 0);
    assert!(bytes.is_empty());
}

#[test]
fn two_file_manifest_in_order() {
    let (mut sender, mut receiver) = keyed_pair();
    let (mut sstream, mut rstream) = pair();

    let mut info = TransferInfo::empty();
    info.add_file("/tmp/a", 10).unwrap();
    info.add_file("/tmp/b", 100_000).unwrap();
    sender.outgoing(&mut sstream, &info).unwrap();

    let a = vec![0x01u8; 10];
    let b = vec![0x02u8; 100_000];
    sender
        .send_file(&mut sstream, "/tmp/a", &a, None::<fn(usize)>)
        .unwrap();
    sender
        .send_file(&mut sstream, "/tmp/b", &b, None::<fn(usize)>)
        .unwrap();

    let got = receiver
        .incoming(&mut rstream, None::<fn(&TransferInfo) -> bool>)
        .unwrap();
    assert_eq!(got.all.len(), 2);
    assert_eq!(got.all[0].filename, "a");
    assert_eq!(got.all[1].filename, "b");

    let (md_a, bytes_a) = receiver
        .recv_file(&mut rstream, Some(&got.all[0]), None::<fn(usize)>)
        .unwrap();
    assert_eq!(md_a.filename, "a");
    assert_eq!(bytes_a, a);
    let (md_b, bytes_b) = receiver
        .recv_file(&mut rstream, Some(&got.all[1]), None::<fn(usize)>)
        .unwrap();
    assert_eq!(md_b.filename, "b");
    assert_eq!(bytes_b, b);
}

#[test]
fn exact_chunk_multiple_transfers_fully() {
    let (mut sender, mut receiver) = keyed_pair();
    let (mut sstream, mut rstream) = pair();

    // Exactly two full chunks: the final chunk carries zero bytes
    // beyond the last full one, and the total equals the declared
    // size.
    let size = 2 * CHUNK_SIZE;
    let contents = vec![0x5Au8; size];
    let sent = sender
        .send_file(&mut sstream, "/tmp/exact", &contents, None::<fn(usize)>)
        .unwrap();
    assert_eq!(sent, size);

    let (md, bytes) = receiver
        .recv_file(&mut rstream, None, None::<fn(usize)>)
        .unwrap();
    assert_eq!(md.filesize as usize, size);
    assert_eq!(bytes.len(), size);
    assert_eq!(bytes, contents);
}

#[test]
fn test_incoming_cancel() {
    let (mut sender, mut receiver) = keyed_pair();
    let (mut sstream, mut rstream) = pair();

    let mut info = TransferInfo::empty();
    info.add_file("/tmp/randomfile.txt", 10).unwrap();
    sender.outgoing(&mut sstream, &info).unwrap();
    let contents = b"Test File\n".to_vec();
    let result = sender.send_file(
        &mut sstream,
        "/tmp/randomfile.txt",
        &contents,
        None::<fn(usize)>,
    );
    assert!(result.is_ok());

    // A verify callback that cancels every download.
    fn cancel_all(_info: &TransferInfo) -> bool {
        false
    }

    let result = receiver.incoming(&mut rstream, Some(cancel_all));
    assert!(result.is_err());
    assert_eq!(result.unwrap_err(), PortalError::Cancelled);
}

#[test]
fn test_display_callback() {
    let (mut sender, mut receiver) = keyed_pair();
    let (mut sstream, mut rstream) = pair();

    let contents = b"Test File\n".to_vec();
    let file_size = contents.len() as u64;

    // Display callback: never reports more than the file holds.
    let progress = move |size: usize| {
        assert!(size as u64 <= file_size);
    };

    let result = sender.send_file(
        &mut sstream,
        "/tmp/randomfile.txt",
        &contents,
        Some(progress),
    );
    assert!(result.is_ok());

    let result = receiver.recv_file(&mut rstream, None, Some(progress));
    assert!(result.is_ok());
}

#[test]
fn send_file_bad_path_is_bad_filename() {
    let (mut sender, _receiver) = keyed_pair();
    let (mut sstream, _remote) = pair();

    // The key is set, but the path has no usable leaf: the library's
    // own decision, made before anything touches the stream.
    let contents = vec![1u8; 4];
    let result = sender.send_file(&mut sstream, "/etc/..", &contents, None::<fn(usize)>);
    assert_eq!(result.unwrap_err(), PortalError::BadFileName);
}

#[test]
fn mismatched_expectation_is_bad_msg() {
    let (mut sender, mut receiver) = keyed_pair();
    let (mut sstream, mut rstream) = pair();

    let contents = vec![1u8; 8];
    sender
        .send_file(&mut sstream, "/tmp/a", &contents, None::<fn(usize)>)
        .unwrap();

    let expected = portal_lib::protocol::Metadata {
        filesize: 9,
        filename: "a".to_string(),
    };
    let result = receiver.recv_file(&mut rstream, Some(&expected), None::<fn(usize)>);
    assert_eq!(result.unwrap_err(), PortalError::BadMsg);
}
