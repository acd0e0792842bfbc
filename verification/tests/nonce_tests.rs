use portal_lib::protocol::NonceSequence;

#[test]
fn test_nonce() {
    let mut n = NonceSequence::new();
    let mut old: Vec<u8> = vec![0u8; 12];
    for _ in 0..5_000_000 {
        let new = n.next_unique().unwrap();
        // test that every nonce is greater than the last
        // which means it is larger & different than all previous
        assert!(new > old);
        old = new;
    }
}

#[test]
fn nonce_has_wire_size() {
    let mut n = NonceSequence::new();
    let nonce = n.next_unique().unwrap();
    assert_eq!(nonce.len(), 12);
}

#[test]
fn nonce_counts_up_in_big_endian() {
    let mut n = NonceSequence::new();
    let a = n.next_unique().unwrap();
    let b = n.next_unique().unwrap();
    // The two nonces differ by exactly one as 96-bit big-endian
    // integers (no carry out of range for a random start).
    let mut expected = a.clone();
    let mut i = 11;
    loop {
        if expected[i] == 0xFF {
            expected[i] = 0;
            if i == 0 {
                break;
            }
            i -= 1;
        } else {
            expected[i] += 1;
            break;
        }
    }
    assert_eq!(b, expected);
}
