use txauth::address::Address;
use txauth::codec::encode;
use txauth::transaction::Transaction;

fn tx(sender: u8, receiver: u8, value: i32) -> Transaction {
    Transaction {
        sender: Address {
            bytes: vec![sender; 20],
        },
        receiver: Address {
            bytes: vec![receiver; 20],
        },
        value,
    }
}

#[test]
fn encoding_is_deterministic() {
    let t = tx(0x10, 0x20, 123456789);
    assert_eq!(encode(&t), encode(&t));
    let copy = t.clone();
    assert_eq!(encode(&t), encode(&copy));
}

#[test]
fn encoding_layout_positive_value() {
    let t = tx(0xAA, 0xBB, 100);
    let mut expected = vec![0xAA; 20];
    expected.extend(vec![0xBB; 20]);
    expected.extend([100, 0, 0, 0]);
    assert_eq!(encode(&t), expected);
}

#[test]
fn encoding_layout_negative_value() {
    let t = tx(0x00, 0xFF, -2);
    let mut expected = vec![0x00; 20];
    expected.extend(vec![0xFF; 20]);
    expected.extend([254, 255, 255, 255]);
    assert_eq!(encode(&t), expected);
}

#[test]
fn encoding_layout_extreme_values() {
    let low = tx(0x01, 0x02, i32::MIN);
    assert_eq!(&encode(&low)[40..], &[0, 0, 0, 128]);
    let high = tx(0x01, 0x02, i32::MAX);
    assert_eq!(&encode(&high)[40..], &[255, 255, 255, 127]);
    let zero = tx(0x01, 0x02, 0);
    assert_eq!(&encode(&zero)[40..], &[0, 0, 0, 0]);
}

#[test]
fn distinct_transactions_encode_differently() {
    let t = tx(0x05, 0x06, 7);
    assert_ne!(encode(&t), encode(&tx(0x05, 0x06, 8)));
    assert_ne!(encode(&t), encode(&tx(0x05, 0x07, 7)));
    assert_ne!(encode(&t), encode(&tx(0x04, 0x06, 7)));
}

#[test]
fn address_from_public_key_bytes_is_sha256_tail() {
    // SHA-256 of the empty string is
    // e3b0c44298fc1c149afbf4c8996fb92427ae41e4649b934ca495991b7852b855;
    // an address is the last 20 bytes of the digest.
    let a = Address::from_public_key_bytes(&[]);
    assert_eq!(
        a.bytes,
        vec![
            0x99, 0x6f, 0xb9, 0x24, 0x27, 0xae, 0x41, 0xe4, 0x64, 0x9b, 0x93, 0x4c, 0xa4, 0x95,
            0x99, 0x1b, 0x78, 0x52, 0xb8, 0x55
        ]
    );
}

#[test]
fn address_derivation_is_deterministic() {
    let pk = [7u8; 32];
    let a = Address::from_public_key_bytes(&pk);
    let b = Address::from_public_key_bytes(&pk);
    assert_eq!(a.bytes, b.bytes);
    assert_eq!(a.bytes.len(), 20);
    let c = Address::from_public_key_bytes(&[8u8; 32]);
    assert_ne!(a.bytes, c.bytes);
}
