use ring::signature::KeyPair;
use txauth::address::Address;
use txauth::key_pair;
use txauth::transaction::{
    generate_random_transaction, sign, sign_envelope, verify, verify_envelope, Transaction,
};

fn addr(byte: u8) -> Address {
    Address {
        bytes: vec![byte; 20],
    }
}

#[test]
fn sign_verify() {
    let t = generate_random_transaction();
    let key = key_pair::random();
    let signature = sign(&t, &key);
    assert!(verify(&t, key.public_key().as_ref(), signature.as_ref()));
}

#[test]
fn sign_verify_two() {
    let t = generate_random_transaction();
    let key = key_pair::random();
    let signature = sign(&t, &key);
    let key_2 = key_pair::random();
    let t_2 = generate_random_transaction();
    assert!(!verify(&t_2, key.public_key().as_ref(), signature.as_ref()));
    assert!(!verify(&t, key_2.public_key().as_ref(), signature.as_ref()));
}

#[test]
fn scenario_value_transfer() {
    // T = {sender=A, receiver=B, value=100}, signed with key K1.
    let t = Transaction {
        sender: addr(0xAA),
        receiver: addr(0xBB),
        value: 100,
    };
    let k1 = key_pair::random();
    let sig = sign(&t, &k1);
    assert!(verify(&t, k1.public_key().as_ref(), sig.as_ref()));

    // The same signature checked against a record with value 101.
    let t_changed = Transaction {
        sender: addr(0xAA),
        receiver: addr(0xBB),
        value: 101,
    };
    assert!(!verify(&t_changed, k1.public_key().as_ref(), sig.as_ref()));

    // The same signature checked against an unrelated public key.
    let k2 = key_pair::random();
    assert!(!verify(&t, k2.public_key().as_ref(), sig.as_ref()));
}

#[test]
fn verify_rejects_malformed_signatures() {
    let t = Transaction {
        sender: addr(0x01),
        receiver: addr(0x02),
        value: -7,
    };
    let key = key_pair::random();
    let pk = key.public_key().as_ref().to_vec();
    let sig = sign(&t, &key);

    assert!(!verify(&t, &pk, &[]));
    assert!(!verify(&t, &pk, &sig[..63]));
    assert!(!verify(&t, &pk, &vec![0xAA; 64]));
    assert!(!verify(&t, &pk, &vec![0x00; 64]));
    assert!(!verify(&t, &pk, &vec![0x55; 65]));
}

#[test]
fn verify_rejects_malformed_public_keys() {
    let t = Transaction {
        sender: addr(0x03),
        receiver: addr(0x04),
        value: 42,
    };
    let key = key_pair::random();
    let sig = sign(&t, &key);

    assert!(!verify(&t, &[], &sig));
    assert!(!verify(&t, &key.public_key().as_ref()[..31], &sig));
    assert!(!verify(&t, &vec![0x00; 32], &sig));
    assert!(!verify(&t, &vec![0xC7; 32], &sig));
}

#[test]
fn envelope_round_trip() {
    let t = Transaction {
        sender: addr(0x11),
        receiver: addr(0x22),
        value: i32::MIN,
    };
    let key = key_pair::random();
    let st = sign_envelope(&t, &key);
    assert_eq!(st.signature.len(), 64);
    assert_eq!(st.public_key.len(), 32);
    assert_eq!(st.public_key, key.public_key().as_ref().to_vec());
    assert_eq!(st.transaction.sender.bytes, t.sender.bytes);
    assert_eq!(st.transaction.receiver.bytes, t.receiver.bytes);
    assert_eq!(st.transaction.value, t.value);
    assert!(verify_envelope(&st));
}

#[test]
fn envelope_tampering_is_detected() {
    let t = Transaction {
        sender: addr(0x11),
        receiver: addr(0x22),
        value: 500,
    };
    let key = key_pair::random();
    let mut st = sign_envelope(&t, &key);
    st.transaction.value = 501;
    assert!(!verify_envelope(&st));
}

#[test]
fn random_transactions_are_well_formed() {
    let t = generate_random_transaction();
    assert_eq!(t.sender.bytes.len(), 20);
    assert_eq!(t.receiver.bytes.len(), 20);
}

#[test]
fn cloned_transaction_verifies_under_original_signature() {
    let t = generate_random_transaction();
    let key = key_pair::random();
    let sig = sign(&t, &key);
    let copy = t.clone();
    assert!(verify(&copy, key.public_key().as_ref(), sig.as_ref()));
}
