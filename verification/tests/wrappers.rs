use sha2::Digest;
use tx_signing::hash::hash_tx;
use tx_signing::types::{Address, Epoch, PublicKeyHash, Tx};
use tx_signing::wrapper::{EncryptionKey, Fee, WrapperTx};

fn wrapper(token: Address, inner: Vec<u8>) -> WrapperTx {
    WrapperTx::new(
        Fee { amount: 10, token },
        Epoch(5),
        1000,
        Tx { bytes: inner },
        EncryptionKey::default(),
    )
}

#[test]
fn new_wrapper_keeps_its_fields() {
    let made = wrapper(Address::Established(vec![0xaa, 0xbb]), vec![1, 2, 3]);
    assert_eq!(made.fee, Fee { amount: 10, token: Address::Established(vec![0xaa, 0xbb]) });
    assert_eq!(made.epoch, Epoch(5));
    assert_eq!(made.gas_limit, 1000);
    assert_eq!(made.encryption_key, EncryptionKey::Placeholder);
    assert_eq!(made.inner_tx, Tx { bytes: vec![1, 2, 3] });
}

#[test]
fn new_wrapper_carries_the_hash_of_its_inner_tx() {
    let made = wrapper(Address::Established(vec![0xaa, 0xbb]), b"abc".to_vec());
    assert_eq!(made.tx_hash, hash_tx(b"abc"));
    assert_eq!(
        made.tx_hash.to_string(),
        "BA7816BF8F01CFEA414140DE5DAE2223B00361A396177A9CB410FF61F20015AD"
    );
}

#[test]
fn default_encryption_key_is_the_placeholder() {
    assert_eq!(EncryptionKey::default(), EncryptionKey::Placeholder);
    assert_eq!(EncryptionKey::Placeholder.tag_byte(), 0);
}

#[test]
fn serialized_wrapper_has_every_field_in_order() {
    let inner = vec![0xde, 0xad, 0xbe, 0xef, 0x01];
    let made = wrapper(Address::Established(vec![0xaa, 0xbb, 0xcc]), inner.clone());
    let bytes = made.try_to_vec().expect("a short wrapper has a serialized form");

    let mut expected: Vec<u8> = Vec::new();
    expected.extend_from_slice(&[10, 0, 0, 0, 0, 0, 0, 0]);
    expected.push(0);
    expected.extend_from_slice(&[3, 0, 0, 0]);
    expected.extend_from_slice(&[0xaa, 0xbb, 0xcc]);
    expected.extend_from_slice(&[5, 0, 0, 0, 0, 0, 0, 0]);
    expected.extend_from_slice(&[0xe8, 0x03, 0, 0, 0, 0, 0, 0]);
    expected.push(0);
    expected.extend_from_slice(&[5, 0, 0, 0]);
    expected.extend_from_slice(&inner);
    expected.extend_from_slice(sha2::Sha256::digest(&inner).as_slice());

    assert_eq!(bytes, expected);
    assert_eq!(bytes.len(), 8 + 1 + 4 + 3 + 8 + 8 + 1 + 4 + 5 + 32);
}

#[test]
fn serialized_wrapper_tells_the_kinds_of_address_apart() {
    let established = wrapper(Address::Established(vec![1, 2]), vec![9]).try_to_vec().unwrap();
    let implicit = wrapper(Address::Implicit(PublicKeyHash { bytes: vec![1, 2] }), vec![9])
        .try_to_vec()
        .unwrap();
    let internal = wrapper(Address::Internal(vec![1, 2]), vec![9]).try_to_vec().unwrap();
    assert_eq!(established[8], 0);
    assert_eq!(implicit[8], 1);
    assert_eq!(internal[8], 2);
    assert_eq!(established[..8], implicit[..8]);
    assert_eq!(established[9..], implicit[9..]);
    assert_eq!(established[9..], internal[9..]);
}

#[test]
fn serialized_wrapper_of_empty_parts() {
    let made = wrapper(Address::Internal(vec![]), vec![]);
    let bytes = made.try_to_vec().unwrap();
    assert_eq!(bytes.len(), 8 + 1 + 4 + 8 + 8 + 1 + 4 + 32);
    assert_eq!(bytes[8], 2);
    assert_eq!(bytes[9..13], [0, 0, 0, 0]);
    assert_eq!(bytes[30..34], [0, 0, 0, 0]);
    assert_eq!(bytes[34..], hash_tx(&[]).0);
}

#[test]
fn serialized_wrapper_is_longer_than_its_inner_tx() {
    let inner = vec![0x42; 100];
    let bytes = wrapper(Address::Established(vec![]), inner.clone()).try_to_vec().unwrap();
    assert!(bytes.len() > inner.len());
    assert_ne!(bytes, inner);
}

#[test]
fn address_kind_and_id() {
    assert_eq!(Address::Established(vec![4, 5]).kind(), 0);
    assert_eq!(Address::Implicit(PublicKeyHash { bytes: vec![6] }).kind(), 1);
    assert_eq!(Address::Internal(vec![7]).kind(), 2);
    assert_eq!(Address::Established(vec![4, 5]).id(), &vec![4, 5]);
    assert_eq!(Address::Implicit(PublicKeyHash { bytes: vec![6] }).id(), &vec![6]);
    assert_eq!(Address::Internal(vec![7]).id(), &vec![7]);
    assert!(Address::Implicit(PublicKeyHash { bytes: vec![6] }).is_implicit());
    assert!(!Address::Established(vec![4, 5]).is_implicit());
    assert!(!Address::Internal(vec![7]).is_implicit());
}
