use tx_signing::hash::{hash_tx, TxHash, HASH_LENGTH};

#[test]
fn hash_of_abc_is_the_known_digest() {
    let hash = hash_tx(b"abc");
    assert_eq!(
        hash.to_string(),
        "BA7816BF8F01CFEA414140DE5DAE2223B00361A396177A9CB410FF61F20015AD"
    );
}

#[test]
fn hash_of_nothing_is_the_known_digest() {
    let hash = hash_tx(&[]);
    assert_eq!(
        hash.to_string(),
        "E3B0C44298FC1C149AFBF4C8996FB92427AE41E4649B934CA495991B7852B855"
    );
}

#[test]
fn hash_is_not_its_input() {
    let input = [7u8; 32];
    let hash = hash_tx(&input);
    assert_ne!(hash.0, input);
    assert_eq!(hash.0.len(), HASH_LENGTH);
}

#[test]
fn hash_is_the_same_every_time() {
    let bytes = vec![1u8, 2, 3, 4, 5];
    assert_eq!(hash_tx(&bytes), hash_tx(&bytes));
    assert_eq!(hash_tx(&bytes).to_string(), hash_tx(&bytes).to_string());
}

#[test]
fn text_has_two_upper_case_digits_per_byte() {
    let mut bytes = [0u8; 32];
    bytes[0] = 0x00;
    bytes[1] = 0x09;
    bytes[2] = 0x0a;
    bytes[3] = 0x0f;
    bytes[4] = 0x10;
    bytes[5] = 0x9a;
    bytes[6] = 0xa9;
    bytes[7] = 0xff;
    let text = TxHash(bytes).to_string();
    assert_eq!(text.len(), 2 * HASH_LENGTH);
    assert_eq!(&text[..16], "00090A0F109AA9FF");
    assert_eq!(&text[16..], "0".repeat(48));
}

#[test]
fn text_agrees_with_formatting_each_byte() {
    let mut bytes = [0u8; 32];
    for (i, byte) in bytes.iter_mut().enumerate() {
        *byte = (i as u8).wrapping_mul(37).wrapping_add(11);
    }
    let mut expected = String::new();
    for byte in bytes {
        expected.push_str(&format!("{:02X}", byte));
    }
    assert_eq!(TxHash(bytes).to_string(), expected);
}

#[test]
fn different_digests_have_different_text() {
    let mut one = [0u8; 32];
    let mut other = [0u8; 32];
    one[31] = 0x1f;
    other[31] = 0xf1;
    assert_ne!(TxHash(one).to_string(), TxHash(other).to_string());
}

#[test]
fn tracking_hashes_of_fixed_bytes() {
    let (wrapper_hash, decrypted_hash) = tx_signing::tracking_hashes(b"abc", &hash_tx(&[]));
    assert_eq!(
        wrapper_hash,
        "BA7816BF8F01CFEA414140DE5DAE2223B00361A396177A9CB410FF61F20015AD"
    );
    assert_eq!(
        decrypted_hash,
        "E3B0C44298FC1C149AFBF4C8996FB92427AE41E4649B934CA495991B7852B855"
    );
}
