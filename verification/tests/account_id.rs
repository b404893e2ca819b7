use full_service::account_id::AccountID;

#[test]
fn account_id_of_zero_digest_is_sixty_four_zeros() {
    let id = AccountID::from_digest(&[0u8; 32]);
    assert_eq!(id.0, "0".repeat(64));
}

#[test]
fn account_id_is_lowercase_hex_high_nibble_first() {
    let mut digest = [0u8; 32];
    digest[0] = 0x0f;
    digest[1] = 0xa0;
    digest[2] = 0xff;
    digest[31] = 0x9b;
    let id = AccountID::from_digest(&digest);
    let mut expected = String::from("0fa0ff");
    expected.push_str(&"00".repeat(28));
    expected.push_str("9b");
    assert_eq!(id.0, expected);
    assert_eq!(id.0.len(), 64);
}

#[test]
fn distinct_digests_give_distinct_ids() {
    let a = AccountID::from_digest(&[1u8; 32]);
    let b = AccountID::from_digest(&[16u8; 32]);
    assert_eq!(a.0, "01".repeat(32));
    assert_eq!(b.0, "10".repeat(32));
    assert_ne!(a.0, b.0);
}

#[test]
fn account_id_text_is_its_hex() {
    let id = AccountID::from_digest(&[0xabu8; 32]);
    assert_eq!(id.to_string(), "ab".repeat(32));
    assert_eq!(id.clone_id().0, id.0);
}
