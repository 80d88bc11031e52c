use co2mon::decrypt;

#[test]
fn test_decrypt() {
    let data = [0x6c, 0xa4, 0xa2, 0xb6, 0x5d, 0x9a, 0x9c, 0x08];
    let key = [0; 8];

    let data = decrypt(data, key);
    assert_eq!(data, [0x50, 0x04, 0x57, 0xab, 0x0d, 0x00, 0x00, 0x00]);
}

#[test]
fn test_decrypt_deterministic() {
    let data = [0x6c, 0xa4, 0xa2, 0xb6, 0x5d, 0x9a, 0x9c, 0x08];
    let key = [0x62, 0xea, 0x1d, 0x4f, 0x14, 0xfa, 0xe5, 0x6c];

    let first = decrypt(data, key);
    let second = decrypt(data, key);
    assert_eq!(first, second);
}

#[test]
fn test_decrypt_key_matters() {
    // The key enters through the XOR stage: the same frame decrypted with
    // a different key must give a different cleartext.
    let data = [0x6c, 0xa4, 0xa2, 0xb6, 0x5d, 0x9a, 0x9c, 0x08];
    let zero_key = decrypt(data, [0; 8]);
    let one_key = decrypt(data, [1, 0, 0, 0, 0, 0, 0, 0]);
    assert_ne!(zero_key, one_key);
}
