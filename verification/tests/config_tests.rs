use faucet::config::{decode_private_key, gwei_to_wei};

const KEY_HEX: &str = "000102030405060708090a0b0c0d0e0f101112131415161718191a1b1c1d1e1f";

#[test]
fn decodes_key_with_prefix() {
    let with_prefix = format!("0x{}", KEY_HEX);
    let k = decode_private_key(&with_prefix).expect("well-formed key");
    for (i, b) in k.iter().enumerate() {
        assert_eq!(*b as usize, i);
    }
}

#[test]
fn decodes_key_without_prefix() {
    let k = decode_private_key(KEY_HEX).expect("well-formed key");
    assert_eq!(k[0], 0);
    assert_eq!(k[31], 0x1f);
}

#[test]
fn decodes_mixed_case_key() {
    let k = decode_private_key("0xAaBbCcDdEeFf00112233445566778899aabbccddeeff00112233445566778899")
        .expect("well-formed key");
    assert_eq!(k[0], 0xaa);
    assert_eq!(k[5], 0xff);
    assert_eq!(k[31], 0x99);
}

#[test]
fn rejects_wrong_length_key() {
    assert!(decode_private_key("0x0001").is_none());
    let short = &KEY_HEX[..63];
    assert!(decode_private_key(short).is_none());
    let long = format!("{}00", KEY_HEX);
    assert!(decode_private_key(&long).is_none());
    assert!(decode_private_key("").is_none());
}

#[test]
fn rejects_non_hex_key() {
    let bad = format!("0x{}g", &KEY_HEX[..63]);
    assert_eq!(bad.len(), 66);
    assert!(decode_private_key(&bad).is_none());
}

#[test]
fn gwei_conversion() {
    assert_eq!(gwei_to_wei(0), 0);
    assert_eq!(gwei_to_wei(1), 1_000_000_000);
    assert_eq!(gwei_to_wei(21), 21_000_000_000);
    assert_eq!(
        gwei_to_wei(u64::MAX),
        18_446_744_073_709_551_615_000_000_000u128
    );
}
