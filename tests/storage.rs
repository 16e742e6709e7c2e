use clawchain::codec::{parse_agent_storage, parse_hex_u128, parse_u128_storage};
use clawchain::keys::{balance_key_for_did, storage_address, storage_key_for_agent};
use clawchain::ClawChainError;

const VALID: &str = "did:claw:1234567890abcdef1234567890abcdef1234567890abcdef1234567890abcdef";

#[test]
fn agent_key_is_two_blake2_digests() {
    assert_eq!(
        storage_key_for_agent(VALID),
        "a29cee8dd80c93a1f3b35fd532bd2f95fd1f6ba52722af6fa1725970aa7341aa484aa9f8446bfe490cb31f6054326314644b77848ef11db56da92079fbf3452b"
    );
}

#[test]
fn balance_key_uses_its_own_namespace() {
    assert_eq!(
        balance_key_for_did(VALID),
        "ca584f062f37c609206e9b7ecf9dc1ffc089f5e73b8cff4c88a6c31214a3d03e484aa9f8446bfe490cb31f6054326314644b77848ef11db56da92079fbf3452b"
    );
}

#[test]
fn distinct_keys_give_distinct_addresses() {
    let x = storage_address(b"Agents", b"x");
    let y = storage_address(b"Agents", b"y");
    assert_ne!(x, y);
    assert_eq!(x, storage_address(b"Agents", b"x"));
    assert_eq!(x.len(), 128);
    assert_eq!(&x[..64], &y[..64]);
}

#[test]
fn hex_marker_reply_is_raw_value() {
    assert_eq!(parse_u128_storage("0xff").unwrap(), 255);
    assert_eq!(parse_u128_storage("0xFF").unwrap(), 255);
    assert_eq!(
        parse_u128_storage("0xffffffffffffffffffffffffffffffff").unwrap(),
        u128::MAX
    );
}

#[test]
fn structured_reply_is_json_number() {
    assert_eq!(parse_u128_storage("12345").unwrap(), 12345);
    assert_eq!(
        parse_u128_storage("340282366920938463463374607431768211455").unwrap(),
        u128::MAX
    );
}

#[test]
fn unrecognised_reply_fails() {
    for bad in ["0x", "0xzz", "0x-1", "0x+", "0x+ff", "0x ff", "\"abc\"", "", "0x100000000000000000000000000000000"] {
        assert!(
            matches!(parse_u128_storage(bad), Err(ClawChainError::DeserializationError(_))),
            "{bad}"
        );
    }
}

#[test]
fn hex_numeral_is_digits_only() {
    for s in ["0", "7f", "DEADbeef", "", "-1", "g", "ffffffffffffffffffffffffffffffff", "100000000000000000000000000000000"] {
        assert_eq!(parse_hex_u128(s), u128::from_str_radix(s, 16).ok(), "{s}");
    }
    assert_eq!(parse_hex_u128("+a"), None);
    assert_eq!(parse_hex_u128("+"), None);
}

#[test]
fn agent_record_decodes() {
    let reply = "{\"did\":\"did:claw:ab\",\"owner\":\"0x1\",\"metadata\":\"m\",\"reputation\":42,\"verifications\":3,\"registered_at_block\":7}";
    let a = parse_agent_storage(reply).unwrap();
    assert_eq!(a.did, "did:claw:ab");
    assert_eq!(a.owner, "0x1");
    assert_eq!(a.metadata, "m");
    assert_eq!(a.reputation, 42);
    assert_eq!(a.verifications, 3);
    assert_eq!(a.registered_at_block, 7);
}

#[test]
fn agent_record_missing_field_fails() {
    let reply = "{\"did\":\"d\",\"owner\":\"o\",\"metadata\":\"m\",\"reputation\":1,\"verifications\":3}";
    assert!(matches!(parse_agent_storage(reply), Err(ClawChainError::DeserializationError(_))));
}

#[test]
fn agent_record_count_beyond_32_bits_fails() {
    let reply = "{\"did\":\"d\",\"owner\":\"o\",\"metadata\":\"m\",\"reputation\":1,\"verifications\":4294967296,\"registered_at_block\":7}";
    assert!(matches!(parse_agent_storage(reply), Err(ClawChainError::DeserializationError(_))));
}
