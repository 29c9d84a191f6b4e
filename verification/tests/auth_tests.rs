use base64::engine::general_purpose::STANDARD;
use base64::Engine;
use ethers::prelude::k256::sha2::Sha256;
use hmac::{Hmac, Mac};
use kucoin::utils::auth::{encrypt_pass, encrypt_prehash, prehash_string};
use std::time::SystemTime;
use std::time::UNIX_EPOCH;

#[test]
fn test_hmac() {
    // Setup data needed to generate HMAC-SHA256
    let timestamp = SystemTime::now()
        .duration_since(UNIX_EPOCH)
        .expect("Clock may have gone backwards")
        .as_millis()
        .to_string();
    let payload = r#"{"clientOid": "235b7471-0190-4e10-a4cf-953c83a06af5", "side": "sell", "symbol": "ETH-USDT", "type": "market", "isIsolated": false, "funds": "1"}"#;

    // Generate encode 64 sign msg
    let en64_sign = encrypt_prehash(
        "1a422807-19f5-4e8f-9135-b89707845621",
        &timestamp,
        "POST",
        "/api/v3/hf/margin/order",
        payload,
    );

    println!("{}", en64_sign);
}

#[test]
fn test_passphrase() {
    let _passphrase = "910988".to_string();
    let en64_pass = encrypt_pass(
        "1a922807-19f5-4e6c-9135-b89707845621".to_string(),
        _passphrase,
    );
    println!("{}", en64_pass);
}

#[test]
fn passphrase_has_the_known_encoding() {
    let encoded = encrypt_pass(
        "1a922807-19f5-4e6c-9135-b89707845621".to_string(),
        "910988".to_string(),
    );
    assert_eq!(encoded, "3U3K97PcEqRqD/YgT7D9WdENmYrqcaDaG+KzRySvcH0=");
    assert_eq!(
        encrypt_pass("s3cr3t".to_string(), "p4ss".to_string()),
        "fQ1AAu15vE25Fxu6Hozsg42vMbvtWO5kyVnHHcTuHbM="
    );
}

#[test]
fn prehash_is_the_plain_concatenation() {
    let message = prehash_string(
        "1700000000000",
        "POST",
        "/api/v1/hf/orders",
        "{\"side\":\"buy\"}",
    );
    assert_eq!(message, "1700000000000POST/api/v1/hf/orders{\"side\":\"buy\"}");
}

#[test]
fn empty_body_adds_nothing_to_the_prehash() {
    assert_eq!(
        prehash_string("1700000000000", "GET", "/api/v2/sub/user", ""),
        "1700000000000GET/api/v2/sub/user"
    );
    assert_eq!(prehash_string("", "", "", ""), "");
}

#[test]
fn end_to_end_signature() {
    let signature = encrypt_prehash(
        "s3cr3t",
        "1700000000000",
        "POST",
        "/api/v1/hf/orders",
        "{\"side\":\"buy\"}",
    );
    assert_eq!(signature, "3ZzNhwj6iXv5Ceg8I8WMbViGHOdbMXicSYEyW3szDDk=");

    let mut mac = Hmac::<Sha256>::new_from_slice(b"s3cr3t").unwrap();
    mac.update(b"1700000000000POST/api/v1/hf/orders{\"side\":\"buy\"}");
    let expected = STANDARD.encode(mac.finalize().into_bytes());
    assert_eq!(signature, expected);
}

#[test]
fn signature_is_reproducible() {
    let first = encrypt_prehash("s3cr3t", "1700000000000", "POST", "/api/v1/hf/orders", "{}");
    let second = encrypt_prehash("s3cr3t", "1700000000000", "POST", "/api/v1/hf/orders", "{}");
    assert_eq!(first, second);
    assert_eq!(first.as_bytes(), second.as_bytes());
}

#[test]
fn signature_round_trips_through_hmac_verification() {
    let signature = encrypt_prehash("s3cr3t", "1700000000000", "GET", "/api/v2/sub/user", "");
    assert_eq!(signature, "6Rw54RRM56oaCqt3mjlifWjM7VXEwiykEEVv/ne4fQM=");
    let code = STANDARD.decode(signature.as_bytes()).unwrap();
    assert_eq!(code.len(), 32);
    let mut mac = Hmac::<Sha256>::new_from_slice(b"s3cr3t").unwrap();
    mac.update(b"1700000000000GET/api/v2/sub/user");
    assert!(mac.verify_slice(&code).is_ok());
    let again = encrypt_prehash("s3cr3t", "1700000000000", "GET", "/api/v2/sub/user", "");
    assert_eq!(again, signature);
}

#[test]
fn shifted_boundaries_do_not_collide_here() {
    let first = encrypt_prehash("s3cr3t", "1", "POST", "/a", "b");
    let second = encrypt_prehash("s3cr3t", "11", "POST", "/a", "");
    assert_eq!(first, "eewJgDpueysXaSPqWOzt/ivzcX2RQEkvNh9fqw1PflM=");
    assert_eq!(second, "jZAWFcySlmI1xrz+4qD0r7eOQjW47qv8K3StkoO12lA=");
    assert_ne!(first, second);
}

#[test]
fn each_single_change_changes_the_signature() {
    let base = encrypt_prehash("s3cr3t", "1700000000000", "POST", "/api/v1/hf/orders", "{}");
    let other_time = encrypt_prehash("s3cr3t", "1700000000001", "POST", "/api/v1/hf/orders", "{}");
    let other_case = encrypt_prehash("s3cr3t", "1700000000000", "post", "/api/v1/hf/orders", "{}");
    let other_path = encrypt_prehash("s3cr3t", "1700000000000", "POST", "/api/v1/hf/orderz", "{}");
    let other_body = encrypt_prehash("s3cr3t", "1700000000000", "POST", "/api/v1/hf/orders", "{ }");
    let other_key = encrypt_prehash("s3cr3T", "1700000000000", "POST", "/api/v1/hf/orders", "{}");
    assert_ne!(base, other_time);
    assert_ne!(base, other_case);
    assert_ne!(base, other_path);
    assert_ne!(base, other_body);
    assert_ne!(base, other_key);
}

#[test]
fn signature_is_padded_standard_base64_of_32_bytes() {
    let signature = encrypt_prehash("", "", "", "", "");
    assert_eq!(signature, "thNnmggU2ex3L5XXeMNfxf8Wl8STcVZTxscSFEKSxa0=");
    assert_eq!(signature.len(), 44);
    assert!(signature
        .chars()
        .all(|c| c.is_ascii_alphanumeric() || c == '+' || c == '/' || c == '='));
}

#[test]
fn signature_takes_text_as_utf8() {
    assert_eq!(
        encrypt_prehash("clé", "", "", "", "prix€"),
        "sBQraemWoamhiYhxDUjbgaEyPxs1fhS7JT3nMjoyjIk="
    );
    assert_eq!(
        encrypt_pass("clé".to_string(), "prix€".to_string()),
        "sBQraemWoamhiYhxDUjbgaEyPxs1fhS7JT3nMjoyjIk="
    );
}
