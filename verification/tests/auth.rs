use base64ct::{Base64UrlUnpadded, Encoding};
use pocket_relay::models::auth::{
    check_create_account, check_email, check_login, default_display_name, AuthenticationError,
};
use pocket_relay::models::Player;
use pocket_relay::signing::{read_signed, sign_message, SigningKey};

fn account(id: u32) -> Player {
    Player { id, email: "user@example.com".to_string(), display_name: "User".to_string() }
}

#[test]
fn email_validity() {
    assert_eq!(check_email("user@example.com"), Ok(()));
    assert_eq!(check_email("no-at-sign"), Err(AuthenticationError::InvalidEmail));
    assert_eq!(check_email("@example.com"), Err(AuthenticationError::InvalidEmail));
    assert_eq!(check_email(""), Err(AuthenticationError::InvalidEmail));
}

#[test]
fn login_checks_in_order() {
    let email = "user@example.com";
    assert_eq!(
        check_login("bad", Some(account(1)), Some("hash"), true).err(),
        Some(AuthenticationError::InvalidEmail)
    );
    assert_eq!(check_login(email, None, Some("hash"), true).err(), Some(AuthenticationError::InvalidUser));
    assert_eq!(check_login(email, Some(account(1)), None, true).err(), Some(AuthenticationError::InvalidUser));
    assert_eq!(
        check_login(email, Some(account(1)), Some("hash"), false).err(),
        Some(AuthenticationError::InvalidPassword)
    );
    assert_eq!(check_login(email, Some(account(1)), Some("hash"), true).map(|p| p.id), Ok(1));
}

#[test]
fn account_creation_checks() {
    assert_eq!(check_create_account("bad", false), Err(AuthenticationError::InvalidEmail));
    assert_eq!(check_create_account("user@example.com", true), Err(AuthenticationError::Exists));
    assert_eq!(check_create_account("user@example.com", false), Ok("user@example.com".to_string()));
    let long = format!("{}@{}.com", "a".repeat(60), "b".repeat(50));
    let name = check_create_account(&long, false).unwrap();
    assert_eq!(name.chars().count(), 99);
    assert_eq!(name, default_display_name(&long));
}

#[test]
fn authentication_error_codes() {
    assert_eq!(AuthenticationError::InvalidUser.value(), 0xb);
    assert_eq!(AuthenticationError::InvalidPassword.value(), 0xc);
    assert_eq!(AuthenticationError::Exists.value(), 0xf);
    assert_eq!(AuthenticationError::InvalidEmail.value(), 0x16);
    assert_eq!(AuthenticationError::FieldTooLong.value(), 0xcb);
}

#[test]
fn key_signs_as_ring_hmac() {
    let secret = b"a secret key for the test";
    let key = SigningKey::new(secret);
    let expected = ring::hmac::sign(&ring::hmac::Key::new(ring::hmac::HMAC_SHA256, secret), b"data");
    assert_eq!(key.sign(b"data").as_slice(), expected.as_ref());
    assert!(key.verify(b"data", expected.as_ref()));
    assert!(!key.verify(b"other", expected.as_ref()));
}

#[test]
fn signed_message_roundtrip_and_tamper() {
    let key = SigningKey::new(b"0123456789abcdef");
    let text = sign_message(&key, &[1, 2, 3, 4]);
    let (head, tail) = text.split_once('.').unwrap();
    assert_eq!(head, Base64UrlUnpadded::encode_string(&[1, 2, 3, 4]));
    assert_eq!(Base64UrlUnpadded::decode_vec(tail).unwrap(), key.sign(&[1, 2, 3, 4]).to_vec());
    assert_eq!(read_signed(&key, &text, 4), Some(vec![1, 2, 3, 4]));
    let other = SigningKey::new(b"another key");
    assert_eq!(read_signed(&other, &text, 4), None);
    let tampered = format!("{}.{}", Base64UrlUnpadded::encode_string(&[1, 2, 3, 5]), tail);
    assert_eq!(read_signed(&key, &tampered, 4), None);
    assert_eq!(read_signed(&key, "no dot here", 4), None);
}
