use pocket_relay::sessions::{Sessions, VerifyError, TOKEN_EXPIRY_SECS};
use pocket_relay::signing::SigningKey;
use pocket_relay::tokens::{check_claim, player_claim_at, PlayerClaim, Tokens};

/// Tests that tokens can be created and verified correctly
#[test]
fn sessions_test_token() {
    let (key, _) = SigningKey::generate();
    let sessions = Sessions::new(key);

    let player_id = 32;
    let token = sessions.create_token(player_id);
    let claim = sessions.verify_token(&token).unwrap();

    assert_eq!(player_id, claim)
}

/// Tests that tokens can be created and verified correctly
#[test]
fn mod_test_token() {
    let (key, _) = SigningKey::generate();
    let sessions = Sessions::new(key);

    let player_id = 32;
    let token = sessions.create_token(player_id);
    let claim = sessions.verify_token(&token).unwrap();

    assert_eq!(player_id, claim)
}

fn fixed_sessions() -> Sessions {
    Sessions::new(SigningKey::new(b"0123456789abcdef0123456789abcdef"))
}

#[test]
fn token_valid_until_expiry() {
    let sessions = fixed_sessions();
    let token = sessions.create_token_at(77, 1_000);
    assert_eq!(sessions.verify_token_at(&token, 1_000), Ok(77));
    assert_eq!(sessions.verify_token_at(&token, 1_000 + TOKEN_EXPIRY_SECS), Ok(77));
    assert_eq!(sessions.verify_token_at(&token, 1_001 + TOKEN_EXPIRY_SECS), Err(VerifyError::Expired));
}

#[test]
fn token_has_message_and_signature_parts() {
    let sessions = fixed_sessions();
    let token = sessions.create_token_at(1, 0);
    let (msg, sig) = token.split_once('.').unwrap();
    // 12 bytes of message and 32 bytes of signature, unpadded base64
    assert_eq!(msg.len(), 16);
    assert_eq!(sig.len(), 43);
    assert!(token.chars().all(|c| c.is_ascii_alphanumeric() || c == '-' || c == '_' || c == '.'));
}

#[test]
fn tampered_token_is_invalid() {
    let sessions = fixed_sessions();
    let token = sessions.create_token_at(5, 0);
    let mut bytes = token.into_bytes();
    bytes[0] = if bytes[0] == b'A' { b'B' } else { b'A' };
    let tampered = String::from_utf8(bytes).unwrap();
    assert_eq!(sessions.verify_token_at(&tampered, 0), Err(VerifyError::Invalid));
}

#[test]
fn token_without_dot_is_invalid() {
    let sessions = fixed_sessions();
    assert_eq!(sessions.verify_token_at("AAAAAAAAAAAAAAAA", 0), Err(VerifyError::Invalid));
    assert_eq!(sessions.verify_token_at("", 0), Err(VerifyError::Invalid));
}

#[test]
fn token_of_other_key_is_invalid() {
    let sessions = fixed_sessions();
    let other = Sessions::new(SigningKey::new(b"another key"));
    let token = other.create_token_at(9, 0);
    assert_eq!(sessions.verify_token_at(&token, 0), Err(VerifyError::Invalid));
}

#[test]
fn association_token_roundtrip() {
    let sessions = fixed_sessions();
    let id: [u8; 16] = [1, 2, 3, 4, 5, 6, 7, 8, 9, 10, 11, 12, 13, 14, 15, 16];
    let token = sessions.create_assoc_token_from(&id);
    assert_eq!(sessions.verify_assoc_token(&token), Ok(u128::from_be_bytes(id)));
    let random = sessions.create_assoc_token();
    assert!(sessions.verify_assoc_token(&random).is_ok());
    assert_eq!(sessions.verify_assoc_token("not.a-token"), Err(VerifyError::Invalid));
}

#[test]
fn claim_tokens_roundtrip() {
    let tokens = Tokens::from_secret(b"server secret");
    let token = tokens.claim_at(12, 50);
    assert_eq!(tokens.verify_at(&token, 50), Ok(12));
    assert_eq!(tokens.verify_at(&token, 51 + TOKEN_EXPIRY_SECS), Err(VerifyError::Expired));
    let now_token = tokens.claim(3);
    assert_eq!(tokens.verify(&now_token), Ok(3));
}

#[test]
fn claim_checks() {
    let claim = PlayerClaim { id: 4, exp: 100 };
    assert_eq!(check_claim(Some(claim), 100), Ok(claim));
    assert_eq!(check_claim(Some(claim), 101), Err(VerifyError::Expired));
    assert_eq!(check_claim(None, 0), Err(VerifyError::Invalid));
}

#[test]
fn claims_expire_thirty_days_later() {
    let claim = player_claim_at(9, 1_000).unwrap();
    assert_eq!(claim, PlayerClaim { id: 9, exp: 1_000 + 30 * 24 * 60 * 60 });
    assert_eq!(check_claim(Some(claim), claim.exp), Ok(claim));
    assert_eq!(check_claim(Some(claim), claim.exp + 1), Err(VerifyError::Expired));
    assert_eq!(player_claim_at(9, i64::MAX - 10), None);
}

#[test]
fn tokens_without_a_dot_are_invalid() {
    let (key, _) = SigningKey::generate();
    let sessions = Sessions::new(key);
    assert_eq!(sessions.verify_token("no-dot-here"), Err(VerifyError::Invalid));
}

#[test]
fn login_codes_are_used_once() {
    let (key, _) = SigningKey::generate();
    let mut sessions = Sessions::new(key);
    let code = sessions.create_login_code_at(12, 1_000);
    assert_eq!(code.len(), 5);
    assert!(code.chars().all(|c| c.is_ascii_uppercase() || c.is_ascii_digit()));

    let (player, token) = sessions.exchange_login_code_at(&code, 1_060).unwrap();
    assert_eq!(player, 12);
    assert_eq!(sessions.verify_token_at(&token, 1_060), Ok(12));
    assert_eq!(sessions.exchange_login_code_at(&code, 1_061), None);
    assert_eq!(sessions.exchange_login_code_at("never", 1_061), None);

    let late = sessions.create_login_code_at(13, 1_000);
    assert_eq!(sessions.exchange_login_code_at(&late, 1_000 + 1_801), None);
    assert_eq!(sessions.exchange_login_code_at(&late, 1_000), None);
}
