//! Player authentication tokens: 12 signed bytes, the player ID and the
//! expiry time.
use vstd::prelude::*;
use crate::signing::{
    SigningKey, HMAC_INPUT_LIMIT, be32, be64, read_be32, read_be64, signed_message_exact,
    signed_text, sign_message, read_signed_exact, push_be32, push_be64, get_be32, get_be64,
    lemma_be32_roundtrip, lemma_be64_roundtrip,
};
use crate::sessions::{VerifyError, TOKEN_EXPIRY_SECS, token_message};

verus! {

/// What verifying the claim token `text` signed with `key` gives at time
/// `now`: the claimed player ID, `Expired` when its expiry time is before
/// `now`, `Invalid` when it is not a token signed with `key`.
pub open spec fn claim_outcome(key: Seq<u8>, text: Seq<char>, now: u64) -> Result<u32, VerifyError> {
    match signed_message_exact(key, text, 12) {
        None => Err(VerifyError::Invalid),
        Some(msg) => if read_be64(msg.subrange(4, 12)) < now {
            Err(VerifyError::Expired)
        } else {
            Ok(read_be32(msg.subrange(0, 4)))
        },
    }
}

/// A claim token round trip: a text whose signed 12 byte message is a
/// player ID and an expiry time verifies as that player up to the expiry
/// time and as `Expired` after it.
pub proof fn lemma_claim_round_trip(key: Seq<u8>, text: Seq<char>, id: u32, exp: u64, now: u64)
    requires
        signed_message_exact(key, text, 12) == Some(token_message(id, exp)),
    ensures
        claim_outcome(key, text, now) == if exp < now {
            Err::<u32, VerifyError>(VerifyError::Expired)
        } else {
            Ok::<u32, VerifyError>(id)
        },
{
    lemma_be32_roundtrip(id);
    lemma_be64_roundtrip(exp);
    let msg = token_message(id, exp);
    assert(msg.subrange(0, 4) =~= be32(id));
    assert(msg.subrange(4, 12) =~= be64(exp));
}

/// A text with no `.` is no claim token.
pub proof fn lemma_claim_without_dot(key: Seq<u8>, text: Seq<char>, now: u64)
    requires
        !text.contains('.'),
    ensures
        claim_outcome(key, text, now) == Err::<u32, VerifyError>(VerifyError::Invalid),
{
}

/// Token provider and verification service.
pub struct Tokens {
    /// HMAC key used for computing signatures
    pub key: SigningKey,
}

impl Tokens {
    /// A token service signing with the secret `secret` (the contents of
    /// the server's secret file).
    pub fn from_secret(secret: &[u8]) -> (r: Tokens)
        requires
            secret@.len() < HMAC_INPUT_LIMIT,
        ensures
            r.key@ == secret@,
    {
        Tokens { key: SigningKey::new(secret) }
    }

    /// The claim token of `id` made at time `now`: it expires
    /// `TOKEN_EXPIRY_SECS` later, and until then verifying it gives `id`.
    pub fn claim_at(&self, id: u32, now: u64) -> (r: String)
        requires
            now <= u64::MAX - TOKEN_EXPIRY_SECS,
        ensures
            r@ == signed_text(self.key@, token_message(id, (now + TOKEN_EXPIRY_SECS) as u64)),
            forall|t: u64| #[trigger]
                claim_outcome(self.key@, r@, t) == if now + TOKEN_EXPIRY_SECS < t {
                    Err::<u32, VerifyError>(VerifyError::Expired)
                } else {
                    Ok::<u32, VerifyError>(id)
                },
    {
        let exp: u64 = now + TOKEN_EXPIRY_SECS;
        let mut msg: Vec<u8> = Vec::new();
        push_be32(&mut msg, id);
        push_be64(&mut msg, exp);
        let r = sign_message(&self.key, msg.as_slice());
        proof {
            lemma_be32_roundtrip(id);
            lemma_be64_roundtrip(exp);
            assert(msg@ =~= token_message(id, exp));
            assert(msg@.subrange(0, 4) =~= be32(id));
            assert(msg@.subrange(4, 12) =~= be64(exp));
        }
        r
    }

    /// A claim token for `id` made now.
    pub fn claim(&self, id: u32) -> (r: String)
        ensures
            exists|exp: u64|
                #![trigger token_message(id, exp)]
                r@ == signed_text(self.key@, token_message(id, exp)) && forall|t: u64| #[trigger]
                    claim_outcome(self.key@, r@, t) == if exp < t {
                        Err::<u32, VerifyError>(VerifyError::Expired)
                    } else {
                        Ok::<u32, VerifyError>(id)
                    },
    {
        let now = crate::clock::unix_now_secs();
        let r = self.claim_at(id, now);
        proof {
            let exp = (now + TOKEN_EXPIRY_SECS) as u64;
            assert(r@ == signed_text(self.key@, token_message(id, exp)));
        }
        r
    }

    /// Verifies the claim token `token` at time `now`, returning the
    /// claimed ID.
    pub fn verify_at(&self, token: &str, now: u64) -> (r: Result<u32, VerifyError>)
        ensures
            r == claim_outcome(self.key@, token@, now),
    {
        let msg = match read_signed_exact(&self.key, token, 12) {
            Some(m) => m,
            None => return Err(VerifyError::Invalid),
        };
        let id = get_be32(msg.as_slice(), 0);
        let exp = get_be64(msg.as_slice(), 4);
        if exp < now {
            return Err(VerifyError::Expired);
        }
        Ok(id)
    }

    /// Verifies the claim token `token` at the current time.
    pub fn verify(&self, token: &str) -> (r: Result<u32, VerifyError>)
        ensures
            exists|now: u64| r == #[trigger] claim_outcome(self.key@, token@, now),
    {
        let now = crate::clock::unix_now_secs();
        self.verify_at(token, now)
    }
}

/// Claim of a JSON web token: who it authenticates and until when.
#[derive(Debug, Clone, Copy, PartialEq, Eq, Structural)]
pub struct PlayerClaim {
    /// The ID of the user this claim represents
    pub id: u32,
    /// Expiry time (seconds since the Unix epoch)
    pub exp: i64,
}

/// Seconds a claim stays valid after it is made (30 days).
pub const CLAIM_EXPIRY_SECS: i64 = 2592000;

/// The claim of `id` made at time `now` (seconds since the Unix epoch): it
/// expires `CLAIM_EXPIRY_SECS` later. `None` (the timestamp error) when
/// that time does not fit in an `i64`.
pub fn player_claim_at(id: u32, now: i64) -> (r: Option<PlayerClaim>)
    ensures
        r == (if now <= i64::MAX - CLAIM_EXPIRY_SECS {
            Some(PlayerClaim { id, exp: (now + CLAIM_EXPIRY_SECS) as i64 })
        } else {
            None
        }),
{
    match now.checked_add(CLAIM_EXPIRY_SECS) {
        Some(exp) => Some(PlayerClaim { id, exp }),
        None => None,
    }
}

/// Checks a decoded claim at time `now`: `Invalid` when the token did not
/// decode (`None`), `Expired` when its expiry time is before `now`, the
/// claim itself otherwise.
pub fn check_claim(decoded: Option<PlayerClaim>, now: i64) -> (r: Result<PlayerClaim, VerifyError>)
    ensures
        r == (match decoded {
            None => Err(VerifyError::Invalid),
            Some(c) => if c.exp < now { Err(VerifyError::Expired) } else { Ok(c) },
        }),
{
    match decoded {
        None => Err(VerifyError::Invalid),
        Some(c) => if c.exp < now { Err(VerifyError::Expired) } else { Ok(c) },
    }
}

} // verus!
