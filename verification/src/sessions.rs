//! Session tokens: signed player tokens with an expiry time, and signed
//! association tokens that link a client's tunnel to its session.
use vstd::prelude::*;
use crate::signing::{
    SigningKey, be32, be64, read_be32, read_be64, read_be128, signed_message,
    signed_text, sign_message, read_signed, push_be32, push_be64, get_be32, get_be64, lemma_be32_roundtrip,
    lemma_be64_roundtrip,
};
use crate::tunnel::AssociationId;

verus! {

/// Errors that can occur while verifying a token.
#[derive(Debug, Clone, Copy, PartialEq, Eq, Structural)]
pub enum VerifyError {
    /// The token is expired
    Expired,
    /// The token is invalid
    Invalid,
}

/// Seconds a player token stays valid after it is made (30 days).
pub const TOKEN_EXPIRY_SECS: u64 = 2592000;

/// Seconds a login code stays valid after it is made (30 minutes).
pub const LOGIN_CODE_EXPIRY_SECS: u64 = 1800;

/// The signed message of a player token: the player ID then the expiry
/// time, both big-endian.
pub open spec fn token_message(player_id: u32, exp: u64) -> Seq<u8> {
    be32(player_id) + be64(exp)
}

/// What checking the player token `text` signed with `key` gives at time
/// `now`: the player ID, `Expired` when its expiry time is before `now`,
/// `Invalid` when it is not a token signed with `key`.
pub open spec fn token_outcome(key: Seq<u8>, text: Seq<char>, now: u64) -> Result<u32, VerifyError> {
    match signed_message(key, text, 12) {
        None => Err(VerifyError::Invalid),
        Some(msg) => if read_be64(msg.subrange(4, 12)) < now {
            Err(VerifyError::Expired)
        } else {
            Ok(read_be32(msg.subrange(0, 4)))
        },
    }
}

/// What exchanging a login code whose stored data is `data` at time `now`
/// gives (`r`): nothing for an unknown or expired code, else the code's
/// player and a new token of that player signed with `key`, which checks
/// out as that player until `TOKEN_EXPIRY_SECS` after `now`.
pub open spec fn exchange_outcome(key: Seq<u8>, data: Option<LoginCodeData>, now: u64, r: Option<(u32, String)>) -> bool {
    match data {
        None => r is None,
        Some(d) => if d.exp < now {
            r is None
        } else {
            r matches Some((id, token)) && id == d.player_id && token@ == signed_text(
                key,
                token_message(id, (now + TOKEN_EXPIRY_SECS) as u64),
            ) && forall|t: u64| #[trigger]
                token_outcome(key, token@, t) == if now + TOKEN_EXPIRY_SECS < t {
                    Err::<u32, VerifyError>(VerifyError::Expired)
                } else {
                    Ok::<u32, VerifyError>(id)
                }
        },
    }
}

/// Exchanging a login code issued for `player_id` at `issued` (so that it
/// expires `LOGIN_CODE_EXPIRY_SECS` later): up to that expiry the
/// exchange at `now` gives the player and a token that checks out as the
/// player at `now`; after it, the exchange gives nothing.
pub proof fn lemma_login_code_exchange(
    key: Seq<u8>,
    player_id: u32,
    issued: u64,
    now: u64,
    r: Option<(u32, String)>,
)
    requires
        issued <= u64::MAX - LOGIN_CODE_EXPIRY_SECS,
        exchange_outcome(
            key,
            Some(LoginCodeData { player_id, exp: (issued + LOGIN_CODE_EXPIRY_SECS) as u64 }),
            now,
            r,
        ),
    ensures
        now <= issued + LOGIN_CODE_EXPIRY_SECS ==> (r matches Some((id, token)) && id == player_id
            && token_outcome(key, token@, now) == Ok::<u32, VerifyError>(player_id)),
        issued + LOGIN_CODE_EXPIRY_SECS < now ==> r is None,
{
    if now <= issued + LOGIN_CODE_EXPIRY_SECS {
        let (id, token) = r.unwrap();
        assert(token_outcome(key, token@, now) == Ok::<u32, VerifyError>(player_id));
    }
}

/// A login code is used once: exchanging a code leaves no data for it, so
/// exchanging it again, at any time, gives nothing.
pub proof fn lemma_login_code_used_once(key: Seq<u8>, now: u64, r: Option<(u32, String)>)
    requires
        exchange_outcome(key, None, now, r),
    ensures
        r is None,
{
}

/// A player token round trip: a text whose signed 12 byte message is a
/// player ID and an expiry time checks out as that player up to the
/// expiry time and as `Expired` after it.
pub proof fn lemma_token_round_trip(key: Seq<u8>, text: Seq<char>, player_id: u32, exp: u64, now: u64)
    requires
        signed_message(key, text, 12) == Some(token_message(player_id, exp)),
    ensures
        token_outcome(key, text, now) == if exp < now {
            Err::<u32, VerifyError>(VerifyError::Expired)
        } else {
            Ok::<u32, VerifyError>(player_id)
        },
{
    lemma_be32_roundtrip(player_id);
    lemma_be64_roundtrip(exp);
    let msg = token_message(player_id, exp);
    assert(msg.subrange(0, 4) =~= be32(player_id));
    assert(msg.subrange(4, 12) =~= be64(exp));
}

/// A text with no `.` is no player token.
pub proof fn lemma_token_without_dot(key: Seq<u8>, text: Seq<char>, now: u64)
    requires
        !text.contains('.'),
    ensures
        token_outcome(key, text, now) == Err::<u32, VerifyError>(VerifyError::Invalid),
{
}

/// What checking the association token `text` signed with `key` gives:
/// the association ID, or `Invalid`.
pub open spec fn assoc_outcome(key: Seq<u8>, text: Seq<char>) -> Result<AssociationId, VerifyError> {
    match signed_message(key, text, 16) {
        None => Err(VerifyError::Invalid),
        Some(msg) => Ok(read_be128(msg)),
    }
}

/// 16 bytes of a fresh version 4 UUID (`uuid::Uuid::new_v4`). Nothing is
/// stated of their value.
#[verifier::external_body]
fn new_uuid_bytes() -> (r: [u8; 16]) {
    uuid::Uuid::new_v4().into_bytes()
}

/// Data stored for a login code: who it logs in and until when.
#[derive(Clone, Copy, PartialEq, Eq, Structural)]
pub struct LoginCodeData {
    /// ID of the player the code is for
    pub player_id: u32,
    /// Time (seconds since the Unix epoch) when the code expires
    pub exp: u64,
}

/// Whether no login code occurs twice.
pub open spec fn codes_unique(codes: Seq<(String, LoginCodeData)>) -> bool {
    forall|i: int, j: int|
        0 <= i < codes.len() && 0 <= j < codes.len() && i != j ==> #[trigger] codes[i].0@
            != #[trigger] codes[j].0@
}

/// The data stored for `code`, if any.
pub open spec fn code_data(codes: Seq<(String, LoginCodeData)>, code: Seq<char>) -> Option<LoginCodeData> {
    if exists|i: int| 0 <= i < codes.len() && #[trigger] codes[i].0@ == code {
        Some(codes[choose|i: int| 0 <= i < codes.len() && #[trigger] codes[i].0@ == code].1)
    } else {
        None
    }
}

/// With unique codes, the data of the code at `i` is its entry's data.
proof fn lemma_code_data_unique(codes: Seq<(String, LoginCodeData)>, i: int)
    requires
        codes_unique(codes),
        0 <= i < codes.len(),
    ensures
        code_data(codes, codes[i].0@) == Some(codes[i].1),
{
    let code = codes[i].0@;
    assert(codes[i].0@ == code);
    let j = choose|j: int| 0 <= j < codes.len() && #[trigger] codes[j].0@ == code;
    if j != i {
        assert(codes[i].0@ != codes[j].0@);
    }
}

/// Characters of login codes: upper case letters and digits.
pub open spec fn is_login_code_char(c: char) -> bool {
    (65 <= c as u32 <= 90) || (48 <= c as u32 <= 57)
}

/// Number of characters of a login code.
pub const LOGIN_CODE_LENGTH: usize = 5;

/// A random number below `bound` (`rand::random_range`). Nothing more is
/// stated of it.
#[verifier::external_body]
fn random_below(bound: u32) -> (r: u32)
    requires
        bound > 0,
    ensures
        r < bound,
{
    rand::random_range(0..bound)
}

/// Creates and checks the tokens that authenticate sessions, and keeps
/// the login codes waiting to be exchanged for tokens.
pub struct Sessions {
    /// HMAC key used for computing signatures
    key: SigningKey,
    /// Login codes and what they log in to
    login_codes: Vec<(String, LoginCodeData)>,
}

impl Sessions {
    #[verifier::type_invariant]
    spec fn inv(self) -> bool {
        codes_unique(self.login_codes@)
    }

    /// The secret of the key that signs the tokens.
    pub closed spec fn key_bytes(&self) -> Seq<u8> {
        self.key@
    }

    /// The data stored for the login code `code`, if any.
    pub closed spec fn login_code(&self, code: Seq<char>) -> Option<LoginCodeData> {
        code_data(self.login_codes@, code)
    }

    /// Sessions whose tokens are signed with `key`, with no login codes.
    pub fn new(key: SigningKey) -> (r: Sessions)
        ensures
            r.key_bytes() == key@,
            forall|code: Seq<char>| #[trigger] r.login_code(code) is None,
    {
        Sessions { key, login_codes: Vec::new() }
    }

    /// The token of `player_id` made at time `now`: it expires
    /// `TOKEN_EXPIRY_SECS` later, and until then checking it gives back
    /// `player_id`.
    pub fn create_token_at(&self, player_id: u32, now: u64) -> (r: String)
        requires
            now <= u64::MAX - TOKEN_EXPIRY_SECS,
        ensures
            r@ == signed_text(self.key_bytes(), token_message(player_id, (now + TOKEN_EXPIRY_SECS) as u64)),
            forall|t: u64| #[trigger]
                token_outcome(self.key_bytes(), r@, t) == if now + TOKEN_EXPIRY_SECS < t {
                    Err::<u32, VerifyError>(VerifyError::Expired)
                } else {
                    Ok::<u32, VerifyError>(player_id)
                },
    {
        let exp: u64 = now + TOKEN_EXPIRY_SECS;
        let mut msg: Vec<u8> = Vec::new();
        push_be32(&mut msg, player_id);
        push_be64(&mut msg, exp);
        let r = sign_message(&self.key, msg.as_slice());
        proof {
            lemma_be32_roundtrip(player_id);
            lemma_be64_roundtrip(exp);
            assert(msg@ =~= token_message(player_id, exp));
            assert(msg@.subrange(0, 4) =~= be32(player_id));
            assert(msg@.subrange(4, 12) =~= be64(exp));
        }
        r
    }

    /// A token for `player_id` made now; it expires `TOKEN_EXPIRY_SECS`
    /// after the current time.
    pub fn create_token(&self, player_id: u32) -> (r: String)
        ensures
            exists|exp: u64|
                #![trigger token_message(player_id, exp)]
                r@ == signed_text(self.key_bytes(), token_message(player_id, exp)) && forall|t: u64| #[trigger]
                    token_outcome(self.key_bytes(), r@, t) == if exp < t {
                        Err::<u32, VerifyError>(VerifyError::Expired)
                    } else {
                        Ok::<u32, VerifyError>(player_id)
                    },
    {
        let now = crate::clock::unix_now_secs();
        let r = self.create_token_at(player_id, now);
        proof {
            let exp = (now + TOKEN_EXPIRY_SECS) as u64;
            assert(r@ == signed_text(self.key_bytes(), token_message(player_id, exp)));
        }
        r
    }

    /// Checks the player token `token` at time `now`.
    pub fn verify_token_at(&self, token: &str, now: u64) -> (r: Result<u32, VerifyError>)
        ensures
            r == token_outcome(self.key_bytes(), token@, now),
    {
        let msg = match read_signed(&self.key, token, 12) {
            Some(m) => m,
            None => return Err(VerifyError::Invalid),
        };
        let id = get_be32(msg.as_slice(), 0);
        let exp = get_be64(msg.as_slice(), 4);
        if exp < now {
            return Err(VerifyError::Expired);
        }
        Ok(id)
    }

    /// Checks the player token `token` at the current time.
    pub fn verify_token(&self, token: &str) -> (r: Result<u32, VerifyError>)
        ensures
            exists|now: u64| r == #[trigger] token_outcome(self.key_bytes(), token@, now),
    {
        let now = crate::clock::unix_now_secs();
        self.verify_token_at(token, now)
    }

    /// The association token for the association ID with big-endian bytes
    /// `id`; checking it gives back that ID.
    pub fn create_assoc_token_from(&self, id: &[u8; 16]) -> (r: String)
        ensures
            r@ == signed_text(self.key_bytes(), id@),
            assoc_outcome(self.key_bytes(), r@) == Ok::<AssociationId, VerifyError>(read_be128(id@)),
    {
        sign_message(&self.key, id.as_slice())
    }

    /// A token for a fresh random association ID; checking it gives back
    /// that ID.
    pub fn create_assoc_token(&self) -> (r: String)
        ensures
            exists|id: Seq<u8>|
                #![trigger read_be128(id)]
                id.len() == 16 && r@ == signed_text(self.key_bytes(), id) && assoc_outcome(self.key_bytes(), r@)
                    == Ok::<AssociationId, VerifyError>(read_be128(id)),
    {
        let id = new_uuid_bytes();
        let r = self.create_assoc_token_from(&id);
        proof {
            assert(read_be128(id@) == read_be128(id@));
        }
        r
    }

    /// Checks the association token `token`.
    pub fn verify_assoc_token(&self, token: &str) -> (r: Result<AssociationId, VerifyError>)
        ensures
            r == assoc_outcome(self.key_bytes(), token@),
    {
        let msg = match read_signed(&self.key, token, 16) {
            Some(m) => m,
            None => return Err(VerifyError::Invalid),
        };
        let hi = get_be64(msg.as_slice(), 0);
        let lo = get_be64(msg.as_slice(), 8);
        Ok(((hi as u128) << 64u128) | (lo as u128))
    }

    /// Stores `data` for the login code `code`, replacing what the code
    /// had before; other codes keep their data.
    pub fn store_login_code(&mut self, code: String, data: LoginCodeData)
        ensures
            final(self).key_bytes() == old(self).key_bytes(),
            final(self).login_code(code@) == Some(data),
            forall|k: Seq<char>| k != code@ ==> #[trigger] final(self).login_code(k) == old(self).login_code(k),
    {
        proof {
            use_type_invariant(&*self);
        }
        let n = self.login_codes.len();
        let mut i: usize = 0;
        while i < n
            invariant
                n == self.login_codes@.len(),
                0 <= i <= n,
                self.login_codes@ == old(self).login_codes@,
                self.key@ == old(self).key@,
                codes_unique(self.login_codes@),
                forall|j: int| 0 <= j < i ==> #[trigger] self.login_codes@[j].0@ != code@,
            decreases n - i,
        {
            if crate::text::str_eq(self.login_codes[i].0.as_str(), code.as_str()) {
                let ghost before = self.login_codes@;
                let mut codes = Vec::new();
                std::mem::swap(&mut codes, &mut self.login_codes);
                codes.set(i, (code, data));
                proof {
                    let after = codes@;
                    assert(after =~= before.update(i as int, (after[i as int].0, data)));
                    assert(codes_unique(after)) by {
                        assert forall|a: int, b: int|
                            0 <= a < after.len() && 0 <= b < after.len() && a != b implies #[trigger] after[a].0@
                            != #[trigger] after[b].0@ by {
                            assert(before[a].0@ == after[a].0@ || a == i);
                            assert(before[b].0@ == after[b].0@ || b == i);
                        }
                    }
                    lemma_code_data_unique(after, i as int);
                    assert forall|k: Seq<char>| k != code@ implies #[trigger] code_data(after, k) == code_data(before, k) by {
                        if exists|j: int| 0 <= j < before.len() && #[trigger] before[j].0@ == k {
                            let j = choose|j: int| 0 <= j < before.len() && #[trigger] before[j].0@ == k;
                            assert(after[j].0@ == k);
                            lemma_code_data_unique(after, j);
                            lemma_code_data_unique(before, j);
                        } else {
                            assert forall|j: int| 0 <= j < after.len() implies #[trigger] after[j].0@ != k by {
                                if j != i {
                                    assert(after[j] == before[j]);
                                }
                            }
                        }
                    }
                }
                self.login_codes = codes;
                return;
            }
            i = i + 1;
        }
        let ghost before = self.login_codes@;
        let mut codes = Vec::new();
        std::mem::swap(&mut codes, &mut self.login_codes);
        codes.push((code, data));
        proof {
            let after = codes@;
            assert(codes_unique(after)) by {
                assert forall|a: int, b: int|
                    0 <= a < after.len() && 0 <= b < after.len() && a != b implies #[trigger] after[a].0@
                    != #[trigger] after[b].0@ by {
                    if a < n && b < n {
                        assert(after[a] == before[a] && after[b] == before[b]);
                    }
                }
            }
            lemma_code_data_unique(after, n as int);
            assert forall|k: Seq<char>| k != code@ implies #[trigger] code_data(after, k) == code_data(before, k) by {
                if exists|j: int| 0 <= j < before.len() && #[trigger] before[j].0@ == k {
                    let j = choose|j: int| 0 <= j < before.len() && #[trigger] before[j].0@ == k;
                    assert(after[j] == before[j]);
                    lemma_code_data_unique(after, j);
                    lemma_code_data_unique(before, j);
                } else {
                    assert forall|j: int| 0 <= j < after.len() implies #[trigger] after[j].0@ != k by {
                        if j < n {
                            assert(after[j] == before[j]);
                        }
                    }
                }
            }
        }
        self.login_codes = codes;
    }

    /// Removes the login code `code`, giving back its data.
    pub fn take_login_code(&mut self, code: &str) -> (r: Option<LoginCodeData>)
        ensures
            final(self).key_bytes() == old(self).key_bytes(),
            r == old(self).login_code(code@),
            final(self).login_code(code@) is None,
            forall|k: Seq<char>| k != code@ ==> #[trigger] final(self).login_code(k) == old(self).login_code(k),
    {
        proof {
            use_type_invariant(&*self);
        }
        let n = self.login_codes.len();
        let mut i: usize = 0;
        while i < n
            invariant
                n == self.login_codes@.len(),
                0 <= i <= n,
                self.login_codes@ == old(self).login_codes@,
                self.key@ == old(self).key@,
                codes_unique(self.login_codes@),
                forall|j: int| 0 <= j < i ==> #[trigger] self.login_codes@[j].0@ != code@,
            decreases n - i,
        {
            if crate::text::str_eq(self.login_codes[i].0.as_str(), code) {
                let ghost before = self.login_codes@;
                let mut codes = Vec::new();
                std::mem::swap(&mut codes, &mut self.login_codes);
                let (_, data) = codes.remove(i);
                proof {
                    let after = codes@;
                    assert(after =~= before.remove(i as int));
                    lemma_code_data_unique(before, i as int);
                    assert(codes_unique(after)) by {
                        assert forall|a: int, b: int|
                            0 <= a < after.len() && 0 <= b < after.len() && a != b implies #[trigger] after[a].0@
                            != #[trigger] after[b].0@ by {
                            let a0 = if a < i { a } else { a + 1 };
                            let b0 = if b < i { b } else { b + 1 };
                            assert(after[a] == before[a0] && after[b] == before[b0]);
                        }
                    }
                    assert forall|j: int| 0 <= j < after.len() implies #[trigger] after[j].0@ != code@ by {
                        let j0 = if j < i { j } else { j + 1 };
                        assert(after[j] == before[j0]);
                    }
                    assert forall|k: Seq<char>| k != code@ implies #[trigger] code_data(after, k) == code_data(before, k) by {
                        if exists|j: int| 0 <= j < before.len() && #[trigger] before[j].0@ == k {
                            let j = choose|j: int| 0 <= j < before.len() && #[trigger] before[j].0@ == k;
                            let j1 = if j < i { j } else { j - 1 };
                            assert(after[j1] == before[j]);
                            lemma_code_data_unique(after, j1);
                            lemma_code_data_unique(before, j);
                        } else {
                            assert forall|j: int| 0 <= j < after.len() implies #[trigger] after[j].0@ != k by {
                                let j0 = if j < i { j } else { j + 1 };
                                assert(after[j] == before[j0]);
                            }
                        }
                    }
                }
                self.login_codes = codes;
                return Some(data);
            }
            i = i + 1;
        }
        None
    }

    /// Makes a login code for `player_id` at time `now`, valid for
    /// `LOGIN_CODE_EXPIRY_SECS`: five random upper case letters or digits.
    pub fn create_login_code_at(&mut self, player_id: u32, now: u64) -> (r: String)
        requires
            now <= u64::MAX - LOGIN_CODE_EXPIRY_SECS,
        ensures
            final(self).key_bytes() == old(self).key_bytes(),
            r@.len() == LOGIN_CODE_LENGTH,
            forall|i: int| 0 <= i < r@.len() ==> is_login_code_char(#[trigger] r@[i]),
            final(self).login_code(r@) == Some(LoginCodeData { player_id, exp: (now + LOGIN_CODE_EXPIRY_SECS) as u64 }),
            forall|k: Seq<char>| k != r@ ==> #[trigger] final(self).login_code(k) == old(self).login_code(k),
    {
        let mut code = String::new();
        let mut i: usize = 0;
        while i < LOGIN_CODE_LENGTH
            invariant
                0 <= i <= LOGIN_CODE_LENGTH,
                code@.len() == i,
                forall|j: int| 0 <= j < code@.len() ==> is_login_code_char(#[trigger] code@[j]),
            decreases LOGIN_CODE_LENGTH - i,
        {
            let idx = random_below(36);
            let c = if idx < 26 {
                (65u8 + idx as u8) as char
            } else {
                (48u8 + (idx - 26) as u8) as char
            };
            crate::text::push_char(&mut code, c);
            i = i + 1;
        }
        let data = LoginCodeData { player_id, exp: now + LOGIN_CODE_EXPIRY_SECS };
        let result = code.clone();
        self.store_login_code(code, data);
        result
    }

    /// Makes a login code for `player_id` that stays valid for
    /// `LOGIN_CODE_EXPIRY_SECS` from now.
    pub fn create_login_code(&mut self, player_id: u32) -> (r: Result<String, ()>)
        ensures
            final(self).key_bytes() == old(self).key_bytes(),
            r matches Ok(code) && code@.len() == LOGIN_CODE_LENGTH && (exists|exp: u64| #[trigger]
                final(self).login_code(code@) == Some(LoginCodeData { player_id, exp }))
                && forall|k: Seq<char>| k != code@ ==> #[trigger] final(self).login_code(k) == old(self).login_code(k),
    {
        let now = crate::clock::unix_now_secs();
        Ok(self.create_login_code_at(player_id, now))
    }

    /// Exchanges the login code `code` at time `now` for its player and a
    /// new token of that player; `None` when the code is unknown or
    /// expired. The code is used up either way.
    pub fn exchange_login_code_at(&mut self, code: &str, now: u64) -> (r: Option<(u32, String)>)
        requires
            now <= u64::MAX - TOKEN_EXPIRY_SECS,
        ensures
            final(self).key_bytes() == old(self).key_bytes(),
            final(self).login_code(code@) is None,
            forall|k: Seq<char>| k != code@ ==> #[trigger] final(self).login_code(k) == old(self).login_code(k),
            exchange_outcome(old(self).key_bytes(), old(self).login_code(code@), now, r),
    {
        let data = match self.take_login_code(code) {
            Some(d) => d,
            None => return None,
        };
        if data.exp < now {
            return None;
        }
        let player_id = data.player_id;
        let token = self.create_token_at(player_id, now);
        Some((player_id, token))
    }

    /// Exchanges the login code `code` now for its player and a new token.
    pub fn exchange_login_code(&mut self, code: &str) -> (r: Option<(u32, String)>)
        ensures
            final(self).key_bytes() == old(self).key_bytes(),
            final(self).login_code(code@) is None,
            forall|k: Seq<char>| k != code@ ==> #[trigger] final(self).login_code(k) == old(self).login_code(k),
            exists|now: u64| #[trigger] exchange_outcome(old(self).key_bytes(), old(self).login_code(code@), now, r),
    {
        let now = crate::clock::unix_now_secs();
        self.exchange_login_code_at(code, now)
    }
}

} // verus!
