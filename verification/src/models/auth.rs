//! Authentication messages: logins, account creation, personas,
//! entitlements and legal documents.
use vstd::prelude::*;
use crate::encode::{
    Tag, TdfKind, tag_group, tag_group_end, tag_list_start, tag_str, tag_str_empty, tag_u16,
    tag_u32, tag_u64, tag_u8, tag_zero, tdf_tag_group, tdf_tag_list_start, tdf_tag_str,
    tdf_tag_str_empty, tdf_tag_u16, tdf_tag_u32, tdf_tag_u64, tdf_tag_u8, tdf_tag_zero,
};
use crate::models::Player;
use crate::sessions::VerifyError;
use crate::text::{take_chars, upper_hex, upper_hex_text};

verus! {

/// Error codes of the authentication component.
#[derive(Debug, Clone, Copy, PartialEq, Eq, Structural)]
pub enum AuthenticationError {
    InvalidUser,
    InvalidPassword,
    InvalidToken,
    ExpiredToken,
    Exists,
    TooYoung,
    NoAccount,
    PersonaNotFound,
    PersonaInactive,
    InvalidPMail,
    InvalidField,
    InvalidEmail,
    InvalidStatus,
    InvalidSessionKey,
    PersonaBanned,
    InvalidPersona,
    Banned,
    FieldInvalidChars,
    FieldTooShort,
    FieldTooLong,
}

impl AuthenticationError {
    /// The error code sent to the client.
    pub open spec fn code(self) -> u16 {
        match self {
            AuthenticationError::InvalidUser => 0xb,
            AuthenticationError::InvalidPassword => 0xc,
            AuthenticationError::InvalidToken => 0xd,
            AuthenticationError::ExpiredToken => 0xe,
            AuthenticationError::Exists => 0xf,
            AuthenticationError::TooYoung => 0x10,
            AuthenticationError::NoAccount => 0x11,
            AuthenticationError::PersonaNotFound => 0x12,
            AuthenticationError::PersonaInactive => 0x13,
            AuthenticationError::InvalidPMail => 0x14,
            AuthenticationError::InvalidField => 0x15,
            AuthenticationError::InvalidEmail => 0x16,
            AuthenticationError::InvalidStatus => 0x17,
            AuthenticationError::InvalidSessionKey => 0x1f,
            AuthenticationError::PersonaBanned => 0x20,
            AuthenticationError::InvalidPersona => 0x21,
            AuthenticationError::Banned => 0x2b,
            AuthenticationError::FieldInvalidChars => 0xc9,
            AuthenticationError::FieldTooShort => 0xca,
            AuthenticationError::FieldTooLong => 0xcb,
        }
    }

    /// The error code sent to the client.
    pub fn value(&self) -> (r: u16)
        ensures
            r == self.code(),
    {
        match self {
            AuthenticationError::InvalidUser => 0xb,
            AuthenticationError::InvalidPassword => 0xc,
            AuthenticationError::InvalidToken => 0xd,
            AuthenticationError::ExpiredToken => 0xe,
            AuthenticationError::Exists => 0xf,
            AuthenticationError::TooYoung => 0x10,
            AuthenticationError::NoAccount => 0x11,
            AuthenticationError::PersonaNotFound => 0x12,
            AuthenticationError::PersonaInactive => 0x13,
            AuthenticationError::InvalidPMail => 0x14,
            AuthenticationError::InvalidField => 0x15,
            AuthenticationError::InvalidEmail => 0x16,
            AuthenticationError::InvalidStatus => 0x17,
            AuthenticationError::InvalidSessionKey => 0x1f,
            AuthenticationError::PersonaBanned => 0x20,
            AuthenticationError::InvalidPersona => 0x21,
            AuthenticationError::Banned => 0x2b,
            AuthenticationError::FieldInvalidChars => 0xc9,
            AuthenticationError::FieldTooShort => 0xca,
            AuthenticationError::FieldTooLong => 0xcb,
        }
    }

    /// The error a silent (token) login answers when its token fails to
    /// verify: expired tokens and invalid tokens each have their own code.
    pub fn from_verify_error(err: VerifyError) -> (r: AuthenticationError)
        ensures
            r == (match err {
                VerifyError::Expired => AuthenticationError::ExpiredToken,
                VerifyError::Invalid => AuthenticationError::InvalidToken,
            }),
    {
        match err {
            VerifyError::Expired => AuthenticationError::ExpiredToken,
            VerifyError::Invalid => AuthenticationError::InvalidToken,
        }
    }
}

/// Login through the login prompt with email and password.
pub struct LoginRequest {
    /// The email addresss of the account to login with
    pub email: String,
    /// The plain text password of the account to login to
    pub password: String,
}

/// Silent token based authentication.
pub struct SilentLoginRequest {
    /// The authentication token previously provided to the client
    pub token: String,
}

/// Authentication through an Origin token.
pub struct OriginLoginRequest {
    /// The token generated by Origin
    pub token: String,
    /// Login type
    pub ty: u8,
}

/// Request to create a new account with an email and password.
pub struct CreateAccountRequest {
    /// The email address of the account to create
    pub email: String,
    /// The password of the account to create
    pub password: String,
}

/// Request to send a forgot password email.
pub struct ForgotPasswordRequest {
    /// The email of the account that needs a password reset
    pub email: String,
}

/// Request for listing entitlements.
pub struct ListEntitlementsRequest {
    /// The entitlements tag
    pub tag: String,
}

/// Whether `address` is a valid email address, as the email_address
/// crate decides it.
pub uninterp spec fn email_address_valid(address: Seq<char>) -> bool;

/// `EmailAddress::is_valid` of the email_address crate: whether the address
/// parses. Its result depends on the address alone, and an address without
/// an `@` never parses (its local part and domain are split at the last
/// `@`).
#[verifier::external_body]
fn email_is_valid(address: &str) -> (r: bool)
    ensures
        r == email_address_valid(address@),
        !address@.contains('@') ==> !r,
{
    email_address::EmailAddress::is_valid(address)
}

/// Checks that `email` is a valid email address: `InvalidEmail` when it is
/// not.
pub fn check_email(email: &str) -> (r: Result<(), AuthenticationError>)
    ensures
        r is Ok <==> email_address_valid(email@),
        r matches Err(e) ==> e == AuthenticationError::InvalidEmail,
{
    if email_is_valid(email) {
        Ok(())
    } else {
        Err(AuthenticationError::InvalidEmail)
    }
}

/// Decides a login with `email`, given the account found for that email
/// (if any), its stored password hash (if any) and whether the given
/// password matches that hash: an invalid email is refused with
/// `InvalidEmail`, a missing account or one without a password with
/// `InvalidUser`, a wrong password with `InvalidPassword`; otherwise the
/// account logs in.
pub fn check_login(
    email: &str,
    account: Option<Player>,
    password_hash: Option<&str>,
    password_matches: bool,
) -> (r: Result<Player, AuthenticationError>)
    ensures
        !email_address_valid(email@) ==> r == Err::<Player, AuthenticationError>(AuthenticationError::InvalidEmail),
        email_address_valid(email@) ==> r == match account {
            None => Err(AuthenticationError::InvalidUser),
            Some(player) => if password_hash is None {
                Err(AuthenticationError::InvalidUser)
            } else if !password_matches {
                Err(AuthenticationError::InvalidPassword)
            } else {
                Ok(player)
            },
        },
{
    match check_email(email) {
        Ok(()) => {},
        Err(e) => return Err(e),
    }
    let player = match account {
        Some(player) => player,
        None => return Err(AuthenticationError::InvalidUser),
    };
    if password_hash.is_none() {
        return Err(AuthenticationError::InvalidUser);
    }
    if !password_matches {
        return Err(AuthenticationError::InvalidPassword);
    }
    Ok(player)
}

/// Decides the creation of an account for `email`, given whether an
/// account with that email exists: an invalid email is refused with
/// `InvalidEmail`, a taken one with `Exists`; otherwise the account is
/// created with the default display name of the email.
pub fn check_create_account(email: &str, exists: bool) -> (r: Result<String, AuthenticationError>)
    ensures
        !email_address_valid(email@) ==> r == Err::<String, AuthenticationError>(AuthenticationError::InvalidEmail),
        email_address_valid(email@) && exists ==> r == Err::<String, AuthenticationError>(AuthenticationError::Exists),
        email_address_valid(email@) && !exists ==> (r matches Ok(name)
            && name@ == email@.take(if email@.len() < 99 { email@.len() as int } else { 99 })),
{
    match check_email(email) {
        Ok(()) => {},
        Err(e) => return Err(e),
    }
    if exists {
        return Err(AuthenticationError::Exists);
    }
    Ok(default_display_name(email))
}

/// Number of characters of the email address kept as the display name of
/// a new account.
pub const DISPLAY_NAME_MAX_CHARS: usize = 99;

/// The display name of a new account: the first 99 characters of its
/// email address.
pub fn default_display_name(email: &str) -> (r: String)
    ensures
        r@ == email@.take(if email@.len() < 99 { email@.len() as int } else { 99 }),
{
    take_chars(email, DISPLAY_NAME_MAX_CHARS)
}

/// The bytes after `prefix` once the mock persona of player `id` named
/// `name` is written as a group body (then the group end).
pub open spec fn persona_written(prefix: Seq<u8>, id: u32, name: Seq<char>) -> Seq<u8> {
    let s = prefix + tdf_tag_str(['D', 'S', 'N', 'M'], name) + tdf_tag_zero(['L', 'A', 'S', 'T'])
        + tdf_tag_u32(['P', 'I', 'D', '\0'], id) + tdf_tag_zero(['S', 'T', 'A', 'S'])
        + tdf_tag_zero(['X', 'R', 'E', 'F']) + tdf_tag_zero(['X', 'T', 'Y', 'P']);
    s.push(0u8)
}

/// Writes a mock persona of the player `id` with the name `display_name`.
fn encode_persona(w: &mut Vec<u8>, id: u32, display_name: &str)
    ensures
        final(w)@ == persona_written(old(w)@, id, display_name@),
{
    tag_str(w, ['D', 'S', 'N', 'M'], display_name);
    tag_zero(w, ['L', 'A', 'S', 'T']);
    tag_u32(w, ['P', 'I', 'D', '\0'], id);
    tag_zero(w, ['S', 'T', 'A', 'S']);
    tag_zero(w, ['X', 'R', 'E', 'F']);
    tag_zero(w, ['X', 'T', 'Y', 'P']);
    tag_group_end(w);
}

/// Response to an authentication request.
pub struct AuthResponse {
    /// The authenticated player
    pub player: Player,
    /// The session token for the completed authentication
    pub session_token: String,
    /// Whether the authentication proccess was silent
    pub silent: bool,
}

/// The bytes after `prefix` once an authentication response is written
/// for `player` with the session token `token`. A silent login carries the
/// session details in a group; another login carries a persona list and
/// the session key. The session key is the upper case hexadecimal ID.
pub open spec fn auth_response_written(prefix: Seq<u8>, player: Player, token: Seq<char>, silent: bool) -> Seq<u8> {
    let s = if silent {
        prefix + tdf_tag_zero(['A', 'G', 'U', 'P'])
    } else {
        prefix
    };
    let s = s + tdf_tag_str_empty(['L', 'D', 'H', 'T']) + tdf_tag_zero(['N', 'T', 'O', 'S'])
        + tdf_tag_str(['P', 'C', 'T', 'K'], token);
    let s = if silent {
        let s = s + tdf_tag_str_empty(['P', 'R', 'I', 'V']) + tdf_tag_group(['S', 'E', 'S', 'S'])
            + tdf_tag_u32(['B', 'U', 'I', 'D'], player.id) + tdf_tag_zero(['F', 'R', 'S', 'T'])
            + tdf_tag_str(['K', 'E', 'Y', '\0'], upper_hex_text(player.id as nat))
            + tdf_tag_zero(['L', 'L', 'O', 'G']) + tdf_tag_str(['M', 'A', 'I', 'L'], player.email@)
            + tdf_tag_group(['P', 'D', 'T', 'L']);
        let s = persona_written(s, player.id, player.display_name@);
        (s + tdf_tag_u32(['U', 'I', 'D', '\0'], player.id)).push(0u8)
    } else {
        let s = s + tdf_tag_list_start(['P', 'L', 'S', 'T'], TdfKind::Group, 1);
        let s = persona_written(s, player.id, player.display_name@);
        s + tdf_tag_str_empty(['P', 'R', 'I', 'V']) + tdf_tag_str(
            ['S', 'K', 'E', 'Y'],
            upper_hex_text(player.id as nat),
        )
    };
    let s = s + tdf_tag_zero(['S', 'P', 'A', 'M']) + tdf_tag_str_empty(['T', 'H', 'S', 'T'])
        + tdf_tag_str_empty(['T', 'S', 'U', 'I']) + tdf_tag_str_empty(['T', 'U', 'R', 'I']);
    if silent {
        s
    } else {
        s + tdf_tag_u32(['U', 'I', 'D', '\0'], player.id)
    }
}

impl AuthResponse {
    /// Writes this response to `w`.
    pub fn serialize(&self, w: &mut Vec<u8>)
        ensures
            final(w)@ == auth_response_written(old(w)@, self.player, self.session_token@, self.silent),
    {
        let id = self.player.id;
        if self.silent {
            tag_zero(w, ['A', 'G', 'U', 'P']);
        }
        tag_str_empty(w, ['L', 'D', 'H', 'T']);
        tag_zero(w, ['N', 'T', 'O', 'S']);
        // PC authentication token
        tag_str(w, ['P', 'C', 'T', 'K'], self.session_token.as_str());
        if self.silent {
            tag_str_empty(w, ['P', 'R', 'I', 'V']);
            tag_group(w, ['S', 'E', 'S', 'S']);
            tag_u32(w, ['B', 'U', 'I', 'D'], id);
            tag_zero(w, ['F', 'R', 'S', 'T']);
            // Session key
            let key = upper_hex(id);
            tag_str(w, ['K', 'E', 'Y', '\0'], key.as_str());
            tag_zero(w, ['L', 'L', 'O', 'G']);
            tag_str(w, ['M', 'A', 'I', 'L'], self.player.email.as_str());
            // Persona details
            tag_group(w, ['P', 'D', 'T', 'L']);
            encode_persona(w, id, self.player.display_name.as_str());
            tag_u32(w, ['U', 'I', 'D', '\0'], id);
            tag_group_end(w);
        } else {
            tag_list_start(w, ['P', 'L', 'S', 'T'], TdfKind::Group, 1);
            encode_persona(w, id, self.player.display_name.as_str());
            tag_str_empty(w, ['P', 'R', 'I', 'V']);
            let key = upper_hex(id);
            tag_str(w, ['S', 'K', 'E', 'Y'], key.as_str());
        }
        tag_zero(w, ['S', 'P', 'A', 'M']);
        tag_str_empty(w, ['T', 'H', 'S', 'T']);
        tag_str_empty(w, ['T', 'S', 'U', 'I']);
        tag_str_empty(w, ['T', 'U', 'R', 'I']);
        if !self.silent {
            tag_u32(w, ['U', 'I', 'D', '\0'], id);
        }
    }
}

/// Response with the details of the current persona, which here are the
/// player's own details.
pub struct PersonaResponse {
    /// The player
    pub player: Player,
}

/// The bytes after `prefix` once the persona response of `player` is
/// written.
pub open spec fn persona_response_written(prefix: Seq<u8>, player: Player) -> Seq<u8> {
    let s = prefix + tdf_tag_u32(['B', 'U', 'I', 'D'], player.id) + tdf_tag_zero(['F', 'R', 'S', 'T'])
        + tdf_tag_str(['K', 'E', 'Y', '\0'], upper_hex_text(player.id as nat))
        + tdf_tag_zero(['L', 'L', 'O', 'G']) + tdf_tag_str(['M', 'A', 'I', 'L'], player.email@)
        + tdf_tag_group(['P', 'D', 'T', 'L']);
    persona_written(s, player.id, player.display_name@) + tdf_tag_u32(['U', 'I', 'D', '\0'], player.id)
}

impl PersonaResponse {
    /// Writes this response to `w`.
    pub fn serialize(&self, w: &mut Vec<u8>)
        ensures
            final(w)@ == persona_response_written(old(w)@, self.player),
    {
        let id = self.player.id;
        tag_u32(w, ['B', 'U', 'I', 'D'], id);
        tag_zero(w, ['F', 'R', 'S', 'T']);
        let key = upper_hex(id);
        tag_str(w, ['K', 'E', 'Y', '\0'], key.as_str());
        tag_zero(w, ['L', 'L', 'O', 'G']);
        tag_str(w, ['M', 'A', 'I', 'L'], self.player.email.as_str());
        tag_group(w, ['P', 'D', 'T', 'L']);
        encode_persona(w, id, self.player.display_name.as_str());
        tag_u32(w, ['U', 'I', 'D', '\0'], id);
    }
}

/// An entitlement (owned content) of the account.
#[derive(Clone, Copy)]
pub struct Entitlement {
    pub name: &'static str,
    pub id: u64,
    pub pjid: &'static str,
    pub prca: u8,
    pub prid: &'static str,
    pub tag: &'static str,
    pub ty: u8,
}

impl Entitlement {
    /// Group name of PC offers.
    pub const PC_TAG: &'static str = "ME3PCOffers";

    /// Group name of offers common to every platform.
    pub const GEN_TAG: &'static str = "ME3GenOffers";

    /// An entitlement of the PC offers group.
    pub fn new_pc(
        id: u64,
        pjid: &'static str,
        prca: u8,
        prid: &'static str,
        tag: &'static str,
        ty: u8,
    ) -> (r: Entitlement)
        ensures
            r == (Entitlement { name: Self::PC_TAG, id, pjid, prca, prid, tag, ty }),
    {
        Entitlement { name: Self::PC_TAG, id, pjid, prca, prid, tag, ty }
    }

    /// An entitlement of the general offers group.
    pub fn new_gen(
        id: u64,
        pjid: &'static str,
        prca: u8,
        prid: &'static str,
        tag: &'static str,
        ty: u8,
    ) -> (r: Entitlement)
        ensures
            r == (Entitlement { name: Self::GEN_TAG, id, pjid, prca, prid, tag, ty }),
    {
        Entitlement { name: Self::GEN_TAG, id, pjid, prca, prid, tag, ty }
    }

    /// Writes this entitlement as a group body (then the group end).
    pub fn serialize(&self, w: &mut Vec<u8>)
        ensures
            final(w)@ == entitlement_written(old(w)@, *self),
    {
        tag_str_empty(w, ['D', 'E', 'V', 'I']);
        tag_str(w, ['G', 'D', 'A', 'Y'], "2012-12-15T16:15Z");
        tag_str(w, ['G', 'N', 'A', 'M'], self.name);
        tag_u64(w, ['I', 'D', '\0', '\0'], self.id);
        tag_u8(w, ['I', 'S', 'C', 'O'], 0);
        tag_u8(w, ['P', 'I', 'D', '\0'], 0);
        tag_str(w, ['P', 'J', 'I', 'D'], self.pjid);
        tag_u8(w, ['P', 'R', 'C', 'A'], self.prca);
        tag_str(w, ['P', 'R', 'I', 'D'], self.prid);
        tag_u8(w, ['S', 'T', 'A', 'T'], 1);
        tag_u8(w, ['S', 'T', 'R', 'C'], 0);
        tag_str(w, ['T', 'A', 'G', '\0'], self.tag);
        tag_str_empty(w, ['T', 'D', 'A', 'Y']);
        tag_u8(w, ['T', 'Y', 'P', 'E'], self.ty);
        tag_u8(w, ['U', 'C', 'N', 'T'], 0);
        tag_u8(w, ['V', 'E', 'R', '\0'], 0);
        tag_group_end(w);
    }
}

/// The bytes after `prefix` once the entitlement `e` is written as a group
/// body (then the group end).
pub open spec fn entitlement_written(prefix: Seq<u8>, e: Entitlement) -> Seq<u8> {
    let s = prefix + tdf_tag_str_empty(['D', 'E', 'V', 'I']) + tdf_tag_str(
        ['G', 'D', 'A', 'Y'],
        "2012-12-15T16:15Z"@,
    ) + tdf_tag_str(['G', 'N', 'A', 'M'], e.name@) + tdf_tag_u64(['I', 'D', '\0', '\0'], e.id)
        + tdf_tag_u8(['I', 'S', 'C', 'O'], 0) + tdf_tag_u8(['P', 'I', 'D', '\0'], 0) + tdf_tag_str(
        ['P', 'J', 'I', 'D'],
        e.pjid@,
    ) + tdf_tag_u8(['P', 'R', 'C', 'A'], e.prca) + tdf_tag_str(['P', 'R', 'I', 'D'], e.prid@)
        + tdf_tag_u8(['S', 'T', 'A', 'T'], 1) + tdf_tag_u8(['S', 'T', 'R', 'C'], 0) + tdf_tag_str(
        ['T', 'A', 'G', '\0'],
        e.tag@,
    ) + tdf_tag_str_empty(['T', 'D', 'A', 'Y']) + tdf_tag_u8(['T', 'Y', 'P', 'E'], e.ty)
        + tdf_tag_u8(['U', 'C', 'N', 'T'], 0) + tdf_tag_u8(['V', 'E', 'R', '\0'], 0);
    s.push(0u8)
}

/// The bytes after `prefix` once the entitlements `list` are written one
/// after the other.
pub open spec fn entitlements_written(prefix: Seq<u8>, list: Seq<Entitlement>) -> Seq<u8>
    decreases list.len(),
{
    if list.len() == 0 {
        prefix
    } else {
        entitlement_written(entitlements_written(prefix, list.drop_last()), list.last())
    }
}

/// Response listing entitlements.
pub struct ListEntitlementsResponse {
    pub list: Vec<Entitlement>,
}

impl ListEntitlementsResponse {
    /// Writes this response to `w`: the list of entitlement groups.
    pub fn serialize(&self, w: &mut Vec<u8>)
        ensures
            final(w)@ == entitlements_written(
                old(w)@ + tdf_tag_list_start(['N', 'L', 'S', 'T'], TdfKind::Group, self.list@.len() as usize),
                self.list@,
            ),
    {
        let n = self.list.len();
        tag_list_start(w, ['N', 'L', 'S', 'T'], TdfKind::Group, n);
        let ghost start = w@;
        let mut i: usize = 0;
        while i < n
            invariant
                n == self.list@.len(),
                0 <= i <= n,
                w@ == entitlements_written(start, self.list@.take(i as int)),
            decreases n - i,
        {
            self.list[i].serialize(w);
            proof {
                assert(self.list@.take(i + 1).drop_last() =~= self.list@.take(i as int));
            }
            i = i + 1;
        }
        proof {
            assert(self.list@.take(n as int) =~= self.list@);
        }
    }
}

/// Dummy legal documents information; none of its values ever change.
pub struct LegalDocsInfo;

/// The bytes after `prefix` once the legal documents information is
/// written.
pub open spec fn legal_docs_written(prefix: Seq<u8>) -> Seq<u8> {
    prefix + tdf_tag_zero(['E', 'A', 'M', 'C']) + tdf_tag_str_empty(['L', 'H', 'S', 'T'])
        + tdf_tag_zero(['P', 'M', 'C', '\0']) + tdf_tag_str_empty(['P', 'P', 'U', 'I'])
        + tdf_tag_str_empty(['T', 'S', 'U', 'I'])
}

impl LegalDocsInfo {
    /// Writes the legal documents information to `w`.
    pub fn serialize(&self, w: &mut Vec<u8>)
        ensures
            final(w)@ == legal_docs_written(old(w)@),
    {
        tag_zero(w, ['E', 'A', 'M', 'C']);
        tag_str_empty(w, ['L', 'H', 'S', 'T']);
        tag_zero(w, ['P', 'M', 'C', '\0']);
        tag_str_empty(w, ['P', 'P', 'U', 'I']);
        tag_str_empty(w, ['T', 'S', 'U', 'I']);
    }
}

/// Legal content such as the privacy policy and the terms of service.
pub struct LegalContent {
    /// Path to the legal content (below https://tos.ea.com/legalapp/)
    pub path: &'static str,
    /// Unknown value
    pub col: u16,
    /// The HTML content of the legal document
    pub content: String,
}

impl LegalContent {
    /// Writes this content to `w`: its path, column value and content.
    pub fn serialize(&self, w: &mut Vec<u8>)
        ensures
            final(w)@ == old(w)@ + tdf_tag_str(['L', 'D', 'V', 'C'], self.path@) + tdf_tag_u16(
                ['T', 'C', 'O', 'L'],
                self.col,
            ) + tdf_tag_str(['T', 'C', 'O', 'T'], self.content@),
    {
        tag_str(w, ['L', 'D', 'V', 'C'], self.path);
        tag_u16(w, ['T', 'C', 'O', 'L'], self.col);
        tag_str(w, ['T', 'C', 'O', 'T'], self.content.as_str());
    }

    /// The terms of service, with `content` read from the local file when
    /// there is one, else a placeholder.
    pub fn terms_of_service(content: Option<String>) -> (r: LegalContent)
        ensures
            r.path@ == "webterms/au/en/pc/default/09082020/02042022"@,
            r.col == 0xdaed,
            r.content@ == (match content {
                Some(c) => c@,
                None => "<h1>This is a terms of service placeholder</h1>"@,
            }),
    {
        let content = match content {
            Some(c) => c,
            None => "<h1>This is a terms of service placeholder</h1>".to_owned(),
        };
        LegalContent { col: 0xdaed, content, path: "webterms/au/en/pc/default/09082020/02042022" }
    }

    /// The privacy policy, with `content` read from the local file when
    /// there is one, else a placeholder.
    pub fn privacy_policy(content: Option<String>) -> (r: LegalContent)
        ensures
            r.path@ == "webprivacy/au/en/pc/default/08202020/02042022"@,
            r.col == 0xc99c,
            r.content@ == (match content {
                Some(c) => c@,
                None => "<h1>This is a privacy policy placeholder</h1>"@,
            }),
    {
        let content = match content {
            Some(c) => c,
            None => "<h1>This is a privacy policy placeholder</h1>".to_owned(),
        };
        LegalContent { col: 0xc99c, content, path: "webprivacy/au/en/pc/default/08202020/02042022" }
    }
}

/// Response to the client requesting a shared token.
pub struct GetTokenResponse {
    /// The generated shared token
    pub token: String,
}

impl GetTokenResponse {
    /// Writes this response to `w`.
    pub fn serialize(&self, w: &mut Vec<u8>)
        ensures
            final(w)@ == old(w)@ + tdf_tag_str(['A', 'U', 'T', 'H'], self.token@),
    {
        tag_str(w, ['A', 'U', 'T', 'H'], self.token.as_str());
    }
}

/// The entitlements response: the full entitlement list when the request's
/// tag is empty, nothing for any other tag.
pub fn list_entitlements(request: &ListEntitlementsRequest) -> (r: Option<ListEntitlementsResponse>)
    ensures
        request.tag@.len() == 0 <==> r is Some,
        r matches Some(resp) ==> resp.list@ == entitlement_list(),
{
    if request.tag.as_str().is_empty() {
        Some(ListEntitlementsResponse { list: entitlements() })
    } else {
        None
    }
}

/// An entitlement of the PC offers group.
pub open spec fn pc_entitlement(id: u64, pjid: &'static str, prca: u8, prid: &'static str, tag: &'static str, ty: u8) -> Entitlement {
    Entitlement { name: Entitlement::PC_TAG, id, pjid, prca, prid, tag, ty }
}

/// An entitlement of the general offers group.
pub open spec fn gen_entitlement(id: u64, pjid: &'static str, prca: u8, prid: &'static str, tag: &'static str, ty: u8) -> Entitlement {
    Entitlement { name: Entitlement::GEN_TAG, id, pjid, prca, prid, tag, ty }
}

/// The entitlements every account has: the multiplayer pass, online
/// access, single player and multiplayer DLC, packs and bonus content.
pub open spec fn entitlement_list() -> Seq<Entitlement> {
    seq![
        pc_entitlement(0xec5090c43f, "303107", 2, "DR:229644400", "PROJECT10_CODE_CONSUMED", 1),
        pc_entitlement(0xec3e4d793f, "304141", 2, "DR:230773600", "PROJECT10_CODE_CONSUMED_LE1", 1),
        pc_entitlement(0xec3e4d793f, "304141", 2, "DR:230773600", "PROJECT10_CODE_CONSUMED_LE1", 1),
        pc_entitlement(0xec50b255ff, "300241", 2, "OFB-MASS:44370", "ONLINE_ACCESS", 1),
        pc_entitlement(0xec50a620ff, "300241", 2, "OFB-MASS:49465", "ONLINE_ACCESS", 1),
        pc_entitlement(0xec508db6ff, "303107", 2, "DR:229644400", "ONLINE_ACCESS", 1),
        pc_entitlement(0xec3e5393bf, "300241", 2, "OFB-EAST:46112", "ONLINE_ACCESS", 1),
        pc_entitlement(0xec3e50867f, "304141", 2, "DR:230773600", "ONLINE_ACCESS", 1),
        gen_entitlement(0xec4495bfff, "303107", 0, "", "ONLINE_ACCESS_GAW_PC", 1),
        gen_entitlement(0xea234c3e7f, "303107", 2, "", "ONLINE_ACCESS_GAW_XBL2", 1),
        pc_entitlement(0xec3e62d5ff, "300241", 2, "OFB-MASS:51074", "ME3_PRC_EXTENDEDCUT", 5),
        pc_entitlement(0xec50b5633f, "300241", 2, "OFB-MASS:44370", "ME3_PRC_PROTHEAN", 5),
        pc_entitlement(0xec3e56a0ff, "300241", 2, "OFB-EAST:46112", "ME3_PRC_PROTHEAN", 5),
        pc_entitlement(0xec50b8707f, "300241", 2, "OFB-MASS:52001", "ME3_PRC_LEVIATHAN", 5),
        pc_entitlement(0xec50ac3b7f, "300241", 2, "OFB-MASS:55146", "ME3_PRC_OMEGA", 5),
        pc_entitlement(0xec5093d17f, "300241", 2, "OFB-EAST:58040", "MET_BONUS_CONTENT_DW", 5),
        pc_entitlement(0xec50af48bf, "300241", 2, "OFB-EAST:57550", "ME3_PRC_CITADEL", 5),
        pc_entitlement(0xec50bb7dbf, "300241", 2, "OFB-MASS:56984", "ME3_MTX_APP01", 5),
        pc_entitlement(0xec5099ebff, "300241", 2, "OFB-MASS:49032", "ME3_MTX_GUN01", 5),
        pc_entitlement(0xec50c1983f, "300241", 2, "OFB-MASS:55147", "ME3_MTX_GUN02", 5),
        pc_entitlement(0xec50a0067f, "300241", 2, "OFB-MASS:47872", "ME3_PRC_RESURGENCE", 5),
        pc_entitlement(0xec50a92e3f, "300241", 2, "OFB-MASS:49465", "ME3_PRC_REBELLION", 5),
        pc_entitlement(0xec5096debf, "300241", 2, "OFB-MASS:51073", "ME3_PRC_EARTH", 5),
        pc_entitlement(0xec509cf93f, "300241", 2, "OFB-MASS:52000", "ME3_PRC_GOBIG", 5),
        pc_entitlement(0xec50a313bf, "300241", 2, "OFB-MASS:59712", "ME3_PRC_MP5", 5),
        pc_entitlement(0xec81ae023f, "300241", 2, "OFB-MASS:46111", "ME3_PRO_M90_INDRA", 5),
        pc_entitlement(0xec81aaf4ff, "300241", 2, "OFB-MASS:46110", "ME3_PRO_AT12_RAIDER_PACK", 5),
        pc_entitlement(0xec81a7e7bf, "300241", 2, "OFB-MASS:46033", "ME3_PRO_M55_ARGUS", 5),
        pc_entitlement(0xec81a4da7f, "300241", 2, "OFB-MASS:46032", "ME3_PRO_N7_WARFARE_PACK", 5),
        pc_entitlement(0xec81a1cd3f, "300241", 2, "OFB-MASS:46489", "ME3_PRO_N7_WARFARE_PACK", 5),
        pc_entitlement(0xec3e5fc8bf, "300241", 2, "OFB-MASS:46484", "ME3_MTX_COLLECTORS_EDITION", 5),
        pc_entitlement(0xec3e5cbb7f, "300241", 2, "OFB-MASS:46483", "ME3_MTX_DIGITAL_ART_BOOKS", 5),
        gen_entitlement(0xec3e59ae3f, "300241", 2, "OFB-MASS:46482", "ME3_MTX_SOUNDTRACK", 5),
        pc_entitlement(0xec50be8aff, "300241", 2, "OFB-MASS:61524", "ME3_PRC_DARKHORSECOMIC", 5),
    ]
}

/// The entitlements every account has.
pub fn entitlements() -> (r: Vec<Entitlement>)
    ensures
        r@ == entitlement_list(),
{
    let mut list: Vec<Entitlement> = Vec::new();
    list.push(Entitlement::new_pc(0xec5090c43f, "303107", 2, "DR:229644400", "PROJECT10_CODE_CONSUMED", 1));
    list.push(Entitlement::new_pc(0xec3e4d793f, "304141", 2, "DR:230773600", "PROJECT10_CODE_CONSUMED_LE1", 1));
    list.push(Entitlement::new_pc(0xec3e4d793f, "304141", 2, "DR:230773600", "PROJECT10_CODE_CONSUMED_LE1", 1));
    list.push(Entitlement::new_pc(0xec50b255ff, "300241", 2, "OFB-MASS:44370", "ONLINE_ACCESS", 1));
    list.push(Entitlement::new_pc(0xec50a620ff, "300241", 2, "OFB-MASS:49465", "ONLINE_ACCESS", 1));
    list.push(Entitlement::new_pc(0xec508db6ff, "303107", 2, "DR:229644400", "ONLINE_ACCESS", 1));
    list.push(Entitlement::new_pc(0xec3e5393bf, "300241", 2, "OFB-EAST:46112", "ONLINE_ACCESS", 1));
    list.push(Entitlement::new_pc(0xec3e50867f, "304141", 2, "DR:230773600", "ONLINE_ACCESS", 1));
    list.push(Entitlement::new_gen(0xec4495bfff, "303107", 0, "", "ONLINE_ACCESS_GAW_PC", 1));
    list.push(Entitlement::new_gen(0xea234c3e7f, "303107", 2, "", "ONLINE_ACCESS_GAW_XBL2", 1));
    list.push(Entitlement::new_pc(0xec3e62d5ff, "300241", 2, "OFB-MASS:51074", "ME3_PRC_EXTENDEDCUT", 5));
    list.push(Entitlement::new_pc(0xec50b5633f, "300241", 2, "OFB-MASS:44370", "ME3_PRC_PROTHEAN", 5));
    list.push(Entitlement::new_pc(0xec3e56a0ff, "300241", 2, "OFB-EAST:46112", "ME3_PRC_PROTHEAN", 5));
    list.push(Entitlement::new_pc(0xec50b8707f, "300241", 2, "OFB-MASS:52001", "ME3_PRC_LEVIATHAN", 5));
    list.push(Entitlement::new_pc(0xec50ac3b7f, "300241", 2, "OFB-MASS:55146", "ME3_PRC_OMEGA", 5));
    list.push(Entitlement::new_pc(0xec5093d17f, "300241", 2, "OFB-EAST:58040", "MET_BONUS_CONTENT_DW", 5));
    list.push(Entitlement::new_pc(0xec50af48bf, "300241", 2, "OFB-EAST:57550", "ME3_PRC_CITADEL", 5));
    list.push(Entitlement::new_pc(0xec50bb7dbf, "300241", 2, "OFB-MASS:56984", "ME3_MTX_APP01", 5));
    list.push(Entitlement::new_pc(0xec5099ebff, "300241", 2, "OFB-MASS:49032", "ME3_MTX_GUN01", 5));
    list.push(Entitlement::new_pc(0xec50c1983f, "300241", 2, "OFB-MASS:55147", "ME3_MTX_GUN02", 5));
    list.push(Entitlement::new_pc(0xec50a0067f, "300241", 2, "OFB-MASS:47872", "ME3_PRC_RESURGENCE", 5));
    list.push(Entitlement::new_pc(0xec50a92e3f, "300241", 2, "OFB-MASS:49465", "ME3_PRC_REBELLION", 5));
    list.push(Entitlement::new_pc(0xec5096debf, "300241", 2, "OFB-MASS:51073", "ME3_PRC_EARTH", 5));
    list.push(Entitlement::new_pc(0xec509cf93f, "300241", 2, "OFB-MASS:52000", "ME3_PRC_GOBIG", 5));
    list.push(Entitlement::new_pc(0xec50a313bf, "300241", 2, "OFB-MASS:59712", "ME3_PRC_MP5", 5));
    list.push(Entitlement::new_pc(0xec81ae023f, "300241", 2, "OFB-MASS:46111", "ME3_PRO_M90_INDRA", 5));
    list.push(Entitlement::new_pc(0xec81aaf4ff, "300241", 2, "OFB-MASS:46110", "ME3_PRO_AT12_RAIDER_PACK", 5));
    list.push(Entitlement::new_pc(0xec81a7e7bf, "300241", 2, "OFB-MASS:46033", "ME3_PRO_M55_ARGUS", 5));
    list.push(Entitlement::new_pc(0xec81a4da7f, "300241", 2, "OFB-MASS:46032", "ME3_PRO_N7_WARFARE_PACK", 5));
    list.push(Entitlement::new_pc(0xec81a1cd3f, "300241", 2, "OFB-MASS:46489", "ME3_PRO_N7_WARFARE_PACK", 5));
    list.push(Entitlement::new_pc(0xec3e5fc8bf, "300241", 2, "OFB-MASS:46484", "ME3_MTX_COLLECTORS_EDITION", 5));
    list.push(Entitlement::new_pc(0xec3e5cbb7f, "300241", 2, "OFB-MASS:46483", "ME3_MTX_DIGITAL_ART_BOOKS", 5));
    list.push(Entitlement::new_gen(0xec3e59ae3f, "300241", 2, "OFB-MASS:46482", "ME3_MTX_SOUNDTRACK", 5));
    list.push(Entitlement::new_pc(0xec50be8aff, "300241", 2, "OFB-MASS:61524", "ME3_PRC_DARKHORSECOMIC", 5));
    assert(list@ =~= entitlement_list());
    list
}

} // verus!
