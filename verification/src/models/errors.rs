//! Error codes sent back to clients in error responses.
use vstd::prelude::*;
use crate::packet::{FireFrame, FrameType, Packet};

verus! {

/// Response carrying a Blaze error code.
#[derive(Debug, Clone, Copy, PartialEq, Eq, Structural)]
pub struct BlazeError(pub u16);

impl BlazeError {
    /// The empty error response to `req` with this error code.
    pub fn into_response(self, req: &Packet) -> (r: Packet)
        ensures
            r.frame == (FireFrame { error: self.0, ..req.frame.spec_with_type(FrameType::Error) }),
            r.contents@.len() == 0,
    {
        Packet::error_empty(req, self.0)
    }
}

/// Server error values.
#[derive(Debug, Clone, Copy, PartialEq, Eq, Structural)]
pub enum ServerError {
    ServerUnavailable,
    EmailNotFound,
    WrongPassword,
    InvalidSession,
    EmailAlreadyInUse,
    AgeRestriction,
    InvalidAccount,
    BannedAccount,
    InvalidInformation,
    InvalidEmail,
    LegalGuardianRequired,
    CodeRequired,
    KeyCodeAlreadyInUse,
    InvalidCerberusKey,
    ServerUnavailableFinal,
    FailedNoLoginAction,
    ServerUnavailableNothing,
    ConnectionLost,
    UnableToUpdateSettings,
    Suspend12D,
    Suspend12E,
}

impl ServerError {
    /// The error code sent to the client.
    pub open spec fn code(self) -> u16 {
        match self {
            ServerError::ServerUnavailable => 0x0,
            ServerError::EmailNotFound => 0xB,
            ServerError::WrongPassword => 0xC,
            ServerError::InvalidSession => 0xD,
            ServerError::EmailAlreadyInUse => 0x0F,
            ServerError::AgeRestriction => 0x10,
            ServerError::InvalidAccount => 0x11,
            ServerError::BannedAccount => 0x13,
            ServerError::InvalidInformation => 0x15,
            ServerError::InvalidEmail => 0x16,
            ServerError::LegalGuardianRequired => 0x2A,
            ServerError::CodeRequired => 0x32,
            ServerError::KeyCodeAlreadyInUse => 0x33,
            ServerError::InvalidCerberusKey => 0x34,
            ServerError::ServerUnavailableFinal => 0x4001,
            ServerError::FailedNoLoginAction => 0x4004,
            ServerError::ServerUnavailableNothing => 0x4005,
            ServerError::ConnectionLost => 0x4007,
            ServerError::UnableToUpdateSettings => 0xCB,
            ServerError::Suspend12D => 0x12D,
            ServerError::Suspend12E => 0x12E,
        }
    }

    /// The error code sent to the client.
    pub fn value(&self) -> (r: u16)
        ensures
            r == self.code(),
    {
        match self {
            ServerError::ServerUnavailable => 0x0,
            ServerError::EmailNotFound => 0xB,
            ServerError::WrongPassword => 0xC,
            ServerError::InvalidSession => 0xD,
            ServerError::EmailAlreadyInUse => 0x0F,
            ServerError::AgeRestriction => 0x10,
            ServerError::InvalidAccount => 0x11,
            ServerError::BannedAccount => 0x13,
            ServerError::InvalidInformation => 0x15,
            ServerError::InvalidEmail => 0x16,
            ServerError::LegalGuardianRequired => 0x2A,
            ServerError::CodeRequired => 0x32,
            ServerError::KeyCodeAlreadyInUse => 0x33,
            ServerError::InvalidCerberusKey => 0x34,
            ServerError::ServerUnavailableFinal => 0x4001,
            ServerError::FailedNoLoginAction => 0x4004,
            ServerError::ServerUnavailableNothing => 0x4005,
            ServerError::ConnectionLost => 0x4007,
            ServerError::UnableToUpdateSettings => 0xCB,
            ServerError::Suspend12D => 0x12D,
            ServerError::Suspend12E => 0x12E,
        }
    }
}

impl From<ServerError> for BlazeError {
    fn from(value: ServerError) -> (r: BlazeError) {
        BlazeError(value.value())
    }
}

impl vstd::std_specs::convert::FromSpecImpl<ServerError> for BlazeError {
    open spec fn obeys_from_spec() -> bool {
        true
    }

    open spec fn from_spec(v: ServerError) -> BlazeError {
        BlazeError(v.code())
    }
}
impl ServerError {
    /// The empty error response to `req` with this error code.
    pub fn into_response(self, req: &Packet) -> (r: Packet)
        ensures
            r.frame == (FireFrame { error: self.code(), ..req.frame.spec_with_type(FrameType::Error) }),
            r.contents@.len() == 0,
    {
        Packet::error_empty(req, self.value())
    }
}

/// Errors common to every component.
#[derive(Debug, Clone, Copy, PartialEq, Eq, Structural)]
pub enum GlobalError {
    Cancelled,
    Disconnected,
    DuplicateLogin,
    AuthorizationRequired,
    Timeout,
    ComponentNotFound,
    CommandNotFound,
    AuthenticationRequired,
    System,
}

impl GlobalError {
    /// The error code sent to the client.
    pub open spec fn code(self) -> u16 {
        match self {
            GlobalError::Cancelled => 0x4009,
            GlobalError::Disconnected => 0x4006,
            GlobalError::DuplicateLogin => 0x4007,
            GlobalError::AuthorizationRequired => 0x4008,
            GlobalError::Timeout => 0x4005,
            GlobalError::ComponentNotFound => 0x4002,
            GlobalError::CommandNotFound => 0x4003,
            GlobalError::AuthenticationRequired => 0x4004,
            GlobalError::System => 0x4001,
        }
    }

    /// The error code sent to the client.
    pub fn value(&self) -> (r: u16)
        ensures
            r == self.code(),
    {
        match self {
            GlobalError::Cancelled => 0x4009,
            GlobalError::Disconnected => 0x4006,
            GlobalError::DuplicateLogin => 0x4007,
            GlobalError::AuthorizationRequired => 0x4008,
            GlobalError::Timeout => 0x4005,
            GlobalError::ComponentNotFound => 0x4002,
            GlobalError::CommandNotFound => 0x4003,
            GlobalError::AuthenticationRequired => 0x4004,
            GlobalError::System => 0x4001,
        }
    }
}

impl From<GlobalError> for BlazeError {
    fn from(value: GlobalError) -> (r: BlazeError) {
        BlazeError(value.value())
    }
}

impl vstd::std_specs::convert::FromSpecImpl<GlobalError> for BlazeError {
    open spec fn obeys_from_spec() -> bool {
        true
    }

    open spec fn from_spec(v: GlobalError) -> BlazeError {
        BlazeError(v.code())
    }
}
/// Errors of the database layer.
#[derive(Debug, Clone, Copy, PartialEq, Eq, Structural)]
pub enum DatabaseError {
    Timeout,
    InitFailure,
    TranscationNotComplete,
    Disconnected,
    NoConnectionAvailable,
    DuplicateEntry,
    System,
}

impl DatabaseError {
    /// The error code sent to the client.
    pub open spec fn code(self) -> u16 {
        match self {
            DatabaseError::Timeout => 0x406c,
            DatabaseError::InitFailure => 0x406d,
            DatabaseError::TranscationNotComplete => 0x406e,
            DatabaseError::Disconnected => 0x406b,
            DatabaseError::NoConnectionAvailable => 0x4068,
            DatabaseError::DuplicateEntry => 0x4069,
            DatabaseError::System => 0x4065,
        }
    }

    /// The error code sent to the client.
    pub fn value(&self) -> (r: u16)
        ensures
            r == self.code(),
    {
        match self {
            DatabaseError::Timeout => 0x406c,
            DatabaseError::InitFailure => 0x406d,
            DatabaseError::TranscationNotComplete => 0x406e,
            DatabaseError::Disconnected => 0x406b,
            DatabaseError::NoConnectionAvailable => 0x4068,
            DatabaseError::DuplicateEntry => 0x4069,
            DatabaseError::System => 0x4065,
        }
    }
}

impl From<DatabaseError> for BlazeError {
    fn from(value: DatabaseError) -> (r: BlazeError) {
        BlazeError(value.value())
    }
}

impl vstd::std_specs::convert::FromSpecImpl<DatabaseError> for BlazeError {
    open spec fn obeys_from_spec() -> bool {
        true
    }

    open spec fn from_spec(v: DatabaseError) -> BlazeError {
        BlazeError(v.code())
    }
}
} // verus!
