//! Retrieving data from the official servers: the instance request sent to
//! the redirector, and when an Origin login flow can be had.
use vstd::prelude::*;
use crate::encode::{
    tag_str, tag_u32, tag_u8, tag_union_unset, tdf_tag_str, tdf_tag_u32, tdf_tag_u8,
    tdf_tag_union_unset,
};
use crate::packet::{FireFrame, FrameType};

verus! {

/// The server instance request sent to the redirector, with the details
/// of an official game copy.
pub struct InstanceRequest;

/// The bytes after `prefix` once the instance request is written.
pub open spec fn instance_request_written(prefix: Seq<u8>) -> Seq<u8> {
    prefix + tdf_tag_str(['B', 'S', 'D', 'K'], "3.15.6.0"@) + tdf_tag_str(['B', 'T', 'I', 'M'], "Dec 21 2012 12:47:10"@)
        + tdf_tag_str(['C', 'L', 'N', 'T'], "MassEffect3-pc"@) + tdf_tag_u8(['C', 'L', 'T', 'P'], 0)
        + tdf_tag_str(['C', 'S', 'K', 'U'], "134845"@) + tdf_tag_str(['C', 'V', 'E', 'R'], "05427.124"@)
        + tdf_tag_str(['D', 'S', 'D', 'K'], "8.14.7.1"@) + tdf_tag_str(['E', 'N', 'V', '\0'], "prod"@)
        + tdf_tag_union_unset(['F', 'P', 'I', 'D']) + tdf_tag_u32(['L', 'O', 'C', '\0'], 0x656e4e5a)
        + tdf_tag_str(['N', 'A', 'M', 'E'], "masseffect-3-pc"@) + tdf_tag_str(['P', 'L', 'A', 'T'], "Windows"@)
        + tdf_tag_str(['P', 'R', 'O', 'F'], "standardSecure_v3"@)
}

impl InstanceRequest {
    /// Writes the instance request to `w`.
    pub fn serialize(&self, w: &mut Vec<u8>)
        ensures
            final(w)@ == instance_request_written(old(w)@),
    {
        tag_str(w, ['B', 'S', 'D', 'K'], "3.15.6.0");
        tag_str(w, ['B', 'T', 'I', 'M'], "Dec 21 2012 12:47:10");
        tag_str(w, ['C', 'L', 'N', 'T'], "MassEffect3-pc");
        tag_u8(w, ['C', 'L', 'T', 'P'], 0);
        tag_str(w, ['C', 'S', 'K', 'U'], "134845");
        tag_str(w, ['C', 'V', 'E', 'R'], "05427.124");
        tag_str(w, ['D', 'S', 'D', 'K'], "8.14.7.1");
        tag_str(w, ['E', 'N', 'V', '\0'], "prod");
        tag_union_unset(w, ['F', 'P', 'I', 'D']);
        tag_u32(w, ['L', 'O', 'C', '\0'], 0x656e4e5a);
        tag_str(w, ['N', 'A', 'M', 'E'], "masseffect-3-pc");
        tag_str(w, ['P', 'L', 'A', 'T'], "Windows");
        tag_str(w, ['P', 'R', 'O', 'F'], "standardSecure_v3");
    }
}

/// The account details the official server answers an Origin login with.
pub struct OriginLoginResponse {
    /// The email address of the Origin account
    pub email: String,
    /// The display name of the Origin account
    pub display_name: String,
}

/// Creates Origin login flows.
pub struct OriginFlowService {
    /// Whether the flows also load the account's data
    pub data: bool,
}

/// Why an Origin login flow could not be had.
#[derive(Debug, Clone, Copy, PartialEq, Eq, Structural)]
pub enum GetFlowError {
    /// Retriever is disabled or unavailable
    Unavailable,
    /// Unable to obtain a retriever instance
    Instance,
    /// Failed to obtain a session
    Session,
    /// Origin authentication is not enabled
    OriginDisabled,
}

/// Seconds an official server instance stays valid (2 hours).
pub const INSTANCE_LIFETIME_SECS: u64 = 7200;

/// When an official instance obtained at `now` expires.
pub fn instance_expiry(now: u64) -> (r: u64)
    requires
        now <= u64::MAX - INSTANCE_LIFETIME_SECS,
    ensures
        r == now + INSTANCE_LIFETIME_SECS,
{
    now + INSTANCE_LIFETIME_SECS
}

/// Next step of getting an Origin login flow.
#[derive(Debug, Clone, Copy, PartialEq, Eq, Structural)]
pub enum FlowStep {
    /// Open a session to the current official instance
    UseInstance,
    /// Obtain a new official instance first (the current one expired)
    RenewInstance,
}

/// The next step of getting an Origin login flow, given whether the
/// service is enabled and the expiry time of the current official
/// instance (if any) at time `now`: a disabled service or a missing
/// instance fail, an expired instance is renewed first.
pub fn origin_flow_step(enabled: bool, instance_expiry: Option<u64>, now: u64) -> (r: Result<FlowStep, GetFlowError>)
    ensures
        r == (if !enabled {
            Err(GetFlowError::OriginDisabled)
        } else {
            match instance_expiry {
                None => Err(GetFlowError::Unavailable),
                Some(exp) => Ok(if exp < now { FlowStep::RenewInstance } else { FlowStep::UseInstance }),
            }
        }),
{
    if !enabled {
        return Err(GetFlowError::OriginDisabled);
    }
    match instance_expiry {
        None => Err(GetFlowError::Unavailable),
        Some(exp) => Ok(if exp < now { FlowStep::RenewInstance } else { FlowStep::UseInstance }),
    }
}

/// What a packet from an official server means while a response to a
/// request is awaited.
#[derive(Debug, Clone, Copy, PartialEq, Eq, Structural)]
pub enum ResponseCheck {
    /// It is the response: stop waiting
    Response,
    /// It is an error: the request failed
    Failed,
    /// Something else: keep waiting
    Ignore,
}

/// What a packet with the frame `received` means while the response to
/// `request` is awaited: a response to the same component and command is
/// the response, any error fails the request, anything else is skipped.
pub fn check_response(request: &FireFrame, received: &FireFrame) -> (r: ResponseCheck)
    ensures
        r == match received.ty {
            FrameType::Response => if received.component == request.component
                && received.command == request.command {
                ResponseCheck::Response
            } else {
                ResponseCheck::Ignore
            },
            FrameType::Error => ResponseCheck::Failed,
            _ => ResponseCheck::Ignore,
        },
{
    match received.ty {
        FrameType::Response => if received.path_matches(request) {
            ResponseCheck::Response
        } else {
            ResponseCheck::Ignore
        },
        FrameType::Error => ResponseCheck::Failed,
        _ => ResponseCheck::Ignore,
    }
}

} // verus!
