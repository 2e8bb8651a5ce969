//! Decisions of the public API: the wire numbering of pod states, which state changes a client
//! may ask for, what the pod listing and status notifications carry, and the port lease the
//! API server itself asks for.

use crate::pod::config::ManagedContainerDockerPortProtocol;
use crate::pod::id::DeimosId;
use crate::pod::state::PodState;
use crate::text::{push_signed_decimal, signed_decimal_text};
use crate::upnp::UpnpLeaseData;
use vstd::prelude::*;

verus! {

/// The number that stands for a pod state on the wire, in the order in which the protocol
/// lists the states
pub open spec fn wire_state(state: PodState) -> i32 {
    match state {
        PodState::Disabled => 0,
        PodState::Transit => 1,
        PodState::Paused => 2,
        PodState::Enabled => 3,
    }
}

/// The number that stands for a pod state on the wire
pub fn proto_pod_state(state: PodState) -> (value: i32)
    ensures
        value == wire_state(state),
        0 <= value <= 3,
{
    match state {
        PodState::Disabled => 0,
        PodState::Transit => 1,
        PodState::Paused => 2,
        PodState::Enabled => 3,
    }
}

/// A state change that a client asks for
#[derive(Clone, Copy, Debug, PartialEq, Eq, Structural)]
pub enum PodCommand {
    Disable,
    Enable,
    Pause,
}

/// Why a state change request is refused
#[derive(Clone, Copy, Debug, PartialEq, Eq, Structural)]
pub enum UpdatePodError {
    /// `Transit` is reserved for the server
    ReservedTransit,
    /// The number stands for no pod state
    UnknownState(i32),
}

impl UpdatePodError {
    /// The message sent to the client
    pub fn message(&self) -> (text: String)
        ensures
            match *self {
                UpdatePodError::ReservedTransit => text@
                    == "Cannot set pod to reserved state Transit"@,
                UpdatePodError::UnknownState(v) => text@ == "Unknown pod state enumeration value "@
                    + signed_decimal_text(v as int),
            },
    {
        match self {
            UpdatePodError::ReservedTransit => "Cannot set pod to reserved state Transit".to_owned(),
            UpdatePodError::UnknownState(v) => {
                let mut text = "Unknown pod state enumeration value ".to_owned();
                push_signed_decimal(&mut text, *v);
                text
            },
        }
    }
}

/// The state change that a wire number asks for: the command of a pod state, a refusal for
/// the reserved `Transit`, or an error naming a number that stands for no state
pub open spec fn command_for(method: i32) -> Result<PodCommand, UpdatePodError> {
    if method == 0 {
        Ok(PodCommand::Disable)
    } else if method == 1 {
        Err(UpdatePodError::ReservedTransit)
    } else if method == 2 {
        Ok(PodCommand::Pause)
    } else if method == 3 {
        Ok(PodCommand::Enable)
    } else {
        Err(UpdatePodError::UnknownState(method))
    }
}

/// Decode the state a client asks a pod to take
pub fn update_pod_command(method: i32) -> (res: Result<PodCommand, UpdatePodError>)
    ensures
        res == command_for(method),
        (method < 0 || method > 3) ==> res == Err::<PodCommand, UpdatePodError>(
            UpdatePodError::UnknownState(method),
        ),
{
    if method == 0 {
        Ok(PodCommand::Disable)
    } else if method == 1 {
        Err(UpdatePodError::ReservedTransit)
    } else if method == 2 {
        Ok(PodCommand::Pause)
    } else if method == 3 {
        Ok(PodCommand::Enable)
    } else {
        Err(UpdatePodError::UnknownState(method))
    }
}

/// Asking a pod to take a state by the wire number of that state yields the command that
/// brings the pod there, for every state but `Transit`, which is refused
pub proof fn law_update_command_matches_state(state: PodState)
    ensures
        command_for(wire_state(state)) == match state {
            PodState::Disabled => Ok::<PodCommand, UpdatePodError>(PodCommand::Disable),
            PodState::Transit => Err::<PodCommand, UpdatePodError>(UpdatePodError::ReservedTransit),
            PodState::Paused => Ok::<PodCommand, UpdatePodError>(PodCommand::Pause),
            PodState::Enabled => Ok::<PodCommand, UpdatePodError>(PodCommand::Enable),
        },
{
}

/// The wire numbers of the pod states are 0 to 3, in the order `Disabled`, `Transit`, `Paused`,
/// `Enabled` (so each state has its own number), and a number outside 0 to 3 names no state:
/// asking for it is refused as unknown
pub proof fn law_wire_numbers_in_order(state: PodState, method: i32)
    ensures
        0 <= wire_state(state) <= 3,
        wire_state(PodState::Disabled) < wire_state(PodState::Transit),
        wire_state(PodState::Transit) < wire_state(PodState::Paused),
        wire_state(PodState::Paused) < wire_state(PodState::Enabled),
        method < 0 || method > 3 ==> command_for(method) == Err::<PodCommand, UpdatePodError>(
            UpdatePodError::UnknownState(method),
        ),
{
}

/// One pod in the listing sent to clients
pub struct PodBrief {
    pub id: String,
    pub title: String,
    pub state: i32,
}

/// A change of a pod's state sent to subscribed clients
pub struct PodStatusNotification {
    pub id: String,
    pub state: i32,
}

/// The listing entry for a pod
pub fn pod_brief(id: &DeimosId, title: &str, state: PodState) -> (brief: PodBrief)
    ensures
        brief.id@ == id@,
        brief.title@ == title@,
        brief.state == wire_state(state),
{
    PodBrief { id: id.owned(), title: title.to_owned(), state: proto_pod_state(state) }
}

/// The notification for a pod's new state
pub fn status_notification(id: &DeimosId, state: PodState) -> (note: PodStatusNotification)
    ensures
        note.id@ == id@,
        note.state == wire_state(state),
{
    PodStatusNotification { id: id.owned(), state: proto_pod_state(state) }
}

/// The port lease that the API server asks for: its own TCP port, when UPnP is enabled for it
pub fn api_lease_request(upnp: bool, port: u16) -> (requests: Option<Vec<UpnpLeaseData>>)
    ensures
        requests is None <==> !upnp,
        requests matches Some(r) ==> r@.len() == 1 && r@[0].port == port && r@[0].protocol
            == ManagedContainerDockerPortProtocol::Tcp && r@[0].name@ == "Deimos gRPC server"@,
{
    if upnp {
        let mut requests: Vec<UpnpLeaseData> = Vec::new();
        requests.push(
            UpnpLeaseData {
                name: "Deimos gRPC server".to_owned(),
                protocol: ManagedContainerDockerPortProtocol::Tcp,
                port,
            },
        );
        Some(requests)
    } else {
        None
    }
}

} // verus!
