//! How the pod manager reaches the Docker engine, and which Docker events concern a pod.

use crate::pod::config::{DockerConnectionConfig, DockerConnectionType};
use vstd::prelude::*;

verus! {

/// How to connect to the Docker engine
pub enum DockerConnectPlan {
    /// The platform's default local socket, with the given timeout in seconds
    LocalDefaults { timeout: u64 },
    /// An HTTP endpoint
    Http { addr: String, timeout: u64 },
    /// A local socket at the given path
    Local { addr: String, timeout: u64 },
}

/// Choose the Docker connection from the configuration: the platform defaults with the default
/// timeout when the configuration names no connection, otherwise the named transport, address
/// and timeout
pub fn connection_plan(conn: &Option<DockerConnectionConfig>) -> (plan: DockerConnectPlan)
    ensures
        match conn {
            None => plan == DockerConnectPlan::LocalDefaults { timeout: 180 },
            Some(c) => match c.kind {
                DockerConnectionType::Http => plan matches DockerConnectPlan::Http { addr, timeout }
                    && addr@ == c.addr@ && timeout == c.timeout,
                DockerConnectionType::Local => plan matches DockerConnectPlan::Local {
                    addr,
                    timeout,
                } && addr@ == c.addr@ && timeout == c.timeout,
            },
        },
{
    match conn {
        None => DockerConnectPlan::LocalDefaults { timeout: DockerConnectionConfig::default_timeout() },
        Some(c) => match c.kind {
            DockerConnectionType::Http => DockerConnectPlan::Http {
                addr: c.addr.clone(),
                timeout: c.timeout,
            },
            DockerConnectionType::Local => DockerConnectPlan::Local {
                addr: c.addr.clone(),
                timeout: c.timeout,
            },
        },
    }
}

/// The actor of a Docker event
pub struct DockerEventActor {
    pub id: Option<String>,
}

/// The parts of a Docker event message that decide where it goes
pub struct DockerEvent {
    /// Whether the event's type is `container`
    pub container_event: bool,
    pub actor: Option<DockerEventActor>,
    pub action: Option<String>,
}

/// Where a Docker event goes
pub enum EventRoute {
    /// To the pod whose container has the given ID, with the event's action
    Deliver { container: String, action: String },
    /// The event is not about a container
    Unwanted,
    /// A container event without an actor
    NoActor,
    /// A container event whose actor has no ID
    NoActorId,
    /// A container event without an action
    NoAction,
}

/// Route a Docker event: only container events with an actor ID and an action are delivered;
/// the others are dropped, for the first reason that applies
pub fn route_event(event: DockerEvent) -> (route: EventRoute)
    ensures
        if !event.container_event {
            route is Unwanted
        } else {
            match event.actor {
                None => route is NoActor,
                Some(actor) => match actor.id {
                    None => route is NoActorId,
                    Some(id) => match event.action {
                        None => route is NoAction,
                        Some(action) => route == EventRoute::Deliver { container: id, action },
                    },
                },
            }
        },
{
    if !event.container_event {
        return EventRoute::Unwanted;
    }
    let actor = match event.actor {
        Some(actor) => actor,
        None => return EventRoute::NoActor,
    };
    let id = match actor.id {
        Some(id) => id,
        None => return EventRoute::NoActorId,
    };
    let action = match event.action {
        Some(action) => action,
        None => return EventRoute::NoAction,
    };
    EventRoute::Deliver { container: id, action }
}

} // verus!
