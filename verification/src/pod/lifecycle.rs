//! The decisions of the pod operations. Each operation is a small state machine: it looks at
//! the pod's known state, names the Docker request to make next, and from the reply decides the
//! next request or the result. The requests themselves are made by the caller; the machines are
//! generic over the error type of the Docker client.

use crate::pod::id::DockerId;
use crate::pod::state::{PodEnable, PodPaused, PodStateKnown};
use crate::text::same_text;
use crate::upnp::UpnpLease;
use vstd::prelude::*;

verus! {

/// Failure of a disable
#[derive(Debug)]
pub enum PodDisableError<E> {
    /// The Docker container could not be removed
    Destroy(E),
    /// The Docker container could not be stopped
    Stop(E),
}

/// Failure of an enable
#[derive(Debug)]
pub enum PodEnableError<E> {
    /// The Docker container could not be created
    CreateContainer(E),
    /// The Docker container could not be started
    StartContainer(E),
}

/// Failure of a pause
#[derive(Debug)]
pub enum PausePodResult<E> {
    /// Only an enabled pod can be paused
    PodDisabled,
    /// The pause request failed
    Docker(E),
}

/// Failure to follow a pod's logs
#[derive(Debug)]
pub enum PodSubscribeLogsError {
    /// Only an enabled pod has logs to follow
    NotEnabled,
}

/// The next step of a disable
pub enum DisableAction<E> {
    /// Stop the container gracefully, waiting at most `timeout` seconds
    Stop { container: DockerId, timeout: u32 },
    /// Remove the container, by force or not
    Destroy { container: DockerId, force: bool },
    /// The disable is over
    Done(Result<(), PodDisableError<E>>),
}

/// First step of a disable: nothing to do for a disabled pod, remove the container of a paused
/// pod, stop the container of a running pod
pub open spec fn disable_begin_spec<E>(state: PodStateKnown, timeout: u32) -> DisableAction<E> {
    match state {
        PodStateKnown::Disabled => DisableAction::Done(Ok(())),
        PodStateKnown::Paused(p) => DisableAction::Destroy { container: p.docker_id, force: false },
        PodStateKnown::Enabled(r) => DisableAction::Stop { container: r.docker_id, timeout },
    }
}

/// A disable's state and next step after a reply from Docker: a failed stop ends the disable
/// with the error and the state unchanged; a successful stop leads to a graceful removal; a
/// failed graceful removal is retried by force; any other removal reply, failed or not, ends
/// the disable successfully with the pod disabled
pub open spec fn disable_next_spec<E>(
    state: PodStateKnown,
    action: DisableAction<E>,
    reply: Result<(), E>,
) -> (PodStateKnown, DisableAction<E>) {
    match action {
        DisableAction::Stop { container, timeout } => match reply {
            Ok(_) => (state, DisableAction::Destroy { container, force: false }),
            Err(e) => (state, DisableAction::Done(Err(PodDisableError::Stop(e)))),
        },
        DisableAction::Destroy { container, force } => if reply is Err && !force {
            (state, DisableAction::Destroy { container, force: true })
        } else {
            (PodStateKnown::Disabled, DisableAction::Done(Ok(())))
        },
        DisableAction::Done(r) => (state, DisableAction::Done(r)),
    }
}

/// Follow a disable through a sequence of Docker replies, one per request, until it is over or
/// the replies run out
pub open spec fn disable_drive<E>(
    state: PodStateKnown,
    action: DisableAction<E>,
    replies: Seq<Result<(), E>>,
) -> (PodStateKnown, DisableAction<E>)
    decreases replies.len(),
{
    if replies.len() == 0 || action is Done {
        (state, action)
    } else {
        let next = disable_next_spec(state, action, replies[0]);
        disable_drive(next.0, next.1, replies.drop_first())
    }
}

/// Begin disabling a pod: the first Docker request, if any
pub fn disable_begin<E>(state: &PodStateKnown, stop_timeout: u32) -> (action: DisableAction<E>)
    ensures
        action == disable_begin_spec::<E>(*state, stop_timeout),
{
    match state {
        PodStateKnown::Disabled => DisableAction::Done(Ok(())),
        PodStateKnown::Paused(p) => DisableAction::Destroy {
            container: p.docker_id.clone(),
            force: false,
        },
        PodStateKnown::Enabled(r) => DisableAction::Stop {
            container: r.docker_id.clone(),
            timeout: stop_timeout,
        },
    }
}

/// Continue a disable with Docker's reply to its last request
pub fn disable_next<E>(state: &mut PodStateKnown, action: DisableAction<E>, reply: Result<(), E>) -> (next: DisableAction<E>)
    ensures
        (*final(state), next) == disable_next_spec(*old(state), action, reply),
{
    match action {
        DisableAction::Stop { container, timeout } => match reply {
            Ok(_) => DisableAction::Destroy { container, force: false },
            Err(e) => DisableAction::Done(Err(PodDisableError::Stop(e))),
        },
        DisableAction::Destroy { container, force } => {
            if reply.is_err() && !force {
                DisableAction::Destroy { container, force: true }
            } else {
                *state = PodStateKnown::Disabled;
                DisableAction::Done(Ok(()))
            }
        },
        DisableAction::Done(r) => DisableAction::Done(r),
    }
}

/// A disable is over after at most three Docker replies, whatever they are. It ends with `Ok`
/// and the pod disabled, or, when the graceful stop of a running pod fails, with that `Stop`
/// error and the pod's state unchanged; a disabled pod needs no request at all
pub proof fn law_disable_outcome<E>(
    state: PodStateKnown,
    timeout: u32,
    replies: Seq<Result<(), E>>,
)
    requires
        replies.len() >= 3,
    ensures
        ({
            let end = disable_drive(state, disable_begin_spec::<E>(state, timeout), replies);
            &&& end.1 is Done
            &&& end.1 matches DisableAction::Done(Ok(_)) ==> end.0 == PodStateKnown::Disabled
            &&& end.1 matches DisableAction::Done(Err(err)) ==> end.0 == state && err is Stop
                && state is Enabled
        }),
        state is Disabled ==> disable_begin_spec::<E>(state, timeout) == DisableAction::<E>::Done(
            Ok(()),
        ),
{
    reveal_with_fuel(disable_drive, 4);
    let r1 = replies.drop_first();
    let r2 = r1.drop_first();
    assert(r1[0] == replies[1] && r2[0] == replies[2]);
}

/// The next step of a pause
pub enum PauseAction<E> {
    /// Pause the container
    Pause { container: DockerId },
    /// The pause is over
    Done(Result<(), PausePodResult<E>>),
}

/// Begin pausing a pod: a disabled pod cannot be paused, a paused pod needs nothing, a running
/// pod's container is paused
pub fn pause_begin<E>(state: &PodStateKnown) -> (action: PauseAction<E>)
    ensures
        match *state {
            PodStateKnown::Disabled => action == PauseAction::<E>::Done(
                Err(PausePodResult::PodDisabled),
            ),
            PodStateKnown::Paused(_) => action == PauseAction::<E>::Done(Ok(())),
            PodStateKnown::Enabled(r) => action == PauseAction::<E>::Pause {
                container: r.docker_id,
            },
        },
{
    match state {
        PodStateKnown::Disabled => PauseAction::Done(Err(PausePodResult::PodDisabled)),
        PodStateKnown::Paused(_) => PauseAction::Done(Ok(())),
        PodStateKnown::Enabled(r) => PauseAction::Pause { container: r.docker_id.clone() },
    }
}

/// Finish a pause with Docker's reply: on success the pod is paused with the same container, on
/// failure its state is unchanged
pub fn pause_finish<E>(state: &mut PodStateKnown, container: DockerId, reply: Result<(), E>) -> (res: Result<(), PausePodResult<E>>)
    ensures
        match reply {
            Ok(_) => res is Ok && *final(state) == PodStateKnown::Paused(
                PodPaused { docker_id: container },
            ),
            Err(e) => res == Err::<(), PausePodResult<E>>(PausePodResult::Docker(e))
                && *final(state) == *old(state),
        },
{
    match reply {
        Ok(_) => {
            *state = PodStateKnown::Paused(PodPaused { docker_id: container });
            Ok(())
        },
        Err(e) => Err(PausePodResult::Docker(e)),
    }
}

/// The next step of an enable
pub enum EnableAction<E> {
    /// Create a container from the pod's configuration
    Create,
    /// Start the created container
    Start { container: DockerId },
    /// Remove, by force, a container that failed to start; the enable then fails with `error`
    Failsafe { container: DockerId, error: E },
    /// Forward the pod's ports and record the pod as running in `container`
    Forward { container: DockerId },
    /// The enable is over
    Done(Result<(), PodEnableError<E>>),
}

/// Begin enabling a pod: a running pod needs nothing, a paused pod's container is taken up
/// again, a disabled pod needs a new container
pub fn enable_begin<E>(state: &PodStateKnown) -> (action: EnableAction<E>)
    ensures
        match *state {
            PodStateKnown::Disabled => action == EnableAction::<E>::Create,
            PodStateKnown::Paused(p) => action == EnableAction::<E>::Forward {
                container: p.docker_id,
            },
            PodStateKnown::Enabled(_) => action == EnableAction::<E>::Done(Ok(())),
        },
{
    match state {
        PodStateKnown::Disabled => EnableAction::Create,
        PodStateKnown::Paused(p) => EnableAction::Forward { container: p.docker_id.clone() },
        PodStateKnown::Enabled(_) => EnableAction::Done(Ok(())),
    }
}

/// Continue an enable with the reply to the container creation
pub fn enable_after_create<E>(reply: Result<DockerId, E>) -> (action: EnableAction<E>)
    ensures
        match reply {
            Ok(id) => action == EnableAction::<E>::Start { container: id },
            Err(e) => action == EnableAction::<E>::Done(Err(PodEnableError::CreateContainer(e))),
        },
{
    match reply {
        Ok(id) => EnableAction::Start { container: id },
        Err(e) => EnableAction::Done(Err(PodEnableError::CreateContainer(e))),
    }
}

/// Continue an enable with the reply to the container start
pub fn enable_after_start<E>(container: DockerId, reply: Result<(), E>) -> (action: EnableAction<E>)
    ensures
        match reply {
            Ok(_) => action == EnableAction::<E>::Forward { container },
            Err(e) => action == EnableAction::<E>::Failsafe { container, error: e },
        },
{
    match reply {
        Ok(_) => EnableAction::Forward { container },
        Err(e) => EnableAction::Failsafe { container, error: e },
    }
}

/// End an enable whose container failed to start, once the container has been removed (or the
/// removal failed): the enable fails with the start error
pub fn enable_after_failsafe<E>(error: E) -> (res: Result<(), PodEnableError<E>>)
    ensures
        res == Err::<(), PodEnableError<E>>(PodEnableError::StartContainer(error)),
{
    Err(PodEnableError::StartContainer(error))
}

/// End an enable: the pod runs in the container and holds the lease on its forwarded ports
pub fn enable_finish(state: &mut PodStateKnown, container: DockerId, lease: UpnpLease)
    ensures
        *final(state) == PodStateKnown::Enabled(PodEnable { docker_id: container, upnp_lease: lease }),
{
    *state = PodStateKnown::Enabled(PodEnable { docker_id: container, upnp_lease: lease });
}

/// Whether a Docker event for a pod's container calls for disabling the pod: the container died
/// while the pod was paused or running
pub fn event_requires_disable(state: &PodStateKnown, action: &str) -> (disable: bool)
    ensures
        disable == (action@ == "die"@ && !(*state is Disabled)),
{
    if same_text(action, "die") {
        match state {
            PodStateKnown::Disabled => false,
            _ => true,
        }
    } else {
        false
    }
}

/// The container whose logs can be followed: only a running pod's
pub fn log_container(state: &PodStateKnown) -> (res: Result<DockerId, PodSubscribeLogsError>)
    ensures
        match *state {
            PodStateKnown::Enabled(r) => res == Ok::<DockerId, PodSubscribeLogsError>(r.docker_id),
            _ => res == Err::<DockerId, PodSubscribeLogsError>(PodSubscribeLogsError::NotEnabled),
        },
{
    match state {
        PodStateKnown::Enabled(r) => Ok(r.docker_id.clone()),
        _ => Err(PodSubscribeLogsError::NotEnabled),
    }
}

} // verus!
