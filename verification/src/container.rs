//! Managed containers: configuration of a container managed directly (rather than as a pod),
//! its shared state, and the reactions to Docker events that arrive outside any transaction.

use crate::pod::config::{
    DockerConnectionType, ManagedContainerDockerEnvConfig, ManagedContainerDockerMountConfig,
    ManagedContainerDockerPortConfig,
};
use crate::pod::docker_config::{
    bind_entry, bind_strings, env_entry, env_strings, port_key, port_strings, upnp_lease_requests,
    upnp_ports, ContainerSpec,
};
use crate::pod::id::{DeimosId, DockerId};
use crate::text::same_text;
use crate::upnp::{UpnpLease, UpnpLeaseData};
use vstd::prelude::*;

verus! {

/// Configuration for a managed Docker container
pub struct ManagedContainerConfig {
    /// ID of the container, must remain constant over server renames
    pub id: DeimosId,
    /// Name that identifies this container
    pub name: String,
    /// Configuration for the Docker container
    pub docker: ManagedContainerDockerConfig,
}

/// Configuration to be passed to Docker when starting this container
pub struct ManagedContainerDockerConfig {
    /// Docker image used to create the Docker container
    pub image: String,
    /// List of volumes to mount inside the container
    pub volume: Vec<ManagedContainerDockerMountConfig>,
    /// List of network ports to forward to the container
    pub port: Vec<ManagedContainerDockerPortConfig>,
    /// List of environment variables to define for the container
    pub env: Vec<ManagedContainerDockerEnvConfig>,
}

impl ManagedContainerConfig {
    /// The UPnP leases a newly created container asks for: one per port marked for UPnP, in
    /// order, each under the container's name
    pub fn forwarded_ports(&self) -> (requests: Vec<UpnpLeaseData>)
        ensures
            requests@.len() == upnp_ports(self.docker.port@).len(),
            forall|j: int|
                0 <= j < requests@.len() ==> {
                    let port = upnp_ports(self.docker.port@)[j];
                    &&& (#[trigger] requests@[j]).name@ == self.name@
                    &&& requests@[j].port == port.expose
                    &&& requests@[j].protocol == port.protocol
                },
    {
        upnp_lease_requests(&self.name, &self.docker.port)
    }

    /// The name given to the Docker container once it is created: the managed container's ID
    pub fn docker_name(&self) -> (name: String)
        ensures
            name@ == self.id@,
    {
        self.id.owned()
    }
}

impl ManagedContainerDockerConfig {
    /// Get the container configuration options to use when creating a docker container: the
    /// image, and each list only when it is not empty
    pub fn docker_config(&self) -> (spec: ContainerSpec)
        ensures
            spec.image@ == self.image@,
            spec.exposed_ports is None <==> self.port@.len() == 0,
            spec.exposed_ports matches Some(ports) ==> ports@.len() == self.port@.len() && forall|
                j: int,
            | 0 <= j < self.port@.len() ==> #[trigger] ports@[j]@ == port_key(self.port@[j]),
            spec.env is None <==> self.env@.len() == 0,
            spec.env matches Some(env) ==> env@.len() == self.env@.len() && forall|j: int|
                0 <= j < self.env@.len() ==> #[trigger] env@[j]@ == env_entry(self.env@[j]),
            spec.binds is None <==> self.volume@.len() == 0,
            spec.binds matches Some(binds) ==> binds@.len() == self.volume@.len() && forall|
                j: int,
            | 0 <= j < self.volume@.len() ==> #[trigger] binds@[j]@ == bind_entry(self.volume@[j]),
    {
        let exposed_ports = if self.port.len() == 0 {
            None
        } else {
            Some(port_strings(&self.port))
        };
        let env = if self.env.len() == 0 {
            None
        } else {
            Some(env_strings(&self.env))
        };
        let binds = if self.volume.len() == 0 {
            None
        } else {
            Some(bind_strings(&self.volume))
        };
        ContainerSpec { image: self.image.clone(), exposed_ports, env, binds }
    }
}

/// State populated after a Docker container is created for a managed container
pub struct ManagedContainerState {
    /// ID of the container running for this
    pub docker_id: String,
}

/// Status of a managed container in Docker
#[derive(Clone, Copy, Debug, PartialEq, Eq, Structural)]
pub enum ManagedContainerRunning {
    Dead,
    Paused,
    Running,
}

/// What the server wants a managed container to be doing
#[derive(Clone, Copy, Debug, PartialEq, Eq, Structural)]
pub enum ManagedContainerDirective {
    Stop,
    Pause,
    Run,
}

/// Configuration for the local Docker container management service
pub struct DockerConfig {
    pub containerdir: String,
    pub conn: Option<DockerConnectionConfig>,
}

/// Configuration governing how the server will connect to the Docker API
pub struct DockerConnectionConfig {
    pub kind: DockerConnectionType,
    pub addr: String,
    pub timeout: Option<u64>,
}

impl DockerConnectionConfig {
    /// Default timeout to use for Docker API when no alternative is specified in the config
    pub fn default_timeout_seconds() -> (secs: u64)
        ensures
            secs == 30,
    {
        30
    }

    /// The timeout to connect with: the configured one, or thirty seconds
    pub fn timeout_seconds(&self) -> (secs: u64)
        ensures
            secs == match self.timeout {
                Some(t) => t,
                None => 30,
            },
    {
        match self.timeout {
            Some(t) => t,
            None => Self::default_timeout_seconds(),
        }
    }
}

/// How the server reacts to a Docker event that arrives while no transaction holds the
/// container
#[derive(Clone, Copy, Debug, PartialEq, Eq, Structural)]
pub enum ContainerEventReaction {
    /// The container ran out of memory: destroy it
    Destroy,
    /// Docker removed the container: forget its state
    Forget,
    /// The container died unexpectedly: record it as stopped, then destroy it
    StopAndDestroy,
    /// Record a new directive for the container
    Direct(ManagedContainerDirective),
    /// Nothing to do
    Ignore,
}

/// The reaction to a Docker event action: `oom` destroys, `destroy` forgets, `die` stops and
/// destroys, `paused` records a pause, `unpause`, `start` and `stop` record a run, and anything
/// else (`kill` among them) is ignored
pub open spec fn event_reaction(action: Seq<char>) -> ContainerEventReaction {
    if action == "oom"@ {
        ContainerEventReaction::Destroy
    } else if action == "destroy"@ {
        ContainerEventReaction::Forget
    } else if action == "die"@ {
        ContainerEventReaction::StopAndDestroy
    } else if action == "paused"@ {
        ContainerEventReaction::Direct(ManagedContainerDirective::Pause)
    } else if action == "unpause"@ || action == "start"@ || action == "stop"@ {
        ContainerEventReaction::Direct(ManagedContainerDirective::Run)
    } else {
        ContainerEventReaction::Ignore
    }
}

/// Decide how to react to a Docker event action
pub fn container_event_reaction(action: &str) -> (reaction: ContainerEventReaction)
    ensures
        reaction == event_reaction(action@),
{
    if same_text(action, "oom") {
        ContainerEventReaction::Destroy
    } else if same_text(action, "destroy") {
        ContainerEventReaction::Forget
    } else if same_text(action, "die") {
        ContainerEventReaction::StopAndDestroy
    } else if same_text(action, "paused") {
        ContainerEventReaction::Direct(ManagedContainerDirective::Pause)
    } else if same_text(action, "unpause") || same_text(action, "start") || same_text(
        action,
        "stop",
    ) {
        ContainerEventReaction::Direct(ManagedContainerDirective::Run)
    } else {
        ContainerEventReaction::Ignore
    }
}

/// What starting a managed container takes
pub enum StartPlan {
    /// No Docker container exists: create one, then start it
    Create,
    /// Start the existing, stopped or paused, container
    Start(DockerId),
    /// The container already runs
    AlreadyRunning(DockerId),
}

/// Decide how to start a managed container from its current container and directive, if it has
/// a container
pub fn start_plan(current: Option<(&DockerId, ManagedContainerDirective)>) -> (plan: StartPlan)
    ensures
        match current {
            None => plan is Create,
            Some((id, ManagedContainerDirective::Run)) => plan == StartPlan::AlreadyRunning(*id),
            Some((id, _)) => plan == StartPlan::Start(*id),
        },
{
    match current {
        None => StartPlan::Create,
        Some((id, ManagedContainerDirective::Run)) => StartPlan::AlreadyRunning(id.clone()),
        Some((id, _)) => StartPlan::Start(id.clone()),
    }
}

/// The first configuration whose ID an earlier configuration already has, when configurations
/// are loaded in the given order; `None` when all IDs differ
pub fn first_duplicate(ids: &Vec<DeimosId>) -> (dup: Option<usize>)
    ensures
        match dup {
            None => forall|i: int, j: int|
                0 <= i < j < ids@.len() ==> #[trigger] ids@[i]@ != #[trigger] ids@[j]@,
            Some(j) => {
                &&& j < ids@.len()
                &&& exists|i: int| 0 <= i < j && #[trigger] ids@[i]@ == ids@[j as int]@
                &&& forall|a: int, b: int|
                    0 <= a < b < j ==> #[trigger] ids@[a]@ != #[trigger] ids@[b]@
            },
        },
{
    let mut j: usize = 0;
    while j < ids.len()
        invariant
            j <= ids@.len(),
            forall|a: int, b: int| 0 <= a < b < j ==> #[trigger] ids@[a]@ != #[trigger] ids@[b]@,
        decreases ids@.len() - j,
    {
        let mut i: usize = 0;
        while i < j
            invariant
                i <= j,
                j < ids@.len(),
                forall|a: int, b: int|
                    0 <= a < b < j ==> #[trigger] ids@[a]@ != #[trigger] ids@[b]@,
                forall|a: int| 0 <= a < i ==> #[trigger] ids@[a]@ != ids@[j as int]@,
            decreases j - i,
        {
            if same_text(ids[i].as_str(), ids[j].as_str()) {
                assert(ids@[i as int]@ == ids@[j as int]@);
                return Some(j);
            }
            i = i + 1;
        }
        j = j + 1;
    }
    None
}

/// State shared by a managed container once Docker has created its container; `L` is the
/// handle of the task that listens to the container's events
pub struct ManagedContainerShared<L> {
    /// ID of the container running for this
    pub docker_id: DockerId,
    /// What the server wants the container to be doing
    pub directive: ManagedContainerDirective,
    /// Task listening for events propagated by the docker container
    pub listener: L,
    /// Ports forwarded for the container
    pub upnp_lease: UpnpLease,
}

/// Record a new directive for the container, if it has one; nothing changes otherwise
pub fn apply_directive<L>(state: &mut Option<ManagedContainerShared<L>>, directive: ManagedContainerDirective)
    ensures
        match *old(state) {
            None => *final(state) is None,
            Some(s) => *final(state) == Some(ManagedContainerShared { directive, ..s }),
        },
{
    match state {
        Some(s) => {
            s.directive = directive;
        },
        None => {},
    }
}

/// Seconds that a managed container is given to stop before Docker kills it: three minutes
pub fn destroy_stop_timeout() -> (secs: i64)
    ensures
        secs == 180,
{
    60 * 3
}

/// The first step of destroying a managed container
pub enum DestroyStep {
    /// The container has no Docker container: nothing to do
    Nothing,
    /// Stop the Docker container, waiting at most `timeout` seconds
    Stop { container: DockerId, timeout: i64 },
}

/// Begin destroying a managed container: stop its Docker container, if it has one
pub fn destroy_begin<L>(state: &Option<ManagedContainerShared<L>>) -> (step: DestroyStep)
    ensures
        match *state {
            None => step is Nothing,
            Some(s) => step == DestroyStep::Stop { container: s.docker_id, timeout: 180 },
        },
{
    match state {
        None => DestroyStep::Nothing,
        Some(s) => DestroyStep::Stop { container: s.docker_id.clone(), timeout: destroy_stop_timeout() },
    }
}

/// Continue destroying after the stop request, whatever its reply: the container is recorded
/// as stopped, and the Docker container to remove by force is returned
pub fn destroy_after_stop<L>(shared: &mut ManagedContainerShared<L>) -> (remove: DockerId)
    ensures
        *final(shared) == (ManagedContainerShared {
            directive: ManagedContainerDirective::Stop,
            ..*old(shared)
        }),
        remove == old(shared).docker_id,
{
    shared.directive = ManagedContainerDirective::Stop;
    shared.docker_id.clone()
}

/// End destroying with the reply to the removal: a failed removal is returned and the state
/// kept; after a successful one the container has no state any more, and the listener to stop
/// is returned
pub fn destroy_finish<L, E>(state: &mut Option<ManagedContainerShared<L>>, reply: Result<(), E>) -> (res: Result<Option<L>, E>)
    ensures
        match reply {
            Err(e) => res == Err::<Option<L>, E>(e) && *final(state) == *old(state),
            Ok(_) => *final(state) is None && match *old(state) {
                None => res == Ok::<Option<L>, E>(None),
                Some(s) => res == Ok::<Option<L>, E>(Some(s.listener)),
            },
        },
{
    match reply {
        Err(e) => Err(e),
        Ok(_) => match state.take() {
            Some(s) => Ok(Some(s.listener)),
            None => Ok(None),
        },
    }
}

/// The first step of creating a managed container's Docker container
pub enum CreateStep {
    /// A Docker container exists already: its ID is the result
    Exists(DockerId),
    /// Ask Docker to create one
    Create,
}

/// Begin creating a managed container's Docker container: only when it has none
pub fn create_begin<L>(state: &Option<ManagedContainerShared<L>>) -> (step: CreateStep)
    ensures
        match *state {
            None => step is Create,
            Some(s) => step == CreateStep::Exists(s.docker_id),
        },
{
    match state {
        None => CreateStep::Create,
        Some(s) => CreateStep::Exists(s.docker_id.clone()),
    }
}

/// What follows Docker's reply to renaming a freshly created container
pub enum RenameOutcome<E> {
    /// The container carries the managed container's ID as its name: it is created
    Created(DockerId),
    /// Renaming failed: destroy the container, then report the error
    DestroyThenFail(E),
}

/// Decide on Docker's reply to renaming the freshly created (and already recorded) container:
/// on success its ID is the result; on failure it is destroyed and the error reported
pub fn create_after_rename<E>(container: &DockerId, reply: Result<(), E>) -> (next: RenameOutcome<E>)
    ensures
        match reply {
            Ok(_) => next == RenameOutcome::<E>::Created(*container),
            Err(e) => next == RenameOutcome::<E>::DestroyThenFail(e),
        },
{
    match reply {
        Ok(_) => RenameOutcome::Created(container.clone()),
        Err(e) => RenameOutcome::DestroyThenFail(e),
    }
}

/// The kind of an entry of the container configuration directory, as the file system reports
/// it
#[derive(Clone, Copy, Debug, PartialEq, Eq, Structural)]
pub enum DirEntryKind {
    Directory,
    Symlink,
    Other,
}

/// Whether a container configuration is loaded from a directory entry: `kind` is `None` when the
/// entry's type cannot be read, and `link_is_dir` tells, for a symbolic link, whether the
/// metadata read for the link (`None` when unreadable) is that of a directory. Directories are
/// loaded, links only when that metadata is a directory's; everything else is skipped
pub fn entry_loads(kind: Option<DirEntryKind>, link_is_dir: Option<bool>) -> (load: bool)
    ensures
        load == match kind {
            Some(DirEntryKind::Directory) => true,
            Some(DirEntryKind::Symlink) => link_is_dir == Some(true),
            _ => false,
        },
{
    match kind {
        Some(DirEntryKind::Directory) => true,
        Some(DirEntryKind::Symlink) => match link_is_dir {
            Some(is_dir) => is_dir,
            None => false,
        },
        _ => false,
    }
}

/// Record a freshly created Docker container, with its event listener and port lease; a new
/// container starts out stopped
pub fn create_record<L>(
    state: &mut Option<ManagedContainerShared<L>>,
    container: DockerId,
    listener: L,
    upnp_lease: UpnpLease,
)
    ensures
        *final(state) == Some(
            ManagedContainerShared {
                docker_id: container,
                directive: ManagedContainerDirective::Stop,
                listener,
                upnp_lease,
            },
        ),
{
    *state = Some(
        ManagedContainerShared {
            docker_id: container,
            directive: ManagedContainerDirective::Stop,
            listener,
            upnp_lease,
        },
    );
}

} // verus!
