//! Configuration of a pod and of the connection to the local Docker engine, as read from the
//! daemon's TOML files. Paths are held as the text that the configuration gave for them.

use crate::pod::id::DeimosId;
use vstd::prelude::*;

verus! {

/// Top-level configuration for a Pod, parsed from TOML files
pub struct PodConfig {
    /// ID of the container, must remain constant over server renames
    pub id: DeimosId,
    /// Name that identifies this container
    pub name: String,
    /// Configuration for the Docker container
    pub docker: PodDockerConfig,
}

/// Configuration to be passed to Docker when starting this container
pub struct PodDockerConfig {
    /// Docker image used to create the Docker container
    pub image: String,
    /// Time to wait in seconds before forcefully killing the container
    pub stop_timeout: u32,
    /// List of volumes to mount inside the container
    pub volume: Vec<ManagedContainerDockerMountConfig>,
    /// List of network ports to forward to the container
    pub port: Vec<ManagedContainerDockerPortConfig>,
    /// List of environment variables to define for the container
    pub env: Vec<ManagedContainerDockerEnvConfig>,
}

/// Configuration for a local volume mounted to a Docker container
pub struct ManagedContainerDockerMountConfig {
    pub local: String,
    pub container: String,
}

/// Configuration for a network port forwarded to the Docker container
#[derive(Clone, Copy)]
pub struct ManagedContainerDockerPortConfig {
    pub expose: u16,
    pub protocol: ManagedContainerDockerPortProtocol,
    pub upnp: bool,
}

/// Selectable protocol for forwarded port
#[derive(Clone, Copy, Debug, PartialEq, Eq, Structural)]
pub enum ManagedContainerDockerPortProtocol {
    Udp,
    Tcp,
}

/// Configuration for an environment variable to be set in the container
pub struct ManagedContainerDockerEnvConfig {
    pub key: String,
    pub value: String,
}

/// Configuration for the pod manager including state to connect to the local Docker server and
/// load all Pods from their configuration files
pub struct PodManagerConfig {
    pub containerdir: String,
    pub docker: Option<DockerConnectionConfig>,
}

/// Configuration governing how the server will connect to the Docker API
pub struct DockerConnectionConfig {
    pub kind: DockerConnectionType,
    pub addr: String,
    pub timeout: u64,
}

/// Transport used to reach the Docker API
#[derive(Clone, Copy, Debug, PartialEq, Eq, Structural)]
pub enum DockerConnectionType {
    Http,
    Local,
}

impl DockerConnectionConfig {
    /// Timeout in seconds used when the configuration names none: three minutes
    pub fn default_timeout() -> (secs: u64)
        ensures
            secs == 180,
    {
        60 * 3
    }
}

/// The name Docker uses for a port protocol
pub open spec fn protocol_name(protocol: ManagedContainerDockerPortProtocol) -> Seq<char> {
    match protocol {
        ManagedContainerDockerPortProtocol::Udp => "udp"@,
        ManagedContainerDockerPortProtocol::Tcp => "tcp"@,
    }
}

impl ManagedContainerDockerPortProtocol {
    /// Get the string to use when specifying the protocol to the Docker API
    pub fn docker_name(&self) -> (name: &'static str)
        ensures
            name@ == protocol_name(*self),
    {
        match self {
            ManagedContainerDockerPortProtocol::Udp => "udp",
            ManagedContainerDockerPortProtocol::Tcp => "tcp",
        }
    }
}

impl PodDockerConfig {
    /// Seconds to wait for a graceful stop when the configuration names none
    pub fn default_stop_timeout() -> (secs: u32)
        ensures
            secs == 60,
    {
        60
    }
}

} // verus!
