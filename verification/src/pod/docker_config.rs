//! Conversion of a pod's Docker configuration into the container specification handed to the
//! Docker API, and into the UPnP lease requests for the ports it forwards.

use crate::pod::config::{
    protocol_name, ManagedContainerDockerEnvConfig, ManagedContainerDockerMountConfig,
    ManagedContainerDockerPortConfig, PodConfig, PodDockerConfig,
};
use crate::text::{decimal_text, push_decimal};
use crate::upnp::UpnpLeaseData;
use vstd::prelude::*;

verus! {

/// The parts of a Docker container specification that a pod's configuration determines
pub struct ContainerSpec {
    /// Image to create the container from
    pub image: String,
    /// Exposed ports as `port/protocol`, or `None` when the pod forwards no port
    pub exposed_ports: Option<Vec<String>>,
    /// Environment as `KEY=value`, or `None` when the pod defines no variable
    pub env: Option<Vec<String>>,
    /// Bind mounts as `local:container`, or `None` when the pod mounts no volume
    pub binds: Option<Vec<String>>,
}

/// How Docker names an exposed port: its number, a slash, and its protocol
pub open spec fn port_key(port: ManagedContainerDockerPortConfig) -> Seq<char> {
    decimal_text(port.expose as nat) + "/"@ + protocol_name(port.protocol)
}

/// How Docker receives an environment variable: key, `=`, value
pub open spec fn env_entry(var: ManagedContainerDockerEnvConfig) -> Seq<char> {
    var.key@ + "="@ + var.value@
}

/// How Docker receives a bind mount: local path, `:`, path inside the container
pub open spec fn bind_entry(volume: ManagedContainerDockerMountConfig) -> Seq<char> {
    volume.local@ + ":"@ + volume.container@
}

/// The ports of a configuration that ask for UPnP forwarding, in order
pub open spec fn upnp_ports(ports: Seq<ManagedContainerDockerPortConfig>) -> Seq<
    ManagedContainerDockerPortConfig,
>
    decreases ports.len(),
{
    if ports.len() == 0 {
        Seq::empty()
    } else if ports.last().upnp {
        upnp_ports(ports.drop_last()).push(ports.last())
    } else {
        upnp_ports(ports.drop_last())
    }
}

/// The ports that ask for UPnP forwarding are exactly those whose `upnp` flag is set, in the
/// configuration's order: a port without the flag is never forwarded, whatever its protocol
pub proof fn law_upnp_ports_are_the_marked_ports(ports: Seq<ManagedContainerDockerPortConfig>)
    ensures
        upnp_ports(ports) == ports.filter(|p: ManagedContainerDockerPortConfig| p.upnp),
    decreases ports.len(),
{
    reveal(Seq::filter);
    if ports.len() > 0 {
        law_upnp_ports_are_the_marked_ports(ports.drop_last());
    }
}

/// The exposed-port keys of the given ports, in order
pub fn port_strings(ports: &Vec<ManagedContainerDockerPortConfig>) -> (out: Vec<String>)
    ensures
        out@.len() == ports@.len(),
        forall|j: int| 0 <= j < ports@.len() ==> #[trigger] out@[j]@ == port_key(ports@[j]),
{
    let mut out: Vec<String> = Vec::new();
    let mut i: usize = 0;
    while i < ports.len()
        invariant
            i <= ports@.len(),
            out@.len() == i,
            forall|j: int| 0 <= j < i ==> #[trigger] out@[j]@ == port_key(ports@[j]),
        decreases ports@.len() - i,
    {
        let port = ports[i];
        let mut s = String::new();
        push_decimal(&mut s, port.expose as u32);
        s.append("/");
        s.append(port.protocol.docker_name());
        out.push(s);
        i = i + 1;
    }
    out
}

/// The environment entries of the given variables, in order
pub fn env_strings(vars: &Vec<ManagedContainerDockerEnvConfig>) -> (out: Vec<String>)
    ensures
        out@.len() == vars@.len(),
        forall|j: int| 0 <= j < vars@.len() ==> #[trigger] out@[j]@ == env_entry(vars@[j]),
{
    let mut out: Vec<String> = Vec::new();
    let mut i: usize = 0;
    while i < vars.len()
        invariant
            i <= vars@.len(),
            out@.len() == i,
            forall|j: int| 0 <= j < i ==> #[trigger] out@[j]@ == env_entry(vars@[j]),
        decreases vars@.len() - i,
    {
        let var = &vars[i];
        let mut s = var.key.clone();
        s.append("=");
        s.append(var.value.as_str());
        out.push(s);
        i = i + 1;
    }
    out
}

/// The bind-mount entries of the given volumes, in order
pub fn bind_strings(volumes: &Vec<ManagedContainerDockerMountConfig>) -> (out: Vec<String>)
    ensures
        out@.len() == volumes@.len(),
        forall|j: int| 0 <= j < volumes@.len() ==> #[trigger] out@[j]@ == bind_entry(volumes@[j]),
{
    let mut out: Vec<String> = Vec::new();
    let mut i: usize = 0;
    while i < volumes.len()
        invariant
            i <= volumes@.len(),
            out@.len() == i,
            forall|j: int| 0 <= j < i ==> #[trigger] out@[j]@ == bind_entry(volumes@[j]),
        decreases volumes@.len() - i,
    {
        let volume = &volumes[i];
        let mut s = volume.local.clone();
        s.append(":");
        s.append(volume.container.as_str());
        out.push(s);
        i = i + 1;
    }
    out
}

/// Convert a pod's parsed Docker configuration to the container specification used with the
/// Docker API: the image, and each list only when it is not empty
pub fn docker_config(config: &PodDockerConfig) -> (spec: ContainerSpec)
    ensures
        spec.image@ == config.image@,
        spec.exposed_ports is None <==> config.port@.len() == 0,
        spec.exposed_ports matches Some(ports) ==> ports@.len() == config.port@.len() && forall|
            j: int,
        | 0 <= j < config.port@.len() ==> #[trigger] ports@[j]@ == port_key(config.port@[j]),
        spec.env is None <==> config.env@.len() == 0,
        spec.env matches Some(env) ==> env@.len() == config.env@.len() && forall|j: int|
            0 <= j < config.env@.len() ==> #[trigger] env@[j]@ == env_entry(config.env@[j]),
        spec.binds is None <==> config.volume@.len() == 0,
        spec.binds matches Some(binds) ==> binds@.len() == config.volume@.len() && forall|j: int|
            0 <= j < config.volume@.len() ==> #[trigger] binds@[j]@ == bind_entry(
                config.volume@[j],
            ),
{
    let exposed_ports = if config.port.len() == 0 {
        None
    } else {
        Some(port_strings(&config.port))
    };
    let env = if config.env.len() == 0 {
        None
    } else {
        Some(env_strings(&config.env))
    };
    let binds = if config.volume.len() == 0 {
        None
    } else {
        Some(bind_strings(&config.volume))
    };
    ContainerSpec { image: config.image.clone(), exposed_ports, env, binds }
}

/// The UPnP lease requests for a pod: one per port marked for UPnP, in order, named after the
/// pod
pub fn forwarded_ports(config: &PodConfig) -> (requests: Vec<UpnpLeaseData>)
    ensures
        requests@.len() == upnp_ports(config.docker.port@).len(),
        forall|j: int|
            0 <= j < requests@.len() ==> {
                let port = upnp_ports(config.docker.port@)[j];
                &&& (#[trigger] requests@[j]).name@ == config.name@
                &&& requests@[j].port == port.expose
                &&& requests@[j].protocol == port.protocol
            },
{
    upnp_lease_requests(&config.name, &config.docker.port)
}

/// One UPnP lease request per port marked for UPnP, in order, each under the given name
pub fn upnp_lease_requests(name: &String, ports: &Vec<ManagedContainerDockerPortConfig>) -> (requests: Vec<UpnpLeaseData>)
    ensures
        requests@.len() == upnp_ports(ports@).len(),
        forall|j: int|
            0 <= j < requests@.len() ==> {
                let port = upnp_ports(ports@)[j];
                &&& (#[trigger] requests@[j]).name@ == name@
                &&& requests@[j].port == port.expose
                &&& requests@[j].protocol == port.protocol
            },
{
    let mut out: Vec<UpnpLeaseData> = Vec::new();
    let mut i: usize = 0;
    while i < ports.len()
        invariant
            i <= ports@.len(),
            out@.len() == upnp_ports(ports@.subrange(0, i as int)).len(),
            forall|j: int|
                0 <= j < out@.len() ==> {
                    let port = upnp_ports(ports@.subrange(0, i as int))[j];
                    &&& (#[trigger] out@[j]).name@ == name@
                    &&& out@[j].port == port.expose
                    &&& out@[j].protocol == port.protocol
                },
        decreases ports@.len() - i,
    {
        let port = ports[i];
        let ghost before = ports@.subrange(0, i as int);
        assert(ports@.subrange(0, i + 1).drop_last() =~= before);
        assert(ports@.subrange(0, i + 1).last() == port);
        if port.upnp {
            out.push(UpnpLeaseData { name: name.clone(), protocol: port.protocol, port: port.expose });
        }
        i = i + 1;
    }
    assert(ports@.subrange(0, i as int) =~= ports@);
    out
}

} // verus!
