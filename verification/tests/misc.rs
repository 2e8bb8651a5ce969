use deimos::api::{
    api_lease_request, pod_brief, proto_pod_state, status_notification, update_pod_command,
    PodCommand, UpdatePodError,
};
use deimos::auth::PendingTokenRequest;
use deimos::config::DeimosAuthenticationConfig;
use deimos::container::{
    container_event_reaction, first_duplicate, start_plan, ContainerEventReaction,
    DockerConnectionConfig, ManagedContainerDirective, ManagedContainerDockerConfig, StartPlan,
};
use deimos::container::{
    create_after_rename, entry_loads, DirEntryKind, ManagedContainerConfig, RenameOutcome,
};
use deimos::pod::config::ManagedContainerDockerPortConfig;
use deimos::container::{
    apply_directive, create_begin, create_record, destroy_after_stop, destroy_begin,
    destroy_finish, CreateStep, DestroyStep, ManagedContainerShared,
};
use deimos::ctl::listing_widths;
use deimos::upnp::request_lease;
use deimos::logger::{LogLevel, Logger};
use deimos::pod::config::{DockerConnectionType, ManagedContainerDockerEnvConfig, ManagedContainerDockerPortProtocol};
use deimos::pod::id::{DeimosId, DockerId};
use deimos::pod::state::PodState;
use deimos::text::{decimal_string, same_text};
use deimos::util::permissions_too_open;

#[test]
fn update_pod_commands() {
    assert_eq!(update_pod_command(0), Ok(PodCommand::Disable));
    assert_eq!(update_pod_command(1), Err(UpdatePodError::ReservedTransit));
    assert_eq!(update_pod_command(2), Ok(PodCommand::Pause));
    assert_eq!(update_pod_command(3), Ok(PodCommand::Enable));
    assert_eq!(update_pod_command(7), Err(UpdatePodError::UnknownState(7)));
    assert_eq!(update_pod_command(-1), Err(UpdatePodError::UnknownState(-1)));
}

#[test]
fn wire_states_round_trip_through_commands() {
    assert_eq!(update_pod_command(proto_pod_state(PodState::Enabled)), Ok(PodCommand::Enable));
    assert_eq!(update_pod_command(proto_pod_state(PodState::Paused)), Ok(PodCommand::Pause));
    assert_eq!(update_pod_command(proto_pod_state(PodState::Disabled)), Ok(PodCommand::Disable));
    assert_eq!(update_pod_command(proto_pod_state(PodState::Transit)), Err(UpdatePodError::ReservedTransit));
}

#[test]
fn listing_and_notifications() {
    let id = DeimosId::new("terraria".to_owned());
    let brief = pod_brief(&id, "Terraria", PodState::Paused);
    assert_eq!(brief.id, "terraria");
    assert_eq!(brief.title, "Terraria");
    assert_eq!(brief.state, 2);
    let note = status_notification(&id, PodState::Transit);
    assert_eq!(note.id, "terraria");
    assert_eq!(note.state, 1);
}

#[test]
fn api_lease_only_with_upnp() {
    assert!(api_lease_request(false, 9115).is_none());
    let req = api_lease_request(true, 9115).unwrap();
    assert_eq!(req.len(), 1);
    assert_eq!(req[0].port, 9115);
    assert_eq!(req[0].name, "Deimos gRPC server");
    assert_eq!(req[0].protocol, ManagedContainerDockerPortProtocol::Tcp);
}

#[test]
fn logger_lines() {
    assert_eq!(Logger::tag(LogLevel::Trace), "TRA");
    assert_eq!(Logger::tag(LogLevel::Debug), "DBG");
    assert_eq!(Logger::tag(LogLevel::Info), "INF");
    assert_eq!(Logger::tag(LogLevel::Warn), "WRN");
    assert_eq!(Logger::tag(LogLevel::Error), "ERR");
    assert_eq!(Logger::line(LogLevel::Warn, "disk low"), "[WRN] disk low");
    assert!(Logger.enabled());
}

#[test]
fn authentication_config_defaults() {
    let conf = DeimosAuthenticationConfig::default();
    assert_eq!(conf.ca_root, "./ca_cert.pem");
    assert_eq!(conf.identity_cert, "./identity.pem");
    assert_eq!(conf.identity_key, "./identity_key.pem");
}

#[test]
fn container_event_reactions() {
    assert_eq!(container_event_reaction("oom"), ContainerEventReaction::Destroy);
    assert_eq!(container_event_reaction("destroy"), ContainerEventReaction::Forget);
    assert_eq!(container_event_reaction("die"), ContainerEventReaction::StopAndDestroy);
    assert_eq!(container_event_reaction("kill"), ContainerEventReaction::Ignore);
    assert_eq!(
        container_event_reaction("paused"),
        ContainerEventReaction::Direct(ManagedContainerDirective::Pause)
    );
    for run in ["unpause", "start", "stop"] {
        assert_eq!(
            container_event_reaction(run),
            ContainerEventReaction::Direct(ManagedContainerDirective::Run)
        );
    }
    assert_eq!(container_event_reaction("rename"), ContainerEventReaction::Ignore);
}

#[test]
fn start_plans() {
    assert!(matches!(start_plan(None), StartPlan::Create));
    let id = DockerId::new("abc".to_owned());
    assert!(matches!(start_plan(Some((&id, ManagedContainerDirective::Run))), StartPlan::AlreadyRunning(_)));
    match start_plan(Some((&id, ManagedContainerDirective::Stop))) {
        StartPlan::Start(d) => assert_eq!(d.as_str(), "abc"),
        _ => panic!("expected start"),
    }
    assert!(matches!(start_plan(Some((&id, ManagedContainerDirective::Pause))), StartPlan::Start(_)));
}

#[test]
fn duplicate_configurations() {
    let ids = |names: &[&str]| names.iter().map(|n| DeimosId::new((*n).to_owned())).collect::<Vec<_>>();
    assert_eq!(first_duplicate(&ids(&["a", "b", "c"])), None);
    assert_eq!(first_duplicate(&ids(&["a", "b", "a", "b"])), Some(2));
    assert_eq!(first_duplicate(&ids(&[])), None);
}

#[test]
fn connection_timeouts() {
    let conf = DockerConnectionConfig { kind: DockerConnectionType::Local, addr: "/x".to_owned(), timeout: None };
    assert_eq!(conf.timeout_seconds(), 30);
    let conf = DockerConnectionConfig { kind: DockerConnectionType::Http, addr: "/x".to_owned(), timeout: Some(7) };
    assert_eq!(conf.timeout_seconds(), 7);
}

#[test]
fn managed_container_spec_uses_plain_env() {
    let conf = ManagedContainerDockerConfig {
        image: "nginx".to_owned(),
        volume: vec![],
        port: vec![],
        env: vec![ManagedContainerDockerEnvConfig { key: "A".to_owned(), value: "b c".to_owned() }],
    };
    let spec = conf.docker_config();
    assert_eq!(spec.image, "nginx");
    assert_eq!(spec.env.unwrap(), vec!["A=b c"]);
    assert!(spec.exposed_ports.is_none());
}

#[test]
fn ctl_listing_widths() {
    let rows = vec![
        PendingTokenRequest { username: "al".to_owned(), requested_dt: 0, requester_address: "10.0.0.2".to_owned() },
        PendingTokenRequest { username: "longusername".to_owned(), requested_dt: 0, requester_address: "::1".to_owned() },
    ];
    assert_eq!(listing_widths(&rows), (12, 8));
    let wide = vec![
        PendingTokenRequest { username: "ééééé".to_owned(), requested_dt: 0, requester_address: "fe80::1".to_owned() },
    ];
    assert_eq!(listing_widths(&wide), (10, 7));
    assert_eq!(listing_widths(&vec![]), (8, 7));
}

#[test]
fn secret_file_permissions() {
    assert!(!permissions_too_open(0o100600));
    assert!(!permissions_too_open(0o400));
    assert!(permissions_too_open(0o640));
    assert!(permissions_too_open(0o604));
    assert!(permissions_too_open(0o700 | 0o010));
}

#[test]
fn text_helpers() {
    assert_eq!(decimal_string(0), "0");
    assert_eq!(decimal_string(9), "9");
    assert_eq!(decimal_string(10), "10");
    assert_eq!(decimal_string(4294967295), "4294967295");
    assert!(same_text("abc", "abc"));
    assert!(!same_text("abc", "abd"));
    assert!(!same_text("abc", "ab"));
}

#[test]
fn managed_container_create_and_destroy() {
    let mut state: Option<ManagedContainerShared<u32>> = None;
    assert!(matches!(destroy_begin(&state), DestroyStep::Nothing));
    assert!(matches!(create_begin(&state), CreateStep::Create));
    apply_directive(&mut state, ManagedContainerDirective::Run);
    assert!(state.is_none());
    let (lease, _) = request_lease(vec![]);
    create_record(&mut state, DockerId::new("c9".to_owned()), 7u32, lease);
    assert_eq!(state.as_ref().unwrap().directive, ManagedContainerDirective::Stop);
    match create_begin(&state) {
        CreateStep::Exists(id) => assert_eq!(id.as_str(), "c9"),
        _ => panic!("expected existing container"),
    }
    apply_directive(&mut state, ManagedContainerDirective::Run);
    assert_eq!(state.as_ref().unwrap().directive, ManagedContainerDirective::Run);
    match destroy_begin(&state) {
        DestroyStep::Stop { container, timeout } => {
            assert_eq!(container.as_str(), "c9");
            assert_eq!(timeout, 180);
        }
        _ => panic!("expected stop"),
    }
    let remove = destroy_after_stop(state.as_mut().unwrap());
    assert_eq!(remove.as_str(), "c9");
    assert_eq!(state.as_ref().unwrap().directive, ManagedContainerDirective::Stop);
    assert_eq!(destroy_finish(&mut state, Err("busy".to_owned())), Err("busy".to_owned()));
    assert!(state.is_some());
    assert_eq!(destroy_finish::<u32, String>(&mut state, Ok(())), Ok(Some(7)));
    assert!(state.is_none());
}

#[test]
fn update_pod_error_messages() {
    assert_eq!(UpdatePodError::ReservedTransit.message(), "Cannot set pod to reserved state Transit");
    assert_eq!(UpdatePodError::UnknownState(7).message(), "Unknown pod state enumeration value 7");
    assert_eq!(UpdatePodError::UnknownState(-12).message(), "Unknown pod state enumeration value -12");
    assert_eq!(
        UpdatePodError::UnknownState(i32::MIN).message(),
        "Unknown pod state enumeration value -2147483648"
    );
}

fn managed_config() -> ManagedContainerConfig {
    ManagedContainerConfig {
        id: DeimosId::new("valheim".to_owned()),
        name: "Valheim server".to_owned(),
        docker: ManagedContainerDockerConfig {
            image: "valheim:latest".to_owned(),
            volume: vec![],
            port: vec![
                ManagedContainerDockerPortConfig { expose: 2456, protocol: ManagedContainerDockerPortProtocol::Udp, upnp: true },
                ManagedContainerDockerPortConfig { expose: 8080, protocol: ManagedContainerDockerPortProtocol::Tcp, upnp: false },
                ManagedContainerDockerPortConfig { expose: 2457, protocol: ManagedContainerDockerPortProtocol::Tcp, upnp: true },
            ],
            env: vec![],
        },
    }
}

#[test]
fn managed_container_leases_ports_marked_upnp() {
    let conf = managed_config();
    let leases = conf.forwarded_ports();
    assert_eq!(leases.len(), 2);
    assert_eq!(leases[0].name, "Valheim server");
    assert_eq!(leases[0].port, 2456);
    assert_eq!(leases[0].protocol, ManagedContainerDockerPortProtocol::Udp);
    assert_eq!(leases[1].name, "Valheim server");
    assert_eq!(leases[1].port, 2457);
    assert_eq!(leases[1].protocol, ManagedContainerDockerPortProtocol::Tcp);
    assert_eq!(conf.docker_name(), "valheim");
}

#[test]
fn rename_reply_decides_creation() {
    let id = DockerId::from("0123456789abcdef".to_owned());
    assert_eq!(id.owned(), "0123456789abcdef");
    match create_after_rename::<String>(&id, Ok(())) {
        RenameOutcome::Created(c) => assert_eq!(c.owned(), "0123456789abcdef"),
        RenameOutcome::DestroyThenFail(_) => panic!("expected creation"),
    }
    match create_after_rename(&id, Err("conflict".to_owned())) {
        RenameOutcome::DestroyThenFail(e) => assert_eq!(e, "conflict"),
        RenameOutcome::Created(_) => panic!("expected failure"),
    }
}

#[test]
fn container_directory_entries() {
    assert!(entry_loads(Some(DirEntryKind::Directory), None));
    assert!(entry_loads(Some(DirEntryKind::Symlink), Some(true)));
    assert!(!entry_loads(Some(DirEntryKind::Symlink), Some(false)));
    assert!(!entry_loads(Some(DirEntryKind::Symlink), None));
    assert!(!entry_loads(Some(DirEntryKind::Other), Some(true)));
    assert!(!entry_loads(None, Some(true)));
}
