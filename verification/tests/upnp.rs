use deimos::pod::config::ManagedContainerDockerPortProtocol;
use deimos::upnp::{
    lease_duration_seconds, renewal_interval_seconds, request_lease, UpnpConfig,
    UpnpGatewayAction, UpnpLeaseData, UpnpLeaseTable, UpnpMessage,
};

fn lease(name: &str, port: u16) -> UpnpLeaseData {
    UpnpLeaseData { name: name.to_owned(), protocol: ManagedContainerDockerPortProtocol::Udp, port }
}

#[test]
fn first_holder_acquires_the_port() {
    let mut table = UpnpLeaseTable::new();
    match table.handle(UpnpMessage::Add(lease("a", 2456))) {
        UpnpGatewayAction::Acquire(d) => {
            assert_eq!(d.port, 2456);
            assert_eq!(d.name, "a");
        }
        _ => panic!("expected acquire"),
    }
    assert_eq!(table.holders_of(2456), 1);
}

#[test]
fn second_holder_retains_and_keeps_first_data() {
    let mut table = UpnpLeaseTable::new();
    table.handle(UpnpMessage::Add(lease("a", 2456)));
    assert!(matches!(table.handle(UpnpMessage::Add(lease("b", 2456))), UpnpGatewayAction::Retain));
    assert_eq!(table.holders_of(2456), 2);
    assert!(matches!(table.handle(UpnpMessage::Remove(2456)), UpnpGatewayAction::Retain));
    match table.handle(UpnpMessage::Remove(2456)) {
        UpnpGatewayAction::Release(d) => assert_eq!(d.name, "a"),
        _ => panic!("expected release"),
    }
    assert_eq!(table.holders_of(2456), 0);
}

#[test]
fn removing_an_untracked_port_is_reported() {
    let mut table = UpnpLeaseTable::new();
    assert!(matches!(table.handle(UpnpMessage::Remove(80)), UpnpGatewayAction::Untracked(80)));
}

#[test]
fn request_lease_lists_ports_and_add_messages_in_order() {
    let (lease_held, msgs) = request_lease(vec![lease("a", 1), lease("b", 2), lease("c", 1)]);
    assert_eq!(lease_held.ports(), &[1, 2, 1]);
    assert_eq!(msgs.len(), 3);
    let ports: Vec<u16> = msgs
        .iter()
        .map(|m| match m {
            UpnpMessage::Add(d) => d.port,
            UpnpMessage::Remove(_) => panic!("expected add"),
        })
        .collect();
    assert_eq!(ports, vec![1, 2, 1]);
}

#[test]
fn releasing_a_lease_restores_the_table() {
    let mut table = UpnpLeaseTable::new();
    table.handle(UpnpMessage::Add(lease("api", 443)));
    let (held, adds) = request_lease(vec![lease("x", 443), lease("y", 27015), lease("z", 27015)]);
    for m in adds {
        table.handle(m);
    }
    assert_eq!(table.holders_of(443), 2);
    assert_eq!(table.holders_of(27015), 2);
    let mut released = Vec::new();
    for m in held.release_messages() {
        if let UpnpGatewayAction::Release(d) = table.handle(m) {
            released.push(d.port);
        }
    }
    assert_eq!(released, vec![27015]);
    assert_eq!(table.holders_of(443), 1);
    assert_eq!(table.holders_of(27015), 0);
    let renew = table.renewals();
    assert_eq!(renew.len(), 1);
    assert_eq!(renew[0].name, "api");
}

#[test]
fn renewals_cover_every_tracked_port() {
    let mut table = UpnpLeaseTable::new();
    for p in [10u16, 20, 30] {
        table.handle(UpnpMessage::Add(lease("p", p)));
    }
    let mut ports: Vec<u16> = table.renewals().iter().map(|d| d.port).collect();
    ports.sort();
    assert_eq!(ports, vec![10, 20, 30]);
}

#[test]
fn lease_outlives_renewal_interval() {
    assert_eq!(renewal_interval_seconds(), 900);
    assert_eq!(lease_duration_seconds(), 960);
}

#[test]
fn default_upnp_config() {
    let conf = UpnpConfig::default();
    assert_eq!(conf.renewal_seconds, 900);
    assert!(!conf.remove_immediate);
    assert_eq!(UpnpConfig::default_renewal_seconds(), 900);
}

#[test]
fn holder_counts_over_a_run() {
    let mut table = UpnpLeaseTable::new();
    let run = vec![
        UpnpMessage::Remove(9000),
        UpnpMessage::Add(lease("a", 9000)),
        UpnpMessage::Add(lease("b", 9000)),
        UpnpMessage::Add(lease("b", 9001)),
        UpnpMessage::Remove(9000),
        UpnpMessage::Remove(9000),
        UpnpMessage::Remove(9000),
        UpnpMessage::Add(lease("c", 9000)),
    ];
    let mut acquired = Vec::new();
    let mut released = Vec::new();
    for msg in run {
        match table.handle(msg) {
            UpnpGatewayAction::Acquire(d) => acquired.push(d.port),
            UpnpGatewayAction::Release(d) => released.push(d.port),
            _ => {}
        }
    }
    assert_eq!(acquired, vec![9000, 9001, 9000]);
    assert_eq!(released, vec![9000]);
    assert_eq!(table.holders_of(9000), 1);
    assert_eq!(table.holders_of(9001), 1);
    assert_eq!(table.holders_of(9002), 0);
}
