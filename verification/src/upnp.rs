//! UPnP port forwarding bookkeeping. Several pods (and the API server) may ask for the same
//! port; the table counts the holders of each port so that the gateway is asked to forward a
//! port when its first holder arrives and to stop when its last holder leaves.

use crate::pod::config::ManagedContainerDockerPortProtocol;
use std::collections::HashMap;
use vstd::prelude::*;

verus! {

broadcast use vstd::std_specs::hash::group_hash_axioms;

/// User configuration of the UPnP client
pub struct UpnpConfig {
    pub renewal_seconds: u32,
    pub remove_immediate: bool,
}

impl UpnpConfig {
    /// Renewal period in seconds used when the configuration names none: fifteen minutes
    pub fn default_renewal_seconds() -> (secs: u32)
        ensures
            secs == 900,
    {
        60 * 15
    }
}

impl Default for UpnpConfig {
    fn default() -> (conf: Self)
        ensures
            conf.renewal_seconds == 900,
            !conf.remove_immediate,
    {
        UpnpConfig { renewal_seconds: Self::default_renewal_seconds(), remove_immediate: false }
    }
}

/// Seconds between two renewals of every forwarded port
pub fn renewal_interval_seconds() -> (secs: u64)
    ensures
        secs == 900,
{
    60 * 15
}

/// Lifetime in seconds requested from the gateway for each mapping: one minute longer than the
/// renewal interval, so that a mapping never lapses between renewals
pub fn lease_duration_seconds() -> (secs: u32)
    ensures
        secs == 900 + 60,
{
    let interval = renewal_interval_seconds();
    (interval + 60) as u32
}

/// Data required to create a UPnP lease
pub struct UpnpLeaseData {
    pub name: String,
    pub protocol: ManagedContainerDockerPortProtocol,
    pub port: u16,
}

impl Clone for UpnpLeaseData {
    fn clone(&self) -> (copy: Self)
        ensures
            copy == *self,
    {
        UpnpLeaseData { name: self.name.clone(), protocol: self.protocol, port: self.port }
    }
}

/// Request sent to the task that talks to the gateway
pub enum UpnpMessage {
    Add(UpnpLeaseData),
    Remove(u16),
}

/// Tracking for the number of tasks that have requested the given port remain forwarded
pub struct LeaseTrack {
    pub data: UpnpLeaseData,
    pub rc: usize,
}

/// A group of network ports forwarded on behalf of one holder; the ports stay forwarded until
/// the holder gives the lease back
pub struct UpnpLease {
    ports: Vec<u16>,
}

/// Failure to obtain a lease
#[derive(Debug)]
pub enum UpnpError {
    InUse(u16),
}

/// What the gateway task must do after a message
pub enum UpnpGatewayAction {
    /// Ask the gateway to forward a port that had no holder
    Acquire(UpnpLeaseData),
    /// Ask the gateway to stop forwarding a port whose last holder left
    Release(UpnpLeaseData),
    /// The gateway's mappings stay as they are
    Retain,
    /// A holder gave back a port that nobody holds
    Untracked(u16),
}

/// Number of holders of a port in the lease map
pub open spec fn holders(leases: Map<u16, (UpnpLeaseData, nat)>, port: u16) -> nat {
    if leases.contains_key(port) {
        leases[port].1
    } else {
        0
    }
}

/// Every tracked port has at least one holder and is filed under its own port number
pub open spec fn well_formed_leases(leases: Map<u16, (UpnpLeaseData, nat)>) -> bool {
    forall|p: u16| #[trigger]
        leases.contains_key(p) ==> leases[p].1 >= 1 && leases[p].0.port == p
}

/// The lease map after one message: an `Add` of a tracked port adds a holder and keeps the
/// first holder's data; an `Add` of a new port tracks it with one holder; a `Remove` takes a
/// holder away and forgets the port with its last holder; a `Remove` of an untracked port
/// changes nothing
pub open spec fn after_message(leases: Map<u16, (UpnpLeaseData, nat)>, msg: UpnpMessage) -> Map<
    u16,
    (UpnpLeaseData, nat),
> {
    match msg {
        UpnpMessage::Add(d) => if leases.contains_key(d.port) {
            leases.insert(d.port, (leases[d.port].0, leases[d.port].1 + 1))
        } else {
            leases.insert(d.port, (d, 1nat))
        },
        UpnpMessage::Remove(p) => if leases.contains_key(p) {
            if leases[p].1 <= 1 {
                leases.remove(p)
            } else {
                leases.insert(p, (leases[p].0, (leases[p].1 - 1) as nat))
            }
        } else {
            leases
        },
    }
}

/// The gateway request that a message calls for
pub open spec fn gateway_action_for(
    leases: Map<u16, (UpnpLeaseData, nat)>,
    msg: UpnpMessage,
) -> UpnpGatewayAction {
    match msg {
        UpnpMessage::Add(d) => if leases.contains_key(d.port) {
            UpnpGatewayAction::Retain
        } else {
            UpnpGatewayAction::Acquire(d)
        },
        UpnpMessage::Remove(p) => if leases.contains_key(p) {
            if leases[p].1 <= 1 {
                UpnpGatewayAction::Release(leases[p].0)
            } else {
                UpnpGatewayAction::Retain
            }
        } else {
            UpnpGatewayAction::Untracked(p)
        },
    }
}

/// The gateway is asked to forward exactly what the first holder of a port asked for: an `Add`
/// of an untracked port yields `Acquire` with the message's own lease data (name, protocol and
/// port), and the port is then tracked with that data and one holder. When the last holder
/// leaves, `Release` carries the data that port was tracked with
pub proof fn law_gateway_gets_requested_lease(
    leases: Map<u16, (UpnpLeaseData, nat)>,
    data: UpnpLeaseData,
    port: u16,
)
    ensures
        !leases.contains_key(data.port) ==> gateway_action_for(leases, UpnpMessage::Add(data))
            == UpnpGatewayAction::Acquire(data),
        !leases.contains_key(data.port) ==> after_message(leases, UpnpMessage::Add(data))
            == leases.insert(data.port, (data, 1nat)),
        leases.contains_key(data.port) ==> gateway_action_for(leases, UpnpMessage::Add(data))
            == UpnpGatewayAction::Retain,
        leases.contains_key(port) && leases[port].1 <= 1 ==> gateway_action_for(
            leases,
            UpnpMessage::Remove(port),
        ) == UpnpGatewayAction::Release(leases[port].0),
{
}

/// The lease map after a sequence of messages handled in order
pub open spec fn after_messages(
    leases: Map<u16, (UpnpLeaseData, nat)>,
    msgs: Seq<UpnpMessage>,
) -> Map<u16, (UpnpLeaseData, nat)>
    decreases msgs.len(),
{
    if msgs.len() == 0 {
        leases
    } else {
        after_messages(after_message(leases, msgs[0]), msgs.drop_first())
    }
}

/// Ports currently forwarded, with the number of holders of each
pub struct UpnpLeaseTable {
    bound: HashMap<u16, LeaseTrack>,
}

impl UpnpLeaseTable {
    /// Every entry has a holder and is filed under its port
    pub closed spec fn wf(&self) -> bool {
        forall|p: u16| #[trigger]
            self.bound@.contains_key(p) ==> self.bound@[p].rc >= 1 && self.bound@[p].data.port
                == p
    }

    /// The tracked ports, with the data of their first holder and the number of holders
    pub closed spec fn leases(&self) -> Map<u16, (UpnpLeaseData, nat)> {
        Map::new(
            |p: u16| self.bound@.contains_key(p),
            |p: u16| (self.bound@[p].data, self.bound@[p].rc as nat),
        )
    }

    /// An empty table
    pub fn new() -> (table: Self)
        ensures
            table.wf(),
            table.leases() == Map::<u16, (UpnpLeaseData, nat)>::empty(),
    {
        let table = UpnpLeaseTable { bound: HashMap::new() };
        assert(table.leases() =~= Map::<u16, (UpnpLeaseData, nat)>::empty());
        table
    }

    /// The holders' view of a well-formed table is well formed
    pub proof fn lemma_leases_well_formed(&self)
        requires
            self.wf(),
        ensures
            well_formed_leases(self.leases()),
    {
    }

    /// The data of every tracked port, for the periodic renewal of all mappings; the order is
    /// the table's
    pub fn renewals(&self) -> (all: Vec<UpnpLeaseData>)
        requires
            self.wf(),
        ensures
            all@.len() == self.leases().len(),
            forall|i: int|
                #![trigger all@[i]]
                0 <= i < all@.len() ==> self.leases().contains_key(all@[i].port) && all@[i]
                    == self.leases()[all@[i].port].0,
            forall|p: u16| #[trigger]
                self.leases().contains_key(p) ==> exists|i: int|
                    0 <= i < all@.len() && all@[i].port == p,
    {
        let mut all: Vec<UpnpLeaseData> = Vec::new();
        for entry in it: self.bound.iter()
            invariant
                self.wf(),
                all@.len() == it.index(),
                it.seq() == vstd::std_specs::iter::IteratorSpec::remaining(&vstd::std_specs::hash::spec_hash_map_iter(&self.bound)),
                forall|i: int|
                    #![trigger all@[i]]
                    0 <= i < it.index() ==> all@[i] == it.seq()[i].1.data,
        {
            all.push(entry.1.data.clone());
        }
        let ghost v = vstd::std_specs::iter::IteratorSpec::remaining(&vstd::std_specs::hash::spec_hash_map_iter(&self.bound));
        assert(self.leases().dom() =~= self.bound@.dom());
        assert forall|i: int|
            #![trigger all@[i]]
            0 <= i < all@.len() implies self.leases().contains_key(all@[i].port) && all@[i]
                == self.leases()[all@[i].port].0 by {
            assert(self.bound@.contains_key(*v[i].0) && self.bound@[*v[i].0] == *v[i].1);
        }
        assert forall|p: u16| #[trigger] self.leases().contains_key(p) implies exists|i: int|
            0 <= i < all@.len() && all@[i].port == p by {
            assert(self.bound@.contains_key(p));
            assert(v.contains((&p, &self.bound@[p])));
            let i = choose|i: int| 0 <= i < v.len() && v[i] == (&p, &self.bound@[p]);
            assert(all@[i].port == p);
        }
        all
    }

    /// Number of holders of the given port
    pub fn holders_of(&self, port: u16) -> (n: usize)
        ensures
            n == holders(self.leases(), port),
    {
        match self.bound.get(&port) {
            Some(track) => track.rc,
            None => 0,
        }
    }

    /// Record one message and say what the gateway must be asked for
    pub fn handle(&mut self, msg: UpnpMessage) -> (action: UpnpGatewayAction)
        requires
            old(self).wf(),
            msg matches UpnpMessage::Add(d) ==> holders(old(self).leases(), d.port) < usize::MAX,
        ensures
            final(self).wf(),
            final(self).leases() == after_message(old(self).leases(), msg),
            action == gateway_action_for(old(self).leases(), msg),
            msg matches UpnpMessage::Add(d) ==> (!old(self).leases().contains_key(d.port)
                ==> action == UpnpGatewayAction::Acquire(d)),
    {
        let ghost before = self.leases();
        match msg {
            UpnpMessage::Add(data) => {
                let port = data.port;
                let existing = match self.bound.get(&port) {
                    Some(track) => Some((track.data.clone(), track.rc)),
                    None => None,
                };
                match existing {
                    Some((first, rc)) => {
                        self.bound.insert(port, LeaseTrack { data: first, rc: rc + 1 });
                        assert(self.leases() =~= after_message(before, UpnpMessage::Add(data)));
                        UpnpGatewayAction::Retain
                    },
                    None => {
                        self.bound.insert(port, LeaseTrack { data: data.clone(), rc: 1 });
                        assert(self.leases() =~= after_message(before, UpnpMessage::Add(data)));
                        UpnpGatewayAction::Acquire(data)
                    },
                }
            },
            UpnpMessage::Remove(port) => {
                let existing = match self.bound.get(&port) {
                    Some(track) => Some((track.data.clone(), track.rc)),
                    None => None,
                };
                match existing {
                    Some((first, rc)) => {
                        if rc <= 1 {
                            self.bound.remove(&port);
                            assert(self.leases() =~= after_message(
                                before,
                                UpnpMessage::Remove(port),
                            ));
                            UpnpGatewayAction::Release(first)
                        } else {
                            self.bound.insert(port, LeaseTrack { data: first, rc: rc - 1 });
                            assert(self.leases() =~= after_message(
                                before,
                                UpnpMessage::Remove(port),
                            ));
                            UpnpGatewayAction::Retain
                        }
                    },
                    None => UpnpGatewayAction::Untracked(port),
                }
            },
        }
    }
}


/// A port's holder count after one message: an `Add` of the port adds a holder; a `Remove` of
/// it takes one away while the port has one and is ignored otherwise; other ports' messages
/// leave the count alone
pub open spec fn holder_step(count: nat, msg: UpnpMessage, port: u16) -> nat {
    match msg {
        UpnpMessage::Add(d) => if d.port == port {
            count + 1
        } else {
            count
        },
        UpnpMessage::Remove(p) => if p == port && count > 0 {
            (count - 1) as nat
        } else {
            count
        },
    }
}

/// A port's holder count after a run of messages handled in order, starting from `start`
pub open spec fn net_holders(start: nat, msgs: Seq<UpnpMessage>, port: u16) -> nat
    decreases msgs.len(),
{
    if msgs.len() == 0 {
        start
    } else {
        net_holders(holder_step(start, msgs[0], port), msgs.drop_first(), port)
    }
}

proof fn lemma_after_messages_push(
    leases: Map<u16, (UpnpLeaseData, nat)>,
    msgs: Seq<UpnpMessage>,
    msg: UpnpMessage,
)
    ensures
        after_messages(leases, msgs.push(msg)) == after_message(after_messages(leases, msgs), msg),
    decreases msgs.len(),
{
    if msgs.len() == 0 {
        let one = msgs.push(msg);
        assert(one.drop_first() =~= Seq::<UpnpMessage>::empty());
        assert(after_messages(after_message(leases, msg), one.drop_first()) == after_message(
            leases,
            msg,
        ));
        assert(after_messages(leases, msgs) == leases);
    } else {
        assert(msgs.push(msg).drop_first() =~= msgs.drop_first().push(msg));
        assert(msgs.push(msg)[0] == msgs[0]);
        lemma_after_messages_push(after_message(leases, msgs[0]), msgs.drop_first(), msg);
        assert(after_messages(leases, msgs) == after_messages(
            after_message(leases, msgs[0]),
            msgs.drop_first(),
        ));
    }
}

/// Over any run of messages, each port is tracked exactly while it has a holder, and its
/// number of holders is the number of its `Add` messages minus the `Remove` messages that found
/// it held; a `Remove` of a port that nobody holds changes nothing
pub proof fn law_run_counts_holders(leases: Map<u16, (UpnpLeaseData, nat)>, msgs: Seq<UpnpMessage>)
    requires
        well_formed_leases(leases),
    ensures
        well_formed_leases(after_messages(leases, msgs)),
        forall|p: u16| #[trigger]
            holders(after_messages(leases, msgs), p) == net_holders(holders(leases, p), msgs, p),
        forall|p: u16| #[trigger]
            after_messages(leases, msgs).contains_key(p) <==> net_holders(
                holders(leases, p),
                msgs,
                p,
            ) > 0,
    decreases msgs.len(),
{
    if msgs.len() > 0 {
        let next = after_message(leases, msgs[0]);
        assert(well_formed_leases(next));
        assert forall|p: u16| #[trigger]
            holders(next, p) == holder_step(holders(leases, p), msgs[0], p) by {}
        law_run_counts_holders(next, msgs.drop_first());
        assert forall|p: u16| #[trigger]
            net_holders(holders(leases, p), msgs, p) == net_holders(
                holders(next, p),
                msgs.drop_first(),
                p,
            ) by {}
    }
    let w = after_messages(leases, msgs);
    assert forall|p: u16| #[trigger] w.contains_key(p) <==> holders(w, p) > 0 by {}
}

/// Over any run of messages, the gateway is asked to forward a port exactly at the messages
/// that take it from no holder to a holder, and to stop forwarding it exactly at the messages
/// that take it from a holder to none; every other message leaves its mapping alone
pub proof fn law_gateway_follows_binding(
    leases: Map<u16, (UpnpLeaseData, nat)>,
    msgs: Seq<UpnpMessage>,
    i: int,
    port: u16,
)
    requires
        well_formed_leases(leases),
        0 <= i < msgs.len(),
    ensures
        ({
            let before = after_messages(leases, msgs.take(i));
            let after = after_messages(leases, msgs.take(i + 1));
            let action = gateway_action_for(before, msgs[i]);
            &&& (action matches UpnpGatewayAction::Acquire(d) && d.port == port) <==> (
            !before.contains_key(port) && after.contains_key(port))
            &&& (action matches UpnpGatewayAction::Release(d) && d.port == port) <==> (
            before.contains_key(port) && !after.contains_key(port))
        }),
{
    let before = after_messages(leases, msgs.take(i));
    law_run_counts_holders(leases, msgs.take(i));
    assert(msgs.take(i + 1) =~= msgs.take(i).push(msgs[i]));
    lemma_after_messages_push(leases, msgs.take(i), msgs[i]);
    assert(well_formed_leases(before));
}

/// The `Add` messages that ask for the given leases, in order
pub open spec fn add_messages(requests: Seq<UpnpLeaseData>) -> Seq<UpnpMessage> {
    requests.map_values(|d: UpnpLeaseData| UpnpMessage::Add(d))
}

/// The `Remove` messages that give the given ports back, in order
pub open spec fn remove_messages(ports: Seq<u16>) -> Seq<UpnpMessage> {
    ports.map_values(|p: u16| UpnpMessage::Remove(p))
}

/// The ports that the given lease requests name, in order
pub open spec fn lease_ports(requests: Seq<UpnpLeaseData>) -> Seq<u16> {
    requests.map_values(|d: UpnpLeaseData| d.port)
}

/// How often a port occurs in a list of ports
pub open spec fn port_count(ports: Seq<u16>, port: u16) -> nat
    decreases ports.len(),
{
    if ports.len() == 0 {
        0
    } else {
        (if ports[0] == port {
            1nat
        } else {
            0nat
        }) + port_count(ports.drop_first(), port)
    }
}

impl Clone for UpnpLease {
    fn clone(&self) -> (copy: Self)
        ensures
            copy.held_ports() == self.held_ports(),
    {
        UpnpLease { ports: self.ports.clone() }
    }
}

impl UpnpLease {
    /// The ports held by this lease, in the order they were requested
    pub closed spec fn held_ports(&self) -> Seq<u16> {
        self.ports@
    }

    /// The ports held by this lease
    pub fn ports(&self) -> (ports: &[u16])
        ensures
            ports@ == self.held_ports(),
    {
        self.ports.as_slice()
    }

    /// The messages that give every port of this lease back, sent when the last holder of the
    /// lease drops it
    pub fn release_messages(&self) -> (msgs: Vec<UpnpMessage>)
        ensures
            msgs@ == remove_messages(self.held_ports()),
    {
        let mut msgs: Vec<UpnpMessage> = Vec::new();
        let mut i: usize = 0;
        while i < self.ports.len()
            invariant
                i <= self.ports@.len(),
                msgs@ == remove_messages(self.ports@.subrange(0, i as int)),
            decreases self.ports@.len() - i,
        {
            msgs.push(UpnpMessage::Remove(self.ports[i]));
            assert(self.ports@.subrange(0, i + 1) =~= self.ports@.subrange(0, i as int).push(
                self.ports@[i as int],
            ));
            assert(remove_messages(self.ports@.subrange(0, i + 1)) =~= remove_messages(
                self.ports@.subrange(0, i as int),
            ).push(UpnpMessage::Remove(self.ports@[i as int])));
            i = i + 1;
        }
        assert(self.ports@.subrange(0, i as int) =~= self.ports@);
        msgs
    }
}

/// Request the given block of UPnP leases: the lease that holds their ports, and the `Add`
/// messages that the gateway task must receive
pub fn request_lease(requests: Vec<UpnpLeaseData>) -> (res: (UpnpLease, Vec<UpnpMessage>))
    ensures
        res.0.held_ports() == lease_ports(requests@),
        res.1@ == add_messages(requests@),
{
    let mut ports: Vec<u16> = Vec::new();
    let mut msgs: Vec<UpnpMessage> = Vec::new();
    let mut i: usize = 0;
    while i < requests.len()
        invariant
            i <= requests@.len(),
            ports@ == lease_ports(requests@.subrange(0, i as int)),
            msgs@ == add_messages(requests@.subrange(0, i as int)),
        decreases requests@.len() - i,
    {
        let data = requests[i].clone();
        ports.push(data.port);
        msgs.push(UpnpMessage::Add(data));
        assert(requests@.subrange(0, i + 1) =~= requests@.subrange(0, i as int).push(
            requests@[i as int],
        ));
        assert(lease_ports(requests@.subrange(0, i + 1)) =~= lease_ports(
            requests@.subrange(0, i as int),
        ).push(requests@[i as int].port));
        assert(add_messages(requests@.subrange(0, i + 1)) =~= add_messages(
            requests@.subrange(0, i as int),
        ).push(UpnpMessage::Add(requests@[i as int])));
        i = i + 1;
    }
    assert(requests@.subrange(0, i as int) =~= requests@);
    (UpnpLease { ports }, msgs)
}

proof fn lemma_after_adds(leases: Map<u16, (UpnpLeaseData, nat)>, requests: Seq<UpnpLeaseData>)
    requires
        well_formed_leases(leases),
    ensures
        ({
            let w = after_messages(leases, add_messages(requests));
            &&& well_formed_leases(w)
            &&& forall|p: u16| #[trigger]
                holders(w, p) == holders(leases, p) + port_count(lease_ports(requests), p)
            &&& forall|p: u16| #[trigger] leases.contains_key(p) ==> w[p].0 == leases[p].0
        }),
    decreases requests.len(),
{
    if requests.len() == 0 {
        assert(add_messages(requests) =~= Seq::<UpnpMessage>::empty());
        assert(lease_ports(requests) =~= Seq::<u16>::empty());
    } else {
        let d = requests[0];
        let rest = requests.drop_first();
        let next = after_message(leases, UpnpMessage::Add(d));
        assert(add_messages(requests)[0] == UpnpMessage::Add(d));
        assert(add_messages(requests).drop_first() =~= add_messages(rest));
        assert(lease_ports(requests)[0] == d.port);
        assert(lease_ports(requests).drop_first() =~= lease_ports(rest));
        assert(well_formed_leases(next));
        assert forall|p: u16| #[trigger]
            holders(next, p) == holders(leases, p) + (if d.port == p {
                1nat
            } else {
                0nat
            }) by {}
        lemma_after_adds(next, rest);
        let w = after_messages(leases, add_messages(requests));
        assert(w == after_messages(next, add_messages(rest)));
        assert forall|p: u16| #[trigger] leases.contains_key(p) implies w[p].0 == leases[p].0 by {
            assert(next.contains_key(p));
            assert(next[p].0 == leases[p].0);
        }
    }
}

proof fn lemma_after_removes(leases: Map<u16, (UpnpLeaseData, nat)>, ports: Seq<u16>)
    requires
        well_formed_leases(leases),
        forall|p: u16| #[trigger] port_count(ports, p) <= holders(leases, p),
    ensures
        ({
            let r = after_messages(leases, remove_messages(ports));
            &&& well_formed_leases(r)
            &&& forall|p: u16| #[trigger]
                holders(r, p) == holders(leases, p) - port_count(ports, p)
            &&& forall|p: u16| #[trigger]
                r.contains_key(p) ==> leases.contains_key(p) && r[p].0 == leases[p].0
        }),
    decreases ports.len(),
{
    if ports.len() == 0 {
        assert(remove_messages(ports) =~= Seq::<UpnpMessage>::empty());
    } else {
        let q = ports[0];
        let rest = ports.drop_first();
        let next = after_message(leases, UpnpMessage::Remove(q));
        assert(remove_messages(ports)[0] == UpnpMessage::Remove(q));
        assert(remove_messages(ports).drop_first() =~= remove_messages(rest));
        assert(port_count(ports, q) >= 1);
        assert(well_formed_leases(next));
        assert forall|p: u16| #[trigger]
            holders(next, p) == holders(leases, p) - (if q == p {
                1nat
            } else {
                0nat
            }) by {}
        assert forall|p: u16| #[trigger] port_count(rest, p) <= holders(next, p) by {
            assert(port_count(ports, p) <= holders(leases, p));
        }
        lemma_after_removes(next, rest);
    }
}

/// Giving a lease back undoes requesting it: after the `Add` messages of a request and then the
/// `Remove` messages of the lease that the request returned, every port has the holders and the
/// data it had before, whatever the table held already and however often a port was requested
pub proof fn law_release_undoes_request(
    leases: Map<u16, (UpnpLeaseData, nat)>,
    requests: Seq<UpnpLeaseData>,
)
    requires
        well_formed_leases(leases),
    ensures
        after_messages(
            after_messages(leases, add_messages(requests)),
            remove_messages(lease_ports(requests)),
        ) == leases,
{
    let w = after_messages(leases, add_messages(requests));
    let ports = lease_ports(requests);
    lemma_after_adds(leases, requests);
    assert forall|p: u16| #[trigger] port_count(ports, p) <= holders(w, p) by {
        assert(holders(w, p) == holders(leases, p) + port_count(ports, p));
    }
    lemma_after_removes(w, ports);
    let r = after_messages(w, remove_messages(ports));
    assert forall|p: u16| #[trigger] r.contains_key(p) == leases.contains_key(p) by {
        assert(holders(r, p) == holders(w, p) - port_count(ports, p));
        assert(holders(w, p) == holders(leases, p) + port_count(ports, p));
    }
    assert forall|p: u16| #[trigger] r.contains_key(p) implies r[p] == leases[p] by {
        assert(holders(r, p) == holders(w, p) - port_count(ports, p));
        assert(holders(w, p) == holders(leases, p) + port_count(ports, p));
    }
    assert(r =~= leases);
}

} // verus!
