//! The known state of a pod, the coarse state published to subscribers, and the rules by which
//! a pod's state handle tells its subscribers about changes.

use crate::pod::id::DockerId;
use crate::upnp::UpnpLease;
use vstd::prelude::*;

verus! {

/// Current state of a pod - including if the state is currently unknown and being modified
#[derive(Debug, Clone, Copy, PartialEq, Eq, Structural)]
pub enum PodState {
    Disabled,
    Transit,
    Paused,
    Enabled,
}

/// State of a pod with the guarantee that the state is always known
pub enum PodStateKnown {
    Disabled,
    Paused(PodPaused),
    Enabled(PodEnable),
}

/// State maintained for a pod that is running
pub struct PodEnable {
    pub docker_id: DockerId,
    pub upnp_lease: UpnpLease,
}

/// State maintained for a pod that has been paused and can be quickly restarted
pub struct PodPaused {
    pub docker_id: DockerId,
}

impl Clone for PodPaused {
    fn clone(&self) -> (copy: Self)
        ensures
            copy == *self,
    {
        PodPaused { docker_id: self.docker_id.clone() }
    }
}

impl Clone for PodEnable {
    fn clone(&self) -> (copy: Self)
        ensures
            copy.docker_id == self.docker_id,
            copy.upnp_lease.held_ports() == self.upnp_lease.held_ports(),
    {
        PodEnable { docker_id: self.docker_id.clone(), upnp_lease: self.upnp_lease.clone() }
    }
}

/// Two known states are alike: the same variant with the same container, and for a running pod
/// a lease on the same ports
pub open spec fn same_known_state(a: PodStateKnown, b: PodStateKnown) -> bool {
    match (a, b) {
        (PodStateKnown::Disabled, PodStateKnown::Disabled) => true,
        (PodStateKnown::Paused(p), PodStateKnown::Paused(q)) => p.docker_id == q.docker_id,
        (PodStateKnown::Enabled(r), PodStateKnown::Enabled(s)) => r.docker_id == s.docker_id
            && r.upnp_lease.held_ports() == s.upnp_lease.held_ports(),
        _ => false,
    }
}

impl Clone for PodStateKnown {
    fn clone(&self) -> (copy: Self)
        ensures
            same_known_state(copy, *self),
            state_of(copy) == state_of(*self),
    {
        match self {
            PodStateKnown::Disabled => PodStateKnown::Disabled,
            PodStateKnown::Paused(p) => PodStateKnown::Paused(p.clone()),
            PodStateKnown::Enabled(r) => PodStateKnown::Enabled(r.clone()),
        }
    }
}

/// The coarse state that subscribers see for a known state
pub open spec fn state_of(known: PodStateKnown) -> PodState {
    match known {
        PodStateKnown::Disabled => PodState::Disabled,
        PodStateKnown::Paused(_) => PodState::Paused,
        PodStateKnown::Enabled(_) => PodState::Enabled,
    }
}

impl PodState {
    /// The coarse state that subscribers see for a known state; never `Transit`
    pub fn from_known(value: &PodStateKnown) -> (state: PodState)
        ensures
            state == state_of(*value),
            state != PodState::Transit,
            (state == PodState::Disabled) <==> *value is Disabled,
            (state == PodState::Paused) <==> *value is Paused,
            (state == PodState::Enabled) <==> *value is Enabled,
    {
        match value {
            PodStateKnown::Disabled => PodState::Disabled,
            PodStateKnown::Paused(_) => PodState::Paused,
            PodStateKnown::Enabled(_) => PodState::Enabled,
        }
    }
}

/// The coarse state published for a known state is the state of the same name: a disabled pod
/// is published as `Disabled`, a paused one as `Paused`, a running one as `Enabled`, and no
/// known state is published as `Transit`
pub proof fn law_published_state_names_variant(known: PodStateKnown)
    ensures
        (state_of(known) == PodState::Disabled) <==> known is Disabled,
        (state_of(known) == PodState::Paused) <==> known is Paused,
        (state_of(known) == PodState::Enabled) <==> known is Enabled,
        state_of(known) != PodState::Transit,
{
}

/// The state that a non-blocking read reports: the known state when no transaction holds the
/// pod, `Transit` while one does
pub fn current_state(unlocked: Option<&PodStateKnown>) -> (state: PodState)
    ensures
        match unlocked {
            Some(known) => state == state_of(*known),
            None => state == PodState::Transit,
        },
{
    match unlocked {
        Some(known) => PodState::from_known(known),
        None => PodState::Transit,
    }
}

/// A pod's known state together with the state last published to its subscribers
pub struct PodStatePublication {
    known: PodStateKnown,
    published: PodState,
    in_transaction: bool,
}

impl PodStatePublication {
    /// The pod's known state
    pub closed spec fn known(&self) -> PodStateKnown {
        self.known
    }

    /// The state last sent to subscribers
    pub closed spec fn published(&self) -> PodState {
        self.published
    }

    /// Whether a transaction holds the pod
    pub closed spec fn in_transaction(&self) -> bool {
        self.in_transaction
    }

    /// Outside a transaction subscribers have been told the known state; inside one they have
    /// been told either `Transit` or the known state
    pub open spec fn consistent(&self) -> bool {
        if self.in_transaction() {
            self.published() == PodState::Transit || self.published() == state_of(self.known())
        } else {
            self.published() == state_of(self.known())
        }
    }

    /// Start tracking a pod in the given state; subscribers start out with that state
    pub fn new(state: PodStateKnown) -> (this: Self)
        ensures
            this.known() == state,
            this.published() == state_of(state),
            !this.in_transaction(),
            this.consistent(),
    {
        let published = PodState::from_known(&state);
        PodStatePublication { known: state, published, in_transaction: false }
    }

    /// Begin a transaction: subscribers are told the state is in transit; returns the value to
    /// send to them
    pub fn begin(&mut self) -> (sent: PodState)
        requires
            !old(self).in_transaction(),
        ensures
            sent == PodState::Transit,
            final(self).published() == PodState::Transit,
            final(self).known() == old(self).known(),
            final(self).in_transaction(),
            final(self).consistent(),
    {
        self.published = PodState::Transit;
        self.in_transaction = true;
        PodState::Transit
    }

    /// The known state
    pub fn state(&self) -> (state: &PodStateKnown)
        ensures
            *state == self.known(),
    {
        &self.known
    }

    /// Set the known state inside a transaction; returns the value sent to subscribers
    pub fn set(&mut self, state: PodStateKnown) -> (sent: PodState)
        requires
            old(self).in_transaction(),
        ensures
            sent == state_of(state),
            final(self).known() == state,
            final(self).published() == sent,
            final(self).in_transaction(),
            final(self).consistent(),
    {
        let sent = PodState::from_known(&state);
        self.known = state;
        self.published = sent;
        sent
    }

    /// End a transaction: when subscribers were last told `Transit`, they are told the known
    /// state now; returns what must be sent, if anything
    pub fn end(&mut self) -> (sent: Option<PodState>)
        requires
            old(self).in_transaction(),
            old(self).consistent(),
        ensures
            sent == (if old(self).published() == PodState::Transit {
                Some(state_of(old(self).known()))
            } else {
                None::<PodState>
            }),
            final(self).known() == old(self).known(),
            !final(self).in_transaction(),
            final(self).published() == state_of(final(self).known()),
            final(self).consistent(),
    {
        self.in_transaction = false;
        if self.published == PodState::Transit {
            let now = PodState::from_known(&self.known);
            self.published = now;
            Some(now)
        } else {
            None
        }
    }

    /// The state reported by a non-blocking read
    pub fn current(&self) -> (state: PodState)
        ensures
            !self.in_transaction() ==> state == state_of(self.known()),
            self.in_transaction() ==> state == PodState::Transit,
    {
        if self.in_transaction {
            current_state(None)
        } else {
            current_state(Some(&self.known))
        }
    }
}

/// The ports a pod gives back when its state changes from `current` to `next`: those of the
/// lease of an enabled state that is replaced by a state that is not enabled, in the lease's
/// order; no other change gives anything back
pub open spec fn released_ports(current: PodStateKnown, next: PodStateKnown) -> Seq<u16> {
    match current {
        PodStateKnown::Enabled(e) => if next is Enabled {
            Seq::empty()
        } else {
            e.upnp_lease.held_ports()
        },
        _ => Seq::empty(),
    }
}

/// The ports a pod starts to hold when its state changes from `current` to `next`: those of the
/// lease of an enabled state that replaces a state that is not enabled
pub open spec fn acquired_ports(current: PodStateKnown, next: PodStateKnown) -> Seq<u16> {
    match next {
        PodStateKnown::Enabled(e) => if current is Enabled {
            Seq::empty()
        } else {
            e.upnp_lease.held_ports()
        },
        _ => Seq::empty(),
    }
}

/// The ports held by a state: those of its lease when it is enabled
pub open spec fn held_by(state: PodStateKnown) -> Seq<u16> {
    match state {
        PodStateKnown::Enabled(e) => e.upnp_lease.held_ports(),
        _ => Seq::empty(),
    }
}

/// The ports given back over a run of state changes from `start` through `states`, in order
pub open spec fn released_over(start: PodStateKnown, states: Seq<PodStateKnown>) -> Seq<u16>
    decreases states.len(),
{
    if states.len() == 0 {
        Seq::empty()
    } else {
        released_ports(start, states[0]) + released_over(states[0], states.drop_first())
    }
}

/// The ports taken over a run of state changes from `start` through `states`, in order
pub open spec fn acquired_over(start: PodStateKnown, states: Seq<PodStateKnown>) -> Seq<u16>
    decreases states.len(),
{
    if states.len() == 0 {
        Seq::empty()
    } else {
        acquired_ports(start, states[0]) + acquired_over(states[0], states.drop_first())
    }
}

/// No enabled state of the run is directly followed by another enabled state: a pod is only
/// enabled from a state that is not
pub open spec fn enabled_never_twice(start: PodStateKnown, states: Seq<PodStateKnown>) -> bool
    decreases states.len(),
{
    states.len() == 0 || (!(start is Enabled && states[0] is Enabled) && enabled_never_twice(
        states[0],
        states.drop_first(),
    ))
}

/// The last state of a run
pub open spec fn final_state(start: PodStateKnown, states: Seq<PodStateKnown>) -> PodStateKnown {
    if states.len() == 0 {
        start
    } else {
        states.last()
    }
}

/// The lease a pod gives back when its state changes from `current` to `next`: the lease of an
/// enabled state replaced by a state that is not enabled, and nothing otherwise. The pod's state
/// is the only holder of its lease, so this change is the last holder letting it go
pub fn released_lease(current: &PodStateKnown, next: &PodStateKnown) -> (released: Option<UpnpLease>)
    ensures
        released is Some <==> (*current is Enabled && !(*next is Enabled)),
        released matches Some(l) ==> l.held_ports() == released_ports(*current, *next),
{
    match current {
        PodStateKnown::Enabled(e) => match next {
            PodStateKnown::Enabled(_) => None,
            _ => Some(e.upnp_lease.clone()),
        },
        _ => None,
    }
}

proof fn lemma_released_over(start: PodStateKnown, states: Seq<PodStateKnown>)
    requires
        enabled_never_twice(start, states),
        !(final_state(start, states) is Enabled),
    ensures
        released_over(start, states) == held_by(start) + acquired_over(start, states),
    decreases states.len(),
{
    if states.len() == 0 {
        assert(held_by(start) =~= Seq::<u16>::empty());
        assert(held_by(start) + Seq::<u16>::empty() =~= Seq::<u16>::empty());
    } else {
        let s0 = states[0];
        let rest = states.drop_first();
        assert(final_state(s0, rest) == final_state(start, states)) by {
            if rest.len() > 0 {
                assert(rest.last() == states.last());
            }
        }
        lemma_released_over(s0, rest);
        if start is Enabled {
            assert(acquired_ports(start, s0) =~= Seq::<u16>::empty());
            assert(held_by(s0) =~= Seq::<u16>::empty());
            assert(released_ports(start, s0) == held_by(start));
            assert(released_over(start, states) =~= held_by(start) + acquired_over(start, states));
        } else {
            assert(released_ports(start, s0) =~= Seq::<u16>::empty());
            assert(held_by(start) =~= Seq::<u16>::empty());
            assert(acquired_ports(start, s0) == held_by(s0));
            assert(released_over(start, states) =~= held_by(start) + acquired_over(start, states));
        }
    }
}

/// Over any run of state changes that starts and ends with the pod not enabled, and that never
/// enables a pod that is enabled already, the ports given back are exactly the ports taken, in
/// the same order: every lease a pod takes is given back once, when the pod stops being enabled
pub proof fn law_leases_given_back_once(start: PodStateKnown, states: Seq<PodStateKnown>)
    requires
        !(start is Enabled),
        enabled_never_twice(start, states),
        !(final_state(start, states) is Enabled),
    ensures
        released_over(start, states) == acquired_over(start, states),
{
    lemma_released_over(start, states);
    assert(held_by(start) =~= Seq::<u16>::empty());
    assert(held_by(start) + acquired_over(start, states) =~= acquired_over(start, states));
}

} // verus!
