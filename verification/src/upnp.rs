use vstd::prelude::*;
use crate::net::{Ipv4, SockAddrV4};

verus! {

/// Transport protocol a mapping forwards.
#[derive(Clone, Copy, PartialEq, Eq, Structural, Debug)]
pub enum Protocol {
    Tcp,
    Udp,
}

/// Port mapping is defined for IPv4 only; an IPv6 local binding is this error.
#[derive(Clone, Copy, PartialEq, Eq, Structural, Debug)]
pub enum UpnpError {
    Ipv6,
}

/// Typed failure of one mapping attempt.
#[derive(Clone, Copy, PartialEq, Eq, Structural, Debug)]
pub enum MappingError {
    /// The local address the router sees this host as was not IPv4.
    NotIpv4,
    /// No gateway answered discovery.
    GatewayNotFound,
    /// The transient probe toward the gateway's control address failed.
    Transport,
    /// The external port stayed in use after the one permitted removal retry.
    Conflict,
    /// The gateway refused the mapping for another reason.
    Rejected,
}

impl From<UpnpError> for MappingError {
    fn from(e: UpnpError) -> (r: MappingError) {
        match e {
            UpnpError::Ipv6 => MappingError::NotIpv4,
        }
    }
}

impl vstd::std_specs::convert::FromSpecImpl<UpnpError> for MappingError {
    open spec fn obeys_from_spec() -> bool {
        true
    }

    open spec fn from_spec(e: UpnpError) -> MappingError {
        MappingError::NotIpv4
    }
}

/// The pair a successful mapping attempt reports back.
#[derive(Clone, Copy, PartialEq, Eq, Structural, Debug)]
pub struct MappingSuccess {
    pub gateway: SockAddrV4,
    pub local_ip: Ipv4,
}

/// Where one mapping attempt stands.  `retry_available` is true until the
/// single conflict-driven removal retry has been consumed.
#[derive(Clone, Copy, PartialEq, Eq, Debug)]
pub enum MappingPhase {
    Discovering,
    Probing { gateway: SockAddrV4 },
    Adding { gateway: SockAddrV4, local_ip: Ipv4, retry_available: bool },
    Removing { gateway: SockAddrV4, local_ip: Ipv4 },
    Done { result: Result<MappingSuccess, MappingError> },
}

/// What the outside world reported back for the pending action.
#[derive(Clone, Copy, PartialEq, Eq, Debug)]
pub enum MappingEvent {
    GatewayFound(SockAddrV4),
    GatewayNotFound,
    LocalAddrV4(Ipv4),
    LocalAddrV6,
    ProbeFailed,
    Added,
    AddConflict,
    AddRejected,
    Removed,
    RemoveFailed,
}

/// The transition relation of one mapping attempt.  An event that does not
/// belong to the current phase leaves the attempt where it stands.
pub open spec fn spec_step(p: MappingPhase, e: MappingEvent) -> MappingPhase {
    match (p, e) {
        (MappingPhase::Discovering, MappingEvent::GatewayFound(g)) => MappingPhase::Probing {
            gateway: g,
        },
        (MappingPhase::Discovering, MappingEvent::GatewayNotFound) => MappingPhase::Done {
            result: Err(MappingError::GatewayNotFound),
        },
        (MappingPhase::Probing { gateway }, MappingEvent::LocalAddrV4(ip)) => MappingPhase::Adding {
            gateway,
            local_ip: ip,
            retry_available: true,
        },
        (MappingPhase::Probing { .. }, MappingEvent::LocalAddrV6) => MappingPhase::Done {
            result: Err(MappingError::NotIpv4),
        },
        (MappingPhase::Probing { .. }, MappingEvent::ProbeFailed) => MappingPhase::Done {
            result: Err(MappingError::Transport),
        },
        (
            MappingPhase::Adding { gateway, local_ip, retry_available: _ },
            MappingEvent::Added,
        ) => MappingPhase::Done { result: Ok(MappingSuccess { gateway, local_ip }) },
        (
            MappingPhase::Adding { gateway, local_ip, retry_available },
            MappingEvent::AddConflict,
        ) => if retry_available {
            MappingPhase::Removing { gateway, local_ip }
        } else {
            MappingPhase::Done { result: Err(MappingError::Conflict) }
        },
        (MappingPhase::Adding { .. }, MappingEvent::AddRejected) => MappingPhase::Done {
            result: Err(MappingError::Rejected),
        },
        (MappingPhase::Removing { gateway, local_ip }, MappingEvent::Removed) => MappingPhase::Adding {
            gateway,
            local_ip,
            retry_available: false,
        },
        (MappingPhase::Removing { .. }, MappingEvent::RemoveFailed) => MappingPhase::Done {
            result: Err(MappingError::Conflict),
        },
        _ => p,
    }
}

/// One call of `assert_mapping`, driven event by event.
pub struct MappingAttempt {
    pub external_port: u16,
    pub phase: MappingPhase,
}

impl MappingAttempt {
    pub fn new(external_port: u16) -> (r: MappingAttempt)
        ensures
            r.external_port == external_port,
            r.phase == MappingPhase::Discovering,
    {
        MappingAttempt { external_port, phase: MappingPhase::Discovering }
    }

    pub fn step(&mut self, event: MappingEvent)
        ensures
            final(self).external_port == old(self).external_port,
            final(self).phase == spec_step(old(self).phase, event),
    {
        let p = self.phase;
        self.phase = match (p, event) {
            (MappingPhase::Discovering, MappingEvent::GatewayFound(g)) => MappingPhase::Probing {
                gateway: g,
            },
            (MappingPhase::Discovering, MappingEvent::GatewayNotFound) => MappingPhase::Done {
                result: Err(MappingError::GatewayNotFound),
            },
            (
                MappingPhase::Probing { gateway },
                MappingEvent::LocalAddrV4(ip),
            ) => MappingPhase::Adding { gateway, local_ip: ip, retry_available: true },
            (MappingPhase::Probing { .. }, MappingEvent::LocalAddrV6) => MappingPhase::Done {
                result: Err(MappingError::from(UpnpError::Ipv6)),
            },
            (MappingPhase::Probing { .. }, MappingEvent::ProbeFailed) => MappingPhase::Done {
                result: Err(MappingError::Transport),
            },
            (
                MappingPhase::Adding { gateway, local_ip, retry_available: _ },
                MappingEvent::Added,
            ) => MappingPhase::Done { result: Ok(MappingSuccess { gateway, local_ip }) },
            (
                MappingPhase::Adding { gateway, local_ip, retry_available },
                MappingEvent::AddConflict,
            ) => if retry_available {
                MappingPhase::Removing { gateway, local_ip }
            } else {
                MappingPhase::Done { result: Err(MappingError::Conflict) }
            },
            (MappingPhase::Adding { .. }, MappingEvent::AddRejected) => MappingPhase::Done {
                result: Err(MappingError::Rejected),
            },
            (
                MappingPhase::Removing { gateway, local_ip },
                MappingEvent::Removed,
            ) => MappingPhase::Adding { gateway, local_ip, retry_available: false },
            (MappingPhase::Removing { .. }, MappingEvent::RemoveFailed) => MappingPhase::Done {
                result: Err(MappingError::Conflict),
            },
            _ => p,
        };
    }

    /// The attempt's outcome, once it has reached its terminal phase.
    pub fn finished(&self) -> (r: Option<Result<MappingSuccess, MappingError>>)
        ensures
            r == (match self.phase {
                MappingPhase::Done { result } => Some(result),
                _ => None,
            }),
    {
        match self.phase {
            MappingPhase::Done { result } => Some(result),
            _ => None,
        }
    }
}

/// Per-service mapping configuration, built once at startup.
pub struct UpnpOptions {
    pub name: String,
    pub inter_port: u16,
    pub duration: u32,
    pub sleep_seconds: u32,
    pub protocol: Protocol,
    pub broadcast_address: Option<SockAddrV4>,
}

/// The next outside call a mapping attempt asks its driver to make.
pub enum MappingAction {
    DiscoverGateway { broadcast: Option<SockAddrV4> },
    ProbeLocalAddr { gateway: SockAddrV4 },
    AddMapping {
        gateway: SockAddrV4,
        protocol: Protocol,
        external_port: u16,
        local: SockAddrV4,
        lease_seconds: u32,
    },
    RemoveMapping { gateway: SockAddrV4, protocol: Protocol, external_port: u16 },
    Finished { result: Result<MappingSuccess, MappingError> },
}

/// What one external-port update does: the stored value afterwards, and the
/// port to assert immediately (present exactly when the value changed).
pub open spec fn spec_set_port(prev: Option<u16>, port: u16) -> (Option<u16>, Option<u16>) {
    (Some(port), if prev == Some(port) { None } else { Some(port) })
}

/// The stored external port after a whole sequence of updates.
pub open spec fn external_port_after(init: Option<u16>, ports: Seq<u16>) -> Option<u16>
    decreases ports.len(),
{
    if ports.len() == 0 {
        init
    } else {
        spec_set_port(external_port_after(init, ports.drop_last()), ports.last()).0
    }
}

/// The immediate mapping assertions a sequence of updates triggers, in order.
pub open spec fn assert_calls(init: Option<u16>, ports: Seq<u16>) -> Seq<u16>
    decreases ports.len(),
{
    if ports.len() == 0 {
        Seq::empty()
    } else {
        let prev = external_port_after(init, ports.drop_last());
        assert_calls(init, ports.drop_last()) + (match spec_set_port(prev, ports.last()).1 {
            Some(p) => seq![p],
            None => Seq::empty(),
        })
    }
}

/// Whether a renewal outcome counts as the mapping having moved, against the
/// previous tick's cached gateway and local address.
pub open spec fn renewal_changed(
    cache_ip: Ipv4,
    cache_gw: SockAddrV4,
    outcome: Result<MappingSuccess, MappingError>,
) -> bool {
    match outcome {
        Ok(s) => s.local_ip != cache_ip || s.gateway != cache_gw,
        Err(_) => false,
    }
}

/// The cache after a renewal outcome: a success is remembered; a failure
/// resets the local address so the next success always reads as a change.
pub open spec fn renewal_cache_after(
    cache_ip: Ipv4,
    cache_gw: SockAddrV4,
    outcome: Result<MappingSuccess, MappingError>,
) -> (Ipv4, SockAddrV4) {
    match outcome {
        Ok(s) => (s.local_ip, s.gateway),
        Err(_) => (Ipv4::spec_unspecified(), cache_gw),
    }
}

/// The port-mapping lifecycle manager: the shared external-port cell plus the
/// renewal loop's change-detection cache.
pub struct UpnpService {
    pub options: UpnpOptions,
    pub external_port: Option<u16>,
    pub local_ip: Ipv4,
    pub pre_gateway: SockAddrV4,
}

impl UpnpService {
    pub fn new(options: UpnpOptions) -> (r: UpnpService)
        ensures
            r.options == options,
            r.external_port is None,
            r.local_ip == Ipv4::spec_unspecified(),
            r.pre_gateway == (SockAddrV4 { ip: Ipv4::spec_unspecified(), port: 0 }),
    {
        UpnpService {
            options,
            external_port: None,
            local_ip: Ipv4::unspecified(),
            pre_gateway: SockAddrV4 { ip: Ipv4::unspecified(), port: 0 },
        }
    }

    /// Swap in a newly discovered external port.  The result is the port to
    /// assert immediately, present exactly when the value changed (including
    /// the none-to-some transition).
    pub fn set_external_port(&mut self, port: u16) -> (assert_now: Option<u16>)
        ensures
            final(self).external_port == spec_set_port(old(self).external_port, port).0,
            assert_now == spec_set_port(old(self).external_port, port).1,
            final(self).options == old(self).options,
            final(self).local_ip == old(self).local_ip,
            final(self).pre_gateway == old(self).pre_gateway,
    {
        let changed = match self.external_port {
            Some(p) => p != port,
            None => true,
        };
        self.external_port = Some(port);
        if changed {
            Some(port)
        } else {
            None
        }
    }

    /// What a renewal tick does: assert the mapping for the currently stored
    /// external port, or nothing while none has been discovered yet.
    pub fn renewal_tick(&self) -> (r: Option<u16>)
        ensures
            r == self.external_port,
    {
        match self.external_port {
            Some(p) => Some(p),
            None => None,
        }
    }

    /// The fixed renewal interval, in seconds.
    pub fn renewal_interval_seconds(&self) -> (r: u64)
        ensures
            r == self.options.sleep_seconds + 60,
    {
        self.options.sleep_seconds as u64 + 60
    }

    /// Record one renewal outcome and report whether the mapping moved to a
    /// different gateway or local address since the previous tick.
    pub fn observe_mapping_outcome(&mut self, outcome: &Result<MappingSuccess, MappingError>) -> (changed: bool)
        ensures
            changed == renewal_changed(old(self).local_ip, old(self).pre_gateway, *outcome),
            (final(self).local_ip, final(self).pre_gateway) == renewal_cache_after(
                old(self).local_ip,
                old(self).pre_gateway,
                *outcome,
            ),
            final(self).options == old(self).options,
            final(self).external_port == old(self).external_port,
    {
        match outcome {
            Ok(s) => {
                let changed = s.local_ip != self.local_ip || s.gateway != self.pre_gateway;
                self.local_ip = s.local_ip;
                self.pre_gateway = s.gateway;
                changed
            },
            Err(_) => {
                self.local_ip = Ipv4::unspecified();
                false
            },
        }
    }

    /// Push the ports one discovery round reported, in order.  The result is
    /// the ports to assert immediately, one for each value-changing update,
    /// none for an update that repeats the stored value.
    pub fn push_discovered_ports(&mut self, ports: &Vec<u16>) -> (asserts: Vec<u16>)
        ensures
            final(self).external_port == external_port_after(old(self).external_port, ports@),
            asserts@ == assert_calls(old(self).external_port, ports@),
            final(self).options == old(self).options,
            final(self).local_ip == old(self).local_ip,
            final(self).pre_gateway == old(self).pre_gateway,
    {
        let ghost init = self.external_port;
        let mut asserts: Vec<u16> = Vec::new();
        let mut k: usize = 0;
        while k < ports.len()
            invariant
                k <= ports.len(),
                self.external_port == external_port_after(init, ports@.take(k as int)),
                asserts@ == assert_calls(init, ports@.take(k as int)),
                self.options == old(self).options,
                self.local_ip == old(self).local_ip,
                self.pre_gateway == old(self).pre_gateway,
            decreases ports.len() - k,
        {
            proof {
                assert(ports@.take(k + 1).drop_last() =~= ports@.take(k as int));
                assert(ports@.take(k + 1).last() == ports@[k as int]);
            }
            match self.set_external_port(ports[k]) {
                Some(p) => {
                    asserts.push(p);
                },
                None => {
                    proof {
                        assert(asserts@ =~= assert_calls(init, ports@.take(k + 1)));
                    }
                },
            }
            k += 1;
        }
        proof {
            assert(ports@.take(ports@.len() as int) =~= ports@);
        }
        asserts
    }

    /// The outside call the driver must make for the attempt's current phase,
    /// filled in from this service's configuration.
    pub fn attempt_action(&self, attempt: &MappingAttempt) -> (a: MappingAction)
        ensures
            a == spec_attempt_action(self.options, attempt.external_port, attempt.phase),
    {
        match attempt.phase {
            MappingPhase::Discovering => MappingAction::DiscoverGateway {
                broadcast: self.options.broadcast_address,
            },
            MappingPhase::Probing { gateway } => MappingAction::ProbeLocalAddr { gateway },
            MappingPhase::Adding { gateway, local_ip, retry_available: _ } => MappingAction::AddMapping {
                gateway,
                protocol: self.options.protocol,
                external_port: attempt.external_port,
                local: SockAddrV4 { ip: local_ip, port: self.options.inter_port },
                lease_seconds: self.options.duration,
            },
            MappingPhase::Removing { gateway, local_ip: _ } => MappingAction::RemoveMapping {
                gateway,
                protocol: self.options.protocol,
                external_port: attempt.external_port,
            },
            MappingPhase::Done { result } => MappingAction::Finished { result },
        }
    }
}

/// The action owed in each phase of an attempt made for `port` under `options`.
pub open spec fn spec_attempt_action(
    options: UpnpOptions,
    port: u16,
    p: MappingPhase,
) -> MappingAction {
    match p {
        MappingPhase::Discovering => MappingAction::DiscoverGateway {
            broadcast: options.broadcast_address,
        },
        MappingPhase::Probing { gateway } => MappingAction::ProbeLocalAddr { gateway },
        MappingPhase::Adding { gateway, local_ip, retry_available } => MappingAction::AddMapping {
            gateway,
            protocol: options.protocol,
            external_port: port,
            local: SockAddrV4 { ip: local_ip, port: options.inter_port },
            lease_seconds: options.duration,
        },
        MappingPhase::Removing { gateway, local_ip } => MappingAction::RemoveMapping {
            gateway,
            protocol: options.protocol,
            external_port: port,
        },
        MappingPhase::Done { result } => MappingAction::Finished { result },
    }
}

/// The phase an attempt reaches after a whole sequence of events.
pub open spec fn run_phase(p: MappingPhase, events: Seq<MappingEvent>) -> MappingPhase
    decreases events.len(),
{
    if events.len() == 0 {
        p
    } else {
        spec_step(run_phase(p, events.drop_last()), events.last())
    }
}

/// Whether handling `e` in phase `p` sends one add-mapping call to the gateway.
pub open spec fn issues_add(p: MappingPhase, e: MappingEvent) -> bool {
    ||| (p matches MappingPhase::Probing { .. }) && (e matches MappingEvent::LocalAddrV4(_))
    ||| (p matches MappingPhase::Removing { .. }) && (e matches MappingEvent::Removed)
}

/// How many add-mapping calls a sequence of events has sent to the gateway.
pub open spec fn adds_issued(p: MappingPhase, events: Seq<MappingEvent>) -> nat
    decreases events.len(),
{
    if events.len() == 0 {
        0
    } else {
        adds_issued(p, events.drop_last()) + (if issues_add(
            run_phase(p, events.drop_last()),
            events.last(),
        ) {
            1nat
        } else {
            0nat
        })
    }
}

/// How many add-mapping calls each phase admits, counted from the start of an
/// attempt: one before the removal retry is consumed, two after.
pub open spec fn adds_bound(p: MappingPhase, n: nat) -> bool {
    match p {
        MappingPhase::Discovering => n == 0,
        MappingPhase::Probing { .. } => n == 0,
        MappingPhase::Adding { retry_available, .. } => if retry_available {
            n == 1
        } else {
            n == 2
        },
        MappingPhase::Removing { .. } => n == 1,
        MappingPhase::Done { .. } => n <= 2,
    }
}

/// Law: however the gateway answers, one mapping attempt sends it at most two
/// add-mapping calls — the first try and at most one conflict-driven retry.
pub proof fn lemma_attempt_adds_at_most_two(events: Seq<MappingEvent>)
    ensures
        adds_bound(run_phase(MappingPhase::Discovering, events), adds_issued(MappingPhase::Discovering, events)),
        adds_issued(MappingPhase::Discovering, events) <= 2,
    decreases events.len(),
{
    if events.len() > 0 {
        lemma_attempt_adds_at_most_two(events.drop_last());
    }
}

/// Law: an attempt whose local-address probe never reports an IPv4 binding
/// sends the gateway no add-mapping call at all.
pub proof fn lemma_no_ipv4_no_add(events: Seq<MappingEvent>)
    requires
        forall|i: int| 0 <= i < events.len() ==> !(#[trigger] events[i] matches MappingEvent::LocalAddrV4(_)),
    ensures
        adds_issued(MappingPhase::Discovering, events) == 0,
        !(run_phase(MappingPhase::Discovering, events) matches MappingPhase::Adding { .. }),
        !(run_phase(MappingPhase::Discovering, events) matches MappingPhase::Removing { .. }),
    decreases events.len(),
{
    if events.len() > 0 {
        lemma_no_ipv4_no_add(events.drop_last());
    }
}

/// Law: a probe that reports an IPv6 local binding ends the attempt at once
/// with the non-IPv4 error, before any add-mapping call is sent.
pub proof fn lemma_ipv6_local_fails_not_ipv4(g: SockAddrV4)
    ensures
        run_phase(
            MappingPhase::Discovering,
            seq![MappingEvent::GatewayFound(g), MappingEvent::LocalAddrV6],
        ) == (MappingPhase::Done { result: Err(MappingError::NotIpv4) }),
        adds_issued(
            MappingPhase::Discovering,
            seq![MappingEvent::GatewayFound(g), MappingEvent::LocalAddrV6],
        ) == 0,
{
    let events = seq![MappingEvent::GatewayFound(g), MappingEvent::LocalAddrV6];
    let first = seq![MappingEvent::GatewayFound(g)];
    assert(events.drop_last() =~= first);
    assert(first.drop_last() =~= Seq::<MappingEvent>::empty());
    assert(run_phase(MappingPhase::Discovering, first.drop_last()) == MappingPhase::Discovering);
    assert(first.last() == MappingEvent::GatewayFound(g));
    assert(run_phase(MappingPhase::Discovering, first) == (MappingPhase::Probing { gateway: g }));
    assert(events.last() == MappingEvent::LocalAddrV6);
    assert(run_phase(MappingPhase::Discovering, events) == (MappingPhase::Done {
        result: Err(MappingError::NotIpv4),
    }));
    assert(adds_issued(MappingPhase::Discovering, first.drop_last()) == 0);
    assert(adds_issued(MappingPhase::Discovering, first) == 0);
    assert(adds_issued(MappingPhase::Discovering, events) == 0);
}

/// Law: after any sequence of external-port updates the stored value is the
/// last one passed, and each update triggers exactly one immediate mapping
/// assertion carrying its value when it changes the stored value, none when
/// it repeats it.
pub proof fn lemma_set_external_port_sequence(init: Option<u16>, ports: Seq<u16>)
    ensures
        ports.len() > 0 ==> external_port_after(init, ports) == Some(ports.last()),
        forall|i: int| 0 <= i < ports.len() ==> #[trigger] assert_calls(init, ports.take(i + 1))
            == assert_calls(init, ports.take(i)) + (if external_port_after(init, ports.take(i))
                == Some(ports[i]) {
            Seq::<u16>::empty()
        } else {
            seq![ports[i]]
        }),
{
    assert forall|i: int| 0 <= i < ports.len() implies #[trigger] assert_calls(init, ports.take(i + 1))
        == assert_calls(init, ports.take(i)) + (if external_port_after(init, ports.take(i))
            == Some(ports[i]) {
        Seq::<u16>::empty()
    } else {
        seq![ports[i]]
    }) by {
        let pre = ports.take(i + 1);
        assert(pre.drop_last() =~= ports.take(i));
        assert(pre.last() == ports[i]);
        if external_port_after(init, ports.take(i)) == Some(ports[i]) {
            assert(assert_calls(init, pre) =~= assert_calls(init, ports.take(i)) + Seq::<u16>::empty());
        }
    }
}

/// Law: renewal change detection is idempotent.  A second success reporting
/// the same gateway and local address as the one just recorded reports no
/// change; one reporting a differing pair does.
pub proof fn lemma_renewal_idempotent(
    cache_ip: Ipv4,
    cache_gw: SockAddrV4,
    s: MappingSuccess,
    s2: MappingSuccess,
)
    ensures
        !renewal_changed(
            renewal_cache_after(cache_ip, cache_gw, Ok(s)).0,
            renewal_cache_after(cache_ip, cache_gw, Ok(s)).1,
            Ok(s),
        ),
        renewal_changed(
            renewal_cache_after(cache_ip, cache_gw, Ok(s)).0,
            renewal_cache_after(cache_ip, cache_gw, Ok(s)).1,
            Ok(s2),
        ) <==> (s2.gateway != s.gateway || s2.local_ip != s.local_ip),
{
}

} // verus!
