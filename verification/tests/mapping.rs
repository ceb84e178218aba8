use nat2pub::net::{Ipv4, SockAddrV4};
use nat2pub::upnp::{
    MappingAction, MappingAttempt, MappingError, MappingEvent, MappingSuccess, Protocol,
    UpnpOptions, UpnpService,
};

fn ip(o0: u8, o1: u8, o2: u8, o3: u8) -> Ipv4 {
    Ipv4 { o0, o1, o2, o3 }
}

fn gw() -> SockAddrV4 {
    SockAddrV4 { ip: ip(192, 168, 1, 1), port: 1900 }
}

fn options() -> UpnpOptions {
    UpnpOptions {
        name: "nat2pub".to_string(),
        inter_port: 28082,
        duration: 140,
        sleep_seconds: 120,
        protocol: Protocol::Tcp,
        broadcast_address: None,
    }
}

/// Drives one mapping attempt against a scripted gateway double and returns
/// the outcome together with the number of add-mapping calls made.
fn drive(
    svc: &UpnpService,
    port: u16,
    local: MappingEvent,
    add_results: &[MappingEvent],
    remove_result: MappingEvent,
    gateway: MappingEvent,
) -> (Result<MappingSuccess, MappingError>, usize) {
    let mut at = MappingAttempt::new(port);
    let mut adds = 0;
    loop {
        match svc.attempt_action(&at) {
            MappingAction::DiscoverGateway { .. } => at.step(gateway),
            MappingAction::ProbeLocalAddr { .. } => at.step(local),
            MappingAction::AddMapping { .. } => {
                let ev = add_results[adds];
                adds += 1;
                at.step(ev);
            },
            MappingAction::RemoveMapping { .. } => at.step(remove_result),
            MappingAction::Finished { result } => return (result, adds),
        }
    }
}

#[test]
fn conflict_double_is_called_exactly_twice() {
    let svc = UpnpService::new(options());
    let (result, adds) = drive(
        &svc,
        7000,
        MappingEvent::LocalAddrV4(ip(192, 168, 1, 7)),
        &[MappingEvent::AddConflict, MappingEvent::AddConflict, MappingEvent::AddConflict],
        MappingEvent::Removed,
        MappingEvent::GatewayFound(gw()),
    );
    assert_eq!(result, Err(MappingError::Conflict));
    assert_eq!(adds, 2);
}

#[test]
fn ipv6_local_binding_fails_without_any_add_call() {
    let svc = UpnpService::new(options());
    let (result, adds) = drive(
        &svc,
        7000,
        MappingEvent::LocalAddrV6,
        &[],
        MappingEvent::Removed,
        MappingEvent::GatewayFound(gw()),
    );
    assert_eq!(result, Err(MappingError::NotIpv4));
    assert_eq!(adds, 0);
}

#[test]
fn successful_attempt_reports_gateway_and_local_ip() {
    let svc = UpnpService::new(options());
    let (result, adds) = drive(
        &svc,
        7000,
        MappingEvent::LocalAddrV4(ip(192, 168, 1, 7)),
        &[MappingEvent::Added],
        MappingEvent::Removed,
        MappingEvent::GatewayFound(gw()),
    );
    assert_eq!(result, Ok(MappingSuccess { gateway: gw(), local_ip: ip(192, 168, 1, 7) }));
    assert_eq!(adds, 1);
}

#[test]
fn conflict_then_success_after_removal() {
    let svc = UpnpService::new(options());
    let (result, adds) = drive(
        &svc,
        7000,
        MappingEvent::LocalAddrV4(ip(192, 168, 1, 7)),
        &[MappingEvent::AddConflict, MappingEvent::Added],
        MappingEvent::Removed,
        MappingEvent::GatewayFound(gw()),
    );
    assert_eq!(result, Ok(MappingSuccess { gateway: gw(), local_ip: ip(192, 168, 1, 7) }));
    assert_eq!(adds, 2);
}

#[test]
fn conflict_with_failed_removal_surfaces_conflict() {
    let svc = UpnpService::new(options());
    let (result, adds) = drive(
        &svc,
        7000,
        MappingEvent::LocalAddrV4(ip(192, 168, 1, 7)),
        &[MappingEvent::AddConflict],
        MappingEvent::RemoveFailed,
        MappingEvent::GatewayFound(gw()),
    );
    assert_eq!(result, Err(MappingError::Conflict));
    assert_eq!(adds, 1);
}

#[test]
fn gateway_not_found_aborts_the_attempt() {
    let svc = UpnpService::new(options());
    let (result, adds) = drive(
        &svc,
        7000,
        MappingEvent::LocalAddrV4(ip(192, 168, 1, 7)),
        &[],
        MappingEvent::Removed,
        MappingEvent::GatewayNotFound,
    );
    assert_eq!(result, Err(MappingError::GatewayNotFound));
    assert_eq!(adds, 0);
}

#[test]
fn failed_probe_surfaces_transport_error() {
    let svc = UpnpService::new(options());
    let (result, adds) = drive(
        &svc,
        7000,
        MappingEvent::ProbeFailed,
        &[],
        MappingEvent::Removed,
        MappingEvent::GatewayFound(gw()),
    );
    assert_eq!(result, Err(MappingError::Transport));
    assert_eq!(adds, 0);
}

#[test]
fn rejected_mapping_surfaces_rejected() {
    let svc = UpnpService::new(options());
    let (result, adds) = drive(
        &svc,
        7000,
        MappingEvent::LocalAddrV4(ip(192, 168, 1, 7)),
        &[MappingEvent::AddRejected],
        MappingEvent::Removed,
        MappingEvent::GatewayFound(gw()),
    );
    assert_eq!(result, Err(MappingError::Rejected));
    assert_eq!(adds, 1);
}

#[test]
fn add_mapping_action_carries_the_configured_request() {
    let svc = UpnpService::new(options());
    let mut at = MappingAttempt::new(7000);
    at.step(MappingEvent::GatewayFound(gw()));
    at.step(MappingEvent::LocalAddrV4(ip(192, 168, 1, 7)));
    match svc.attempt_action(&at) {
        MappingAction::AddMapping { gateway, protocol, external_port, local, lease_seconds } => {
            assert_eq!(gateway, gw());
            assert_eq!(protocol, Protocol::Tcp);
            assert_eq!(external_port, 7000);
            assert_eq!(local, SockAddrV4 { ip: ip(192, 168, 1, 7), port: 28082 });
            assert_eq!(lease_seconds, 140);
        },
        _ => panic!("expected the add-mapping action"),
    }
}

#[test]
fn ipv6_error_converts_to_the_mapping_error() {
    assert_eq!(MappingError::from(nat2pub::upnp::UpnpError::Ipv6), MappingError::NotIpv4);
}

#[test]
fn set_external_port_last_value_wins() {
    let mut svc = UpnpService::new(options());
    assert_eq!(svc.external_port, None);
    assert_eq!(svc.set_external_port(5000), Some(5000));
    assert_eq!(svc.set_external_port(5000), None);
    assert_eq!(svc.set_external_port(6000), Some(6000));
    assert_eq!(svc.external_port, Some(6000));
}

#[test]
fn renewal_tick_asserts_the_stored_port() {
    let mut svc = UpnpService::new(options());
    assert_eq!(svc.renewal_tick(), None);
    svc.set_external_port(7000);
    assert_eq!(svc.renewal_tick(), Some(7000));
    assert_eq!(svc.renewal_interval_seconds(), 180);
}

#[test]
fn renewal_change_detection_is_idempotent() {
    let mut svc = UpnpService::new(options());
    let ok = Ok(MappingSuccess { gateway: gw(), local_ip: ip(192, 168, 1, 7) });
    assert!(svc.observe_mapping_outcome(&ok));
    assert!(!svc.observe_mapping_outcome(&ok));
    let moved = Ok(MappingSuccess { gateway: gw(), local_ip: ip(192, 168, 1, 8) });
    assert!(svc.observe_mapping_outcome(&moved));
    assert!(!svc.observe_mapping_outcome(&moved));
}

#[test]
fn renewal_failure_resets_the_cached_local_ip() {
    let mut svc = UpnpService::new(options());
    let ok = Ok(MappingSuccess { gateway: gw(), local_ip: ip(192, 168, 1, 7) });
    assert!(svc.observe_mapping_outcome(&ok));
    assert!(!svc.observe_mapping_outcome(&Err(MappingError::Transport)));
    assert!(svc.observe_mapping_outcome(&ok));
}
