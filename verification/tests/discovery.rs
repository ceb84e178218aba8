use nat2pub::net::{Ipv4, ProbeAddr, SockAddrV4};
use nat2pub::stun::{rendezvous_server, DiscoverySession};
use nat2pub::upnp::{Protocol, UpnpOptions, UpnpService};

fn options() -> UpnpOptions {
    UpnpOptions {
        name: "nat2pub".to_string(),
        inter_port: 28082,
        duration: 140,
        sleep_seconds: 120,
        protocol: Protocol::Tcp,
        broadcast_address: None,
    }
}

fn v4(o: [u8; 4], port: u16) -> stun_format::SocketAddr {
    stun_format::SocketAddr::V4(o, port)
}

fn response_frame(attrs: &[stun_format::Attr]) -> Vec<u8> {
    let mut buf = [0u8; 256];
    let mut b = stun_format::MsgBuilder::from(buf.as_mut_slice());
    b.typ(stun_format::MsgType::BindingResponse).unwrap();
    b.tid(1).unwrap();
    for a in attrs {
        b.add_attr(*a).unwrap();
    }
    b.as_bytes().to_vec()
}

#[test]
fn last_observed_candidate_wins_and_one_port_is_pushed() {
    let frames = [
        response_frame(&[stun_format::Attr::ChangedAddress(v4([9, 9, 9, 9], 1))]),
        response_frame(&[stun_format::Attr::MappedAddress(v4([1, 2, 3, 4], 5678))]),
        response_frame(&[stun_format::Attr::XorMappedAddress(v4([1, 2, 3, 4], 9999))]),
    ];
    let mut session = DiscoverySession::new();
    let mut svc = UpnpService::new(options());
    let mut asserted: Vec<u16> = Vec::new();
    for frame in &frames {
        let ports = session.on_response(frame);
        asserted.extend(svc.push_discovered_ports(&ports));
    }
    assert_eq!(
        session.into_endpoint(),
        Some(ProbeAddr::V4(SockAddrV4 { ip: Ipv4 { o0: 1, o1: 2, o2: 3, o3: 4 }, port: 9999 })),
    );
    assert_eq!(asserted, vec![9999]);
    assert_eq!(svc.external_port, Some(9999));
}

#[test]
fn all_attributes_in_one_frame_behave_the_same() {
    let frame = response_frame(&[
        stun_format::Attr::ChangedAddress(v4([9, 9, 9, 9], 1)),
        stun_format::Attr::MappedAddress(v4([1, 2, 3, 4], 5678)),
        stun_format::Attr::XorMappedAddress(v4([1, 2, 3, 4], 9999)),
    ]);
    let mut session = DiscoverySession::new();
    let ports = session.on_response(&frame);
    assert_eq!(ports, vec![9999]);
    assert_eq!(
        session.into_endpoint(),
        Some(ProbeAddr::V4(SockAddrV4 { ip: Ipv4 { o0: 1, o1: 2, o2: 3, o3: 4 }, port: 9999 })),
    );
}

#[test]
fn mapped_address_alone_yields_a_candidate_but_no_push() {
    let frame = response_frame(&[stun_format::Attr::MappedAddress(v4([5, 6, 7, 8], 4321))]);
    let mut session = DiscoverySession::new();
    let ports = session.on_response(&frame);
    assert!(ports.is_empty());
    assert_eq!(
        session.into_endpoint(),
        Some(ProbeAddr::V4(SockAddrV4 { ip: Ipv4 { o0: 5, o1: 6, o2: 7, o3: 8 }, port: 4321 })),
    );
}

#[test]
fn session_without_address_attributes_reports_none() {
    let frame = response_frame(&[stun_format::Attr::ChangedAddress(v4([9, 9, 9, 9], 1))]);
    let mut session = DiscoverySession::new();
    let ports = session.on_response(&frame);
    assert!(ports.is_empty());
    assert_eq!(session.into_endpoint(), None);
}

#[test]
fn earlier_candidate_survives_a_frame_without_addresses() {
    let mut session = DiscoverySession::new();
    session.on_response(&response_frame(&[stun_format::Attr::MappedAddress(v4([1, 2, 3, 4], 5678))]));
    session.on_response(&response_frame(&[stun_format::Attr::ChangedAddress(v4([9, 9, 9, 9], 1))]));
    assert_eq!(
        session.into_endpoint(),
        Some(ProbeAddr::V4(SockAddrV4 { ip: Ipv4 { o0: 1, o1: 2, o2: 3, o3: 4 }, port: 5678 })),
    );
}

#[test]
fn repeated_xor_port_is_asserted_only_once() {
    let frame = response_frame(&[
        stun_format::Attr::XorMappedAddress(v4([1, 2, 3, 4], 9999)),
        stun_format::Attr::XorMappedAddress(v4([1, 2, 3, 4], 9999)),
    ]);
    let mut session = DiscoverySession::new();
    let ports = session.on_response(&frame);
    assert_eq!(ports, vec![9999, 9999]);
    let mut svc = UpnpService::new(options());
    let asserted = svc.push_discovered_ports(&ports);
    assert_eq!(asserted, vec![9999]);
    assert_eq!(svc.external_port, Some(9999));
}

#[test]
fn probe_frame_is_a_binding_request_with_the_fixed_id() {
    let frame = DiscoverySession::probe_frame();
    let msg = stun_format::Msg::from(frame.as_slice());
    assert!(matches!(msg.typ(), Some(stun_format::MsgType::BindingRequest)));
    assert_eq!(msg.tid(), Some(1));
}

#[test]
fn rendezvous_server_is_the_fixed_one() {
    let s = rendezvous_server();
    assert_eq!(s.ip, Ipv4 { o0: 101, o1: 43, o2: 169, o3: 183 });
    assert_eq!(s.port, 3478);
}
