use vstd::prelude::*;
use crate::config::Service;
use crate::net::{Ipv4, SockAddrV4, spec_parse_ipv4, parse_ipv4};
use crate::upnp::{Protocol, UpnpOptions, UpnpService};

verus! {

/// The fixed local port every socket of a service shares: the listener, the
/// discovery probe and the keep-alive connections all bind it, so the router
/// maps one and the same address.
pub const LOCAL_PORT: u16 = 28082;

/// The lease asked of the gateway, in seconds.
pub const LEASE_SECONDS: u32 = 140;

/// The base of the renewal interval, in seconds.
pub const SLEEP_SECONDS: u32 = 120;

/// The seconds slept between keep-alive reconnect attempts.
pub const KEEP_ALIVE_BACKOFF_SECS: u64 = 1;

/// Failure to build a service out of its configuration.
#[derive(Clone, Copy, PartialEq, Eq, Structural, Debug)]
pub enum ConfigError {
    /// The configured gateway discovery address is no IPv4 literal.
    BadGatewayAddress,
}

/// The gateway discovery port used when the configuration names none.
pub open spec fn spec_upnp_port(svc: Service) -> u16 {
    match svc.upnp_port {
        Some(p) => p,
        None => 1900,
    }
}

/// The gateway broadcast address a configuration asks for: none configured,
/// or the parsed address with the configured (or default) discovery port.
/// The outer option is none exactly when the configured text does not parse.
pub open spec fn spec_broadcast(svc: Service) -> Option<Option<SockAddrV4>> {
    match svc.upnp_addr {
        None => Some(None),
        Some(a) => match spec_parse_ipv4(a@) {
            None => None,
            Some(ip) => Some(Some(SockAddrV4 { ip, port: spec_upnp_port(svc) })),
        },
    }
}

/// One configured service wired together: its mapping lifecycle manager and
/// the local address all of its sockets share.
pub struct NatService {
    pub service_config: Service,
    pub local_addr: SockAddrV4,
    pub upnp: UpnpService,
    pub keep_alive_server: String,
}

impl NatService {
    /// Build the service's fixed state out of its configuration.  Fails
    /// exactly when a configured gateway address is no IPv4 literal.
    pub fn new(service_config: Service) -> (r: Result<NatService, ConfigError>)
        ensures
            r is Ok <==> spec_broadcast(service_config) is Some,
            r is Err ==> r == Err::<NatService, ConfigError>(ConfigError::BadGatewayAddress),
            r matches Ok(ns) ==> {
                &&& ns.service_config == service_config
                &&& ns.local_addr == (SockAddrV4 {
                    ip: Ipv4::spec_unspecified(),
                    port: LOCAL_PORT,
                })
                &&& ns.upnp.external_port is None
                &&& ns.upnp.local_ip == Ipv4::spec_unspecified()
                &&& ns.upnp.options.name@ == "nat2pub"@
                &&& ns.upnp.options.inter_port == LOCAL_PORT
                &&& ns.upnp.options.duration == LEASE_SECONDS
                &&& ns.upnp.options.sleep_seconds == SLEEP_SECONDS
                &&& ns.upnp.options.protocol == Protocol::Tcp
                &&& Some(ns.upnp.options.broadcast_address) == spec_broadcast(service_config)
                &&& ns.keep_alive_server@ == ""@
            },
    {
        let broadcast_address: Option<SockAddrV4> = match &service_config.upnp_addr {
            None => None,
            Some(a) => match parse_ipv4(a.as_str()) {
                None => {
                    return Err(ConfigError::BadGatewayAddress);
                },
                Some(ip) => {
                    let port = match service_config.upnp_port {
                        Some(p) => p,
                        None => 1900,
                    };
                    Some(SockAddrV4 { ip, port })
                },
            },
        };
        let options = UpnpOptions {
            name: "nat2pub".to_owned(),
            inter_port: LOCAL_PORT,
            duration: LEASE_SECONDS,
            sleep_seconds: SLEEP_SECONDS,
            protocol: Protocol::Tcp,
            broadcast_address,
        };
        Ok(NatService {
            service_config,
            local_addr: SockAddrV4 { ip: Ipv4::unspecified(), port: LOCAL_PORT },
            upnp: UpnpService::new(options),
            keep_alive_server: "".to_owned(),
        })
    }
}

/// Whether a connection's read loop goes on: it stops on a failed read and
/// on a read of zero bytes, the peer having closed; any read of data keeps
/// the session alive.
pub fn session_continues(read_len: Option<usize>) -> (r: bool)
    ensures
        r == (read_len matches Some(n) && n > 0),
{
    match read_len {
        Some(n) => n > 0,
        None => false,
    }
}

} // verus!
