use vstd::prelude::*;

verus! {

/// One configured service: a local port (or range, as text), and an optional
/// gateway discovery address and port.
#[derive(Clone, Debug)]
pub struct Service {
    pub local_port: Option<String>,
    pub upnp_addr: Option<String>,
    pub upnp_port: Option<u16>,
}

/// The whole configuration: the services, the rendezvous servers used for
/// port discovery, and the keep-alive targets.
#[derive(Clone, Debug)]
pub struct Config {
    pub services: Vec<Service>,
    pub stun_server: Vec<String>,
    pub keep_alive_server: Vec<String>,
}

} // verus!
