use vstd::prelude::*;
use crate::net::{Ipv4, SockAddrV4, ProbeAddr};

verus! {

/// A rendezvous response attribute, as far as discovery reads one.
#[derive(Clone, Copy, PartialEq, Eq, Debug)]
pub enum ProbeAttr {
    Mapped(ProbeAddr),
    Changed(ProbeAddr),
    XorMapped(ProbeAddr),
    Other,
}

/// The attributes the rendezvous codec decodes from a response buffer.
pub uninterp spec fn attrs_of(bytes: Seq<u8>) -> Seq<ProbeAttr>;

/// The bytes of a binding-request frame carrying a transaction id.
pub uninterp spec fn binding_request_frame(tid: u128) -> Seq<u8>;

/// Relies on stun_format::MsgBuilder: frames a binding request with the given
/// transaction id; the bytes depend on the id alone.
#[verifier::external_body]
fn build_binding_request(tid: u128) -> (r: Vec<u8>)
    ensures
        r@ == binding_request_frame(tid),
{
    let mut buf = [0u8; 28];
    let mut msg = stun_format::MsgBuilder::from(buf.as_mut_slice());
    let _ = msg.typ(stun_format::MsgType::BindingRequest);
    let _ = msg.tid(tid);
    msg.as_bytes().to_vec()
}

/// Relies on stun_format::Msg: decodes the attributes of a response buffer;
/// the decoded sequence depends on the buffer bytes alone.
#[verifier::external_body]
fn parse_attrs(buf: &[u8]) -> (r: Vec<ProbeAttr>)
    ensures
        r@ == attrs_of(buf@),
{
    let conv = |sa: stun_format::SocketAddr| match sa {
        stun_format::SocketAddr::V4(o, p) => ProbeAddr::V4(
            SockAddrV4 { ip: Ipv4 { o0: o[0], o1: o[1], o2: o[2], o3: o[3] }, port: p },
        ),
        stun_format::SocketAddr::V6(o, p) => ProbeAddr::V6(o, p),
    };
    stun_format::Msg::from(buf).attrs_iter().map(|a| match a {
        stun_format::Attr::MappedAddress(sa) => ProbeAttr::Mapped(conv(sa)),
        stun_format::Attr::ChangedAddress(sa) => ProbeAttr::Changed(conv(sa)),
        stun_format::Attr::XorMappedAddress(sa) => ProbeAttr::XorMapped(conv(sa)),
        _ => ProbeAttr::Other,
    }).collect()
}

/// The candidate public endpoint after folding one attribute list over a
/// prior candidate: the last mapped or xor-mapped address wins.
pub open spec fn candidate_after(init: Option<ProbeAddr>, attrs: Seq<ProbeAttr>) -> Option<ProbeAddr>
    decreases attrs.len(),
{
    if attrs.len() == 0 {
        init
    } else {
        match attrs.last() {
            ProbeAttr::Mapped(a) => Some(a),
            ProbeAttr::XorMapped(a) => Some(a),
            _ => candidate_after(init, attrs.drop_last()),
        }
    }
}

/// The ports of the xor-mapped attributes of one attribute list, in order:
/// each is an authoritative trigger to propagate the discovered port.
pub open spec fn xor_ports(attrs: Seq<ProbeAttr>) -> Seq<u16>
    decreases attrs.len(),
{
    if attrs.len() == 0 {
        Seq::empty()
    } else {
        xor_ports(attrs.drop_last()) + (match attrs.last() {
            ProbeAttr::XorMapped(a) => seq![a.spec_port()],
            _ => Seq::empty(),
        })
    }
}

/// One short-lived probe round toward the rendezvous server.
#[derive(Clone, Copy, PartialEq, Eq, Debug)]
pub struct DiscoverySession {
    pub candidate: Option<ProbeAddr>,
}

impl DiscoverySession {
    pub fn new() -> (r: DiscoverySession)
        ensures
            r.candidate is None,
    {
        DiscoverySession { candidate: None }
    }

    /// The probe written at the start of every session, under the fixed
    /// transaction id the service always uses.
    pub fn probe_frame() -> (r: Vec<u8>)
        ensures
            r@ == binding_request_frame(1),
    {
        build_binding_request(1)
    }

    /// Fold the attributes decoded from one response buffer into the session.
    /// The last mapped or xor-mapped address observed becomes the candidate;
    /// the returned ports, one per xor-mapped attribute, are to be pushed
    /// into the lifecycle manager's external-port state, in order.
    pub fn on_response(&mut self, buf: &[u8]) -> (ports: Vec<u16>)
        ensures
            final(self).candidate == candidate_after(old(self).candidate, attrs_of(buf@)),
            ports@ == xor_ports(attrs_of(buf@)),
    {
        let attrs = parse_attrs(buf);
        let ghost init = self.candidate;
        let mut ports: Vec<u16> = Vec::new();
        let mut k: usize = 0;
        while k < attrs.len()
            invariant
                k <= attrs.len(),
                attrs@ == attrs_of(buf@),
                self.candidate == candidate_after(init, attrs@.take(k as int)),
                ports@ == xor_ports(attrs@.take(k as int)),
            decreases attrs.len() - k,
        {
            proof {
                assert(attrs@.take(k + 1).drop_last() =~= attrs@.take(k as int));
                assert(attrs@.take(k + 1).last() == attrs@[k as int]);
            }
            match attrs[k] {
                ProbeAttr::Mapped(a) => {
                    self.candidate = Some(a);
                },
                ProbeAttr::XorMapped(a) => {
                    self.candidate = Some(a);
                    ports.push(a.port());
                },
                _ => {},
            }
            k += 1;
        }
        proof {
            assert(attrs@.take(attrs@.len() as int) =~= attrs@);
        }
        ports
    }

    /// The session's result once the peer has closed the connection: the last
    /// candidate observed, or none when no address attribute was seen.
    pub fn into_endpoint(self) -> (r: Option<ProbeAddr>)
        ensures
            r == self.candidate,
    {
        self.candidate
    }
}

/// The fixed rendezvous server every discovery session connects to.
pub open spec fn spec_rendezvous_server() -> SockAddrV4 {
    SockAddrV4 { ip: Ipv4 { o0: 101, o1: 43, o2: 169, o3: 183 }, port: 3478 }
}

pub fn rendezvous_server() -> (r: SockAddrV4)
    ensures
        r == spec_rendezvous_server(),
{
    SockAddrV4 { ip: Ipv4 { o0: 101, o1: 43, o2: 169, o3: 183 }, port: 3478 }
}

} // verus!
