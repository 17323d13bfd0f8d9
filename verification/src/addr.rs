use vstd::prelude::*;

verus! {

/// The network address of a connected peer, held as plain values.
///
/// Two addresses are the same exactly when the socket addresses they stand for
/// compare equal: same family, same IP, same port, and for IPv6 the same flow
/// information and scope id.
#[derive(Clone, Copy, Debug, PartialEq, Eq, Structural)]
pub struct PeerAddr {
    /// `true` for an IPv6 socket address, `false` for IPv4.
    pub is_v6: bool,
    /// The IP address as an integer (an IPv4 address fills the low 32 bits).
    pub ip: u128,
    pub port: u16,
    /// IPv6 flow information (0 for IPv4).
    pub flowinfo: u32,
    /// IPv6 scope id (0 for IPv4).
    pub scope_id: u32,
}

impl PeerAddr {
    /// An IPv4 socket address.
    pub fn v4(ip: u32, port: u16) -> (a: PeerAddr)
        ensures
            !a.is_v6,
            a.ip == ip,
            a.port == port,
            a.flowinfo == 0,
            a.scope_id == 0,
    {
        PeerAddr { is_v6: false, ip: ip as u128, port, flowinfo: 0, scope_id: 0 }
    }

    /// An IPv6 socket address.
    pub fn v6(ip: u128, port: u16, flowinfo: u32, scope_id: u32) -> (a: PeerAddr)
        ensures
            a.is_v6,
            a.ip == ip,
            a.port == port,
            a.flowinfo == flowinfo,
            a.scope_id == scope_id,
    {
        PeerAddr { is_v6: true, ip, port, flowinfo, scope_id }
    }

    /// The port number of the address.
    pub fn port(&self) -> (p: u16)
        ensures
            p == self.port,
    {
        self.port
    }

    /// Whether two addresses are the same.
    pub fn same(&self, other: &PeerAddr) -> (b: bool)
        ensures
            b == (*self == *other),
    {
        *self == *other
    }
}

} // verus!
