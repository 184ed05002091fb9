//! Socket addresses as callers write them and as the network engine takes
//! them, and the mapping between the two.

use vstd::prelude::*;

verus! {

/// What the network engine was built with.
#[derive(Clone, Copy, Debug, PartialEq, Eq)]
pub struct Features {
    /// The engine speaks IPv4.
    pub proto_ipv4: bool,
    /// The engine speaks IPv6.
    pub proto_ipv6: bool,
    /// The engine can join and leave multicast groups.
    pub multicast: bool,
}

/// An IP address of either family, by its octets in network order.
#[derive(Clone, Copy, Debug, PartialEq, Eq)]
pub enum IpAddr {
    /// An IPv4 address.
    V4([u8; 4]),
    /// An IPv6 address.
    V6([u8; 16]),
}

/// An IP address and a port.
#[derive(Clone, Copy, Debug, PartialEq, Eq)]
pub struct SocketAddr {
    /// The address.
    pub ip: IpAddr,
    /// The port.
    pub port: u16,
}

/// An IP address in the engine's representation. The engine has a variant only
/// for a family that it was built with.
#[derive(Clone, Copy, Debug, PartialEq, Eq)]
pub enum IpAddress {
    /// An IPv4 address.
    Ipv4([u8; 4]),
    /// An IPv6 address.
    Ipv6([u8; 16]),
}

/// The engine's endpoint: always an address and a port.
#[derive(Clone, Copy, Debug, PartialEq, Eq)]
pub struct IpEndpoint {
    /// The address.
    pub addr: IpAddress,
    /// The port.
    pub port: u16,
}

/// The engine's endpoint to listen on: a port, on one address or on all.
#[derive(Clone, Copy, Debug, PartialEq, Eq)]
pub struct IpListenEndpoint {
    /// The address, or `None` for every address of the host.
    pub addr: Option<IpAddress>,
    /// The port.
    pub port: u16,
}

/// Every octet of `octets` is zero.
pub open spec fn all_zero(octets: Seq<u8>) -> bool {
    forall|i: int| 0 <= i < octets.len() ==> octets[i] == 0
}

impl IpAddr {
    /// The address is the unspecified address of its family: `0.0.0.0` or `::`.
    pub open spec fn unspecified(self) -> bool {
        match self {
            IpAddr::V4(o) => o@[0] == 0 && o@[1] == 0 && o@[2] == 0 && o@[3] == 0,
            IpAddr::V6(o) => {
                &&& o@[0] == 0 && o@[1] == 0 && o@[2] == 0 && o@[3] == 0
                &&& o@[4] == 0 && o@[5] == 0 && o@[6] == 0 && o@[7] == 0
                &&& o@[8] == 0 && o@[9] == 0 && o@[10] == 0 && o@[11] == 0
                &&& o@[12] == 0 && o@[13] == 0 && o@[14] == 0 && o@[15] == 0
            },
        }
    }

    /// An address is unspecified exactly when every octet of it is zero.
    pub proof fn lemma_unspecified(self)
        ensures
            self.unspecified() <==> match self {
                IpAddr::V4(o) => all_zero(o@),
                IpAddr::V6(o) => all_zero(o@),
            },
    {
    }

    /// Whether the address is the unspecified address of its family.
    pub fn is_unspecified(&self) -> (b: bool)
        ensures
            b == self.unspecified(),
    {
        match self {
            IpAddr::V4(octets) => is_all_zero(octets.as_slice()),
            IpAddr::V6(octets) => is_all_zero(octets.as_slice()),
        }
    }
}

/// Whether every octet of `octets` is zero.
fn is_all_zero(octets: &[u8]) -> (b: bool)
    ensures
        b == all_zero(octets@),
{
    let mut i: usize = 0;
    while i < octets.len()
        invariant
            i <= octets.len(),
            forall|j: int| 0 <= j < i ==> octets@[j] == 0,
        decreases octets.len() - i,
    {
        if octets[i] != 0 {
            return false;
        }
        i += 1;
    }
    true
}

/// The engine's form of `addr`, where the engine was built with its family.
pub open spec fn emb_addr(addr: IpAddr, features: Features) -> Option<IpAddress> {
    match addr {
        IpAddr::V4(octets) => if features.proto_ipv4 {
            Some(IpAddress::Ipv4(octets))
        } else {
            None
        },
        IpAddr::V6(octets) => if features.proto_ipv6 {
            Some(IpAddress::Ipv6(octets))
        } else {
            None
        },
    }
}

/// The address that the engine's `addr` stands for.
pub open spec fn net_addr(addr: IpAddress) -> IpAddr {
    match addr {
        IpAddress::Ipv4(octets) => IpAddr::V4(octets),
        IpAddress::Ipv6(octets) => IpAddr::V6(octets),
    }
}

/// The engine's endpoint for `socket`, where the engine was built with its family.
pub open spec fn emb_socket(socket: SocketAddr, features: Features) -> Option<IpEndpoint> {
    match emb_addr(socket.ip, features) {
        Some(addr) => Some(IpEndpoint { addr, port: socket.port }),
        None => None,
    }
}

/// The engine's endpoint to listen on for `socket`, where the engine was built
/// with its family: the unspecified address stands for every address of the
/// host, any other address for itself.
pub open spec fn emb_bind_socket(socket: SocketAddr, features: Features) -> Option<
    IpListenEndpoint,
> {
    match emb_addr(socket.ip, features) {
        Some(addr) => Some(
            IpListenEndpoint {
                addr: if socket.ip.unspecified() {
                    None
                } else {
                    Some(addr)
                },
                port: socket.port,
            },
        ),
        None => None,
    }
}

/// Converts an engine endpoint to a socket address.
pub fn to_net_socket(socket: IpEndpoint) -> (r: SocketAddr)
    ensures
        r == (SocketAddr { ip: net_addr(socket.addr), port: socket.port }),
{
    let ip = match socket.addr {
        IpAddress::Ipv4(octets) => IpAddr::V4(octets),
        IpAddress::Ipv6(octets) => IpAddr::V6(octets),
    };
    SocketAddr { ip, port: socket.port }
}

/// Converts a socket address to an engine endpoint, or returns `None` where the
/// engine was not built with the address's family.
pub fn to_emb_socket(socket: SocketAddr, features: Features) -> (r: Option<IpEndpoint>)
    ensures
        r == emb_socket(socket, features),
{
    match to_emb_addr(socket.ip, features) {
        Some(addr) => Some(IpEndpoint { addr, port: socket.port }),
        None => None,
    }
}

/// Converts a socket address to an engine endpoint to listen on, or returns
/// `None` where the engine was not built with the address's family, be the
/// address specified or not.
pub fn to_emb_bind_socket(socket: SocketAddr, features: Features) -> (r: Option<IpListenEndpoint>)
    ensures
        r == emb_bind_socket(socket, features),
{
    let converted = match to_emb_addr(socket.ip, features) {
        Some(addr) => addr,
        None => {
            return None;
        },
    };
    let addr = if socket.ip.is_unspecified() {
        None
    } else {
        Some(converted)
    };
    Some(IpListenEndpoint { addr, port: socket.port })
}

/// Converts an address to the engine's form, or returns `None` where the engine
/// was not built with the address's family.
pub fn to_emb_addr(addr: IpAddr, features: Features) -> (r: Option<IpAddress>)
    ensures
        r == emb_addr(addr, features),
{
    match addr {
        IpAddr::V4(octets) => if features.proto_ipv4 {
            Some(IpAddress::Ipv4(octets))
        } else {
            None
        },
        IpAddr::V6(octets) => if features.proto_ipv6 {
            Some(IpAddress::Ipv6(octets))
        } else {
            None
        },
    }
}

/// An address that went to the engine's form comes back unchanged.
pub proof fn lemma_socket_round_trip(socket: SocketAddr, features: Features)
    requires
        emb_socket(socket, features) is Some,
    ensures
        net_addr(emb_socket(socket, features)->0.addr) == socket.ip,
        emb_socket(socket, features)->0.port == socket.port,
{
}

} // verus!
