//! Name lookup: which record to ask the engine for, and what its answer means.

use vstd::prelude::*;

use edge_nal::AddrType;
use embassy_net::dns::{DnsQueryType, Error};
use embedded_io_async::ErrorKind;

use crate::addr::{net_addr, IpAddr, IpAddress};
use crate::engine::{dns_error_name, tagged_dns_error};

verus! {

/// The error of a name lookup: the engine's error as it came.
#[derive(PartialEq, Eq, Clone, Copy, Debug)]
pub struct DnsError(pub Error);

impl DnsError {
    /// The text of the error: that a lookup failed, and then the engine's own
    /// word for the error.
    pub fn to_string(&self) -> (text: String)
        ensures
            text@ == "DNS error: "@ + dns_error_name(self.0),
    {
        tagged_dns_error("DNS error: ", &self.0)
    }

    /// The kind of the error, as generic I/O code classifies errors.
    pub fn kind(&self) -> (kind: ErrorKind)
        ensures
            kind == ErrorKind::Other,
    {
        ErrorKind::Other
    }
}

impl From<Error> for DnsError {
    fn from(e: Error) -> (r: DnsError) {
        DnsError(e)
    }
}

impl vstd::std_specs::convert::FromSpecImpl<Error> for DnsError {
    open spec fn obeys_from_spec() -> bool {
        true
    }

    open spec fn from_spec(e: Error) -> DnsError {
        DnsError(e)
    }
}

/// The record type that a lookup for addresses of `addr_type` asks for: `AAAA`
/// for IPv6, and `A` otherwise.
pub open spec fn query_type(addr_type: AddrType) -> DnsQueryType {
    match addr_type {
        AddrType::IPv6 => DnsQueryType::Aaaa,
        _ => DnsQueryType::A,
    }
}

/// What the engine's answer to a lookup means: the first address that it
/// found; its error; or [`Error::Failed`] where it found no address.
pub open spec fn first_address(outcome: Result<Seq<IpAddress>, Error>) -> Result<
    IpAddr,
    DnsError,
> {
    match outcome {
        Ok(addrs) => if addrs.len() > 0 {
            Ok(net_addr(addrs[0]))
        } else {
            Err(DnsError(Error::Failed))
        },
        Err(e) => Err(DnsError(e)),
    }
}

/// The name resolver.
#[derive(Clone, Copy, Debug)]
pub struct Dns {}

impl Dns {
    /// Creates the resolver.
    pub fn new() -> (dns: Self)
        ensures
            dns == (Dns {  }),
    {
        Dns {  }
    }

    /// Prepares a lookup of a host name for addresses of `addr_type`: gives
    /// the record type to ask the engine for.
    pub fn get_host_by_name(&self, addr_type: AddrType) -> (qtype: DnsQueryType)
        ensures
            qtype == query_type(addr_type),
    {
        match addr_type {
            AddrType::IPv6 => DnsQueryType::Aaaa,
            _ => DnsQueryType::A,
        }
    }

    /// The result of a lookup, from what the engine answered to it.
    pub fn resolved(&self, outcome: Result<&[IpAddress], Error>) -> (r: Result<IpAddr, DnsError>)
        ensures
            r == first_address(
                match outcome {
                    Ok(addrs) => Ok(addrs@),
                    Err(e) => Err(e),
                },
            ),
    {
        match outcome {
            Ok(addrs) => if addrs.len() > 0 {
                Ok(
                    match addrs[0] {
                        IpAddress::Ipv4(octets) => IpAddr::V4(octets),
                        IpAddress::Ipv6(octets) => IpAddr::V6(octets),
                    },
                )
            } else {
                Err(DnsError(Error::Failed))
            },
            Err(e) => Err(DnsError(e)),
        }
    }
}

} // verus!
