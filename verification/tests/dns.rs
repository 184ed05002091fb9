use edge_nal::AddrType;
use edge_nal_embassy::{Dns, DnsError, IpAddr, IpAddress};
use embassy_net::dns::{DnsQueryType, Error};
use embedded_io_async::ErrorKind;

#[test]
fn lookup_asks_for_the_record_of_the_family() {
    let dns = Dns::new();
    assert_eq!(dns.get_host_by_name(AddrType::IPv6), DnsQueryType::Aaaa);
    assert_eq!(dns.get_host_by_name(AddrType::IPv4), DnsQueryType::A);
    assert_eq!(dns.get_host_by_name(AddrType::Either), DnsQueryType::A);
}

#[test]
fn lookup_returns_the_first_address() {
    let dns = Dns::new();
    let addrs = [IpAddress::Ipv4([93, 184, 216, 34]), IpAddress::Ipv6([2; 16])];
    assert_eq!(dns.resolved(Ok(&addrs[..])), Ok(IpAddr::V4([93, 184, 216, 34])));
    assert_eq!(dns.resolved(Ok(&addrs[1..])), Ok(IpAddr::V6([2; 16])));
}

#[test]
fn lookup_without_an_address_fails() {
    let dns = Dns::new();
    let none: [IpAddress; 0] = [];
    assert_eq!(dns.resolved(Ok(&none[..])), Err(DnsError(Error::Failed)));
}

#[test]
fn lookup_passes_the_engine_s_error_on() {
    let dns = Dns::new();
    assert_eq!(dns.resolved(Err(Error::InvalidName)), Err(DnsError(Error::InvalidName)));
    assert_eq!(dns.resolved(Err(Error::NameTooLong)), Err(DnsError(Error::NameTooLong)));
    assert_eq!(DnsError::from(Error::Failed), DnsError(Error::Failed));
    assert_eq!(DnsError(Error::Failed).kind(), ErrorKind::Other);
}

#[test]
fn dns_error_texts() {
    assert_eq!(DnsError(Error::Failed).to_string(), "DNS error: Failed");
    assert_eq!(DnsError(Error::NameTooLong).to_string(), "DNS error: NameTooLong");
    assert_eq!(DnsError(Error::InvalidName).to_string(), "DNS error: InvalidName");
}
