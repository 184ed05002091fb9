//! The types of the network engine and of the I/O traits that this crate
//! carries through or reads.
//!
//! The plain enumerations are read as their crates define them. An error of
//! the engine that is only carried through is declared without what it holds.

use vstd::prelude::*;

verus! {

/// `embassy_net::tcp::Error`, carried through. It is declared without what it
/// holds: which direction's error a shutdown reports is told without looking
/// inside one.
#[verifier::external_type_specification]
#[verifier::external_body]
pub struct ExTcpError(embassy_net::tcp::Error);

/// `embassy_net::tcp::ConnectError`: the ways in which the engine fails to connect.
#[verifier::external_type_specification]
pub struct ExTcpConnectError(embassy_net::tcp::ConnectError);

/// `embassy_net::tcp::AcceptError`: the ways in which the engine fails to accept a connection.
#[verifier::external_type_specification]
pub struct ExTcpAcceptError(embassy_net::tcp::AcceptError);

/// `embassy_net::udp::BindError`, carried through.
#[verifier::external_type_specification]
#[verifier::external_body]
pub struct ExUdpBindError(embassy_net::udp::BindError);

/// `embassy_net::udp::RecvError`, carried through.
#[verifier::external_type_specification]
#[verifier::external_body]
pub struct ExUdpRecvError(embassy_net::udp::RecvError);

/// `embassy_net::udp::SendError`, carried through.
#[verifier::external_type_specification]
#[verifier::external_body]
pub struct ExUdpSendError(embassy_net::udp::SendError);

/// `embassy_net::raw::RecvError`: the way in which the engine fails to receive a raw packet.
#[verifier::external_type_specification]
pub struct ExRawRecvError(embassy_net::raw::RecvError);

/// `embassy_net::MulticastError`: the two ways in which the engine refuses to
/// join or leave a group.
#[verifier::external_type_specification]
pub struct ExMulticastError(embassy_net::MulticastError);

/// `embassy_net::dns::Error`: the ways in which a name lookup fails.
#[verifier::external_type_specification]
pub struct ExDnsError(embassy_net::dns::Error);

/// `embassy_net::dns::DnsQueryType`: the record type that a name lookup asks for.
#[verifier::external_type_specification]
pub struct ExDnsQueryType(embassy_net::dns::DnsQueryType);

/// `edge_nal::Close`: the directions of a stream socket that a shutdown closes.
#[verifier::external_type_specification]
pub struct ExClose(edge_nal::Close);

/// `edge_nal::AddrType`: the address family that a name lookup is to return.
#[verifier::external_type_specification]
pub struct ExAddrType(edge_nal::AddrType);

/// `embedded_io_async::ErrorKind`: the kinds into which generic I/O code sorts errors.
#[verifier::external_type_specification]
pub struct ExErrorKind(embedded_io_async::ErrorKind);

/// The engine's word for its stream error: the error has the one value
/// `ConnectionReset`.
pub open spec fn tcp_error_name(e: embassy_net::tcp::Error) -> Seq<char> {
    "ConnectionReset"@
}

/// The engine's word for `e`.
pub open spec fn connect_error_name(e: embassy_net::tcp::ConnectError) -> Seq<char> {
    match e {
        embassy_net::tcp::ConnectError::InvalidState => "InvalidState"@,
        embassy_net::tcp::ConnectError::ConnectionReset => "ConnectionReset"@,
        embassy_net::tcp::ConnectError::TimedOut => "TimedOut"@,
        embassy_net::tcp::ConnectError::NoRoute => "NoRoute"@,
    }
}

/// The engine's word for `e`.
pub open spec fn accept_error_name(e: embassy_net::tcp::AcceptError) -> Seq<char> {
    match e {
        embassy_net::tcp::AcceptError::InvalidState => "InvalidState"@,
        embassy_net::tcp::AcceptError::InvalidPort => "InvalidPort"@,
        embassy_net::tcp::AcceptError::ConnectionReset => "ConnectionReset"@,
    }
}

/// The engine's word for `e`.
pub open spec fn raw_recv_error_name(e: embassy_net::raw::RecvError) -> Seq<char> {
    match e {
        embassy_net::raw::RecvError::Truncated => "Truncated"@,
    }
}

/// The engine's word for `e`.
pub open spec fn dns_error_name(e: embassy_net::dns::Error) -> Seq<char> {
    match e {
        embassy_net::dns::Error::InvalidName => "InvalidName"@,
        embassy_net::dns::Error::NameTooLong => "NameTooLong"@,
        embassy_net::dns::Error::Failed => "Failed"@,
    }
}

/// The text `tag` followed by the engine's word for `e`.
///
/// Calls `format!`, which writes `tag` and then what the `Debug` impl of
/// `embassy_net::tcp::Error` writes. Its crate derives that impl, and a derived
/// `Debug` writes the name of the variant of a value without fields. The
/// type has the one variant `ConnectionReset`.
#[verifier::external_body]
pub(crate) fn tagged_tcp_error(tag: &str, e: &embassy_net::tcp::Error) -> (text: String)
    ensures
        text@ == tag@ + tcp_error_name(*e),
{
    format!("{}{:?}", tag, e)
}

/// The text `tag` followed by the engine's word for `e`.
///
/// Calls `format!`, which writes `tag` and then what the `Debug` impl of
/// `embassy_net::tcp::ConnectError` writes. Its crate derives that impl, and a derived
/// `Debug` writes the name of the variant of a value without fields.
#[verifier::external_body]
pub(crate) fn tagged_connect_error(tag: &str, e: &embassy_net::tcp::ConnectError) -> (text: String)
    ensures
        text@ == tag@ + connect_error_name(*e),
{
    format!("{}{:?}", tag, e)
}

/// The text `tag` followed by the engine's word for `e`.
///
/// Calls `format!`, which writes `tag` and then what the `Debug` impl of
/// `embassy_net::tcp::AcceptError` writes. Its crate derives that impl, and a derived
/// `Debug` writes the name of the variant of a value without fields.
#[verifier::external_body]
pub(crate) fn tagged_accept_error(tag: &str, e: &embassy_net::tcp::AcceptError) -> (text: String)
    ensures
        text@ == tag@ + accept_error_name(*e),
{
    format!("{}{:?}", tag, e)
}

/// The text `tag` followed by the engine's word for `e`.
///
/// Calls `format!`, which writes `tag` and then what the `Debug` impl of
/// `embassy_net::raw::RecvError` writes. Its crate derives that impl, and a derived
/// `Debug` writes the name of the variant of a value without fields.
#[verifier::external_body]
pub(crate) fn tagged_raw_recv_error(tag: &str, e: &embassy_net::raw::RecvError) -> (text: String)
    ensures
        text@ == tag@ + raw_recv_error_name(*e),
{
    format!("{}{:?}", tag, e)
}

/// The text `tag` followed by the engine's word for `e`.
///
/// Calls `format!`, which writes `tag` and then what the `Debug` impl of
/// `embassy_net::dns::Error` writes. Its crate derives that impl, and a derived
/// `Debug` writes the name of the variant of a value without fields.
#[verifier::external_body]
pub(crate) fn tagged_dns_error(tag: &str, e: &embassy_net::dns::Error) -> (text: String)
    ensures
        text@ == tag@ + dns_error_name(*e),
{
    format!("{}{:?}", tag, e)
}

} // verus!
