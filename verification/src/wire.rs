//! Wire-level vocabulary of the SOCKS5 subset this proxy speaks:
//! protocol constants, negotiation methods, commands, reply codes,
//! and the three destination address representations.

use vstd::prelude::*;

verus! {

/// Version byte of every SOCKS5 frame.
pub const SOCKS_VERSION: u8 = 0x05;

/// Reserved byte of requests and replies.
pub const RESERVED: u8 = 0x00;

/// Command byte of a CONNECT request, the only command this core accepts.
pub const CMD_CONNECT: u8 = 0x01;

/// Negotiation method byte: no authentication required.
pub const METHOD_NO_AUTH: u8 = 0x00;

/// Negotiation method byte: no advertised method is acceptable.
pub const METHOD_NO_ACCEPTABLE: u8 = 0xFF;

/// Address-type byte: 4-octet IPv4 address.
pub const ATYP_IPV4: u8 = 0x01;

/// Address-type byte: length-prefixed domain name.
pub const ATYP_DOMAIN: u8 = 0x03;

/// Address-type byte: 16-octet IPv6 address.
pub const ATYP_IPV6: u8 = 0x04;

/// Authentication methods named by the protocol. Only
/// `NoAuthenticationRequired` is ever selected by this core.
#[derive(Clone, Copy, Debug, PartialEq, Eq, Structural)]
pub enum Method {
    NoAuthenticationRequired,
    Gssapi,
    UsernamePassword,
    NoAcceptableMethods,
}

/// Wire byte of a negotiation method.
pub open spec fn method_byte(m: Method) -> u8 {
    match m {
        Method::NoAuthenticationRequired => 0x00,
        Method::Gssapi => 0x01,
        Method::UsernamePassword => 0x02,
        Method::NoAcceptableMethods => 0xFF,
    }
}

/// The negotiation method a greeting byte denotes, if it is one this
/// core can name.
pub fn method_from_byte(b: u8) -> (m: Option<Method>)
    ensures
        m matches Some(method) ==> method_byte(method) == b,
        b == 0x00 ==> m == Some(Method::NoAuthenticationRequired),
        b == 0x01 ==> m == Some(Method::Gssapi),
        b == 0x02 ==> m == Some(Method::UsernamePassword),
        b == 0xFF ==> m == Some(Method::NoAcceptableMethods),
        b != 0x00 && b != 0x01 && b != 0x02 && b != 0xFF ==> m is None,
{
    if b == 0x00 {
        Some(Method::NoAuthenticationRequired)
    } else if b == 0x01 {
        Some(Method::Gssapi)
    } else if b == 0x02 {
        Some(Method::UsernamePassword)
    } else if b == 0xFF {
        Some(Method::NoAcceptableMethods)
    } else {
        None
    }
}

/// Request commands named by the protocol. Only `Connect` is accepted.
#[derive(Clone, Copy, Debug, PartialEq, Eq, Structural)]
pub enum Command {
    Connect,
    Bind,
    UdpAssociate,
}

/// Wire byte of a command.
pub open spec fn command_byte(c: Command) -> u8 {
    match c {
        Command::Connect => 0x01,
        Command::Bind => 0x02,
        Command::UdpAssociate => 0x03,
    }
}

/// The command a request byte denotes, if any.
pub fn command_from_byte(b: u8) -> (c: Option<Command>)
    ensures
        c matches Some(cmd) ==> command_byte(cmd) == b,
        b == 0x01 ==> c == Some(Command::Connect),
        b == 0x02 ==> c == Some(Command::Bind),
        b == 0x03 ==> c == Some(Command::UdpAssociate),
        b != 0x01 && b != 0x02 && b != 0x03 ==> c is None,
{
    if b == 0x01 {
        Some(Command::Connect)
    } else if b == 0x02 {
        Some(Command::Bind)
    } else if b == 0x03 {
        Some(Command::UdpAssociate)
    } else {
        None
    }
}

/// Outcome codes a reply frame can carry.
#[derive(Clone, Copy, Debug, PartialEq, Eq, Structural)]
pub enum ReplyCode {
    Succeeded,
    GeneralFailure,
    NotAllowed,
    NetworkUnreachable,
    HostUnreachable,
    ConnectionRefused,
    TtlExpired,
    CommandUnsupported,
    AddressTypeUnsupported,
}

/// Wire byte of a reply code.
pub open spec fn reply_byte(c: ReplyCode) -> u8 {
    match c {
        ReplyCode::Succeeded => 0x00,
        ReplyCode::GeneralFailure => 0x01,
        ReplyCode::NotAllowed => 0x02,
        ReplyCode::NetworkUnreachable => 0x03,
        ReplyCode::HostUnreachable => 0x04,
        ReplyCode::ConnectionRefused => 0x05,
        ReplyCode::TtlExpired => 0x06,
        ReplyCode::CommandUnsupported => 0x07,
        ReplyCode::AddressTypeUnsupported => 0x08,
    }
}

/// Executable form of `reply_byte`.
pub fn reply_code_byte(c: ReplyCode) -> (b: u8)
    ensures
        b == reply_byte(c),
{
    match c {
        ReplyCode::Succeeded => 0x00,
        ReplyCode::GeneralFailure => 0x01,
        ReplyCode::NotAllowed => 0x02,
        ReplyCode::NetworkUnreachable => 0x03,
        ReplyCode::HostUnreachable => 0x04,
        ReplyCode::ConnectionRefused => 0x05,
        ReplyCode::TtlExpired => 0x06,
        ReplyCode::CommandUnsupported => 0x07,
        ReplyCode::AddressTypeUnsupported => 0x08,
    }
}

/// A parsed destination address, immutable once produced.
#[derive(Clone, Debug, PartialEq, Eq)]
#[allow(inconsistent_fields)]
pub enum Address {
    Ipv4 { octets: [u8; 4], port: u16 },
    Domain { name: Vec<u8>, port: u16 },
    Ipv6 { octets: [u8; 16], port: u16 },
}

/// Mathematical model of an `Address`: the octet or name bytes as a
/// sequence, with the port.
#[verifier::ext_equal]
#[allow(inconsistent_fields)]
pub enum AddressV {
    Ipv4 { octets: Seq<u8>, port: u16 },
    Domain { name: Seq<u8>, port: u16 },
    Ipv6 { octets: Seq<u8>, port: u16 },
}

impl View for Address {
    type V = AddressV;

    open spec fn view(&self) -> AddressV {
        match self {
            Address::Ipv4 { octets, port } => AddressV::Ipv4 { octets: octets@, port: *port },
            Address::Domain { name, port } => AddressV::Domain { name: name@, port: *port },
            Address::Ipv6 { octets, port } => AddressV::Ipv6 { octets: octets@, port: *port },
        }
    }
}

/// Well-formedness of an address model: octet counts fixed by the
/// protocol, and a domain name of 1 to 255 bytes.
pub open spec fn addr_wf(a: AddressV) -> bool {
    match a {
        AddressV::Ipv4 { octets, .. } => octets.len() == 4,
        AddressV::Domain { name, .. } => 1 <= name.len() <= 255,
        AddressV::Ipv6 { octets, .. } => octets.len() == 16,
    }
}

/// The 16-bit value two big-endian bytes denote.
pub open spec fn be16(hi: u8, lo: u8) -> u16 {
    (hi * 256 + lo) as u16
}

/// The two big-endian bytes of a 16-bit value.
pub open spec fn be16_bytes(v: u16) -> Seq<u8> {
    seq![(v / 256) as u8, (v % 256) as u8]
}

/// The two big-endian bytes denote back the value they were made from,
/// and a value decoded from two bytes encodes back to those bytes.
pub proof fn lemma_be16_round_trip(hi: u8, lo: u8, v: u16)
    ensures
        be16_bytes(be16(hi, lo)) =~= seq![hi, lo],
        be16(be16_bytes(v)[0], be16_bytes(v)[1]) == v,
{
    assert((hi * 256 + lo) / 256 == hi) by (nonlinear_arith);
    assert((hi * 256 + lo) % 256 == lo) by (nonlinear_arith);
    assert((v / 256) * 256 + v % 256 == v) by (nonlinear_arith);
}

/// Executable big-endian decoding of a 16-bit value.
pub fn be16_from(hi: u8, lo: u8) -> (v: u16)
    ensures
        v == be16(hi, lo),
{
    (hi as u16) * 256 + (lo as u16)
}

/// Executable big-endian encoding of a 16-bit value.
pub fn be16_to(v: u16) -> (r: (u8, u8))
    ensures
        r.0 == be16_bytes(v)[0],
        r.1 == be16_bytes(v)[1],
{
    ((v / 256) as u8, (v % 256) as u8)
}

} // verus!
