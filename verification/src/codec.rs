//! Address codec: the three SOCKS5 destination address encodings,
//! decoded from and encoded to their wire byte layout. Pure and
//! stateless; the session machine and the tests are its callers.

use vstd::prelude::*;
use vstd::slice::{slice_subrange, slice_to_vec};

use crate::wire::{
    addr_wf, be16, be16_bytes, be16_from, be16_to, Address, AddressV, ATYP_DOMAIN, ATYP_IPV4,
    ATYP_IPV6,
};

verus! {

/// Wire byte layout of a destination address: the address-type byte,
/// the address bytes (length-prefixed for a domain name), then the
/// big-endian port.
pub open spec fn addr_wire(a: AddressV) -> Seq<u8> {
    match a {
        AddressV::Ipv4 { octets, port } => seq![ATYP_IPV4] + octets + be16_bytes(port),
        AddressV::Domain { name, port } => seq![ATYP_DOMAIN, name.len() as u8] + name
            + be16_bytes(port),
        AddressV::Ipv6 { octets, port } => seq![ATYP_IPV6] + octets + be16_bytes(port),
    }
}

/// Decodes the 6-byte body of an IPv4 destination: 4 octets, then the
/// big-endian port.
pub fn decode_ipv4_body(body: &[u8]) -> (a: Address)
    requires
        body@.len() == 6,
    ensures
        a@ == (AddressV::Ipv4 { octets: body@.subrange(0, 4), port: be16(body@[4], body@[5]) }),
{
    let octets: [u8; 4] = [body[0], body[1], body[2], body[3]];
    let port = be16_from(body[4], body[5]);
    proof {
        assert(octets@ =~= body@.subrange(0, 4));
    }
    Address::Ipv4 { octets, port }
}

/// Decodes the 18-byte body of an IPv6 destination: 16 octets, then
/// the big-endian port.
pub fn decode_ipv6_body(body: &[u8]) -> (a: Address)
    requires
        body@.len() == 18,
    ensures
        a@ == (AddressV::Ipv6 { octets: body@.subrange(0, 16), port: be16(body@[16], body@[17]) }),
{
    let octets: [u8; 16] = [
        body[0], body[1], body[2], body[3], body[4], body[5], body[6], body[7], body[8], body[9],
        body[10], body[11], body[12], body[13], body[14], body[15],
    ];
    let port = be16_from(body[16], body[17]);
    proof {
        assert(octets@ =~= body@.subrange(0, 16));
    }
    Address::Ipv6 { octets, port }
}

/// Decodes the body of a domain-name destination whose length prefix
/// was already read: `len` name bytes, then the big-endian port.
pub fn decode_domain_body(len: u8, body: &[u8]) -> (a: Address)
    requires
        1 <= len,
        body@.len() == len + 2,
    ensures
        a@ == (AddressV::Domain {
            name: body@.subrange(0, len as int),
            port: be16(body@[len as int], body@[len as int + 1]),
        }),
{
    let name = slice_to_vec(slice_subrange(body, 0, len as usize));
    let port = be16_from(body[len as usize], body[len as usize + 1]);
    Address::Domain { name, port }
}

/// The eight 16-bit groups of an IPv6 address, each read big-endian
/// from two consecutive octets.
pub fn ipv6_groups(octets: &[u8; 16]) -> (g: [u16; 8])
    ensures
        forall|i: int| 0 <= i < 8 ==> g@[i] == be16(octets@[2 * i], octets@[2 * i + 1]),
{
    let g: [u16; 8] = [
        be16_from(octets[0], octets[1]),
        be16_from(octets[2], octets[3]),
        be16_from(octets[4], octets[5]),
        be16_from(octets[6], octets[7]),
        be16_from(octets[8], octets[9]),
        be16_from(octets[10], octets[11]),
        be16_from(octets[12], octets[13]),
        be16_from(octets[14], octets[15]),
    ];
    g
}

/// Encodes an address back to its wire byte layout.
pub fn encode_address(a: &Address) -> (w: Vec<u8>)
    requires
        addr_wf(a@),
    ensures
        w@ == addr_wire(a@),
{
    let mut w: Vec<u8> = Vec::new();
    match a {
        Address::Ipv4 { octets, port } => {
            w.push(ATYP_IPV4);
            let mut i: usize = 0;
            while i < 4
                invariant
                    i <= 4,
                    w@ =~= seq![ATYP_IPV4] + octets@.subrange(0, i as int),
                decreases 4 - i,
            {
                w.push(octets[i]);
                i += 1;
            }
            let (hi, lo) = be16_to(*port);
            w.push(hi);
            w.push(lo);
            proof {
                assert(w@ =~= addr_wire(a@));
            }
        }
        Address::Domain { name, port } => {
            w.push(ATYP_DOMAIN);
            w.push(name.len() as u8);
            let mut i: usize = 0;
            while i < name.len()
                invariant
                    i <= name@.len(),
                    name@.len() <= 255,
                    w@ =~= seq![ATYP_DOMAIN, name@.len() as u8] + name@.subrange(0, i as int),
                decreases name@.len() - i,
            {
                w.push(name[i]);
                i += 1;
            }
            let (hi, lo) = be16_to(*port);
            w.push(hi);
            w.push(lo);
            proof {
                assert(w@ =~= addr_wire(a@));
            }
        }
        Address::Ipv6 { octets, port } => {
            w.push(ATYP_IPV6);
            let mut i: usize = 0;
            while i < 16
                invariant
                    i <= 16,
                    w@ =~= seq![ATYP_IPV6] + octets@.subrange(0, i as int),
                decreases 16 - i,
            {
                w.push(octets[i]);
                i += 1;
            }
            let (hi, lo) = be16_to(*port);
            w.push(hi);
            w.push(lo);
            proof {
                assert(w@ =~= addr_wire(a@));
            }
        }
    }
    w
}

/// Why a byte buffer fails to decode as a destination address.
#[derive(Clone, Copy, Debug, PartialEq, Eq, Structural)]
pub enum DecodeError {
    /// The buffer ends before the encoding it begins.
    Truncated,
    /// The first byte is none of the three address-type bytes.
    UnknownAddressType,
    /// A domain-name encoding with a zero length prefix.
    EmptyDomainName,
}

/// Decodes a destination address from the front of a byte buffer,
/// returning the address and exactly how many bytes its encoding
/// occupies.
pub fn decode_address(buf: &Vec<u8>) -> (r: Result<(Address, usize), DecodeError>)
    ensures
        r matches Ok(p) ==> {
            &&& addr_wf(p.0@)
            &&& p.1 <= buf@.len()
            &&& buf@.subrange(0, p.1 as int) == addr_wire(p.0@)
        },
        buf@.len() == 0 ==> r == Err::<(Address, usize), DecodeError>(DecodeError::Truncated),
        buf@.len() > 0 && buf@[0] != ATYP_IPV4 && buf@[0] != ATYP_DOMAIN && buf@[0] != ATYP_IPV6
            ==> r == Err::<(Address, usize), DecodeError>(DecodeError::UnknownAddressType),
        buf@.len() > 0 && buf@[0] == ATYP_IPV4 ==> if buf@.len() < 7 {
            r == Err::<(Address, usize), DecodeError>(DecodeError::Truncated)
        } else {
            r matches Ok(p) && p.1 == 7 && p.0@ == (AddressV::Ipv4 {
                octets: buf@.subrange(1, 5),
                port: be16(buf@[5], buf@[6]),
            })
        },
        buf@.len() > 0 && buf@[0] == ATYP_DOMAIN ==> if buf@.len() < 2 {
            r == Err::<(Address, usize), DecodeError>(DecodeError::Truncated)
        } else if buf@[1] == 0 {
            r == Err::<(Address, usize), DecodeError>(DecodeError::EmptyDomainName)
        } else if buf@.len() < buf@[1] + 4 {
            r == Err::<(Address, usize), DecodeError>(DecodeError::Truncated)
        } else {
            r matches Ok(p) && p.1 == buf@[1] + 4 && p.0@ == (AddressV::Domain {
                name: buf@.subrange(2, 2 + buf@[1]),
                port: be16(buf@[2 + buf@[1]], buf@[3 + buf@[1]]),
            })
        },
        buf@.len() > 0 && buf@[0] == ATYP_IPV6 ==> if buf@.len() < 19 {
            r == Err::<(Address, usize), DecodeError>(DecodeError::Truncated)
        } else {
            r matches Ok(p) && p.1 == 19 && p.0@ == (AddressV::Ipv6 {
                octets: buf@.subrange(1, 17),
                port: be16(buf@[17], buf@[18]),
            })
        },
{
    if buf.len() == 0 {
        return Err(DecodeError::Truncated);
    }
    let atyp = buf[0];
    if atyp == ATYP_IPV4 {
        if buf.len() < 7 {
            return Err(DecodeError::Truncated);
        }
        let a = decode_ipv4_body(slice_subrange(buf.as_slice(), 1, 7));
        proof {
            assert(buf@.subrange(1, 7).subrange(0, 4) =~= buf@.subrange(1, 5));
            assert(buf@.subrange(0, 7) =~= addr_wire(a@)) by {
                crate::wire::lemma_be16_round_trip(buf@[5], buf@[6], 0);
            }
        }
        Ok((a, 7))
    } else if atyp == ATYP_DOMAIN {
        if buf.len() < 2 {
            return Err(DecodeError::Truncated);
        }
        let len = buf[1];
        if len == 0 {
            return Err(DecodeError::EmptyDomainName);
        }
        if buf.len() < len as usize + 4 {
            return Err(DecodeError::Truncated);
        }
        let a = decode_domain_body(len, slice_subrange(buf.as_slice(), 2, len as usize + 4));
        proof {
            assert(buf@.subrange(2, len + 4).subrange(0, len as int) =~= buf@.subrange(
                2,
                2 + len,
            ));
            assert(buf@.subrange(0, len + 4) =~= addr_wire(a@)) by {
                crate::wire::lemma_be16_round_trip(buf@[2 + len], buf@[3 + len], 0);
            }
        }
        Ok((a, len as usize + 4))
    } else if atyp == ATYP_IPV6 {
        if buf.len() < 19 {
            return Err(DecodeError::Truncated);
        }
        let a = decode_ipv6_body(slice_subrange(buf.as_slice(), 1, 19));
        proof {
            assert(buf@.subrange(1, 19).subrange(0, 16) =~= buf@.subrange(1, 17));
            assert(buf@.subrange(0, 19) =~= addr_wire(a@)) by {
                crate::wire::lemma_be16_round_trip(buf@[17], buf@[18], 0);
            }
        }
        Ok((a, 19))
    } else {
        Err(DecodeError::UnknownAddressType)
    }
}

/// The wire layout is injective on well-formed addresses: two
/// addresses with the same encoding are the same address. Together
/// with the contracts of `encode_address` and `decode_address`, an
/// encoded address decodes back to itself.
pub proof fn lemma_addr_wire_injective(a: AddressV, b: AddressV)
    requires
        addr_wf(a),
        addr_wf(b),
        addr_wire(a) == addr_wire(b),
    ensures
        a == b,
{
    let wa = addr_wire(a);
    let wb = addr_wire(b);
    assert(wa[0] == wb[0]);
    assert(a is Ipv4 ==> wa[0] == ATYP_IPV4);
    assert(a is Domain ==> wa[0] == ATYP_DOMAIN);
    assert(a is Ipv6 ==> wa[0] == ATYP_IPV6);
    assert(b is Ipv4 ==> wb[0] == ATYP_IPV4);
    assert(b is Domain ==> wb[0] == ATYP_DOMAIN);
    assert(b is Ipv6 ==> wb[0] == ATYP_IPV6);
    match (a, b) {
        (AddressV::Ipv4 { octets: oa, port: pa }, AddressV::Ipv4 { octets: ob, port: pb }) => {
            assert(oa =~= ob) by {
                assert(forall|i: int| 0 <= i < 4 ==> oa[i] == wa[i + 1] && ob[i] == wb[i + 1]);
            }
            assert(pa == pb) by {
                assert(wa[5] == be16_bytes(pa)[0] && wa[6] == be16_bytes(pa)[1]);
                assert(wb[5] == be16_bytes(pb)[0] && wb[6] == be16_bytes(pb)[1]);
                crate::wire::lemma_be16_round_trip(0, 0, pa);
                crate::wire::lemma_be16_round_trip(0, 0, pb);
            }
        }
        (AddressV::Domain { name: na, port: pa }, AddressV::Domain { name: nb, port: pb }) => {
            assert(wa[1] == na.len() as u8 && wb[1] == nb.len() as u8);
            assert(na.len() == nb.len());
            let n = na.len() as int;
            assert(na =~= nb) by {
                assert(forall|i: int| 0 <= i < n ==> na[i] == wa[i + 2] && nb[i] == wb[i + 2]);
            }
            assert(pa == pb) by {
                assert(wa[n + 2] == be16_bytes(pa)[0] && wa[n + 3] == be16_bytes(pa)[1]);
                assert(wb[n + 2] == be16_bytes(pb)[0] && wb[n + 3] == be16_bytes(pb)[1]);
                crate::wire::lemma_be16_round_trip(0, 0, pa);
                crate::wire::lemma_be16_round_trip(0, 0, pb);
            }
        }
        (AddressV::Ipv6 { octets: oa, port: pa }, AddressV::Ipv6 { octets: ob, port: pb }) => {
            assert(oa =~= ob) by {
                assert(forall|i: int| 0 <= i < 16 ==> oa[i] == wa[i + 1] && ob[i] == wb[i + 1]);
            }
            assert(pa == pb) by {
                assert(wa[17] == be16_bytes(pa)[0] && wa[18] == be16_bytes(pa)[1]);
                assert(wb[17] == be16_bytes(pb)[0] && wb[18] == be16_bytes(pb)[1]);
                crate::wire::lemma_be16_round_trip(0, 0, pa);
                crate::wire::lemma_be16_round_trip(0, 0, pb);
            }
        }
        _ => {
            assert(false);
        }
    }
}

} // verus!
