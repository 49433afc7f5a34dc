use vstd::prelude::*;

use crate::error::Error;
use crate::order::{
    lemma_network_u16_bytes, lemma_u16_bytes_value, lemma_u32_bytes_value, network_order_u16,
    network_u16, push_u16, push_u32, read_u16, read_u32, u16_bytes, u16_value, u32_bytes,
    u32_value,
};

verus! {

/// Family tag of an IPv4 socket address structure.
pub const AF_INET: u16 = 2;

/// Family tag of an IPv6 socket address structure.
pub const AF_INET6: u16 = 10;

/// Size in bytes of the IPv4 socket address structure.
pub const SOCKADDR_IN_LEN: usize = 16;

/// Size in bytes of the IPv6 socket address structure.
pub const SOCKADDR_IN6_LEN: usize = 28;

/// An IPv4 address with a port.
#[derive(Clone, Copy, Debug, PartialEq, Eq)]
pub struct SocketAddrV4 {
    pub ip: [u8; 4],
    pub port: u16,
}

/// An IPv6 address with a port, a flow label and a scope id.
#[derive(Clone, Copy, Debug, PartialEq, Eq)]
pub struct SocketAddrV6 {
    pub ip: [u8; 16],
    pub port: u16,
    pub flowinfo: u32,
    pub scope_id: u32,
}

/// A socket address of either family.
#[derive(Clone, Copy, Debug, PartialEq, Eq)]
pub enum SocketAddr {
    V4(SocketAddrV4),
    V6(SocketAddrV6),
}

/// The IPv4 structure: family in host order, port in network order, the four
/// address bytes, eight bytes of zero padding.
pub open spec fn encoded_v4(a: SocketAddrV4, little_endian: bool) -> Seq<u8> {
    u16_bytes(AF_INET, little_endian) + u16_bytes(a.port, false) + a.ip@ + Seq::new(
        8,
        |i: int| 0u8,
    )
}

/// The IPv6 structure: family in host order, port in network order, flow label
/// in host order, the sixteen address bytes, scope id in host order.
pub open spec fn encoded_v6(a: SocketAddrV6, little_endian: bool) -> Seq<u8> {
    u16_bytes(AF_INET6, little_endian) + u16_bytes(a.port, false) + u32_bytes(
        a.flowinfo,
        little_endian,
    ) + a.ip@ + u32_bytes(a.scope_id, little_endian)
}

/// The OS structure that stands for `a` on a host of the given byte order.
pub open spec fn encoded(a: SocketAddr, little_endian: bool) -> Seq<u8> {
    match a {
        SocketAddr::V4(v4) => encoded_v4(v4, little_endian),
        SocketAddr::V6(v6) => encoded_v6(v6, little_endian),
    }
}

/// The port of an address of either family.
pub open spec fn port_of(a: SocketAddr) -> u16 {
    match a {
        SocketAddr::V4(v4) => v4.port,
        SocketAddr::V6(v6) => v6.port,
    }
}

/// The family tag at the head of a structure (its first two bytes, in host order).
pub open spec fn family_of(s: Seq<u8>, little_endian: bool) -> u16 {
    u16_value(s[0], s[1], little_endian)
}

/// The port field of a structure of either family: two bytes in network order.
pub open spec fn port_field(s: Seq<u8>) -> u16 {
    u16_value(s[2], s[3], false)
}

/// The address that a structure holds, or why it holds none.
pub open spec fn decoded(s: Seq<u8>, little_endian: bool) -> Result<SocketAddr, Error> {
    if s.len() < 2 {
        Err(Error::TruncatedAddress)
    } else if family_of(s, little_endian) == AF_INET {
        if s.len() < SOCKADDR_IN_LEN {
            Err(Error::TruncatedAddress)
        } else {
            Ok(SocketAddr::V4(SocketAddrV4 { ip: [s[4], s[5], s[6], s[7]], port: port_field(s) }))
        }
    } else if family_of(s, little_endian) == AF_INET6 {
        if s.len() < SOCKADDR_IN6_LEN {
            Err(Error::TruncatedAddress)
        } else {
            Ok(
                SocketAddr::V6(
                    SocketAddrV6 {
                        ip: [
                            s[8],
                            s[9],
                            s[10],
                            s[11],
                            s[12],
                            s[13],
                            s[14],
                            s[15],
                            s[16],
                            s[17],
                            s[18],
                            s[19],
                            s[20],
                            s[21],
                            s[22],
                            s[23],
                        ],
                        port: port_field(s),
                        flowinfo: u32_value(s.subrange(4, 8), little_endian),
                        scope_id: u32_value(s.subrange(24, 28), little_endian),
                    },
                ),
            )
        }
    } else {
        Err(Error::UnsupportedAddressFamily)
    }
}

/// Appends the bytes of `b`.
fn push_bytes(out: &mut Vec<u8>, b: &[u8])
    ensures
        final(out)@ == old(out)@ + b@,
{
    let mut i: usize = 0;
    while i < b.len()
        invariant
            i <= b@.len(),
            out@ == old(out)@ + b@.subrange(0, i as int),
        decreases b@.len() - i,
    {
        out.push(b[i]);
        i = i + 1;
        assert(out@ =~= old(out)@ + b@.subrange(0, i as int));
    }
    assert(b@.subrange(0, b@.len() as int) =~= b@);
}

/// Appends `n` zero bytes.
fn push_zeros(out: &mut Vec<u8>, n: usize)
    ensures
        final(out)@ == old(out)@ + Seq::new(n as nat, |i: int| 0u8),
{
    let mut i: usize = 0;
    while i < n
        invariant
            i <= n,
            out@ == old(out)@ + Seq::new(i as nat, |j: int| 0u8),
        decreases n - i,
    {
        out.push(0u8);
        i = i + 1;
        assert(out@ =~= old(out)@ + Seq::new(i as nat, |j: int| 0u8));
    }
}

/// Writes `addr` as the OS socket address structure of its family, laid out for
/// a host of the given byte order. The result is exactly as long as the OS
/// structure of that family, and its port bytes are in network order on every host.
pub fn encode(addr: &SocketAddr, little_endian: bool) -> (r: Vec<u8>)
    ensures
        r@ == encoded(*addr, little_endian),
        r@.len() == match *addr {
            SocketAddr::V4(_) => SOCKADDR_IN_LEN,
            SocketAddr::V6(_) => SOCKADDR_IN6_LEN,
        },
        r@.subrange(2, 4) == u16_bytes(port_of(*addr), false),
{
    let mut out: Vec<u8> = Vec::new();
    match addr {
        SocketAddr::V4(a) => {
            push_u16(&mut out, AF_INET, little_endian);
            push_u16(&mut out, network_order_u16(a.port, little_endian), little_endian);
            proof {
                lemma_network_u16_bytes(a.port, little_endian);
            }
            push_bytes(&mut out, &a.ip);
            push_zeros(&mut out, 8);
        },
        SocketAddr::V6(a) => {
            push_u16(&mut out, AF_INET6, little_endian);
            push_u16(&mut out, network_order_u16(a.port, little_endian), little_endian);
            proof {
                lemma_network_u16_bytes(a.port, little_endian);
            }
            push_u32(&mut out, a.flowinfo, little_endian);
            push_bytes(&mut out, &a.ip);
            push_u32(&mut out, a.scope_id, little_endian);
        },
    }
    assert(out@.subrange(2, 4) =~= u16_bytes(port_of(*addr), false));
    out
}

/// Reading a port field and bringing it to host order gives the value of its
/// two bytes taken most significant first.
proof fn lemma_port_field(b0: u8, b1: u8, little_endian: bool)
    ensures
        network_u16(u16_value(b0, b1, little_endian), little_endian) == u16_value(b0, b1, false),
{
}

/// Reads an OS socket address structure laid out for a host of the given byte
/// order. IPv4 and IPv6 structures give the address that they hold; any other
/// family tag gives `UnsupportedAddressFamily`, and a structure shorter than its
/// family's layout gives `TruncatedAddress`.
pub fn decode(s: &[u8], little_endian: bool) -> (r: Result<SocketAddr, Error>)
    ensures
        r == decoded(s@, little_endian),
        s@.len() >= 2 && family_of(s@, little_endian) != AF_INET && family_of(s@, little_endian)
            != AF_INET6 ==> r == Err::<SocketAddr, Error>(Error::UnsupportedAddressFamily),
{
    if s.len() < 2 {
        return Err(Error::TruncatedAddress);
    }
    let family = read_u16(s, 0, little_endian);
    if family == AF_INET {
        if s.len() < SOCKADDR_IN_LEN {
            return Err(Error::TruncatedAddress);
        }
        let port = network_order_u16(read_u16(s, 2, little_endian), little_endian);
        proof {
            lemma_port_field(s@[2], s@[3], little_endian);
        }
        Ok(SocketAddr::V4(SocketAddrV4 { ip: [s[4], s[5], s[6], s[7]], port }))
    } else if family == AF_INET6 {
        if s.len() < SOCKADDR_IN6_LEN {
            return Err(Error::TruncatedAddress);
        }
        let port = network_order_u16(read_u16(s, 2, little_endian), little_endian);
        proof {
            lemma_port_field(s@[2], s@[3], little_endian);
        }
        let flowinfo = read_u32(s, 4, little_endian);
        let scope_id = read_u32(s, 24, little_endian);
        let ip: [u8; 16] = [
            s[8],
            s[9],
            s[10],
            s[11],
            s[12],
            s[13],
            s[14],
            s[15],
            s[16],
            s[17],
            s[18],
            s[19],
            s[20],
            s[21],
            s[22],
            s[23],
        ];
        Ok(SocketAddr::V6(SocketAddrV6 { ip, port, flowinfo, scope_id }))
    } else {
        Err(Error::UnsupportedAddressFamily)
    }
}

/// Decoding the structure that an address encodes to gives the address back, for
/// every address of either family and on hosts of either byte order.
pub proof fn lemma_round_trip(a: SocketAddr, little_endian: bool)
    ensures
        decoded(encoded(a, little_endian), little_endian) == Ok::<SocketAddr, Error>(a),
{
    let s = encoded(a, little_endian);
    lemma_u16_bytes_value(AF_INET, little_endian);
    lemma_u16_bytes_value(AF_INET6, little_endian);
    lemma_u16_bytes_value(port_of(a), false);
    match a {
        SocketAddr::V4(v4) => {
            assert(s[0] == u16_bytes(AF_INET, little_endian)[0]);
            assert(s[1] == u16_bytes(AF_INET, little_endian)[1]);
            assert(s[2] == u16_bytes(v4.port, false)[0]);
            assert(s[3] == u16_bytes(v4.port, false)[1]);
            let ip: [u8; 4] = [s[4], s[5], s[6], s[7]];
            assert(ip@ =~= v4.ip@);
            assert(ip == v4.ip);
            assert(decoded(s, little_endian) == Ok::<SocketAddr, Error>(a));
        },
        SocketAddr::V6(v6) => {
            lemma_u32_bytes_value(v6.flowinfo, little_endian);
            lemma_u32_bytes_value(v6.scope_id, little_endian);
            assert(s[0] == u16_bytes(AF_INET6, little_endian)[0]);
            assert(s[1] == u16_bytes(AF_INET6, little_endian)[1]);
            assert(s[2] == u16_bytes(v6.port, false)[0]);
            assert(s[3] == u16_bytes(v6.port, false)[1]);
            assert(s.subrange(4, 8) =~= u32_bytes(v6.flowinfo, little_endian));
            assert(s.subrange(24, 28) =~= u32_bytes(v6.scope_id, little_endian));
            let ip: [u8; 16] = [
                s[8],
                s[9],
                s[10],
                s[11],
                s[12],
                s[13],
                s[14],
                s[15],
                s[16],
                s[17],
                s[18],
                s[19],
                s[20],
                s[21],
                s[22],
                s[23],
            ];
            assert(ip@ =~= v6.ip@);
            assert(ip == v6.ip);
            assert(decoded(s, little_endian) == Ok::<SocketAddr, Error>(a));
        },
    }
}

} // verus!
