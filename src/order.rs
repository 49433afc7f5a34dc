use vstd::prelude::*;

verus! {

/// The two bytes that hold `v` in memory, on a host of the given byte order.
pub open spec fn u16_bytes(v: u16, little_endian: bool) -> Seq<u8> {
    if little_endian {
        seq![(v % 256) as u8, (v / 256) as u8]
    } else {
        seq![(v / 256) as u8, (v % 256) as u8]
    }
}

/// The value that the bytes `b0`, `b1` (in that memory order) hold on a host of the given order.
pub open spec fn u16_value(b0: u8, b1: u8, little_endian: bool) -> u16 {
    if little_endian {
        (b0 + b1 * 256) as u16
    } else {
        (b0 * 256 + b1) as u16
    }
}

/// The four bytes that hold `v` in memory, on a host of the given byte order.
pub open spec fn u32_bytes(v: u32, little_endian: bool) -> Seq<u8> {
    let b0 = (v % 256) as u8;
    let b1 = ((v / 256) % 256) as u8;
    let b2 = ((v / 65536) % 256) as u8;
    let b3 = (v / 16777216) as u8;
    if little_endian {
        seq![b0, b1, b2, b3]
    } else {
        seq![b3, b2, b1, b0]
    }
}

/// The value that four bytes in memory hold on a host of the given order.
pub open spec fn u32_value(b: Seq<u8>, little_endian: bool) -> u32 {
    if little_endian {
        (b[0] + b[1] * 256 + b[2] * 65536 + b[3] * 16777216) as u32
    } else {
        (b[3] + b[2] * 256 + b[1] * 65536 + b[0] * 16777216) as u32
    }
}

/// `v` with its two bytes exchanged.
pub open spec fn swap16(v: u16) -> u16 {
    ((v % 256) * 256 + v / 256) as u16
}

/// A 16-bit value in network order, as the host stores it: swapped on a
/// little-endian host, unchanged on a big-endian one. The same map brings a
/// network-order field back to host order.
pub open spec fn network_u16(v: u16, little_endian: bool) -> u16 {
    if little_endian {
        swap16(v)
    } else {
        v
    }
}

/// A value converted to network order lies in memory most significant byte
/// first, whatever the host's order.
pub proof fn lemma_network_u16_bytes(v: u16, little_endian: bool)
    ensures
        u16_bytes(network_u16(v, little_endian), little_endian) == u16_bytes(v, false),
{
}

/// Reading back the bytes of a 16-bit value gives the value.
pub proof fn lemma_u16_bytes_value(v: u16, little_endian: bool)
    ensures
        u16_bytes(v, little_endian).len() == 2,
        u16_value(u16_bytes(v, little_endian)[0], u16_bytes(v, little_endian)[1], little_endian)
            == v,
{
}

/// Reading back the bytes of a 32-bit value gives the value.
pub proof fn lemma_u32_bytes_value(v: u32, little_endian: bool)
    ensures
        u32_bytes(v, little_endian).len() == 4,
        u32_value(u32_bytes(v, little_endian), little_endian) == v,
{
}

/// Converts a 16-bit value between host order and network order.
pub fn network_order_u16(v: u16, little_endian: bool) -> (r: u16)
    ensures
        r == network_u16(v, little_endian),
{
    if little_endian {
        let lo: u16 = v % 256;
        let hi: u16 = v / 256;
        lo * 256 + hi
    } else {
        v
    }
}

/// Appends the memory image of `v` for a host of the given order.
pub fn push_u16(out: &mut Vec<u8>, v: u16, little_endian: bool)
    ensures
        final(out)@ == old(out)@ + u16_bytes(v, little_endian),
{
    let lo = (v % 256) as u8;
    let hi = (v / 256) as u8;
    if little_endian {
        out.push(lo);
        out.push(hi);
    } else {
        out.push(hi);
        out.push(lo);
    }
    assert(final(out)@ =~= old(out)@ + u16_bytes(v, little_endian));
}

/// Appends the memory image of `v` for a host of the given order.
pub fn push_u32(out: &mut Vec<u8>, v: u32, little_endian: bool)
    ensures
        final(out)@ == old(out)@ + u32_bytes(v, little_endian),
{
    let b0 = (v % 256) as u8;
    let b1 = ((v / 256) % 256) as u8;
    let b2 = ((v / 65536) % 256) as u8;
    let b3 = (v / 16777216) as u8;
    if little_endian {
        out.push(b0);
        out.push(b1);
        out.push(b2);
        out.push(b3);
    } else {
        out.push(b3);
        out.push(b2);
        out.push(b1);
        out.push(b0);
    }
    assert(final(out)@ =~= old(out)@ + u32_bytes(v, little_endian));
}

/// Reads the 16-bit value stored at `at` on a host of the given order.
pub fn read_u16(s: &[u8], at: usize, little_endian: bool) -> (r: u16)
    requires
        at + 2 <= s@.len(),
    ensures
        r == u16_value(s@[at as int], s@[at + 1], little_endian),
{
    let b0 = s[at] as u16;
    let b1 = s[at + 1] as u16;
    if little_endian {
        b0 + b1 * 256
    } else {
        b0 * 256 + b1
    }
}

/// Reads the 32-bit value stored at `at` on a host of the given order.
pub fn read_u32(s: &[u8], at: usize, little_endian: bool) -> (r: u32)
    requires
        at + 4 <= s@.len(),
    ensures
        r == u32_value(s@.subrange(at as int, at + 4), little_endian),
{
    let b0 = s[at] as u32;
    let b1 = s[at + 1] as u32;
    let b2 = s[at + 2] as u32;
    let b3 = s[at + 3] as u32;
    if little_endian {
        b0 + b1 * 256 + b2 * 65536 + b3 * 16777216
    } else {
        b3 + b2 * 256 + b1 * 65536 + b0 * 16777216
    }
}

} // verus!
