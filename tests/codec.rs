use socket3::addr::{
    decode, encode, SocketAddr, SocketAddrV4, SocketAddrV6, AF_INET, AF_INET6, SOCKADDR_IN6_LEN,
    SOCKADDR_IN_LEN,
};
use socket3::error::Error;
use socket3::order::{network_order_u16, push_u16, push_u32, read_u16, read_u32};

fn host_is_little_endian() -> bool {
    u16::from_ne_bytes([1, 0]) == 1
}

fn v4(ip: [u8; 4], port: u16) -> SocketAddr {
    SocketAddr::V4(SocketAddrV4 { ip, port })
}

fn v6(ip: [u8; 16], port: u16, flowinfo: u32, scope_id: u32) -> SocketAddr {
    SocketAddr::V6(SocketAddrV6 { ip, port, flowinfo, scope_id })
}

#[test]
fn layout_sizes_match_the_os_structures() {
    assert_eq!(SOCKADDR_IN_LEN, std::mem::size_of::<libc::sockaddr_in>());
    assert_eq!(SOCKADDR_IN6_LEN, std::mem::size_of::<libc::sockaddr_in6>());
    assert_eq!(AF_INET as i32, libc::AF_INET);
    assert_eq!(AF_INET6 as i32, libc::AF_INET6);
}

#[test]
fn encode_ipv4_little_endian_layout() {
    let bytes = encode(&v4([127, 0, 0, 1], 8080), true);
    assert_eq!(bytes, vec![2, 0, 0x1f, 0x90, 127, 0, 0, 1, 0, 0, 0, 0, 0, 0, 0, 0]);
}

#[test]
fn encode_ipv4_big_endian_layout() {
    let bytes = encode(&v4([10, 1, 2, 3], 443), false);
    assert_eq!(bytes, vec![0, 2, 0x01, 0xbb, 10, 1, 2, 3, 0, 0, 0, 0, 0, 0, 0, 0]);
}

#[test]
fn encode_ipv6_layouts() {
    let mut ip = [0u8; 16];
    ip[15] = 1;
    let a = v6(ip, 80, 0x0102_0304, 7);
    let little = encode(&a, true);
    let mut expected = vec![10, 0, 0, 80, 4, 3, 2, 1];
    expected.extend_from_slice(&ip);
    expected.extend_from_slice(&[7, 0, 0, 0]);
    assert_eq!(little, expected);
    let big = encode(&a, false);
    let mut expected = vec![0, 10, 0, 80, 1, 2, 3, 4];
    expected.extend_from_slice(&ip);
    expected.extend_from_slice(&[0, 0, 0, 7]);
    assert_eq!(big, expected);
}

#[test]
fn encode_native_family_matches_host() {
    let little = host_is_little_endian();
    let b4 = encode(&v4([1, 2, 3, 4], 1), little);
    assert_eq!(u16::from_ne_bytes([b4[0], b4[1]]) as i32, libc::AF_INET);
    let b6 = encode(&v6([0; 16], 1, 0x0a0b_0c0d, 3), little);
    assert_eq!(u16::from_ne_bytes([b6[0], b6[1]]) as i32, libc::AF_INET6);
    assert_eq!(u32::from_ne_bytes([b6[4], b6[5], b6[6], b6[7]]), 0x0a0b_0c0d);
    assert_eq!(u32::from_ne_bytes([b6[24], b6[25], b6[26], b6[27]]), 3);
}

#[test]
fn port_80_is_network_order_on_both_hosts() {
    for little in [true, false] {
        let bytes = encode(&v4([192, 168, 0, 1], 80), little);
        assert_eq!(&bytes[2..4], &[0x00, 0x50]);
        let bytes = encode(&v6([0xff; 16], 80, 0, 0), little);
        assert_eq!(&bytes[2..4], &[0x00, 0x50]);
    }
}

#[test]
fn round_trip_boundary_values() {
    let addrs = vec![
        v4([0, 0, 0, 0], 0),
        v4([255, 255, 255, 255], 65535),
        v4([127, 0, 0, 1], 80),
        v6([0; 16], 0, 0, 0),
        v6([0xff; 16], 65535, u32::MAX, u32::MAX),
        v6([0xfe, 0x80, 0, 0, 0, 0, 0, 0, 0, 0, 0, 0, 0, 0, 0, 1], 22, 0x000f_ffff, 2),
    ];
    for a in addrs {
        for little in [true, false] {
            let bytes = encode(&a, little);
            assert_eq!(decode(&bytes, little), Ok(a));
        }
    }
}

#[test]
fn decode_rejects_other_families() {
    let little = host_is_little_endian();
    let mut storage = vec![0u8; 128];
    let packet = (libc::AF_PACKET as u16).to_ne_bytes();
    storage[0] = packet[0];
    storage[1] = packet[1];
    assert_eq!(decode(&storage, little), Err(Error::UnsupportedAddressFamily));
    let unspec = vec![0u8; 128];
    assert_eq!(decode(&unspec, little), Err(Error::UnsupportedAddressFamily));
}

#[test]
fn decode_rejects_short_structures() {
    assert_eq!(decode(&[2], true), Err(Error::TruncatedAddress));
    let bytes = encode(&v4([1, 2, 3, 4], 5), true);
    assert_eq!(decode(&bytes[..15], true), Err(Error::TruncatedAddress));
    let bytes = encode(&v6([1; 16], 5, 6, 7), false);
    assert_eq!(decode(&bytes[..27], false), Err(Error::TruncatedAddress));
}

#[test]
fn decode_reads_a_longer_storage() {
    let mut storage = encode(&v6([9; 16], 1234, 5, 6), true);
    storage.resize(128, 0xaa);
    assert_eq!(decode(&storage, true), Ok(v6([9; 16], 1234, 5, 6)));
}

#[test]
fn network_order_swaps_on_little_endian_only() {
    assert_eq!(network_order_u16(0x1234, true), 0x3412);
    assert_eq!(network_order_u16(0x1234, false), 0x1234);
    assert_eq!(network_order_u16(80, host_is_little_endian()), 80u16.to_be());
}

#[test]
fn byte_helpers_follow_the_host_order() {
    let mut out = vec![];
    push_u16(&mut out, 0x0102, true);
    push_u16(&mut out, 0x0102, false);
    push_u32(&mut out, 0x0a0b_0c0d, true);
    push_u32(&mut out, 0x0a0b_0c0d, false);
    assert_eq!(out, vec![2, 1, 1, 2, 0x0d, 0x0c, 0x0b, 0x0a, 0x0a, 0x0b, 0x0c, 0x0d]);
    assert_eq!(read_u16(&out, 0, true), 0x0102);
    assert_eq!(read_u16(&out, 2, false), 0x0102);
    assert_eq!(read_u32(&out, 4, true), 0x0a0b_0c0d);
    assert_eq!(read_u32(&out, 8, false), 0x0a0b_0c0d);
}
