use std::collections::VecDeque;

use steamworks::networking::{
    marshal_send, packet_available, packet_read, read_capacity, P2PSessionRequest, SendType,
};
use steamworks::SteamId;

#[test]
fn payload_at_each_limit_is_marshaled_unchanged() {
    let types = [
        SendType::Unreliable,
        SendType::UnreliableNoDelay,
        SendType::Reliable,
        SendType::ReliableWithBuffering,
    ];
    for (code, t) in types.iter().enumerate() {
        let n = t.max_packet_size();
        let data: Vec<u8> = (0..n).map(|i| (i % 251) as u8).collect();
        let p = marshal_send(SteamId(77), *t, &data).expect("payload within a u32");
        assert_eq!(p.data, &data[..]);
        assert_eq!(p.len as usize, n);
        assert_eq!(p.remote, SteamId(77));
        assert_eq!(p.send_type, code as i32);
        assert_eq!(p.channel, 0);
    }
}

#[test]
fn send_type_limits() {
    assert_eq!(SendType::Unreliable.max_packet_size(), 1200);
    assert_eq!(SendType::UnreliableNoDelay.max_packet_size(), 1200);
    assert_eq!(SendType::Reliable.max_packet_size(), 1048576);
    assert_eq!(SendType::ReliableWithBuffering.max_packet_size(), 1048576);
}

#[test]
fn send_type_native_codes() {
    assert_eq!(SendType::Unreliable.native_code(), 0);
    assert_eq!(SendType::UnreliableNoDelay.native_code(), 1);
    assert_eq!(SendType::Reliable.native_code(), 2);
    assert_eq!(SendType::ReliableWithBuffering.native_code(), 3);
}

#[test]
fn empty_payload_is_marshaled() {
    let p = marshal_send(SteamId(1), SendType::Reliable, &[]).unwrap();
    assert_eq!(p.len, 0);
    assert!(p.data.is_empty());
}

/// A stand-in for the native receive queue.
struct MockQueue {
    packets: VecDeque<(u64, Vec<u8>)>,
}

impl MockQueue {
    fn is_available(&self) -> (bool, u32) {
        match self.packets.front() {
            Some((_, p)) => (true, p.len() as u32),
            None => (false, 0),
        }
    }

    fn read(&mut self, buf: &mut [u8], cap: u32) -> (bool, u32, u64) {
        match self.packets.pop_front() {
            Some((peer, p)) => {
                let n = p.len().min(cap as usize);
                buf[..n].copy_from_slice(&p[..n]);
                (true, p.len() as u32, peer)
            }
            None => (false, 0, 0),
        }
    }
}

#[test]
fn poll_then_read_one_queued_packet() {
    let mut q = MockQueue { packets: VecDeque::new() };
    q.packets.push_back((42, vec![9u8; 37]));
    let (found, size) = q.is_available();
    let avail = packet_available(found, size);
    assert_eq!(avail, Some(37));
    let mut buf = vec![0u8; avail.unwrap()];
    let cap = read_capacity(buf.len());
    let (found, size, peer) = q.read(&mut buf, cap);
    assert_eq!(packet_read(found, size, peer), Some((SteamId(42), 37)));
    assert_eq!(buf, vec![9u8; 37]);
    let (found, size, peer) = q.read(&mut buf, cap);
    assert_eq!(packet_read(found, size, peer), None);
    let (found, size) = q.is_available();
    assert_eq!(packet_available(found, size), None);
}

#[test]
fn read_capacity_of_small_buffer() {
    assert_eq!(read_capacity(0), 0);
    assert_eq!(read_capacity(1200), 1200);
    assert_eq!(read_capacity(usize::MAX), u32::MAX);
}

#[test]
fn session_request_decodes_little_endian_id() {
    let raw = [1u8, 2, 3, 4, 5, 6, 7, 8];
    let r = P2PSessionRequest::from_raw(&raw);
    assert_eq!(r.remote, SteamId(0x0807060504030201));
}

#[test]
fn session_request_decodes_largest_id() {
    let raw = [0xffu8; 8];
    assert_eq!(P2PSessionRequest::from_raw(&raw).remote, SteamId(u64::MAX));
}
