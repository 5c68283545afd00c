//! Peer-to-peer packet I/O: transport policies and their size limits, the values
//! handed to the native send and receive calls, and the reading of what those
//! calls hand back.
use vstd::prelude::*;
use crate::bytes::{le_u64_at, read_u64_le};
use crate::SteamId;

verus! {

/// The method used to send a packet.
#[derive(Clone, Copy, Debug, PartialEq, Eq, Structural)]
pub enum SendType {
    /// Send the packet directly over udp; no larger than 1200 bytes.
    Unreliable,
    /// Like `Unreliable` but does not buffer packets sent before the
    /// connection has started.
    UnreliableNoDelay,
    /// Reliable packet sending; no larger than one megabyte.
    Reliable,
    /// Like `Reliable` but applies the nagle algorithm to packets being sent.
    ReliableWithBuffering,
}

/// Largest payload of the unreliable transports, in bytes.
pub const UNRELIABLE_MAX_PACKET: usize = 1200;

/// Largest payload of the reliable transports, in bytes.
pub const RELIABLE_MAX_PACKET: usize = 1048576;

/// The native transport policy `EP2PSend` of each send type.
pub open spec fn native_send_code(t: SendType) -> i32 {
    match t {
        SendType::Unreliable => 0,
        SendType::UnreliableNoDelay => 1,
        SendType::Reliable => 2,
        SendType::ReliableWithBuffering => 3,
    }
}

/// The largest payload, in bytes, that the native layer takes for a send type.
pub open spec fn max_packet_size(t: SendType) -> nat {
    match t {
        SendType::Unreliable | SendType::UnreliableNoDelay => UNRELIABLE_MAX_PACKET as nat,
        SendType::Reliable | SendType::ReliableWithBuffering => RELIABLE_MAX_PACKET as nat,
    }
}

/// Whether a payload of `len` bytes can be described to the native send call,
/// whose length parameter is a `u32`.
pub open spec fn payload_fits(len: nat) -> bool {
    len <= u32::MAX
}

impl SendType {
    /// The native transport policy of this send type.
    pub fn native_code(self) -> (r: i32)
        ensures
            r == native_send_code(self),
    {
        match self {
            SendType::Unreliable => 0,
            SendType::UnreliableNoDelay => 1,
            SendType::Reliable => 2,
            SendType::ReliableWithBuffering => 3,
        }
    }

    /// The largest payload, in bytes, that the native layer takes for this send type.
    pub fn max_packet_size(self) -> (r: usize)
        ensures
            r == max_packet_size(self),
    {
        match self {
            SendType::Unreliable | SendType::UnreliableNoDelay => UNRELIABLE_MAX_PACKET,
            SendType::Reliable | SendType::ReliableWithBuffering => RELIABLE_MAX_PACKET,
        }
    }
}

/// The arguments of one native send call: the payload is borrowed, never copied.
pub struct P2pSend<'a> {
    pub remote: SteamId,
    pub data: &'a [u8],
    pub len: u32,
    pub send_type: i32,
    pub channel: i32,
}

/// Marshals a send of `data` to `remote` with `send_type` on the default
/// channel. The payload is handed over byte for byte; only one whose length
/// cannot be described to the native call is refused, with `None`. Whether the
/// size suits the send type is left to the native layer, which rejects it.
pub fn marshal_send<'a>(remote: SteamId, send_type: SendType, data: &'a [u8]) -> (r: Option<
    P2pSend<'a>,
>)
    ensures
        r is Some <==> payload_fits(data@.len()),
        r matches Some(p) ==> {
            &&& p.remote == remote
            &&& p.data@ == data@
            &&& p.len as nat == data@.len()
            &&& p.send_type == native_send_code(send_type)
            &&& p.channel == 0
        },
{
    let n: usize = data.len();
    if n > u32::MAX as usize {
        None
    } else {
        Some(P2pSend { remote, data, len: n as u32, send_type: send_type.native_code(), channel: 0 })
    }
}

/// A payload at or under its send type's limit always reaches the native call,
/// unchanged: the marshaling refuses no size that any transport accepts.
pub proof fn lemma_limit_payload_marshaled(t: SendType, len: nat)
    requires
        len <= max_packet_size(t),
    ensures
        payload_fits(len),
{
}

/// The capacity of a receive buffer of `buf_len` bytes as told to the native
/// read call; a buffer larger than a `u32` can describe is offered in part.
pub fn read_capacity(buf_len: usize) -> (r: u32)
    ensures
        r as nat == if buf_len <= u32::MAX { buf_len as nat } else { u32::MAX as nat },
{
    if buf_len > u32::MAX as usize {
        u32::MAX
    } else {
        buf_len as u32
    }
}

/// Reads what the native availability query handed back: whether a packet is
/// queued, and the size of that packet.
pub fn packet_available(found: bool, size: u32) -> (r: Option<usize>)
    ensures
        r == (if found { Some(size as usize) } else { None::<usize> }),
{
    if found {
        Some(size as usize)
    } else {
        None
    }
}

/// Reads what the native read call handed back: whether a packet was read,
/// its size, and its sender.
pub fn packet_read(found: bool, size: u32, remote: u64) -> (r: Option<(SteamId, usize)>)
    ensures
        r == (if found { Some((SteamId(remote), size as usize)) } else { None::<(SteamId, usize)> }),
{
    if found {
        Some((SteamId(remote), size as usize))
    } else {
        None
    }
}

/// Event identifier of a peer's request to open a session.
pub const P2P_SESSION_REQUEST_ID: i32 = 1202;

/// Size in bytes of the native payload of a session request: the peer's id.
pub const P2P_SESSION_REQUEST_SIZE: usize = 8;

/// Called when a user wants to communicate via p2p.
#[derive(Clone, Copy, Debug, PartialEq, Eq, Structural)]
pub struct P2PSessionRequest {
    /// The steam ID of the user requesting a p2p session.
    pub remote: SteamId,
}

/// The session request held by a native payload: the requesting peer's id, as
/// a little-endian `u64` at its start.
pub open spec fn session_request_of(raw: Seq<u8>) -> P2PSessionRequest {
    P2PSessionRequest { remote: SteamId(le_u64_at(raw, 0) as u64) }
}

impl P2PSessionRequest {
    /// Decodes a session request from its native payload into an independent value.
    pub fn from_raw(raw: &[u8]) -> (r: P2PSessionRequest)
        requires
            raw@.len() >= P2P_SESSION_REQUEST_SIZE,
        ensures
            r == session_request_of(raw@),
    {
        P2PSessionRequest { remote: SteamId(read_u64_le(raw, 0)) }
    }
}

} // verus!
