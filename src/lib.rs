//! A verified core for the peer-to-peer messaging and host-utility surfaces of a
//! native platform SDK: the decoding of native event payloads, the callback
//! registry that routes them to application handlers, the warning hook slot, and
//! the marshaling of values handed to and taken back from native calls.
use vstd::prelude::*;

pub mod bytes;
pub mod callbacks;
pub mod networking;
pub mod text;
pub mod utils;
pub mod warning;

verus! {

/// An opaque 64-bit identifier of a remote participant.
#[derive(Clone, Copy, Debug, PartialEq, Eq, Structural)]
pub struct SteamId(pub u64);

/// The identifier of an application.
#[derive(Clone, Copy, Debug, PartialEq, Eq, Structural)]
pub struct AppId(pub u32);

} // verus!
