use vstd::prelude::*;

pub mod bytes_util;
pub mod codec;
pub mod crypto;
pub mod error;
pub mod gateway;
pub mod registration;
pub mod directory;
pub mod registry;
pub mod reply_route;
pub mod request;
pub mod session_state;

verus! {

/// Wire-format version tag accepted by the tunnel protocol codec.
pub const CURRENT_VERSION: u8 = 4;

/// The protocol version this build of the library speaks.
pub fn current_version() -> (v: u8)
    ensures
        v == CURRENT_VERSION,
{
    CURRENT_VERSION
}

} // verus!
