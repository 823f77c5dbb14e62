//! Constants of the VMB wire protocol.

use vstd::prelude::*;

pub mod id;

verus! {

/// The largest frame: a 4-byte header, a 4-byte timestamp, an 8-byte address
/// and the largest possible payload of 256 octas.
pub const MAX_MESSAGE_SIZE: u16 = 4 + 4 + 8 + 8 * 256;

/// The smallest frame: a header alone.
pub const MIN_MESSAGE_SIZE: u16 = 4;

/// The largest payload: 256 octas.
pub const MAX_PAYLOAD_SIZE: u16 = 8 * 256;

} // verus!
