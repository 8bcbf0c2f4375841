//! The relay of the second serial channel: what was received over the virtual
//! serial port goes out unchanged on the serial line.

use vstd::prelude::*;
use vstd::slice::slice_subrange;

verus! {

/// Size of the buffer that one packet of the virtual serial port is read
/// into.
pub const RELAY_CHUNK: usize = 65;

/// The bytes to send on for a packet of `len` bytes that was read into
/// `chunk`: the packet as it is, or nothing for an empty packet.
pub fn relay_payload(chunk: &[u8; 65], len: usize) -> (payload: Option<&[u8]>)
    requires
        len <= RELAY_CHUNK,
    ensures
        len == 0 ==> payload is None,
        len > 0 ==> (payload matches Some(bytes) && bytes@ == chunk@.subrange(0, len as int)),
{
    if len > 0 {
        Some(slice_subrange(chunk.as_slice(), 0, len))
    } else {
        None
    }
}

} // verus!
