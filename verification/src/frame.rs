//! Framing of the serial byte stream and decoding of one frame.
//!
//! A frame is a run of bytes closed by the delimiter byte. Its bytes are the
//! byte-stuffed (COBS) form of a serialized event, which therefore holds no
//! delimiter itself. The serialized event is the postcard encoding of three
//! numbers: the event's type (`u16`), its code (`u16`) and its value (`i32`).
//! Whoever sends the events has to write them in this form.

use crate::event::{classify, event_of, InputEvent, RawEvent};
use vstd::prelude::*;
use vstd::slice::slice_subrange;

verus! {

/// Number of bytes that the frame buffer holds.
pub const FRAME_CAPACITY: usize = 64;

/// The byte that closes a frame.
pub const FRAME_DELIMITER: u8 = 0;

/// Why a frame gave no event.
#[derive(Clone, Copy, Debug, PartialEq, Eq, Structural)]
pub enum DecodeError {
    /// The byte stuffing of the frame is broken, or the frame is empty.
    BadStuffing,
    /// The unstuffed bytes are no serialized event.
    BadPayload,
}

/// What `postcard::from_bytes_cobs` makes of the bytes of one frame when it is
/// asked for an event's type, code and value.
pub uninterp spec fn postcard_cobs_event(frame: Seq<u8>) -> Result<RawEvent, DecodeError>;

/// The event that a decoded frame stands for.
pub open spec fn frame_event(decoded: Result<RawEvent, DecodeError>) -> Result<
    InputEvent,
    DecodeError,
> {
    match decoded {
        Ok(raw) => Ok(event_of(raw)),
        Err(e) => Err(e),
    }
}

/// Calls `postcard::from_bytes_cobs` on the first `len` bytes of `buf`, for a
/// tuple of an event's type (`u16`), code (`u16`) and value (`i32`).
///
/// The call unstuffs the bytes in place and then deserializes the tuple from
/// them, so `buf` holds other bytes afterwards. Nothing is proved here: the
/// contract only names the call's result, which depends on those bytes alone,
/// and adds that no bytes at all are refused as badly stuffed, which is the
/// first thing the unstuffing tests. A broken stuffing is reported by postcard
/// as `DeserializeBadEncoding`; every other error comes from the deserializer.
#[verifier::external_body]
fn decode_cobs_event(buf: &mut [u8; 64], len: usize) -> (decoded: Result<RawEvent, DecodeError>)
    requires
        len <= 64,
    ensures
        decoded == postcard_cobs_event(old(buf)@.subrange(0, len as int)),
        len == 0 ==> (decoded matches Err(DecodeError::BadStuffing)),
{
    match postcard::from_bytes_cobs::<(u16, u16, i32)>(&mut buf[..len]) {
        Ok((kind, code, value)) => Ok(RawEvent { kind, code, value }),
        Err(postcard::Error::DeserializeBadEncoding) => Err(DecodeError::BadStuffing),
        Err(_) => Err(DecodeError::BadPayload),
    }
}

/// Whether `byte` closes a frame.
pub fn is_delimiter(byte: u8) -> (closes: bool)
    ensures
        closes == (byte == FRAME_DELIMITER),
{
    byte == FRAME_DELIMITER
}

/// Turns the outcome of unstuffing and deserializing a frame into the outcome
/// of decoding it.
pub fn interpret(decoded: Result<RawEvent, DecodeError>) -> (event: Result<InputEvent, DecodeError>)
    ensures
        event == frame_event(decoded),
{
    match decoded {
        Ok(raw) => Ok(classify(raw)),
        Err(e) => Err(e),
    }
}

/// The bytes of the frame that is being received.
///
/// Bytes beyond the capacity are dropped, so an oversized frame is cut short
/// without an error.
pub struct FrameBuffer {
    bytes: [u8; 64],
    len: usize,
}

impl FrameBuffer {
    #[verifier::type_invariant]
    spec fn within_capacity(self) -> bool {
        self.len <= FRAME_CAPACITY
    }

    /// The bytes collected so far, oldest first.
    pub closed spec fn view(&self) -> Seq<u8> {
        self.bytes@.subrange(0, self.len as int)
    }

    /// An empty buffer.
    pub fn new() -> (buffer: Self)
        ensures
            buffer@ == Seq::<u8>::empty(),
    {
        FrameBuffer { bytes: [0u8; 64], len: 0 }
    }

    /// Number of bytes collected so far.
    pub fn len(&self) -> (n: usize)
        ensures
            n == self@.len(),
            n <= FRAME_CAPACITY,
    {
        proof {
            use_type_invariant(self);
        }
        self.len
    }

    /// The bytes collected so far, oldest first.
    pub fn as_slice(&self) -> (bytes: &[u8])
        ensures
            bytes@ == self@,
    {
        proof {
            use_type_invariant(self);
        }
        slice_subrange(self.bytes.as_slice(), 0, self.len)
    }

    /// Appends `byte` if there is room for it, and drops it otherwise.
    pub fn push(&mut self, byte: u8)
        ensures
            old(self)@.len() < FRAME_CAPACITY ==> final(self)@ == old(self)@.push(byte),
            old(self)@.len() >= FRAME_CAPACITY ==> final(self)@ == old(self)@,
    {
        proof {
            use_type_invariant(&*self);
        }
        if self.len < FRAME_CAPACITY {
            self.bytes[self.len] = byte;
            self.len = self.len + 1;
        }
    }

    /// Forgets the collected bytes.
    pub fn clear(&mut self)
        ensures
            final(self)@ == Seq::<u8>::empty(),
    {
        self.len = 0;
    }

    /// Decodes the collected bytes as one frame and empties the buffer,
    /// whether or not they held an event.
    pub fn decode(&mut self) -> (event: Result<InputEvent, DecodeError>)
        ensures
            event == frame_event(postcard_cobs_event(old(self)@)),
            old(self)@.len() == 0 ==> (event matches Err(DecodeError::BadStuffing)),
            final(self)@ == Seq::<u8>::empty(),
    {
        proof {
            use_type_invariant(&*self);
        }
        let mut scratch = self.bytes;
        let decoded = decode_cobs_event(&mut scratch, self.len);
        self.len = 0;
        interpret(decoded)
    }
}

} // verus!
