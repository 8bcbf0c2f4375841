//! The translation engine: serial bytes in, HID reports out.
//!
//! The engine owns the frame buffer and the input state. The caller hands it
//! the received bytes one by one and sends the reports that come back.

use crate::event::InputEvent;
use crate::frame::{
    frame_event, is_delimiter, postcard_cobs_event, DecodeError, FrameBuffer, FRAME_CAPACITY,
    FRAME_DELIMITER,
};
use crate::report::{is_keyboard_report_of, KeyboardReport, MouseReport};
use crate::state::{after_handling, initial_state, mouse_report_of, InputState, StateModel};
use vstd::prelude::*;

verus! {

/// What one byte did to the engine.
#[derive(Clone, Copy, Debug, PartialEq, Eq)]
pub enum Outcome {
    /// The byte belongs to a frame that has not ended yet.
    Pending,
    /// A frame ended and its event was applied; no report is due.
    Applied,
    /// A frame ended with a synchronization marker: send these two reports.
    Reports(KeyboardReport, MouseReport),
    /// A frame ended and could not be decoded; it is lost.
    Lost(DecodeError),
}

/// The frame buffer after `byte` arrived: the delimiter empties it, any other
/// byte is appended while there is room.
pub open spec fn buffer_after(buffer: Seq<u8>, byte: u8) -> Seq<u8> {
    if byte == FRAME_DELIMITER {
        Seq::<u8>::empty()
    } else if buffer.len() < FRAME_CAPACITY {
        buffer.push(byte)
    } else {
        buffer
    }
}

/// The frame buffer after all of `bytes` arrived, in their order.
pub open spec fn buffer_after_all(buffer: Seq<u8>, bytes: Seq<u8>) -> Seq<u8>
    decreases bytes.len(),
{
    if bytes.len() == 0 {
        buffer
    } else {
        buffer_after(buffer_after_all(buffer, bytes.drop_last()), bytes.last())
    }
}

/// The input state after a frame ended with the decoding result `decoded`: a
/// lost frame changes nothing.
pub open spec fn state_after_frame(
    state: StateModel,
    decoded: Result<InputEvent, DecodeError>,
) -> StateModel {
    match decoded {
        Ok(event) => after_handling(state, event),
        Err(_) => state,
    }
}

/// Whether `outcome` is what the end of a frame with the decoding result
/// `decoded` gives in `state`.
pub open spec fn is_frame_outcome(
    outcome: Outcome,
    state: StateModel,
    decoded: Result<InputEvent, DecodeError>,
) -> bool {
    match decoded {
        Ok(InputEvent::Sync) => {
            &&& outcome matches Outcome::Reports(keyboard, mouse)
            &&& is_keyboard_report_of(keyboard, state.keys)
            &&& mouse == mouse_report_of(state.mouse)
        },
        Ok(_) => outcome is Applied,
        Err(e) => outcome == Outcome::Lost(e),
    }
}

/// Frame buffer and input state of one serial link.
pub struct Engine {
    frame: FrameBuffer,
    input: InputState,
}

impl Engine {
    /// The bytes of the frame that is being received.
    pub closed spec fn buffered(&self) -> Seq<u8> {
        self.frame@
    }

    /// The input state.
    pub closed spec fn state(&self) -> StateModel {
        self.input@
    }

    /// An engine that has received nothing.
    pub fn new() -> (engine: Self)
        ensures
            engine.buffered() == Seq::<u8>::empty(),
            engine.state() == initial_state(),
    {
        Engine { frame: FrameBuffer::new(), input: InputState::new() }
    }

    /// The input state, for inspection.
    pub fn input(&self) -> (input: &InputState)
        ensures
            input@ == self.state(),
    {
        &self.input
    }

    /// Number of bytes of the unfinished frame.
    pub fn buffered_len(&self) -> (n: usize)
        ensures
            n == self.buffered().len(),
            n <= FRAME_CAPACITY,
    {
        self.frame.len()
    }

    /// Finishes a frame whose decoding gave `decoded`: an event is handled by
    /// the input state, a failure changes nothing and is reported as a lost
    /// frame.
    pub fn finish_frame(&mut self, decoded: Result<InputEvent, DecodeError>) -> (outcome: Outcome)
        ensures
            final(self).buffered() == old(self).buffered(),
            final(self).state() == state_after_frame(old(self).state(), decoded),
            is_frame_outcome(outcome, old(self).state(), decoded),
            outcome is Reports <==> (decoded matches Ok(InputEvent::Sync)),
            decoded is Err ==> final(self).state() == old(self).state(),
            outcome !is Pending,
    {
        match decoded {
            Ok(event) => match self.input.handle(event) {
                Some(reports) => Outcome::Reports(reports.0, reports.1),
                None => Outcome::Applied,
            },
            Err(e) => Outcome::Lost(e),
        }
    }

    /// Takes the next byte from the serial link.
    ///
    /// Any byte but the delimiter is stored in the frame buffer, or dropped
    /// when the buffer is full. The delimiter ends the frame: the stored bytes
    /// are decoded, the buffer is emptied whatever the decoding gave, and the
    /// decoded event is handled.
    pub fn feed(&mut self, byte: u8) -> (outcome: Outcome)
        ensures
            final(self).buffered() == buffer_after(old(self).buffered(), byte),
            byte != FRAME_DELIMITER ==> outcome is Pending && final(self).state() == old(
                self,
            ).state(),
            byte == FRAME_DELIMITER ==> final(self).state() == state_after_frame(
                old(self).state(),
                frame_event(postcard_cobs_event(old(self).buffered())),
            ),
            byte == FRAME_DELIMITER ==> is_frame_outcome(
                outcome,
                old(self).state(),
                frame_event(postcard_cobs_event(old(self).buffered())),
            ),
            outcome is Pending <==> byte != FRAME_DELIMITER,
            byte == FRAME_DELIMITER && old(self).buffered().len() == 0 ==> outcome == Outcome::Lost(
                DecodeError::BadStuffing,
            ) && final(self).state() == old(self).state(),
            outcome is Reports <==> byte == FRAME_DELIMITER && (frame_event(
                postcard_cobs_event(old(self).buffered()),
            ) matches Ok(InputEvent::Sync)),
    {
        if is_delimiter(byte) {
            let decoded = self.frame.decode();
            self.finish_frame(decoded)
        } else {
            self.frame.push(byte);
            Outcome::Pending
        }
    }
}

/// An oversized frame is cut short: bytes other than the delimiter are
/// collected until the buffer is full, and the rest are dropped.
pub proof fn law_oversized_frame_is_cut(buffer: Seq<u8>, bytes: Seq<u8>)
    requires
        buffer.len() <= FRAME_CAPACITY,
        forall|i: int| 0 <= i < bytes.len() ==> bytes[i] != FRAME_DELIMITER,
    ensures
        buffer_after_all(buffer, bytes).len() <= FRAME_CAPACITY,
        buffer.len() + bytes.len() <= FRAME_CAPACITY ==> buffer_after_all(buffer, bytes) == buffer
            + bytes,
        buffer.len() + bytes.len() > FRAME_CAPACITY ==> buffer_after_all(buffer, bytes) == (buffer
            + bytes).take(FRAME_CAPACITY as int),
    decreases bytes.len(),
{
    if bytes.len() == 0 {
        assert(buffer + bytes =~= buffer);
    } else {
        let front = bytes.drop_last();
        let last = bytes.last();
        assert forall|i: int| 0 <= i < front.len() implies front[i] != FRAME_DELIMITER by {
            assert(front[i] == bytes[i]);
        }
        assert(bytes[bytes.len() - 1] != FRAME_DELIMITER);
        law_oversized_frame_is_cut(buffer, front);
        let all = buffer + bytes;
        if buffer.len() + bytes.len() <= FRAME_CAPACITY {
            assert((buffer + front).push(last) =~= all);
        } else if buffer.len() + front.len() < FRAME_CAPACITY {
            assert((buffer + front).push(last) =~= all.take(FRAME_CAPACITY as int));
        } else if buffer.len() + front.len() == FRAME_CAPACITY {
            assert(buffer + front =~= all.take(FRAME_CAPACITY as int));
        } else {
            assert((buffer + front).take(FRAME_CAPACITY as int) =~= all.take(
                FRAME_CAPACITY as int,
            ));
        }
    }
}

/// A delimiter puts the buffer back in step: what is received after it is
/// collected as if nothing had come before, however long or broken the bytes
/// before the delimiter were.
pub proof fn law_delimiter_resynchronizes(buffer: Seq<u8>, before: Seq<u8>, after: Seq<u8>)
    ensures
        buffer_after_all(buffer, before.push(FRAME_DELIMITER) + after) == buffer_after_all(
            Seq::<u8>::empty(),
            after,
        ),
    decreases after.len(),
{
    let bytes = before.push(FRAME_DELIMITER) + after;
    if after.len() == 0 {
        assert(bytes =~= before.push(FRAME_DELIMITER));
        assert(bytes.drop_last() =~= before);
    } else {
        assert(bytes.drop_last() =~= before.push(FRAME_DELIMITER) + after.drop_last());
        assert(bytes.last() == after.last());
        law_delimiter_resynchronizes(buffer, before, after.drop_last());
    }
}

/// After a delimiter, a frame that fits the buffer is collected whole: when
/// its own delimiter arrives, exactly its bytes are decoded.
pub proof fn law_frame_after_delimiter_is_whole(buffer: Seq<u8>, before: Seq<u8>, frame: Seq<u8>)
    requires
        frame.len() <= FRAME_CAPACITY,
        forall|i: int| 0 <= i < frame.len() ==> frame[i] != FRAME_DELIMITER,
    ensures
        buffer_after_all(buffer, before.push(FRAME_DELIMITER) + frame) == frame,
{
    law_delimiter_resynchronizes(buffer, before, frame);
    law_oversized_frame_is_cut(Seq::<u8>::empty(), frame);
    assert(Seq::<u8>::empty() + frame =~= frame);
}

} // verus!
