//! The decode and display callbacks: when a picture may be decoded into a
//! surface, and what is queued for the consumer when one is ready.
use vstd::prelude::*;

use super::channel::Delivery;
use super::decoder::DecoderHandle;
use super::tracker::{FrameTracker, MAX_SURFACES};

verus! {

/// What a callback returns to the engine when it succeeded.
pub const CALLBACK_SUCCESS: i32 = 1;

/// What a callback returns to the engine when it failed.
pub const CALLBACK_FAILURE: i32 = 0;

/// Microseconds to sleep between two looks at a surface that is in use.
pub const DECODE_POLL_MICROS: u64 = 500;

/// Microseconds of waiting for a surface after which a warning is due.
pub const DECODE_STALL_MICROS: u64 = 5_000_000;

/// The tracker slot of a picture index, for the indices that a tracker can
/// follow.
pub open spec fn slot_of_index(picture_index: i32) -> Option<usize> {
    if 0 <= picture_index < MAX_SURFACES {
        Some(picture_index as usize)
    } else {
        None
    }
}

/// The tracker slot of a picture index; `None` for an index that no tracker
/// can follow.
pub fn surface_slot(picture_index: i32) -> (slot: Option<usize>)
    ensures
        slot == slot_of_index(picture_index),
{
    if 0 <= picture_index && picture_index < 64 {
        Some(picture_index as usize)
    } else {
        None
    }
}

/// What the decode callback does next.
#[derive(Clone, Copy, Debug, PartialEq, Eq, Structural)]
pub enum DecodeStep {
    /// The decoder is gone: report failure without submitting.
    Abort,
    /// The surface is still in use: sleep and look again. `warn` is set the
    /// first time the wait has lasted too long.
    Wait { warn: bool },
    /// The surface is claimed: submit the picture. `stalled` tells that the
    /// wait lasted too long.
    Submit { stalled: bool },
}

/// What the decode callback does next for surface `slot`, given the claimed
/// surfaces, the decoder, the time waited and whether a warning was given.
pub open spec fn step_for(
    claimed: Set<int>,
    slot: int,
    decoder: Option<DecoderHandle>,
    waited_micros: u64,
    warned: bool,
) -> DecodeStep {
    if claimed.contains(slot) {
        DecodeStep::Wait { warn: waited_micros > DECODE_STALL_MICROS && !warned }
    } else if decoder is None {
        DecodeStep::Abort
    } else {
        DecodeStep::Submit { stalled: waited_micros > DECODE_STALL_MICROS }
    }
}

/// Why a decode callback does not even start to wait.
#[derive(Clone, Copy, Debug, PartialEq, Eq, Structural)]
pub enum DecodeRefusal {
    /// No decoder exists: the callback reports failure.
    NoDecoder,
    /// The picture index is outside the range that a tracker follows. This
    /// is not expected of the engine.
    IndexOutOfRange,
}

/// One decode callback's wait for its surface.
#[derive(Clone, Copy, Debug)]
pub struct DecodeWait {
    slot: usize,
    warned: bool,
}

impl DecodeWait {
    #[verifier::type_invariant]
    spec fn slot_in_range(self) -> bool {
        self.slot < MAX_SURFACES
    }

    /// The surface that is waited for.
    pub closed spec fn slot(self) -> int {
        self.slot as int
    }

    /// Whether the warning about a long wait has been given.
    pub closed spec fn warned(self) -> bool {
        self.warned
    }

    /// Starts the wait for the surface of picture `picture_index`. It is
    /// refused where there is no decoder to submit to, and else where the
    /// index names no surface that a tracker can follow.
    pub fn begin(decoder: Option<DecoderHandle>, picture_index: i32) -> (wait: Result<
        Self,
        DecodeRefusal,
    >)
        ensures
            match wait {
                Ok(w) => decoder is Some && slot_of_index(picture_index) == Some(w.slot() as usize)
                    && !w.warned(),
                Err(DecodeRefusal::NoDecoder) => decoder is None,
                Err(DecodeRefusal::IndexOutOfRange) => decoder is Some && slot_of_index(
                    picture_index,
                ) is None,
            },
    {
        if decoder.is_none() {
            return Err(DecodeRefusal::NoDecoder);
        }
        match surface_slot(picture_index) {
            Some(slot) => Ok(DecodeWait { slot, warned: false }),
            None => Err(DecodeRefusal::IndexOutOfRange),
        }
    }

    /// The surface that is waited for.
    pub fn surface(&self) -> (slot: usize)
        ensures
            slot == self.slot(),
            slot < MAX_SURFACES,
    {
        proof {
            use_type_invariant(self);
        }
        self.slot
    }

    /// Looks at the surface once. While it is in use the answer is `Wait`;
    /// once it is free it is claimed, unless the decoder went away while
    /// waiting.
    pub fn poll(
        &mut self,
        tracker: &mut FrameTracker,
        decoder: Option<DecoderHandle>,
        waited_micros: u64,
    ) -> (step: DecodeStep)
        ensures
            step == step_for(
                old(tracker)@,
                old(self).slot(),
                decoder,
                waited_micros,
                old(self).warned(),
            ),
            final(self).slot() == old(self).slot(),
            final(self).warned() == (old(self).warned() || step == (DecodeStep::Wait {
                warn: true,
            })),
            final(tracker)@ == if step is Submit {
                old(tracker)@.insert(old(self).slot())
            } else {
                old(tracker)@
            },
            !(step is Submit) ==> *final(tracker) == *old(tracker),
    {
        proof {
            use_type_invariant(&*self);
        }
        if tracker.is_in_use(self.slot) {
            let warn = waited_micros > DECODE_STALL_MICROS && !self.warned;
            if warn {
                self.warned = true;
            }
            DecodeStep::Wait { warn }
        } else if decoder.is_none() {
            DecodeStep::Abort
        } else {
            tracker.mark_in_use(self.slot);
            DecodeStep::Submit { stalled: waited_micros > DECODE_STALL_MICROS }
        }
    }
}

/// What the decode callback returns: success where the device context was
/// activated, the engine took the picture and the context was released.
pub fn decode_reply(context_acquired: bool, submitted: bool, context_released: bool) -> (reply: i32)
    ensures
        reply == if context_acquired && submitted && context_released {
            CALLBACK_SUCCESS
        } else {
            CALLBACK_FAILURE
        },
{
    if context_acquired && submitted && context_released {
        CALLBACK_SUCCESS
    } else {
        CALLBACK_FAILURE
    }
}

/// What the operating-point callback returns: the offer is always declined.
pub fn operating_point_reply() -> (reply: i32)
    ensures
        reply == 0,
{
    0
}

/// The surfaces claimed after pictures were submitted to `slots` one after
/// the other, `start` being claimed before and none released meanwhile.
pub open spec fn claimed_through(start: Set<int>, slots: Seq<int>) -> Set<int>
    decreases slots.len(),
{
    if slots.len() == 0 {
        start
    } else {
        claimed_through(start, slots.drop_last()).insert(slots.last())
    }
}

proof fn lemma_claimed_through(start: Set<int>, slots: Seq<int>, slot: int)
    ensures
        claimed_through(start, slots).contains(slot) <==> start.contains(slot) || slots.contains(
            slot,
        ),
    decreases slots.len(),
{
    if slots.len() > 0 {
        lemma_claimed_through(start, slots.drop_last(), slot);
        if slots.drop_last().contains(slot) {
            let i = choose|i: int| 0 <= i < slots.drop_last().len() && slots.drop_last()[i] == slot;
            assert(slots[i] == slot);
        }
        if slots.contains(slot) {
            let i = choose|i: int| 0 <= i < slots.len() && slots[i] == slot;
            if i < slots.len() - 1 {
                assert(slots.drop_last()[i] == slot);
            }
        }
    }
}

/// Submissions to surfaces that differ from one another and from those
/// claimed before never wait: each finds its surface free and, with a
/// decoder there, claims it at the first look.
pub proof fn law_distinct_submissions_never_wait(
    start: Set<int>,
    slots: Seq<int>,
    k: int,
    decoder: DecoderHandle,
    waited_micros: u64,
)
    requires
        slots.no_duplicates(),
        forall|i: int| 0 <= i < slots.len() ==> !start.contains(#[trigger] slots[i]),
        0 <= k < slots.len(),
    ensures
        !claimed_through(start, slots.take(k)).contains(slots[k]),
        step_for(
            claimed_through(start, slots.take(k)),
            slots[k],
            Some(decoder),
            waited_micros,
            false,
        ) is Submit,
{
    lemma_claimed_through(start, slots.take(k), slots[k]);
    if slots.take(k).contains(slots[k]) {
        let i = choose|i: int| 0 <= i < slots.take(k).len() && slots.take(k)[i] == slots[k];
        assert(slots[i] == slots[k]);
    }
}

/// Surface of the `k`-th submission where the engine walks its ring of
/// `surfaces` surfaces from `first` on.
pub open spec fn ring_slot(first: int, k: int, surfaces: int) -> int {
    if first + k < surfaces {
        first + k
    } else {
        first + k - surfaces
    }
}

/// The surfaces of `count` submissions in a row along the ring.
pub open spec fn ring_slots(first: int, count: int, surfaces: int) -> Seq<int> {
    Seq::new(count as nat, |k: int| ring_slot(first, k, surfaces))
}

/// Headroom suffices: with every surface free at first, no more submissions
/// in a row than surfaces were negotiated each find their surface free,
/// wherever in the ring the engine starts. None of them waits on the
/// tracker.
pub proof fn law_headroom_never_blocks(
    surfaces: int,
    first: int,
    count: int,
    k: int,
    decoder: DecoderHandle,
    waited_micros: u64,
)
    requires
        0 < surfaces <= MAX_SURFACES,
        0 <= first < surfaces,
        0 <= count <= surfaces,
        0 <= k < count,
    ensures
        0 <= ring_slot(first, k, surfaces) < MAX_SURFACES,
        step_for(
            claimed_through(Set::empty(), ring_slots(first, count, surfaces).take(k)),
            ring_slot(first, k, surfaces),
            Some(decoder),
            waited_micros,
            false,
        ) is Submit,
{
    let slots = ring_slots(first, count, surfaces);
    assert forall|i: int, j: int| 0 <= i < slots.len() && 0 <= j < slots.len() && i != j implies
        slots[i] != slots[j] by {}
    law_distinct_submissions_never_wait(Set::empty(), slots, k, decoder, waited_micros);
}

/// What the engine reports of a picture that is ready for display.
#[derive(Clone, Copy, Debug, PartialEq, Eq, Structural)]
pub struct DisplayInfo {
    pub picture_index: i32,
    pub progressive_frame: i32,
    pub top_field_first: i32,
    /// Number of additional fields; negative for an unpaired field.
    pub repeat_first_field: i32,
    pub timestamp: i64,
}

/// How a surface is to be post-processed when it is mapped.
#[derive(Clone, Copy, Debug, PartialEq, Eq, Structural)]
pub struct ProcessingParameters {
    pub progressive_frame: i32,
    pub second_field: i32,
    pub top_field_first: i32,
    pub unpaired_field: i32,
}

/// A picture that is ready to be mapped by the consumer.
#[derive(Clone, Copy, Debug, PartialEq, Eq, Structural)]
pub struct PreparedFrame {
    pub timestamp: i64,
    pub index: i32,
    pub parameters: ProcessingParameters,
}

/// The frame that is queued for a picture reported as `info`. The second
/// field is one more than the repeat count, wrapping at the largest value.
pub open spec fn prepared(info: DisplayInfo) -> PreparedFrame {
    PreparedFrame {
        timestamp: info.timestamp,
        index: info.picture_index,
        parameters: ProcessingParameters {
            progressive_frame: info.progressive_frame,
            second_field: if info.repeat_first_field == i32::MAX {
                i32::MIN
            } else {
                (info.repeat_first_field + 1) as i32
            },
            top_field_first: info.top_field_first,
            unpaired_field: if info.repeat_first_field < 0 {
                1i32
            } else {
                0i32
            },
        },
    }
}

/// Builds the frame that is queued for a picture reported as `info`.
pub fn prepare(info: &DisplayInfo) -> (frame: PreparedFrame)
    ensures
        frame == prepared(*info),
{
    PreparedFrame {
        timestamp: info.timestamp,
        index: info.picture_index,
        parameters: ProcessingParameters {
            progressive_frame: info.progressive_frame,
            second_field: if info.repeat_first_field == i32::MAX {
                i32::MIN
            } else {
                info.repeat_first_field + 1
            },
            top_field_first: info.top_field_first,
            unpaired_field: if info.repeat_first_field < 0 {
                1
            } else {
                0
            },
        },
    }
}

/// What the display callback does.
#[derive(Clone, Copy, Debug, PartialEq, Eq, Structural)]
pub enum DisplayAction {
    /// The stream has ended: close the queue.
    Close,
    /// The queue is closed already: do nothing.
    Ignore,
    /// Queue this frame.
    Deliver(PreparedFrame),
}

/// What the display callback does with `info` (`None` is the engine's mark
/// for the end of the stream) on a queue that is `open` or not.
pub open spec fn display_action_for(open: bool, info: Option<DisplayInfo>) -> DisplayAction {
    match info {
        None => DisplayAction::Close,
        Some(info) => if open {
            DisplayAction::Deliver(prepared(info))
        } else {
            DisplayAction::Ignore
        },
    }
}

/// Decides what the display callback does.
pub fn display_action(open: bool, info: Option<DisplayInfo>) -> (action: DisplayAction)
    ensures
        action == display_action_for(open, info),
{
    match info {
        None => DisplayAction::Close,
        Some(info) => if open {
            DisplayAction::Deliver(prepare(&info))
        } else {
            DisplayAction::Ignore
        },
    }
}

/// What the display callback returns after an attempt to queue a frame.
pub fn display_reply(delivered: bool) -> (reply: i32)
    ensures
        reply == if delivered {
            CALLBACK_SUCCESS
        } else {
            CALLBACK_FAILURE
        },
{
    if delivered {
        CALLBACK_SUCCESS
    } else {
        CALLBACK_FAILURE
    }
}

/// The display callback. The end of the stream closes the queue; a picture
/// is queued while the queue is open, and the reply tells whether the queue
/// took it; after the end of the stream every call succeeds and changes
/// nothing.
pub fn picture_display(channel: &mut Delivery<PreparedFrame>, info: Option<DisplayInfo>) -> (reply:
    i32)
    ensures
        reply == CALLBACK_SUCCESS || reply == CALLBACK_FAILURE,
        match display_action_for(old(channel).is_open(), info) {
            DisplayAction::Close => reply == CALLBACK_SUCCESS && !final(channel).is_open(),
            DisplayAction::Ignore => reply == CALLBACK_SUCCESS && *final(channel) == *old(channel),
            DisplayAction::Deliver(_) => final(channel).is_open(),
        },
        !old(channel).is_open() ==> reply == CALLBACK_SUCCESS && *final(channel) == *old(channel),
{
    match display_action(channel.accepts(), info) {
        DisplayAction::Close => {
            channel.close();
            CALLBACK_SUCCESS
        },
        DisplayAction::Ignore => CALLBACK_SUCCESS,
        DisplayAction::Deliver(frame) => display_reply(channel.send(frame).is_ok()),
    }
}

/// After the end of the stream the display callback neither queues nor
/// fails, whatever it is called with: the end of the stream is idempotent.
pub proof fn law_end_of_stream_is_idempotent(info: Option<DisplayInfo>)
    ensures
        !(display_action_for(false, info) is Deliver),
        display_action_for(false, None) == DisplayAction::Close,
        info is Some ==> display_action_for(false, info) == DisplayAction::Ignore,
{
}

} // verus!
