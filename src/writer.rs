//! One iteration of the mixer/writer thread: drain both buffers, mix, and
//! decide what to do next.

use vstd::prelude::*;
use crate::capture::{drain, receiver_is_empty, taken, writer_action, SampleReceiver, WriterAction, RING_CAPACITY};
use crate::mix::{mix_block, mixed_block};

verus! {

/// What an iteration produced: the interleaved 16-bit samples to write, in
/// order, and the next action of the loop.
pub struct WriterOutput {
    pub samples: Vec<i16>,
    pub action: WriterAction,
}

/// Drains the microphone buffer and, when `loopback_active`, the loopback
/// buffer; mixes what came out into stereo 16-bit samples; and decides, from
/// `stop_requested` (read by the caller before this iteration) and from
/// whether the buffers are empty afterwards, whether to go on, sleep, or
/// finish. The output is the mix of exactly the blocks this iteration took
/// from the two receivers (at most `RING_CAPACITY` samples each); an inactive
/// loopback receiver is not touched. The loop finishes only after a stop
/// request, and sleeps only when nothing was written and no stop was
/// requested.
pub fn writer_iteration(
    mic: &mut SampleReceiver,
    mic_channels: u16,
    loopback: &mut SampleReceiver,
    loopback_channels: u16,
    loopback_active: bool,
    stop_requested: bool,
) -> (r: WriterOutput)
    ensures
        exists|m: Seq<i32>, l: Seq<i32>|
            {
                &&& m.len() <= RING_CAPACITY
                &&& l.len() <= RING_CAPACITY
                &&& taken(*final(mic)) == taken(*old(mic)) + m
                &&& taken(*final(loopback)) == taken(*old(loopback)) + l
                &&& r.samples@ == mixed_block(m, mic_channels, l, loopback_channels)
            },
        !loopback_active ==> *final(loopback) == *old(loopback),
        r.action == WriterAction::Finish ==> stop_requested,
        r.action == WriterAction::Sleep ==> !stop_requested && r.samples@.len() == 0,
{
    let m = drain(mic, RING_CAPACITY);
    let l = if loopback_active {
        drain(loopback, RING_CAPACITY)
    } else {
        let e: Vec<i32> = Vec::new();
        assert(taken(*loopback) + e@ =~= taken(*loopback));
        e
    };
    let samples = mix_block(&m, mic_channels, &l, loopback_channels);
    let mic_empty = receiver_is_empty(mic);
    let loopback_empty = !loopback_active || receiver_is_empty(loopback);
    let action = writer_action(stop_requested, samples.len() > 0, mic_empty, loopback_empty);
    WriterOutput { samples, action }
}

} // verus!
