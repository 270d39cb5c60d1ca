//! The two ends of a sample ring buffer: the capture callback pushes, the
//! writer thread drains. Each end is used by one thread while the other end
//! runs concurrently, so what a call observes of the buffer's fill level is a
//! snapshot. What each end has itself moved is not: the sender's history of
//! accepted samples and the receiver's history of taken samples change only
//! through calls on that end, and the contracts below are stated over them.

use vstd::prelude::*;
use ringbuf::{HeapConsumer, HeapProducer, HeapRb};

verus! {

/// Slots of each ring buffer: about 0.34 s of stereo or 0.68 s of mono audio
/// at 48 kHz.
pub const RING_CAPACITY: usize = 32768;

/// The producing end of a ring buffer of samples.
#[verifier::external_body]
pub struct SampleSender {
    inner: HeapProducer<i32>,
}

/// The consuming end of a ring buffer of samples.
#[verifier::external_body]
pub struct SampleReceiver {
    inner: HeapConsumer<i32>,
}

/// Number of slots of the ring buffer a sender feeds.
pub uninterp spec fn sender_capacity(s: SampleSender) -> nat;

/// Number of slots of the ring buffer a receiver drains.
pub uninterp spec fn receiver_capacity(c: SampleReceiver) -> nat;

/// Every sample a sender has appended to its buffer so far, in order.
pub uninterp spec fn accepted(s: SampleSender) -> Seq<i32>;

/// Every sample a receiver has removed from its buffer so far, in order.
pub uninterp spec fn taken(c: SampleReceiver) -> Seq<i32>;

/// Relies on `ringbuf::HeapRb::new` and `split`: a ring buffer with exactly
/// `capacity` slots, empty, split into its two ends. `new` panics on a zero
/// capacity.
#[verifier::external_body]
fn ring_pair(capacity: usize) -> (r: (SampleSender, SampleReceiver))
    requires
        capacity > 0,
    ensures
        sender_capacity(r.0) == capacity,
        receiver_capacity(r.1) == capacity,
        accepted(r.0) == Seq::<i32>::empty(),
        taken(r.1) == Seq::<i32>::empty(),
{
    let (p, c) = HeapRb::<i32>::new(capacity).split();
    (SampleSender { inner: p }, SampleReceiver { inner: c })
}

/// Relies on `ringbuf::Producer::push_slice`: appends as many leading items of
/// `data` as there are free slots and returns their count; it never blocks.
#[verifier::external_body]
fn push_prefix(s: &mut SampleSender, data: &[i32]) -> (r: usize)
    ensures
        r <= data@.len(),
        r <= sender_capacity(*old(s)),
        sender_capacity(*final(s)) == sender_capacity(*old(s)),
        accepted(*final(s)) == accepted(*old(s)) + data@.subrange(0, r as int),
{
    s.inner.push_slice(data)
}

/// Relies on `ringbuf::Consumer::pop_slice`: moves the oldest items into the
/// front of `buf`, as many as are available and fit, and returns their count;
/// the rest of `buf` is left as it was.
#[verifier::external_body]
fn pop_prefix(c: &mut SampleReceiver, buf: &mut Vec<i32>) -> (r: usize)
    ensures
        r <= old(buf)@.len(),
        r <= receiver_capacity(*old(c)),
        receiver_capacity(*final(c)) == receiver_capacity(*old(c)),
        taken(*final(c)) == taken(*old(c)) + final(buf)@.subrange(0, r as int),
        final(buf)@.len() == old(buf)@.len(),
        forall|i: int| r <= i < old(buf)@.len() ==> final(buf)@[i] == old(buf)@[i],
{
    c.inner.pop_slice(buf.as_mut_slice())
}

/// Relies on `ringbuf::Consumer::is_empty`: whether no sample was waiting when
/// it looked.
#[verifier::external_body]
pub(crate) fn receiver_is_empty(c: &SampleReceiver) -> (r: bool) {
    c.inner.is_empty()
}

/// A ring buffer of `RING_CAPACITY` samples, empty, split into its two ends.
pub fn sample_channel() -> (r: (SampleSender, SampleReceiver))
    ensures
        sender_capacity(r.0) == RING_CAPACITY,
        receiver_capacity(r.1) == RING_CAPACITY,
        accepted(r.0) == Seq::<i32>::empty(),
        taken(r.1) == Seq::<i32>::empty(),
{
    ring_pair(RING_CAPACITY)
}

/// Body of the capture callback: once `stopped` is set it is a no-op;
/// otherwise it pushes the samples in order until the buffer is full and drops
/// the rest, without blocking. Returns the number of samples accepted, which
/// are the first `r` of the block, appended to the sender's history in order.
pub fn capture_block(s: &mut SampleSender, data: &Vec<i32>, stopped: bool) -> (r: usize)
    ensures
        stopped ==> r == 0 && *final(s) == *old(s),
        r <= data@.len(),
        r <= sender_capacity(*old(s)),
        sender_capacity(*final(s)) == sender_capacity(*old(s)),
        accepted(*final(s)) == accepted(*old(s)) + data@.subrange(0, r as int),
{
    if stopped {
        assert(data@.subrange(0, 0) =~= Seq::<i32>::empty());
        assert(accepted(*s) + Seq::<i32>::empty() =~= accepted(*s));
        return 0;
    }
    push_prefix(s, data.as_slice())
}

/// Takes every sample waiting in the buffer, up to `limit`, oldest first; what
/// it returns is appended to the receiver's history of taken samples.
pub fn drain(c: &mut SampleReceiver, limit: usize) -> (r: Vec<i32>)
    ensures
        r@.len() <= limit,
        r@.len() <= receiver_capacity(*old(c)),
        receiver_capacity(*final(c)) == receiver_capacity(*old(c)),
        taken(*final(c)) == taken(*old(c)) + r@,
{
    let mut buf: Vec<i32> = Vec::new();
    let mut i: usize = 0;
    while i < limit
        invariant
            i <= limit,
            buf@.len() == i,
        decreases limit - i,
    {
        buf.push(0);
        i = i + 1;
    }
    let n = pop_prefix(c, &mut buf);
    buf.truncate(n);
    buf
}

/// Counts the callbacks that dropped samples, so that a warning is given for
/// the first and then for every thousandth.
pub struct OverflowLog {
    pub drops: u64,
}

impl OverflowLog {
    pub fn new() -> (r: OverflowLog)
        ensures
            r.drops == 0,
    {
        OverflowLog { drops: 0 }
    }

    /// Records one callback that dropped samples; returns whether to warn.
    pub fn record_drop(&mut self) -> (warn: bool)
        ensures
            final(self).drops == if old(self).drops == u64::MAX {
                u64::MAX as int
            } else {
                old(self).drops + 1
            },
            warn == (old(self).drops % 1000 == 0),
    {
        let warn = self.drops % 1000 == 0;
        if self.drops < u64::MAX {
            self.drops = self.drops + 1;
        }
        warn
    }
}

/// What the writer thread does after an iteration.
#[derive(Clone, Copy, Debug, PartialEq, Eq, Structural)]
pub enum WriterAction {
    /// Go on with the next iteration at once.
    Continue,
    /// Nothing was waiting: sleep briefly, then go on.
    Sleep,
    /// Stop was requested and every active buffer is empty: finalize the file.
    Finish,
}

/// The writer loop's decision. It runs until stop is requested and every
/// active buffer is empty (so buffered audio is drained, not cut off), and
/// sleeps only when an iteration found nothing, no stop was requested and the
/// buffers are still empty. An inactive loopback counts as empty.
pub fn writer_action(stop_requested: bool, wrote_any: bool, mic_empty: bool, loopback_empty: bool) -> (r: WriterAction)
    ensures
        r == (if stop_requested && mic_empty && loopback_empty {
            WriterAction::Finish
        } else if !wrote_any && !stop_requested && mic_empty && loopback_empty {
            WriterAction::Sleep
        } else {
            WriterAction::Continue
        }),
{
    if stop_requested && mic_empty && loopback_empty {
        WriterAction::Finish
    } else if !wrote_any && !stop_requested && mic_empty && loopback_empty {
        WriterAction::Sleep
    } else {
        WriterAction::Continue
    }
}

} // verus!
