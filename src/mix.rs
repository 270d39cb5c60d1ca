//! Stereo frame reconstruction, additive mixing with clipping, and
//! quantization to 16-bit PCM.
//!
//! Samples are fixed-point integers: `UNITY` stands for full scale (1.0), so
//! one unit is 1/256 of a 16-bit step.

use vstd::prelude::*;

verus! {

/// Full scale (1.0) in fixed-point sample units: 32767 steps of 256 units.
pub const UNITY: i32 = 8_388_352;

/// Largest magnitude a quantized sample reaches.
pub const PCM_PEAK: i16 = 32767;

/// `x` clipped to `[-UNITY, UNITY]`.
pub open spec fn clamp_unit(x: int) -> int {
    if x > UNITY as int {
        UNITY as int
    } else if x < -(UNITY as int) {
        -(UNITY as int)
    } else {
        x
    }
}

/// `x / 256` rounded to the nearest integer, halves away from zero.
pub open spec fn round_step(x: int) -> int {
    if x >= 0 {
        (x + 128) / 256
    } else {
        -((-x + 128) / 256)
    }
}

/// The 16-bit value of the sum of two samples: added, clipped, quantized.
pub open spec fn mix_value(a: int, b: int) -> int {
    round_step(clamp_unit(a + b))
}

/// Number of stereo frames a block of `len` samples with `channels` channels
/// yields: one per sample for mono, one per pair (the last one possibly
/// partial) otherwise.
pub open spec fn frame_count(len: nat, channels: u16) -> nat {
    if channels == 1 {
        len
    } else {
        ((len + 1) / 2) as nat
    }
}

/// Left sample of frame `i` of a block; silence past its end.
pub open spec fn left_at(s: Seq<i32>, channels: u16, i: int) -> int {
    if 0 <= i < frame_count(s.len(), channels) {
        if channels == 1 {
            s[i] as int
        } else {
            s[2 * i] as int
        }
    } else {
        0
    }
}

/// Right sample of frame `i` of a block: the mono sample duplicated, the second
/// of the pair, or silence where the block ends mid-frame or has ended.
pub open spec fn right_at(s: Seq<i32>, channels: u16, i: int) -> int {
    if 0 <= i < frame_count(s.len(), channels) {
        if channels == 1 {
            s[i] as int
        } else if 2 * i + 1 < s.len() {
            s[2 * i + 1] as int
        } else {
            0
        }
    } else {
        0
    }
}

/// Frames in the mix of two blocks: as many as the longer source gives.
pub open spec fn mixed_frames(mic: Seq<i32>, mic_channels: u16, lb: Seq<i32>, lb_channels: u16) -> nat {
    if frame_count(mic.len(), mic_channels) >= frame_count(lb.len(), lb_channels) {
        frame_count(mic.len(), mic_channels)
    } else {
        frame_count(lb.len(), lb_channels)
    }
}

/// The interleaved output of mixing a microphone block with a loopback block.
pub open spec fn mixed_block(mic: Seq<i32>, mic_channels: u16, lb: Seq<i32>, lb_channels: u16) -> Seq<i16> {
    Seq::new(
        2 * mixed_frames(mic, mic_channels, lb, lb_channels),
        |k: int|
            if k % 2 == 0 {
                mix_value(left_at(mic, mic_channels, k / 2), left_at(lb, lb_channels, k / 2)) as i16
            } else {
                mix_value(right_at(mic, mic_channels, k / 2), right_at(lb, lb_channels, k / 2)) as i16
            },
    )
}

/// A mixed value always lies within `[-PCM_PEAK, PCM_PEAK]`.
pub proof fn lemma_mix_value_bounded(a: int, b: int)
    ensures
        -(PCM_PEAK as int) <= mix_value(a, b) <= PCM_PEAK as int,
{
    let c = clamp_unit(a + b);
    assert(-(UNITY as int) <= c <= UNITY as int);
    if c >= 0 {
        assert((c + 128) / 256 <= (UNITY as int + 128) / 256) by (nonlinear_arith)
            requires
                c <= UNITY as int,
                c >= 0,
        ;
    } else {
        assert((-c + 128) / 256 <= (UNITY as int + 128) / 256) by (nonlinear_arith)
            requires
                -c <= UNITY as int,
                c < 0,
        ;
    }
}

/// Mixing clips before quantizing: every sample of a mixed block, for any
/// inputs, even two full-scale signals added, lies in `[-32767, 32767]` and so
/// within the 16-bit range without wrapping around.
pub proof fn lemma_mixed_block_in_range(mic: Seq<i32>, mic_channels: u16, lb: Seq<i32>, lb_channels: u16)
    ensures
        forall|k: int|
            0 <= k < mixed_block(mic, mic_channels, lb, lb_channels).len() ==> -(PCM_PEAK as int)
                <= #[trigger] mixed_block(mic, mic_channels, lb, lb_channels)[k] <= PCM_PEAK as int,
{
    assert forall|k: int| 0 <= k < mixed_block(mic, mic_channels, lb, lb_channels).len() implies
        -(PCM_PEAK as int) <= #[trigger] mixed_block(mic, mic_channels, lb, lb_channels)[k]
            <= PCM_PEAK as int by {
        lemma_mix_value_bounded(left_at(mic, mic_channels, k / 2), left_at(lb, lb_channels, k / 2));
        lemma_mix_value_bounded(right_at(mic, mic_channels, k / 2), right_at(lb, lb_channels, k / 2));
    }
}

/// A mono microphone is upmixed: every output frame past the end of the
/// loopback block (sourced from the microphone alone) has equal left and
/// right samples.
pub proof fn lemma_mono_upmix(mic: Seq<i32>, lb: Seq<i32>, lb_channels: u16, i: int)
    requires
        0 <= i < frame_count(mic.len(), 1),
        i >= frame_count(lb.len(), lb_channels),
    ensures
        mixed_block(mic, 1, lb, lb_channels)[2 * i] == mixed_block(mic, 1, lb, lb_channels)[2 * i + 1],
{
    let out = mixed_block(mic, 1, lb, lb_channels);
    assert((2 * i) % 2 == 0 && (2 * i) / 2 == i);
    assert((2 * i + 1) % 2 == 1 && (2 * i + 1) / 2 == i);
    assert(out[2 * i] == mix_value(left_at(mic, 1, i), 0) as i16);
    assert(out[2 * i + 1] == mix_value(right_at(mic, 1, i), 0) as i16);
}

/// Quantizes a clipped sum of two samples to 16-bit PCM.
pub fn mix_sample(a: i32, b: i32) -> (r: i16)
    ensures
        r as int == mix_value(a as int, b as int),
{
    let sum: i64 = a as i64 + b as i64;
    let c: i64 = if sum > UNITY as i64 {
        UNITY as i64
    } else if sum < -(UNITY as i64) {
        -(UNITY as i64)
    } else {
        sum
    };
    proof {
        lemma_mix_value_bounded(a as int, b as int);
    }
    if c >= 0 {
        ((c + 128) / 256) as i16
    } else {
        (-((-c + 128) / 256)) as i16
    }
}

/// Left and right samples of frame `i` of a block.
fn frame_at(s: &Vec<i32>, channels: u16, i: usize) -> (r: (i32, i32))
    requires
        s@.len() <= usize::MAX / 2,
    ensures
        r.0 as int == left_at(s@, channels, i as int),
        r.1 as int == right_at(s@, channels, i as int),
{
    if channels == 1 {
        if i < s.len() {
            (s[i], s[i])
        } else {
            (0, 0)
        }
    } else if i < (s.len() + 1) / 2 {
        let l = s[2 * i];
        let r = if 2 * i + 1 < s.len() {
            s[2 * i + 1]
        } else {
            0
        };
        (l, r)
    } else {
        (0, 0)
    }
}

/// Number of frames in a block, executable.
fn frames_in(s: &Vec<i32>, channels: u16) -> (r: usize)
    ensures
        r as nat == frame_count(s@.len(), channels),
{
    if channels == 1 {
        s.len()
    } else {
        s.len() / 2 + s.len() % 2
    }
}

/// Mixes a block of microphone samples with a block of loopback samples into
/// interleaved stereo 16-bit PCM. A source with one channel is duplicated to
/// left and right; any other count is read as left/right pairs. Where one
/// source has fewer frames, or ends mid-frame, the missing samples are silence.
/// An inactive loopback is an empty block.
pub fn mix_block(mic: &Vec<i32>, mic_channels: u16, loopback: &Vec<i32>, loopback_channels: u16) -> (r: Vec<i16>)
    requires
        mic@.len() <= usize::MAX / 4,
        loopback@.len() <= usize::MAX / 4,
    ensures
        r@ == mixed_block(mic@, mic_channels, loopback@, loopback_channels),
{
    let nm = frames_in(mic, mic_channels);
    let nl = frames_in(loopback, loopback_channels);
    let n = if nm >= nl {
        nm
    } else {
        nl
    };
    let ghost target = mixed_block(mic@, mic_channels, loopback@, loopback_channels);
    let mut out: Vec<i16> = Vec::new();
    let mut i: usize = 0;
    while i < n
        invariant
            n as nat == mixed_frames(mic@, mic_channels, loopback@, loopback_channels),
            n <= usize::MAX / 4,
            i <= n,
            mic@.len() <= usize::MAX / 4,
            loopback@.len() <= usize::MAX / 4,
            target == mixed_block(mic@, mic_channels, loopback@, loopback_channels),
            out@.len() == 2 * i,
            forall|k: int| 0 <= k < 2 * i ==> out@[k] == target[k],
        decreases n - i,
    {
        let (ml, mr) = frame_at(mic, mic_channels, i);
        let (ll, lr) = frame_at(loopback, loopback_channels, i);
        let left = mix_sample(ml, ll);
        let right = mix_sample(mr, lr);
        out.push(left);
        out.push(right);
        proof {
            let k0 = 2 * i as int;
            assert(k0 % 2 == 0 && k0 / 2 == i as int);
            assert((k0 + 1) % 2 == 1 && (k0 + 1) / 2 == i as int);
            lemma_mix_value_bounded(ml as int, ll as int);
            lemma_mix_value_bounded(mr as int, lr as int);
            assert(target[k0] == left);
            assert(target[k0 + 1] == right);
        }
        i = i + 1;
    }
    assert(out@ =~= target);
    out
}

} // verus!
