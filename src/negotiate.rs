//! Choice of the capture configuration of a device from the list of
//! configurations it supports.

use vstd::prelude::*;

verus! {

/// Sample rate of the output file, and the rate every device is asked for first.
pub const TARGET_SAMPLE_RATE: u32 = 48000;

/// Encoding of the samples a device delivers.
#[derive(Clone, Copy, Debug, PartialEq, Eq, Structural)]
pub enum SampleKind {
    I8,
    I16,
    I32,
    I64,
    U8,
    U16,
    U32,
    U64,
    F32,
    F64,
}

/// One entry of a device's capability list: a channel count and sample
/// format supported over a closed range of sample rates.
#[derive(Clone, Copy, Debug, PartialEq, Eq, Structural)]
pub struct ConfigRange {
    pub channels: u16,
    pub min_rate: u32,
    pub max_rate: u32,
    pub format: SampleKind,
}

/// A concrete capture configuration.
#[derive(Clone, Copy, Debug, PartialEq, Eq, Structural)]
pub struct StreamSettings {
    pub channels: u16,
    pub sample_rate: u32,
    pub format: SampleKind,
}

/// Which channel counts a probe accepts.
#[derive(Clone, Copy, Debug, PartialEq, Eq, Structural)]
pub enum ChannelWant {
    AtMostTwo,
    Exactly(u16),
}

pub open spec fn channels_fit(want: ChannelWant, channels: u16) -> bool {
    match want {
        ChannelWant::AtMostTwo => channels <= 2,
        ChannelWant::Exactly(c) => channels == c,
    }
}

/// Whether one range offers `rate` with an accepted channel count in `format`.
pub open spec fn range_fits(r: ConfigRange, rate: u32, want: ChannelWant, format: SampleKind) -> bool {
    &&& r.min_rate <= rate <= r.max_rate
    &&& channels_fit(want, r.channels)
    &&& r.format == format
}

/// Whether some range of the list offers `rate` with an accepted channel count
/// in `format`.
pub open spec fn supports(ranges: Seq<ConfigRange>, rate: u32, want: ChannelWant, format: SampleKind) -> bool {
    exists|i: int| 0 <= i < ranges.len() && range_fits(#[trigger] ranges[i], rate, want, format)
}

/// The rate chosen: the target if the device offers it in the target format
/// with at most two channels, else the device's default rate.
pub open spec fn chosen_rate(ranges: Seq<ConfigRange>, default: StreamSettings, target_rate: u32, format: SampleKind) -> u32 {
    if supports(ranges, target_rate, ChannelWant::AtMostTwo, format) {
        target_rate
    } else {
        default.sample_rate
    }
}

/// The channel count chosen at `rate`: stereo if offered, else mono, else the
/// device's default count.
pub open spec fn chosen_channels(ranges: Seq<ConfigRange>, default: StreamSettings, rate: u32, format: SampleKind) -> u16 {
    if supports(ranges, rate, ChannelWant::Exactly(2), format) {
        2
    } else if supports(ranges, rate, ChannelWant::Exactly(1), format) {
        1
    } else {
        default.channels
    }
}

/// The configuration negotiation settles on.
pub open spec fn negotiated(ranges: Seq<ConfigRange>, default: StreamSettings, target_rate: u32, format: SampleKind) -> StreamSettings {
    let rate = chosen_rate(ranges, default, target_rate, format);
    let fallback = !supports(ranges, target_rate, ChannelWant::AtMostTwo, format);
    StreamSettings {
        channels: chosen_channels(ranges, default, rate, format),
        sample_rate: rate,
        format: if fallback { default.format } else { format },
    }
}

/// Whether some range offers `rate` with an accepted channel count in `format`.
pub fn offers(ranges: &Vec<ConfigRange>, rate: u32, want: ChannelWant, format: SampleKind) -> (r: bool)
    ensures
        r == supports(ranges@, rate, want, format),
{
    let mut i: usize = 0;
    while i < ranges.len()
        invariant
            i <= ranges@.len(),
            forall|j: int| 0 <= j < i ==> !range_fits(#[trigger] ranges@[j], rate, want, format),
        decreases ranges@.len() - i,
    {
        let c = ranges[i];
        let fits_channels = match want {
            ChannelWant::AtMostTwo => c.channels <= 2,
            ChannelWant::Exactly(n) => c.channels == n,
        };
        if c.min_rate <= rate && rate <= c.max_rate && fits_channels && c.format == format {
            assert(range_fits(ranges@[i as int], rate, want, format));
            return true;
        }
        i = i + 1;
    }
    false
}

/// Negotiates the capture configuration of a device from its capability list
/// and default configuration. The target rate is taken if the device offers it
/// in the target format with at most two channels; otherwise the default
/// configuration is used as it is. At the chosen rate, stereo in the target
/// format is preferred, then mono, then the default channel count. The result
/// depends on the arguments alone; a rate other than the target is a
/// degradation the caller may report, not an error.
pub fn negotiate(ranges: &Vec<ConfigRange>, default: StreamSettings, target_rate: u32, format: SampleKind) -> (r: StreamSettings)
    ensures
        r == negotiated(ranges@, default, target_rate, format),
{
    let at_target = offers(ranges, target_rate, ChannelWant::AtMostTwo, format);
    let rate = if at_target {
        target_rate
    } else {
        default.sample_rate
    };
    let channels = if offers(ranges, rate, ChannelWant::Exactly(2), format) {
        2
    } else if offers(ranges, rate, ChannelWant::Exactly(1), format) {
        1
    } else {
        default.channels
    };
    StreamSettings { channels, sample_rate: rate, format: if at_target { format } else { default.format } }
}

/// Negotiation for this engine: 48 kHz in 32-bit float samples.
pub fn negotiate_capture(ranges: &Vec<ConfigRange>, default: StreamSettings) -> (r: StreamSettings)
    ensures
        r == negotiated(ranges@, default, TARGET_SAMPLE_RATE, SampleKind::F32),
{
    negotiate(ranges, default, TARGET_SAMPLE_RATE, SampleKind::F32)
}

} // verus!
