//! Capability descriptors: the shapes a stream configuration can take and
//! the one fixed descriptor this backend ever reports.

use vstd::prelude::*;

verus! {

/// Samples per second of one channel.
#[derive(Clone, Copy, Debug, PartialEq, Eq, Structural)]
pub struct SampleRate(pub u32);

/// Tag for the in-memory representation of one audio sample.
#[derive(Clone, Copy, Debug, PartialEq, Eq, Structural)]
pub enum SampleFormat {
    I16,
    U16,
    F32,
}

/// Range of buffer sizes a reported configuration supports.
#[derive(Clone, Copy, Debug, PartialEq, Eq, Structural)]
pub enum SupportedBufferSize {
    Range { min: u32, max: u32 },
    Unknown,
}

/// Buffer-size request accompanying a stream-build call.
#[derive(Clone, Copy, Debug, PartialEq, Eq, Structural)]
pub enum BufferSize {
    Unspecified,
    Fixed(u32),
}

/// A caller-requested stream configuration, handed to the stream builders.
#[derive(Clone, Copy, Debug, PartialEq, Eq, Structural)]
pub struct StreamConfig {
    pub channels: u16,
    pub sample_rate: SampleRate,
    pub buffer_size: BufferSize,
}

/// A concrete stream configuration, as reported by a capability query.
#[derive(Clone, Copy, Debug, PartialEq, Eq, Structural)]
pub struct SupportedStreamConfig {
    pub channels: u16,
    pub sample_rate: SampleRate,
    pub buffer_size: SupportedBufferSize,
    pub sample_format: SampleFormat,
}

/// One enumerable range of supported stream configurations.
#[derive(Clone, Copy, Debug, PartialEq, Eq, Structural)]
pub struct SupportedStreamConfigRange {
    pub channels: u16,
    pub min_sample_rate: SampleRate,
    pub max_sample_rate: SampleRate,
    pub buffer_size: SupportedBufferSize,
    pub sample_format: SampleFormat,
}

/// The one descriptor this backend ever reports: one channel, 48 kHz,
/// an unconstrained buffer-size range, 32-bit floating-point samples.
pub open spec fn default_supported_config() -> SupportedStreamConfig {
    SupportedStreamConfig {
        channels: 1,
        sample_rate: SampleRate(48000),
        buffer_size: SupportedBufferSize::Range { min: 0, max: u32::MAX },
        sample_format: SampleFormat::F32,
    }
}

/// The default-configuration queries are pure: any two values they report
/// agree in every field, in particular in channel count, sample rate and
/// sample format.
pub proof fn lemma_default_config_deterministic(a: SupportedStreamConfig, b: SupportedStreamConfig)
    requires
        a == default_supported_config(),
        b == default_supported_config(),
    ensures
        a.channels == b.channels,
        a.sample_rate == b.sample_rate,
        a.sample_format == b.sample_format,
        a == b,
{
}

} // verus!
