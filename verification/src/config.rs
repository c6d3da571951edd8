use vstd::prelude::*;
use crate::codec::Codec;
use crate::error::Error;
use crate::format::SampleFormat;

verus! {

/// What a device reports as its native way of working.
#[derive(Debug, Clone, Copy, PartialEq, Eq, Structural)]
pub struct StreamConfig {
    pub channels: u16,
    pub sample_rate: u32,
    pub sample_format: SampleFormat,
}

/// Whether a file stores its samples as floats or as integers.
#[derive(Debug, Clone, Copy, PartialEq, Eq, Structural)]
pub enum WavFormat {
    Float,
    Int,
}

/// The fields of a file's header.
#[derive(Debug, Clone, Copy, PartialEq, Eq, Structural)]
pub struct WavSpec {
    pub channels: u16,
    pub sample_rate: u32,
    pub bits_per_sample: u16,
    pub sample_format: WavFormat,
}

/// The largest number of bytes that a file's header can count per second.
pub const MAX_BYTE_RATE: u64 = 0xffff_ffff;

impl WavSpec {
    /// Bytes that one sample takes in the file.
    pub open spec fn spec_bytes_per_sample(&self) -> int {
        (self.bits_per_sample + 7) / 8
    }

    /// Bytes that one second of audio takes in the file.
    pub open spec fn spec_byte_rate(&self) -> int {
        self.sample_rate * self.spec_bytes_per_sample() * self.channels
    }
}

/// A configuration gives the header of the file that records it.
pub trait WavExt {
    spec fn spec_wav_spec(&self) -> WavSpec;

    fn as_wav_spec(&self) -> (spec: WavSpec)
        ensures
            spec == self.spec_wav_spec(),
    ;
}

impl WavExt for StreamConfig {
    /// The header repeats the channel count and the rate, has eight bits
    /// for each byte of a sample, and is marked float exactly when the
    /// format is.
    open spec fn spec_wav_spec(&self) -> WavSpec {
        WavSpec {
            channels: self.channels,
            sample_rate: self.sample_rate,
            bits_per_sample: (self.sample_format.spec_sample_size() * 8) as u16,
            sample_format: if self.sample_format.spec_is_float() {
                WavFormat::Float
            } else {
                WavFormat::Int
            },
        }
    }

    fn as_wav_spec(&self) -> (spec: WavSpec) {
        WavSpec {
            channels: self.channels,
            sample_rate: self.sample_rate,
            bits_per_sample: self.sample_format.sample_size() as u16 * 8,
            sample_format: if self.sample_format.is_float() {
                WavFormat::Float
            } else {
                WavFormat::Int
            },
        }
    }
}

impl StreamConfig {
    /// Whether a stream of this configuration can be recorded: a codec
    /// exists for the format, there is at least one channel, the rate is
    /// not zero, and a second of audio is no more than a header can count.
    pub open spec fn spec_recordable(&self) -> bool {
        &&& Codec::spec_select(self.sample_format) is Some
        &&& self.channels > 0
        &&& self.sample_rate > 0
        &&& self.sample_rate * self.sample_format.spec_sample_size() * self.channels
            <= MAX_BYTE_RATE
    }

    /// The codec that writes a stream of this configuration.
    pub fn codec(&self) -> (r: Result<Codec, Error>)
        ensures
            self.spec_recordable() ==> r == Ok::<Codec, Error>(
                Codec::spec_select(self.sample_format).unwrap(),
            ),
            !self.spec_recordable() ==> r == Err::<Codec, Error>(Error::StreamConfigFormatError),
    {
        let codec = Codec::select(self.sample_format)?;
        if self.channels == 0 || self.sample_rate == 0 {
            return Err(Error::StreamConfigFormatError);
        }
        let width: u64 = codec.width() as u64;
        assert(width * self.channels <= 4 * 0xffff) by (nonlinear_arith)
            requires
                width <= 4,
                self.channels <= 0xffff,
        ;
        let per_frame: u64 = width * (self.channels as u64);
        assert(self.sample_rate * per_frame <= u64::MAX) by (nonlinear_arith)
            requires
                self.sample_rate <= 0xffff_ffff,
                per_frame <= 4 * 0xffff,
        ;
        let rate: u64 = (self.sample_rate as u64) * per_frame;
        assert(rate == self.sample_rate * self.sample_format.spec_sample_size() * self.channels)
            by (nonlinear_arith)
            requires
                rate == self.sample_rate * per_frame,
                per_frame == width * self.channels,
                width == self.sample_format.spec_sample_size(),
        ;
        if rate > MAX_BYTE_RATE {
            return Err(Error::StreamConfigFormatError);
        }
        Ok(codec)
    }
}

/// The header of a recordable configuration agrees with the codec that
/// writes it: as many bits as the codec's samples are wide, float for a
/// float codec, and the channel count and rate of the device unchanged.
pub proof fn lemma_header_matches_codec(config: StreamConfig)
    requires
        config.spec_recordable(),
    ensures
        ({
            let spec = config.spec_wav_spec();
            let codec = Codec::spec_select(config.sample_format).unwrap();
            &&& spec.channels == config.channels
            &&& spec.sample_rate == config.sample_rate
            &&& spec.bits_per_sample == 8 * codec.spec_width()
            &&& spec.spec_bytes_per_sample() == codec.spec_width()
            &&& (spec.sample_format == WavFormat::Float) == codec.spec_is_float()
            &&& spec.spec_byte_rate() <= MAX_BYTE_RATE
        }),
{
    let spec = config.spec_wav_spec();
    let w = config.sample_format.spec_sample_size() as int;
    assert(spec.spec_bytes_per_sample() == w);
    assert(config.sample_rate * w * config.channels == spec.spec_byte_rate());
}

} // verus!
