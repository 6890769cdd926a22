//! What the decoders' stream headers declare, turned into descriptions and
//! sample layouts.
use vstd::prelude::*;

use crate::description::Description;
use crate::format::Format;
use crate::samples::{flac_layout, spec_flac_layout, spec_wav_layout, wav_layout, SampleLayout, WavSampleFormat};

verus! {

/// What a FLAC stream's header (its STREAMINFO block) declares.
#[derive(Copy, Clone, Debug, PartialEq, Eq, Structural)]
pub struct FlacHeader {
    pub channels: u32,
    pub sample_rate: u32,
    pub bits_per_sample: u32,
}

/// What a WAV stream's format chunk declares.
#[derive(Copy, Clone, Debug, PartialEq, Eq, Structural)]
pub struct WavHeader {
    pub channels: u16,
    pub sample_rate: u32,
    pub bits_per_sample: u16,
    pub sample_format: WavSampleFormat,
}

/// What a Vorbis identification header declares.
#[derive(Copy, Clone, Debug, PartialEq, Eq, Structural)]
pub struct VorbisHeader {
    pub channels: u8,
    pub sample_rate: u32,
}

/// The description of a FLAC stream with this header: its channel count
/// and sample rate.
pub fn flac_description(header: &FlacHeader) -> (res: Description)
    ensures
        res.spec_format() == Format::Flac,
        res.spec_channel_count() == header.channels,
        res.spec_sample_rate() == header.sample_rate,
{
    Description::new(Format::Flac, header.channels, header.sample_rate)
}

/// The description of a WAV stream with this header: its channel count,
/// widened to 32 bits, and sample rate.
pub fn wav_description(header: &WavHeader) -> (res: Description)
    ensures
        res.spec_format() == Format::Wav,
        res.spec_channel_count() == header.channels as u32,
        res.spec_sample_rate() == header.sample_rate,
{
    Description::new(Format::Wav, header.channels as u32, header.sample_rate)
}

/// The description of an Ogg Vorbis stream with this identification
/// header: its channel count, widened to 32 bits, and sample rate.
pub fn ogg_vorbis_description(header: &VorbisHeader) -> (res: Description)
    ensures
        res.spec_format() == Format::OggVorbis,
        res.spec_channel_count() == header.channels as u32,
        res.spec_sample_rate() == header.sample_rate,
{
    Description::new(Format::OggVorbis, header.channels as u32, header.sample_rate)
}

/// How the samples of a FLAC stream with this header are read (see
/// `flac_layout`).
pub fn flac_sample_layout(header: &FlacHeader) -> (res: SampleLayout)
    ensures
        res == spec_flac_layout(header.bits_per_sample),
{
    flac_layout(header.bits_per_sample)
}

/// How the samples of a WAV stream with this header are read (see
/// `wav_layout`).
pub fn wav_sample_layout(header: &WavHeader) -> (res: SampleLayout)
    ensures
        res == spec_wav_layout(header.sample_format, header.bits_per_sample),
{
    wav_layout(header.sample_format, header.bits_per_sample)
}

} // verus!
