use audrey::headers::{
    flac_description, flac_sample_layout, ogg_vorbis_description, wav_description,
    wav_sample_layout, FlacHeader, VorbisHeader, WavHeader,
};
use audrey::samples::{SampleLayout, WavSampleFormat};
use audrey::Format;

#[test]
fn flac_header_description() {
    let d = flac_description(&FlacHeader { channels: 2, sample_rate: 44100, bits_per_sample: 16 });
    assert_eq!(d.format(), Format::Flac);
    assert_eq!(d.channel_count(), 2);
    assert_eq!(d.sample_rate(), 44100);
}

#[test]
fn wav_header_description() {
    let d = wav_description(&WavHeader {
        channels: 1,
        sample_rate: 8000,
        bits_per_sample: 24,
        sample_format: WavSampleFormat::Int,
    });
    assert_eq!(d.format(), Format::Wav);
    assert_eq!(d.channel_count(), 1);
    assert_eq!(d.sample_rate(), 8000);
}

#[test]
fn vorbis_header_description() {
    let d = ogg_vorbis_description(&VorbisHeader { channels: 3, sample_rate: 22050 });
    assert_eq!(d.format(), Format::OggVorbis);
    assert_eq!(d.channel_count(), 3);
    assert_eq!(d.sample_rate(), 22050);
}

#[test]
fn header_sample_layouts() {
    let flac = FlacHeader { channels: 2, sample_rate: 44100, bits_per_sample: 24 };
    assert_eq!(flac_sample_layout(&flac), SampleLayout::Flac(24));
    let wide = FlacHeader { channels: 2, sample_rate: 44100, bits_per_sample: 40 };
    assert_eq!(flac_sample_layout(&wide), SampleLayout::FlacUnsupportedSampleBits(40));
    let wav = |bits, sample_format| WavHeader { channels: 2, sample_rate: 44100, bits_per_sample: bits, sample_format };
    assert_eq!(wav_sample_layout(&wav(16, WavSampleFormat::Int)), SampleLayout::WavI16);
    assert_eq!(wav_sample_layout(&wav(32, WavSampleFormat::Float)), SampleLayout::WavF32);
    assert_eq!(
        wav_sample_layout(&wav(12, WavSampleFormat::Int)),
        SampleLayout::WavUnsupportedSampleBits(12)
    );
}
