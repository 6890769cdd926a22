use audrey::samples::{
    flac_layout, normalize_flac_sample, wav_layout, PacketBuffer, SampleLayout, WavSampleFormat,
};
use audrey::FormatError;

#[test]
fn flac_layouts() {
    assert_eq!(flac_layout(16), SampleLayout::Flac(16));
    assert_eq!(flac_layout(32), SampleLayout::Flac(32));
    assert_eq!(flac_layout(1), SampleLayout::Flac(1));
    assert_eq!(flac_layout(33), SampleLayout::FlacUnsupportedSampleBits(33));
}

#[test]
fn wav_layouts() {
    assert_eq!(wav_layout(WavSampleFormat::Int, 8), SampleLayout::WavI8);
    assert_eq!(wav_layout(WavSampleFormat::Int, 16), SampleLayout::WavI16);
    assert_eq!(wav_layout(WavSampleFormat::Int, 24), SampleLayout::WavI24);
    assert_eq!(wav_layout(WavSampleFormat::Int, 32), SampleLayout::WavI32);
    assert_eq!(
        wav_layout(WavSampleFormat::Int, 12),
        SampleLayout::WavUnsupportedSampleBits(12)
    );
    assert_eq!(wav_layout(WavSampleFormat::Float, 32), SampleLayout::WavF32);
    assert_eq!(wav_layout(WavSampleFormat::Float, 64), SampleLayout::WavF32);
}

#[test]
fn unsupported_layout_errors() {
    assert!(matches!(
        SampleLayout::FlacUnsupportedSampleBits(40).unsupported_error(),
        Some(FormatError::FlacUnsupportedSampleBits(40))
    ));
    assert!(matches!(
        SampleLayout::WavUnsupportedSampleBits(4).unsupported_error(),
        Some(FormatError::WavUnsupportedSampleBits(4))
    ));
    assert!(SampleLayout::WavI16.unsupported_error().is_none());
    assert!(SampleLayout::Flac(16).unsupported_error().is_none());
    assert!(SampleLayout::OggVorbis.unsupported_error().is_none());
}

#[test]
fn flac_normalization_values() {
    assert_eq!(normalize_flac_sample(1, 16), 1 << 16);
    assert_eq!(normalize_flac_sample(-1, 16), -65536);
    assert_eq!(normalize_flac_sample(-32768, 16), i32::MIN);
    assert_eq!(normalize_flac_sample(32767, 16), 32767 << 16);
    assert_eq!(normalize_flac_sample(0, 24), 0);
    assert_eq!(normalize_flac_sample(-8388608, 24), i32::MIN);
    assert_eq!(normalize_flac_sample(123456, 32), 123456);
    assert_eq!(normalize_flac_sample(i32::MIN, 32), i32::MIN);
    assert_eq!(normalize_flac_sample(-1, 1), i32::MIN);
}

#[test]
fn flac_normalization_matches_shift() {
    for bits in 1u32..=32 {
        for sample in [0i32, 1, -1, 5, -7, 1000, i32::MAX, i32::MIN, 0x1234_5678] {
            assert_eq!(
                normalize_flac_sample(sample, bits),
                sample.wrapping_shl(32 - bits)
            );
        }
    }
}

#[test]
fn flac_normalization_keeps_order() {
    let samples = [-128i32, -5, 0, 3, 127];
    for pair in samples.windows(2) {
        assert!(normalize_flac_sample(pair[0], 8) <= normalize_flac_sample(pair[1], 8));
    }
}

#[test]
fn packet_buffer_hands_out_in_order() {
    let mut buffer = PacketBuffer::new();
    assert_eq!(buffer.next_sample(), None);
    buffer.refill(vec![3, -4, 5]);
    assert_eq!(buffer.next_sample(), Some(3));
    assert_eq!(buffer.next_sample(), Some(-4));
    assert_eq!(buffer.next_sample(), Some(5));
    assert_eq!(buffer.next_sample(), None);
    assert_eq!(buffer.next_sample(), None);
}

#[test]
fn packet_buffer_refill_replaces() {
    let mut buffer = PacketBuffer::new();
    buffer.refill(vec![1, 2, 3]);
    assert_eq!(buffer.next_sample(), Some(1));
    buffer.refill(vec![]);
    assert_eq!(buffer.next_sample(), None);
    buffer.refill(vec![9]);
    assert_eq!(buffer.next_sample(), Some(9));
    assert_eq!(buffer.next_sample(), None);
}

#[test]
fn packet_buffer_stream_concatenates_packets() {
    let packets: Vec<Vec<i16>> = vec![vec![1, 2], vec![], vec![3], vec![4, 5, 6]];
    let mut remaining = packets.into_iter();
    let mut buffer = PacketBuffer::new();
    let mut out = Vec::new();
    loop {
        if let Some(s) = buffer.next_sample() {
            out.push(s);
            continue;
        }
        match remaining.next() {
            Some(p) => buffer.refill(p),
            None => break,
        }
    }
    assert_eq!(out, vec![1, 2, 3, 4, 5, 6]);
}
