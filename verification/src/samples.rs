//! Sample bookkeeping: how each stream's samples are laid out, how FLAC
//! samples are scaled, how decoded Vorbis packets are handed out, and how
//! samples are grouped into frames.
use vstd::prelude::*;
use vstd::arithmetic::power2::*;
use vstd::arithmetic::mul::*;

use crate::error::FormatError;

verus! {

/// Whether a WAV stream stores integer or floating-point samples.
#[derive(Copy, Clone, Debug, PartialEq, Eq, Structural)]
pub enum WavSampleFormat {
    Float,
    Int,
}

/// How the samples of a stream are to be read.
#[derive(Copy, Clone, Debug, PartialEq, Eq, Structural)]
pub enum SampleLayout {
    /// FLAC samples of the given width, read as `i32`.
    Flac(u32),
    /// FLAC samples wider than 32 bits, which cannot be read.
    FlacUnsupportedSampleBits(u32),
    /// Interleaved `i16` samples from decoded Vorbis packets.
    OggVorbis,
    /// 8-bit integer WAV samples.
    WavI8,
    /// 16-bit integer WAV samples.
    WavI16,
    /// 24-bit integer WAV samples, read as `i32`.
    WavI24,
    /// 32-bit integer WAV samples.
    WavI32,
    /// Floating-point WAV samples.
    WavF32,
    /// Integer WAV samples of a width other than 8, 16, 24 or 32 bits.
    WavUnsupportedSampleBits(u16),
}

/// The layout of a FLAC stream with `bits` bits per sample.
pub open spec fn spec_flac_layout(bits: u32) -> SampleLayout {
    if bits > 32 {
        SampleLayout::FlacUnsupportedSampleBits(bits)
    } else {
        SampleLayout::Flac(bits)
    }
}

/// The layout of a WAV stream of the given sample format and width.
pub open spec fn spec_wav_layout(format: WavSampleFormat, bits: u16) -> SampleLayout {
    match format {
        WavSampleFormat::Float => SampleLayout::WavF32,
        WavSampleFormat::Int => if bits == 8 {
            SampleLayout::WavI8
        } else if bits == 16 {
            SampleLayout::WavI16
        } else if bits == 24 {
            SampleLayout::WavI24
        } else if bits == 32 {
            SampleLayout::WavI32
        } else {
            SampleLayout::WavUnsupportedSampleBits(bits)
        },
    }
}

/// The layout of a FLAC stream whose header declares `bits_per_sample`:
/// up to 32 bits are read, wider samples are refused.
pub fn flac_layout(bits_per_sample: u32) -> (res: SampleLayout)
    ensures
        res == spec_flac_layout(bits_per_sample),
        bits_per_sample <= 32 ==> res == SampleLayout::Flac(bits_per_sample),
        bits_per_sample > 32 ==> res == SampleLayout::FlacUnsupportedSampleBits(bits_per_sample),
{
    proof {
        lemma_flac_layout_keeps_width(bits_per_sample);
    }
    if bits_per_sample > 32 {
        SampleLayout::FlacUnsupportedSampleBits(bits_per_sample)
    } else {
        SampleLayout::Flac(bits_per_sample)
    }
}

/// The layout of a WAV stream: floating-point samples whatever their
/// declared width, integer samples of 8, 16, 24 or 32 bits; other integer
/// widths are refused.
pub fn wav_layout(format: WavSampleFormat, bits_per_sample: u16) -> (res: SampleLayout)
    ensures
        res == spec_wav_layout(format, bits_per_sample),
        format == WavSampleFormat::Float ==> res == SampleLayout::WavF32,
        format == WavSampleFormat::Int && bits_per_sample == 8 ==> res == SampleLayout::WavI8,
        format == WavSampleFormat::Int && bits_per_sample == 16 ==> res == SampleLayout::WavI16,
        format == WavSampleFormat::Int && bits_per_sample == 24 ==> res == SampleLayout::WavI24,
        format == WavSampleFormat::Int && bits_per_sample == 32 ==> res == SampleLayout::WavI32,
        format == WavSampleFormat::Int && bits_per_sample != 8 && bits_per_sample != 16
            && bits_per_sample != 24 && bits_per_sample != 32 ==> res
            == SampleLayout::WavUnsupportedSampleBits(bits_per_sample),
{
    proof {
        lemma_wav_layout_widths(format, bits_per_sample);
    }
    match format {
        WavSampleFormat::Int => {
            if bits_per_sample == 8 {
                SampleLayout::WavI8
            } else if bits_per_sample == 16 {
                SampleLayout::WavI16
            } else if bits_per_sample == 24 {
                SampleLayout::WavI24
            } else if bits_per_sample == 32 {
                SampleLayout::WavI32
            } else {
                SampleLayout::WavUnsupportedSampleBits(bits_per_sample)
            }
        },
        WavSampleFormat::Float => SampleLayout::WavF32,
    }
}

impl SampleLayout {
    /// The error that every read of a refused layout gives, and `None` for
    /// a layout that can be read.
    pub fn unsupported_error(&self) -> (res: Option<FormatError>)
        ensures
            match *self {
                SampleLayout::FlacUnsupportedSampleBits(bits) => res == Some(
                    FormatError::FlacUnsupportedSampleBits(bits),
                ),
                SampleLayout::WavUnsupportedSampleBits(bits) => res == Some(
                    FormatError::WavUnsupportedSampleBits(bits),
                ),
                _ => res is None,
            },
    {
        match *self {
            SampleLayout::FlacUnsupportedSampleBits(bits) => Some(
                FormatError::FlacUnsupportedSampleBits(bits),
            ),
            SampleLayout::WavUnsupportedSampleBits(bits) => Some(
                FormatError::WavUnsupportedSampleBits(bits),
            ),
            _ => None,
        }
    }
}

/// Whether `sample` is a signed integer of `bits` bits.
pub open spec fn fits_signed_bits(sample: int, bits: nat) -> bool {
    bits >= 1 && -pow2((bits - 1) as nat) <= sample < pow2((bits - 1) as nat)
}

/// A FLAC sample of `bits` bits scaled to the full 32-bit range: shifted
/// left by `32 - bits`, keeping the low 32 bits.
pub open spec fn spec_flac_normalized(sample: i32, bits: u32) -> i32 {
    (sample * pow2((32 - bits) as nat)) as i32
}

/// A `bits`-bit sample times `2^(32 - bits)` is a 32-bit integer.
proof fn lemma_scaled_fits(sample: int, bits: nat)
    requires
        1 <= bits <= 32,
        fits_signed_bits(sample, bits),
    ensures
        -pow2(31) <= sample * pow2((32 - bits) as nat) < pow2(31),
{
    let k = (32 - bits) as nat;
    let h = (bits - 1) as nat;
    lemma_pow2_adds(h, k);
    assert(h + k == 31);
    lemma_pow2_pos(k);
    lemma_mul_inequality(-pow2(h), sample, pow2(k) as int);
    lemma_mul_strict_inequality(sample, pow2(h) as int, pow2(k) as int);
    lemma_mul_unary_negation(pow2(h) as int, pow2(k) as int);
}

/// Scales a FLAC sample of `bits_per_sample` bits to the full range of
/// `i32`, as a left shift by `32 - bits_per_sample` does.
pub fn normalize_flac_sample(sample: i32, bits_per_sample: u32) -> (res: i32)
    requires
        1 <= bits_per_sample <= 32,
    ensures
        res == spec_flac_normalized(sample, bits_per_sample),
        fits_signed_bits(sample as int, bits_per_sample as nat) ==> res == sample * pow2(
            (32 - bits_per_sample) as nat,
        ),
{
    let shift: u32 = 32 - bits_per_sample;
    let mut factor: i64 = 1;
    let mut i: u32 = 0;
    proof {
        lemma2_to64();
    }
    while i < shift
        invariant
            shift <= 31,
            i <= shift,
            factor == pow2(i as nat),
            pow2(31) == 0x8000_0000,
        decreases shift - i,
    {
        proof {
            lemma_pow2_unfold((i + 1) as nat);
            lemma_pow2_strictly_increases(i as nat, 31);
        }
        factor = factor * 2;
        i = i + 1;
    }
    proof {
        if shift < 31 {
            lemma_pow2_strictly_increases(shift as nat, 31);
        }
        lemma_pow2_pos(shift as nat);
        assert(-0x4000_0000_0000_0000 <= sample * factor <= 0x4000_0000_0000_0000)
            by (nonlinear_arith)
            requires
                -0x8000_0000 <= sample < 0x8000_0000,
                0 < factor <= 0x8000_0000,
        ;
        if fits_signed_bits(sample as int, bits_per_sample as nat) {
            lemma_scaled_fits(sample as int, bits_per_sample as nat);
        }
    }
    let wide: i64 = (sample as i64) * factor;
    #[verifier::truncate]
    (wide as i32)
}

/// Scaling keeps the order of in-range samples.
pub proof fn lemma_flac_normalization_monotonic(a: i32, b: i32, bits: u32)
    requires
        1 <= bits <= 32,
        fits_signed_bits(a as int, bits as nat),
        fits_signed_bits(b as int, bits as nat),
        a <= b,
    ensures
        spec_flac_normalized(a, bits) <= spec_flac_normalized(b, bits),
{
    let k = (32 - bits) as nat;
    lemma_scaled_fits(a as int, bits as nat);
    lemma_scaled_fits(b as int, bits as nat);
    lemma2_to64();
    lemma_pow2_pos(k);
    lemma_mul_inequality(a as int, b as int, pow2(k) as int);
}

/// The most negative sample of any width scales to the most negative
/// `i32`, and the zero sample stays zero.
pub proof fn lemma_flac_normalization_full_scale(bits: u32)
    requires
        1 <= bits <= 32,
    ensures
        spec_flac_normalized(-pow2((bits - 1) as nat) as i32, bits) == i32::MIN,
        spec_flac_normalized(0, bits) == 0,
{
    let k = (32 - bits) as nat;
    let h = (bits - 1) as nat;
    lemma_pow2_adds(h, k);
    assert(h + k == 31);
    lemma2_to64();
    if h < 31 {
        lemma_pow2_strictly_increases(h, 31);
    }
    lemma_mul_unary_negation(pow2(h) as int, pow2(k) as int);
}

/// Decoded, interleaved Vorbis samples waiting to be handed out, oldest
/// first.
pub struct PacketBuffer {
    buffer: Vec<i16>,
    index: usize,
}

impl PacketBuffer {
    #[verifier::type_invariant]
    spec fn inv(self) -> bool {
        self.index <= self.buffer.len()
    }

    /// The samples not yet handed out, in the order they will come.
    pub closed spec fn pending(self) -> Seq<i16> {
        self.buffer@.subrange(self.index as int, self.buffer@.len() as int)
    }

    /// A buffer with nothing pending.
    pub fn new() -> (res: PacketBuffer)
        ensures
            res.pending() == Seq::<i16>::empty(),
    {
        let res = PacketBuffer { buffer: Vec::new(), index: 0 };
        assert(res.pending() =~= Seq::<i16>::empty());
        res
    }

    /// Hands out the oldest pending sample, or `None` when nothing is
    /// pending (the next packet must then be decoded).
    pub fn next_sample(&mut self) -> (res: Option<i16>)
        ensures
            old(self).pending().len() == 0 ==> res is None
                && final(self).pending() == old(self).pending(),
            old(self).pending().len() > 0 ==> res == Some(old(self).pending()[0])
                && final(self).pending() == old(self).pending().drop_first(),
    {
        proof {
            use_type_invariant(&*self);
        }
        if self.index < self.buffer.len() {
            let sample = self.buffer[self.index];
            self.index = self.index + 1;
            assert(self.pending() =~= old(self).pending().drop_first());
            Some(sample)
        } else {
            None
        }
    }

    /// Replaces what is pending by a freshly decoded packet.
    pub fn refill(&mut self, packet: Vec<i16>)
        ensures
            final(self).pending() == packet@,
    {
        *self = PacketBuffer { buffer: packet, index: 0 };
        assert(self.pending() =~= packet@);
    }
}

/// The samples that a Vorbis stream yields, given what is pending and the
/// packets still to be decoded: while something is pending the oldest
/// pending sample is handed out (`next_sample`); when nothing is, the next
/// packet is put in (`refill`); when no packet is left the stream ends.
pub open spec fn spec_vorbis_stream(pending: Seq<i16>, packets: Seq<Seq<i16>>) -> Seq<i16>
    decreases packets.len(), pending.len(),
{
    if pending.len() > 0 {
        seq![pending[0]] + spec_vorbis_stream(pending.drop_first(), packets)
    } else if packets.len() > 0 {
        spec_vorbis_stream(packets[0], packets.drop_first())
    } else {
        Seq::empty()
    }
}

/// A Vorbis stream yields what is pending and then every decoded packet in
/// turn, each sample once and in order; empty packets add nothing.
pub proof fn lemma_vorbis_stream_concatenates(pending: Seq<i16>, packets: Seq<Seq<i16>>)
    ensures
        spec_vorbis_stream(pending, packets) == pending + packets.flatten(),
    decreases packets.len(), pending.len(),
{
    if pending.len() > 0 {
        lemma_vorbis_stream_concatenates(pending.drop_first(), packets);
        assert(seq![pending[0]] + (pending.drop_first() + packets.flatten()) =~= pending
            + packets.flatten());
    } else if packets.len() > 0 {
        lemma_vorbis_stream_concatenates(packets[0], packets.drop_first());
        assert(pending + packets.flatten() =~= packets.flatten());
    } else {
        assert(pending + packets.flatten() =~= Seq::<i16>::empty());
    }
}

/// A FLAC stream of at most 32 bits per sample is read at the width its
/// header declares, and only a wider one is refused, with that width. Read
/// at width `b`, a sample `x` of `b` bits comes out as `x * 2^(32 - b)`: the
/// least sample step `1` (for `b >= 2`) becomes `2^(32 - b)`.
pub proof fn lemma_flac_layout_keeps_width(bits: u32)
    ensures
        bits <= 32 ==> spec_flac_layout(bits) == SampleLayout::Flac(bits),
        bits > 32 ==> spec_flac_layout(bits) == SampleLayout::FlacUnsupportedSampleBits(bits),
        spec_flac_layout(bits) matches SampleLayout::Flac(w) ==> w == bits,
        2 <= bits <= 32 ==> spec_flac_normalized(1, bits) == pow2((32 - bits) as nat),
{
    if 2 <= bits <= 32 {
        lemma2_to64();
        lemma_pow2_strictly_increases(0, (bits - 1) as nat);
        assert(fits_signed_bits(1, bits as nat));
        lemma_scaled_fits(1, bits as nat);
    }
}

/// A floating-point WAV stream is read as `f32` whatever width it declares;
/// an integer one is read at 8, 16, 24 or 32 bits, and any other width is
/// refused with that width.
pub proof fn lemma_wav_layout_widths(format: WavSampleFormat, bits: u16)
    ensures
        format == WavSampleFormat::Float ==> spec_wav_layout(format, bits) == SampleLayout::WavF32,
        format == WavSampleFormat::Int && bits == 8 ==> spec_wav_layout(format, bits)
            == SampleLayout::WavI8,
        format == WavSampleFormat::Int && bits == 16 ==> spec_wav_layout(format, bits)
            == SampleLayout::WavI16,
        format == WavSampleFormat::Int && bits == 24 ==> spec_wav_layout(format, bits)
            == SampleLayout::WavI24,
        format == WavSampleFormat::Int && bits == 32 ==> spec_wav_layout(format, bits)
            == SampleLayout::WavI32,
        format == WavSampleFormat::Int && bits != 8 && bits != 16 && bits != 24 && bits != 32
            ==> spec_wav_layout(format, bits) == SampleLayout::WavUnsupportedSampleBits(bits),
{
}

} // verus!
