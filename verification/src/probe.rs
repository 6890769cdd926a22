//! Detecting the format of a stream: each decoder in turn (WAV, then FLAC,
//! then Ogg Vorbis) tries to read the stream's header; the first that
//! recognises it reads the stream.
use vstd::prelude::*;

use crate::format::Format;

verus! {

/// What one decoder's attempt to read the header found.
#[derive(Copy, Clone, Debug, PartialEq, Eq, Structural)]
pub enum ProbeOutcome {
    /// The header is one of this decoder's format.
    Recognized,
    /// The stream is not of this decoder's format.
    NotThisFormat,
    /// Reading failed for another reason (such as I/O); detection stops.
    Failed,
}

/// What to do after an attempt.
#[derive(Copy, Clone, Debug, PartialEq, Eq, Structural)]
pub enum ProbeStep {
    /// Rewind the stream and read it with this format's decoder.
    Open(Format),
    /// Rewind the stream and try this format's decoder next.
    Probe(Format),
    /// Give up with the error of the failed attempt.
    Fail,
    /// No decoder recognised the stream.
    Unsupported,
}

/// The decoder tried after that of `format`, if any.
pub open spec fn spec_probe_after(format: Format) -> Option<Format> {
    match format {
        Format::Wav => Some(Format::Flac),
        Format::Flac => Some(Format::OggVorbis),
        Format::OggVorbis => None,
    }
}

/// The step after the attempt of `current`'s decoder gave `outcome`.
pub open spec fn spec_next_step(current: Format, outcome: ProbeOutcome) -> ProbeStep {
    match outcome {
        ProbeOutcome::Recognized => ProbeStep::Open(current),
        ProbeOutcome::Failed => ProbeStep::Fail,
        ProbeOutcome::NotThisFormat => match spec_probe_after(current) {
            Some(next) => ProbeStep::Probe(next),
            None => ProbeStep::Unsupported,
        },
    }
}

/// The decoder tried first: WAV.
pub fn first_probe() -> (res: Format)
    ensures
        res == Format::Wav,
{
    Format::Wav
}

/// The step after the attempt of `current`'s decoder gave `outcome`: a
/// recognised header opens that format, a failure stops detection, and a
/// header of another format moves on to the next decoder, or, after the
/// last one, to `Unsupported`.
pub fn next_step(current: Format, outcome: ProbeOutcome) -> (res: ProbeStep)
    ensures
        res == spec_next_step(current, outcome),
        outcome == ProbeOutcome::Recognized ==> res == ProbeStep::Open(current),
        outcome == ProbeOutcome::Failed ==> res == ProbeStep::Fail,
        outcome == ProbeOutcome::NotThisFormat && current == Format::Wav ==> res
            == ProbeStep::Probe(Format::Flac),
        outcome == ProbeOutcome::NotThisFormat && current == Format::Flac ==> res
            == ProbeStep::Probe(Format::OggVorbis),
        outcome == ProbeOutcome::NotThisFormat && current == Format::OggVorbis ==> res
            == ProbeStep::Unsupported,
{
    match outcome {
        ProbeOutcome::Recognized => ProbeStep::Open(current),
        ProbeOutcome::Failed => ProbeStep::Fail,
        ProbeOutcome::NotThisFormat => match current {
            Format::Wav => ProbeStep::Probe(Format::Flac),
            Format::Flac => ProbeStep::Probe(Format::OggVorbis),
            Format::OggVorbis => ProbeStep::Unsupported,
        },
    }
}

/// The kind of an error of the WAV decoder: one kind per variant of its
/// error type.
#[derive(Copy, Clone, Debug, PartialEq, Eq, Structural)]
pub enum WavErrorKind {
    Io,
    Format,
    TooWide,
    UnfinishedSample,
    Unsupported,
    InvalidSampleFormat,
}

/// The kind of an error of the FLAC decoder: one kind per variant of its
/// error type.
#[derive(Copy, Clone, Debug, PartialEq, Eq, Structural)]
pub enum FlacErrorKind {
    Io,
    Format,
    Unsupported,
}

/// The kind of a Vorbis header error: one kind per variant of the Vorbis
/// decoder's header error type.
#[derive(Copy, Clone, Debug, PartialEq, Eq, Structural)]
pub enum VorbisHeaderErrorKind {
    EndOfPacket,
    NotVorbisHeader,
    UnsupportedVorbisVersion,
    HeaderBadFormat,
    HeaderBadType(u8),
    HeaderIsAudio,
    Utf8DecodeError,
    BufferNotAddressable,
}

/// The kind of an error of the Ogg Vorbis decoder: one kind per variant of
/// its error type, with the cause of a bad header.
#[derive(Copy, Clone, Debug, PartialEq, Eq, Structural)]
pub enum VorbisErrorKind {
    BadAudio,
    BadHeader(VorbisHeaderErrorKind),
    Ogg,
}

/// The outcome of the WAV decoder's attempt.
pub open spec fn spec_wav_probe_outcome(attempt: Result<(), WavErrorKind>) -> ProbeOutcome {
    match attempt {
        Ok(_) => ProbeOutcome::Recognized,
        Err(WavErrorKind::Format) => ProbeOutcome::NotThisFormat,
        Err(_) => ProbeOutcome::Failed,
    }
}

/// The outcome of the FLAC decoder's attempt.
pub open spec fn spec_flac_probe_outcome(attempt: Result<(), FlacErrorKind>) -> ProbeOutcome {
    match attempt {
        Ok(_) => ProbeOutcome::Recognized,
        Err(FlacErrorKind::Format) => ProbeOutcome::NotThisFormat,
        Err(_) => ProbeOutcome::Failed,
    }
}

/// The outcome of the Ogg Vorbis decoder's attempt.
pub open spec fn spec_ogg_vorbis_probe_outcome(attempt: Result<(), VorbisErrorKind>) -> ProbeOutcome {
    match attempt {
        Ok(_) => ProbeOutcome::Recognized,
        Err(VorbisErrorKind::Ogg) => ProbeOutcome::NotThisFormat,
        Err(VorbisErrorKind::BadHeader(VorbisHeaderErrorKind::NotVorbisHeader)) => {
            ProbeOutcome::NotThisFormat
        },
        Err(_) => ProbeOutcome::Failed,
    }
}

/// The outcome of the WAV decoder's attempt: a header read is recognised;
/// an ill-formed-WAV error means another format; any other error fails.
pub fn wav_probe_outcome(attempt: Result<(), WavErrorKind>) -> (res: ProbeOutcome)
    ensures
        res == spec_wav_probe_outcome(attempt),
        attempt is Ok ==> res == ProbeOutcome::Recognized,
        attempt == Err::<(), WavErrorKind>(WavErrorKind::Format) ==> res
            == ProbeOutcome::NotThisFormat,
        attempt is Err && attempt != Err::<(), WavErrorKind>(WavErrorKind::Format) ==> res
            == ProbeOutcome::Failed,
{
    match attempt {
        Ok(_) => ProbeOutcome::Recognized,
        Err(WavErrorKind::Format) => ProbeOutcome::NotThisFormat,
        Err(_) => ProbeOutcome::Failed,
    }
}

/// The outcome of the FLAC decoder's attempt: a header read is recognised;
/// an ill-formed-FLAC error means another format; any other error fails.
pub fn flac_probe_outcome(attempt: Result<(), FlacErrorKind>) -> (res: ProbeOutcome)
    ensures
        res == spec_flac_probe_outcome(attempt),
        attempt is Ok ==> res == ProbeOutcome::Recognized,
        attempt == Err::<(), FlacErrorKind>(FlacErrorKind::Format) ==> res
            == ProbeOutcome::NotThisFormat,
        attempt is Err && attempt != Err::<(), FlacErrorKind>(FlacErrorKind::Format) ==> res
            == ProbeOutcome::Failed,
{
    match attempt {
        Ok(_) => ProbeOutcome::Recognized,
        Err(FlacErrorKind::Format) => ProbeOutcome::NotThisFormat,
        Err(_) => ProbeOutcome::Failed,
    }
}

/// The outcome of the Ogg Vorbis decoder's attempt: headers read are
/// recognised; a stream that is no Ogg stream, or whose first packet is no
/// Vorbis header, is of another format; any other error fails.
pub fn ogg_vorbis_probe_outcome(attempt: Result<(), VorbisErrorKind>) -> (res: ProbeOutcome)
    ensures
        res == spec_ogg_vorbis_probe_outcome(attempt),
        attempt is Ok ==> res == ProbeOutcome::Recognized,
        attempt == Err::<(), VorbisErrorKind>(VorbisErrorKind::Ogg) || attempt == Err::<
            (),
            VorbisErrorKind,
        >(VorbisErrorKind::BadHeader(VorbisHeaderErrorKind::NotVorbisHeader)) ==> res
            == ProbeOutcome::NotThisFormat,
        attempt is Err && attempt != Err::<(), VorbisErrorKind>(VorbisErrorKind::Ogg) && attempt
            != Err::<(), VorbisErrorKind>(
            VorbisErrorKind::BadHeader(VorbisHeaderErrorKind::NotVorbisHeader),
        ) ==> res == ProbeOutcome::Failed,
{
    match attempt {
        Ok(_) => ProbeOutcome::Recognized,
        Err(VorbisErrorKind::Ogg) => ProbeOutcome::NotThisFormat,
        Err(VorbisErrorKind::BadHeader(VorbisHeaderErrorKind::NotVorbisHeader)) => {
            ProbeOutcome::NotThisFormat
        },
        Err(_) => ProbeOutcome::Failed,
    }
}

/// Where a format's decoder stands in the order of attempts.
pub open spec fn probe_rank(format: Format) -> int {
    match format {
        Format::Wav => 0,
        Format::Flac => 1,
        Format::OggVorbis => 2,
    }
}

/// The step that detection ends on when each decoder's attempt would give
/// `outcome(format)`: the steps of `next_step`, from `first_probe`, until
/// one of them is not another attempt.
pub open spec fn spec_detect(outcome: spec_fn(Format) -> ProbeOutcome) -> ProbeStep {
    match spec_next_step(Format::Wav, outcome(Format::Wav)) {
        ProbeStep::Probe(second) => match spec_next_step(second, outcome(second)) {
            ProbeStep::Probe(third) => spec_next_step(third, outcome(third)),
            other => other,
        },
        other => other,
    }
}

/// Detection ends after at most three attempts, each decoder tried at most
/// once in the order WAV, FLAC, Ogg Vorbis. It opens a format exactly when
/// that decoder recognises the stream and every earlier one said the stream
/// is not of its format; it answers `Unsupported` exactly when every
/// decoder said so; otherwise an attempt failed before any recognised it.
pub proof fn lemma_detection(outcome: spec_fn(Format) -> ProbeOutcome)
    ensures
        !(spec_detect(outcome) is Probe),
        forall|f: Format|
            spec_detect(outcome) == ProbeStep::Open(f) <==> (outcome(f) == ProbeOutcome::Recognized
                && forall|g: Format|
                probe_rank(g) < probe_rank(f) ==> #[trigger] outcome(g) == ProbeOutcome::NotThisFormat),
        spec_detect(outcome) == ProbeStep::Unsupported <==> (forall|g: Format|
            #[trigger] outcome(g) == ProbeOutcome::NotThisFormat),
        spec_detect(outcome) == ProbeStep::Fail <==> (exists|f: Format|
            #[trigger] outcome(f) == ProbeOutcome::Failed && forall|g: Format|
                probe_rank(g) < probe_rank(f) ==> #[trigger] outcome(g) == ProbeOutcome::NotThisFormat),
{
    if spec_detect(outcome) == ProbeStep::Fail {
        if outcome(Format::Wav) == ProbeOutcome::Failed {
            assert(probe_rank(Format::Wav) == 0);
        } else if outcome(Format::Flac) == ProbeOutcome::Failed {
            assert(outcome(Format::Wav) == ProbeOutcome::NotThisFormat);
        } else {
            assert(outcome(Format::OggVorbis) == ProbeOutcome::Failed);
        }
    }
}

/// The outcome of each decoder's attempt on one stream.
pub open spec fn attempts_outcome(
    wav: Result<(), WavErrorKind>,
    flac: Result<(), FlacErrorKind>,
    ogg_vorbis: Result<(), VorbisErrorKind>,
) -> spec_fn(Format) -> ProbeOutcome {
    |f: Format|
        match f {
            Format::Wav => spec_wav_probe_outcome(wav),
            Format::Flac => spec_flac_probe_outcome(flac),
            Format::OggVorbis => spec_ogg_vorbis_probe_outcome(ogg_vorbis),
        }
}

/// Detection over what the decoders report on one stream: WAV opens when
/// the WAV decoder reads the header; FLAC when the WAV decoder calls the
/// stream ill-formed WAV and the FLAC decoder reads it; Ogg Vorbis when both
/// call it ill-formed and the Vorbis decoder reads it. The stream is
/// unsupported exactly when the WAV and FLAC decoders call it ill-formed and
/// the Vorbis decoder finds no Ogg stream or no Vorbis header. Any other
/// error of a decoder that is reached ends detection with that error.
pub proof fn lemma_detection_from_errors(
    wav: Result<(), WavErrorKind>,
    flac: Result<(), FlacErrorKind>,
    ogg_vorbis: Result<(), VorbisErrorKind>,
)
    ensures
        ({
            let d = spec_detect(attempts_outcome(wav, flac, ogg_vorbis));
            let wav_other = wav == Err::<(), WavErrorKind>(WavErrorKind::Format);
            let flac_other = flac == Err::<(), FlacErrorKind>(FlacErrorKind::Format);
            let ogg_other = ogg_vorbis == Err::<(), VorbisErrorKind>(VorbisErrorKind::Ogg)
                || ogg_vorbis == Err::<(), VorbisErrorKind>(
                VorbisErrorKind::BadHeader(VorbisHeaderErrorKind::NotVorbisHeader),
            );
            &&& (d == ProbeStep::Open(Format::Wav) <==> wav is Ok)
            &&& (d == ProbeStep::Open(Format::Flac) <==> wav_other && flac is Ok)
            &&& (d == ProbeStep::Open(Format::OggVorbis) <==> wav_other && flac_other
                && ogg_vorbis is Ok)
            &&& (d == ProbeStep::Unsupported <==> wav_other && flac_other && ogg_other)
            &&& (d == ProbeStep::Fail <==> (wav is Err && !wav_other) || (wav_other && flac is Err
                && !flac_other) || (wav_other && flac_other && ogg_vorbis is Err && !ogg_other))
        }),
{
}

} // verus!
