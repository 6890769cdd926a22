use audrey::probe::{
    first_probe, flac_probe_outcome, next_step, ogg_vorbis_probe_outcome, wav_probe_outcome,
    FlacErrorKind, ProbeOutcome, ProbeStep, VorbisErrorKind, VorbisHeaderErrorKind, WavErrorKind,
};
use audrey::Format;

fn detect(outcome: impl Fn(Format) -> ProbeOutcome) -> ProbeStep {
    let mut current = first_probe();
    loop {
        match next_step(current, outcome(current)) {
            ProbeStep::Probe(next) => current = next,
            other => return other,
        }
    }
}

#[test]
fn first_probe_is_wav() {
    assert_eq!(first_probe(), Format::Wav);
}

#[test]
fn next_step_each_case() {
    assert_eq!(
        next_step(Format::Wav, ProbeOutcome::Recognized),
        ProbeStep::Open(Format::Wav)
    );
    assert_eq!(
        next_step(Format::Wav, ProbeOutcome::NotThisFormat),
        ProbeStep::Probe(Format::Flac)
    );
    assert_eq!(
        next_step(Format::Flac, ProbeOutcome::NotThisFormat),
        ProbeStep::Probe(Format::OggVorbis)
    );
    assert_eq!(
        next_step(Format::OggVorbis, ProbeOutcome::NotThisFormat),
        ProbeStep::Unsupported
    );
    assert_eq!(next_step(Format::Flac, ProbeOutcome::Failed), ProbeStep::Fail);
    assert_eq!(
        next_step(Format::OggVorbis, ProbeOutcome::Recognized),
        ProbeStep::Open(Format::OggVorbis)
    );
}

#[test]
fn detection_scenarios() {
    assert_eq!(detect(|_| ProbeOutcome::NotThisFormat), ProbeStep::Unsupported);
    assert_eq!(
        detect(|f| if f == Format::OggVorbis {
            ProbeOutcome::Recognized
        } else {
            ProbeOutcome::NotThisFormat
        }),
        ProbeStep::Open(Format::OggVorbis)
    );
    assert_eq!(detect(|_| ProbeOutcome::Recognized), ProbeStep::Open(Format::Wav));
    assert_eq!(
        detect(|f| if f == Format::Wav {
            ProbeOutcome::NotThisFormat
        } else if f == Format::Flac {
            ProbeOutcome::Failed
        } else {
            ProbeOutcome::Recognized
        }),
        ProbeStep::Fail
    );
}

#[test]
fn classifying_decoder_errors() {
    assert_eq!(wav_probe_outcome(Ok(())), ProbeOutcome::Recognized);
    assert_eq!(wav_probe_outcome(Err(WavErrorKind::Format)), ProbeOutcome::NotThisFormat);
    assert_eq!(wav_probe_outcome(Err(WavErrorKind::Io)), ProbeOutcome::Failed);
    assert_eq!(wav_probe_outcome(Err(WavErrorKind::Unsupported)), ProbeOutcome::Failed);

    assert_eq!(flac_probe_outcome(Ok(())), ProbeOutcome::Recognized);
    assert_eq!(flac_probe_outcome(Err(FlacErrorKind::Format)), ProbeOutcome::NotThisFormat);
    assert_eq!(flac_probe_outcome(Err(FlacErrorKind::Unsupported)), ProbeOutcome::Failed);
    assert_eq!(flac_probe_outcome(Err(FlacErrorKind::Io)), ProbeOutcome::Failed);

    assert_eq!(ogg_vorbis_probe_outcome(Ok(())), ProbeOutcome::Recognized);
    assert_eq!(
        ogg_vorbis_probe_outcome(Err(VorbisErrorKind::BadHeader(
            VorbisHeaderErrorKind::NotVorbisHeader
        ))),
        ProbeOutcome::NotThisFormat
    );
    assert_eq!(ogg_vorbis_probe_outcome(Err(VorbisErrorKind::Ogg)), ProbeOutcome::NotThisFormat);
    assert_eq!(
        ogg_vorbis_probe_outcome(Err(VorbisErrorKind::BadHeader(
            VorbisHeaderErrorKind::HeaderBadFormat
        ))),
        ProbeOutcome::Failed
    );
    assert_eq!(ogg_vorbis_probe_outcome(Err(VorbisErrorKind::BadAudio)), ProbeOutcome::Failed);
}

#[test]
fn detection_over_decoder_errors() {
    let run = |w: Result<(), WavErrorKind>, f: Result<(), FlacErrorKind>, o: Result<(), VorbisErrorKind>| {
        detect(|format| match format {
            Format::Wav => wav_probe_outcome(w),
            Format::Flac => flac_probe_outcome(f),
            Format::OggVorbis => ogg_vorbis_probe_outcome(o),
        })
    };
    assert_eq!(
        run(Err(WavErrorKind::Format), Ok(()), Err(VorbisErrorKind::Ogg)),
        ProbeStep::Open(Format::Flac)
    );
    assert_eq!(
        run(Err(WavErrorKind::Format), Err(FlacErrorKind::Format), Ok(())),
        ProbeStep::Open(Format::OggVorbis)
    );
    assert_eq!(
        run(Err(WavErrorKind::Format), Err(FlacErrorKind::Format), Err(VorbisErrorKind::Ogg)),
        ProbeStep::Unsupported
    );
    assert_eq!(
        run(Err(WavErrorKind::Io), Ok(()), Ok(())),
        ProbeStep::Fail
    );
}
