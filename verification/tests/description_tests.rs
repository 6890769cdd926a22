use audrey::{Description, Format};

#[test]
fn description_getters() {
    let d = Description::new(Format::Wav, 2, 44100);
    assert_eq!(d.format(), Format::Wav);
    assert_eq!(d.channel_count(), 2);
    assert_eq!(d.sample_rate(), 44100);
}

#[test]
fn description_equality() {
    let a = Description::new(Format::Flac, 1, 48000);
    let b = Description::new(Format::Flac, 1, 48000);
    let c = Description::new(Format::Flac, 2, 48000);
    assert_eq!(a, b);
    assert_ne!(a, c);
}
