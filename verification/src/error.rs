//! The errors that reading audio can end in.
use vstd::prelude::*;
use vstd::std_specs::convert::FromSpecImpl;

verus! {

/// The error type of the FLAC decoder.
#[verifier::external_type_specification]
#[verifier::external_body]
pub struct ExClaxonError(claxon::Error);

/// The error type of the WAV decoder.
#[verifier::external_type_specification]
#[verifier::external_body]
pub struct ExHoundError(hound::Error);

/// The error type of the Ogg Vorbis decoder.
#[verifier::external_type_specification]
#[verifier::external_body]
pub struct ExVorbisError(lewton::VorbisError);

/// The error type of std's readers.
#[verifier::external_type_specification]
#[verifier::external_body]
pub struct ExIoError(std::io::Error);

/// An error met while decoding one of the formats.
#[derive(Debug)]
pub enum FormatError {
    Flac(claxon::Error),
    FlacUnsupportedSampleBits(u32),
    OggVorbis(lewton::VorbisError),
    Wav(hound::Error),
    WavUnsupportedSampleBits(u16),
}

/// An error met while opening audio.
#[derive(Debug)]
pub enum ReadError {
    Io(std::io::Error),
    Reader(FormatError),
    UnsupportedFormat,
}

/// The text of the FLAC decoder's error, as its `Display` writes it. The error is opaque
/// here, so nothing is claimed of the text.
#[verifier::external_body]
fn claxon_error_text(err: &claxon::Error) -> String {
    format!("{err}")
}

/// The text that the Ogg Vorbis decoder's `Display` writes for an error: a
/// fixed text for each variant, so a function of the error alone.
pub uninterp spec fn vorbis_error_display(err: lewton::VorbisError) -> Seq<char>;

/// The text of the Ogg Vorbis decoder's error, as its `Display` writes it.
#[verifier::external_body]
fn vorbis_error_text(err: &lewton::VorbisError) -> (res: String)
    ensures
        res@ == vorbis_error_display(*err),
{
    format!("{err}")
}

/// The text of the WAV decoder's error, as its `Display` writes it. The error is opaque
/// here, so nothing is claimed of the text.
#[verifier::external_body]
fn hound_error_text(err: &hound::Error) -> String {
    format!("{err}")
}

/// The text of an I/O error, as its `Display` writes it. The error is opaque
/// here, so nothing is claimed of the text.
#[verifier::external_body]
fn io_error_text(err: &std::io::Error) -> String {
    format!("{err}")
}

/// The message for FLAC streams whose samples are wider than 32 bits.
pub open spec fn flac_bits_message() -> Seq<char> {
    "More than 32 bits per sample are not supported for Flac"@
}

/// The message for integer WAV streams of an unsupported width.
pub open spec fn wav_bits_message() -> Seq<char> {
    "Only 8, 16, 24, 32 bits supported for integer wave"@
}

impl FormatError {
    /// The human-readable description of this error. For an error of a
    /// decoder it is that decoder's own description.
    pub fn to_string(&self) -> (res: String)
        ensures
            self is FlacUnsupportedSampleBits ==> res@ == flac_bits_message(),
            self is WavUnsupportedSampleBits ==> res@ == wav_bits_message(),
            self matches FormatError::OggVorbis(v) ==> res@ == vorbis_error_display(*v),
    {
        match self {
            FormatError::Flac(err) => claxon_error_text(err),
            FormatError::FlacUnsupportedSampleBits(_) => {
                "More than 32 bits per sample are not supported for Flac".to_owned()
            },
            FormatError::OggVorbis(err) => vorbis_error_text(err),
            FormatError::Wav(err) => hound_error_text(err),
            FormatError::WavUnsupportedSampleBits(_) => {
                "Only 8, 16, 24, 32 bits supported for integer wave".to_owned()
            },
        }
    }
}

impl ReadError {
    /// The human-readable description of this error: that of the I/O error
    /// or of the format error it holds.
    pub fn to_string(&self) -> (res: String)
        requires
            !(self is UnsupportedFormat),
        ensures
            self matches ReadError::Reader(e) && e is FlacUnsupportedSampleBits ==> res@
                == flac_bits_message(),
            self matches ReadError::Reader(e) && e is WavUnsupportedSampleBits ==> res@
                == wav_bits_message(),
            self matches ReadError::Reader(FormatError::OggVorbis(v)) ==> res@
                == vorbis_error_display(*v),
    {
        match self {
            ReadError::Io(err) => io_error_text(err),
            ReadError::Reader(err) => err.to_string(),
            ReadError::UnsupportedFormat => {
                assert(false);
                String::new()
            },
        }
    }
}

impl From<claxon::Error> for FormatError {
    fn from(err: claxon::Error) -> (res: Self) {
        FormatError::Flac(err)
    }
}

impl FromSpecImpl<claxon::Error> for FormatError {
    open spec fn obeys_from_spec() -> bool {
        true
    }

    open spec fn from_spec(v: claxon::Error) -> Self {
        FormatError::Flac(v)
    }
}

impl From<lewton::VorbisError> for FormatError {
    fn from(err: lewton::VorbisError) -> (res: Self) {
        FormatError::OggVorbis(err)
    }
}

impl FromSpecImpl<lewton::VorbisError> for FormatError {
    open spec fn obeys_from_spec() -> bool {
        true
    }

    open spec fn from_spec(v: lewton::VorbisError) -> Self {
        FormatError::OggVorbis(v)
    }
}

impl From<hound::Error> for FormatError {
    fn from(err: hound::Error) -> (res: Self) {
        FormatError::Wav(err)
    }
}

impl FromSpecImpl<hound::Error> for FormatError {
    open spec fn obeys_from_spec() -> bool {
        true
    }

    open spec fn from_spec(v: hound::Error) -> Self {
        FormatError::Wav(v)
    }
}

impl From<FormatError> for ReadError {
    fn from(err: FormatError) -> (res: Self) {
        ReadError::Reader(err)
    }
}

impl FromSpecImpl<FormatError> for ReadError {
    open spec fn obeys_from_spec() -> bool {
        true
    }

    open spec fn from_spec(v: FormatError) -> Self {
        ReadError::Reader(v)
    }
}

impl From<claxon::Error> for ReadError {
    fn from(err: claxon::Error) -> (res: Self) {
        ReadError::Reader(FormatError::Flac(err))
    }
}

impl FromSpecImpl<claxon::Error> for ReadError {
    open spec fn obeys_from_spec() -> bool {
        true
    }

    open spec fn from_spec(v: claxon::Error) -> Self {
        ReadError::Reader(FormatError::Flac(v))
    }
}

impl From<lewton::VorbisError> for ReadError {
    fn from(err: lewton::VorbisError) -> (res: Self) {
        ReadError::Reader(FormatError::OggVorbis(err))
    }
}

impl FromSpecImpl<lewton::VorbisError> for ReadError {
    open spec fn obeys_from_spec() -> bool {
        true
    }

    open spec fn from_spec(v: lewton::VorbisError) -> Self {
        ReadError::Reader(FormatError::OggVorbis(v))
    }
}

impl From<hound::Error> for ReadError {
    fn from(err: hound::Error) -> (res: Self) {
        ReadError::Reader(FormatError::Wav(err))
    }
}

impl FromSpecImpl<hound::Error> for ReadError {
    open spec fn obeys_from_spec() -> bool {
        true
    }

    open spec fn from_spec(v: hound::Error) -> Self {
        ReadError::Reader(FormatError::Wav(v))
    }
}

impl From<std::io::Error> for ReadError {
    fn from(err: std::io::Error) -> (res: Self) {
        ReadError::Io(err)
    }
}

impl FromSpecImpl<std::io::Error> for ReadError {
    open spec fn obeys_from_spec() -> bool {
        true
    }

    open spec fn from_spec(v: std::io::Error) -> Self {
        ReadError::Io(v)
    }
}

} // verus!
