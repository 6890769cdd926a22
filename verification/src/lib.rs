//! Format detection and sample bookkeeping for FLAC, Ogg Vorbis and WAV audio.
pub mod description;
pub mod error;
pub mod format;
pub mod frame;
pub mod headers;
pub mod probe;
pub mod samples;

pub use description::Description;
pub use error::{FormatError, ReadError};
pub use format::Format;
