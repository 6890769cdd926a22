//! The audio formats the library knows, and their file extensions.
use vstd::prelude::*;
use vstd::string::*;

verus! {

/// An audio format that the library can read.
#[derive(Copy, Clone, Debug, Hash, PartialEq, Eq, Structural)]
pub enum Format {
    Flac,
    OggVorbis,
    Wav,
}

/// The extension `flac`.
pub open spec fn flac_ext() -> Seq<char> {
    seq!['f', 'l', 'a', 'c']
}

/// The extension `ogg`.
pub open spec fn ogg_ext() -> Seq<char> {
    seq!['o', 'g', 'g']
}

/// The extension `oga`.
pub open spec fn oga_ext() -> Seq<char> {
    seq!['o', 'g', 'a']
}

/// The extension `wav`.
pub open spec fn wav_ext() -> Seq<char> {
    seq!['w', 'a', 'v']
}

/// The extension `wave`.
pub open spec fn wave_ext() -> Seq<char> {
    seq!['w', 'a', 'v', 'e']
}

/// The format named by a file extension (matched exactly, case included).
pub open spec fn spec_from_extension(ext: Seq<char>) -> Option<Format> {
    if ext == flac_ext() {
        Some(Format::Flac)
    } else if ext == ogg_ext() || ext == oga_ext() {
        Some(Format::OggVorbis)
    } else if ext == wav_ext() || ext == wave_ext() {
        Some(Format::Wav)
    } else {
        None
    }
}

/// The canonical extension of a format.
pub open spec fn spec_extension(format: Format) -> Seq<char> {
    match format {
        Format::Flac => flac_ext(),
        Format::OggVorbis => ogg_ext(),
        Format::Wav => wav_ext(),
    }
}

/// The five extensions are pairwise distinct.
proof fn lemma_extensions_distinct()
    ensures
        flac_ext() != ogg_ext(),
        flac_ext() != oga_ext(),
        flac_ext() != wav_ext(),
        flac_ext() != wave_ext(),
        ogg_ext() != oga_ext(),
        ogg_ext() != wav_ext(),
        ogg_ext() != wave_ext(),
        oga_ext() != wav_ext(),
        oga_ext() != wave_ext(),
        wav_ext() != wave_ext(),
{
    assert(flac_ext()[0] != wave_ext()[0]);
    assert(ogg_ext()[2] != oga_ext()[2]);
    assert(ogg_ext()[0] != wav_ext()[0]);
    assert(oga_ext()[0] != wav_ext()[0]);
    assert(wav_ext().len() != wave_ext().len());
}

/// Whether `s` holds exactly the characters `lit`.
fn str_is(s: &str, lit: &str) -> (res: bool)
    ensures
        res == (s@ == lit@),
{
    let n = s.unicode_len();
    let m = lit.unicode_len();
    if n != m {
        return false;
    }
    let mut i: usize = 0;
    while i < n
        invariant
            n == s@.len(),
            m == lit@.len(),
            n == m,
            i <= n,
            forall|j: int| 0 <= j < i ==> s@[j] == lit@[j],
        decreases n - i,
    {
        if s.get_char(i) != lit.get_char(i) {
            return false;
        }
        i = i + 1;
    }
    assert(s@ =~= lit@);
    true
}

impl Format {
    /// The format whose extension is `extension`: `flac`; `ogg` or `oga`;
    /// `wav` or `wave`. Any other text, in any other case, names no format.
    pub fn from_extension(extension: &str) -> (res: Option<Format>)
        ensures
            res == spec_from_extension(extension@),
            res == Some(Format::Flac) <==> extension@ == seq!['f', 'l', 'a', 'c'],
            res == Some(Format::OggVorbis) <==> extension@ == seq!['o', 'g', 'g'] || extension@
                == seq!['o', 'g', 'a'],
            res == Some(Format::Wav) <==> extension@ == seq!['w', 'a', 'v'] || extension@ == seq![
                'w',
                'a',
                'v',
                'e',
            ],
            res is None <==> !(extension@ == seq!['f', 'l', 'a', 'c'] || extension@ == seq![
                'o',
                'g',
                'g',
            ] || extension@ == seq!['o', 'g', 'a'] || extension@ == seq!['w', 'a', 'v']
                || extension@ == seq!['w', 'a', 'v', 'e']),
    {
        proof {
            lemma_from_extension_names(extension@);
            lemma_extensions_distinct();
            reveal_strlit("flac");
            reveal_strlit("ogg");
            reveal_strlit("oga");
            reveal_strlit("wav");
            reveal_strlit("wave");
            assert("flac"@ =~= flac_ext());
            assert("ogg"@ =~= ogg_ext());
            assert("oga"@ =~= oga_ext());
            assert("wav"@ =~= wav_ext());
            assert("wave"@ =~= wave_ext());
        }
        if str_is(extension, "flac") {
            assert(extension@ =~= flac_ext());
            Some(Format::Flac)
        } else if str_is(extension, "ogg") || str_is(extension, "oga") {
            assert(extension@ =~= ogg_ext() || extension@ =~= oga_ext());
            assert(extension@ != flac_ext());
            Some(Format::OggVorbis)
        } else if str_is(extension, "wav") || str_is(extension, "wave") {
            assert(extension@ =~= wav_ext() || extension@ =~= wave_ext());
            assert(extension@ != flac_ext());
            assert(extension@ != ogg_ext());
            assert(extension@ != oga_ext());
            Some(Format::Wav)
        } else {
            assert(extension@ != flac_ext());
            assert(extension@ != ogg_ext());
            assert(extension@ != oga_ext());
            assert(extension@ != wav_ext());
            assert(extension@ != wave_ext());
            None
        }
    }

    /// The canonical extension of this format: `flac`, `ogg` or `wav`.
    pub fn extension(self) -> (res: &'static str)
        ensures
            res@ == spec_extension(self),
            self == Format::Flac ==> res@ == seq!['f', 'l', 'a', 'c'],
            self == Format::OggVorbis ==> res@ == seq!['o', 'g', 'g'],
            self == Format::Wav ==> res@ == seq!['w', 'a', 'v'],
    {
        match self {
            Format::Flac => {
                proof {
                    reveal_strlit("flac");
                }
                let s = "flac";
                assert(s@ =~= flac_ext());
                s
            },
            Format::Wav => {
                proof {
                    reveal_strlit("wav");
                }
                let s = "wav";
                assert(s@ =~= wav_ext());
                s
            },
            Format::OggVorbis => {
                proof {
                    reveal_strlit("ogg");
                }
                let s = "ogg";
                assert(s@ =~= ogg_ext());
                s
            },
        }
    }
}

/// The canonical extension of every format names that format again.
pub proof fn lemma_extension_round_trip(format: Format)
    ensures
        spec_from_extension(spec_extension(format)) == Some(format),
{
    lemma_extensions_distinct();
}

/// Two formats with the same canonical extension are the same format.
pub proof fn lemma_extension_injective(a: Format, b: Format)
    requires
        spec_extension(a) == spec_extension(b),
    ensures
        a == b,
{
    lemma_extension_round_trip(a);
    lemma_extension_round_trip(b);
}

/// Exactly five extensions name a format, matched character for character:
/// `flac` names FLAC; `ogg` and `oga` name Ogg Vorbis; `wav` and `wave` name
/// WAV. Every other text, in any case, names none.
pub proof fn lemma_from_extension_names(ext: Seq<char>)
    ensures
        spec_from_extension(ext) == Some(Format::Flac) <==> ext == seq!['f', 'l', 'a', 'c'],
        spec_from_extension(ext) == Some(Format::OggVorbis) <==> ext == seq!['o', 'g', 'g'] || ext
            == seq!['o', 'g', 'a'],
        spec_from_extension(ext) == Some(Format::Wav) <==> ext == seq!['w', 'a', 'v'] || ext
            == seq!['w', 'a', 'v', 'e'],
        spec_from_extension(ext) is None <==> !(ext == seq!['f', 'l', 'a', 'c'] || ext == seq![
            'o',
            'g',
            'g',
        ] || ext == seq!['o', 'g', 'a'] || ext == seq!['w', 'a', 'v'] || ext == seq![
            'w',
            'a',
            'v',
            'e',
        ]),
{
    lemma_extensions_distinct();
    assert(flac_ext() =~= seq!['f', 'l', 'a', 'c']);
    assert(ogg_ext() =~= seq!['o', 'g', 'g']);
    assert(oga_ext() =~= seq!['o', 'g', 'a']);
    assert(wav_ext() =~= seq!['w', 'a', 'v']);
    assert(wave_ext() =~= seq!['w', 'a', 'v', 'e']);
}

} // verus!
