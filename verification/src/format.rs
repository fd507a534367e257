//! The three output formats and the media types that select them.

use vstd::prelude::*;
use vstd::string::*;
use vstd::utf8::*;

verus! {

/// The textual format of the emitted cues.
#[derive(Copy, Clone, Debug, PartialEq, Eq, Structural)]
pub enum Format {
    /// SubRip: numbered cues with a timing line.
    Srt,
    /// WebVTT: a header once, then cues with a timing line.
    Vtt,
    /// The caption text alone; the timing travels beside the bytes.
    Raw,
}

/// The media type of the caption data that comes in.
pub fn input_media_type() -> (name: &'static str)
    ensures
        name@ == "closedcaption/x-cea-608"@,
{
    "closedcaption/x-cea-608"
}

/// The sub-format of the caption data that comes in.
pub fn input_format() -> (name: &'static str)
    ensures
        name@ == "raw"@,
{
    "raw"
}

impl Format {
    /// The media type by which downstream asks for this format.
    pub open spec fn spec_media_type(self) -> Seq<char> {
        match self {
            Format::Vtt => "application/x-subtitle-vtt"@,
            Format::Srt => "application/x-subtitle"@,
            Format::Raw => "text/x-raw"@,
        }
    }

    /// The text encoding that is announced beside the media type: `utf8` for raw
    /// text, none for the two subtitle formats.
    pub open spec fn spec_encoding(self) -> Option<Seq<char>> {
        match self {
            Format::Raw => Some("utf8"@),
            Format::Vtt | Format::Srt => None,
        }
    }

    /// The format that a media type selects, if it names one of the three.
    pub open spec fn spec_from_media_type(name: Seq<char>) -> Option<Format> {
        if name == Format::Vtt.spec_media_type() {
            Some(Format::Vtt)
        } else if name == Format::Srt.spec_media_type() {
            Some(Format::Srt)
        } else if name == Format::Raw.spec_media_type() {
            Some(Format::Raw)
        } else {
            None
        }
    }

    /// Whether a stream in this format starts with a header unit.
    pub open spec fn spec_has_header(self) -> bool {
        self == Format::Vtt
    }

    /// The media type by which downstream asks for this format, and which is
    /// announced back once it is chosen.
    pub fn media_type(self) -> (name: &'static str)
        ensures
            name@ == self.spec_media_type(),
    {
        match self {
            Format::Vtt => "application/x-subtitle-vtt",
            Format::Srt => "application/x-subtitle",
            Format::Raw => "text/x-raw",
        }
    }

    /// The text encoding announced beside the media type, where there is one.
    pub fn encoding(self) -> (name: Option<&'static str>)
        ensures
            name is Some == self.spec_encoding() is Some,
            name matches Some(n) ==> n@ == self.spec_encoding()->0,
    {
        match self {
            Format::Raw => Some("utf8"),
            Format::Vtt | Format::Srt => None,
        }
    }

    /// The format that the media type `name` selects: `None` for any name but the
    /// three media types of `media_type`.
    pub fn from_media_type(name: &str) -> (format: Option<Format>)
        ensures
            format == Format::spec_from_media_type(name@),
    {
        if same_text(name, "application/x-subtitle-vtt") {
            Some(Format::Vtt)
        } else if same_text(name, "application/x-subtitle") {
            Some(Format::Srt)
        } else if same_text(name, "text/x-raw") {
            Some(Format::Raw)
        } else {
            None
        }
    }

    /// Whether a stream in this format starts with a header unit: WebVTT alone.
    pub fn has_header(self) -> (header: bool)
        ensures
            header == self.spec_has_header(),
    {
        match self {
            Format::Vtt => true,
            Format::Srt | Format::Raw => false,
        }
    }

    /// Each format is selected by its own media type, and by no other format's.
    pub proof fn lemma_media_type_selects(self)
        ensures
            Format::spec_from_media_type(self.spec_media_type()) == Some(self),
    {
        reveal_strlit("application/x-subtitle-vtt");
        reveal_strlit("application/x-subtitle");
        reveal_strlit("text/x-raw");
        assert("application/x-subtitle-vtt"@.len() == 26);
        assert("application/x-subtitle"@.len() == 22);
        assert("text/x-raw"@.len() == 10);
    }
}

/// Whether two byte slices hold the same bytes.
fn same_bytes(a: &[u8], b: &[u8]) -> (same: bool)
    ensures
        same == (a@ == b@),
{
    if a.len() != b.len() {
        return false;
    }
    let mut i: usize = 0;
    while i < a.len()
        invariant
            a.len() == b.len(),
            i <= a.len(),
            forall|k: int| 0 <= k < i ==> a@[k] == b@[k],
        decreases a.len() - i,
    {
        if a[i] != b[i] {
            return false;
        }
        i = i + 1;
    }
    assert(a@ =~= b@);
    true
}

/// Whether two strings hold the same characters.
fn same_text(a: &str, b: &str) -> (same: bool)
    ensures
        same == (a@ == b@),
{
    let same = same_bytes(a.as_bytes(), b.as_bytes());
    proof {
        encode_utf8_decode_utf8(a@);
        encode_utf8_decode_utf8(b@);
    }
    same
}

} // verus!
