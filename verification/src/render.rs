//! Rendering a cue into the bytes of one output unit.

use vstd::prelude::*;
use vstd::string::*;

use crate::decimal::{push_decimal, zero_padded};
use crate::format::Format;
use crate::time::{split_time, split_time_spec};

verus! {

/// One output unit: the rendered bytes, and beside them the position in the
/// stream that they belong to.
#[derive(Debug, PartialEq, Eq)]
pub struct Buffer {
    /// The rendered bytes.
    pub data: Vec<u8>,
    /// The presentation time of the unit, in nanoseconds.
    pub pts: u64,
    /// How long the unit is shown, in nanoseconds; a header has none.
    pub duration: Option<u64>,
}

/// What a `Buffer` holds, as plain values.
pub struct BufferView {
    pub data: Seq<u8>,
    pub pts: nat,
    pub duration: Option<nat>,
}

impl View for Buffer {
    type V = BufferView;

    open spec fn view(&self) -> BufferView {
        BufferView {
            data: self.data@,
            pts: self.pts as nat,
            duration: match self.duration {
                Some(d) => Some(d as nat),
                None => None,
            },
        }
    }
}

/// The end of a line.
pub open spec fn line_end() -> Seq<u8> {
    "\r\n".spec_bytes()
}

/// The arrow between the two times of a timing line.
pub open spec fn arrow() -> Seq<u8> {
    " --> ".spec_bytes()
}

/// A time of day as `hours:minutes:seconds` and the milliseconds behind `mark`.
/// Minutes and seconds have two digits, milliseconds three; the hours have at
/// least `hour_width` digits and are not wrapped at 24.
pub open spec fn clock_text(time: nat, hour_width: nat, mark: Seq<u8>) -> Seq<u8> {
    let (h, m, s, ms) = split_time_spec(time);
    zero_padded(h, hour_width) + ":".spec_bytes() + zero_padded(m, 2) + ":".spec_bytes()
        + zero_padded(s, 2) + mark + zero_padded(ms, 3)
}

/// The bytes of the WebVTT header: the magic line and an empty line.
pub open spec fn vtt_header_text() -> Seq<u8> {
    "WEBVTT".spec_bytes() + line_end() + line_end()
}

/// The bytes of a WebVTT cue: the timing line with both times as
/// `HH:MM:SS.mmm`, the text, an empty line.
pub open spec fn vtt_cue_text(timestamp: nat, duration: nat, text: Seq<char>) -> Seq<u8> {
    clock_text(timestamp, 2, ".".spec_bytes()) + arrow() + clock_text(
        timestamp + duration,
        2,
        ".".spec_bytes(),
    ) + line_end() + vstd::utf8::encode_utf8(text) + line_end() + line_end()
}

/// The bytes of a SubRip cue: the index with at least two digits, the timing line
/// with the start as `H:MM:SS,mmm` (its hours are not padded) and the end as
/// `HH:MM:SS,mmm`, the text, an empty line.
pub open spec fn srt_cue_text(timestamp: nat, duration: nat, index: nat, text: Seq<char>) -> Seq<
    u8,
> {
    zero_padded(index, 2) + line_end() + clock_text(timestamp, 0, ",".spec_bytes()) + arrow()
        + clock_text(timestamp + duration, 2, ",".spec_bytes()) + line_end()
        + vstd::utf8::encode_utf8(text) + line_end() + line_end()
}

/// The bytes of a cue in the given format. Raw text is the text's bytes alone.
pub open spec fn cue_text(
    format: Format,
    timestamp: nat,
    duration: nat,
    index: nat,
    text: Seq<char>,
) -> Seq<u8> {
    match format {
        Format::Vtt => vtt_cue_text(timestamp, duration, text),
        Format::Srt => srt_cue_text(timestamp, duration, index, text),
        Format::Raw => vstd::utf8::encode_utf8(text),
    }
}

/// The header unit of a WebVTT stream whose first cue starts at `timestamp`.
pub open spec fn header_unit(timestamp: nat) -> BufferView {
    BufferView { data: vtt_header_text(), pts: timestamp, duration: None }
}

/// The output unit of a cue in the given format.
pub open spec fn cue_unit(
    format: Format,
    timestamp: nat,
    duration: nat,
    index: nat,
    text: Seq<char>,
) -> BufferView {
    BufferView {
        data: cue_text(format, timestamp, duration, index, text),
        pts: timestamp,
        duration: Some(duration),
    }
}

/// The markup between the numbers and the text, byte by byte.
pub proof fn lemma_markup_bytes()
    ensures
        line_end() == seq![13u8, 10u8],
        arrow() == seq![32u8, 45u8, 45u8, 62u8, 32u8],
        ":".spec_bytes() == seq![58u8],
        ".".spec_bytes() == seq![46u8],
        ",".spec_bytes() == seq![44u8],
        vtt_header_text() == seq![87u8, 69u8, 66u8, 86u8, 84u8, 84u8, 13u8, 10u8, 13u8, 10u8],
{
    broadcast use is_ascii_spec_bytes;

    reveal_strlit("\r\n");
    reveal_strlit(" --> ");
    reveal_strlit(":");
    reveal_strlit(".");
    reveal_strlit(",");
    reveal_strlit("WEBVTT");
    assert(is_ascii("\r\n"));
    assert(is_ascii(" --> "));
    assert(is_ascii(":"));
    assert(is_ascii("."));
    assert(is_ascii(","));
    assert(is_ascii("WEBVTT"));
    assert(line_end() =~= seq![13u8, 10u8]);
    assert(arrow() =~= seq![32u8, 45u8, 45u8, 62u8, 32u8]);
    assert(":".spec_bytes() =~= seq![58u8]);
    assert(".".spec_bytes() =~= seq![46u8]);
    assert(",".spec_bytes() =~= seq![44u8]);
    assert("WEBVTT".spec_bytes() =~= seq![87u8, 69u8, 66u8, 86u8, 84u8, 84u8]);
    assert(vtt_header_text() =~= seq![
        87u8,
        69u8,
        66u8,
        86u8,
        84u8,
        84u8,
        13u8,
        10u8,
        13u8,
        10u8,
    ]);
}

/// Appends the bytes of `text` to `out`.
fn push_text(out: &mut Vec<u8>, text: &str)
    ensures
        final(out)@ == old(out)@ + text.spec_bytes(),
{
    out.extend_from_slice(text.as_bytes());
}

/// Appends `time` as `hours:minutes:seconds`, `mark` and the milliseconds.
fn push_clock(out: &mut Vec<u8>, time: u64, hour_width: usize, mark: &str)
    ensures
        final(out)@ == old(out)@ + clock_text(time as nat, hour_width as nat, mark.spec_bytes()),
{
    let ghost before = out@;
    let (h, m, s, ms) = split_time(time);
    push_decimal(out, h, hour_width);
    push_text(out, ":");
    push_decimal(out, m as u64, 2);
    push_text(out, ":");
    push_decimal(out, s as u64, 2);
    push_text(out, mark);
    push_decimal(out, ms as u64, 3);
    assert(out@ =~= before + clock_text(time as nat, hour_width as nat, mark.spec_bytes()));
}

/// The header unit of a WebVTT stream. It carries the time of the first cue and
/// no duration.
pub fn create_vtt_header(timestamp: u64) -> (buffer: Buffer)
    ensures
        buffer@ == header_unit(timestamp as nat),
{
    let mut data: Vec<u8> = Vec::new();
    push_text(&mut data, "WEBVTT");
    push_text(&mut data, "\r\n");
    push_text(&mut data, "\r\n");
    assert(data@ =~= vtt_header_text());
    Buffer { data, pts: timestamp, duration: None }
}

/// The output unit of a WebVTT cue that starts at `timestamp` and lasts `duration`.
pub fn create_vtt_buffer(timestamp: u64, duration: u64, text: &str) -> (buffer: Buffer)
    requires
        timestamp + duration <= u64::MAX,
    ensures
        buffer@.data == vtt_cue_text(timestamp as nat, duration as nat, text@),
        buffer@.pts == timestamp,
        buffer@.duration == Some(duration as nat),
{
    let mut data: Vec<u8> = Vec::new();
    push_clock(&mut data, timestamp, 2, ".");
    push_text(&mut data, " --> ");
    push_clock(&mut data, timestamp + duration, 2, ".");
    push_text(&mut data, "\r\n");
    push_text(&mut data, text);
    push_text(&mut data, "\r\n");
    push_text(&mut data, "\r\n");
    assert(data@ =~= vtt_cue_text(timestamp as nat, duration as nat, text@));
    Buffer { data, pts: timestamp, duration: Some(duration) }
}

/// The output unit of the SubRip cue number `index` that starts at `timestamp`
/// and lasts `duration`.
pub fn create_srt_buffer(timestamp: u64, duration: u64, index: u64, text: &str) -> (buffer:
    Buffer)
    requires
        timestamp + duration <= u64::MAX,
    ensures
        buffer@.data == srt_cue_text(timestamp as nat, duration as nat, index as nat, text@),
        buffer@.pts == timestamp,
        buffer@.duration == Some(duration as nat),
{
    let mut data: Vec<u8> = Vec::new();
    push_decimal(&mut data, index, 2);
    push_text(&mut data, "\r\n");
    push_clock(&mut data, timestamp, 0, ",");
    push_text(&mut data, " --> ");
    push_clock(&mut data, timestamp + duration, 2, ",");
    push_text(&mut data, "\r\n");
    push_text(&mut data, text);
    push_text(&mut data, "\r\n");
    push_text(&mut data, "\r\n");
    assert(data@ =~= srt_cue_text(timestamp as nat, duration as nat, index as nat, text@));
    Buffer { data, pts: timestamp, duration: Some(duration) }
}

/// The output unit of a raw-text cue: the bytes of the text, with the timing
/// beside them.
pub fn create_raw_buffer(timestamp: u64, duration: u64, text: &str) -> (buffer: Buffer)
    ensures
        buffer@.data == text.spec_bytes(),
        buffer@.pts == timestamp,
        buffer@.duration == Some(duration as nat),
{
    let mut data: Vec<u8> = Vec::new();
    push_text(&mut data, text);
    assert(data@ =~= text.spec_bytes());
    Buffer { data, pts: timestamp, duration: Some(duration) }
}

/// The output unit of a cue in the given format. Only SubRip writes the index.
pub fn create_buffer(format: Format, timestamp: u64, duration: u64, index: u64, text: &str) -> (buffer:
    Buffer)
    requires
        timestamp + duration <= u64::MAX,
    ensures
        buffer@ == cue_unit(format, timestamp as nat, duration as nat, index as nat, text@),
{
    match format {
        Format::Vtt => create_vtt_buffer(timestamp, duration, text),
        Format::Srt => create_srt_buffer(timestamp, duration, index, text),
        Format::Raw => create_raw_buffer(timestamp, duration, text),
    }
}

} // verus!
