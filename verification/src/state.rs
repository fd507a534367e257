//! The stream state and the handlers that drive it.

use vstd::prelude::*;

use crate::format::Format;
use crate::model::{CaptionEventView, Emission, StateView, Step};
use crate::render::{create_buffer, create_vtt_header, cue_unit, header_unit, Buffer};

verus! {

/// Why a data unit stops the stream.
#[derive(Copy, Clone, Debug, PartialEq, Eq, Structural)]
pub enum FlowError {
    /// No output format has been chosen yet.
    NotNegotiated,
    /// The unit cannot be handled: it has no timestamp.
    Error,
}

/// What the decoder made of one caption pair.
#[derive(Debug, PartialEq, Eq)]
pub enum CaptionEvent {
    /// The pair was taken in; there is nothing to show yet.
    Absorbed,
    /// The pair could not be decoded.
    DecodeFailed,
    /// What is on screen ends now.
    Clear,
    /// A frame is complete, with this text.
    Ready(String),
    /// A frame is complete, but its text could not be had.
    RenderFailed,
}

impl View for CaptionEvent {
    type V = CaptionEventView;

    open spec fn view(&self) -> CaptionEventView {
        match self {
            CaptionEvent::Absorbed => CaptionEventView::Absorbed,
            CaptionEvent::DecodeFailed => CaptionEventView::DecodeFailed,
            CaptionEvent::Clear => CaptionEventView::Clear,
            CaptionEvent::Ready(text) => CaptionEventView::Ready(text@),
            CaptionEvent::RenderFailed => CaptionEventView::RenderFailed,
        }
    }
}

/// A caption pair that is fit for the decoder, with the time it belongs to.
#[derive(Copy, Clone, Debug, PartialEq, Eq, Structural)]
pub struct CaptionPair {
    /// The two bytes of the pair, the first one in the high byte.
    pub cc_data: u16,
    /// The presentation time of the unit, in nanoseconds.
    pub pts: u64,
}

/// The output units of one cue, in the order in which they go downstream.
#[derive(Debug, PartialEq, Eq)]
pub struct Output {
    /// The header of the stream, where it goes before this cue.
    pub header: Option<Buffer>,
    /// The cue.
    pub buffer: Buffer,
}

impl Output {
    /// Whether these are the units of `emission` in the given format.
    pub open spec fn renders(self, format: Format, emission: Emission) -> bool {
        &&& self.buffer@ == cue_unit(
            format,
            emission.cue.start,
            emission.cue.duration,
            emission.cue.index,
            emission.cue.text,
        )
        &&& self.header is Some == emission.header
        &&& self.header matches Some(header) ==> header@ == header_unit(emission.cue.start)
    }
}

/// Whether `output` holds the units of `emitted` in the given format: nothing
/// where nothing was sent out.
pub open spec fn renders_all(
    output: Option<Output>,
    format: Option<Format>,
    emitted: Option<Emission>,
) -> bool {
    match emitted {
        None => output is None,
        Some(emission) => {
            &&& format is Some
            &&& output matches Some(units)
            &&& units.renders(format->0, emission)
        },
    }
}

/// The pair that the first two bytes of a unit form, the first byte high.
pub open spec fn pair_of(data: Seq<u8>) -> u16 {
    (data[0] * 256 + data[1]) as u16
}

/// How a negotiation with downstream ended.
#[derive(Copy, Clone, Debug, PartialEq, Eq, Structural)]
pub enum Negotiation {
    /// A format had been chosen before: nothing changed, nothing is to be announced.
    AlreadyNegotiated,
    /// Downstream offered nothing: the stream cannot go on.
    Failed,
    /// This format was chosen and is to be announced downstream.
    Selected(Format),
}

/// An event of the stream that bears on its state. Any other event passes by.
#[derive(Copy, Clone, Debug, PartialEq, Eq, Structural)]
pub enum Event {
    /// Upstream announced its format: time to choose the output format.
    Caps,
    /// A break in the stream is over.
    FlushStop,
    /// The stream has ended.
    Eos,
}

/// What is to be done about an event.
#[derive(Debug, PartialEq, Eq)]
pub enum EventAction {
    /// The event is dealt with: it is answered with success and not passed on.
    Done,
    /// Ask downstream what it accepts and hand the answer to `State::negotiate`.
    /// The event is answered as the announcement of the chosen format is.
    Negotiate,
    /// Pass the event on, after the decoder is reset if `reset_decoder` says so
    /// and after the units of `output` went downstream, however that ended.
    Forward { reset_decoder: bool, output: Option<Output> },
}

/// A change of the element's state.
#[derive(Copy, Clone, Debug, PartialEq, Eq, Structural)]
pub enum StateChange {
    NullToReady,
    ReadyToPaused,
    PausedToPlaying,
    PlayingToPaused,
    PausedToReady,
    ReadyToNull,
    /// A change from a state to itself.
    Other,
}

impl StateChange {
    /// Whether the stream starts afresh at this point of the change: before it
    /// gets ready to play, and after it has stopped. `State::reset` and a fresh
    /// decoder are due then; at any other point the stream is left alone.
    pub fn starts_afresh(self, stage: Stage) -> (afresh: bool)
        ensures
            afresh == starts_afresh(self, stage),
    {
        match (self, stage) {
            (StateChange::ReadyToPaused, Stage::Before) => true,
            (StateChange::PausedToReady, Stage::After) => true,
            _ => false,
        }
    }
}

/// The side of a state change on which the stream is told of it.
#[derive(Copy, Clone, Debug, PartialEq, Eq, Structural)]
pub enum Stage {
    /// The change has not been carried out yet.
    Before,
    /// The change has been carried out with success.
    After,
}

/// Whether the stream starts afresh at this point of a state change: before it
/// gets ready to play, and after it has stopped.
pub open spec fn starts_afresh(transition: StateChange, stage: Stage) -> bool {
    ||| transition == StateChange::ReadyToPaused && stage == Stage::Before
    ||| transition == StateChange::PausedToReady && stage == Stage::After
}

/// The state of one stream.
pub struct State {
    format: Option<Format>,
    wrote_header: bool,
    previous_text: Option<(u64, String)>,
    index: u64,
}

impl View for State {
    type V = StateView;

    closed spec fn view(&self) -> StateView {
        StateView {
            format: self.format,
            wrote_header: self.wrote_header,
            previous_text: match self.previous_text {
                Some((pts, text)) => Some((pts as nat, text@)),
                None => None,
            },
            index: self.index as nat,
        }
    }
}

impl Default for State {
    /// The state of a stream that has seen nothing.
    fn default() -> (state: State)
        ensures
            state@ == StateView::init(),
    {
        State::new()
    }
}

impl State {
    #[verifier::type_invariant]
    spec fn inv(self) -> bool {
        self@.wf()
    }

    /// Shows that this state is well formed, as every state is.
    pub fn well_formed(&self)
        ensures
            self@.wf(),
    {
        proof {
            use_type_invariant(self);
        }
    }

    /// The state of a stream that has seen nothing.
    pub fn new() -> (state: State)
        ensures
            state@ == StateView::init(),
    {
        State { format: None, wrote_header: false, previous_text: None, index: 1 }
    }

    /// The output format, once one is chosen.
    pub fn format(&self) -> (format: Option<Format>)
        ensures
            format == self@.format,
    {
        self.format
    }

    /// Whether the first cue has gone out.
    pub fn wrote_header(&self) -> (wrote: bool)
        ensures
            wrote == self@.wrote_header,
    {
        self.wrote_header
    }

    /// The index of the next cue.
    pub fn index(&self) -> (index: u64)
        ensures
            index == self@.index,
    {
        self.index
    }

    /// The text that waits for its end, and the time it came up.
    pub fn previous_text(&self) -> (pending: &Option<(u64, String)>)
        ensures
            pending is Some == self@.previous_text is Some,
            pending matches Some((pts, text)) ==> self@.previous_text == Some(
                (pts as nat, text@),
            ),
    {
        &self.previous_text
    }

    /// Chooses the output format from what downstream offers: the media type
    /// `offered`, or `None` where it offers nothing. A format that is chosen
    /// stays: a second negotiation changes nothing.
    pub fn negotiate(&mut self, offered: Option<&str>) -> (outcome: Negotiation)
        requires
            old(self)@.format is None ==> (offered matches Some(name)
                ==> Format::spec_from_media_type(name@) is Some),
        ensures
            old(self)@.format is Some ==> {
                &&& outcome == Negotiation::AlreadyNegotiated
                &&& final(self)@ == old(self)@
            },
            old(self)@.format is None && offered is None ==> {
                &&& outcome == Negotiation::Failed
                &&& final(self)@ == old(self)@
            },
            old(self)@.format is None && offered is Some ==> {
                &&& outcome == Negotiation::Selected(
                    Format::spec_from_media_type(offered->0@)->0,
                )
                &&& final(self)@ == old(self)@.negotiate(
                    Format::spec_from_media_type(offered->0@),
                )
            },
    {
        proof {
            use_type_invariant(&*self);
        }
        if self.format.is_some() {
            return Negotiation::AlreadyNegotiated;
        }
        match offered {
            None => Negotiation::Failed,
            Some(name) => {
                let format = Format::from_media_type(name).unwrap();
                self.format = Some(format);
                Negotiation::Selected(format)
            },
        }
    }

    /// Decides what becomes of a data unit before the decoder sees it: whether it
    /// stops the stream, is dropped, or goes to the decoder as a caption pair.
    pub fn accept(&self, pts: Option<u64>, data: &[u8]) -> (verdict: Result<
        Option<CaptionPair>,
        FlowError,
    >)
        ensures
            self@.format is None ==> verdict == Err::<Option<CaptionPair>, FlowError>(
                FlowError::NotNegotiated,
            ),
            self@.format is Some && pts is None ==> verdict == Err::<
                Option<CaptionPair>,
                FlowError,
            >(FlowError::Error),
            self@.format is Some && pts is Some && data@.len() < 2 ==> verdict == Ok::<
                Option<CaptionPair>,
                FlowError,
            >(None),
            self@.format is Some && pts is Some && data@.len() >= 2 ==> verdict == Ok::<
                Option<CaptionPair>,
                FlowError,
            >(Some(CaptionPair { cc_data: pair_of(data@), pts: pts->0 })),
    {
        if self.format.is_none() {
            return Err(FlowError::NotNegotiated);
        }
        let pts = match pts {
            Some(pts) => pts,
            None => {
                return Err(FlowError::Error);
            },
        };
        if data.len() < 2 {
            return Ok(None);
        }
        let high: u8 = data[0];
        let low: u8 = data[1];
        let cc_data: u16 = ((high as u16) << 8) | (low as u16);
        assert(((high as u16) << 8) | (low as u16) == (high * 256 + low) as u16) by (bit_vector);
        Ok(Some(CaptionPair { cc_data, pts }))
    }

    /// Puts `next` in the place of the text that waits, and returns that text.
    fn replace_previous_text(&mut self, next: Option<(u64, String)>) -> (previous: Option<
        (u64, String),
    >)
        requires
            next is Some ==> old(self)@.format is Some,
        ensures
            previous == old(self).previous_text,
            final(self).previous_text == next,
            final(self).format == old(self).format,
            final(self).wrote_header == old(self).wrote_header,
            final(self).index == old(self).index,
    {
        proof {
            use_type_invariant(&*self);
        }
        let mut slot = next;
        core::mem::swap(&mut self.previous_text, &mut slot);
        slot
    }

    /// Sends out the cue that starts at `timestamp`.
    fn emit(&mut self, format: Format, timestamp: u64, duration: u64, text: String) -> (output:
        Output)
        requires
            old(self)@.format == Some(format),
            old(self)@.index < u64::MAX,
            timestamp + duration <= u64::MAX,
        ensures
            final(self)@ == old(self)@.emit(
                Some((timestamp as nat, text@)),
                (timestamp + duration) as nat,
            ).state,
            output.renders(
                format,
                old(self)@.emit(
                    Some((timestamp as nat, text@)),
                    (timestamp + duration) as nat,
                ).emitted->0,
            ),
    {
        proof {
            use_type_invariant(&*self);
        }
        let header = if !self.wrote_header {
            self.wrote_header = true;
            match format {
                Format::Vtt => Some(create_vtt_header(timestamp)),
                Format::Srt | Format::Raw => None,
            }
        } else {
            None
        };
        let buffer = create_buffer(format, timestamp, duration, self.index, text.as_str());
        self.index = self.index + 1;
        Output { header, buffer }
    }

    /// Takes what the decoder made of a caption pair with the time `pts`, and
    /// returns the cue that this ends, rendered, if it ends one.
    pub fn sink_chain(&mut self, pts: u64, event: CaptionEvent) -> (result: Result<
        Option<Output>,
        FlowError,
    >)
        requires
            old(self)@.decoded(pts as nat, event@).emitted is Some ==> old(self)@.index
                < u64::MAX,
        ensures
            final(self)@ == old(self)@.decoded(pts as nat, event@).state,
            old(self)@.format is None ==> result == Err::<Option<Output>, FlowError>(
                FlowError::NotNegotiated,
            ),
            old(self)@.format is Some ==> result is Ok,
            result matches Ok(output) ==> renders_all(
                output,
                old(self)@.format,
                old(self)@.decoded(pts as nat, event@).emitted,
            ),
    {
        let format = match self.format {
            Some(format) => format,
            None => {
                return Err(FlowError::NotNegotiated);
            },
        };
        let previous_text = match event {
            CaptionEvent::Absorbed | CaptionEvent::DecodeFailed | CaptionEvent::RenderFailed => {
                return Ok(None);
            },
            CaptionEvent::Clear => self.replace_previous_text(None),
            CaptionEvent::Ready(text) => self.replace_previous_text(Some((pts, text))),
        };
        let (timestamp, text) = match previous_text {
            Some(previous_text) => previous_text,
            None => {
                return Ok(None);
            },
        };
        let duration: u64 = if pts > timestamp {
            pts - timestamp
        } else {
            0
        };
        Ok(Some(self.emit(format, timestamp, duration, text)))
    }

    /// Handles a break in the stream: the text that waited is dropped and never
    /// sent; the format, the index and the header stay as they are.
    pub fn flush_stop(&mut self)
        ensures
            final(self)@ == old(self)@.flush_stop(),
    {
        proof {
            use_type_invariant(&*self);
        }
        self.previous_text = None;
    }

    /// Handles the end of the stream: the text that waits goes out as a last cue
    /// with no duration.
    pub fn end_of_stream(&mut self) -> (output: Option<Output>)
        requires
            old(self)@.end_of_stream().emitted is Some ==> old(self)@.index < u64::MAX,
        ensures
            final(self)@ == old(self)@.end_of_stream().state,
            renders_all(output, old(self)@.format, old(self)@.end_of_stream().emitted),
    {
        proof {
            use_type_invariant(&*self);
        }
        match self.replace_previous_text(None) {
            None => None,
            Some((timestamp, text)) => {
                let format = self.format.unwrap();
                Some(self.emit(format, timestamp, 0, text))
            },
        }
    }

    /// Puts the stream back to where it began.
    pub fn reset(&mut self)
        ensures
            final(self)@ == StateView::init(),
    {
        *self = State::new();
    }

    /// Handles an event of the stream and says what is left to do about it.
    pub fn sink_event(&mut self, event: Event) -> (action: EventAction)
        requires
            event == Event::Eos && old(self)@.end_of_stream().emitted is Some ==> old(self)@.index
                < u64::MAX,
        ensures
            event == Event::Caps ==> {
                &&& final(self)@ == old(self)@
                &&& old(self)@.format is Some ==> action == EventAction::Done
                &&& old(self)@.format is None ==> action == EventAction::Negotiate
            },
            event == Event::FlushStop ==> {
                &&& final(self)@ == old(self)@.flush_stop()
                &&& action == (EventAction::Forward { reset_decoder: true, output: None })
            },
            event == Event::Eos ==> {
                &&& final(self)@ == old(self)@.end_of_stream().state
                &&& action matches EventAction::Forward { reset_decoder, output }
                &&& !reset_decoder
                &&& renders_all(output, old(self)@.format, old(self)@.end_of_stream().emitted)
            },
    {
        match event {
            Event::Caps => {
                if self.format.is_some() {
                    EventAction::Done
                } else {
                    EventAction::Negotiate
                }
            },
            Event::FlushStop => {
                self.flush_stop();
                EventAction::Forward { reset_decoder: true, output: None }
            },
            Event::Eos => {
                let output = self.end_of_stream();
                EventAction::Forward { reset_decoder: false, output }
            },
        }
    }
}

} // verus!
