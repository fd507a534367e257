//! The state of a stream as plain values, and what each event does to it.

use vstd::prelude::*;

use crate::format::Format;

verus! {

/// One subtitle cue: when it starts, how long it is shown, what it says, and its
/// place in the run of cues.
pub struct Cue {
    pub start: nat,
    pub duration: nat,
    pub text: Seq<char>,
    pub index: nat,
}

/// A cue on its way out, and whether the stream's header goes out before it.
pub struct Emission {
    pub header: bool,
    pub cue: Cue,
}

/// What the decoder made of one caption pair.
pub enum CaptionEventView {
    /// The pair was taken in; there is nothing to show yet.
    Absorbed,
    /// The pair could not be decoded.
    DecodeFailed,
    /// What is on screen ends now.
    Clear,
    /// A frame is complete, with this text.
    Ready(Seq<char>),
    /// A frame is complete, but its text could not be had.
    RenderFailed,
}

/// The state of a stream.
pub struct StateView {
    /// The output format, once downstream has chosen one.
    pub format: Option<Format>,
    /// Whether the first cue has gone out, and with it the header if the format
    /// has one.
    pub wrote_header: bool,
    /// The text on screen and the time it came up: the cue that waits for its end.
    pub previous_text: Option<(nat, Seq<char>)>,
    /// The index of the next cue.
    pub index: nat,
}

/// The state after an event, and the cue that the event sent out, if any.
pub struct Step {
    pub state: StateView,
    pub emitted: Option<Emission>,
}

/// How long a cue that came up at `start` was shown when the next event comes at
/// `now`: the time between the two, and nothing if `now` is not later.
pub open spec fn duration_until(start: nat, now: nat) -> nat {
    if now > start {
        (now - start) as nat
    } else {
        0
    }
}

impl StateView {
    /// The state of a stream that has seen nothing.
    pub open spec fn init() -> StateView {
        StateView { format: None, wrote_header: false, previous_text: None, index: 1 }
    }

    /// What holds of every state: the index counts from one, and neither a cue
    /// waits nor has one gone out before a format was chosen.
    pub open spec fn wf(self) -> bool {
        &&& self.index >= 1
        &&& self.previous_text is Some ==> self.format is Some
        &&& self.wrote_header ==> self.format is Some
    }

    /// The state after downstream offered `offered` (`None`: it offered nothing).
    /// A format that is chosen stays.
    pub open spec fn negotiate(self, offered: Option<Format>) -> StateView {
        if self.format is Some {
            self
        } else {
            StateView { format: offered, ..self }
        }
    }

    /// Sends out `candidate`, which ends at `now`, if there is one. The cue takes
    /// the next index; the header goes before the first cue of a format that has one.
    pub open spec fn emit(self, candidate: Option<(nat, Seq<char>)>, now: nat) -> Step {
        match candidate {
            None => Step { state: self, emitted: None },
            Some((start, text)) => Step {
                state: StateView { wrote_header: true, index: self.index + 1, ..self },
                emitted: Some(
                    Emission {
                        header: !self.wrote_header && self.format == Some(Format::Vtt),
                        cue: Cue {
                            start,
                            duration: duration_until(start, now),
                            text,
                            index: self.index,
                        },
                    },
                ),
            },
        }
    }

    /// What a decoded caption pair with the time `pts` does. Before a format is
    /// chosen, nothing. A new frame takes the place of the text that waits, and a
    /// clear removes it; either way the text that waited goes out, ending at `pts`.
    pub open spec fn decoded(self, pts: nat, event: CaptionEventView) -> Step {
        if self.format is None {
            Step { state: self, emitted: None }
        } else {
            match event {
                CaptionEventView::Absorbed
                | CaptionEventView::DecodeFailed
                | CaptionEventView::RenderFailed => Step { state: self, emitted: None },
                CaptionEventView::Clear => StateView { previous_text: None, ..self }.emit(
                    self.previous_text,
                    pts,
                ),
                CaptionEventView::Ready(text) => StateView {
                    previous_text: Some((pts, text)),
                    ..self
                }.emit(self.previous_text, pts),
            }
        }
    }

    /// The state after a break in the stream: the text that waited is dropped.
    pub open spec fn flush_stop(self) -> StateView {
        StateView { previous_text: None, ..self }
    }

    /// What the end of the stream does: the text that waits goes out with no
    /// duration, as nothing comes after it.
    pub open spec fn end_of_stream(self) -> Step {
        match self.previous_text {
            None => Step { state: self, emitted: None },
            Some((start, text)) => StateView { previous_text: None, ..self }.emit(
                self.previous_text,
                start,
            ),
        }
    }
}

} // verus!
