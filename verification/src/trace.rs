//! Runs of events, and what holds of every run.

use vstd::prelude::*;

use crate::format::Format;
use crate::model::{duration_until, CaptionEventView, Cue, Emission, StateView, Step};

verus! {

/// One thing that happens to a stream.
pub enum Input {
    /// Downstream offers a format, or nothing.
    Negotiate(Option<Format>),
    /// The decoder made this of a caption pair with this time.
    Decoded(nat, CaptionEventView),
    /// A break in the stream is over.
    FlushStop,
    /// The stream has ended.
    EndOfStream,
    /// The stream starts afresh.
    Reset,
}

/// The state after a run of events, and the cues that went out on the way.
pub struct Run {
    pub state: StateView,
    pub emitted: Seq<Emission>,
}

/// What one event does.
pub open spec fn apply(state: StateView, input: Input) -> Step {
    match input {
        Input::Negotiate(offered) => Step { state: state.negotiate(offered), emitted: None },
        Input::Decoded(pts, event) => state.decoded(pts, event),
        Input::FlushStop => Step { state: state.flush_stop(), emitted: None },
        Input::EndOfStream => state.end_of_stream(),
        Input::Reset => Step { state: StateView::init(), emitted: None },
    }
}

/// The cues of one step, as a sequence of none or one.
pub open spec fn emitted_by(step: Step) -> Seq<Emission> {
    match step.emitted {
        None => Seq::empty(),
        Some(emission) => seq![emission],
    }
}

/// What a run of events does, one after the other.
pub open spec fn run(state: StateView, inputs: Seq<Input>) -> Run
    decreases inputs.len(),
{
    if inputs.len() == 0 {
        Run { state, emitted: Seq::empty() }
    } else {
        let step = apply(state, inputs[0]);
        let rest = run(step.state, inputs.drop_first());
        Run { state: rest.state, emitted: emitted_by(step) + rest.emitted }
    }
}

/// Whether the stream is never started afresh in a run of events.
pub open spec fn without_reset(inputs: Seq<Input>) -> bool {
    forall|i: int| 0 <= i < inputs.len() ==> !(#[trigger] inputs[i] is Reset)
}

/// A run of frames: each comes up at its time with its text.
pub open spec fn frames(shown: Seq<(nat, Seq<char>)>) -> Seq<Input> {
    Seq::new(shown.len(), |i: int| Input::Decoded(shown[i].0, CaptionEventView::Ready(shown[i].1)))
}

/// The cue of the frame `i` in a run of frames whose first cue has the index
/// `first_index`: it is shown until the next frame comes up, and the last one
/// has no duration.
pub open spec fn cue_of_frame(shown: Seq<(nat, Seq<char>)>, first_index: nat, i: int) -> Cue {
    Cue {
        start: shown[i].0,
        duration: if i + 1 < shown.len() {
            duration_until(shown[i].0, shown[i + 1].0)
        } else {
            0
        },
        text: shown[i].1,
        index: (first_index + i) as nat,
    }
}

/// The stream begins well formed, and every event leaves it so.
pub proof fn law_well_formed(state: StateView, inputs: Seq<Input>)
    requires
        state.wf(),
    ensures
        StateView::init().wf(),
        run(state, inputs).state.wf(),
    decreases inputs.len(),
{
    if inputs.len() > 0 {
        law_well_formed(apply(state, inputs[0]).state, inputs.drop_first());
    }
}

/// A format that is chosen stays until the stream starts afresh.
pub proof fn law_format_stays(state: StateView, inputs: Seq<Input>)
    requires
        state.format is Some,
        without_reset(inputs),
    ensures
        run(state, inputs).state.format == state.format,
    decreases inputs.len(),
{
    if inputs.len() > 0 {
        let rest = inputs.drop_first();
        assert forall|i: int| 0 <= i < rest.len() implies !(#[trigger] rest[i] is Reset) by {
            assert(rest[i] == inputs[i + 1]);
        }
        law_format_stays(apply(state, inputs[0]).state, rest);
    }
}

/// Negotiating again changes nothing: whatever downstream offers the second
/// time, the state is as the first negotiation left it.
pub proof fn law_negotiation_is_idempotent(
    state: StateView,
    first: Format,
    second: Option<Format>,
)
    ensures
        state.negotiate(Some(first)).negotiate(second) == state.negotiate(Some(first)),
        state.format is Some ==> state.negotiate(second) == state,
{
}

/// Two frames and the end of the stream: the first text is shown from its time
/// to the time of the second, the second from its time on with no duration, and
/// nothing else goes out.
pub proof fn law_two_frames(
    state: StateView,
    t1: nat,
    text1: Seq<char>,
    t2: nat,
    text2: Seq<char>,
)
    requires
        state.format is Some,
        state.previous_text is None,
        t1 < t2,
    ensures
        run(
            state,
            seq![
                Input::Decoded(t1, CaptionEventView::Ready(text1)),
                Input::Decoded(t2, CaptionEventView::Ready(text2)),
                Input::EndOfStream,
            ],
        ).emitted == seq![
            Emission {
                header: !state.wrote_header && state.format == Some(Format::Vtt),
                cue: Cue { start: t1, duration: (t2 - t1) as nat, text: text1, index: state.index },
            },
            Emission {
                header: false,
                cue: Cue { start: t2, duration: 0, text: text2, index: state.index + 1 },
            },
        ],
        run(
            state,
            seq![
                Input::Decoded(t1, CaptionEventView::Ready(text1)),
                Input::Decoded(t2, CaptionEventView::Ready(text2)),
                Input::EndOfStream,
            ],
        ).state.previous_text is None,
{
    let inputs = seq![
        Input::Decoded(t1, CaptionEventView::Ready(text1)),
        Input::Decoded(t2, CaptionEventView::Ready(text2)),
        Input::EndOfStream,
    ];
    let rest1 = inputs.drop_first();
    let rest2 = rest1.drop_first();
    let rest3 = rest2.drop_first();
    assert(rest3.len() == 0);
    let s1 = apply(state, inputs[0]);
    let s2 = apply(s1.state, rest1[0]);
    let s3 = apply(s2.state, rest2[0]);
    assert(run(s3.state, rest3).emitted =~= Seq::<Emission>::empty());
    assert(run(s2.state, rest2).emitted =~= emitted_by(s3));
    assert(run(s1.state, rest1).emitted =~= emitted_by(s2) + emitted_by(s3));
    assert(run(state, inputs).emitted =~= emitted_by(s1) + emitted_by(s2) + emitted_by(s3));
}

/// A run of frames behind a text that waits, and then the end of the stream:
/// the text that waited goes out first, then one cue for each frame, each shown
/// until the next comes up; the last has no duration.
pub proof fn law_frames_behind(state: StateView, waiting: (nat, Seq<char>), shown: Seq<(nat, Seq<char>)>)
    requires
        state.format is Some,
        state.previous_text == Some(waiting),
    ensures
        run(state, frames(shown).push(Input::EndOfStream)).emitted.len() == shown.len() + 1,
        forall|i: int|
            0 <= i <= shown.len() ==> (#[trigger] run(
                state,
                frames(shown).push(Input::EndOfStream),
            ).emitted[i]).cue == cue_of_frame(seq![waiting] + shown, state.index, i),
        run(state, frames(shown).push(Input::EndOfStream)).state.previous_text is None,
    decreases shown.len(),
{
    let inputs = frames(shown).push(Input::EndOfStream);
    let all = seq![waiting] + shown;
    let step = apply(state, inputs[0]);
    let rest = inputs.drop_first();
    let later = run(step.state, rest);
    assert(run(state, inputs).emitted == emitted_by(step) + later.emitted);
    if shown.len() == 0 {
        assert(rest.len() == 0);
        assert(later.emitted =~= Seq::<Emission>::empty());
    } else {
        assert(rest =~= frames(shown.drop_first()).push(Input::EndOfStream));
        law_frames_behind(step.state, shown[0], shown.drop_first());
        assert(seq![shown[0]] + shown.drop_first() =~= shown);
        assert forall|i: int| 0 <= i <= shown.len() implies (#[trigger] run(
            state,
            inputs,
        ).emitted[i]).cue == cue_of_frame(all, state.index, i) by {
            if i > 0 {
                assert(run(state, inputs).emitted[i] == later.emitted[i - 1]);
                assert(later.emitted[i - 1].cue == cue_of_frame(shown, step.state.index, i - 1));
                assert(all[i] == shown[i - 1]);
                if i < shown.len() {
                    assert(all[i + 1] == shown[i]);
                }
            }
        }
    }
}

/// Any run of frames and then the end of the stream: one cue goes out for each
/// frame, in their order, with the frame's text and time; each is shown until
/// the next frame comes up (not at all if that one is not later), and the last
/// has no duration. The cues are numbered one by one.
pub proof fn law_frames(state: StateView, shown: Seq<(nat, Seq<char>)>)
    requires
        state.format is Some,
        state.previous_text is None,
    ensures
        run(state, frames(shown).push(Input::EndOfStream)).emitted.len() == shown.len(),
        forall|i: int|
            0 <= i < shown.len() ==> (#[trigger] run(
                state,
                frames(shown).push(Input::EndOfStream),
            ).emitted[i]).cue == cue_of_frame(shown, state.index, i),
        run(state, frames(shown).push(Input::EndOfStream)).state.previous_text is None,
{
    let inputs = frames(shown).push(Input::EndOfStream);
    let step = apply(state, inputs[0]);
    let rest = inputs.drop_first();
    let later = run(step.state, rest);
    assert(run(state, inputs).emitted == emitted_by(step) + later.emitted);
    if shown.len() == 0 {
        assert(rest.len() == 0);
        assert(later.emitted =~= Seq::<Emission>::empty());
    } else {
        assert(rest =~= frames(shown.drop_first()).push(Input::EndOfStream));
        law_frames_behind(step.state, shown[0], shown.drop_first());
        assert(seq![shown[0]] + shown.drop_first() =~= shown);
        assert(run(state, inputs).emitted =~= later.emitted);
    }
}

/// A clear after a frame sends the frame's text out, shown from the frame's time
/// to the time of the clear, and leaves no text waiting.
pub proof fn law_clear_after_frame(state: StateView, t1: nat, text: Seq<char>, t2: nat)
    requires
        state.format is Some,
        t1 <= t2,
    ensures
        ({
            let shown = state.decoded(t1, CaptionEventView::Ready(text)).state;
            let cleared = shown.decoded(t2, CaptionEventView::Clear);
            &&& cleared.emitted is Some
            &&& cleared.emitted->0.cue == Cue {
                start: t1,
                duration: (t2 - t1) as nat,
                text,
                index: shown.index,
            }
            &&& cleared.state.previous_text is None
        }),
{
}

/// A break in the stream sends nothing out, drops the text that waited for good,
/// and keeps the format, the index and the header as they were.
pub proof fn law_flush_stop_is_silent(state: StateView)
    ensures
        apply(state, Input::FlushStop).emitted is None,
        state.flush_stop().previous_text is None,
        state.flush_stop().format == state.format,
        state.flush_stop().wrote_header == state.wrote_header,
        state.flush_stop().index == state.index,
        state.flush_stop().end_of_stream().emitted is None,
{
}

/// The end of the stream sends out the text that waits as one cue with no
/// duration, and nothing where no text waits. Nothing waits afterwards, so a
/// second end sends nothing.
pub proof fn law_end_of_stream(state: StateView)
    ensures
        state.previous_text is None ==> state.end_of_stream().emitted is None,
        state.previous_text matches Some((start, text)) ==> {
            &&& state.end_of_stream().emitted is Some
            &&& state.end_of_stream().emitted->0.cue == Cue {
                start,
                duration: 0,
                text,
                index: state.index,
            }
        },
        state.end_of_stream().state.previous_text is None,
        state.end_of_stream().state.end_of_stream().emitted is None,
{
}

/// Until the stream starts afresh, the header goes out at most once: before the
/// first cue, if none went out before and the format is WebVTT. Cues in the other
/// formats never have a header before them.
pub proof fn law_header_once(state: StateView, inputs: Seq<Input>)
    requires
        state.wf(),
        without_reset(inputs),
    ensures
        forall|i: int|
            0 <= i < run(state, inputs).emitted.len() ==> (
            #[trigger] run(state, inputs).emitted[i].header <==> i == 0 && !state.wrote_header
                && run(state, inputs).state.format == Some(Format::Vtt)),
        run(state, inputs).emitted.len() > 0 ==> run(state, inputs).state.wrote_header,
        run(state, inputs).emitted.len() == 0 ==> run(state, inputs).state.wrote_header
            == state.wrote_header,
    decreases inputs.len(),
{
    if inputs.len() > 0 {
        let step = apply(state, inputs[0]);
        let rest = inputs.drop_first();
        assert forall|i: int| 0 <= i < rest.len() implies !(#[trigger] rest[i] is Reset) by {
            assert(rest[i] == inputs[i + 1]);
        }
        assert(!(inputs[0] is Reset));
        law_header_once(step.state, rest);
        if step.state.format is Some {
            law_format_stays(step.state, rest);
        }
        let first = emitted_by(step);
        let later = run(step.state, rest);
        let all = run(state, inputs);
        assert(all.emitted == first + later.emitted);
        assert forall|i: int| 0 <= i < all.emitted.len() implies (
        #[trigger] all.emitted[i].header <==> i == 0 && !state.wrote_header && all.state.format
            == Some(Format::Vtt)) by {
            if i >= first.len() {
                assert(all.emitted[i] == later.emitted[i - first.len()]);
            }
        }
    }
}

/// Until the stream starts afresh, the cues are numbered one by one from the
/// index that the run began with, which is 1 for a fresh stream. The header takes
/// no number.
pub proof fn law_index_counts_cues(state: StateView, inputs: Seq<Input>)
    requires
        without_reset(inputs),
    ensures
        StateView::init().index == 1,
        forall|i: int|
            0 <= i < run(state, inputs).emitted.len() ==> (
            #[trigger] run(state, inputs).emitted[i]).cue.index == state.index + i,
        run(state, inputs).state.index == state.index + run(state, inputs).emitted.len(),
    decreases inputs.len(),
{
    if inputs.len() > 0 {
        let step = apply(state, inputs[0]);
        let rest = inputs.drop_first();
        assert forall|i: int| 0 <= i < rest.len() implies !(#[trigger] rest[i] is Reset) by {
            assert(rest[i] == inputs[i + 1]);
        }
        assert(!(inputs[0] is Reset));
        law_index_counts_cues(step.state, rest);
        let first = emitted_by(step);
        let later = run(step.state, rest);
        let all = run(state, inputs);
        assert(all.emitted == first + later.emitted);
        assert forall|i: int| 0 <= i < all.emitted.len() implies (
        #[trigger] all.emitted[i]).cue.index == state.index + i by {
            if i >= first.len() {
                assert(all.emitted[i] == later.emitted[i - first.len()]);
            }
        }
    }
}

} // verus!
