use cea608_to_tt::format::Format;
use cea608_to_tt::state::{
    CaptionEvent, CaptionPair, Event, EventAction, FlowError, Negotiation, Stage, State,
    StateChange,
};

const SECOND: u64 = 1_000_000_000;

fn frame(text: &str) -> CaptionEvent {
    CaptionEvent::Ready(text.to_string())
}

fn srt_stream() -> State {
    let mut state = State::new();
    assert_eq!(
        state.negotiate(Some("application/x-subtitle")),
        Negotiation::Selected(Format::Srt)
    );
    state
}

fn assert_fresh(state: &State) {
    assert_eq!(state.format(), None);
    assert!(!state.wrote_header());
    assert_eq!(state.previous_text(), &None);
    assert_eq!(state.index(), 1);
}

#[test]
fn new_stream_has_seen_nothing() {
    assert_fresh(&State::new());
    assert_fresh(&State::default());
}

#[test]
fn negotiation_selects_each_format() {
    for (media_type, format) in [
        ("application/x-subtitle-vtt", Format::Vtt),
        ("application/x-subtitle", Format::Srt),
        ("text/x-raw", Format::Raw),
    ] {
        let mut state = State::new();
        assert_eq!(state.negotiate(Some(media_type)), Negotiation::Selected(format));
        assert_eq!(state.format(), Some(format));
        assert!(!state.wrote_header());
        assert_eq!(state.index(), 1);
    }
}

#[test]
fn negotiation_fails_on_an_empty_offer() {
    let mut state = State::new();
    assert_eq!(state.negotiate(None), Negotiation::Failed);
    assert_fresh(&state);
    assert_eq!(
        state.negotiate(Some("text/x-raw")),
        Negotiation::Selected(Format::Raw)
    );
}

#[test]
fn second_negotiation_changes_nothing() {
    let mut state = srt_stream();
    assert_eq!(state.sink_chain(SECOND, frame("one")), Ok(None));
    assert!(state.sink_chain(2 * SECOND, frame("two")).unwrap().is_some());

    assert_eq!(
        state.negotiate(Some("application/x-subtitle-vtt")),
        Negotiation::AlreadyNegotiated
    );
    assert_eq!(state.negotiate(Some("application/x-subtitle")), Negotiation::AlreadyNegotiated);
    assert_eq!(state.negotiate(None), Negotiation::AlreadyNegotiated);
    assert_eq!(state.negotiate(Some("no/such-type")), Negotiation::AlreadyNegotiated);

    assert_eq!(state.format(), Some(Format::Srt));
    assert!(state.wrote_header());
    assert_eq!(state.index(), 2);
    assert_eq!(state.previous_text(), &Some((2 * SECOND, "two".to_string())));
}

#[test]
fn caps_event_asks_for_one_negotiation() {
    let mut state = State::new();
    assert_eq!(state.sink_event(Event::Caps), EventAction::Negotiate);
    assert_fresh(&state);
    assert_eq!(state.negotiate(Some("text/x-raw")), Negotiation::Selected(Format::Raw));
    assert_eq!(state.sink_event(Event::Caps), EventAction::Done);
    assert_eq!(state.format(), Some(Format::Raw));
}

#[test]
fn unit_before_negotiation_stops_the_stream() {
    let mut state = State::new();
    assert_eq!(state.accept(Some(SECOND), &[0x94, 0x20]), Err(FlowError::NotNegotiated));
    assert_eq!(state.accept(None, &[0x94, 0x20]), Err(FlowError::NotNegotiated));
    assert_eq!(state.accept(Some(SECOND), &[0x94]), Err(FlowError::NotNegotiated));
    assert_eq!(state.sink_chain(SECOND, frame("early")), Err(FlowError::NotNegotiated));
    assert_eq!(state.sink_chain(SECOND, CaptionEvent::Clear), Err(FlowError::NotNegotiated));
    assert_fresh(&state);
}

#[test]
fn unit_without_timestamp_stops_the_stream() {
    let state = srt_stream();
    assert_eq!(state.accept(None, &[0x94, 0x20]), Err(FlowError::Error));
    assert_eq!(state.accept(None, &[0x94]), Err(FlowError::Error));
    assert_eq!(state.accept(None, &[]), Err(FlowError::Error));
}

#[test]
fn undersized_unit_is_dropped() {
    let mut state = srt_stream();
    assert_eq!(state.accept(Some(SECOND), &[0x94]), Ok(None));
    assert_eq!(state.accept(Some(SECOND), &[]), Ok(None));

    assert_eq!(state.sink_chain(SECOND, frame("waiting")), Ok(None));
    assert_eq!(state.accept(Some(2 * SECOND), &[0x20]), Ok(None));
    assert_eq!(state.format(), Some(Format::Srt));
    assert!(!state.wrote_header());
    assert_eq!(state.index(), 1);
    assert_eq!(state.previous_text(), &Some((SECOND, "waiting".to_string())));
}

#[test]
fn pair_is_the_first_two_bytes_high_byte_first() {
    let state = srt_stream();
    assert_eq!(
        state.accept(Some(7), &[0xAB, 0xCD]),
        Ok(Some(CaptionPair { cc_data: 0xABCD, pts: 7 }))
    );
    assert_eq!(
        state.accept(Some(0), &[0x01, 0x02, 0x03, 0x04]),
        Ok(Some(CaptionPair { cc_data: 0x0102, pts: 0 }))
    );
    assert_eq!(
        state.accept(Some(u64::MAX), &[0x00, 0xFF]),
        Ok(Some(CaptionPair { cc_data: 0x00FF, pts: u64::MAX }))
    );
    assert_eq!(
        state.accept(Some(1), &[0xFF, 0x00]),
        Ok(Some(CaptionPair { cc_data: 0xFF00, pts: 1 }))
    );
}

#[test]
fn absorbed_and_failed_pairs_change_nothing() {
    let mut state = srt_stream();
    assert_eq!(state.sink_chain(SECOND, frame("waiting")), Ok(None));
    for event in [CaptionEvent::Absorbed, CaptionEvent::DecodeFailed, CaptionEvent::RenderFailed] {
        assert_eq!(state.sink_chain(2 * SECOND, event), Ok(None));
        assert_eq!(state.format(), Some(Format::Srt));
        assert!(!state.wrote_header());
        assert_eq!(state.index(), 1);
        assert_eq!(state.previous_text(), &Some((SECOND, "waiting".to_string())));
    }
}

#[test]
fn first_frame_waits() {
    let mut state = srt_stream();
    assert_eq!(state.sink_chain(SECOND, frame("first")), Ok(None));
    assert_eq!(state.previous_text(), &Some((SECOND, "first".to_string())));
    assert_eq!(state.index(), 1);
    assert!(!state.wrote_header());
}

#[test]
fn clear_with_nothing_waiting_is_silent() {
    let mut state = srt_stream();
    assert_eq!(state.sink_chain(SECOND, CaptionEvent::Clear), Ok(None));
    assert_eq!(state.previous_text(), &None);
    assert_eq!(state.index(), 1);
    assert!(!state.wrote_header());
}

#[test]
fn earlier_timestamp_gives_no_duration() {
    let mut state = srt_stream();
    assert_eq!(state.sink_chain(5 * SECOND, frame("late")), Ok(None));
    let output = state.sink_chain(3 * SECOND, frame("early")).unwrap().unwrap();
    assert_eq!(output.buffer.pts, 5 * SECOND);
    assert_eq!(output.buffer.duration, Some(0));
    assert_eq!(
        output.buffer.data,
        b"01\r\n0:00:05,000 --> 00:00:05,000\r\nlate\r\n\r\n".to_vec()
    );
    assert_eq!(state.previous_text(), &Some((3 * SECOND, "early".to_string())));
}

#[test]
fn flush_stop_drops_the_waiting_text() {
    let mut state = srt_stream();
    assert_eq!(state.sink_chain(SECOND, frame("one")), Ok(None));
    assert!(state.sink_chain(2 * SECOND, frame("two")).unwrap().is_some());

    assert_eq!(
        state.sink_event(Event::FlushStop),
        EventAction::Forward { reset_decoder: true, output: None }
    );
    assert_eq!(state.previous_text(), &None);
    assert_eq!(state.format(), Some(Format::Srt));
    assert!(state.wrote_header());
    assert_eq!(state.index(), 2);

    assert_eq!(state.end_of_stream(), None);
}

#[test]
fn flush_stop_on_a_fresh_stream() {
    let mut state = State::new();
    state.flush_stop();
    assert_fresh(&state);
}

#[test]
fn end_of_stream_with_nothing_waiting() {
    let mut state = srt_stream();
    assert_eq!(state.end_of_stream(), None);
    assert_eq!(
        state.sink_event(Event::Eos),
        EventAction::Forward { reset_decoder: false, output: None }
    );
    assert_eq!(state.index(), 1);
    assert!(!state.wrote_header());

    let mut state = State::new();
    assert_eq!(state.end_of_stream(), None);
    assert_fresh(&state);
}

#[test]
fn end_of_stream_sends_the_waiting_text_once() {
    let mut state = srt_stream();
    assert_eq!(state.sink_chain(SECOND, frame("last")), Ok(None));
    let output = state.end_of_stream().unwrap();
    assert_eq!(output.header, None);
    assert_eq!(output.buffer.pts, SECOND);
    assert_eq!(output.buffer.duration, Some(0));
    assert_eq!(
        output.buffer.data,
        b"01\r\n0:00:01,000 --> 00:00:01,000\r\nlast\r\n\r\n".to_vec()
    );
    assert_eq!(state.previous_text(), &None);
    assert_eq!(state.index(), 2);
    assert_eq!(state.end_of_stream(), None);
}

#[test]
fn reset_forgets_everything() {
    let mut state = srt_stream();
    assert_eq!(state.sink_chain(SECOND, frame("one")), Ok(None));
    assert!(state.sink_chain(2 * SECOND, frame("two")).unwrap().is_some());
    state.reset();
    assert_fresh(&state);
    assert_eq!(state.accept(Some(SECOND), &[0x94, 0x20]), Err(FlowError::NotNegotiated));
}

#[test]
fn stream_starts_afresh_around_playback() {
    assert!(StateChange::ReadyToPaused.starts_afresh(Stage::Before));
    assert!(StateChange::PausedToReady.starts_afresh(Stage::After));
}

#[test]
fn other_state_changes_keep_the_stream() {
    let changes = [
        (StateChange::NullToReady, Stage::Before),
        (StateChange::NullToReady, Stage::After),
        (StateChange::ReadyToPaused, Stage::After),
        (StateChange::PausedToPlaying, Stage::Before),
        (StateChange::PausedToPlaying, Stage::After),
        (StateChange::PlayingToPaused, Stage::Before),
        (StateChange::PlayingToPaused, Stage::After),
        (StateChange::PausedToReady, Stage::Before),
        (StateChange::ReadyToNull, Stage::Before),
        (StateChange::ReadyToNull, Stage::After),
        (StateChange::Other, Stage::Before),
        (StateChange::Other, Stage::After),
    ];
    for (transition, stage) in changes {
        assert!(!transition.starts_afresh(stage));
    }
}
