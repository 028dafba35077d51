use gma3_cue_display::label::{parse_cue_label, LabelFields};
use gma3_cue_display::osc::{OscMessage, OscValue};
use gma3_cue_display::state::{label_fields, navigation_word, CueState};

const NOW: &str = "2024-05-01T12:00:00.000Z";

fn text(s: &str) -> OscValue {
    OscValue::Str(s.to_string())
}

fn float(value: f32) -> OscValue {
    OscValue::Float { bits: value.to_bits(), text: value.to_string() }
}

fn message(args: Vec<OscValue>) -> OscMessage {
    OscMessage { addr: "/cue".to_string(), args }
}

fn applied(state: &CueState, args: Vec<OscValue>) -> CueState {
    let mut next = state.clone();
    next.apply(&message(args), NOW.to_string());
    next
}

fn progress(state: &CueState) -> f64 {
    f32::from_bits(state.fader_level_bits) as f64 * 100.0
}

#[test]
fn new_state_knows_nothing() {
    let state = CueState::new();
    assert_eq!(state.sequence_name, "");
    assert_eq!(state.cue_number, "--");
    assert_eq!(state.cue_name, "");
    assert_eq!(state.fader_level_bits, 0);
    assert_eq!(progress(&state), 0.0);
    assert!(!state.is_active);
    assert!(!state.connected);
    assert_eq!(state.last_update, None);
}

#[test]
fn go_with_label_sets_all_fields() {
    let state = applied(
        &CueState::new(),
        vec![text("Go+"), OscValue::Int(5), text("MainSeq 5 Opening")],
    );
    assert_eq!(state.cue_name, "MainSeq 5 Opening");
    assert_eq!(state.sequence_name, "MainSeq");
    assert_eq!(state.cue_number, "5");
    assert!(state.is_active);
    assert!(state.connected);
    assert_eq!(state.last_update.as_deref(), Some(NOW));
}

#[test]
fn every_navigation_word_is_recognised() {
    for word in ["Go+", "Go-", "Goto", "Top"] {
        assert!(navigation_word(&word.to_string()));
        let state = applied(&CueState::new(), vec![text(word)]);
        assert!(state.is_active, "{word}");
    }
    for word in ["go+", "Go", "GoTo", "Top ", "", "FaderMaster"] {
        assert!(!navigation_word(&word.to_string()));
        let state = applied(&CueState::new(), vec![text(word)]);
        assert!(!state.is_active, "{word}");
        assert!(state.connected);
    }
}

#[test]
fn label_wins_over_numeric_argument() {
    let state = applied(
        &CueState::new(),
        vec![text("Goto"), OscValue::Int(99), text("Intro 12.5 Blackout")],
    );
    assert_eq!(state.sequence_name, "Intro");
    assert_eq!(state.cue_number, "12.5");
    assert_eq!(state.cue_name, "Intro 12.5 Blackout");
}

#[test]
fn malformed_label_still_names_the_cue() {
    let mut before = CueState::new();
    before.sequence_name = "Old".to_string();
    before.cue_number = "3".to_string();
    let state = applied(&before, vec![text("Go+"), text("x"), text("JustAName")]);
    assert_eq!(state.cue_name, "JustAName");
    assert_eq!(state.sequence_name, "Old");
    assert_eq!(state.cue_number, "3");
    assert!(state.is_active);
}

#[test]
fn numeric_fallback_fills_unknown_number() {
    let state = applied(&CueState::new(), vec![text("Go+"), OscValue::Int(7), text("NoNumber")]);
    assert_eq!(state.cue_number, "7");
    assert_eq!(state.cue_name, "NoNumber");
    assert_eq!(state.sequence_name, "");

    let state = applied(&CueState::new(), vec![text("Go-"), OscValue::Int(-12)]);
    assert_eq!(state.cue_number, "-12");
    assert_eq!(state.cue_name, "");

    let state = applied(&CueState::new(), vec![text("Top"), float(2.5)]);
    assert_eq!(state.cue_number, "2.5");
}

#[test]
fn numeric_fallback_keeps_known_number() {
    let mut before = CueState::new();
    before.cue_number = "4".to_string();
    let state = applied(&before, vec![text("Go+"), OscValue::Int(7), text("NoNumber")]);
    assert_eq!(state.cue_number, "4");
    let state = applied(&before, vec![text("Go+"), float(9.0)]);
    assert_eq!(state.cue_number, "4");
}

#[test]
fn non_numeric_second_argument_is_no_fallback() {
    let state = applied(&CueState::new(), vec![text("Go+"), text("8"), text("NoNumber")]);
    assert_eq!(state.cue_number, "--");
    let state = applied(&CueState::new(), vec![text("Go+"), OscValue::Double(8f64.to_bits())]);
    assert_eq!(state.cue_number, "--");
    let state = applied(&CueState::new(), vec![text("Go+"), OscValue::Other]);
    assert_eq!(state.cue_number, "--");
}

#[test]
fn third_argument_must_be_text_to_be_a_label() {
    let state = applied(&CueState::new(), vec![text("Go+"), OscValue::Int(1), OscValue::Int(2)]);
    assert_eq!(state.cue_name, "");
    assert_eq!(state.cue_number, "1");
    assert!(state.is_active);
}

#[test]
fn fader_half_is_fifty_percent() {
    let state = applied(&CueState::new(), vec![text("FaderMaster"), OscValue::Int(1), float(0.5)]);
    assert_eq!(state.fader_level_bits, 0.5f32.to_bits());
    assert_eq!(progress(&state), 50.0);
    assert!(!state.is_active);
    assert!(state.connected);
    assert_eq!(state.cue_number, "--");
}

#[test]
fn fader_level_is_not_clamped() {
    let state = applied(&CueState::new(), vec![text("FaderMaster"), OscValue::Int(1), float(1.5)]);
    assert_eq!(progress(&state), 150.0);
    let state = applied(&state, vec![text("FaderMaster"), OscValue::Int(1), float(-0.25)]);
    assert_eq!(progress(&state), -25.0);
}

#[test]
fn fader_needs_a_single_precision_third_argument() {
    let mut before = CueState::new();
    before.fader_level_bits = 0.75f32.to_bits();
    let state = applied(&before, vec![text("FaderMaster"), float(0.5)]);
    assert_eq!(state.fader_level_bits, 0.75f32.to_bits());
    let state = applied(
        &before,
        vec![text("FaderMaster"), OscValue::Int(1), OscValue::Double(0.5f64.to_bits())],
    );
    assert_eq!(state.fader_level_bits, 0.75f32.to_bits());
    let state = applied(&before, vec![text("FaderMaster"), OscValue::Int(1), OscValue::Int(1)]);
    assert_eq!(state.fader_level_bits, 0.75f32.to_bits());
    assert_eq!(state.last_update.as_deref(), Some(NOW));
}

#[test]
fn other_messages_only_stamp() {
    let mut before = CueState::new();
    before.sequence_name = "Seq".to_string();
    before.cue_number = "2".to_string();
    before.cue_name = "Seq 2 Two".to_string();
    before.is_active = true;
    for args in [
        vec![],
        vec![OscValue::Int(1)],
        vec![text("Pause"), OscValue::Int(1), text("Seq 9 Nine")],
        vec![OscValue::Other, OscValue::Int(1), text("Seq 9 Nine")],
    ] {
        let state = applied(&before, args);
        assert_eq!(state.sequence_name, "Seq");
        assert_eq!(state.cue_number, "2");
        assert_eq!(state.cue_name, "Seq 2 Two");
        assert!(state.is_active);
        assert!(state.connected);
        assert_eq!(state.last_update.as_deref(), Some(NOW));
    }
}

#[test]
fn activity_is_never_reset() {
    let state = applied(&CueState::new(), vec![text("Go+")]);
    assert!(state.is_active);
    let state = applied(&state, vec![text("FaderMaster"), OscValue::Int(1), float(0.0)]);
    assert!(state.is_active);
    let state = applied(&state, vec![]);
    assert!(state.is_active);
    assert!(state.connected);
}

#[test]
fn stamp_follows_the_latest_message() {
    let mut state = CueState::new();
    state.apply(&message(vec![]), "first".to_string());
    assert_eq!(state.last_update.as_deref(), Some("first"));
    state.apply(&message(vec![text("Go+")]), "second".to_string());
    assert_eq!(state.last_update.as_deref(), Some("second"));
}

#[test]
fn apply_parsed_takes_the_given_fields() {
    let mut state = CueState::new();
    let msg = message(vec![text("Go+"), OscValue::Int(5), text("anything at all")]);
    let fields = LabelFields { name: "Given".to_string(), number: "42".to_string() };
    state.apply_parsed(&msg, NOW.to_string(), Some(fields));
    assert_eq!(state.sequence_name, "Given");
    assert_eq!(state.cue_number, "42");
    assert_eq!(state.cue_name, "anything at all");

    let mut state = CueState::new();
    state.apply_parsed(&msg, NOW.to_string(), None);
    assert_eq!(state.sequence_name, "");
    assert_eq!(state.cue_number, "5");
    assert_eq!(state.cue_name, "anything at all");
}

#[test]
fn snapshot_is_an_equal_copy() {
    let state = applied(
        &CueState::new(),
        vec![text("Go+"), OscValue::Int(5), text("MainSeq 5 Opening")],
    );
    let copy = state.snapshot();
    assert_eq!(copy.sequence_name, state.sequence_name);
    assert_eq!(copy.cue_number, state.cue_number);
    assert_eq!(copy.cue_name, state.cue_name);
    assert_eq!(copy.fader_level_bits, state.fader_level_bits);
    assert_eq!(copy.is_active, state.is_active);
    assert_eq!(copy.last_update, state.last_update);
    assert_eq!(copy.connected, state.connected);
}

fn fields_of(label: &str) -> Option<(String, String)> {
    parse_cue_label(label).map(|f| (f.name, f.number))
}

#[test]
fn well_formed_labels_split() {
    assert_eq!(
        fields_of("MainSeq 5 Opening"),
        Some(("MainSeq".to_string(), "5".to_string()))
    );
    assert_eq!(
        fields_of("Main Seq 12.75 The second act"),
        Some(("Main Seq".to_string(), "12.75".to_string()))
    );
    assert_eq!(
        fields_of("Seq\t7   trailing  "),
        Some(("Seq".to_string(), "7".to_string()))
    );
    assert_eq!(fields_of("S 0 x"), Some(("S".to_string(), "0".to_string())));
}

#[test]
fn name_is_the_shortest_that_fits() {
    assert_eq!(fields_of("A 1 B 2 C"), Some(("A".to_string(), "1".to_string())));
    assert_eq!(fields_of("7 8 9"), Some(("7".to_string(), "8".to_string())));
}

#[test]
fn malformed_labels_do_not_split() {
    for label in [
        "",
        "MainSeq",
        "MainSeq 5",
        "MainSeq 5 ",
        "5 Opening",
        " 5 Opening",
        "MainSeq five Opening",
        "MainSeq 5. Opening",
        "MainSeq 5.x Opening",
        "MainSeq5 Opening",
        "MainSeq 5Opening",
        "MainSeq 5 Open\ning",
    ] {
        assert_eq!(fields_of(label), None, "{label:?}");
    }
}

#[test]
fn label_fields_are_read_from_navigation_messages_only() {
    let nav = message(vec![text("Go+"), OscValue::Int(5), text("MainSeq 5 Opening")]);
    let found = label_fields(&nav).map(|f| (f.name, f.number));
    assert_eq!(found, Some(("MainSeq".to_string(), "5".to_string())));

    let other = message(vec![text("Pause"), OscValue::Int(5), text("MainSeq 5 Opening")]);
    assert!(label_fields(&other).is_none());
    let short = message(vec![text("Go+"), text("MainSeq 5 Opening")]);
    assert!(label_fields(&short).is_none());
    let untyped = message(vec![text("Go+"), OscValue::Int(5), OscValue::Int(5)]);
    assert!(label_fields(&untyped).is_none());
}
