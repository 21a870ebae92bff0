use kick_synth::note::{played_note, NoteAction, NoteControl, NoteInput};

#[test]
fn played_note_two_octaves_down() {
    assert_eq!(played_note(60), 36);
    assert_eq!(played_note(24), 0);
    assert_eq!(played_note(10), 0);
    assert_eq!(played_note(127), 103);
}

#[test]
fn note_on_then_matching_off() {
    let mut n = NoteControl::new();
    assert_eq!(n.on_input(NoteInput::NoteOn { note: 60, audible: true }), Some(NoteAction::Trigger(36)));
    assert_eq!(n.active_midi_note, Some(60));
    assert_eq!(n.on_input(NoteInput::NoteOff { note: 61 }), None);
    assert_eq!(n.active_midi_note, Some(60));
    assert_eq!(n.on_input(NoteInput::NoteOff { note: 60 }), Some(NoteAction::Release));
    assert_eq!(n.active_midi_note, None);
    assert_eq!(n.on_input(NoteInput::NoteOff { note: 60 }), None);
}

#[test]
fn silent_note_on_is_note_off() {
    let mut n = NoteControl::new();
    n.on_input(NoteInput::NoteOn { note: 50, audible: true });
    assert_eq!(n.on_input(NoteInput::NoteOn { note: 49, audible: false }), None);
    assert_eq!(n.active_midi_note, Some(50));
    assert_eq!(n.on_input(NoteInput::NoteOn { note: 50, audible: false }), Some(NoteAction::Release));
    assert_eq!(n.active_midi_note, None);
}

#[test]
fn new_note_replaces_held_note() {
    let mut n = NoteControl::new();
    n.on_input(NoteInput::NoteOn { note: 50, audible: true });
    assert_eq!(n.on_input(NoteInput::NoteOn { note: 55, audible: true }), Some(NoteAction::Trigger(31)));
    assert_eq!(n.on_input(NoteInput::NoteOff { note: 50 }), None);
    assert_eq!(n.active_midi_note, Some(55));
}

#[test]
fn buttons_use_held_note_or_default() {
    let mut n = NoteControl::new();
    assert_eq!(n.block_actions(1, 0, false), vec![NoteAction::Trigger(12)]);
    n.on_input(NoteInput::NoteOn { note: 48, audible: true });
    assert_eq!(n.block_actions(3, 0, false), vec![NoteAction::Trigger(24)]);
    assert_eq!(n.block_actions(0, 2, false), vec![NoteAction::Release]);
    assert_eq!(n.block_actions(0, 0, false), Vec::<NoteAction>::new());
}

#[test]
fn press_wins_over_release_in_a_block() {
    let mut n = NoteControl::new();
    assert_eq!(n.block_actions(1, 1, false), vec![NoteAction::Trigger(12)]);
}

#[test]
fn trigger_parameter_edges() {
    let mut n = NoteControl::new();
    assert_eq!(n.block_actions(0, 0, true), vec![NoteAction::Trigger(12)]);
    assert!(n.was_trigger_on);
    assert_eq!(n.block_actions(0, 0, true), Vec::<NoteAction>::new());
    assert_eq!(n.block_actions(0, 0, false), vec![NoteAction::Release]);
    assert!(!n.was_trigger_on);
    assert_eq!(n.block_actions(0, 0, false), Vec::<NoteAction>::new());
}

#[test]
fn button_and_edge_in_one_block() {
    let mut n = NoteControl::new();
    assert_eq!(
        n.block_actions(1, 0, true),
        vec![NoteAction::Trigger(12), NoteAction::Trigger(12)]
    );
    assert_eq!(
        n.block_actions(0, 1, false),
        vec![NoteAction::Release, NoteAction::Release]
    );
}

#[test]
fn last_note_priority_over_a_sequence() {
    let mut n = NoteControl::new();
    let events = [
        NoteInput::NoteOn { note: 40, audible: true },
        NoteInput::NoteOn { note: 45, audible: true },
        NoteInput::NoteOff { note: 40 },
        NoteInput::NoteOn { note: 50, audible: false },
    ];
    for e in events {
        n.on_input(e);
    }
    // 45 was pressed last and only other notes were let go since.
    assert_eq!(n.active_midi_note, Some(45));
    n.on_input(NoteInput::NoteOn { note: 45, audible: false });
    assert_eq!(n.active_midi_note, None);
    assert!(!n.was_trigger_on);
}
