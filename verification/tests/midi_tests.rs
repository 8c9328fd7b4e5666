use vjmapper::midi::{
    element_update, message_matches_config, midi_updates, ElementUpdate, MidiConfig, MidiMessage,
};

#[test]
fn control_change_matches_both_cc_bindings() {
    let m = MidiMessage::ControlChange { channel: 1, controller: 7, value: 100 };
    assert!(message_matches_config(&m, &MidiConfig::Cc { channel: 1, controller: 7 }));
    assert!(message_matches_config(&m, &MidiConfig::CcRelative { channel: 1, controller: 7 }));
    assert!(!message_matches_config(&m, &MidiConfig::Cc { channel: 2, controller: 7 }));
    assert!(!message_matches_config(&m, &MidiConfig::Cc { channel: 1, controller: 8 }));
    assert!(!message_matches_config(&m, &MidiConfig::Note { channel: 1, note: 7 }));
}

#[test]
fn notes_match_note_bindings() {
    let on = MidiMessage::NoteOn { channel: 0, note: 60, velocity: 90 };
    let off = MidiMessage::NoteOff { channel: 0, note: 60 };
    let binding = MidiConfig::Note { channel: 0, note: 60 };
    assert!(message_matches_config(&on, &binding));
    assert!(message_matches_config(&off, &binding));
    assert!(!message_matches_config(&on, &MidiConfig::Note { channel: 0, note: 61 }));
    assert!(!message_matches_config(&on, &MidiConfig::Cc { channel: 0, controller: 60 }));
    assert!(!message_matches_config(&MidiMessage::Other, &binding));
    assert!(!message_matches_config(&on, &MidiConfig::Other));
}

#[test]
fn updates_go_to_matching_elements() {
    let bindings = vec![
        Some(MidiConfig::Cc { channel: 0, controller: 1 }),
        None,
        Some(MidiConfig::CcRelative { channel: 0, controller: 1 }),
        Some(MidiConfig::Note { channel: 0, note: 1 }),
    ];
    let m = MidiMessage::ControlChange { channel: 0, controller: 1, value: 64 };
    assert_eq!(
        midi_updates(&m, &bindings),
        vec![(0, ElementUpdate::ControlValue(64)), (2, ElementUpdate::ControlValue(64))]
    );
    let n = MidiMessage::NoteOff { channel: 0, note: 1 };
    assert_eq!(midi_updates(&n, &bindings), vec![(3, ElementUpdate::NoteOff)]);
    assert!(midi_updates(&MidiMessage::Other, &bindings).is_empty());
    assert_eq!(element_update(&MidiMessage::NoteOn { channel: 3, note: 2, velocity: 5 }), Some(ElementUpdate::NoteOn(5)));
}
