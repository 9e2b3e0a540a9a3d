use midi_mapper::jackmidi::{
    MidiMsgAdvanced, MidiMsgControlChange, MidiMsgGeneric, MidiMsgNoteOff, MidiMsgNoteOn,
    MidiMsgPitchBend, RawMidiMsg,
};

fn cc(control: u8, value: u8, time: u64) -> RawMidiMsg {
    RawMidiMsg::ControlChange(MidiMsgControlChange { channel: 0, control, value, time })
}

#[test]
fn cc_pair_within_window_forms_control_double() {
    // ids 0xb005 and 0xb009, timestamps 100 and 105: diff 5 < 10 and the
    // second id is the larger, so the pair merges into 3 * 128 + 10 = 394
    let mut state: Option<RawMidiMsg> = None;
    let first = MidiMsgAdvanced::from_current_and_last_opt_midi_msgs(cc(5, 3, 100), &mut state);
    assert_eq!(first, Some(MidiMsgAdvanced::MidiControlIdValue(0xb005, 3)));
    let second = MidiMsgAdvanced::from_current_and_last_opt_midi_msgs(cc(9, 10, 105), &mut state);
    assert_eq!(
        second,
        Some(MidiMsgAdvanced::MidiControl2IdsValue(0xb005, 0xb009, 394))
    );
}

#[test]
fn cc_pair_outside_window_stays_single() {
    // same ids but timestamps 100 and 120: diff 20 >= 10, two singles
    let mut state: Option<RawMidiMsg> = None;
    let first = MidiMsgAdvanced::from_current_and_last_opt_midi_msgs(cc(5, 3, 100), &mut state);
    assert_eq!(first, Some(MidiMsgAdvanced::MidiControlIdValue(0xb005, 3)));
    let second = MidiMsgAdvanced::from_current_and_last_opt_midi_msgs(cc(9, 10, 120), &mut state);
    assert_eq!(second, Some(MidiMsgAdvanced::MidiControlIdValue(0xb009, 10)));
}

#[test]
fn cc_pair_with_reversed_ids_stays_single() {
    // first id 0xb009, then 0xb005 within the window: ordering fails,
    // no ControlDouble is formed
    let mut state: Option<RawMidiMsg> = None;
    let first = MidiMsgAdvanced::from_current_and_last_opt_midi_msgs(cc(9, 10, 100), &mut state);
    assert_eq!(first, Some(MidiMsgAdvanced::MidiControlIdValue(0xb009, 10)));
    let second = MidiMsgAdvanced::from_current_and_last_opt_midi_msgs(cc(5, 3, 105), &mut state);
    assert_eq!(second, Some(MidiMsgAdvanced::MidiControlIdValue(0xb005, 3)));
}

#[test]
fn note_on_then_note_off_toggle() {
    let mut state: Option<RawMidiMsg> = None;
    let on = RawMidiMsg::NoteOn(MidiMsgNoteOn { channel: 0, key: 0x10, velocity: 0x40, time: 10 });
    let off =
        RawMidiMsg::NoteOff(MidiMsgNoteOff { channel: 0, key: 0x10, velocity: 0, time: 500 });
    let first = MidiMsgAdvanced::from_current_and_last_opt_midi_msgs(on, &mut state);
    assert_eq!(first, Some(MidiMsgAdvanced::MidiNoteOnOff(0x9010, 0x8010, true)));
    let second = MidiMsgAdvanced::from_current_and_last_opt_midi_msgs(off, &mut state);
    assert_eq!(second, Some(MidiMsgAdvanced::MidiNoteOnOff(0x9010, 0x8010, false)));
}

#[test]
fn translation_is_deterministic_across_states() {
    // the same single message through two independent, empty states
    let msg = cc(5, 3, 100);
    let mut state_a: Option<RawMidiMsg> = None;
    let mut state_b: Option<RawMidiMsg> = None;
    let out_a = MidiMsgAdvanced::from_current_and_last_opt_midi_msgs(msg, &mut state_a);
    let out_b = MidiMsgAdvanced::from_current_and_last_opt_midi_msgs(msg, &mut state_b);
    assert_eq!(out_a, out_b);
    assert_eq!(state_a, state_b);
}

#[test]
fn pitch_bend_and_generic_produce_no_event() {
    let pb = RawMidiMsg::PitchBend(MidiMsgPitchBend { channel: 4, value: 394, time: 100 });
    let generic =
        RawMidiMsg::Generic(MidiMsgGeneric { len: 1, data: [0xf8, 0, 0], time: 101 });
    let mut state: Option<RawMidiMsg> = None;
    assert_eq!(MidiMsgAdvanced::from_current_and_last_opt_midi_msgs(pb, &mut state), None);
    // also right after another message is held in the state
    assert_eq!(MidiMsgAdvanced::from_current_and_last_opt_midi_msgs(generic, &mut state), None);
    assert_eq!(
        MidiMsgAdvanced::from_current_and_last_opt_midi_msgs(
            RawMidiMsg::PitchBend(MidiMsgPitchBend { channel: 4, value: 1, time: 102 }),
            &mut state,
        ),
        None
    );
}

#[test]
fn translation_always_keeps_the_current_message() {
    // a message consumed into a ControlDouble still becomes the new
    // "previous", so back-to-back pairs work without gaps
    let mut state: Option<RawMidiMsg> = None;
    MidiMsgAdvanced::from_current_and_last_opt_midi_msgs(cc(5, 3, 100), &mut state);
    MidiMsgAdvanced::from_current_and_last_opt_midi_msgs(cc(9, 10, 105), &mut state);
    assert_eq!(state, Some(cc(9, 10, 105)));
    let third = MidiMsgAdvanced::from_current_and_last_opt_midi_msgs(cc(11, 2, 106), &mut state);
    assert_eq!(
        third,
        Some(MidiMsgAdvanced::MidiControl2IdsValue(0xb009, 0xb00b, 10 * 128 + 2))
    );
}

#[test]
fn advanced_constructors_exact_values() {
    let cc0 = MidiMsgControlChange { channel: 0, control: 5, value: 3, time: 100 };
    let cc1 = MidiMsgControlChange { channel: 0, control: 9, value: 10, time: 105 };
    // a lone control change carries its raw 7-bit value
    assert_eq!(
        MidiMsgAdvanced::from_midi_msg_cc(cc0),
        MidiMsgAdvanced::MidiControlIdValue(0xb005, 3)
    );
    assert_eq!(
        MidiMsgAdvanced::from_midi_msg_cc2ids(cc0, cc1),
        MidiMsgAdvanced::MidiControl2IdsValue(0xb005, 0xb009, 394)
    );
    let on = MidiMsgNoteOn { channel: 0, key: 0x10, velocity: 0x40, time: 0 };
    assert_eq!(
        MidiMsgAdvanced::from_midi_msgs_note_on(on),
        MidiMsgAdvanced::MidiNoteOnOff(0x9010, 0x8010, true)
    );
    let off = MidiMsgNoteOff { channel: 0, key: 0x10, velocity: 0, time: 0 };
    assert_eq!(
        MidiMsgAdvanced::from_midi_msgs_note_off(off),
        MidiMsgAdvanced::MidiNoteOnOff(0x9010, 0x8010, false)
    );
}

#[test]
fn note_identifiers_differ_by_fixed_offset() {
    for channel in [0u8, 7, 15] {
        for key in [0u8, 0x10, 0x7f] {
            let on = MidiMsgNoteOn { channel, key, velocity: 1, time: 0 };
            let off = MidiMsgNoteOff { channel, key, velocity: 1, time: 0 };
            let on_event = MidiMsgAdvanced::from_midi_msgs_note_on(on);
            let off_event = MidiMsgAdvanced::from_midi_msgs_note_off(off);
            match (on_event, off_event) {
                (
                    MidiMsgAdvanced::MidiNoteOnOff(on_id, off_id, true),
                    MidiMsgAdvanced::MidiNoteOnOff(on_id2, off_id2, false),
                ) => {
                    assert_eq!(on_id - off_id, 0x1000);
                    assert_eq!(on_id, on_id2);
                    assert_eq!(off_id, off_id2);
                }
                _ => panic!("unexpected advanced event shape"),
            }
        }
    }
}

#[test]
fn advanced_event_id_extraction() {
    assert_eq!(MidiMsgAdvanced::MidiEmpty.get_id(), 0xffff);
    assert_eq!(MidiMsgAdvanced::MidiNoteOnOff(0x9010, 0x8010, true).get_id(), 0x9010);
    assert_eq!(MidiMsgAdvanced::MidiControlIdValue(0xb005, 3).get_id(), 0xb005);
    assert_eq!(
        MidiMsgAdvanced::MidiControl2IdsValue(0xb005, 0xb009, 394).get_id(),
        0xb005
    );
}
