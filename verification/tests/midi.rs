use lush_rs::midi::note_event_from_bytes;
use lush_rs::notes::NoteEvent;

#[test]
fn a_sounding_note_on_is_delivered() {
    let event = note_event_from_bytes(&[0x90, 64, 100]);
    assert_eq!(event, Some(NoteEvent { key: 64 }));
}

#[test]
fn malformed_bytes_are_skipped_and_the_next_message_still_arrives() {
    // a data byte where the status byte belongs
    assert_eq!(note_event_from_bytes(&[0x12, 64, 100]), None);
    // a truncated note-on
    assert_eq!(note_event_from_bytes(&[0x90, 64]), None);
    // no bytes at all
    assert_eq!(note_event_from_bytes(&[]), None);
    // a status byte inside the data
    assert_eq!(note_event_from_bytes(&[0x90, 0x85, 100]), None);

    // the listener carries on: the next valid message is still delivered
    let event = note_event_from_bytes(&[0x90, 64, 100]);
    assert_eq!(event, Some(NoteEvent { key: 64 }));
}

#[test]
fn note_off_produces_no_event() {
    assert_eq!(note_event_from_bytes(&[0x80, 64, 100]), None);
}

#[test]
fn a_velocity_zero_note_on_means_note_off_and_produces_no_event() {
    assert_eq!(note_event_from_bytes(&[0x90, 64, 0]), None);
}

#[test]
fn every_channel_delivers_its_note_on() {
    for channel in 0u8..16 {
        let event = note_event_from_bytes(&[0x90 | channel, 60, 1]);
        assert_eq!(event, Some(NoteEvent { key: 60 }));
    }
}

#[test]
fn other_channel_voice_messages_produce_no_event() {
    // polyphonic key pressure, control change, program change
    assert_eq!(note_event_from_bytes(&[0xA0, 64, 100]), None);
    assert_eq!(note_event_from_bytes(&[0xB0, 7, 100]), None);
    assert_eq!(note_event_from_bytes(&[0xC0, 5]), None);
}
