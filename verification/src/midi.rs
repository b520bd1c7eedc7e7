//! Decoding raw MIDI bytes into note events.
//!
//! The listener receives each incoming message as a raw byte slice and
//! decodes it per the MIDI message grammar. A sounding note-on becomes a
//! `NoteEvent` for the updater; every other message — note-offs,
//! velocity-zero note-ons, other channel voice messages, and bytes that
//! fail to decode at all — is skipped silently, and the listener carries
//! on with the next message. Decoding never panics, whatever the bytes.

use vstd::prelude::*;

use crate::notes::NoteEvent;

verus! {

/// A byte sequence that decodes to a sounding note-on: a note-on status
/// byte (0x90 through 0x9F, the low nibble naming the channel), a
/// key-number data byte, and a nonzero velocity data byte. A velocity of
/// zero means note-off and does not sound.
pub open spec fn spec_note_on(bytes: Seq<u8>) -> bool {
    &&& bytes.len() >= 3
    &&& 0x90 <= bytes[0] <= 0x9f
    &&& bytes[1] < 0x80
    &&& 0 < bytes[2] < 0x80
}

/// Relies on wmidi::MidiMessage::try_from for MIDI decoding. It returns
/// Ok(NoteOn(channel, note, velocity)) exactly for the byte sequences of
/// `spec_note_on`: it demands a status byte, reads the two data bytes that
/// follow and rejects them above 0x7F, maps a velocity of zero to NoteOff
/// itself, and ignores bytes past the third. The channel's index is the
/// status byte's low nibble, and note and velocity convert back to the two
/// data bytes. It never panics.
#[verifier::external_body]
fn decode_note_on(bytes: &[u8]) -> (r: Option<(u8, u8, u8)>)
    ensures
        r is Some <==> spec_note_on(bytes@),
        r matches Some((channel, key, velocity)) ==> channel == bytes@[0] % 16 && key == bytes@[1]
            && velocity == bytes@[2],
{
    match wmidi::MidiMessage::try_from(bytes) {
        Ok(wmidi::MidiMessage::NoteOn(channel, note, velocity)) => Some(
            (channel.index(), u8::from(note), u8::from(velocity)),
        ),
        _ => None,
    }
}

/// Decode one raw MIDI message. A sounding note-on yields the note event
/// for its key; everything else — malformed bytes included — yields `None`
/// and is skipped, never an error and never a panic, so one bad message
/// costs nothing but itself.
pub fn note_event_from_bytes(bytes: &[u8]) -> (r: Option<NoteEvent>)
    ensures
        r is Some <==> spec_note_on(bytes@),
        r matches Some(ev) ==> ev.wf() && ev.key == bytes@[1],
{
    match decode_note_on(bytes) {
        Some((_channel, key, _velocity)) => Some(NoteEvent { key }),
        None => None,
    }
}

} // verus!
