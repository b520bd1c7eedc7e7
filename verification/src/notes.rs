//! The fixed table of per-key note state.
//!
//! One entry per MIDI key number, 128 in all, each holding an active flag
//! and a phase accumulator. An arriving note event marks its key active
//! (and never clears it: the model is single-voice with no note-off
//! handling). The note the synthesizer sounds at any instant is the
//! lowest-numbered active key; when no key is active the table selects
//! silence. Whenever an event moves that selection, the updater publishes
//! a fresh snapshot of the current note for the renderer.

use vstd::prelude::*;

use crate::pitch::frequency_millihz;
use crate::pitch::lemma_frequency_range;
use crate::pitch::spec_frequency_millihz;

verus! {

/// Number of entries in a full MIDI key table.
pub const KEY_COUNT: u8 = 128;

/// Describes the state of one note: whether its key has sounded, the key
/// number it belongs to, and its phase accumulator in elapsed samples.
#[derive(Clone, Copy, Debug, PartialEq, Eq, Structural)]
pub struct Key {
    pub state: bool,
    pub keynumber: usize,
    pub sample_clock: u32,
}

/// A decoded note-on: the key number that sounded. Produced once per
/// decoded message, consumed exactly once by the note-table updater.
#[derive(Clone, Copy, Debug, PartialEq, Eq, Structural)]
pub struct NoteEvent {
    pub key: u8,
}

impl NoteEvent {
    /// MIDI key numbers run from 0 to 127.
    pub open spec fn wf(self) -> bool {
        self.key < 128
    }
}

/// The single value the real-time renderer reads each callback: the
/// current note with its pitch and phase accumulator, or silence.
#[derive(Clone, Copy, Debug, PartialEq, Eq, Structural)]
pub enum CurrentNoteSnapshot {
    Silence,
    Playing { key: u8, freq_millihz: u32, phase: u32 },
}

impl CurrentNoteSnapshot {
    /// A coherent snapshot carries a MIDI key number and that key's own
    /// pitch.
    pub open spec fn wf(self) -> bool {
        self matches CurrentNoteSnapshot::Playing { key, freq_millihz, phase } ==> key < 128
            && freq_millihz == spec_frequency_millihz(key as int)
    }
}

/// The table itself: an entry per MIDI key, indexed by key number.
pub struct NoteTable {
    pub keys: Vec<Key>,
}

/// The lowest-numbered active key at or above position `i`, if any.
pub open spec fn first_active_from(s: Seq<Key>, i: int) -> Option<int>
    decreases s.len() - i,
{
    if i < 0 || i >= s.len() {
        None
    } else if s[i].state {
        Some(i)
    } else {
        first_active_from(s, i + 1)
    }
}

/// The selected current note of a table: its lowest-numbered active key,
/// or `None` for silence.
pub open spec fn spec_selected(s: Seq<Key>) -> Option<int> {
    first_active_from(s, 0)
}

/// A table after one note event: the targeted entry is active, everything
/// else — including the entry's own key number and phase — is unchanged.
pub open spec fn spec_apply(s: Seq<Key>, key: int) -> Seq<Key> {
    s.update(
        key,
        Key { state: true, keynumber: s[key].keynumber, sample_clock: s[key].sample_clock },
    )
}

/// The snapshot a table publishes: silence, or the selected key with its
/// pitch and stored phase accumulator.
pub open spec fn spec_snapshot(s: Seq<Key>) -> CurrentNoteSnapshot {
    match spec_selected(s) {
        None => CurrentNoteSnapshot::Silence,
        Some(k) => CurrentNoteSnapshot::Playing {
            key: k as u8,
            freq_millihz: spec_frequency_millihz(k) as u32,
            phase: s[k].sample_clock,
        },
    }
}

/// What the selection means, position by position: `None` exactly when no
/// key at or above `i` is active, and `Some(k)` only for an active key `k`
/// below which every key at or above `i` is inactive.
pub proof fn lemma_first_active_characterizes(s: Seq<Key>, i: int)
    requires
        0 <= i <= s.len(),
    ensures
        first_active_from(s, i) is None <==> (forall|j: int|
            i <= j < s.len() ==> !(#[trigger] s[j]).state),
        first_active_from(s, i) matches Some(k) ==> i <= k < s.len() && s[k].state && (forall|
            j: int,
        |
            i <= j < k ==> !(#[trigger] s[j]).state),
    decreases s.len() - i,
{
    if i < s.len() && !s[i].state {
        lemma_first_active_characterizes(s, i + 1);
    }
}

/// On an all-inactive table the selection is silence: no error, no
/// arbitrary key.
pub proof fn lemma_all_inactive_selects_silence(s: Seq<Key>)
    requires
        forall|j: int| 0 <= j < s.len() ==> !(#[trigger] s[j]).state,
    ensures
        spec_selected(s) is None,
{
    lemma_first_active_characterizes(s, 0);
}

/// Applying the same note event twice leaves exactly the state one
/// application leaves: activation is idempotent, touching the active flag
/// only and nothing else.
pub proof fn lemma_apply_idempotent(s: Seq<Key>, key: int)
    requires
        0 <= key < s.len(),
    ensures
        spec_apply(spec_apply(s, key), key) == spec_apply(s, key),
{
    assert(spec_apply(spec_apply(s, key), key) =~= spec_apply(s, key));
}

/// An event never silences the table and never moves the selection up:
/// after it, the selection is the event's key or the old selection,
/// whichever is lower.
pub proof fn lemma_apply_lowers_selection(s: Seq<Key>, key: int)
    requires
        0 <= key < s.len(),
    ensures
        spec_selected(spec_apply(s, key)) matches Some(k2) && (match spec_selected(s) {
            Some(k1) => k2 == if key < k1 {
                key
            } else {
                k1
            },
            None => k2 == key,
        }),
{
    let s2 = spec_apply(s, key);
    lemma_first_active_characterizes(s, 0);
    lemma_first_active_characterizes(s2, 0);
    match spec_selected(s2) {
        None => {
            assert(s2[key].state);
        },
        Some(k2) => {
            match spec_selected(s) {
                None => {
                    if k2 != key {
                        assert(s[k2].state);
                    }
                },
                Some(k1) => {
                    let low = if key < k1 {
                        key
                    } else {
                        k1
                    };
                    assert(s2[low].state);
                    if k2 < low {
                        assert(s[k2].state);
                    }
                },
            }
        },
    }
}

/// Events only ever activate: a key that sounds stays sounding, whatever
/// arrives later, so the set of active keys only grows.
pub proof fn lemma_activation_is_permanent(s: Seq<Key>, key: int, j: int)
    requires
        0 <= key < s.len(),
        0 <= j < s.len(),
        s[j].state,
    ensures
        spec_apply(s, key)[j].state,
{
}

/// The first event to reach a silent table takes the selection: after it,
/// the table plays exactly the key that sounded.
pub proof fn lemma_first_event_takes_selection(s: Seq<Key>, key: int)
    requires
        0 <= key < s.len(),
        forall|j: int| 0 <= j < s.len() ==> !(#[trigger] s[j]).state,
    ensures
        spec_selected(spec_apply(s, key)) == Some(key),
{
    lemma_all_inactive_selects_silence(s);
    lemma_apply_lowers_selection(s, key);
}

impl NoteTable {
    /// A well-formed table has one entry per MIDI key, each knowing its
    /// own key number.
    pub open spec fn wf(self) -> bool {
        &&& self.keys@.len() == 128
        &&& forall|i: int| 0 <= i < 128 ==> (#[trigger] self.keys@[i]).keynumber == i
    }

    /// Create the table: 128 entries, all inactive, every phase
    /// accumulator at zero.
    pub fn initialize() -> (table: NoteTable)
        ensures
            table.wf(),
            forall|i: int| 0 <= i < 128 ==> !(#[trigger] table.keys@[i]).state,
            forall|i: int| 0 <= i < 128 ==> (#[trigger] table.keys@[i]).sample_clock == 0,
    {
        let mut keys: Vec<Key> = Vec::new();
        let mut i: usize = 0;
        while i < KEY_COUNT as usize
            invariant
                i <= 128,
                keys@.len() == i,
                forall|j: int|
                    0 <= j < i ==> (#[trigger] keys@[j]) == (Key {
                        state: false,
                        keynumber: j as usize,
                        sample_clock: 0u32,
                    }),
            decreases 128 - i,
        {
            keys.push(Key { state: false, keynumber: i, sample_clock: 0 });
            i = i + 1;
        }
        NoteTable { keys }
    }

    /// Mark the event's key active. Re-applying an event for an
    /// already-active key changes nothing.
    pub fn apply_event(&mut self, event: NoteEvent)
        requires
            old(self).wf(),
            event.wf(),
        ensures
            final (self).wf(),
            final (self).keys@ == spec_apply(old(self).keys@, event.key as int),
    {
        let k = event.key as usize;
        let entry = self.keys[k];
        self.keys[k] = Key { state: true, keynumber: entry.keynumber, sample_clock: entry.sample_clock };
    }

    /// The currently selected note: the lowest-numbered active key, or
    /// `None` when every key is inactive (silence).
    pub fn select_current(&self) -> (r: Option<usize>)
        requires
            self.wf(),
        ensures
            r is Some <==> spec_selected(self.keys@) is Some,
            r matches Some(k) ==> spec_selected(self.keys@) == Some(k as int) && k < 128,
    {
        let mut i: usize = 0;
        while i < KEY_COUNT as usize
            invariant
                self.wf(),
                i <= 128,
                first_active_from(self.keys@, 0) == first_active_from(self.keys@, i as int),
            decreases 128 - i,
        {
            if self.keys[i].state {
                return Some(i);
            }
            i = i + 1;
        }
        None
    }

    /// The snapshot to publish for the renderer: the selected note with
    /// its pitch in millihertz and its phase accumulator, or silence.
    pub fn current_snapshot(&self) -> (snap: CurrentNoteSnapshot)
        requires
            self.wf(),
        ensures
            snap == spec_snapshot(self.keys@),
            snap.wf(),
    {
        match self.select_current() {
            None => CurrentNoteSnapshot::Silence,
            Some(k) => {
                proof {
                    lemma_frequency_range(k as int);
                }
                let freq = frequency_millihz(k as u8);
                CurrentNoteSnapshot::Playing {
                    key: k as u8,
                    freq_millihz: freq,
                    phase: self.keys[k].sample_clock,
                }
            },
        }
    }
}

/// Consume one note event: mark its key active and, exactly when that
/// moves the table's selection, hand back the fresh snapshot to publish
/// for the renderer.
pub fn updater_step(table: &mut NoteTable, event: NoteEvent) -> (publish: Option<
    CurrentNoteSnapshot,
>)
    requires
        old(table).wf(),
        event.wf(),
    ensures
        final (table).wf(),
        final (table).keys@ == spec_apply(old(table).keys@, event.key as int),
        publish is Some <==> spec_selected(final (table).keys@) != spec_selected(
            old(table).keys@,
        ),
        publish matches Some(s) ==> s == spec_snapshot(final (table).keys@),
{
    let before = table.select_current();
    table.apply_event(event);
    let after = table.select_current();
    let changed = match (before, after) {
        (None, None) => false,
        (Some(a), Some(b)) => a != b,
        _ => true,
    };
    if changed {
        Some(table.current_snapshot())
    } else {
        None
    }
}

} // verus!
