use lush_rs::notes::updater_step;
use lush_rs::notes::CurrentNoteSnapshot;
use lush_rs::notes::NoteEvent;
use lush_rs::notes::NoteTable;

#[test]
fn an_all_inactive_table_selects_silence() {
    let table = NoteTable::initialize();
    assert_eq!(table.select_current(), None);
    assert_eq!(table.current_snapshot(), CurrentNoteSnapshot::Silence);
}

#[test]
fn a_fresh_table_has_128_inactive_entries_at_phase_zero() {
    let table = NoteTable::initialize();
    assert_eq!(table.keys.len(), 128);
    for (i, key) in table.keys.iter().enumerate() {
        assert!(!key.state);
        assert_eq!(key.keynumber, i);
        assert_eq!(key.sample_clock, 0);
    }
}

#[test]
fn applying_the_same_key_twice_changes_nothing_more() {
    let mut once = NoteTable::initialize();
    once.apply_event(NoteEvent { key: 60 });
    let mut twice = NoteTable::initialize();
    twice.apply_event(NoteEvent { key: 60 });
    twice.apply_event(NoteEvent { key: 60 });
    assert_eq!(once.keys, twice.keys);
    assert_eq!(once.select_current(), twice.select_current());
}

#[test]
fn the_lowest_numbered_active_key_wins() {
    let mut table = NoteTable::initialize();
    table.apply_event(NoteEvent { key: 72 });
    table.apply_event(NoteEvent { key: 60 });
    assert_eq!(table.select_current(), Some(60));
}

#[test]
fn activation_order_does_not_matter_for_selection() {
    let mut table = NoteTable::initialize();
    table.apply_event(NoteEvent { key: 60 });
    table.apply_event(NoteEvent { key: 72 });
    assert_eq!(table.select_current(), Some(60));
}

#[test]
fn the_updater_publishes_exactly_when_the_selection_moves() {
    let mut table = NoteTable::initialize();

    let first = updater_step(&mut table, NoteEvent { key: 72 });
    match first {
        Some(CurrentNoteSnapshot::Playing { key, phase, .. }) => {
            assert_eq!(key, 72);
            assert_eq!(phase, 0);
        }
        other => panic!("expected a playing snapshot, got {other:?}"),
    }

    // the same key again moves nothing, so nothing is published
    assert_eq!(updater_step(&mut table, NoteEvent { key: 72 }), None);

    // a higher key does not displace the selection either
    assert_eq!(updater_step(&mut table, NoteEvent { key: 100 }), None);

    // a lower key takes the selection and is published with its pitch
    let lower = updater_step(&mut table, NoteEvent { key: 60 });
    match lower {
        Some(CurrentNoteSnapshot::Playing { key, freq_millihz, phase }) => {
            assert_eq!(key, 60);
            assert_eq!(freq_millihz, lush_rs::pitch::frequency_millihz(60));
            assert_eq!(phase, 0);
        }
        other => panic!("expected a playing snapshot, got {other:?}"),
    }
}
