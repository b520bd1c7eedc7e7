use lush_rs::notes::updater_step;
use lush_rs::notes::CurrentNoteSnapshot;
use lush_rs::notes::NoteEvent;
use lush_rs::notes::NoteTable;
use lush_rs::render::render_block;
use lush_rs::render::RenderState;
use lush_rs::tone::next_square_sample;

#[test]
fn silence_renders_zeros() {
    let mut state = RenderState::new(CurrentNoteSnapshot::Silence, 44100);
    let out = render_block(&mut state, 64, 2);
    assert_eq!(out.len(), 128);
    assert!(out.iter().all(|&s| s == 0));
}

#[test]
fn one_second_of_middle_c_in_stereo() {
    // apply the note event through the updater, as the control thread would
    let mut table = NoteTable::initialize();
    let published = updater_step(&mut table, NoteEvent { key: 60 }).expect("selection moved");

    let mut state = RenderState::new(published, 44100);
    let out = render_block(&mut state, 44100, 2);

    // 44100 frames by 2 channels
    assert_eq!(out.len(), 88200);

    // every frame's two channel values are equal
    for frame in out.chunks(2) {
        assert_eq!(frame[0], frame[1]);
    }

    // a playing note never renders silence, only unit amplitudes
    assert!(out.iter().all(|&s| s == 1 || s == -1));

    // the waveform's sign changes at the rate 261.632 Hz implies: two
    // changes per waveform period, about 523 in one second, plus one at
    // the end where the phase accumulator wraps back to zero
    let changes = out
        .chunks(2)
        .map(|frame| frame[0])
        .collect::<Vec<_>>()
        .windows(2)
        .filter(|pair| pair[0] != pair[1])
        .count();
    assert_eq!(changes, 524);
}

#[test]
fn rendering_advances_the_phase_and_wraps_it() {
    let note = CurrentNoteSnapshot::Playing { key: 69, freq_millihz: 440_000, phase: 0 };
    let mut state = RenderState::new(note, 100);
    let _ = render_block(&mut state, 250, 1);
    match state.snapshot {
        CurrentNoteSnapshot::Playing { phase, .. } => assert_eq!(phase, 50),
        other => panic!("expected the note to keep playing, got {other:?}"),
    }
}

#[test]
fn the_square_wave_repeats_after_a_whole_period() {
    // 441 Hz at 44100 samples per second: a period of exactly 100 samples
    let freq_millihz = 441_000;
    let sample_rate = 44100;
    let mut phase = 0;
    let mut levels = Vec::new();
    for _ in 0..400 {
        let (level, new_phase) = next_square_sample(freq_millihz, phase, sample_rate);
        levels.push(level);
        phase = new_phase;
    }
    for t in 0..300 {
        assert_eq!(levels[t], levels[t + 100]);
    }
}

#[test]
fn the_square_wave_never_exceeds_unit_amplitude() {
    let freq_millihz = lush_rs::pitch::frequency_millihz(127);
    let sample_rate = 48000;
    let mut phase = 0;
    for _ in 0..48000 {
        let (level, new_phase) = next_square_sample(freq_millihz, phase, sample_rate);
        assert!(level == 1 || level == -1);
        assert!(new_phase < sample_rate);
        phase = new_phase;
    }
}

#[test]
fn a_freshly_published_snapshot_replaces_the_old_note() {
    let first = CurrentNoteSnapshot::Playing { key: 72, freq_millihz: 523_264, phase: 0 };
    let mut state = RenderState::new(first, 44100);
    let _ = render_block(&mut state, 10, 2);

    let second = CurrentNoteSnapshot::Playing { key: 60, freq_millihz: 261_632, phase: 0 };
    state.publish(second);
    match state.snapshot {
        CurrentNoteSnapshot::Playing { key, freq_millihz, phase } => {
            assert_eq!(key, 60);
            assert_eq!(freq_millihz, 261_632);
            assert_eq!(phase, 0);
        }
        other => panic!("expected the new note, got {other:?}"),
    }
}
