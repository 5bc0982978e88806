use crema::announce::{notification, phase_and_clock, toggle_label, tray_title};
use crema::chime::{frequency_for, ChimeVoice};
use crema::timer::{Behavior, Phase, Preset, RunState, Timer, Transition};
use crema::{classic_noise, noise};

#[test]
fn the_two_boundaries_ring_at_different_pitches() {
    assert_ne!(
        frequency_for(Phase::Focus),
        frequency_for(Phase::ShortBreak)
    );
    assert_eq!(
        frequency_for(Phase::ShortBreak),
        frequency_for(Phase::LongBreak)
    );
}

#[test]
fn focus_ends_on_the_lower_note() {
    assert_eq!(frequency_for(Phase::Focus), 396);
    assert_eq!(frequency_for(Phase::LongBreak), 528);
}

#[test]
fn chime_voices_have_ids_and_labels() {
    let ids: Vec<&str> = ChimeVoice::all().iter().map(|v| v.id()).collect();
    let labels: Vec<&str> = ChimeVoice::all().iter().map(|v| v.label()).collect();
    assert_eq!(ids, vec!["bell", "bowl", "wood"]);
    assert_eq!(labels, vec!["Bell", "Singing bowl", "Wood"]);
}

#[test]
fn ambient_sounds_have_ids_and_labels() {
    let ids: Vec<&str> = noise::NoiseKind::all().iter().map(|k| k.id()).collect();
    let labels: Vec<&str> = noise::NoiseKind::all().iter().map(|k| k.label()).collect();
    assert_eq!(ids, vec!["deep", "rain", "hum"]);
    assert_eq!(labels, vec!["Deep", "Rain", "Hum"]);
    assert_eq!(noise::DEFAULT_FADE_MS, 450);
}

#[test]
fn classic_noises_have_ids_and_labels() {
    let ids: Vec<&str> = classic_noise::NoiseKind::all().iter().map(|k| k.id()).collect();
    let labels: Vec<&str> =
        classic_noise::NoiseKind::all().iter().map(|k| k.label()).collect();
    assert_eq!(ids, vec!["white", "pink", "brown"]);
    assert_eq!(labels, vec!["White", "Pink", "Brown"]);
    assert_eq!(classic_noise::DEFAULT_FADE_MS, 450);
}

fn snapshot_after(seconds: u64, start: bool) -> crema::timer::Snapshot {
    let mut t = Timer::new(Preset::new("t", "T", 60, 20, 40, 2), Behavior::default());
    if start {
        t.start();
    }
    t.advance(seconds * 1000);
    t.snapshot()
}

#[test]
fn the_menu_bar_counts_only_during_a_session() {
    let running = snapshot_after(7, true);
    assert_eq!(tray_title(true, &running), Some("00:53".to_string()));
    assert_eq!(tray_title(false, &running), None);

    let idle = snapshot_after(7, false);
    assert_eq!(tray_title(true, &idle), None);

    let mut t = Timer::new(Preset::new("t", "T", 60, 20, 40, 2), Behavior::default());
    t.start();
    t.advance(30_000);
    t.pause();
    assert_eq!(tray_title(true, &t.snapshot()), Some("00:30 paused".to_string()));
}

#[test]
fn the_tooltip_names_the_phase_and_its_clock() {
    assert_eq!(phase_and_clock(&snapshot_after(0, false)), "Focus · 01:00");
}

#[test]
fn the_menu_entry_says_what_a_click_does() {
    assert_eq!(toggle_label(RunState::Idle, Phase::Focus), "Start focus");
    assert_eq!(toggle_label(RunState::Running, Phase::ShortBreak), "Pause short break");
    assert_eq!(toggle_label(RunState::Paused, Phase::LongBreak), "Resume long break");
}

#[test]
fn notifications_announce_only_completed_phases() {
    let snap = snapshot_after(0, false);
    let skipped = Transition {
        ended: Phase::Focus,
        next: Phase::ShortBreak,
        auto_started: true,
        completed: false,
    };
    assert!(notification(&skipped, &snap, true).is_none());

    let done = Transition { completed: true, ..skipped };
    assert!(notification(&done, &snap, false).is_none());
    let (title, body) = notification(&done, &snap, true).unwrap();
    assert_eq!(title, "Focus complete");
    assert_eq!(body, "Your break has started.\nFocus · 01:00");

    let long = Transition { next: Phase::LongBreak, ..done };
    assert_eq!(
        notification(&long, &snap, true).unwrap().1,
        "Take a long break. You have earned it.\nFocus · 01:00"
    );
    let waiting = Transition { auto_started: false, ..done };
    assert_eq!(
        notification(&waiting, &snap, true).unwrap().1,
        "Time for a break when you are ready.\nFocus · 01:00"
    );

    let back = Transition {
        ended: Phase::ShortBreak,
        next: Phase::Focus,
        auto_started: false,
        completed: true,
    };
    let (title, body) = notification(&back, &snap, true).unwrap();
    assert_eq!(title, "Break over");
    assert_eq!(body, "Ready when you are.\nFocus · 01:00");
    let auto = Transition { auto_started: true, ..back };
    assert_eq!(
        notification(&auto, &snap, true).unwrap().1,
        "Back to it. Focus has started.\nFocus · 01:00"
    );
}
