use crema::chime::ChimeVoice;
use crema::engine::{ChimeCue, Engine, NoiseLevels, NoiseWish};
use crema::noise::NoiseKind;
use crema::settings::Settings;
use crema::timer::{Phase, RunState};

const LEVELS: NoiseLevels = NoiseLevels { volume: 350, tone: 550 };

fn today() -> String {
    chrono::Local::now().format("%Y-%m-%d").to_string()
}

/// An engine on a one-minute custom preset, with noise switched on.
fn engine() -> Engine {
    let settings = Settings { noise_enabled: true, ..Settings::default() };
    let mut engine = Engine::new(settings, LEVELS);
    engine.set_custom_preset(60, 20, 40, 2, 0);
    engine
}

#[test]
fn a_new_engine_runs_the_selected_preset_with_todays_count() {
    let settings = Settings {
        preset_id: "deep".to_string(),
        completed_focus: 5,
        completed_date: today(),
        ..Settings::default()
    };
    let engine = Engine::new(settings, LEVELS);
    assert_eq!(engine.timer().preset().id, "deep");
    assert_eq!(engine.timer().remaining_secs(), 50 * 60);
    assert_eq!(engine.timer().completed_focus(), 5);
    assert_eq!(engine.settings().completed_focus, 5);
    assert_eq!(engine.levels(), LEVELS);
}

#[test]
fn a_stale_count_is_cleared_on_startup() {
    let settings = Settings {
        completed_focus: 5,
        completed_date: "1999-12-31".to_string(),
        preset_id: "nonsense".to_string(),
        ..Settings::default()
    };
    let engine = Engine::new(settings, LEVELS);
    assert_eq!(engine.settings().completed_focus, 0);
    assert_eq!(engine.settings().completed_date, today());
    assert_eq!(engine.timer().completed_focus(), 0);
    assert_eq!(engine.settings().preset_id, "classic");
}

#[test]
fn noise_follows_the_session() {
    let mut engine = engine();
    let started = engine.start(1_000);
    assert_eq!(
        started.noise,
        Some(NoiseWish { enabled: true, kind: NoiseKind::Deep, volume: 350, tone: 550 })
    );
    assert!(!started.persist);
    // Nothing changed, so the audio thread hears nothing.
    assert_eq!(engine.refresh_noise().noise, None);

    let paused = engine.pause();
    assert_eq!(paused.noise.map(|w| w.enabled), Some(false));
    let resumed = engine.toggle(5_000);
    assert_eq!(resumed.noise.map(|w| w.enabled), Some(true));
    assert!(engine.timer().is_running());
}

#[test]
fn a_completed_focus_is_credited_rung_and_saved() {
    let mut engine = engine();
    engine.start(0);
    let (transition, effects) = engine.tick(60_000);
    let transition = transition.expect("focus should end");
    assert_eq!(transition.ended, Phase::Focus);
    assert!(effects.persist);
    assert_eq!(
        effects.chime,
        Some(ChimeCue { voice: ChimeVoice::Bell, ended: Phase::Focus })
    );
    // A break without noise during breaks silences the noise.
    assert_eq!(effects.noise.map(|w| w.enabled), Some(false));
    assert_eq!(engine.settings().completed_focus, 1);
    assert_eq!(engine.snapshot().completed_focus, 1);
}

#[test]
fn chimes_can_be_switched_off() {
    let mut engine = engine();
    let mut settings = engine.settings().clone();
    settings.chime_enabled = false;
    engine.update_settings(settings, LEVELS, 0);
    engine.start(0);
    let (transition, effects) = engine.tick(60_000);
    assert!(transition.is_some());
    assert_eq!(effects.chime, None);
    assert!(effects.persist);
}

#[test]
fn skipping_neither_rings_nor_saves() {
    let mut engine = engine();
    engine.start(0);
    let effects = engine.skip(10_000);
    assert_eq!(effects.chime, None);
    assert!(!effects.persist);
    assert_eq!(engine.timer().phase(), Phase::ShortBreak);
    assert_eq!(engine.settings().completed_focus, 0);
}

#[test]
fn the_form_never_touches_the_session_count() {
    let mut engine = engine();
    engine.start(0);
    engine.tick(60_000);
    let mut incoming = engine.settings().clone();
    incoming.completed_focus = 99;
    incoming.completed_date = "2000-01-01".to_string();
    incoming.noise_during_breaks = true;
    let effects = engine.update_settings(incoming, LEVELS, 61_000);
    assert!(effects.persist);
    assert_eq!(engine.settings().completed_focus, 1);
    assert_eq!(engine.settings().completed_date, today());
    // Same preset: the running break carries on, and now noise plays in it.
    assert_eq!(engine.timer().phase(), Phase::ShortBreak);
    assert_eq!(engine.timer().state(), RunState::Running);
    assert_eq!(effects.noise.map(|w| w.enabled), Some(true));
}

#[test]
fn a_new_preset_from_the_form_restarts_the_cycle() {
    let mut engine = engine();
    engine.start(0);
    engine.tick(30_000);
    let mut incoming = engine.settings().clone();
    incoming.preset_id = "flow".to_string();
    engine.update_settings(incoming, NoiseLevels { volume: 10, tone: 20 }, 30_000);
    assert_eq!(engine.timer().state(), RunState::Idle);
    assert_eq!(engine.timer().remaining_secs(), 90 * 60);
    assert_eq!(engine.levels(), NoiseLevels { volume: 10, tone: 20 });
}

#[test]
fn selecting_a_preset_saves_and_resets() {
    let mut engine = engine();
    engine.start(0);
    let effects = engine.set_preset("espresso", 10_000);
    assert!(effects.persist);
    assert_eq!(engine.settings().preset_id, "espresso");
    assert_eq!(engine.timer().remaining_secs(), 15 * 60);
    assert_eq!(engine.timer().state(), RunState::Idle);

    engine.set_preset("bogus", 20_000);
    assert_eq!(engine.settings().preset_id, "classic");
    assert_eq!(engine.timer().remaining_secs(), 25 * 60);
}

#[test]
fn the_window_lists_the_custom_preset_last() {
    let engine = engine();
    let ids: Vec<String> = engine.presets().into_iter().map(|p| p.id).collect();
    assert_eq!(ids, vec!["espresso", "classic", "deep", "flow", "custom"]);
}

#[test]
fn reset_and_restart_go_through_the_engine() {
    let mut engine = engine();
    engine.start(0);
    engine.tick(10_000);
    engine.restart_phase();
    assert_eq!(engine.timer().remaining_secs(), 60);
    assert_eq!(engine.timer().state(), RunState::Idle);
    engine.skip(10_000);
    engine.reset();
    assert_eq!(engine.timer().phase(), Phase::Focus);
}

#[test]
fn the_day_is_checked_every_few_hundred_quiet_ticks() {
    let mut engine = engine();
    // The first quiet tick checks the day; today is today, so nothing is saved.
    let (_, first) = engine.tick(1);
    assert!(!first.persist);
    for n in 2..=300 {
        let (t, effects) = engine.tick(n);
        assert!(t.is_none());
        assert!(!effects.persist);
    }
    assert_eq!(engine.roll_over_day().persist, false);
}

#[test]
fn the_preview_rings_the_end_of_focus() {
    let engine = engine();
    assert_eq!(
        engine.preview_chime(),
        ChimeCue { voice: ChimeVoice::Bell, ended: Phase::Focus }
    );
}

#[test]
fn resuming_charges_no_paused_time() {
    let mut engine = engine();
    engine.start(0);
    engine.tick(10_000);
    engine.pause();
    engine.tick(500_000);
    engine.start(600_000);
    assert_eq!(engine.timer().remaining_secs(), 50);
    engine.tick(605_000);
    assert_eq!(engine.timer().remaining_secs(), 45);
}

#[test]
fn a_preset_with_the_same_durations_leaves_the_phase_alone() {
    // Classic is running; switching to a custom preset timed exactly like it
    // only renames what is running.
    let mut engine = Engine::new(Settings::default(), LEVELS);
    engine.start(0);
    engine.tick(60_000);
    let mut incoming = engine.settings().clone();
    incoming.preset_id = "custom".to_string();
    incoming.custom_preset.focus_secs = 25 * 60;
    incoming.custom_preset.short_break_secs = 5 * 60;
    incoming.custom_preset.long_break_secs = 15 * 60;
    incoming.custom_preset.rounds = 4;
    engine.update_settings(incoming, LEVELS, 60_000);
    assert_eq!(engine.timer().state(), RunState::Running);
    assert_eq!(engine.timer().remaining_secs(), 24 * 60);
    assert_eq!(engine.timer().preset().id, "custom");
    assert_eq!(engine.snapshot().preset.label, "Custom");
}

#[test]
fn the_day_counter_follows_the_date_it_is_given() {
    let mut engine = engine();
    engine.start(0);
    engine.tick(60_000);
    assert_eq!(engine.settings().completed_focus, 1);
    assert!(!engine.roll_over_day_to(today()).persist);
    let effects = engine.roll_over_day_to("2999-01-01".to_string());
    assert!(effects.persist);
    assert_eq!(engine.settings().completed_focus, 0);
    assert_eq!(engine.timer().completed_focus(), 0);
    assert_eq!(engine.settings().completed_date, "2999-01-01");
}
