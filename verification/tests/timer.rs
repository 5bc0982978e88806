use crema::timer::{
    builtin_presets, default_preset, format_clock, preset_by_id, Behavior, Phase, Preset,
    RunState, Timer, MAX_PHASE_SECS, MIN_PHASE_SECS,
};

fn test_preset() -> Preset {
    // Minimum-length phases keep the tests fast but still legal.
    Preset::new("test", "Test", 60, 20, 40, 2)
}

fn timer() -> Timer {
    Timer::new(test_preset(), Behavior::default())
}

fn progress(total_secs: u32, elapsed_secs: u32) -> f32 {
    elapsed_secs as f32 / total_secs as f32
}

#[test]
fn starts_idle_on_a_full_focus_phase() {
    let t = timer();
    let snap = t.snapshot();
    assert_eq!(snap.phase, Phase::Focus);
    assert_eq!(snap.state, RunState::Idle);
    assert_eq!(snap.remaining_secs, 60);
    assert_eq!(snap.clock, "01:00");
    assert_eq!(progress(snap.total_secs, snap.elapsed_secs), 0.0);
}

#[test]
fn idle_timer_does_not_drain() {
    let mut t = timer();
    assert!(t.advance(30_000).is_none());
    assert_eq!(t.remaining_secs(), 60);
}

#[test]
fn running_timer_drains_by_elapsed_time() {
    let mut t = timer();
    t.start();
    t.advance(10_000);
    assert_eq!(t.remaining_secs(), 50);
    t.advance(25_000);
    assert_eq!(t.remaining_secs(), 35);
}

#[test]
fn paused_time_is_not_counted() {
    let mut t = timer();
    t.start();
    t.advance(10_000);
    t.pause();
    t.advance(90_000);
    assert_eq!(t.remaining_secs(), 50);
    assert_eq!(t.state(), RunState::Paused);

    t.sync_clock(90_000);
    t.start();
    t.advance(95_000);
    assert_eq!(t.remaining_secs(), 45);
}

#[test]
fn focus_rolls_into_a_short_break_and_auto_starts() {
    let mut t = timer();
    t.start();
    let transition = t.advance(60_000).expect("phase should end");
    assert_eq!(transition.ended, Phase::Focus);
    assert_eq!(transition.next, Phase::ShortBreak);
    assert!(transition.auto_started);
    assert!(transition.completed);
    assert_eq!(t.state(), RunState::Running);
    assert_eq!(t.remaining_secs(), 20);
    assert_eq!(t.completed_focus(), 1);
}

#[test]
fn break_rolls_into_focus_and_waits_for_the_user_by_default() {
    let mut t = timer();
    t.start();
    t.advance(60_000);
    let transition = t.advance(80_000).expect("break should end");
    assert_eq!(transition.ended, Phase::ShortBreak);
    assert_eq!(transition.next, Phase::Focus);
    assert!(!transition.auto_started);
    assert_eq!(t.state(), RunState::Idle);
}

#[test]
fn last_round_of_the_cycle_earns_a_long_break() {
    let mut t = timer();
    t.start();
    t.advance(60_000); // focus 1 ends -> short break
    t.advance(80_000); // short break ends -> focus 2 (idle)
    assert_eq!(t.snapshot().round, 2);

    t.start();
    let transition = t.advance(140_000).expect("focus 2 should end");
    assert_eq!(transition.next, Phase::LongBreak);
    assert_eq!(t.remaining_secs(), 40);
}

#[test]
fn long_break_returns_to_round_one() {
    let mut t = timer();
    t.start();
    t.advance(60_000);
    t.advance(80_000);
    t.start();
    t.advance(140_000); // -> long break, auto started
    let transition = t.advance(180_000).expect("long break should end");
    assert_eq!(transition.next, Phase::Focus);
    assert_eq!(t.snapshot().round, 1);
    assert_eq!(t.completed_focus(), 2);
}

#[test]
fn a_long_suspension_crosses_exactly_one_boundary() {
    let mut t = timer();
    t.start();
    // Eight hours of sleep would otherwise replay dozens of phases.
    let transition = t.advance(8 * 60 * 60 * 1000).expect("phase should end");
    assert_eq!(transition.next, Phase::ShortBreak);
    assert_eq!(t.remaining_secs(), 20, "next phase starts at full length");
    assert_eq!(t.completed_focus(), 1, "only one session is credited");
}

#[test]
fn skipping_focus_does_not_credit_a_session() {
    let mut t = timer();
    t.start();
    t.advance(5_000);
    let transition = t.skip();
    assert!(!transition.completed);
    assert_eq!(transition.next, Phase::ShortBreak);
    assert_eq!(t.completed_focus(), 0);
}

#[test]
fn reset_returns_to_the_top_of_the_cycle() {
    let mut t = timer();
    t.start();
    t.advance(60_000);
    t.advance(80_000);
    t.reset();
    let snap = t.snapshot();
    assert_eq!(snap.phase, Phase::Focus);
    assert_eq!(snap.state, RunState::Idle);
    assert_eq!(snap.round, 1);
    assert_eq!(snap.remaining_secs, 60);
    assert_eq!(t.completed_focus(), 1, "history survives a reset");
}

#[test]
fn toggle_flips_between_running_and_paused() {
    let mut t = timer();
    t.toggle();
    assert_eq!(t.state(), RunState::Running);
    t.toggle();
    assert_eq!(t.state(), RunState::Paused);
    t.toggle();
    assert_eq!(t.state(), RunState::Running);
}

#[test]
fn changing_preset_resets_to_its_focus_length() {
    let mut t = timer();
    t.start();
    t.advance(30_000);
    t.set_preset(preset_by_id("deep").unwrap());
    let snap = t.snapshot();
    assert_eq!(snap.remaining_secs, 50 * 60);
    assert_eq!(snap.state, RunState::Idle);
    assert_eq!(snap.preset.id, "deep");
}

#[test]
fn progress_tracks_elapsed_fraction() {
    let mut t = timer();
    t.start();
    t.advance(15_000);
    let snap = t.snapshot();
    assert!((progress(snap.total_secs, snap.elapsed_secs) - 0.25).abs() < 0.001);
}

#[test]
fn degenerate_presets_are_clamped_rather_than_trusted() {
    let wild = Preset::new("wild", "Wild", 0, 0, 0, 0).sanitized();
    assert_eq!(wild.focus_secs, MIN_PHASE_SECS);
    assert_eq!(wild.rounds, 1);

    let huge = Preset::new("huge", "Huge", u32::MAX, u32::MAX, u32::MAX, 999).sanitized();
    assert_eq!(huge.focus_secs, MAX_PHASE_SECS);
    assert_eq!(huge.rounds, 12);
}

#[test]
fn clock_formatting_pads_both_fields() {
    assert_eq!(format_clock(0), "00:00");
    assert_eq!(format_clock(7), "00:07");
    assert_eq!(format_clock(60), "01:00");
    assert_eq!(format_clock(25 * 60), "25:00");
    assert_eq!(format_clock(90 * 60), "90:00");
}

#[test]
fn builtin_presets_survive_sanitising_unchanged() {
    for preset in builtin_presets() {
        assert_eq!(preset.clone(), preset.sanitized());
    }
}

// ---------------------------------------------------------------------------

#[test]
fn clock_minutes_are_not_wrapped_into_hours() {
    assert_eq!(format_clock(4 * 60 + 7), "04:07");
    assert_eq!(format_clock(MAX_PHASE_SECS), "240:00");
    assert_eq!(format_clock(6_000 * 60 + 59), "6000:59");
    assert_eq!(format_clock(u32::MAX), "71582788:15");
}

#[test]
fn builtin_presets_are_listed_longest_standing_first() {
    let ids: Vec<String> = builtin_presets().into_iter().map(|p| p.id).collect();
    assert_eq!(ids, vec!["espresso", "classic", "deep", "flow"]);
    let flow = preset_by_id("flow").unwrap();
    assert_eq!(
        (flow.focus_secs, flow.short_break_secs, flow.long_break_secs, flow.rounds),
        (90 * 60, 20 * 60, 30 * 60, 2)
    );
    assert_eq!(flow.label, "Flow");
}

#[test]
fn the_default_preset_is_classic() {
    let classic = default_preset();
    assert_eq!(classic.id, "classic");
    assert_eq!(classic.label, "Classic");
    assert_eq!(classic.focus_secs, 25 * 60);
    assert_eq!(classic.short_break_secs, 5 * 60);
    assert_eq!(classic.long_break_secs, 15 * 60);
    assert_eq!(classic.rounds, 4);
}

#[test]
fn unknown_preset_ids_find_nothing() {
    assert!(preset_by_id("nonsense").is_none());
    assert!(preset_by_id("").is_none());
    assert!(preset_by_id("Classic").is_none());
}

#[test]
fn the_remaining_time_reads_rounded_up() {
    let mut t = timer();
    t.start();
    t.advance(1);
    assert_eq!(t.remaining_secs(), 60, "59.999 s reads as a full minute");
    t.advance(59_999);
    assert_eq!(t.remaining_secs(), 1, "the last millisecond still reads 00:01");
    assert_eq!(t.snapshot().clock, "00:01");
}

#[test]
fn a_whole_cycle_returns_to_focus_in_round_one() {
    let mut t = timer();
    let mut phases = Vec::new();
    for _ in 0..4 {
        phases.push(t.skip().next);
    }
    assert_eq!(
        phases,
        vec![Phase::ShortBreak, Phase::Focus, Phase::LongBreak, Phase::Focus]
    );
    assert_eq!(t.snapshot().round, 1);
    assert_eq!(t.completed_focus(), 0, "skipped sessions are never credited");
}

#[test]
fn restarting_a_phase_keeps_the_cycle_position() {
    let mut t = timer();
    t.start();
    t.advance(60_000); // -> short break, running
    t.advance(70_000);
    assert_eq!(t.remaining_secs(), 10);
    t.restart_phase();
    assert_eq!(t.phase(), Phase::ShortBreak);
    assert_eq!(t.state(), RunState::Idle);
    assert_eq!(t.remaining_secs(), 20);
    assert_eq!(t.completed_focus(), 1);
}

#[test]
fn time_running_backwards_drains_nothing() {
    let mut t = timer();
    t.sync_clock(50_000);
    t.start();
    assert!(t.advance(10_000).is_none());
    assert_eq!(t.remaining_secs(), 60);
    t.advance(20_000);
    assert_eq!(t.remaining_secs(), 50);
}

#[test]
fn behaviour_decides_what_starts_on_its_own() {
    let mut t = Timer::new(
        test_preset(),
        Behavior { auto_start_breaks: false, auto_start_focus: true },
    );
    t.start();
    let to_break = t.advance(60_000).unwrap();
    assert!(!to_break.auto_started);
    assert_eq!(t.state(), RunState::Idle);
    let to_focus = t.skip();
    assert!(to_focus.auto_started);
    assert_eq!(t.state(), RunState::Running);
    assert_eq!(t.behavior(), Behavior { auto_start_breaks: false, auto_start_focus: true });
    t.set_behavior(Behavior::default());
    assert!(t.behavior().auto_start_breaks);
}

#[test]
fn completed_sessions_can_be_restored() {
    let mut t = timer();
    t.set_completed_focus(6);
    t.start();
    t.advance(60_000);
    assert_eq!(t.completed_focus(), 7);
    assert_eq!(t.snapshot().completed_focus, 7);
    assert!(t.is_running());
    assert_eq!(t.preset().id, "test");
}

#[test]
fn a_new_timer_sanitises_its_preset() {
    let t = Timer::new(Preset::new("x", "X", 1, 1, 1, 50), Behavior::default());
    let snap = t.snapshot();
    assert_eq!(snap.remaining_secs, MIN_PHASE_SECS);
    assert_eq!(snap.rounds, 12);
    assert_eq!(snap.phase_label, "Focus");
    assert_eq!(Phase::ShortBreak.label(), "Short break");
    assert!(Phase::LongBreak.is_break());
    assert!(!Phase::Focus.is_break());
}

#[test]
fn crediting_is_announced_before_it_happens() {
    let mut t = timer();
    t.start();
    assert!(!t.credits_focus_at(59_999));
    assert!(t.credits_focus_at(60_000));
    t.skip();
    assert!(!t.credits_focus_at(1_000_000), "a break credits nothing");
}

#[test]
fn sanitising_twice_changes_nothing_more() {
    let once = Preset::new("odd", "Odd", 3, 99_999, 500, 0).sanitized();
    assert_eq!(once.clone().sanitized(), once);
    assert_eq!(
        (once.focus_secs, once.short_break_secs, once.long_break_secs, once.rounds),
        (MIN_PHASE_SECS, MAX_PHASE_SECS, 500, 1)
    );
}

#[test]
fn adopting_a_renamed_preset_keeps_the_phase_running() {
    let mut t = timer();
    t.start();
    t.advance(10_000);
    let renamed = Preset::new("other", "Other", 60, 20, 40, 2);
    assert!(renamed.same_durations(&test_preset()));
    assert!(!renamed.same_durations(&Preset::new("other", "Other", 61, 20, 40, 2)));
    t.adopt_preset(renamed);
    assert_eq!(t.state(), RunState::Running);
    assert_eq!(t.remaining_secs(), 50);
    assert_eq!(t.preset().id, "other");
}
