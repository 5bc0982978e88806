//! The decisions behind the menu-bar application: which timer operation a
//! command runs, what the settings become, and what the shell must then do
//! (save the settings, ring a chime, retune the noise). The shell owns the
//! clock, the audio thread and the settings file, and carries out the
//! [`Effects`] each step returns.

use vstd::prelude::*;

use crate::chime::ChimeVoice;
use crate::noise::NoiseKind;
use crate::settings::{Settings, SettingsView, CUSTOM_PRESET_ID};
use crate::timer::{
    builtin_presets, builtin_presets_spec, clamp_spec, preset_views, Phase, Preset, PresetView,
    RunState, Snapshot, Timer, TimerView, Transition, MAX_PHASE_SECS, MAX_ROUNDS, MIN_PHASE_SECS,
};

verus! {

/// Noise volume and tone in thousandths, as the shell measures its
/// continuous levels. Compared as integers so float jitter never counts as
/// a change.
#[derive(Debug, Clone, Copy, PartialEq, Eq, Structural)]
pub struct NoiseLevels {
    pub volume: u32,
    pub tone: u32,
}

/// The noise configuration handed to the audio thread.
#[derive(Debug, Clone, Copy, PartialEq, Eq, Structural)]
pub struct NoiseWish {
    pub enabled: bool,
    pub kind: NoiseKind,
    pub volume: u32,
    pub tone: u32,
}

/// A chime to ring: `voice`, at the pitch for the end of `ended`.
#[derive(Debug, Clone, Copy, PartialEq, Eq, Structural)]
pub struct ChimeCue {
    pub voice: ChimeVoice,
    pub ended: Phase,
}

/// What the shell must do after an engine step.
#[derive(Debug, Clone, Copy, PartialEq, Eq, Structural)]
pub struct Effects {
    /// Write the settings to disk.
    pub persist: bool,
    /// Ring this chime.
    pub chime: Option<ChimeCue>,
    /// Hand this configuration to the audio thread.
    pub noise: Option<NoiseWish>,
}

/// How often, in ticks without a transition, the day counter is checked.
pub const ROLL_OVER_EVERY: u64 = 300;

/// The mathematical content of an [`Engine`].
pub struct EngineView {
    pub timer: TimerView,
    pub settings: SettingsView,
    pub levels: NoiseLevels,
    pub last_noise: Option<NoiseWish>,
    pub ticks: u64,
}

impl EngineView {
    /// The engine invariant: a sound timer that runs the selected preset with
    /// the chosen behaviour, settings that are already in range, and one
    /// count of today's focus sessions shared by both.
    pub open spec fn wf(self) -> bool {
        &&& self.timer.wf()
        &&& self.settings.sanitized() == self.settings
        &&& self.timer.preset == self.settings.active_preset()
        &&& self.timer.behavior == self.settings.behavior
        &&& self.timer.completed_focus == self.settings.completed_focus
    }

    /// Noise plays only while a session runs, and during breaks only when
    /// asked to.
    pub open spec fn noise_should_play(self) -> bool {
        &&& self.settings.noise_enabled
        &&& self.timer.state is Running
        &&& (self.timer.phase is Focus || self.settings.noise_during_breaks)
    }

    pub open spec fn wish(self) -> NoiseWish {
        NoiseWish {
            enabled: self.noise_should_play(),
            kind: self.settings.noise_kind,
            volume: self.levels.volume,
            tone: self.levels.tone,
        }
    }

    /// Recomputes the noise configuration; it is handed on only when it
    /// differs from the last one handed on.
    pub open spec fn synced(self) -> (EngineView, Option<NoiseWish>) {
        if self.last_noise == Some(self.wish()) {
            (self, None)
        } else {
            (EngineView { last_noise: Some(self.wish()), ..self }, Some(self.wish()))
        }
    }

    pub open spec fn with_timer(self, timer: TimerView) -> EngineView {
        EngineView { timer, ..self }
    }

    /// A timer operation followed by a noise sync; nothing to save or ring.
    pub open spec fn after_timer_op(self, timer: TimerView) -> (EngineView, Effects) {
        let (e, noise) = self.with_timer(timer).synced();
        (e, Effects { persist: false, chime: None, noise })
    }

    pub open spec fn started(self, now_ms: u64) -> (EngineView, Effects) {
        self.after_timer_op(TimerView { clock_ms: now_ms, ..self.timer }.started())
    }

    pub open spec fn toggled(self, now_ms: u64) -> (EngineView, Effects) {
        if self.timer.state is Running {
            self.after_timer_op(self.timer.paused())
        } else {
            self.started(now_ms)
        }
    }

    pub open spec fn skipped(self, now_ms: u64) -> (EngineView, Effects) {
        self.after_timer_op(TimerView { clock_ms: now_ms, ..self.timer }.transitioned(false).0)
    }

    /// New settings, with the timer moved onto their preset, saved and synced.
    pub open spec fn reconfigured(self, settings: SettingsView, now_ms: u64) -> (
        EngineView,
        Effects,
    ) {
        let timer = TimerView { clock_ms: now_ms, ..self.timer }.with_preset(
            settings.active_preset(),
        );
        let (e, noise) = EngineView { settings, timer, ..self }.synced();
        (e, Effects { persist: true, chime: None, noise })
    }

    pub open spec fn preset_selected(self, id: Seq<char>, now_ms: u64) -> (EngineView, Effects) {
        self.reconfigured(SettingsView { preset_id: id, ..self.settings }.sanitized(), now_ms)
    }

    pub open spec fn custom_preset_set(self, custom: PresetView, now_ms: u64) -> (
        EngineView,
        Effects,
    ) {
        self.reconfigured(
            SettingsView {
                custom_preset: custom.sanitized(),
                preset_id: crate::settings::custom_id(),
                ..self.settings
            },
            now_ms,
        )
    }

    /// Settings from the form, sanitised, with the engine's session count.
    /// The running phase is left alone unless the active preset moved.
    pub open spec fn settings_updated(
        self,
        incoming: SettingsView,
        levels: NoiseLevels,
        now_ms: u64,
    ) -> (EngineView, Effects) {
        let settings = SettingsView {
            completed_focus: self.settings.completed_focus,
            completed_date: self.settings.completed_date,
            ..incoming.sanitized()
        };
        let moved = !settings.active_preset().same_durations(self.settings.active_preset());
        let behaved = TimerView { behavior: settings.behavior, ..self.timer };
        let timer = if moved {
            TimerView { clock_ms: now_ms, ..behaved }.with_preset(settings.active_preset())
        } else {
            TimerView { preset: settings.active_preset(), ..behaved }
        };
        let (e, noise) = EngineView { settings, levels, timer, ..self }.synced();
        (e, Effects { persist: true, chime: None, noise })
    }

    /// The day counter moved on to `today`, with the timer's count following.
    pub open spec fn rolled_over_to(self, today: Seq<char>) -> (EngineView, Effects) {
        let (settings, rolled) = self.settings.rolled_over_to(today);
        let timer = if rolled {
            TimerView { completed_focus: 0, ..self.timer }
        } else {
            self.timer
        };
        (
            EngineView { settings, timer, ..self },
            Effects { persist: rolled, chime: None, noise: None },
        )
    }

    /// Drives the clock forward to `now_ms`. A completed phase is credited in
    /// the settings, rung (when chimes are on) and saved; any transition
    /// resyncs the noise. Without a transition the tick counter moves, and
    /// every `ROLL_OVER_EVERY`-th tick the day counter is checked against
    /// `today`.
    pub open spec fn ticked(self, now_ms: u64, today: Seq<char>) -> (
        EngineView,
        Option<Transition>,
        Effects,
    ) {
        let (timer, t) = self.timer.advanced(now_ms);
        match t {
            Some(t) => {
                let settings = if t.completed {
                    SettingsView { completed_focus: timer.completed_focus, ..self.settings }
                } else {
                    self.settings
                };
                let chime = if t.completed && self.settings.chime_enabled {
                    Some(ChimeCue { voice: self.settings.chime_voice, ended: t.ended })
                } else {
                    None
                };
                let (e, noise) = EngineView { timer, settings, ..self }.synced();
                (e, Some(t), Effects { persist: t.completed, chime, noise })
            },
            None => {
                let counted = EngineView {
                    timer,
                    ticks: (if self.ticks == u64::MAX {
                        0
                    } else {
                        self.ticks + 1
                    }) as u64,
                    ..self
                };
                if self.ticks % ROLL_OVER_EVERY == 0 {
                    let (e, fx) = counted.rolled_over_to(today);
                    (e, None, fx)
                } else {
                    (counted, None, Effects { persist: false, chime: None, noise: None })
                }
            },
        }
    }
}

pub struct Engine {
    timer: Timer,
    settings: Settings,
    levels: NoiseLevels,
    last_noise: Option<NoiseWish>,
    ticks: u64,
}

impl View for Engine {
    type V = EngineView;

    closed spec fn view(&self) -> EngineView {
        EngineView {
            timer: self.timer@,
            settings: self.settings@,
            levels: self.levels,
            last_noise: self.last_noise,
            ticks: self.ticks,
        }
    }
}

impl Engine {
    pub fn new(settings: Settings, levels: NoiseLevels) -> (r: Self)
        ensures
            r@.wf(),
            exists|today: Seq<char>|
                r@.settings == settings@.sanitized().rolled_over_to(today).0,
            r@.timer == (TimerView {
                completed_focus: r@.settings.completed_focus,
                ..TimerView::initial(r@.settings.active_preset(), r@.settings.behavior)
            }),
            r@.levels == levels,
            r@.last_noise is None,
            r@.ticks == 0,
    {
        let mut settings = settings.sanitized();
        settings.roll_over_day();
        proof {
            crate::settings::lemma_settings_sanitize_idempotent(settings@);
            crate::settings::lemma_active_preset_in_range(settings@);
            crate::timer::lemma_sanitize_idempotent(settings@.active_preset());
        }
        let mut timer = Timer::new(settings.active_preset(), settings.behavior);
        timer.set_completed_focus(settings.completed_focus);
        Engine { timer, settings, levels, last_noise: None, ticks: 0 }
    }

    pub fn timer(&self) -> (r: &Timer)
        ensures
            r@ == self@.timer,
    {
        &self.timer
    }

    pub fn settings(&self) -> (r: &Settings)
        ensures
            r@ == self@.settings,
    {
        &self.settings
    }

    pub fn levels(&self) -> (r: NoiseLevels)
        ensures
            r == self@.levels,
    {
        self.levels
    }

    pub fn snapshot(&self) -> (r: Snapshot)
        requires
            self@.wf(),
        ensures
            r.phase == self@.timer.phase,
            r.phase_label@ == crate::timer::phase_label_spec(self@.timer.phase),
            r.state == self@.timer.state,
            r.remaining_secs == crate::timer::display_secs(self@.timer.remaining_ms as int),
            r.total_secs == self@.timer.preset.duration(self@.timer.phase),
            r.elapsed_secs == r.total_secs - r.remaining_secs,
            r.round == self@.timer.round,
            r.rounds == self@.timer.preset.rounds,
            r.completed_focus == self@.timer.completed_focus,
            r.preset@ == self@.timer.preset,
            r.clock@ == crate::timer::clock_text(r.remaining_secs as nat),
    {
        self.timer.snapshot()
    }

    /// The presets the window offers: the built-in ones, then the custom one.
    pub fn presets(&self) -> (r: Vec<Preset>)
        ensures
            preset_views(r@) == builtin_presets_spec().push(self@.settings.custom_preset),
    {
        let mut presets = builtin_presets();
        let ghost before = presets@;
        presets.push(self.settings.custom_preset.duplicate());
        assert(preset_views(presets@) =~= preset_views(before).push(
            self@.settings.custom_preset,
        ));
        presets
    }

    fn sync_noise(&mut self) -> (r: Option<NoiseWish>)
        ensures
            (final(self)@, r) == old(self)@.synced(),
    {
        let should_play = self.settings.noise_enabled && self.timer.state() == RunState::Running
            && (self.timer.phase() == Phase::Focus || self.settings.noise_during_breaks);
        let wish = NoiseWish {
            enabled: should_play,
            kind: self.settings.noise_kind,
            volume: self.levels.volume,
            tone: self.levels.tone,
        };
        let unchanged = match self.last_noise {
            Some(last) => last == wish,
            None => false,
        };
        if unchanged {
            return None;
        }
        self.last_noise = Some(wish);
        Some(wish)
    }

    /// Recomputes whether noise should be playing; the result names the
    /// configuration to hand to the audio thread when it has changed.
    pub fn refresh_noise(&mut self) -> (r: Effects)
        ensures
            (final(self)@, r.noise) == old(self)@.synced(),
            !r.persist,
            r.chime is None,
    {
        let noise = self.sync_noise();
        Effects { persist: false, chime: None, noise }
    }

    pub fn start(&mut self, now_ms: u64) -> (r: Effects)
        requires
            old(self)@.wf(),
        ensures
            (final(self)@, r) == old(self)@.started(now_ms),
            final(self)@.wf(),
    {
        // Re-anchor first: time spent idle or paused must not be charged to
        // the phase the moment it resumes.
        self.timer.sync_clock(now_ms);
        self.timer.start();
        let noise = self.sync_noise();
        Effects { persist: false, chime: None, noise }
    }

    pub fn pause(&mut self) -> (r: Effects)
        requires
            old(self)@.wf(),
        ensures
            (final(self)@, r) == old(self)@.after_timer_op(old(self)@.timer.paused()),
            final(self)@.wf(),
    {
        self.timer.pause();
        let noise = self.sync_noise();
        Effects { persist: false, chime: None, noise }
    }

    pub fn toggle(&mut self, now_ms: u64) -> (r: Effects)
        requires
            old(self)@.wf(),
        ensures
            (final(self)@, r) == old(self)@.toggled(now_ms),
            final(self)@.wf(),
    {
        if self.timer.is_running() {
            self.pause()
        } else {
            self.start(now_ms)
        }
    }

    pub fn reset(&mut self) -> (r: Effects)
        requires
            old(self)@.wf(),
        ensures
            (final(self)@, r) == old(self)@.after_timer_op(old(self)@.timer.reset()),
            final(self)@.wf(),
    {
        self.timer.reset();
        let noise = self.sync_noise();
        Effects { persist: false, chime: None, noise }
    }

    pub fn restart_phase(&mut self) -> (r: Effects)
        requires
            old(self)@.wf(),
        ensures
            (final(self)@, r) == old(self)@.after_timer_op(old(self)@.timer.restarted()),
            final(self)@.wf(),
    {
        self.timer.restart_phase();
        let noise = self.sync_noise();
        Effects { persist: false, chime: None, noise }
    }

    /// Ends the current phase by hand. No chime: the user already knows.
    pub fn skip(&mut self, now_ms: u64) -> (r: Effects)
        requires
            old(self)@.wf(),
        ensures
            (final(self)@, r) == old(self)@.skipped(now_ms),
            final(self)@.wf(),
    {
        self.timer.sync_clock(now_ms);
        self.timer.skip();
        let noise = self.sync_noise();
        Effects { persist: false, chime: None, noise }
    }

    fn move_timer_onto_preset(&mut self, now_ms: u64)
        requires
            old(self)@.timer.wf(),
            old(self)@.settings.sanitized() == old(self)@.settings,
            old(self)@.timer.behavior == old(self)@.settings.behavior,
            old(self)@.timer.completed_focus == old(self)@.settings.completed_focus,
        ensures
            final(self)@ == (EngineView {
                timer: TimerView { clock_ms: now_ms, ..old(self)@.timer }.with_preset(
                    old(self)@.settings.active_preset(),
                ),
                ..old(self)@
            }),
            final(self)@.wf(),
    {
        let preset = self.settings.active_preset();
        proof {
            crate::settings::lemma_active_preset_in_range(self@.settings);
            crate::timer::lemma_sanitize_idempotent(self@.settings.active_preset());
        }
        self.timer.sync_clock(now_ms);
        self.timer.set_preset(preset);
    }

    pub fn set_preset(&mut self, id: &str, now_ms: u64) -> (r: Effects)
        requires
            old(self)@.wf(),
        ensures
            (final(self)@, r) == old(self)@.preset_selected(id@, now_ms),
            final(self)@.wf(),
    {
        self.settings.preset_id = String::from_str(id);
        self.settings.sanitize();
        proof {
            crate::settings::lemma_settings_sanitize_idempotent(self@.settings);
        }
        self.move_timer_onto_preset(now_ms);
        let noise = self.sync_noise();
        Effects { persist: true, chime: None, noise }
    }

    pub fn set_custom_preset(
        &mut self,
        focus_secs: u32,
        short_secs: u32,
        long_secs: u32,
        rounds: u32,
        now_ms: u64,
    ) -> (r: Effects)
        requires
            old(self)@.wf(),
        ensures
            (final(self)@, r) == old(self)@.custom_preset_set(
                PresetView {
                    id: crate::settings::custom_id(),
                    label: "Custom"@,
                    focus_secs,
                    short_break_secs: short_secs,
                    long_break_secs: long_secs,
                    rounds,
                },
                now_ms,
            ),
            final(self)@.wf(),
            final(self)@.settings.custom_preset.focus_secs == clamp_spec(
                focus_secs,
                MIN_PHASE_SECS,
                MAX_PHASE_SECS,
            ),
            final(self)@.settings.custom_preset.short_break_secs == clamp_spec(
                short_secs,
                MIN_PHASE_SECS,
                MAX_PHASE_SECS,
            ),
            final(self)@.settings.custom_preset.long_break_secs == clamp_spec(
                long_secs,
                MIN_PHASE_SECS,
                MAX_PHASE_SECS,
            ),
            final(self)@.settings.custom_preset.rounds == clamp_spec(rounds, 1, MAX_ROUNDS),
            final(self)@.timer.preset == final(self)@.settings.custom_preset,
    {
        self.settings.custom_preset = Preset::new(
            CUSTOM_PRESET_ID,
            "Custom",
            focus_secs,
            short_secs,
            long_secs,
            rounds,
        ).sanitized();
        self.settings.preset_id = String::from_str(CUSTOM_PRESET_ID);
        proof {
            crate::timer::lemma_sanitize_idempotent(self@.settings.custom_preset);
        }
        self.move_timer_onto_preset(now_ms);
        let noise = self.sync_noise();
        Effects { persist: true, chime: None, noise }
    }
}

impl Engine {
    /// Applies a whole settings object from the UI. The running phase is left
    /// alone unless the active preset's durations actually moved.
    pub fn update_settings(&mut self, incoming: Settings, levels: NoiseLevels, now_ms: u64) -> (r:
        Effects)
        requires
            old(self)@.wf(),
        ensures
            (final(self)@, r) == old(self)@.settings_updated(incoming@, levels, now_ms),
            final(self)@.wf(),
            final(self)@.settings == (SettingsView {
                completed_focus: old(self)@.settings.completed_focus,
                completed_date: old(self)@.settings.completed_date,
                ..incoming@.sanitized()
            }),
            final(self)@.settings.noise_kind == incoming@.noise_kind,
            final(self)@.levels == levels,
            r.persist,
    {
        let previous = self.settings.active_preset();
        let mut incoming = incoming.sanitized();
        // The session count belongs to the engine, not the form.
        incoming.completed_focus = self.settings.completed_focus;
        incoming.completed_date = self.settings.completed_date.clone();
        self.settings = incoming;
        self.levels = levels;
        proof {
            crate::settings::lemma_settings_sanitize_idempotent(self@.settings);
            crate::settings::lemma_active_preset_in_range(self@.settings);
            crate::timer::lemma_sanitize_idempotent(self@.settings.active_preset());
        }
        let preset = self.settings.active_preset();
        let moved = !preset.same_durations(&previous);
        self.timer.set_behavior(self.settings.behavior);
        if moved {
            self.timer.sync_clock(now_ms);
            self.timer.set_preset(preset);
        } else {
            // Only the id or label moved: the running phase carries on.
            self.timer.adopt_preset(preset);
        }
        let noise = self.sync_noise();
        Effects { persist: true, chime: None, noise }
    }

    /// The chime the settings would ring at the end of a focus phase.
    pub fn preview_chime(&self) -> (r: ChimeCue)
        ensures
            r == (ChimeCue { voice: self@.settings.chime_voice, ended: Phase::Focus }),
    {
        ChimeCue { voice: self.settings.chime_voice, ended: Phase::Focus }
    }

    /// Moves the day counter on to `today`; the settings are then to be saved
    /// when it moved.
    pub fn roll_over_day_to(&mut self, today: String) -> (r: Effects)
        requires
            old(self)@.wf(),
        ensures
            (final(self)@, r) == old(self)@.rolled_over_to(today@),
            final(self)@.wf(),
    {
        let rolled = self.settings.roll_over_day_to(today);
        if rolled {
            self.timer.set_completed_focus(0);
        }
        Effects { persist: rolled, chime: None, noise: None }
    }

    /// Zeroes today's session count when the calendar day has moved on; the
    /// settings are then to be saved.
    pub fn roll_over_day(&mut self) -> (r: Effects)
        requires
            old(self)@.wf(),
        ensures
            exists|today: Seq<char>| (final(self)@, r) == old(self)@.rolled_over_to(today),
            final(self)@.wf(),
    {
        let ghost before = self@;
        let rolled = self.settings.roll_over_day();
        let ghost today = choose|today: Seq<char>|
            (self@.settings, rolled) == before.settings.rolled_over_to(today);
        if rolled {
            self.timer.set_completed_focus(0);
        }
        let r = Effects { persist: rolled, chime: None, noise: None };
        assert((self@, r) == before.rolled_over_to(today));
        r
    }

    /// Drives the clock forward. Returns the transition to announce, if any,
    /// and what the shell must do about it.
    #[verifier::rlimit(40)]
    pub fn tick(&mut self, now_ms: u64) -> (r: (Option<Transition>, Effects))
        requires
            old(self)@.wf(),
            old(self)@.timer.credits_focus_at(now_ms) ==> old(self)@.timer.completed_focus
                < u32::MAX,
        ensures
            exists|today: Seq<char>|
                (final(self)@, r.0, r.1) == old(self)@.ticked(now_ms, today),
            final(self)@.wf(),
            r.0 matches Some(t) ==> t.completed && old(self)@.settings.chime_enabled ==> r.1.chime
                == Some(ChimeCue { voice: old(self)@.settings.chime_voice, ended: t.ended }),
            r.0 matches Some(t) ==> !(t.completed && old(self)@.settings.chime_enabled)
                ==> r.1.chime is None,
            r.0 is None ==> r.1.chime is None,
    {
        let ghost before = self@;
        let transition = self.timer.advance(now_ms);
        match transition {
            Some(t) => {
                let mut chime = None;
                if t.completed {
                    self.settings.completed_focus = self.timer.completed_focus();
                    if self.settings.chime_enabled {
                        chime = Some(ChimeCue { voice: self.settings.chime_voice, ended: t.ended });
                    }
                }
                let noise = self.sync_noise();
                let r = (Some(t), Effects { persist: t.completed, chime, noise });
                assert((self@, r.0, r.1) == before.ticked(now_ms, Seq::empty()));
                r
            },
            None => {
                let due = self.ticks % ROLL_OVER_EVERY == 0;
                self.ticks = self.ticks.wrapping_add(1);
                if due {
                    // Roughly once a minute, so the day's count clears at
                    // midnight even when the app is left running.
                    let ghost counted = self@;
                    let fx = self.roll_over_day();
                    let ghost today = choose|today: Seq<char>|
                        (self@, fx) == counted.rolled_over_to(today);
                    assert((self@, None::<Transition>, fx) == before.ticked(now_ms, today));
                    (None, fx)
                } else {
                    let r = (None, Effects { persist: false, chime: None, noise: None });
                    assert((self@, r.0, r.1) == before.ticked(now_ms, Seq::empty()));
                    r
                }
            },
        }
    }
}

/// The audio thread hears about noise only when the wish changes: a wish
/// handed on says whether noise should play now, and a second sync right
/// after hands nothing on.
pub proof fn lemma_noise_sync_hands_on_changes_only(e: EngineView)
    ensures
        e.synced().1 matches Some(w) ==> w == e.wish() && e.last_noise != Some(w),
        e.synced().1 is None ==> e.synced().0 == e,
        e.synced().0.synced() == (e.synced().0, None::<NoiseWish>),
        e.synced().0.last_noise == Some(e.wish()),
        e.synced().1 is Some <==> e.last_noise != Some(e.wish()),
        e.wish() == (NoiseWish {
            enabled: e.settings.noise_enabled && e.timer.state is Running && (e.timer.phase is Focus
                || e.settings.noise_during_breaks),
            kind: e.settings.noise_kind,
            volume: e.levels.volume,
            tone: e.levels.tone,
        }),
        e.wish().enabled <==> e.noise_should_play(),
{
}

/// Noise never plays while the timer is stopped, nor during a break unless
/// the settings ask for it.
pub proof fn lemma_noise_only_during_sessions(e: EngineView)
    ensures
        !(e.timer.state is Running) ==> !e.wish().enabled,
        e.timer.phase.is_break_spec() && !e.settings.noise_during_breaks ==> !e.wish().enabled,
        !e.settings.noise_enabled ==> !e.wish().enabled,
{
}

/// Settings from the form never touch the session count, and the running
/// phase is left alone unless the active preset's durations moved.
pub proof fn lemma_form_keeps_session_and_phase(
    e: EngineView,
    incoming: SettingsView,
    levels: NoiseLevels,
    now_ms: u64,
)
    requires
        e.wf(),
    ensures
        e.settings_updated(incoming, levels, now_ms).0.settings.completed_focus
            == e.settings.completed_focus,
        e.settings_updated(incoming, levels, now_ms).0.settings.completed_date
            == e.settings.completed_date,
        e.settings_updated(incoming, levels, now_ms).0.timer.completed_focus
            == e.timer.completed_focus,
        incoming.sanitized().active_preset().same_durations(e.settings.active_preset()) ==> {
            let t = e.settings_updated(incoming, levels, now_ms).0.timer;
            &&& t.phase == e.timer.phase
            &&& t.state == e.timer.state
            &&& t.remaining_ms == e.timer.remaining_ms
            &&& t.round == e.timer.round
            &&& t.preset == incoming.sanitized().active_preset()
        },
        !incoming.sanitized().active_preset().same_durations(e.settings.active_preset()) ==> {
            let t = e.settings_updated(incoming, levels, now_ms).0.timer;
            &&& t.phase is Focus
            &&& t.state is Idle
            &&& t.round == 1
            &&& t.remaining_ms == incoming.sanitized().active_preset().focus_secs * 1000
        },
{
    let settings = SettingsView {
        completed_focus: e.settings.completed_focus,
        completed_date: e.settings.completed_date,
        ..incoming.sanitized()
    };
    assert(settings.active_preset() == incoming.sanitized().active_preset());
    crate::settings::lemma_active_preset_in_range(incoming.sanitized());
    crate::timer::lemma_sanitize_idempotent(incoming.sanitized().active_preset());
}

/// Only a phase that ran to zero is credited, rung and saved; the chime
/// rings for the phase that ended, and only when chimes are on. Ending a
/// phase by hand never rings.
pub proof fn lemma_chime_only_for_completed_phases(e: EngineView, now_ms: u64, today: Seq<char>)
    requires
        e.wf(),
    ensures
        e.ticked(now_ms, today).2.chime matches Some(c) ==> {
            &&& e.ticked(now_ms, today).1 matches Some(t)
            &&& t.completed
            &&& c.ended == t.ended
            &&& c.voice == e.settings.chime_voice
            &&& e.settings.chime_enabled
        },
        e.ticked(now_ms, today).1 matches Some(t) ==> (e.ticked(now_ms, today).2.persist
            <==> t.completed),
        e.skipped(now_ms).1.chime is None,
        !e.skipped(now_ms).1.persist,
{
}

/// Whatever the engine does, today's count in the settings and in the timer
/// stay the same number.
#[verifier::rlimit(40)]
pub proof fn lemma_session_count_shared(e: EngineView, now_ms: u64, today: Seq<char>)
    requires
        e.wf(),
        e.timer.credits_focus_at(now_ms) ==> e.timer.completed_focus < u32::MAX,
    ensures
        e.ticked(now_ms, today).0.settings.completed_focus == e.ticked(
            now_ms,
            today,
        ).0.timer.completed_focus,
        e.ticked(now_ms, today).0.wf(),
        e.rolled_over_to(today).0.wf(),
{
    crate::timer::lemma_operations_keep_invariant(e.timer, e.timer.preset, true, now_ms);
    lemma_roll_over_keeps_invariant(e, today);
    let (timer, t) = e.timer.advanced(now_ms);
    assert(timer.wf());
    match t {
        Some(t) => {
            let settings = if t.completed {
                SettingsView { completed_focus: timer.completed_focus, ..e.settings }
            } else {
                e.settings
            };
            assert(t.completed || timer.completed_focus == e.timer.completed_focus);
            let e2 = EngineView { timer, settings, ..e };
            assert(e2.wf());
            assert(e2.synced().0.wf());
        },
        None => {
            let counted = EngineView {
                timer,
                ticks: (if e.ticks == u64::MAX {
                    0
                } else {
                    e.ticks + 1
                }) as u64,
                ..e
            };
            assert(counted.wf());
            lemma_roll_over_keeps_invariant(counted, today);
        },
    }
}

proof fn lemma_roll_over_keeps_invariant(e: EngineView, today: Seq<char>)
    requires
        e.wf(),
    ensures
        e.rolled_over_to(today).0.wf(),
        e.rolled_over_to(today).0.settings.completed_focus
            == e.rolled_over_to(today).0.timer.completed_focus,
{
}

/// Starting or resuming re-anchors the clock first, so time spent idle or
/// paused is never charged to the phase: the phase resumes with exactly the
/// time it had left, measured from the moment of the start.
pub proof fn lemma_resume_charges_no_stopped_time(e: EngineView, now_ms: u64, later_ms: u64)
    requires
        e.wf(),
        now_ms <= later_ms,
        later_ms - now_ms < e.timer.remaining_ms,
    ensures
        e.started(now_ms).0.timer.remaining_ms == e.timer.remaining_ms,
        e.started(now_ms).0.timer.clock_ms == now_ms,
        e.started(now_ms).0.timer.state is Running,
        e.started(now_ms).0.timer.advanced(later_ms).0.remaining_ms == e.timer.remaining_ms - (
        later_ms - now_ms),
{
}

/// Every phase that runs to zero rings when chimes are on, at the pitch for
/// the phase that ended, breaks as well as focus; nothing else rings. In
/// particular a running break that runs out ends, is credited as
/// completed, and rings for the break.
pub proof fn lemma_completed_phases_ring(e: EngineView, now_ms: u64, today: Seq<char>)
    requires
        e.wf(),
    ensures
        e.ticked(now_ms, today).1 matches Some(t) ==> (t.completed && e.settings.chime_enabled
            ==> e.ticked(now_ms, today).2.chime == Some(
            ChimeCue { voice: e.settings.chime_voice, ended: t.ended },
        )),
        e.ticked(now_ms, today).1 matches Some(t) ==> (!(t.completed && e.settings.chime_enabled)
            ==> e.ticked(now_ms, today).2.chime is None),
        e.ticked(now_ms, today).1 is None ==> e.ticked(now_ms, today).2.chime is None,
        e.timer.ends_phase_at(now_ms) ==> (e.ticked(now_ms, today).1 matches Some(t) && t.completed
            && t.ended == e.timer.phase),
        e.timer.ends_phase_at(now_ms) && e.settings.chime_enabled ==> e.ticked(now_ms, today).2.chime
            == Some(ChimeCue { voice: e.settings.chime_voice, ended: e.timer.phase }),
        !e.timer.ends_phase_at(now_ms) ==> e.ticked(now_ms, today).1 is None,
{
}

/// Setting the custom preset stores each given length in its own place,
/// pulled into range, selects the custom preset, restarts the cycle on it
/// and saves the settings.
pub proof fn lemma_custom_preset_lengths_in_place(
    e: EngineView,
    focus_secs: u32,
    short_secs: u32,
    long_secs: u32,
    rounds: u32,
    now_ms: u64,
)
    requires
        e.wf(),
    ensures
        ({
            let (after, fx) = e.custom_preset_set(
                PresetView {
                    id: crate::settings::custom_id(),
                    label: "Custom"@,
                    focus_secs,
                    short_break_secs: short_secs,
                    long_break_secs: long_secs,
                    rounds,
                },
                now_ms,
            );
            let c = after.settings.custom_preset;
            &&& c.focus_secs == clamp_spec(focus_secs, MIN_PHASE_SECS, MAX_PHASE_SECS)
            &&& c.short_break_secs == clamp_spec(short_secs, MIN_PHASE_SECS, MAX_PHASE_SECS)
            &&& c.long_break_secs == clamp_spec(long_secs, MIN_PHASE_SECS, MAX_PHASE_SECS)
            &&& c.rounds == clamp_spec(rounds, 1, MAX_ROUNDS)
            &&& c.id == crate::settings::custom_id()
            &&& c.label == "Custom"@
            &&& after.settings.preset_id == crate::settings::custom_id()
            &&& after.timer.preset == c
            &&& after.timer.phase is Focus
            &&& after.timer.state is Idle
            &&& after.timer.round == 1
            &&& after.timer.remaining_ms == c.focus_secs * 1000
            &&& after.timer.completed_focus == e.timer.completed_focus
            &&& fx.persist
        }),
{
    let c = PresetView {
        id: crate::settings::custom_id(),
        label: "Custom"@,
        focus_secs,
        short_break_secs: short_secs,
        long_break_secs: long_secs,
        rounds,
    }.sanitized();
    crate::timer::lemma_sanitize_idempotent(c);
}

/// A settings form is taken whole, sanitised, except for the session count
/// and its date, which stay the engine's: every choice on the form (sound,
/// chime, behaviour, notifications, theme, ...) is what the engine then
/// holds, and the noise handed on is of the chosen kind at the given levels.
pub proof fn lemma_form_choices_are_taken(
    e: EngineView,
    incoming: SettingsView,
    levels: NoiseLevels,
    now_ms: u64,
)
    requires
        e.wf(),
    ensures
        ({
            let (after, fx) = e.settings_updated(incoming, levels, now_ms);
            let s = after.settings;
            &&& s.noise_kind == incoming.noise_kind
            &&& s.noise_enabled == incoming.noise_enabled
            &&& s.noise_during_breaks == incoming.noise_during_breaks
            &&& s.chime_enabled == incoming.chime_enabled
            &&& s.chime_voice == incoming.chime_voice
            &&& s.behavior == incoming.behavior
            &&& s.notifications_enabled == incoming.notifications_enabled
            &&& s.show_clock_in_menu_bar == incoming.show_clock_in_menu_bar
            &&& s.launch_at_login == incoming.launch_at_login
            &&& s.theme == incoming.theme
            &&& s.custom_preset == (PresetView {
                id: crate::settings::custom_id(),
                ..incoming.custom_preset.sanitized()
            })
            &&& (incoming.selects_known_preset() ==> s.preset_id == incoming.preset_id)
            &&& s.completed_focus == e.settings.completed_focus
            &&& s.completed_date == e.settings.completed_date
            &&& after.levels == levels
            &&& after.timer.behavior == incoming.behavior
            &&& (fx.noise matches Some(w) ==> w.kind == incoming.noise_kind && w.volume
                == levels.volume && w.tone == levels.tone)
            &&& fx.persist
        }),
{
}

/// The transport commands move only the timer, never save, never ring, and
/// leave the noise wish in step with the new timer: start re-anchors the
/// clock and runs the phase from where it stood; pause stops a running
/// timer where it is; reset returns to focus in round one; restart keeps
/// the cycle position; skip ends the phase by hand without credit.
pub proof fn lemma_transport_commands(e: EngineView, now_ms: u64)
    requires
        e.wf(),
    ensures
        ({
            let (a, fx) = e.started(now_ms);
            &&& a.settings == e.settings
            &&& a.timer.clock_ms == now_ms
            &&& a.timer.state is Running
            &&& a.timer.phase == e.timer.phase
            &&& a.timer.round == e.timer.round
            &&& a.timer.remaining_ms == e.timer.remaining_ms
            &&& !fx.persist && fx.chime is None
            &&& a.last_noise == Some(a.wish())
        }),
        ({
            let (a, fx) = e.after_timer_op(e.timer.paused());
            &&& a.settings == e.settings
            &&& a.timer.state == if e.timer.state is Running {
                RunState::Paused
            } else {
                e.timer.state
            }
            &&& a.timer.phase == e.timer.phase
            &&& a.timer.remaining_ms == e.timer.remaining_ms
            &&& !fx.persist && fx.chime is None
            &&& !a.wish().enabled
        }),
        ({
            let (a, fx) = e.after_timer_op(e.timer.reset());
            &&& a.settings == e.settings
            &&& a.timer.phase is Focus
            &&& a.timer.state is Idle
            &&& a.timer.round == 1
            &&& a.timer.remaining_ms == e.settings.active_preset().focus_secs * 1000
            &&& a.timer.completed_focus == e.timer.completed_focus
            &&& !fx.persist && fx.chime is None
        }),
        ({
            let (a, fx) = e.after_timer_op(e.timer.restarted());
            &&& a.timer.phase == e.timer.phase
            &&& a.timer.round == e.timer.round
            &&& a.timer.state is Idle
            &&& a.timer.remaining_ms == e.settings.active_preset().duration(e.timer.phase) * 1000
            &&& !fx.persist && fx.chime is None
        }),
        ({
            let (a, fx) = e.skipped(now_ms);
            &&& a.settings == e.settings
            &&& a.timer.clock_ms == now_ms
            &&& a.timer.completed_focus == e.timer.completed_focus
            &&& a.timer.phase != e.timer.phase
            &&& !fx.persist && fx.chime is None
            &&& a.last_noise == Some(a.wish())
        }),
{
}

/// Selecting a preset by id: a built-in id selects that built-in preset, the
/// custom id the custom preset, and any other id the default one; the
/// cycle restarts idle on it, the session count stays, and the choice is
/// saved.
pub proof fn lemma_preset_selection(e: EngineView, id: Seq<char>, now_ms: u64)
    requires
        e.wf(),
    ensures
        ({
            let (a, fx) = e.preset_selected(id, now_ms);
            &&& (crate::timer::first_with_id(builtin_presets_spec(), id) matches Some(p) ==> {
                &&& a.settings.preset_id == id
                &&& a.timer.preset == p
            })
            &&& (id == crate::settings::custom_id() ==> {
                &&& a.settings.preset_id == id
                &&& a.timer.preset == e.settings.custom_preset
            })
            &&& (!(SettingsView { preset_id: id, ..e.settings }).selects_known_preset() ==> {
                &&& a.settings.preset_id == builtin_presets_spec()[1].id
                &&& a.timer.preset == builtin_presets_spec()[1]
            })
            &&& a.timer.phase is Focus
            &&& a.timer.state is Idle
            &&& a.timer.round == 1
            &&& a.timer.remaining_ms == a.timer.preset.focus_secs * 1000
            &&& a.timer.completed_focus == e.timer.completed_focus
            &&& a.settings.completed_focus == e.settings.completed_focus
            &&& fx.persist
        }),
{
    let s0 = SettingsView { preset_id: id, ..e.settings };
    let s = s0.sanitized();
    crate::settings::lemma_active_preset_in_range(s);
    crate::timer::lemma_sanitize_idempotent(s.active_preset());
    crate::settings::lemma_settings_sanitize_idempotent(e.settings);
    crate::settings::lemma_selection_resolves(s0);
    crate::settings::lemma_selection_resolves(s);
    crate::timer::lemma_sanitize_idempotent(e.settings.custom_preset);
    let a = e.preset_selected(id, now_ms).0;
    assert(a.settings == s);
    assert(a.timer.preset == s.active_preset());
    if s0.selects_known_preset() {
        assert(s.preset_id == id);
        if id == crate::settings::custom_id() {
            assert(s.custom_preset == e.settings.custom_preset);
            assert(s.active_preset() == e.settings.custom_preset);
        }
    } else {
        assert(s.preset_id == "classic"@);
        crate::settings::lemma_classic_resolves();
        assert(s.active_preset() == builtin_presets_spec()[1]);
    }
}

/// The day counter on a new date is zeroed in the settings and the timer
/// alike and saved; on the same date nothing changes and nothing is saved.
/// A quiet tick only counts itself, checking the date every
/// `ROLL_OVER_EVERY` ticks.
pub proof fn lemma_day_roll_over(e: EngineView, today: Seq<char>, now_ms: u64)
    requires
        e.wf(),
    ensures
        e.settings.completed_date != today ==> {
            let (a, fx) = e.rolled_over_to(today);
            &&& a.settings.completed_focus == 0
            &&& a.timer.completed_focus == 0
            &&& a.settings.completed_date == today
            &&& fx.persist
            &&& a.timer.phase == e.timer.phase
            &&& a.timer.remaining_ms == e.timer.remaining_ms
        },
        e.settings.completed_date == today ==> e.rolled_over_to(today) == (
        e,
        Effects { persist: false, chime: None, noise: None },
        ),
        !e.timer.ends_phase_at(now_ms) ==> {
            let (a, t, fx) = e.ticked(now_ms, today);
            &&& t is None
            &&& a.ticks == (if e.ticks == u64::MAX {
                0
            } else {
                e.ticks + 1
            })
            &&& (e.ticks % ROLL_OVER_EVERY != 0 ==> !fx.persist && a.settings == e.settings)
            &&& (e.ticks % ROLL_OVER_EVERY == 0 && e.settings.completed_date != today
                ==> a.settings.completed_focus == 0 && fx.persist)
        },
{
    crate::timer::lemma_advance_shape(e.timer, now_ms);
}

} // verus!
