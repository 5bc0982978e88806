//! Pomodoro phase state machine.
//!
//! The engine never reads the system clock itself: callers pass a monotonic
//! millisecond value into [`Timer::advance`]. That keeps every transition
//! deterministic and testable, and lets the host decide what "now" means.

use vstd::prelude::*;

verus! {

/// Shortest phase the engine will accept, in seconds.
pub const MIN_PHASE_SECS: u32 = 10;

/// Longest phase the engine will accept, in seconds (4 hours).
pub const MAX_PHASE_SECS: u32 = 14400;

/// Most focus sessions a cycle may hold before its long break.
pub const MAX_ROUNDS: u32 = 12;

#[derive(Debug, Clone, Copy, PartialEq, Eq, Structural)]
pub enum Phase {
    Focus,
    ShortBreak,
    LongBreak,
}

pub open spec fn phase_label_spec(phase: Phase) -> Seq<char> {
    match phase {
        Phase::Focus => "Focus"@,
        Phase::ShortBreak => "Short break"@,
        Phase::LongBreak => "Long break"@,
    }
}

impl Phase {
    pub open spec fn is_break_spec(self) -> bool {
        self is ShortBreak || self is LongBreak
    }

    pub fn is_break(self) -> (r: bool)
        ensures
            r == self.is_break_spec(),
    {
        match self {
            Phase::Focus => false,
            Phase::ShortBreak => true,
            Phase::LongBreak => true,
        }
    }

    pub fn label(self) -> (r: &'static str)
        ensures
            r@ == phase_label_spec(self),
    {
        match self {
            Phase::Focus => "Focus",
            Phase::ShortBreak => "Short break",
            Phase::LongBreak => "Long break",
        }
    }
}

#[derive(Debug, Clone, Copy, PartialEq, Eq, Structural)]
pub enum RunState {
    Idle,
    Running,
    Paused,
}

/// `v` pulled into `[lo, hi]`.
pub open spec fn clamp_spec(v: u32, lo: u32, hi: u32) -> u32
    recommends
        lo <= hi,
{
    if v < lo {
        lo
    } else if v > hi {
        hi
    } else {
        v
    }
}

fn clamp_u32(v: u32, lo: u32, hi: u32) -> (r: u32)
    requires
        lo <= hi,
    ensures
        r == clamp_spec(v, lo, hi),
{
    if v < lo {
        lo
    } else if v > hi {
        hi
    } else {
        v
    }
}

/// The mathematical content of a [`Preset`].
pub struct PresetView {
    pub id: Seq<char>,
    pub label: Seq<char>,
    pub focus_secs: u32,
    pub short_break_secs: u32,
    pub long_break_secs: u32,
    pub rounds: u32,
}

impl PresetView {
    pub open spec fn duration(self, phase: Phase) -> u32 {
        match phase {
            Phase::Focus => self.focus_secs,
            Phase::ShortBreak => self.short_break_secs,
            Phase::LongBreak => self.long_break_secs,
        }
    }

    /// The two presets time phases alike: the same three durations and the
    /// same number of rounds, whatever their ids and labels.
    pub open spec fn same_durations(self, other: PresetView) -> bool {
        &&& self.focus_secs == other.focus_secs
        &&& self.short_break_secs == other.short_break_secs
        &&& self.long_break_secs == other.long_break_secs
        &&& self.rounds == other.rounds
    }

    /// Every field inside the range the state machine can run safely.
    pub open spec fn is_sanitized(self) -> bool {
        &&& MIN_PHASE_SECS <= self.focus_secs <= MAX_PHASE_SECS
        &&& MIN_PHASE_SECS <= self.short_break_secs <= MAX_PHASE_SECS
        &&& MIN_PHASE_SECS <= self.long_break_secs <= MAX_PHASE_SECS
        &&& 1 <= self.rounds <= MAX_ROUNDS
    }

    pub open spec fn sanitized(self) -> PresetView {
        PresetView {
            focus_secs: clamp_spec(self.focus_secs, MIN_PHASE_SECS, MAX_PHASE_SECS),
            short_break_secs: clamp_spec(self.short_break_secs, MIN_PHASE_SECS, MAX_PHASE_SECS),
            long_break_secs: clamp_spec(self.long_break_secs, MIN_PHASE_SECS, MAX_PHASE_SECS),
            rounds: clamp_spec(self.rounds, 1, MAX_ROUNDS),
            ..self
        }
    }
}

/// A named set of phase durations.
#[derive(Debug, Clone, PartialEq, Eq)]
pub struct Preset {
    pub id: String,
    pub label: String,
    pub focus_secs: u32,
    pub short_break_secs: u32,
    pub long_break_secs: u32,
    /// Focus sessions completed before a long break is offered.
    pub rounds: u32,
}

impl View for Preset {
    type V = PresetView;

    open spec fn view(&self) -> PresetView {
        PresetView {
            id: self.id@,
            label: self.label@,
            focus_secs: self.focus_secs,
            short_break_secs: self.short_break_secs,
            long_break_secs: self.long_break_secs,
            rounds: self.rounds,
        }
    }
}

impl Preset {
    pub fn new(
        id: &str,
        label: &str,
        focus_secs: u32,
        short_break_secs: u32,
        long_break_secs: u32,
        rounds: u32,
    ) -> (r: Self)
        ensures
            r@ == (PresetView {
                id: id@,
                label: label@,
                focus_secs,
                short_break_secs,
                long_break_secs,
                rounds,
            }),
    {
        Preset {
            id: String::from_str(id),
            label: String::from_str(label),
            focus_secs,
            short_break_secs,
            long_break_secs,
            rounds,
        }
    }

    /// Clamps every field into a range the state machine can run safely.
    /// A zero-length phase would make phase advancement spin, so this is
    /// applied to anything crossing the boundary from settings or the UI.
    pub fn sanitized(self) -> (r: Self)
        ensures
            r@ == self@.sanitized(),
            r@.is_sanitized(),
    {
        let mut p = self;
        p.focus_secs = clamp_u32(p.focus_secs, MIN_PHASE_SECS, MAX_PHASE_SECS);
        p.short_break_secs = clamp_u32(p.short_break_secs, MIN_PHASE_SECS, MAX_PHASE_SECS);
        p.long_break_secs = clamp_u32(p.long_break_secs, MIN_PHASE_SECS, MAX_PHASE_SECS);
        p.rounds = clamp_u32(p.rounds, 1, MAX_ROUNDS);
        p
    }

    pub fn duration_secs(&self, phase: Phase) -> (r: u32)
        ensures
            r == self@.duration(phase),
    {
        match phase {
            Phase::Focus => self.focus_secs,
            Phase::ShortBreak => self.short_break_secs,
            Phase::LongBreak => self.long_break_secs,
        }
    }

    /// Whether the two presets hold the same durations and rounds.
    pub fn same_durations(&self, other: &Preset) -> (r: bool)
        ensures
            r == self@.same_durations(other@),
    {
        self.focus_secs == other.focus_secs && self.short_break_secs == other.short_break_secs
            && self.long_break_secs == other.long_break_secs && self.rounds == other.rounds
    }

    /// A field-for-field copy.
    pub(crate) fn duplicate(&self) -> (r: Self)
        ensures
            r@ == self@,
    {
        Preset {
            id: self.id.clone(),
            label: self.label.clone(),
            focus_secs: self.focus_secs,
            short_break_secs: self.short_break_secs,
            long_break_secs: self.long_break_secs,
            rounds: self.rounds,
        }
    }
}


/// The built-in timer versions, longest-standing first.
pub open spec fn builtin_presets_spec() -> Seq<PresetView> {
    seq![
        PresetView {
            id: "espresso"@,
            label: "Espresso"@,
            focus_secs: 900,
            short_break_secs: 180,
            long_break_secs: 600,
            rounds: 4,
        },
        PresetView {
            id: "classic"@,
            label: "Classic"@,
            focus_secs: 1500,
            short_break_secs: 300,
            long_break_secs: 900,
            rounds: 4,
        },
        PresetView {
            id: "deep"@,
            label: "Deep"@,
            focus_secs: 3000,
            short_break_secs: 600,
            long_break_secs: 1200,
            rounds: 3,
        },
        PresetView {
            id: "flow"@,
            label: "Flow"@,
            focus_secs: 5400,
            short_break_secs: 1200,
            long_break_secs: 1800,
            rounds: 2,
        },
    ]
}

/// The first preset of `presets` whose id is `id`.
pub open spec fn first_with_id(presets: Seq<PresetView>, id: Seq<char>) -> Option<PresetView>
    decreases presets.len(),
{
    if presets.len() == 0 {
        None
    } else if presets[0].id == id {
        Some(presets[0])
    } else {
        first_with_id(presets.drop_first(), id)
    }
}

pub open spec fn preset_views(presets: Seq<Preset>) -> Seq<PresetView> {
    presets.map_values(|p: Preset| p@)
}

pub open spec fn option_view(p: Option<Preset>) -> Option<PresetView> {
    match p {
        Some(p) => Some(p@),
        None => None,
    }
}

/// The built-in timer versions, longest-standing first.
pub fn builtin_presets() -> (r: Vec<Preset>)
    ensures
        preset_views(r@) == builtin_presets_spec(),
{
    // Labels stay short so the whole row fits the popover without
    // scrolling, which is the only way the Custom chip stays findable.
    let r = vec![
        Preset::new("espresso", "Espresso", 15 * 60, 3 * 60, 10 * 60, 4),
        Preset::new("classic", "Classic", 25 * 60, 5 * 60, 15 * 60, 4),
        Preset::new("deep", "Deep", 50 * 60, 10 * 60, 20 * 60, 3),
        Preset::new("flow", "Flow", 90 * 60, 20 * 60, 30 * 60, 2),
    ];
    assert(preset_views(r@) =~= builtin_presets_spec());
    r
}

pub fn preset_by_id(id: &str) -> (r: Option<Preset>)
    ensures
        option_view(r) == first_with_id(builtin_presets_spec(), id@),
{
    let presets = builtin_presets();
    let target = String::from_str(id);
    let ghost all = preset_views(presets@);
    let mut i: usize = 0;
    assert(all.skip(0) =~= all);
    while i < presets.len()
        invariant
            all == preset_views(presets@),
            all == builtin_presets_spec(),
            target@ == id@,
            0 <= i <= presets.len(),
            first_with_id(all, id@) == first_with_id(all.skip(i as int), id@),
        decreases presets.len() - i,
    {
        assert(all.skip(i as int)[0] == presets@[i as int]@);
        if presets[i].id == target {
            return Some(presets[i].duplicate());
        }
        assert(all.skip(i as int).drop_first() =~= all.skip(i + 1));
        i = i + 1;
    }
    assert(all.skip(i as int).len() == 0);
    None
}

pub fn default_preset() -> (r: Preset)
    ensures
        r@ == builtin_presets_spec()[1],
{
    proof {
        reveal_strlit("espresso");
        reveal_strlit("classic");
        reveal_with_fuel(first_with_id, 3);
        assert("espresso"@[0] != "classic"@[0]);
        assert(builtin_presets_spec()[0].id != "classic"@);
    }
    match preset_by_id("classic") {
        Some(p) => p,
        None => {
            proof {
                assert(false);
            }
            Preset::new("classic", "Classic", 25 * 60, 5 * 60, 15 * 60, 4)
        },
    }
}


/// What the timer does on its own when a phase ends.
#[derive(Debug, Clone, Copy, PartialEq, Eq, Structural)]
pub struct Behavior {
    pub auto_start_breaks: bool,
    pub auto_start_focus: bool,
}

impl Default for Behavior {
    fn default() -> (r: Self)
        ensures
            r.auto_start_breaks,
            !r.auto_start_focus,
    {
        Behavior { auto_start_breaks: true, auto_start_focus: false }
    }
}

/// Emitted when a phase boundary is crossed, so the host can chime and notify.
#[derive(Debug, Clone, Copy, PartialEq, Eq, Structural)]
pub struct Transition {
    pub ended: Phase,
    pub next: Phase,
    pub auto_started: bool,
    /// True when the phase ran to zero rather than being skipped by hand.
    pub completed: bool,
}

/// The mathematical content of a [`Timer`].
pub struct TimerView {
    pub preset: PresetView,
    pub behavior: Behavior,
    pub phase: Phase,
    pub state: RunState,
    pub remaining_ms: u64,
    pub round: u32,
    pub completed_focus: u32,
    pub clock_ms: u64,
}

/// Seconds shown for `ms` milliseconds left: rounded up, so a fresh phase
/// reads its full length and zero appears only when nothing is left.
pub open spec fn display_secs(ms: int) -> int {
    (ms + 999) / 1000
}

/// The phase that follows `ended` when the cycle stands at `round` of `rounds`.
pub open spec fn next_phase(ended: Phase, round: u32, rounds: u32) -> Phase {
    match ended {
        Phase::Focus => if round >= rounds {
            Phase::LongBreak
        } else {
            Phase::ShortBreak
        },
        _ => Phase::Focus,
    }
}

impl TimerView {
    pub open spec fn total_ms(self) -> int {
        self.preset.duration(self.phase) * 1000
    }

    /// The invariant every timer keeps: sane durations, a cycle position
    /// inside the cycle, and a phase that is neither over nor overfull.
    pub open spec fn wf(self) -> bool {
        &&& self.preset.is_sanitized()
        &&& 1 <= self.round <= self.preset.rounds
        &&& (self.phase is ShortBreak ==> self.round < self.preset.rounds)
        &&& (self.phase is LongBreak ==> self.round == self.preset.rounds)
        &&& 0 < self.remaining_ms <= self.total_ms()
    }

    /// The timer a fresh [`Timer::new`] builds.
    pub open spec fn initial(preset: PresetView, behavior: Behavior) -> TimerView {
        let preset = preset.sanitized();
        TimerView {
            preset,
            behavior,
            phase: Phase::Focus,
            state: RunState::Idle,
            remaining_ms: (preset.focus_secs * 1000) as u64,
            round: 1,
            completed_focus: 0,
            clock_ms: 0,
        }
    }

    pub open spec fn started(self) -> TimerView {
        if self.state is Running {
            self
        } else {
            TimerView {
                remaining_ms: if self.remaining_ms == 0 {
                    self.total_ms() as u64
                } else {
                    self.remaining_ms
                },
                state: RunState::Running,
                ..self
            }
        }
    }

    pub open spec fn paused(self) -> TimerView {
        if self.state is Running {
            TimerView { state: RunState::Paused, ..self }
        } else {
            self
        }
    }

    pub open spec fn toggled(self) -> TimerView {
        if self.state is Running {
            self.paused()
        } else {
            self.started()
        }
    }

    /// Top of the cycle: focus, round one, not running.
    pub open spec fn reset(self) -> TimerView {
        TimerView {
            phase: Phase::Focus,
            state: RunState::Idle,
            round: 1,
            remaining_ms: (self.preset.focus_secs * 1000) as u64,
            ..self
        }
    }

    pub open spec fn restarted(self) -> TimerView {
        TimerView { remaining_ms: self.total_ms() as u64, state: RunState::Idle, ..self }
    }

    pub open spec fn with_preset(self, preset: PresetView) -> TimerView {
        TimerView { preset: preset.sanitized(), ..self }.reset()
    }

    /// Ends the current phase; `completed` says whether it ran to zero.
    pub open spec fn transitioned(self, completed: bool) -> (TimerView, Transition) {
        let ended = self.phase;
        let next = next_phase(ended, self.round, self.preset.rounds);
        let round = match ended {
            Phase::Focus => self.round,
            Phase::ShortBreak => (self.round + 1) as u32,
            Phase::LongBreak => 1u32,
        };
        let credited = if ended is Focus && completed {
            (self.completed_focus + 1) as u32
        } else {
            self.completed_focus
        };
        let auto_started = if next.is_break_spec() {
            self.behavior.auto_start_breaks
        } else {
            self.behavior.auto_start_focus
        };
        (
            TimerView {
                phase: next,
                round,
                completed_focus: credited,
                remaining_ms: (self.preset.duration(next) * 1000) as u64,
                state: if auto_started {
                    RunState::Running
                } else {
                    RunState::Idle
                },
                ..self
            },
            Transition { ended, next, auto_started, completed },
        )
    }

    /// Milliseconds that `now_ms` adds to the clock; time never runs back.
    pub open spec fn elapsed_until(self, now_ms: u64) -> int {
        if now_ms >= self.clock_ms {
            now_ms - self.clock_ms
        } else {
            0
        }
    }

    /// Feeding `now_ms` ends the current phase.
    pub open spec fn ends_phase_at(self, now_ms: u64) -> bool {
        self.state is Running && self.elapsed_until(now_ms) >= self.remaining_ms
    }

    /// Feeding `now_ms` credits a completed focus session.
    pub open spec fn credits_focus_at(self, now_ms: u64) -> bool {
        self.ends_phase_at(now_ms) && self.phase is Focus
    }

    pub open spec fn advanced(self, now_ms: u64) -> (TimerView, Option<Transition>) {
        let delta = self.elapsed_until(now_ms);
        let clocked = TimerView { clock_ms: now_ms, ..self };
        if !(self.state is Running) {
            (clocked, None)
        } else if delta < self.remaining_ms {
            (TimerView { remaining_ms: (self.remaining_ms - delta) as u64, ..clocked }, None)
        } else {
            let (after, t) = TimerView { remaining_ms: 0, ..clocked }.transitioned(true);
            (after, Some(t))
        }
    }
}

/// Everything the UI and the tray need to render, in one flat struct.
#[derive(Debug, Clone, PartialEq)]
pub struct Snapshot {
    pub phase: Phase,
    pub phase_label: String,
    pub state: RunState,
    pub remaining_secs: u32,
    pub total_secs: u32,
    /// Whole seconds of the current phase already spent; the fraction spent
    /// is `elapsed_secs / total_secs`, from 0 to 1.
    pub elapsed_secs: u32,
    /// 1-based position of the current focus session inside the cycle.
    pub round: u32,
    pub rounds: u32,
    pub completed_focus: u32,
    pub preset: Preset,
    pub clock: String,
}

pub struct Timer {
    preset: Preset,
    behavior: Behavior,
    phase: Phase,
    state: RunState,
    remaining_ms: u64,
    round: u32,
    completed_focus: u32,
    clock_ms: u64,
}

impl View for Timer {
    type V = TimerView;

    closed spec fn view(&self) -> TimerView {
        TimerView {
            preset: self.preset@,
            behavior: self.behavior,
            phase: self.phase,
            state: self.state,
            remaining_ms: self.remaining_ms,
            round: self.round,
            completed_focus: self.completed_focus,
            clock_ms: self.clock_ms,
        }
    }
}

impl Timer {
    pub fn new(preset: Preset, behavior: Behavior) -> (r: Self)
        ensures
            r@ == TimerView::initial(preset@, behavior),
            r@.wf(),
    {
        let preset = preset.sanitized();
        let remaining_ms = preset.focus_secs as u64 * 1000;
        Timer {
            preset,
            behavior,
            phase: Phase::Focus,
            state: RunState::Idle,
            remaining_ms,
            round: 1,
            completed_focus: 0,
            clock_ms: 0,
        }
    }

    pub fn behavior(&self) -> (r: Behavior)
        ensures
            r == self@.behavior,
    {
        self.behavior
    }

    pub fn set_behavior(&mut self, behavior: Behavior)
        ensures
            final(self)@ == (TimerView { behavior, ..old(self)@ }),
    {
        self.behavior = behavior;
    }

    pub fn preset(&self) -> (r: &Preset)
        ensures
            r@ == self@.preset,
    {
        &self.preset
    }

    pub fn phase(&self) -> (r: Phase)
        ensures
            r == self@.phase,
    {
        self.phase
    }

    pub fn state(&self) -> (r: RunState)
        ensures
            r == self@.state,
    {
        self.state
    }

    pub fn is_running(&self) -> (r: bool)
        ensures
            r == (self@.state is Running),
    {
        self.state == RunState::Running
    }

    pub fn completed_focus(&self) -> (r: u32)
        ensures
            r == self@.completed_focus,
    {
        self.completed_focus
    }

    pub fn set_completed_focus(&mut self, count: u32)
        ensures
            final(self)@ == (TimerView { completed_focus: count, ..old(self)@ }),
    {
        self.completed_focus = count;
    }

    /// Swaps the durations and returns to an idle focus phase.
    pub fn set_preset(&mut self, preset: Preset)
        requires
            old(self)@.wf(),
        ensures
            final(self)@ == old(self)@.with_preset(preset@),
            final(self)@.wf(),
    {
        self.preset = preset.sanitized();
        self.reset();
    }

    /// Takes a preset that times phases exactly as the current one does (a
    /// new id or label only), leaving the running phase where it is.
    pub fn adopt_preset(&mut self, preset: Preset)
        requires
            old(self)@.wf(),
            preset@.same_durations(old(self)@.preset),
        ensures
            final(self)@ == (TimerView { preset: preset@, ..old(self)@ }),
            final(self)@.wf(),
    {
        self.preset = preset;
    }

    pub fn start(&mut self)
        requires
            old(self)@.wf(),
        ensures
            final(self)@ == old(self)@.started(),
            final(self)@.wf(),
    {
        if self.state == RunState::Running {
            return;
        }
        if self.remaining_ms == 0 {
            self.remaining_ms = self.phase_total_ms();
        }
        self.state = RunState::Running;
    }

    pub fn pause(&mut self)
        requires
            old(self)@.wf(),
        ensures
            final(self)@ == old(self)@.paused(),
            final(self)@.wf(),
    {
        if self.state == RunState::Running {
            self.state = RunState::Paused;
        }
    }

    pub fn toggle(&mut self)
        requires
            old(self)@.wf(),
        ensures
            final(self)@ == old(self)@.toggled(),
            final(self)@.wf(),
    {
        match self.state {
            RunState::Running => self.pause(),
            _ => self.start(),
        }
    }

    /// Returns to the top of the cycle: focus, round one, not running.
    pub fn reset(&mut self)
        requires
            old(self)@.preset.is_sanitized(),
        ensures
            final(self)@ == old(self)@.reset(),
            final(self)@.wf(),
    {
        self.phase = Phase::Focus;
        self.state = RunState::Idle;
        self.round = 1;
        self.remaining_ms = self.preset.focus_secs as u64 * 1000;
    }

    /// Restarts the current phase without touching the cycle position.
    pub fn restart_phase(&mut self)
        requires
            old(self)@.wf(),
        ensures
            final(self)@ == old(self)@.restarted(),
            final(self)@.wf(),
            final(self)@.phase == old(self)@.phase,
            final(self)@.round == old(self)@.round,
            final(self)@.completed_focus == old(self)@.completed_focus,
            final(self)@.state is Idle,
            final(self)@.remaining_ms == old(self)@.preset.duration(old(self)@.phase) * 1000,
    {
        self.remaining_ms = self.phase_total_ms();
        self.state = RunState::Idle;
    }

    /// Ends the current phase by hand. A skipped focus session is not counted
    /// as completed — only time actually spent earns a round.
    pub fn skip(&mut self) -> (r: Transition)
        requires
            old(self)@.wf(),
        ensures
            (final(self)@, r) == old(self)@.transitioned(false),
            final(self)@.wf(),
    {
        self.transition(false)
    }

    /// Feeds monotonic time into the machine.
    ///
    /// At most one phase boundary is crossed per call: after the machine has
    /// been suspended (a closed laptop, a sleeping host) the leftover time is
    /// dropped rather than replayed, so waking up produces one chime and a
    /// fresh next phase instead of a burst of them.
    pub fn advance(&mut self, now_ms: u64) -> (r: Option<Transition>)
        requires
            old(self)@.wf(),
            old(self)@.credits_focus_at(now_ms) ==> old(self)@.completed_focus < u32::MAX,
        ensures
            (final(self)@, r) == old(self)@.advanced(now_ms),
            final(self)@.wf(),
    {
        let delta = now_ms.saturating_sub(self.clock_ms);
        self.clock_ms = now_ms;

        if self.state != RunState::Running {
            return None;
        }

        if delta < self.remaining_ms {
            self.remaining_ms = self.remaining_ms - delta;
            return None;
        }

        self.remaining_ms = 0;
        Some(self.transition(true))
    }

    /// Whether feeding `now_ms` would end a running focus phase and so
    /// credit a completed session.
    pub fn credits_focus_at(&self, now_ms: u64) -> (r: bool)
        ensures
            r == self@.credits_focus_at(now_ms),
    {
        self.state == RunState::Running && self.phase == Phase::Focus
            && now_ms.saturating_sub(self.clock_ms) >= self.remaining_ms
    }

    /// Resets the internal clock reference without advancing anything. Call
    /// this before resuming so time spent paused is not counted as elapsed.
    pub fn sync_clock(&mut self, now_ms: u64)
        ensures
            final(self)@ == (TimerView { clock_ms: now_ms, ..old(self)@ }),
    {
        self.clock_ms = now_ms;
    }

    pub fn snapshot(&self) -> (r: Snapshot)
        requires
            self@.wf(),
        ensures
            r.phase == self@.phase,
            r.phase_label@ == phase_label_spec(self@.phase),
            r.state == self@.state,
            r.remaining_secs == display_secs(self@.remaining_ms as int),
            r.total_secs == self@.preset.duration(self@.phase),
            r.elapsed_secs == r.total_secs - r.remaining_secs,
            r.round == self@.round,
            r.rounds == self@.preset.rounds,
            r.completed_focus == self@.completed_focus,
            r.preset@ == self@.preset,
            r.clock@ == clock_text(r.remaining_secs as nat),
    {
        let total_secs = self.phase_total_secs();
        let remaining_secs = self.remaining_secs();
        let elapsed_secs = total_secs.saturating_sub(remaining_secs);
        Snapshot {
            phase: self.phase,
            phase_label: String::from_str(self.phase.label()),
            state: self.state,
            remaining_secs,
            total_secs,
            elapsed_secs,
            round: self.round,
            rounds: self.preset.rounds,
            completed_focus: self.completed_focus,
            preset: self.preset.duplicate(),
            clock: format_clock(remaining_secs),
        }
    }

    pub fn remaining_secs(&self) -> (r: u32)
        requires
            self@.wf(),
        ensures
            r == display_secs(self@.remaining_ms as int),
    {
        // Ceiling, so a fresh 25 minute phase reads 25:00 rather than 24:59
        // and the display only reaches 00:00 when the phase is truly over.
        let whole = self.remaining_ms / 1000;
        let ceil = if self.remaining_ms % 1000 == 0 {
            whole
        } else {
            whole + 1
        };
        ceil as u32
    }

    fn phase_total_secs(&self) -> (r: u32)
        ensures
            r == self@.preset.duration(self@.phase),
    {
        self.preset.duration_secs(self.phase)
    }

    fn phase_total_ms(&self) -> (r: u64)
        ensures
            r == self@.total_ms(),
    {
        self.phase_total_secs() as u64 * 1000
    }

    fn transition(&mut self, completed: bool) -> (r: Transition)
        requires
            old(self)@.preset.is_sanitized(),
            1 <= old(self)@.round <= old(self)@.preset.rounds,
            old(self)@.phase is ShortBreak ==> old(self)@.round < old(self)@.preset.rounds,
            completed && old(self)@.phase is Focus ==> old(self)@.completed_focus < u32::MAX,
        ensures
            (final(self)@, r) == old(self)@.transitioned(completed),
            final(self)@.wf(),
    {
        let ended = self.phase;

        let next = match ended {
            Phase::Focus => {
                if completed {
                    self.completed_focus = self.completed_focus + 1;
                }
                if self.round >= self.preset.rounds {
                    Phase::LongBreak
                } else {
                    Phase::ShortBreak
                }
            },
            Phase::ShortBreak => {
                self.round = self.round + 1;
                Phase::Focus
            },
            Phase::LongBreak => {
                self.round = 1;
                Phase::Focus
            },
        };

        self.phase = next;
        self.remaining_ms = self.phase_total_ms();

        let auto_started = if next.is_break() {
            self.behavior.auto_start_breaks
        } else {
            self.behavior.auto_start_focus
        };
        self.state = if auto_started {
            RunState::Running
        } else {
            RunState::Idle
        };

        Transition { ended, next, auto_started, completed }
    }
}


pub open spec fn digit_char(d: int) -> char {
    if d == 0 {
        '0'
    } else if d == 1 {
        '1'
    } else if d == 2 {
        '2'
    } else if d == 3 {
        '3'
    } else if d == 4 {
        '4'
    } else if d == 5 {
        '5'
    } else if d == 6 {
        '6'
    } else if d == 7 {
        '7'
    } else if d == 8 {
        '8'
    } else {
        '9'
    }
}

/// The decimal digits of `n`, without leading zeros.
pub open spec fn decimal(n: nat) -> Seq<char>
    decreases n,
{
    if n < 10 {
        seq![digit_char(n as int)]
    } else {
        decimal(n / 10).push(digit_char((n % 10) as int))
    }
}

/// The decimal digits of `n`, padded to at least two.
pub open spec fn two_digits(n: nat) -> Seq<char> {
    if n < 10 {
        seq!['0', digit_char(n as int)]
    } else {
        decimal(n)
    }
}

/// `mm:ss` for `secs` seconds; minutes are not wrapped into hours.
pub open spec fn clock_text(secs: nat) -> Seq<char> {
    two_digits(secs / 60) + seq![':'] + two_digits(secs % 60)
}

fn digit_str(d: u32) -> (r: &'static str)
    requires
        d < 10,
    ensures
        r@ == seq![digit_char(d as int)],
{
    proof {
        reveal_strlit("0");
        reveal_strlit("1");
        reveal_strlit("2");
        reveal_strlit("3");
        reveal_strlit("4");
        reveal_strlit("5");
        reveal_strlit("6");
        reveal_strlit("7");
        reveal_strlit("8");
        reveal_strlit("9");
    }
    if d == 0 {
        "0"
    } else if d == 1 {
        "1"
    } else if d == 2 {
        "2"
    } else if d == 3 {
        "3"
    } else if d == 4 {
        "4"
    } else if d == 5 {
        "5"
    } else if d == 6 {
        "6"
    } else if d == 7 {
        "7"
    } else if d == 8 {
        "8"
    } else {
        "9"
    }
}

fn append_decimal(s: &mut String, n: u32)
    ensures
        final(s)@ == old(s)@ + decimal(n as nat),
    decreases n,
{
    if n >= 10 {
        append_decimal(s, n / 10);
    }
    s.append(digit_str(n % 10));
    assert(final(s)@ =~= old(s)@ + decimal(n as nat)) by {
        if n >= 10 {
            assert(decimal(n as nat) == decimal((n / 10) as nat).push(digit_char((n % 10) as int)));
        }
    }
}

fn append_two_digits(s: &mut String, n: u32)
    ensures
        final(s)@ == old(s)@ + two_digits(n as nat),
{
    proof {
        reveal_strlit("0");
    }
    if n < 10 {
        s.append("0");
    }
    append_decimal(s, n);
    assert(final(s)@ =~= old(s)@ + two_digits(n as nat));
}

/// Formats seconds as the menu bar shows them: `25:00`, `90:00`, `04:07`.
pub fn format_clock(secs: u32) -> (r: String)
    ensures
        r@ == clock_text(secs as nat),
{
    let mut s = String::new();
    append_two_digits(&mut s, secs / 60);
    proof {
        reveal_strlit(":");
    }
    s.append(":");
    append_two_digits(&mut s, secs % 60);
    assert(s@ =~= clock_text(secs as nat));
    s
}


/// Every timer operation keeps the timer invariant: sane durations, a cycle
/// position inside the cycle, and a current phase that is neither over nor
/// longer than its preset allows.
pub proof fn lemma_operations_keep_invariant(
    v: TimerView,
    preset: PresetView,
    completed: bool,
    now_ms: u64,
)
    requires
        v.wf(),
    ensures
        TimerView::initial(preset, v.behavior).wf(),
        v.started().wf(),
        v.paused().wf(),
        v.toggled().wf(),
        v.reset().wf(),
        v.restarted().wf(),
        v.with_preset(preset).wf(),
        v.transitioned(completed).0.wf(),
        v.advanced(now_ms).0.wf(),
{
}

/// Feeding time crosses at most one phase boundary, however long the gap:
/// it crosses one exactly when the running phase has run out, the next phase
/// then starts at its full length, and at most one focus session is credited.
pub proof fn lemma_one_boundary_per_advance(v: TimerView, now_ms: u64)
    requires
        v.wf(),
        v.credits_focus_at(now_ms) ==> v.completed_focus < u32::MAX,
    ensures
        v.advanced(now_ms).1 is Some <==> v.ends_phase_at(now_ms),
        v.advanced(now_ms).1 matches Some(t) ==> {
            &&& t.completed
            &&& t.ended == v.phase
            &&& t.next == v.advanced(now_ms).0.phase
            &&& v.advanced(now_ms).0.remaining_ms == v.advanced(now_ms).0.total_ms()
            &&& v.advanced(now_ms).0.completed_focus == v.completed_focus + if v.phase is Focus {
                1int
            } else {
                0int
            }
        },
        v.advanced(now_ms).1 is None ==> v.advanced(now_ms).0.completed_focus == v.completed_focus,
{
}

/// Time fed to a timer that is not running is not counted: nothing drains
/// and no boundary is crossed; only the clock reference moves.
pub proof fn lemma_stopped_time_is_not_counted(v: TimerView, now_ms: u64)
    requires
        !(v.state is Running),
    ensures
        v.advanced(now_ms) == (TimerView { clock_ms: now_ms, ..v }, None::<Transition>),
{
}

/// A running phase drains by exactly the time fed, and feeding the same
/// span in two steps drains it just as feeding it at once does.
pub proof fn lemma_running_time_drains_additively(v: TimerView, t1: u64, t2: u64)
    requires
        v.wf(),
        v.state is Running,
        v.clock_ms <= t1 <= t2,
        t2 - v.clock_ms < v.remaining_ms,
    ensures
        v.advanced(t2).0.remaining_ms == v.remaining_ms - (t2 - v.clock_ms),
        v.advanced(t1).0.advanced(t2) == v.advanced(t2),
{
}

/// Skipping a phase by hand never credits a focus session.
pub proof fn lemma_skip_never_credits(v: TimerView)
    ensures
        v.transitioned(false).0.completed_focus == v.completed_focus,
        !v.transitioned(false).1.completed,
{
}

/// Returning to the top of the cycle keeps the day's history, and so does
/// swapping the preset.
pub proof fn lemma_reset_keeps_history(v: TimerView, preset: PresetView)
    ensures
        v.reset().phase is Focus,
        v.reset().state is Idle,
        v.reset().round == 1,
        v.reset().remaining_ms == v.preset.focus_secs * 1000,
        v.reset().completed_focus == v.completed_focus,
        v.with_preset(preset).preset == preset.sanitized(),
        v.with_preset(preset).remaining_ms == preset.sanitized().focus_secs * 1000,
        v.with_preset(preset).completed_focus == v.completed_focus,
{
}

/// Toggling a running timer pauses it and toggling any other timer starts
/// it; toggling a running or paused timer twice leaves it as it was.
pub proof fn lemma_toggle_flips(v: TimerView)
    requires
        v.wf(),
    ensures
        v.state is Running ==> v.toggled().state is Paused,
        !(v.state is Running) ==> v.toggled().state is Running,
        !(v.state is Idle) ==> v.toggled().toggled() == v,
{
}

/// The shown seconds round up: zero appears exactly when nothing is left,
/// a fresh phase of `s` seconds reads `s`, and the reading is never more
/// than a second ahead of the time actually left.
pub proof fn lemma_display_rounds_up(ms: nat, secs: nat)
    ensures
        display_secs(ms as int) == 0 <==> ms == 0,
        display_secs((secs * 1000) as int) == secs,
        ms <= display_secs(ms as int) * 1000 < ms + 1000,
{
}

/// Sanitising is idempotent, and leaves an in-range preset untouched.
pub proof fn lemma_sanitize_idempotent(p: PresetView)
    ensures
        p.sanitized().is_sanitized(),
        p.sanitized().sanitized() == p.sanitized(),
        p.is_sanitized() ==> p.sanitized() == p,
{
}

/// Every built-in preset is already in range, so sanitising leaves it as it is.
pub proof fn lemma_builtin_presets_are_sanitized()
    ensures
        forall|i: int|
            0 <= i < builtin_presets_spec().len() ==> {
                &&& #[trigger] builtin_presets_spec()[i].is_sanitized()
                &&& builtin_presets_spec()[i].sanitized() == builtin_presets_spec()[i]
            },
{
}


/// `v` after `n` phases in a row have been ended by hand.
pub open spec fn skipped(v: TimerView, n: nat) -> TimerView
    decreases n,
{
    if n == 0 {
        v
    } else {
        skipped(v, (n - 1) as nat).transitioned(false).0
    }
}

proof fn lemma_cycle_prefix(v: TimerView, k: nat)
    requires
        v.wf(),
        v.phase is Focus,
        v.round == 1,
        k < v.preset.rounds,
    ensures
        skipped(v, 2 * k).phase is Focus,
        skipped(v, 2 * k).round == k + 1,
        skipped(v, 2 * k).preset == v.preset,
    decreases k,
{
    if k > 0 {
        lemma_cycle_prefix(v, (k - 1) as nat);
        let a = skipped(v, (2 * (k - 1)) as nat);
        assert(skipped(v, (2 * k - 1) as nat) == a.transitioned(false).0);
        assert(skipped(v, 2 * k) == skipped(v, (2 * k - 1) as nat).transitioned(false).0);
    }
}

/// A cycle holds `rounds` focus sessions: starting from focus in round one,
/// the first `rounds - 1` focus sessions are followed by a short break, the
/// last by a long break, and the long break leads back to focus in round one.
pub proof fn lemma_cycle_of_rounds(v: TimerView, k: nat)
    requires
        v.wf(),
        v.phase is Focus,
        v.round == 1,
        k < v.preset.rounds,
    ensures
        skipped(v, 2 * k).phase is Focus,
        skipped(v, 2 * k).round == k + 1,
        skipped(v, 2 * k + 1).phase == if k + 1 == v.preset.rounds {
            Phase::LongBreak
        } else {
            Phase::ShortBreak
        },
        skipped(v, (2 * v.preset.rounds) as nat).phase is Focus,
        skipped(v, (2 * v.preset.rounds) as nat).round == 1,
{
    lemma_cycle_prefix(v, k);
    assert(skipped(v, 2 * k + 1) == skipped(v, 2 * k).transitioned(false).0);
    let last = (v.preset.rounds - 1) as nat;
    lemma_cycle_prefix(v, last);
    let n = (2 * v.preset.rounds) as nat;
    assert(skipped(v, (n - 1) as nat) == skipped(v, 2 * last).transitioned(false).0);
    assert(skipped(v, n) == skipped(v, (n - 1) as nat).transitioned(false).0);
}

/// Whether the next phase starts on its own is the behaviour's choice for
/// that kind of phase, and the timer runs exactly when it did start.
pub proof fn lemma_auto_start_follows_behavior(v: TimerView, completed: bool)
    ensures
        v.transitioned(completed).1.auto_started == if v.transitioned(
            completed,
        ).1.next.is_break_spec() {
            v.behavior.auto_start_breaks
        } else {
            v.behavior.auto_start_focus
        },
        v.transitioned(completed).0.state is Running <==> v.transitioned(completed).1.auto_started,
        !v.transitioned(completed).1.auto_started ==> v.transitioned(completed).0.state is Idle,
{
}

/// Ending a phase: the next phase follows the cycle position, the round
/// moves on only after a short break and back to one after a long break,
/// only a completed focus session is credited, the next phase is full
/// length, and the preset and behaviour stay; on a sound timer no count
/// overflows.
pub proof fn lemma_transition_shape(v: TimerView, completed: bool)
    requires
        v.wf(),
        completed && v.phase is Focus ==> v.completed_focus < u32::MAX,
    ensures
        ({
            let (t, tr) = v.transitioned(completed);
            &&& tr.ended == v.phase
            &&& tr.completed == completed
            &&& tr.next == t.phase
            &&& t.phase == next_phase(v.phase, v.round, v.preset.rounds)
            &&& t.round == match v.phase {
                Phase::Focus => v.round as int,
                Phase::ShortBreak => v.round + 1,
                Phase::LongBreak => 1,
            }
            &&& v.phase is ShortBreak ==> v.round + 1 <= v.preset.rounds <= MAX_ROUNDS
            &&& t.completed_focus == v.completed_focus + if completed && v.phase is Focus {
                1int
            } else {
                0int
            }
            &&& t.remaining_ms == t.preset.duration(t.phase) * 1000
            &&& t.preset == v.preset
            &&& t.behavior == v.behavior
            &&& t.clock_ms == v.clock_ms
            &&& t.wf()
        }),
{
}

/// Feeding time: the clock reference moves to `now_ms`; a stopped timer
/// changes nothing else; a running phase with time left drains by the gap
/// and keeps its position; otherwise the phase ends exactly as one
/// completed transition ends it, the leftover time dropped.
pub proof fn lemma_advance_shape(v: TimerView, now_ms: u64)
    requires
        v.wf(),
    ensures
        v.advanced(now_ms).0.clock_ms == now_ms,
        !(v.state is Running) ==> v.advanced(now_ms) == (
        TimerView { clock_ms: now_ms, ..v },
        None::<Transition>,
        ),
        v.state is Running && v.elapsed_until(now_ms) < v.remaining_ms ==> v.advanced(now_ms) == (
        TimerView {
            clock_ms: now_ms,
            remaining_ms: (v.remaining_ms - v.elapsed_until(now_ms)) as u64,
            ..v
        },
        None::<Transition>,
        ),
        v.ends_phase_at(now_ms) ==> {
            let (t, tr) = TimerView { clock_ms: now_ms, ..v }.transitioned(true);
            v.advanced(now_ms) == (t, Some(tr))
        },
{
}

/// Restarting a phase keeps the cycle position: the same phase in the same
/// round, the same preset, behaviour, clock and session count; only the time
/// left returns to the phase's full length and the timer stops.
pub proof fn lemma_restart_keeps_cycle_position(v: TimerView)
    ensures
        v.restarted().phase == v.phase,
        v.restarted().round == v.round,
        v.restarted().preset == v.preset,
        v.restarted().behavior == v.behavior,
        v.restarted().completed_focus == v.completed_focus,
        v.restarted().clock_ms == v.clock_ms,
        v.restarted().state is Idle,
        v.restarted().remaining_ms == v.preset.duration(v.phase) * 1000,
{
}

/// Starting keeps the phase, the round and the time left of a sound timer
/// and only sets it running; pausing stops a running timer where it is and
/// leaves any other timer as it was.
pub proof fn lemma_start_and_pause_keep_position(v: TimerView)
    requires
        v.wf(),
    ensures
        v.started().state is Running,
        v.started().phase == v.phase,
        v.started().round == v.round,
        v.started().remaining_ms == v.remaining_ms,
        v.started().completed_focus == v.completed_focus,
        v.started().preset == v.preset,
        v.state is Running ==> v.paused() == (TimerView { state: RunState::Paused, ..v }),
        !(v.state is Running) ==> v.paused() == v,
{
}

/// Which phase follows which: focus before the last round of the cycle is
/// followed by a short break, focus in the last round by a long break, and
/// either break by focus.
pub proof fn lemma_phase_order(v: TimerView, completed: bool)
    requires
        v.wf(),
    ensures
        v.phase is Focus && v.round < v.preset.rounds ==> v.transitioned(completed).0.phase is ShortBreak,
        v.phase is Focus && v.round == v.preset.rounds ==> v.transitioned(completed).0.phase is LongBreak,
        v.phase is ShortBreak ==> v.transitioned(completed).0.phase is Focus
            && v.transitioned(completed).0.round == v.round + 1,
        v.phase is LongBreak ==> v.transitioned(completed).0.phase is Focus
            && v.transitioned(completed).0.round == 1,
        v.phase is Focus ==> v.transitioned(completed).0.round == v.round,
        v.transitioned(completed).1.ended == v.phase,
        v.transitioned(completed).1.next == v.transitioned(completed).0.phase,
        v.transitioned(completed).0.remaining_ms == v.preset.duration(
            v.transitioned(completed).0.phase,
        ) * 1000,
{
}

/// A fresh timer is idle at the top of the cycle: focus, round one, the
/// whole (sanitised) focus length left, no sessions yet, clock at zero.
pub proof fn lemma_new_timer_at_top_of_cycle(p: PresetView, b: Behavior)
    ensures
        TimerView::initial(p, b).phase is Focus,
        TimerView::initial(p, b).state is Idle,
        TimerView::initial(p, b).round == 1,
        TimerView::initial(p, b).remaining_ms == clamp_spec(p.focus_secs, MIN_PHASE_SECS, MAX_PHASE_SECS)
            * 1000,
        TimerView::initial(p, b).completed_focus == 0,
        TimerView::initial(p, b).clock_ms == 0,
        TimerView::initial(p, b).preset == p.sanitized(),
        TimerView::initial(p, b).behavior == b,
        TimerView::initial(p, b).wf(),
{
}

/// The number a run of decimal digits reads as.
pub open spec fn digits_value(s: Seq<char>) -> int
    decreases s.len(),
{
    if s.len() == 0 {
        0
    } else {
        digits_value(s.drop_last()) * 10 + (s.last() as int - 48)
    }
}

pub open spec fn all_digits(s: Seq<char>) -> bool {
    forall|i: int| 0 <= i < s.len() ==> 48 <= #[trigger] (s[i] as int) <= 57
}

proof fn lemma_digit_char(d: int)
    requires
        0 <= d < 10,
    ensures
        digit_char(d) as int == 48 + d,
{
}

/// The decimal digits of `n` read back as `n`, are all digits, and carry no
/// leading zero.
pub proof fn lemma_decimal_reads_back(n: nat)
    ensures
        digits_value(decimal(n)) == n,
        all_digits(decimal(n)),
        decimal(n).len() >= 1,
        decimal(n).len() == 1 <==> n < 10,
        decimal(n).len() > 1 ==> decimal(n)[0] != '0',
    decreases n,
{
    lemma_digit_char((n % 10) as int);
    let d = decimal(n);
    if n < 10 {
        assert(d.drop_last() =~= Seq::<char>::empty());
        assert(digits_value(d) == digits_value(d.drop_last()) * 10 + (d.last() as int - 48));
    } else {
        lemma_decimal_reads_back(n / 10);
        let e = decimal(n / 10);
        assert(d.drop_last() =~= e);
        assert(d.last() == digit_char((n % 10) as int));
        assert(digits_value(d) == digits_value(d.drop_last()) * 10 + (d.last() as int - 48));
        assert(digits_value(d) == (n / 10) * 10 + n % 10);
        assert(d[0] == e[0]);
        if e.len() == 1 {
            lemma_digit_char((n / 10) as int);
            assert(e[0] == digit_char((n / 10) as int));
        }
    }
}

/// Two or more digits reading as `n`: a leading zero only below ten.
pub proof fn lemma_two_digits_reads_back(n: nat)
    ensures
        digits_value(two_digits(n)) == n,
        all_digits(two_digits(n)),
        two_digits(n).len() >= 2,
        n < 100 ==> two_digits(n).len() == 2,
{
    lemma_decimal_reads_back(n);
    if n < 10 {
        lemma_digit_char(n as int);
        let t = two_digits(n);
        let z = seq!['0'];
        assert(t.drop_last() =~= z);
        assert(z.drop_last() =~= Seq::<char>::empty());
        assert(digits_value(z) == digits_value(z.drop_last()) * 10 + (z.last() as int - 48));
        assert(digits_value(z) == 0);
        assert(digits_value(t) == digits_value(t.drop_last()) * 10 + (t.last() as int - 48));
    } else {
        lemma_decimal_reads_back(n / 10);
        if n < 100 {
            assert(decimal(n) == decimal(n / 10).push(digit_char((n % 10) as int)));
        }
    }
}

/// The clock reads as minutes, a colon, then exactly two digits of seconds:
/// the minutes part reads back as `secs / 60` (at least two digits, never
/// wrapped into hours) and the seconds part as `secs % 60`.
pub proof fn lemma_clock_reads_back(secs: nat)
    ensures
        ({
            let c = clock_text(secs);
            let k = c.len() - 3;
            &&& k >= 2
            &&& c[k] == ':'
            &&& digits_value(c.take(k)) == secs / 60
            &&& all_digits(c.take(k))
            &&& digits_value(c.skip(k + 1)) == secs % 60
            &&& all_digits(c.skip(k + 1))
            &&& c.skip(k + 1).len() == 2
        }),
{
    lemma_two_digits_reads_back(secs / 60);
    lemma_two_digits_reads_back(secs % 60);
    let m = two_digits(secs / 60);
    let r = two_digits(secs % 60);
    let c = clock_text(secs);
    let k = c.len() - 3;
    assert(k == m.len());
    assert(c.take(k) =~= m);
    assert(c.skip(k + 1) =~= r);
}

/// Sanitising pulls each length into `[MIN_PHASE_SECS, MAX_PHASE_SECS]` and
/// the rounds into `[1, MAX_ROUNDS]`: a value below the range becomes its
/// lower end, one above becomes its upper end, one inside is kept, and the
/// id and label are untouched.
pub proof fn lemma_sanitize_clamps_each_field(p: PresetView)
    ensures
        p.sanitized().id == p.id,
        p.sanitized().label == p.label,
        p.focus_secs < MIN_PHASE_SECS ==> p.sanitized().focus_secs == MIN_PHASE_SECS,
        p.focus_secs > MAX_PHASE_SECS ==> p.sanitized().focus_secs == MAX_PHASE_SECS,
        MIN_PHASE_SECS <= p.focus_secs <= MAX_PHASE_SECS ==> p.sanitized().focus_secs
            == p.focus_secs,
        p.short_break_secs < MIN_PHASE_SECS ==> p.sanitized().short_break_secs == MIN_PHASE_SECS,
        p.short_break_secs > MAX_PHASE_SECS ==> p.sanitized().short_break_secs == MAX_PHASE_SECS,
        MIN_PHASE_SECS <= p.short_break_secs <= MAX_PHASE_SECS ==> p.sanitized().short_break_secs
            == p.short_break_secs,
        p.long_break_secs < MIN_PHASE_SECS ==> p.sanitized().long_break_secs == MIN_PHASE_SECS,
        p.long_break_secs > MAX_PHASE_SECS ==> p.sanitized().long_break_secs == MAX_PHASE_SECS,
        MIN_PHASE_SECS <= p.long_break_secs <= MAX_PHASE_SECS ==> p.sanitized().long_break_secs
            == p.long_break_secs,
        p.rounds < 1 ==> p.sanitized().rounds == 1,
        p.rounds > MAX_ROUNDS ==> p.sanitized().rounds == MAX_ROUNDS,
        1 <= p.rounds <= MAX_ROUNDS ==> p.sanitized().rounds == p.rounds,
{
}

} // verus!
