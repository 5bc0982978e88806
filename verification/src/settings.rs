//! The user's preferences, apart from the three audio levels (the chime
//! volume, the noise volume and the noise tone), which are continuous values
//! the application shell keeps beside these.

use vstd::prelude::*;

use crate::chime::ChimeVoice;
use crate::noise::NoiseKind;
use crate::timer::{
    builtin_presets_spec, default_preset, first_with_id, preset_by_id, Behavior, Preset,
    PresetView,
};

verus! {

pub const CUSTOM_PRESET_ID: &'static str = "custom";

pub open spec fn custom_id() -> Seq<char> {
    "custom"@
}

#[derive(Debug, Clone, Copy, PartialEq, Eq, Structural)]
pub enum Theme {
    System,
    Light,
    Dark,
}

impl Default for Theme {
    fn default() -> (r: Self)
        ensures
            r == Theme::System,
    {
        Theme::System
    }
}

/// The mathematical content of [`Settings`].
pub struct SettingsView {
    pub preset_id: Seq<char>,
    pub custom_preset: PresetView,
    pub behavior: Behavior,
    pub chime_enabled: bool,
    pub chime_voice: ChimeVoice,
    pub noise_enabled: bool,
    pub noise_kind: NoiseKind,
    pub noise_during_breaks: bool,
    pub notifications_enabled: bool,
    pub show_clock_in_menu_bar: bool,
    pub launch_at_login: bool,
    pub theme: Theme,
    pub completed_focus: u32,
    pub completed_date: Seq<char>,
}

impl SettingsView {
    /// The settings a first launch on `date` starts from.
    pub open spec fn defaults(date: Seq<char>) -> SettingsView {
        SettingsView {
            preset_id: builtin_presets_spec()[1].id,
            custom_preset: PresetView {
                id: custom_id(),
                label: "Custom"@,
                focus_secs: 1800,
                short_break_secs: 360,
                long_break_secs: 1200,
                rounds: 4,
            },
            behavior: Behavior { auto_start_breaks: true, auto_start_focus: false },
            chime_enabled: true,
            chime_voice: ChimeVoice::Bell,
            noise_enabled: false,
            noise_kind: NoiseKind::Deep,
            noise_during_breaks: false,
            notifications_enabled: true,
            show_clock_in_menu_bar: true,
            launch_at_login: false,
            theme: Theme::System,
            completed_focus: 0,
            completed_date: date,
        }
    }

    /// The selected id names a built-in preset or the custom one.
    pub open spec fn selects_known_preset(self) -> bool {
        first_with_id(builtin_presets_spec(), self.preset_id) is Some || self.preset_id
            == custom_id()
    }

    pub open spec fn sanitized(self) -> SettingsView {
        SettingsView {
            custom_preset: PresetView { id: custom_id(), ..self.custom_preset.sanitized() },
            preset_id: if self.selects_known_preset() {
                self.preset_id
            } else {
                builtin_presets_spec()[1].id
            },
            ..self
        }
    }

    /// The preset the timer should actually run.
    pub open spec fn active_preset(self) -> PresetView {
        if self.preset_id == custom_id() {
            self.custom_preset.sanitized()
        } else {
            match first_with_id(builtin_presets_spec(), self.preset_id) {
                Some(p) => p,
                None => builtin_presets_spec()[1],
            }
        }
    }

    /// Moving the day counter on to `today`; the flag says whether it moved.
    pub open spec fn rolled_over_to(self, today: Seq<char>) -> (SettingsView, bool) {
        if self.completed_date != today {
            (SettingsView { completed_date: today, completed_focus: 0, ..self }, true)
        } else {
            (self, false)
        }
    }
}

#[derive(Debug, Clone, PartialEq)]
pub struct Settings {
    pub preset_id: String,
    pub custom_preset: Preset,
    pub behavior: Behavior,
    pub chime_enabled: bool,
    pub chime_voice: ChimeVoice,
    pub noise_enabled: bool,
    pub noise_kind: NoiseKind,
    pub noise_during_breaks: bool,
    pub notifications_enabled: bool,
    pub show_clock_in_menu_bar: bool,
    pub launch_at_login: bool,
    pub theme: Theme,
    /// Focus sessions finished on `completed_date`, so the count on the face
    /// is today's rather than all time.
    pub completed_focus: u32,
    pub completed_date: String,
}

impl View for Settings {
    type V = SettingsView;

    open spec fn view(&self) -> SettingsView {
        SettingsView {
            preset_id: self.preset_id@,
            custom_preset: self.custom_preset@,
            behavior: self.behavior,
            chime_enabled: self.chime_enabled,
            chime_voice: self.chime_voice,
            noise_enabled: self.noise_enabled,
            noise_kind: self.noise_kind,
            noise_during_breaks: self.noise_during_breaks,
            notifications_enabled: self.notifications_enabled,
            show_clock_in_menu_bar: self.show_clock_in_menu_bar,
            launch_at_login: self.launch_at_login,
            theme: self.theme,
            completed_focus: self.completed_focus,
            completed_date: self.completed_date@,
        }
    }
}

/// Today's local calendar date as `YYYY-MM-DD`, read from the system clock
/// and time zone through `chrono::Local::now` and chrono's `%Y-%m-%d`
/// formatting. Nothing is claimed of the result: it depends on the clock.
#[verifier::external_body]
fn today() -> (r: String) {
    chrono::Local::now().format("%Y-%m-%d").to_string()
}

fn is_custom_id(id: &String) -> (r: bool)
    ensures
        r == (id@ == custom_id()),
{
    *id == String::from_str(CUSTOM_PRESET_ID)
}

impl Default for Settings {
    fn default() -> (r: Self)
        ensures
            r@ == SettingsView::defaults(r.completed_date@),
    {
        Settings {
            preset_id: default_preset().id,
            custom_preset: Preset::new(CUSTOM_PRESET_ID, "Custom", 30 * 60, 6 * 60, 20 * 60, 4),
            behavior: Behavior::default(),
            chime_enabled: true,
            chime_voice: ChimeVoice::Bell,
            noise_enabled: false,
            noise_kind: NoiseKind::Deep,
            noise_during_breaks: false,
            notifications_enabled: true,
            show_clock_in_menu_bar: true,
            launch_at_login: false,
            theme: Theme::System,
            completed_focus: 0,
            completed_date: today(),
        }
    }
}

impl Settings {
    /// Brings anything that arrived from disk or the UI back into range.
    pub fn sanitized(self) -> (r: Self)
        ensures
            r@ == self@.sanitized(),
    {
        let mut s = self;
        s.sanitize();
        s
    }

    /// Sanitises in place.
    pub(crate) fn sanitize(&mut self)
        ensures
            final(self)@ == old(self)@.sanitized(),
    {
        let custom = self.custom_preset.duplicate();
        self.custom_preset = custom.sanitized();
        self.custom_preset.id = String::from_str(CUSTOM_PRESET_ID);
        if preset_by_id(self.preset_id.as_str()).is_none() && !is_custom_id(&self.preset_id) {
            self.preset_id = default_preset().id;
        }
    }

    /// The preset the timer should actually run.
    pub fn active_preset(&self) -> (r: Preset)
        ensures
            r@ == self@.active_preset(),
    {
        if is_custom_id(&self.preset_id) {
            self.custom_preset.duplicate().sanitized()
        } else {
            match preset_by_id(self.preset_id.as_str()) {
                Some(p) => p,
                None => default_preset(),
            }
        }
    }

    /// Moves the day counter on to `today`: when the stored date differs,
    /// the count is zeroed and `true` returned.
    pub fn roll_over_day_to(&mut self, today: String) -> (r: bool)
        ensures
            (final(self)@, r) == old(self)@.rolled_over_to(today@),
    {
        if self.completed_date != today {
            self.completed_date = today;
            self.completed_focus = 0;
            return true;
        }
        false
    }

    /// Zeroes the session count when the calendar day has moved on.
    pub fn roll_over_day(&mut self) -> (r: bool)
        ensures
            exists|today: Seq<char>| (final(self)@, r) == old(self)@.rolled_over_to(today),
    {
        self.roll_over_day_to(today())
    }
}


/// The default preset's id selects the default preset.
pub proof fn lemma_classic_resolves()
    ensures
        builtin_presets_spec()[1].id == "classic"@,
        first_with_id(builtin_presets_spec(), "classic"@) == Some(builtin_presets_spec()[1]),
{
    lemma_classic_is_builtin();
}

proof fn lemma_classic_is_builtin()
    ensures
        first_with_id(builtin_presets_spec(), builtin_presets_spec()[1].id) == Some(
            builtin_presets_spec()[1],
        ),
{
    reveal_strlit("espresso");
    reveal_strlit("classic");
    reveal_with_fuel(first_with_id, 3);
    assert("espresso"@[0] != "classic"@[0]);
}

/// The settings a first launch starts from are already in range.
pub proof fn lemma_defaults_in_range(date: Seq<char>)
    ensures
        SettingsView::defaults(date).sanitized() == SettingsView::defaults(date),
{
    lemma_classic_is_builtin();
}

/// Sanitising settings is idempotent, and whatever it is given, the preset
/// it selects afterwards is a built-in one or the custom one.
pub proof fn lemma_settings_sanitize_idempotent(s: SettingsView)
    ensures
        s.sanitized().selects_known_preset(),
        s.sanitized().custom_preset.is_sanitized(),
        s.sanitized().sanitized() == s.sanitized(),
{
    lemma_classic_is_builtin();
}

/// Selecting the custom preset survives sanitising, and the timer then runs
/// the custom durations, pulled into range.
pub proof fn lemma_custom_selection_preserved(s: SettingsView)
    requires
        s.preset_id == custom_id(),
    ensures
        s.sanitized().preset_id == custom_id(),
        s.sanitized().active_preset() == (PresetView {
            id: custom_id(),
            ..s.custom_preset.sanitized()
        }),
{
}

/// Whatever the settings hold, the preset the timer is given runs safely.
pub proof fn lemma_active_preset_in_range(s: SettingsView)
    ensures
        s.active_preset().is_sanitized(),
{
    if s.preset_id != custom_id() {
        lemma_first_with_id_in(builtin_presets_spec(), s.preset_id);
        crate::timer::lemma_builtin_presets_are_sanitized();
    }
}

proof fn lemma_first_with_id_in(presets: Seq<PresetView>, id: Seq<char>)
    ensures
        (first_with_id(presets, id) matches Some(p) ==> presets.contains(p)),
    decreases presets.len(),
{
    if presets.len() > 0 && presets[0].id != id {
        lemma_first_with_id_in(presets.drop_first(), id);
        if first_with_id(presets.drop_first(), id) is Some {
            let p = first_with_id(presets.drop_first(), id)->0;
            let j = choose|j: int| 0 <= j < presets.drop_first().len() && presets.drop_first()[j] == p;
            assert(presets[j + 1] == p);
        }
    } else if presets.len() > 0 {
        assert(presets[0] == presets[0]);
    }
}

/// The day counter moves at most once per day: rolling over to the same
/// day a second time changes nothing.
pub proof fn lemma_roll_over_once_per_day(s: SettingsView, today: Seq<char>)
    ensures
        s.rolled_over_to(today).0.rolled_over_to(today) == (s.rolled_over_to(today).0, false),
        s.rolled_over_to(today).0.completed_date == today,
        s.rolled_over_to(today).1 ==> s.rolled_over_to(today).0.completed_focus == 0,
{
}

/// Which preset settings run: the custom selection runs the custom preset
/// pulled into range, a built-in id runs that built-in preset, and any other
/// id runs the default one; sanitising keeps a known selection and turns an
/// unknown one into the default.
pub proof fn lemma_selection_resolves(s: SettingsView)
    ensures
        s.preset_id == custom_id() ==> s.active_preset() == s.custom_preset.sanitized(),
        first_with_id(builtin_presets_spec(), s.preset_id) matches Some(p) ==> s.active_preset()
            == p && p.id == s.preset_id,
        !s.selects_known_preset() ==> s.active_preset() == builtin_presets_spec()[1],
        s.selects_known_preset() ==> s.sanitized().preset_id == s.preset_id,
        !s.selects_known_preset() ==> s.sanitized().preset_id == "classic"@,
        s.sanitized().custom_preset.id == custom_id(),
        s.sanitized().completed_focus == s.completed_focus,
        s.sanitized().completed_date == s.completed_date,
        s.sanitized().noise_kind == s.noise_kind,
        s.sanitized().chime_voice == s.chime_voice,
        s.sanitized().behavior == s.behavior,
{
    lemma_first_with_id_matches(builtin_presets_spec(), s.preset_id);
    if s.preset_id == custom_id() {
        reveal_strlit("custom");
        reveal_strlit("espresso");
        reveal_strlit("classic");
        reveal_strlit("deep");
        reveal_strlit("flow");
        reveal_with_fuel(first_with_id, 5);
        assert("custom"@[0] != "espresso"@[0]);
        assert("custom"@[1] != "classic"@[1]);
        assert("custom"@[0] != "deep"@[0]);
        assert("custom"@[0] != "flow"@[0]);
    }
}

proof fn lemma_first_with_id_matches(presets: Seq<PresetView>, id: Seq<char>)
    ensures
        first_with_id(presets, id) matches Some(p) ==> p.id == id,
    decreases presets.len(),
{
    if presets.len() > 0 && presets[0].id != id {
        lemma_first_with_id_matches(presets.drop_first(), id);
    }
}

/// Rolling the day over to a new date zeroes the count and records the
/// date; to the stored date it changes nothing; no other field moves.
pub proof fn lemma_roll_over_fields(s: SettingsView, today: Seq<char>)
    ensures
        s.completed_date != today ==> s.rolled_over_to(today) == (
        SettingsView { completed_date: today, completed_focus: 0, ..s },
        true,
        ),
        s.completed_date == today ==> s.rolled_over_to(today) == (s, false),
{
}

} // verus!
