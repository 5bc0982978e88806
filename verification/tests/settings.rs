use crema::chime::ChimeVoice;
use crema::noise::NoiseKind;
use crema::settings::{Settings, Theme, CUSTOM_PRESET_ID};
use crema::timer::{default_preset, Behavior};

fn today() -> String {
    chrono::Local::now().format("%Y-%m-%d").to_string()
}

#[test]
fn defaults_are_already_in_range() {
    let defaults = Settings::default();
    assert_eq!(defaults.clone(), defaults.sanitized());
}

#[test]
fn custom_preset_selection_is_preserved() {
    let settings = Settings {
        preset_id: CUSTOM_PRESET_ID.to_string(),
        ..Settings::default()
    }
    .sanitized();
    assert_eq!(settings.preset_id, CUSTOM_PRESET_ID);
    assert_eq!(settings.active_preset().focus_secs, 30 * 60);
}

#[test]
fn the_day_counter_resets_when_the_date_changes() {
    let mut settings = Settings {
        completed_focus: 6,
        completed_date: "2001-01-01".to_string(),
        ..Settings::default()
    };
    assert!(settings.roll_over_day());
    assert_eq!(settings.completed_focus, 0);
    assert_eq!(settings.completed_date, today());
    assert!(!settings.roll_over_day(), "a second call is a no-op");
}

// ---------------------------------------------------------------------------

#[test]
fn unknown_preset_ids_fall_back_to_the_default() {
    let settings = Settings {
        preset_id: "nonsense".to_string(),
        ..Settings::default()
    }
    .sanitized();
    assert_eq!(settings.preset_id, default_preset().id);

    let kept = Settings {
        preset_id: "deep".to_string(),
        ..Settings::default()
    }
    .sanitized();
    assert_eq!(kept.preset_id, "deep");
    assert_eq!(kept.active_preset().focus_secs, 50 * 60);
}

#[test]
fn the_defaults_are_the_documented_ones() {
    let d = Settings::default();
    assert_eq!(d.preset_id, "classic");
    assert_eq!(d.custom_preset.id, "custom");
    assert_eq!(d.custom_preset.label, "Custom");
    assert_eq!(
        (
            d.custom_preset.focus_secs,
            d.custom_preset.short_break_secs,
            d.custom_preset.long_break_secs,
            d.custom_preset.rounds
        ),
        (30 * 60, 6 * 60, 20 * 60, 4)
    );
    assert_eq!(d.behavior, Behavior { auto_start_breaks: true, auto_start_focus: false });
    assert!(d.chime_enabled);
    assert_eq!(d.chime_voice, ChimeVoice::Bell);
    assert!(!d.noise_enabled);
    assert_eq!(d.noise_kind, NoiseKind::Deep);
    assert!(!d.noise_during_breaks);
    assert!(d.notifications_enabled);
    assert!(d.show_clock_in_menu_bar);
    assert!(!d.launch_at_login);
    assert_eq!(d.theme, Theme::System);
    assert_eq!(Theme::default(), Theme::System);
    assert_eq!(d.completed_focus, 0);
    assert_eq!(d.completed_date, today());
}

#[test]
fn a_custom_preset_is_clamped_and_renamed() {
    let mut settings = Settings {
        preset_id: CUSTOM_PRESET_ID.to_string(),
        ..Settings::default()
    };
    settings.custom_preset.id = "mine".to_string();
    settings.custom_preset.focus_secs = 1;
    settings.custom_preset.rounds = 40;
    let settings = settings.sanitized();
    assert_eq!(settings.custom_preset.id, "custom");
    assert_eq!(settings.custom_preset.focus_secs, 10);
    assert_eq!(settings.custom_preset.rounds, 12);
    assert_eq!(settings.active_preset().focus_secs, 10);
}

#[test]
fn an_unsanitised_unknown_id_runs_the_default_preset() {
    let settings = Settings {
        preset_id: "gone".to_string(),
        ..Settings::default()
    };
    assert_eq!(settings.active_preset(), default_preset());
}

#[test]
fn rolling_over_to_the_same_day_changes_nothing() {
    let mut settings = Settings {
        completed_focus: 3,
        completed_date: "2024-05-01".to_string(),
        ..Settings::default()
    };
    assert!(!settings.roll_over_day_to("2024-05-01".to_string()));
    assert_eq!(settings.completed_focus, 3);
    assert!(settings.roll_over_day_to("2024-05-02".to_string()));
    assert_eq!(settings.completed_focus, 0);
    assert_eq!(settings.completed_date, "2024-05-02");
}

#[test]
fn sanitising_settings_twice_changes_nothing_more() {
    let mut settings = Settings {
        preset_id: "whatever".to_string(),
        ..Settings::default()
    };
    settings.custom_preset.focus_secs = 0;
    let once = settings.sanitized();
    assert_eq!(once.clone().sanitized(), once);
}

#[test]
fn out_of_range_values_are_pulled_back() {
    // The three audio levels are continuous values kept by the shell; the
    // part of this case the library holds is the unknown preset id.
    let settings = Settings {
        preset_id: "nonsense".to_string(),
        ..Settings::default()
    }
    .sanitized();

    assert_eq!(settings.preset_id, default_preset().id);
}
