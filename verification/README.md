# Crema

A calm pomodoro timer that lives in the menu bar.

- `src/` is the verified library (Verus): the phase state machine
  (`timer`), presets and settings (`settings`), the engine that turns window
  and tray commands into timer operations and side effects (`engine`), the
  words the menu bar and notifications show (`announce`), the chime voices and
  pitches (`chime`), the ambient sound kinds (`noise`, `classic_noise`) and the
  noise generator's random source (`rng`). Laws about these are stated and
  proved as `lemma_*` proof functions beside the code they speak of.
- `app/` is the Tauri menu-bar shell: windows, tray, notifications, the audio
  thread (rodio), the floating-point chime and noise synthesis, the settings
  file (serde_json) and the three continuous audio levels.
- `tests/` exercises the library.
