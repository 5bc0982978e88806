//! Core logic of Crema, a calm pomodoro timer: the phase state machine, the
//! presets and settings it runs on, and the small decisions the menu-bar shell
//! makes around it.

pub mod announce;
pub mod chime;
pub mod classic_noise;
pub mod engine;
pub mod noise;
pub mod rng;
pub mod settings;
pub mod timer;
