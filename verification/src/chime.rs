//! Chime voices and the pitch each phase boundary rings at. The waveform
//! itself is rendered by the application shell.

use vstd::prelude::*;

use crate::timer::Phase;

verus! {

#[derive(Debug, Clone, Copy, PartialEq, Eq, Structural)]
pub enum ChimeVoice {
    /// A soft struck bell. The default: clear, but with the edge taken off.
    Bell,
    /// A singing bowl. Slow, wide and very long, with a gentle beating.
    Bowl,
    /// A wooden block. Dry and brief, for anyone who finds tails distracting.
    Wood,
}

impl ChimeVoice {
    pub open spec fn id_spec(self) -> Seq<char> {
        match self {
            ChimeVoice::Bell => "bell"@,
            ChimeVoice::Bowl => "bowl"@,
            ChimeVoice::Wood => "wood"@,
        }
    }

    pub open spec fn label_spec(self) -> Seq<char> {
        match self {
            ChimeVoice::Bell => "Bell"@,
            ChimeVoice::Bowl => "Singing bowl"@,
            ChimeVoice::Wood => "Wood"@,
        }
    }

    pub fn id(self) -> (r: &'static str)
        ensures
            r@ == self.id_spec(),
    {
        match self {
            ChimeVoice::Bell => "bell",
            ChimeVoice::Bowl => "bowl",
            ChimeVoice::Wood => "wood",
        }
    }

    pub fn label(self) -> (r: &'static str)
        ensures
            r@ == self.label_spec(),
    {
        match self {
            ChimeVoice::Bell => "Bell",
            ChimeVoice::Bowl => "Singing bowl",
            ChimeVoice::Wood => "Wood",
        }
    }

    pub fn all() -> (r: [ChimeVoice; 3])
        ensures
            r@ == seq![ChimeVoice::Bell, ChimeVoice::Bowl, ChimeVoice::Wood],
    {
        let r = [ChimeVoice::Bell, ChimeVoice::Bowl, ChimeVoice::Wood];
        assert(r@ =~= seq![ChimeVoice::Bell, ChimeVoice::Bowl, ChimeVoice::Wood]);
        r
    }
}

/// Pitch in hertz that the end of `phase_ended` rings at.
pub open spec fn frequency_spec(phase_ended: Phase) -> u32 {
    match phase_ended {
        Phase::Focus => 396,
        _ => 528,
    }
}

/// The pitch each boundary rings at, in hertz. Ending focus resolves
/// downward and ending a break lifts, so the two are distinguishable without
/// looking at the screen.
pub fn frequency_for(phase_ended: Phase) -> (r: u32)
    ensures
        r == frequency_spec(phase_ended),
{
    match phase_ended {
        Phase::Focus => 396,
        Phase::ShortBreak | Phase::LongBreak => 528,
    }
}

/// The end of focus rings lower than the end of any break, and both breaks
/// ring alike.
pub proof fn lemma_focus_rings_below_breaks()
    ensures
        frequency_spec(Phase::Focus) < frequency_spec(Phase::ShortBreak),
        frequency_spec(Phase::ShortBreak) == frequency_spec(Phase::LongBreak),
{
}

} // verus!
