//! The ambient sounds on offer: a deep rumble, rain, and a low drone. The
//! samples themselves are synthesised by the application shell.

use vstd::prelude::*;

verus! {

/// Milliseconds a noise fade takes unless told otherwise.
pub const DEFAULT_FADE_MS: u32 = 450;

/// The lowest sample rate the synthesisers run at.
pub const MIN_SAMPLE_RATE: u32 = 8000;

/// The rate a synthesiser asked for `sample_rate` actually runs at.
pub fn effective_sample_rate(sample_rate: u32) -> (r: u32)
    ensures
        r == if sample_rate < MIN_SAMPLE_RATE {
            MIN_SAMPLE_RATE
        } else {
            sample_rate
        },
{
    if sample_rate < MIN_SAMPLE_RATE {
        MIN_SAMPLE_RATE
    } else {
        sample_rate
    }
}

/// Samples a fade of `fade_ms` spans at `sample_rate`, never fewer than one.
pub fn fade_samples(fade_ms: u32, sample_rate: u32) -> (r: u64)
    ensures
        r == if fade_ms * sample_rate / 1000 < 1 {
            1
        } else {
            fade_ms * sample_rate / 1000
        },
        r >= 1,
{
    let a = fade_ms as u64;
    let b = sample_rate as u64;
    assert(a * b <= 0xffff_ffff * 0xffff_ffffu64) by (nonlinear_arith)
        requires
            a <= 0xffff_ffff,
            b <= 0xffff_ffff,
    ;
    let whole = a * b / 1000;
    if whole < 1 {
        1
    } else {
        whole
    }
}

#[derive(Debug, Clone, Copy, PartialEq, Eq, Structural)]
pub enum NoiseKind {
    /// Brown noise: a steep low-frequency tilt, deep and rumbling.
    Deep,
    /// Steady rainfall: a filtered wash under scattered droplets.
    Rain,
    /// A low drone with a slow binaural pulse.
    Hum,
}

impl NoiseKind {
    pub open spec fn id_spec(self) -> Seq<char> {
        match self {
            NoiseKind::Deep => "deep"@,
            NoiseKind::Rain => "rain"@,
            NoiseKind::Hum => "hum"@,
        }
    }

    pub open spec fn label_spec(self) -> Seq<char> {
        match self {
            NoiseKind::Deep => "Deep"@,
            NoiseKind::Rain => "Rain"@,
            NoiseKind::Hum => "Hum"@,
        }
    }

    pub fn id(self) -> (r: &'static str)
        ensures
            r@ == self.id_spec(),
    {
        match self {
            NoiseKind::Deep => "deep",
            NoiseKind::Rain => "rain",
            NoiseKind::Hum => "hum",
        }
    }

    pub fn label(self) -> (r: &'static str)
        ensures
            r@ == self.label_spec(),
    {
        match self {
            NoiseKind::Deep => "Deep",
            NoiseKind::Rain => "Rain",
            NoiseKind::Hum => "Hum",
        }
    }

    pub fn all() -> (r: [NoiseKind; 3])
        ensures
            r@ == seq![NoiseKind::Deep, NoiseKind::Rain, NoiseKind::Hum],
    {
        let r = [NoiseKind::Deep, NoiseKind::Rain, NoiseKind::Hum];
        assert(r@ =~= seq![NoiseKind::Deep, NoiseKind::Rain, NoiseKind::Hum]);
        r
    }
}

} // verus!
