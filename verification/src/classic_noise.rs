//! The classic masking noises: white, pink and brown. The samples themselves
//! are synthesised by the application shell.

use vstd::prelude::*;

verus! {

/// Milliseconds a noise fade takes unless told otherwise.
pub const DEFAULT_FADE_MS: u32 = 450;

#[derive(Debug, Clone, Copy, PartialEq, Eq, Structural)]
pub enum NoiseKind {
    /// Flat spectrum. Bright and hissy, the classic masking noise.
    White,
    /// Equal energy per octave. Softer, close to rain on a window.
    Pink,
    /// Steep low-frequency tilt. Deep and rumbling, like distant surf.
    Brown,
}

impl NoiseKind {
    pub open spec fn id_spec(self) -> Seq<char> {
        match self {
            NoiseKind::White => "white"@,
            NoiseKind::Pink => "pink"@,
            NoiseKind::Brown => "brown"@,
        }
    }

    pub open spec fn label_spec(self) -> Seq<char> {
        match self {
            NoiseKind::White => "White"@,
            NoiseKind::Pink => "Pink"@,
            NoiseKind::Brown => "Brown"@,
        }
    }

    pub fn id(self) -> (r: &'static str)
        ensures
            r@ == self.id_spec(),
    {
        match self {
            NoiseKind::White => "white",
            NoiseKind::Pink => "pink",
            NoiseKind::Brown => "brown",
        }
    }

    pub fn label(self) -> (r: &'static str)
        ensures
            r@ == self.label_spec(),
    {
        match self {
            NoiseKind::White => "White",
            NoiseKind::Pink => "Pink",
            NoiseKind::Brown => "Brown",
        }
    }

    pub fn all() -> (r: [NoiseKind; 3])
        ensures
            r@ == seq![NoiseKind::White, NoiseKind::Pink, NoiseKind::Brown],
    {
        let r = [NoiseKind::White, NoiseKind::Pink, NoiseKind::Brown];
        assert(r@ =~= seq![NoiseKind::White, NoiseKind::Pink, NoiseKind::Brown]);
        r
    }
}

} // verus!
