//! Values of the simulated world as the engine carries them.
//!
//! The engine never computes with positions, angles or colours: it records
//! them, hands them back and compares them for identity. A real number is
//! therefore held as the bit pattern of its IEEE 754 single-precision
//! encoding.

use vstd::prelude::*;

verus! {

/// A puzzle panel of the world. The engine tells panels apart by the tick on
/// which they were clicked or unlocked only.
#[derive(Clone, Copy, Debug, PartialEq, Eq, Structural)]
pub struct Puzzle;

/// A single-precision real number, held as its bit pattern.
#[derive(Clone, Copy, Debug, PartialEq, Eq, Structural)]
pub struct Scalar {
    pub bits: u32,
}

/// The bit pattern of 1.0.
pub const ONE: u32 = 0x3F80_0000;

/// The bit pattern of 0.5.
pub const HALF: u32 = 0x3F00_0000;

/// The bit pattern of the single-precision number nearest to 0.4.
pub const TWO_FIFTHS: u32 = 0x3ECC_CCCD;

impl Scalar {
    /// The number with the given bit pattern.
    pub open spec fn of(bits: u32) -> Scalar {
        Scalar { bits }
    }

    /// The number with the given bit pattern.
    #[verifier::when_used_as_spec(of)]
    pub fn from_bits(bits: u32) -> (x: Scalar)
        ensures
            x == Scalar::of(bits),
    {
        Scalar { bits }
    }
}

/// A point or a direction in space.
#[derive(Clone, Copy, Debug, PartialEq, Eq, Structural)]
pub struct Vec3 {
    pub x: Scalar,
    pub y: Scalar,
    pub z: Scalar,
}

/// A pair of view angles.
#[derive(Clone, Copy, Debug, PartialEq, Eq, Structural)]
pub struct Vec2 {
    pub x: Scalar,
    pub y: Scalar,
}

/// A colour with its opacity.
#[derive(Clone, Copy, Debug, PartialEq, Eq, Structural)]
pub struct Color<T> {
    pub r: T,
    pub g: T,
    pub b: T,
    pub a: T,
}

/// What the player is doing with the world on a tick.
#[derive(Clone, Copy, Debug, PartialEq, Eq, Structural)]
pub enum InteractionStatus {
    FocusMode,
    SolvingPanel,
    Walking,
    Cinematic,
}

impl InteractionStatus {
    /// The number by which the simulation names the status.
    pub open spec fn spec_code(self) -> u32 {
        match self {
            InteractionStatus::FocusMode => 0,
            InteractionStatus::SolvingPanel => 1,
            InteractionStatus::Walking => 2,
            InteractionStatus::Cinematic => 3,
        }
    }

    /// The number by which the simulation names the status.
    pub fn code(self) -> (v: u32)
        ensures
            v == self.spec_code(),
    {
        match self {
            InteractionStatus::FocusMode => 0,
            InteractionStatus::SolvingPanel => 1,
            InteractionStatus::Walking => 2,
            InteractionStatus::Cinematic => 3,
        }
    }

    /// The status that the simulation names by `v`, if there is one.
    pub fn try_from(v: u32) -> (status: Result<Self, ()>)
        ensures
            match status {
                Ok(s) => s.spec_code() == v,
                Err(_) => v > 3,
            },
    {
        if v == 0 {
            Ok(InteractionStatus::FocusMode)
        } else if v == 1 {
            Ok(InteractionStatus::SolvingPanel)
        } else if v == 2 {
            Ok(InteractionStatus::Walking)
        } else if v == 3 {
            Ok(InteractionStatus::Cinematic)
        } else {
            Err(())
        }
    }

    /// The colour in which a trace sample taken in this status is drawn: red
    /// in focus mode, pink while solving a panel, green while walking, and a
    /// half-transparent grey during a cinematic.
    pub open spec fn spec_trace_color(self) -> Color<Scalar> {
        match self {
            InteractionStatus::FocusMode => Color {
                r: Scalar::from_bits(ONE),
                g: Scalar::from_bits(0),
                b: Scalar::from_bits(0),
                a: Scalar::from_bits(ONE),
            },
            InteractionStatus::SolvingPanel => Color {
                r: Scalar::from_bits(ONE),
                g: Scalar::from_bits(TWO_FIFTHS),
                b: Scalar::from_bits(TWO_FIFTHS),
                a: Scalar::from_bits(ONE),
            },
            InteractionStatus::Walking => Color {
                r: Scalar::from_bits(0),
                g: Scalar::from_bits(ONE),
                b: Scalar::from_bits(0),
                a: Scalar::from_bits(ONE),
            },
            InteractionStatus::Cinematic => Color {
                r: Scalar::from_bits(HALF),
                g: Scalar::from_bits(HALF),
                b: Scalar::from_bits(HALF),
                a: Scalar::from_bits(HALF),
            },
        }
    }

    /// The colour in which a trace sample taken in this status is drawn.
    pub fn trace_color(self) -> (color: Color<Scalar>)
        ensures
            color == self.spec_trace_color(),
    {
        match self {
            InteractionStatus::FocusMode => Color {
                r: Scalar::from_bits(ONE),
                g: Scalar::from_bits(0),
                b: Scalar::from_bits(0),
                a: Scalar::from_bits(ONE),
            },
            InteractionStatus::SolvingPanel => Color {
                r: Scalar::from_bits(ONE),
                g: Scalar::from_bits(TWO_FIFTHS),
                b: Scalar::from_bits(TWO_FIFTHS),
                a: Scalar::from_bits(ONE),
            },
            InteractionStatus::Walking => Color {
                r: Scalar::from_bits(0),
                g: Scalar::from_bits(ONE),
                b: Scalar::from_bits(0),
                a: Scalar::from_bits(ONE),
            },
            InteractionStatus::Cinematic => Color {
                r: Scalar::from_bits(HALF),
                g: Scalar::from_bits(HALF),
                b: Scalar::from_bits(HALF),
                a: Scalar::from_bits(HALF),
            },
        }
    }
}

/// The colour in which a recorded click is drawn: blue.
pub fn click_color() -> (color: Color<Scalar>)
    ensures
        color == (Color { r: Scalar::from_bits(0), g: Scalar::from_bits(0), b: Scalar::from_bits(ONE), a: Scalar::from_bits(ONE) }),
{
    Color { r: Scalar::from_bits(0), g: Scalar::from_bits(0), b: Scalar::from_bits(ONE), a: Scalar::from_bits(ONE) }
}

} // verus!
