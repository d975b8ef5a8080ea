//! Playback states and trace display windows shared by the engine and its controller.

use vstd::prelude::*;
use crate::decimal::{decimal_digits, digit_char, digit_of, push_decimal};
use crate::text::string_of;
use crate::witness_types::Scalar;

verus! {

/// The state of a playback run as the controller sees it.
#[derive(Clone, Copy, Debug, PartialEq, Eq, Structural)]
pub enum PlaybackState {
    Stopped,
    Playing,
    Paused,
    /// Never stored by the engine: reported while playing towards a skip target.
    Skipping,
}

/// Which part of the recorded trace is shown.
#[derive(Clone, Copy, Debug, PartialEq, Eq, Structural)]
pub enum TraceInterval {
    /// The first `n` recorded ticks.
    First(u32),
    /// The last `n` recorded ticks.
    Last(u32),
    /// The ticks from the first bound up to, but without, the second.
    Between(u32, u32),
}

impl TraceInterval {
    /// The name of the variant, without its bounds.
    pub open spec fn spec_variant_name(self) -> Seq<char> {
        match self {
            TraceInterval::First(_) => "First"@,
            TraceInterval::Last(_) => "Last"@,
            TraceInterval::Between(_, _) => "Between"@,
        }
    }

    /// Returns the name of the variant, without its bounds.
    pub fn variant_name_simple(&self) -> (name: &'static str)
        ensures
            name@ == self.spec_variant_name(),
    {
        match self {
            TraceInterval::First(_) => "First",
            TraceInterval::Last(_) => "Last",
            TraceInterval::Between(_, _) => "Between",
        }
    }
}

impl Default for TraceInterval {
    fn default() -> (interval: Self)
        ensures
            interval == TraceInterval::Last(100),
    {
        TraceInterval::Last(100)
    }
}

/// How the recorded trace is drawn into the world.
#[derive(Clone, Copy, Debug, PartialEq, Eq, Structural)]
pub struct TraceDrawOptions {
    /// The radius of the sphere drawn for a trace sample.
    pub sphere_radius: Scalar,
    /// How far above the recorded position a sample is drawn.
    pub z_offset: Scalar,
    /// How far along its direction a click is drawn from the camera.
    pub puzzle_click_indicator_distance_multiplier: Scalar,
    /// The radius of the sphere drawn for a click.
    pub puzzle_click_indicator_radius: Scalar,
    /// The part of the trace that is drawn.
    pub interval: TraceInterval,
}

impl TraceDrawOptions {
    /// How a record is drawn unless asked otherwise: spheres of radius 0.05
    /// at the recorded height, clicks of radius 0.01 at the camera, over the
    /// last hundred ticks.
    pub open spec fn standard() -> TraceDrawOptions {
        TraceDrawOptions {
            sphere_radius: Scalar { bits: 0x3D4C_CCCD },
            z_offset: Scalar { bits: 0 },
            puzzle_click_indicator_distance_multiplier: Scalar { bits: 0 },
            puzzle_click_indicator_radius: Scalar { bits: 0x3C23_D70A },
            interval: TraceInterval::Last(100),
        }
    }
}

impl Default for TraceDrawOptions {
    fn default() -> (options: Self)
        ensures
            options == TraceDrawOptions::standard(),
    {
        TraceDrawOptions {
            sphere_radius: Scalar { bits: 0x3D4C_CCCD },
            z_offset: Scalar { bits: 0 },
            puzzle_click_indicator_distance_multiplier: Scalar { bits: 0 },
            puzzle_click_indicator_radius: Scalar { bits: 0x3C23_D70A },
            interval: TraceInterval::Last(100),
        }
    }
}

/// The hundredths of a second, rounded to the nearest, that `ticks` ticks
/// take beyond the full minutes. A tick is a sixtieth of a second and a
/// minute has 3600 ticks, so the exact value, five thirds of the ticks left
/// over, is never halfway between two hundredths.
pub open spec fn centiseconds(ticks: u32) -> nat {
    ((((ticks % 3600) * 5 + 1) / 3)) as nat
}

/// The hundredths so counted are those nearest to the exact time: they
/// differ from five thirds of the ticks left over by less than half a
/// hundredth, and stay below a minute.
pub proof fn lemma_centiseconds_are_nearest(ticks: u32)
    ensures
        -3 < 2 * (3 * centiseconds(ticks) - 5 * (ticks % 3600)) < 3,
        centiseconds(ticks) < 6000,
{
}

/// The text for a duration of `ticks` ticks: the full minutes, `m`, the
/// remaining seconds with two decimals, padded on the left to five
/// characters, and `s`.
pub open spec fn time_text(ticks: u32) -> Seq<char> {
    let cs = centiseconds(ticks);
    let pad = if cs < 1000 { seq![' '] } else { Seq::<char>::empty() };
    decimal_digits((ticks / 3600) as nat) + seq!['m'] + pad + decimal_digits(cs / 100) + seq![
        '.',
        digit_char(cs / 10 % 10),
        digit_char(cs % 10),
        's',
    ]
}

/// Writes a number of ticks as minutes and seconds, at sixty ticks a second.
pub fn to_time(ticks: u32) -> (text: String)
    ensures
        text@ == time_text(ticks),
{
    let mins: u32 = ticks / 3600;
    let cs: u32 = ((ticks % 3600) * 5 + 1) / 3;
    let mut out: Vec<char> = Vec::new();
    push_decimal(&mut out, mins as u64);
    out.push('m');
    if cs < 1000 {
        out.push(' ');
    }
    push_decimal(&mut out, (cs / 100) as u64);
    out.push('.');
    out.push(digit_of((cs / 10 % 10) as u8));
    out.push(digit_of((cs % 10) as u8));
    out.push('s');
    assert(out@ =~= time_text(ticks));
    string_of(&out)
}

} // verus!
