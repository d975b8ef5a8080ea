//! The record of a playback run: where the player was on every tick, and
//! where puzzles were clicked.

use std::collections::HashMap;
use vstd::prelude::*;
use vstd::slice::slice_subrange;
use crate::tas::{TraceDrawOptions, TraceInterval};
use crate::witness_types::{InteractionStatus, Vec2, Vec3};

verus! {

broadcast use vstd::std_specs::hash::group_hash_axioms;

/// What was recorded on one tick.
#[derive(Clone, Copy, Debug)]
pub struct TraceTick {
    pub pos: Vec3,
    pub ang: Vec2,
    pub interact: InteractionStatus,
}

/// A click on a puzzle: where the camera was, and the direction of the click.
pub type PuzzleClick = (Vec3, Vec3);

/// The record of a run. Ticks are only ever added at the end, so a sample's
/// index is the number of ticks recorded before it; of the clicks on one
/// tick the last one is kept.
pub struct Playertrace {
    /// How the record is drawn. It has no bearing on what is recorded.
    draw_option: TraceDrawOptions,
    ticks: Vec<TraceTick>,
    puzzle_clicks: HashMap<u32, PuzzleClick>,
}

/// What a [`Playertrace`] holds.
pub struct TraceModel {
    pub options: TraceDrawOptions,
    pub ticks: Seq<TraceTick>,
    pub clicks: Map<u32, PuzzleClick>,
}

/// The smaller of two numbers.
pub open spec fn least(a: int, b: int) -> int {
    if a <= b {
        a
    } else {
        b
    }
}

/// The part of a record of `len` ticks that `interval` selects, as the index
/// of its first tick and the index behind its last. No part ends behind the
/// record, so the end may lie before the start: the part is then empty.
pub open spec fn window(interval: TraceInterval, len: int) -> (int, int) {
    match interval {
        TraceInterval::First(n) => (0, least(n as int, len)),
        TraceInterval::Last(n) => (len - least(n as int, len), len),
        TraceInterval::Between(a, b) => (
            a as int,
            least(
                if b >= a {
                    b as int
                } else {
                    a as int
                },
                len,
            ),
        ),
    }
}

/// The clicks recorded on the ticks from `lo` up to `hi`, in the order of
/// their ticks.
pub open spec fn clicks_between(clicks: Map<u32, PuzzleClick>, lo: int, hi: int) -> Seq<
    PuzzleClick,
>
    decreases hi - lo,
{
    if lo >= hi {
        Seq::empty()
    } else {
        let before = clicks_between(clicks, lo, hi - 1);
        if 0 <= hi - 1 <= u32::MAX && clicks.contains_key((hi - 1) as u32) {
            before.push(clicks[(hi - 1) as u32])
        } else {
            before
        }
    }
}

impl TraceModel {
    /// A record without ticks and clicks, drawn in the standard way.
    pub open spec fn empty() -> TraceModel {
        TraceModel {
            options: TraceDrawOptions::standard(),
            ticks: Seq::empty(),
            clicks: Map::empty(),
        }
    }

    /// The part of the record that is drawn, as a pair of indices.
    pub open spec fn window(self) -> (int, int) {
        window(self.options.interval, self.ticks.len() as int)
    }

    /// The samples that are drawn.
    pub open spec fn shown(self) -> Seq<TraceTick> {
        let w = self.window();
        if w.0 < w.1 {
            self.ticks.subrange(w.0, w.1)
        } else {
            Seq::empty()
        }
    }

    /// The clicks that are drawn.
    pub open spec fn shown_clicks(self) -> Seq<PuzzleClick> {
        let w = self.window();
        clicks_between(self.clicks, w.0, w.1)
    }
}

impl View for Playertrace {
    type V = TraceModel;

    closed spec fn view(&self) -> TraceModel {
        TraceModel { options: self.draw_option, ticks: self.ticks@, clicks: self.puzzle_clicks@ }
    }
}

impl Default for Playertrace {
    /// An empty record, drawn in the default way.
    fn default() -> (trace: Self)
        ensures
            trace@ == TraceModel::empty(),
    {
        let trace = Playertrace {
            draw_option: TraceDrawOptions::default(),
            ticks: Vec::new(),
            puzzle_clicks: HashMap::new(),
        };
        assert(trace.ticks@ =~= Seq::<TraceTick>::empty());
        assert(trace.puzzle_clicks@ =~= Map::<u32, PuzzleClick>::empty());
        trace
    }
}

impl Playertrace {
    /// How the record is drawn.
    pub fn options(&self) -> (options: TraceDrawOptions)
        ensures
            options == self@.options,
    {
        self.draw_option
    }

    /// Forgets all ticks and clicks. How the record is drawn stays.
    pub fn clear(&mut self)
        ensures
            final(self)@ == (TraceModel {
                ticks: Seq::empty(),
                clicks: Map::empty(),
                ..old(self)@
            }),
    {
        self.ticks.clear();
        self.puzzle_clicks.clear();
        assert(self.ticks@ =~= Seq::<TraceTick>::empty());
        assert(self.puzzle_clicks@ =~= Map::<u32, PuzzleClick>::empty());
    }

    /// Records the next tick.
    pub fn push(&mut self, pos: Vec3, ang: Vec2, interact: InteractionStatus)
        ensures
            final(self)@ == (TraceModel {
                ticks: old(self)@.ticks.push(TraceTick { pos, ang, interact }),
                ..old(self)@
            }),
    {
        self.ticks.push(TraceTick { pos, ang, interact })
    }

    /// Records a click on `tick`, in place of an earlier one on that tick.
    pub fn add_puzzle_click(&mut self, tick: u32, cam_pos: Vec3, click_dir: Vec3)
        ensures
            final(self)@ == (TraceModel {
                clicks: old(self)@.clicks.insert(tick, (cam_pos, click_dir)),
                ..old(self)@
            }),
    {
        self.puzzle_clicks.insert(tick, (cam_pos, click_dir));
    }

    /// Changes how the record is drawn.
    pub fn set_draw_option(&mut self, options: TraceDrawOptions)
        ensures
            final(self)@ == (TraceModel { options, ..old(self)@ }),
    {
        self.draw_option = options;
    }

    /// The number of ticks recorded.
    pub fn len(&self) -> (n: usize)
        ensures
            n == self@.ticks.len(),
    {
        self.ticks.len()
    }

    /// The part of the record that is drawn: from the index `start` up to,
    /// but without, the index `end`.
    pub fn get_interval(&self) -> (r: core::ops::Range<usize>)
        ensures
            r.start == self@.window().0,
            r.end == self@.window().1,
            r.end <= self@.ticks.len(),
    {
        let len = self.ticks.len();
        match self.draw_option.interval {
            TraceInterval::First(n) => {
                let n = n as usize;
                0..(if n <= len {
                    n
                } else {
                    len
                })
            },
            TraceInterval::Last(n) => {
                let n = n as usize;
                (if n <= len {
                    len - n
                } else {
                    0
                })..len
            },
            TraceInterval::Between(a, b) => {
                let end = if b >= a {
                    b as usize
                } else {
                    a as usize
                };
                (a as usize)..(if end <= len {
                    end
                } else {
                    len
                })
            },
        }
    }

    /// The samples to draw into the world.
    pub fn get_pos_to_show(&self) -> (shown: &[TraceTick])
        ensures
            shown@ == self@.shown(),
    {
        let range = self.get_interval();
        if range.start < range.end {
            slice_subrange(self.ticks.as_slice(), range.start, range.end)
        } else {
            slice_subrange(self.ticks.as_slice(), 0, 0)
        }
    }

    /// The clicks to draw into the world: those on the ticks that are drawn,
    /// in the order of their ticks.
    pub fn get_puzzle_clicks(&self) -> (shown: Vec<PuzzleClick>)
        ensures
            shown@ == self@.shown_clicks(),
    {
        let range = self.get_interval();
        let mut shown: Vec<PuzzleClick> = Vec::new();
        let mut tick: usize = range.start;
        while tick < range.end
            invariant
                range.start <= tick,
                tick <= range.end || tick == range.start,
                shown@ == clicks_between(self.puzzle_clicks@, range.start as int, tick as int),
            decreases range.end - tick,
        {
            if tick <= 0xffff_ffff {
                match self.puzzle_clicks.get(&(tick as u32)) {
                    Some(click) => {
                        shown.push(*click);
                    },
                    None => {},
                }
            }
            tick += 1;
        }
        shown
    }

    /// The position and the view angles recorded on `tick`: where to put the
    /// player to go back to that tick. There are none for a tick that was not
    /// recorded.
    pub fn teleport_tick(&self, tick: u32) -> (transform: Option<(Vec3, Vec2)>)
        ensures
            match transform {
                Some((pos, ang)) => tick < self@.ticks.len() && pos == self@.ticks[tick as int].pos
                    && ang == self@.ticks[tick as int].ang,
                None => tick >= self@.ticks.len(),
            },
    {
        let index = tick as usize;
        if index < self.ticks.len() {
            let sample = &self.ticks[index];
            Some((sample.pos, sample.ang))
        } else {
            None
        }
    }
}

} // verus!
