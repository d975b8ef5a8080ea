//! The controller's picture of the player: what it knows from the player's
//! messages, and what that allows the user to do.
//!
//! Drawing the picture is the host's work.

use vstd::prelude::*;
use crate::communication::{ReportModel, TasToControllerMessage};
use crate::tas::{PlaybackState, TraceDrawOptions, TraceInterval};
use crate::witness_types::{Scalar, Vec2, Vec3};

verus! {

/// What the controller knows and what the user has set.
pub struct InterfaceState {
    /// The state of the playback, as the player told it last.
    pub playback_state: PlaybackState,
    /// Whether the script is played again whenever it has ended.
    pub looping: bool,
    /// The tick to skip to.
    pub skipto: u32,
    /// The tick to pause on, as the user set it.
    pub pauseat: u32,
    /// Whether the playback pauses right behind the tick to skip to.
    pub always_pause_after_skip: bool,
    pub player_pos: Vec3,
    pub player_ang: Vec2,
    pub current_tick: u32,
    pub latest_puzzle_unlock: u32,
    /// Why the script that was asked for last could not be played.
    pub parse_errors: Vec<String>,
    /// The tick of the record to go back to.
    pub trace_selected_tick: u32,
    /// Whether every change of that tick takes the player there.
    pub trace_continuous_teleport: bool,
    pub trace_display_opts: TraceDrawOptions,
}

/// What an [`InterfaceState`] holds.
pub struct InterfaceModel {
    pub playback_state: PlaybackState,
    pub looping: bool,
    pub skipto: u32,
    pub pauseat: u32,
    pub always_pause_after_skip: bool,
    pub player_pos: Vec3,
    pub player_ang: Vec2,
    pub current_tick: u32,
    pub latest_puzzle_unlock: u32,
    pub parse_errors: Seq<Seq<char>>,
    pub trace_selected_tick: u32,
    pub trace_continuous_teleport: bool,
    pub trace_display_opts: TraceDrawOptions,
}

impl DeepView for InterfaceState {
    type V = InterfaceModel;

    open spec fn deep_view(&self) -> InterfaceModel {
        InterfaceModel {
            playback_state: self.playback_state,
            looping: self.looping,
            skipto: self.skipto,
            pauseat: self.pauseat,
            always_pause_after_skip: self.always_pause_after_skip,
            player_pos: self.player_pos,
            player_ang: self.player_ang,
            current_tick: self.current_tick,
            latest_puzzle_unlock: self.latest_puzzle_unlock,
            parse_errors: self.parse_errors.deep_view(),
            trace_selected_tick: self.trace_selected_tick,
            trace_continuous_teleport: self.trace_continuous_teleport,
            trace_display_opts: self.trace_display_opts,
        }
    }
}

impl InterfaceModel {
    /// The picture of a player that was not heard of yet, with `options` for
    /// drawing the record.
    pub open spec fn initial(options: TraceDrawOptions) -> InterfaceModel {
        InterfaceModel {
            playback_state: PlaybackState::Stopped,
            looping: false,
            skipto: 0,
            pauseat: 0,
            always_pause_after_skip: false,
            player_pos: Vec3 {
                x: Scalar { bits: 0 },
                y: Scalar { bits: 0 },
                z: Scalar { bits: 0 },
            },
            player_ang: Vec2 { x: Scalar { bits: 0 }, y: Scalar { bits: 0 } },
            current_tick: 0,
            latest_puzzle_unlock: 0,
            parse_errors: Seq::empty(),
            trace_selected_tick: 0,
            trace_continuous_teleport: false,
            trace_display_opts: options,
        }
    }

    /// The picture after a message of the player. A playback that plays has
    /// no errors to show: word that it plays or skips clears them.
    pub open spec fn updated(self, report: ReportModel) -> InterfaceModel {
        match report {
            ReportModel::PlaybackState(state) => InterfaceModel {
                playback_state: state,
                parse_errors: if state == PlaybackState::Playing || state
                    == PlaybackState::Skipping {
                    Seq::empty()
                } else {
                    self.parse_errors
                },
                ..self
            },
            ReportModel::CurrentTick(tick) => InterfaceModel { current_tick: tick, ..self },
            ReportModel::ParseErrors(errors) => InterfaceModel { parse_errors: errors, ..self },
            ReportModel::CarlInfo { pos, ang } => InterfaceModel {
                player_pos: pos,
                player_ang: ang,
                ..self
            },
            ReportModel::PuzzleUnlock(tick) => InterfaceModel {
                latest_puzzle_unlock: tick,
                ..self
            },
        }
    }

    /// Whether a script can be started, or a paused one resumed.
    pub open spec fn play_enabled(self) -> bool {
        self.playback_state == PlaybackState::Stopped || self.playback_state
            == PlaybackState::Paused
    }

    /// Whether there is a playback to stop, to pause or to step.
    pub open spec fn stop_enabled(self) -> bool {
        self.playback_state != PlaybackState::Stopped
    }

    /// The tick that the player is asked to pause on: the one behind the tick
    /// to skip to, where the playback is to pause after skipping; the one
    /// that the user set otherwise.
    pub open spec fn pause_target(self) -> u32 {
        if !self.always_pause_after_skip {
            self.pauseat
        } else if self.skipto < u32::MAX {
            (self.skipto + 1) as u32
        } else {
            u32::MAX
        }
    }

    /// Whether the script is to be asked for again: in loop mode, whenever
    /// the playback neither plays nor skips.
    pub open spec fn wants_replay(self) -> bool {
        self.looping && self.playback_state != PlaybackState::Playing && self.playback_state
            != PlaybackState::Skipping
    }
}

impl InterfaceState {
    /// The picture of a player that was not heard of yet.
    pub fn new() -> (state: Self)
        ensures
            state.deep_view() == InterfaceModel::initial(TraceDrawOptions::standard()),
    {
        let state = InterfaceState {
            playback_state: PlaybackState::Stopped,
            looping: false,
            skipto: 0,
            pauseat: 0,
            always_pause_after_skip: false,
            player_pos: Vec3 {
                x: Scalar { bits: 0 },
                y: Scalar { bits: 0 },
                z: Scalar { bits: 0 },
            },
            player_ang: Vec2 { x: Scalar { bits: 0 }, y: Scalar { bits: 0 } },
            current_tick: 0,
            latest_puzzle_unlock: 0,
            parse_errors: Vec::new(),
            trace_selected_tick: 0,
            trace_continuous_teleport: false,
            trace_display_opts: TraceDrawOptions::default(),
        };
        assert(state.parse_errors.deep_view() =~= Seq::<Seq<char>>::empty());
        state
    }

    /// Takes a message of the player into the picture.
    pub fn update(&mut self, message: TasToControllerMessage)
        ensures
            final(self).deep_view() == old(self).deep_view().updated(message.deep_view()),
    {
        match message {
            TasToControllerMessage::PlaybackState(state) => {
                self.playback_state = state;
                if state == PlaybackState::Playing || state == PlaybackState::Skipping {
                    self.parse_errors.clear();
                    assert(self.parse_errors.deep_view() =~= Seq::<Seq<char>>::empty());
                }
            },
            TasToControllerMessage::CurrentTick(tick) => {
                self.current_tick = tick;
            },
            TasToControllerMessage::ParseErrors(errors) => {
                self.parse_errors = errors;
            },
            TasToControllerMessage::CarlInfo { pos, ang } => {
                self.player_pos = pos;
                self.player_ang = ang;
            },
            TasToControllerMessage::PuzzleUnlock(tick) => {
                self.latest_puzzle_unlock = tick;
            },
        }
    }

    /// Whether a script can be started, or a paused one resumed.
    pub fn play_enabled(&self) -> (enabled: bool)
        ensures
            enabled == self.deep_view().play_enabled(),
    {
        self.playback_state == PlaybackState::Stopped || self.playback_state
            == PlaybackState::Paused
    }

    /// Whether there is a playback to stop, to pause or to step.
    pub fn stop_enabled(&self) -> (enabled: bool)
        ensures
            enabled == self.deep_view().stop_enabled(),
    {
        self.playback_state != PlaybackState::Stopped
    }

    /// The tick that the player is asked to pause on.
    pub fn pause_target(&self) -> (tick: u32)
        ensures
            tick == self.deep_view().pause_target(),
    {
        if !self.always_pause_after_skip {
            self.pauseat
        } else if self.skipto < u32::MAX {
            self.skipto + 1
        } else {
            u32::MAX
        }
    }

    /// Whether the script is to be asked for again.
    pub fn wants_replay(&self) -> (replay: bool)
        ensures
            replay == self.deep_view().wants_replay(),
    {
        self.looping && self.playback_state != PlaybackState::Playing && self.playback_state
            != PlaybackState::Skipping
    }
}

/// How far one notch of the mouse wheel moves a number: by one, ten times as
/// far with shift held, a hundred times as far with control held; both
/// together multiply.
pub open spec fn scroll_step(shift: bool, ctrl: bool) -> int {
    (if shift {
        10int
    } else {
        1int
    }) * (if ctrl {
        100int
    } else {
        1int
    })
}

/// A number after the mouse wheel turned by `notches` over it: moved by the
/// step for each notch, and held inside the numbers of 32 bits.
pub open spec fn spec_scrolled(value: u32, shift: bool, ctrl: bool, notches: i32) -> u32 {
    let moved = value + scroll_step(shift, ctrl) * notches;
    if moved < 0 {
        0
    } else if moved > u32::MAX {
        u32::MAX
    } else {
        moved as u32
    }
}

/// A number after the mouse wheel turned by `notches` over it.
pub fn scrolled(value: u32, shift: bool, ctrl: bool, notches: i32) -> (r: u32)
    ensures
        r == spec_scrolled(value, shift, ctrl, notches),
{
    let mut step: i64 = 1;
    if shift {
        step = step * 10;
    }
    if ctrl {
        step = step * 100;
    }
    assert(step == scroll_step(shift, ctrl));
    assert(-0x8000_0000 * 1000 <= step * (notches as i64) <= 0x8000_0000 * 1000)
        by (nonlinear_arith)
        requires
            1 <= step <= 1000,
            -0x8000_0000 <= notches as i64 <= 0x7fff_ffff,
    ;
    let moved: i64 = value as i64 + step * (notches as i64);
    if moved < 0 {
        0
    } else if moved > 0xffff_ffff {
        u32::MAX
    } else {
        moved as u32
    }
}

impl TraceInterval {
    /// The interval with its bounds in order: one that ends before it starts
    /// ends where it starts.
    pub open spec fn spec_ordered(self) -> TraceInterval {
        match self {
            TraceInterval::Between(start, end) => TraceInterval::Between(
                start,
                if end >= start {
                    end
                } else {
                    start
                },
            ),
            other => other,
        }
    }

    /// The interval with its bounds in order.
    pub fn ordered(self) -> (interval: TraceInterval)
        ensures
            interval == self.spec_ordered(),
    {
        match self {
            TraceInterval::Between(start, end) => TraceInterval::Between(
                start,
                if end >= start {
                    end
                } else {
                    start
                },
            ),
            other => other,
        }
    }
}

} // verus!
