//! The messages that the player and its controller exchange.
//!
//! Each direction has a closed set of messages. Within a direction they
//! arrive in the order in which they were sent.

use vstd::prelude::*;
use crate::tas::{PlaybackState, TraceDrawOptions};
use crate::witness_types::{Vec2, Vec3};

verus! {

/// What the controller asks of the player.
#[derive(Debug, Clone)]
pub enum ControllerToTasMessage {
    /// Play the script of the given name; or, while paused, go on playing.
    PlayFile(String),
    /// Stop playing.
    Stop,
    /// Play without pacing up to the given tick.
    SkipTo(u32),
    /// Pause on the given tick.
    PauseAt(u32),
    /// Pause; or, while paused, play one more tick.
    AdvanceFrame,
    /// Put the player where it was on the given tick of the record.
    TeleportToTick(u32),
    /// Draw the record in the given way.
    TraceOptions(TraceDrawOptions),
}

/// What the player tells its controller.
#[derive(Debug, Clone)]
pub enum TasToControllerMessage {
    /// The state of the playback.
    PlaybackState(PlaybackState),
    /// The tick that is being played.
    CurrentTick(u32),
    /// Why a script could not be played.
    ParseErrors(Vec<String>),
    /// Where the player is, and where it looks.
    CarlInfo { pos: Vec3, ang: Vec2 },
    /// A puzzle was unlocked on the given tick.
    PuzzleUnlock(u32),
}

/// What a [`ControllerToTasMessage`] holds.
pub enum RequestModel {
    PlayFile(Seq<char>),
    Stop,
    SkipTo(u32),
    PauseAt(u32),
    AdvanceFrame,
    TeleportToTick(u32),
    TraceOptions(TraceDrawOptions),
}

/// What a [`TasToControllerMessage`] holds.
pub enum ReportModel {
    PlaybackState(PlaybackState),
    CurrentTick(u32),
    ParseErrors(Seq<Seq<char>>),
    CarlInfo { pos: Vec3, ang: Vec2 },
    PuzzleUnlock(u32),
}

impl DeepView for ControllerToTasMessage {
    type V = RequestModel;

    open spec fn deep_view(&self) -> RequestModel {
        match self {
            ControllerToTasMessage::PlayFile(name) => RequestModel::PlayFile(name@),
            ControllerToTasMessage::Stop => RequestModel::Stop,
            ControllerToTasMessage::SkipTo(tick) => RequestModel::SkipTo(*tick),
            ControllerToTasMessage::PauseAt(tick) => RequestModel::PauseAt(*tick),
            ControllerToTasMessage::AdvanceFrame => RequestModel::AdvanceFrame,
            ControllerToTasMessage::TeleportToTick(tick) => RequestModel::TeleportToTick(*tick),
            ControllerToTasMessage::TraceOptions(options) => RequestModel::TraceOptions(*options),
        }
    }
}

impl DeepView for TasToControllerMessage {
    type V = ReportModel;

    open spec fn deep_view(&self) -> ReportModel {
        match self {
            TasToControllerMessage::PlaybackState(state) => ReportModel::PlaybackState(*state),
            TasToControllerMessage::CurrentTick(tick) => ReportModel::CurrentTick(*tick),
            TasToControllerMessage::ParseErrors(errors) => ReportModel::ParseErrors(
                errors.deep_view(),
            ),
            TasToControllerMessage::CarlInfo { pos, ang } => ReportModel::CarlInfo {
                pos: *pos,
                ang: *ang,
            },
            TasToControllerMessage::PuzzleUnlock(tick) => ReportModel::PuzzleUnlock(*tick),
        }
    }
}

} // verus!
