//! The player: the state machine that plays a script against the ticks of the
//! simulation.
//!
//! The player owns the script, the position in it, the record of the run and
//! the tick counters. It neither reads files nor touches the simulation or a
//! connection: its host hands it what was read, and carries out the actions
//! that the player leaves in its outbox, in their order.

use vstd::prelude::*;
use crate::communication::{ControllerToTasMessage, ReportModel, TasToControllerMessage};
use crate::controller::ControllerState;
use crate::script::{
    lemma_absolute_is_playable, load, playable, Script, ScriptModel, StartModel, StartType,
};
use crate::tas::PlaybackState;
use crate::text::{chars_of, push_all, push_str, string_of};
use crate::trace::{Playertrace, TraceModel, TraceTick};
use crate::witness_types::{InteractionStatus, Vec2, Vec3};

verus! {

/// The first ticks of a run are never skipped: the world is still fading in.
pub const WARM_UP_TICKS: u32 = 60;

/// What the host is to do for the player.
#[derive(Debug, Clone)]
pub enum Action {
    /// Send a message to the controller.
    Send(TasToControllerMessage),
    /// Restart the simulation as a new game.
    RestartNewGame,
    /// Restart the simulation from the save file at the given path.
    LoadSave(String),
    /// Put the player at a position, looking along the given angles.
    WriteTransform { pos: Vec3, ang: Vec2 },
}

/// What an [`Action`] holds.
pub enum ActionModel {
    Send(ReportModel),
    RestartNewGame,
    LoadSave(Seq<char>),
    WriteTransform { pos: Vec3, ang: Vec2 },
}

impl DeepView for Action {
    type V = ActionModel;

    open spec fn deep_view(&self) -> ActionModel {
        match self {
            Action::Send(message) => ActionModel::Send(message.deep_view()),
            Action::RestartNewGame => ActionModel::RestartNewGame,
            Action::LoadSave(path) => ActionModel::LoadSave(path@),
            Action::WriteTransform { pos, ang } => ActionModel::WriteTransform {
                pos: *pos,
                ang: *ang,
            },
        }
    }
}

/// What the simulation shows at the start of one of its steps.
#[derive(Debug, Clone, Copy)]
pub struct GameSnapshot {
    /// The simulation's count of its steps.
    pub tick: u32,
    pub pos: Vec3,
    pub ang: Vec2,
    pub interact: InteractionStatus,
}

/// What the host is to do after the player took a message.
#[derive(Debug, Clone)]
pub enum Directive {
    /// Hand over the next message that waits.
    Continue,
    /// Leave the messages that wait for the next step.
    Yield,
    /// Read the script of the given name, hand its text to
    /// [`TasPlayer::start`], then hand over the next message that waits.
    Load(String),
}

/// What a [`Directive`] holds.
pub enum DirectiveModel {
    Continue,
    Yield,
    Load(Seq<char>),
}

impl DeepView for Directive {
    type V = DirectiveModel;

    open spec fn deep_view(&self) -> DirectiveModel {
        match self {
            Directive::Continue => DirectiveModel::Continue,
            Directive::Yield => DirectiveModel::Yield,
            Directive::Load(name) => DirectiveModel::Load(name@),
        }
    }
}

/// The state that a player is in. That it skips is no state of its own; see
/// [`PlayerModel::skipping`].
#[derive(Clone, Copy, Debug, PartialEq, Eq, Structural)]
pub enum PlayerState {
    Stopped,
    Playing,
    Paused,
}

impl PlayerState {
    /// The state as the controller names it.
    pub open spec fn spec_named(self) -> PlaybackState {
        match self {
            PlayerState::Stopped => PlaybackState::Stopped,
            PlayerState::Playing => PlaybackState::Playing,
            PlayerState::Paused => PlaybackState::Paused,
        }
    }

    /// The state as the controller names it.
    #[verifier::when_used_as_spec(spec_named)]
    pub fn named(self) -> (state: PlaybackState)
        ensures
            state == self.spec_named(),
    {
        match self {
            PlayerState::Stopped => PlaybackState::Stopped,
            PlayerState::Playing => PlaybackState::Playing,
            PlayerState::Paused => PlaybackState::Paused,
        }
    }
}

/// The player.
pub struct TasPlayer {
    outbox: Vec<Action>,
    state: PlayerState,
    start_tick: u32,
    current_tick: u32,
    skipto_tick: u32,
    pauseat_tick: u32,
    next_line: usize,
    script_name: String,
    script: Option<Script>,
    controller: ControllerState,
    trace: Playertrace,
}

/// What a [`TasPlayer`] holds.
pub struct PlayerModel {
    /// The actions that the host has not taken yet, oldest first.
    pub outbox: Seq<ActionModel>,
    /// Whether the player is stopped, plays or is paused.
    pub state: PlayerState,
    /// The simulation's count when the run began.
    pub start_tick: u32,
    /// The last tick of the run that was played.
    pub current_tick: u32,
    /// Up to which tick the run is played without pacing.
    pub skipto_tick: u32,
    /// On which tick the run pauses.
    pub pauseat_tick: u32,
    /// How many lines of the script have taken effect.
    pub next_line: nat,
    /// The name of the script that was asked for last.
    pub script_name: Seq<char>,
    /// The script that is played.
    pub script: Option<ScriptModel>,
    /// The input signals of the current tick.
    pub controller: ControllerState,
    /// The record of the run.
    pub trace: TraceModel,
}

/// The number of ticks from `start` to `live` on a counter of 32 bits, which
/// goes on from zero behind its largest value.
pub open spec fn ticks_since(live: u32, start: u32) -> u32 {
    if live >= start {
        (live - start) as u32
    } else {
        (live - start + 0x1_0000_0000) as u32
    }
}

/// The directory that holds the scripts.
pub open spec fn script_directory() -> Seq<char> {
    "./tas/"@
}

/// The character that parts a directory from what it holds, on the system
/// that the simulation runs on.
pub open spec fn path_separator() -> char {
    '\\'
}

/// The path of a save file that a script names, below the simulation's
/// directory for save files.
pub open spec fn save_path(folder: Seq<char>, path: Seq<char>) -> Seq<char> {
    folder + seq![path_separator()] + path
}

/// Whether a script can be started: one that starts from a save file needs
/// the simulation's directory for save files.
pub open spec fn can_start(start: StartModel, save_folder: Option<Seq<char>>) -> bool {
    start is Save ==> save_folder is Some
}

/// What starting a script does to the simulation.
pub open spec fn start_actions(start: StartModel, save_folder: Option<Seq<char>>) -> Seq<
    ActionModel,
> {
    match start {
        StartModel::Now => Seq::empty(),
        StartModel::NewGame => seq![ActionModel::RestartNewGame],
        StartModel::Save(path) => seq![ActionModel::LoadSave(save_path(save_folder->0, path))],
    }
}

impl PlayerModel {
    /// A player that has played nothing yet.
    pub open spec fn initial() -> PlayerModel {
        PlayerModel {
            outbox: Seq::empty(),
            state: PlayerState::Stopped,
            start_tick: 0,
            current_tick: 0,
            skipto_tick: 0,
            pauseat_tick: 0,
            next_line: 0,
            script_name: Seq::empty(),
            script: None,
            controller: ControllerState::idle(),
            trace: TraceModel::empty(),
        }
    }

    /// Whether the player skips: it plays towards the tick to skip to, and is
    /// past the warm-up. The simulation should then run without pacing and
    /// drawing.
    pub open spec fn skipping(self) -> bool {
        &&& self.state == PlayerState::Playing
        &&& self.current_tick < self.skipto_tick
        &&& self.current_tick > WARM_UP_TICKS
    }

    /// The state as the controller is told it: `Skipping` exactly while the
    /// player skips, the player's own state otherwise.
    pub open spec fn reported_state(self) -> PlaybackState {
        if self.skipping() {
            PlaybackState::Skipping
        } else {
            self.state.named()
        }
    }

    /// The player with one more action in its outbox.
    pub open spec fn with_action(self, action: ActionModel) -> PlayerModel {
        PlayerModel { outbox: self.outbox.push(action), ..self }
    }

    /// The player with one more message to the controller in its outbox.
    pub open spec fn with_report(self, report: ReportModel) -> PlayerModel {
        self.with_action(ActionModel::Send(report))
    }

    /// The player after it was stopped.
    pub open spec fn stopped(self) -> PlayerModel {
        PlayerModel { state: PlayerState::Stopped, ..self }
    }

    /// The player after it was asked to play a script. `file` names the
    /// script, unless the one named last is meant; `source` is the text of
    /// that script, or why it could not be read; `live_tick` is the
    /// simulation's count; `save_folder` is the simulation's directory for
    /// save files, if it has one.
    ///
    /// The player stops whatever it plays. A script that can be played and
    /// started becomes the player's script under its name: the run begins at
    /// `live_tick` with nothing held, an empty record and the simulation told
    /// how to start. In every other case the player is stopped and otherwise
    /// as it was: for a text that could not be read and for one that is no
    /// playable script it reports why, once.
    pub open spec fn started(
        self,
        file: Option<Seq<char>>,
        source: Result<Seq<char>, Seq<char>>,
        live_tick: u32,
        save_folder: Option<Seq<char>>,
    ) -> PlayerModel {
        match source {
            Err(reason) => self.stopped().with_report(ReportModel::ParseErrors(seq![reason])),
            Ok(text) => match load(text) {
                Err(error) => self.stopped().with_report(
                    ReportModel::ParseErrors(seq![error.text()]),
                ),
                Ok(script) => if !can_start(script.start, save_folder) {
                    self.stopped()
                } else {
                    PlayerModel {
                        outbox: self.outbox + start_actions(script.start, save_folder),
                        state: PlayerState::Playing,
                        start_tick: live_tick,
                        current_tick: 0,
                        next_line: 0,
                        script_name: match file {
                            Some(name) => name,
                            None => self.script_name,
                        },
                        script: Some(script),
                        controller: ControllerState::idle(),
                        trace: TraceModel {
                            ticks: Seq::empty(),
                            clicks: Map::empty(),
                            ..self.trace
                        },
                        ..self
                    }
                },
            },
        }
    }

    /// Whether the player has a script and is not stopped.
    pub open spec fn runs(self) -> bool {
        self.state != PlayerState::Stopped && self.script is Some
    }

    /// Whether every line of the script has taken effect.
    pub open spec fn exhausted(self) -> bool {
        self.script is Some && self.next_line >= self.script->0.lines.len()
    }

    /// The player after it told the controller where the simulation's player
    /// is and in which state the playback is.
    pub open spec fn announced(self, game: GameSnapshot) -> PlayerModel {
        self.with_report(ReportModel::CarlInfo { pos: game.pos, ang: game.ang }).with_report(
            ReportModel::PlaybackState(self.reported_state()),
        )
    }

    /// The player after a tick of the run that it has not played yet.
    ///
    /// It tells the controller the tick, pauses where it was asked to pause
    /// on this tick, and records where the simulation's player is. The next
    /// line of the script takes effect if this is its tick.
    pub open spec fn played(self, tick: u32, game: GameSnapshot) -> PlayerModel
        recommends
            self.script is Some,
            self.next_line < self.script->0.lines.len(),
    {
        let line = self.script->0.lines[self.next_line as int];
        let told = self.with_report(ReportModel::CurrentTick(tick));
        let paused = if tick == self.pauseat_tick {
            PlayerModel { state: PlayerState::Paused, ..told }.with_report(
                ReportModel::PlaybackState(PlaybackState::Paused),
            )
        } else {
            told
        };
        PlayerModel {
            current_tick: tick,
            trace: TraceModel {
                ticks: self.trace.ticks.push(
                    TraceTick { pos: game.pos, ang: game.ang, interact: game.interact },
                ),
                ..self.trace
            },
            controller: self.controller.spec_advance(
                if line.tick == tick {
                    Some(line)
                } else {
                    None
                },
            ),
            next_line: if line.tick == tick {
                self.next_line + 1
            } else {
                self.next_line
            },
            ..paused
        }
    }

    /// The player after a step of the simulation.
    ///
    /// It always tells the controller where the simulation's player is and the
    /// state of the playback. A player that does not run does nothing else. A
    /// player whose script is exhausted stops. Otherwise the tick of the run
    /// is the simulation's count since the run began, and the player plays
    /// that tick unless it is the one it played last.
    pub open spec fn stepped(self, game: GameSnapshot) -> PlayerModel {
        let told = self.announced(game);
        let tick = ticks_since(game.tick, self.start_tick);
        if !self.runs() {
            told
        } else if self.exhausted() {
            told.stopped()
        } else if tick == self.current_tick {
            told
        } else {
            told.played(tick, game)
        }
    }

    /// The input signals that a step of the simulation is to use: those of
    /// the player after the step, if it runs and its script is not exhausted.
    pub open spec fn step_input(self, game: GameSnapshot) -> Option<ControllerState> {
        if self.runs() && !self.exhausted() {
            Some(self.stepped(game).controller)
        } else {
            None
        }
    }

    /// The player after a message from the controller.
    pub open spec fn handled(self, request: crate::communication::RequestModel) -> PlayerModel {
        match request {
            crate::communication::RequestModel::PlayFile(_) => if self.state
                == PlayerState::Paused {
                PlayerModel { state: PlayerState::Playing, ..self }
            } else {
                self
            },
            crate::communication::RequestModel::Stop => self.stopped(),
            crate::communication::RequestModel::SkipTo(tick) => PlayerModel {
                skipto_tick: tick,
                ..self
            },
            crate::communication::RequestModel::PauseAt(tick) => PlayerModel {
                pauseat_tick: tick,
                ..self
            },
            crate::communication::RequestModel::AdvanceFrame => PlayerModel {
                state: PlayerState::Paused,
                ..self
            },
            crate::communication::RequestModel::TeleportToTick(tick) => if self.state
                == PlayerState::Stopped && tick < self.trace.ticks.len() {
                self.with_action(
                    ActionModel::WriteTransform {
                        pos: self.trace.ticks[tick as int].pos,
                        ang: self.trace.ticks[tick as int].ang,
                    },
                )
            } else {
                self
            },
            crate::communication::RequestModel::TraceOptions(options) => PlayerModel {
                trace: TraceModel { options, ..self.trace },
                ..self
            },
        }
    }

    /// What the host is to do after a message from the controller: read a
    /// script where one is to be played from its start, stop taking messages
    /// after a frame advance, and go on with the next message otherwise.
    pub open spec fn directive(self, request: crate::communication::RequestModel) -> DirectiveModel {
        match request {
            crate::communication::RequestModel::PlayFile(name) => if self.state
                == PlayerState::Paused {
                DirectiveModel::Continue
            } else {
                DirectiveModel::Load(name)
            },
            crate::communication::RequestModel::AdvanceFrame => DirectiveModel::Yield,
            _ => DirectiveModel::Continue,
        }
    }
}

/// A step of the simulation on a tick that was played already changes
/// neither the input signals nor the position in the script: where the
/// player, after a step, has lines left, a second step on the same count of
/// the simulation gives the same input signals as the first.
pub proof fn lemma_same_tick_is_played_once(
    player: PlayerModel,
    first: GameSnapshot,
    second: GameSnapshot,
)
    requires
        first.tick == second.tick,
        player.runs(),
        !player.exhausted(),
    ensures
        player.stepped(first).stepped(second).controller == player.stepped(first).controller,
        player.stepped(first).stepped(second).next_line == player.stepped(first).next_line,
        player.stepped(first).stepped(second).current_tick == player.stepped(first).current_tick,
        player.stepped(first).stepped(second).trace == player.stepped(first).trace,
        !player.stepped(first).exhausted() ==> player.stepped(first).step_input(second)
            == player.step_input(first),
{
}

/// A step of the simulation on the tick that the player played last leaves
/// the player as it is, but for what it tells the controller.
pub proof fn lemma_unchanged_tick_changes_nothing(player: PlayerModel, game: GameSnapshot)
    requires
        player.runs(),
        !player.exhausted(),
        ticks_since(game.tick, player.start_tick) == player.current_tick,
    ensures
        player.stepped(game) == player.announced(game),
        player.step_input(game) == Some(player.controller),
{
}

/// To go back to a tick that was not recorded does nothing: the player is as
/// it was, nothing is written to the simulation, and the host goes on with
/// the next message.
pub proof fn lemma_teleport_outside_the_record(player: PlayerModel, tick: u32)
    requires
        tick >= player.trace.ticks.len(),
    ensures
        player.handled(crate::communication::RequestModel::TeleportToTick(tick)) == player,
        player.directive(crate::communication::RequestModel::TeleportToTick(tick))
            == DirectiveModel::Continue,
{
}

/// While the player is not stopped, a request to go back to a tick does
/// nothing.
pub proof fn lemma_teleport_while_running(player: PlayerModel, tick: u32)
    requires
        player.state != PlayerState::Stopped,
    ensures
        player.handled(crate::communication::RequestModel::TeleportToTick(tick)) == player,
{
}

/// A new tick to skip to changes that tick and nothing else; so does a new
/// tick to pause on.
pub proof fn lemma_targets_leave_the_state(player: PlayerModel, tick: u32)
    ensures
        player.handled(crate::communication::RequestModel::SkipTo(tick)).state == player.state,
        player.handled(crate::communication::RequestModel::PauseAt(tick)).state == player.state,
        player.handled(crate::communication::RequestModel::SkipTo(tick)).trace == player.trace,
{
}

/// A load that fails leaves the player stopped and otherwise as it was, and
/// is reported once: the script that the player held, its name, the
/// counters, the input signals and the record stay, and the simulation is
/// not told to start anew.
pub proof fn lemma_failed_load_keeps_the_player(
    player: PlayerModel,
    file: Option<Seq<char>>,
    source: Result<Seq<char>, Seq<char>>,
    live_tick: u32,
    save_folder: Option<Seq<char>>,
)
    requires
        source is Err || load(source->Ok_0) is Err,
    ensures
        player.started(file, source, live_tick, save_folder) == (PlayerModel {
            state: PlayerState::Stopped,
            outbox: player.outbox.push(
                ActionModel::Send(
                    ReportModel::ParseErrors(
                        seq![
                            match source {
                                Err(reason) => reason,
                                Ok(text) => load(text)->Err_0.text(),
                            },
                        ],
                    ),
                ),
            ),
            ..player
        }),
{
}

/// A script that starts from a save file is not started where the
/// simulation has no directory for save files: the player is stopped and
/// otherwise as it was.
pub proof fn lemma_start_needs_the_save_folder(
    player: PlayerModel,
    file: Option<Seq<char>>,
    text: Seq<char>,
    live_tick: u32,
)
    requires
        load(text) is Ok,
        load(text)->Ok_0.start is Save,
    ensures
        player.started(file, Ok(text), live_tick, None) == player.stopped(),
{
}

/// Skipping is a view of the player, never a state of its own: the player
/// is told to be skipping exactly while it plays towards the tick to skip to
/// and is past the warm-up; otherwise it is told in the state that it is in.
pub proof fn lemma_skipping_is_derived(player: PlayerModel)
    ensures
        player.reported_state() == PlaybackState::Skipping <==> player.state
            == PlayerState::Playing && player.current_tick < player.skipto_tick
            && player.current_tick > WARM_UP_TICKS,
        player.reported_state() != PlaybackState::Skipping ==> player.reported_state()
            == player.state.named(),
{
}

/// To stop takes effect at once: after it the host never waits for a
/// message, whatever it was waiting for before.
pub proof fn lemma_stop_is_never_missed(player: PlayerModel)
    ensures
        player.handled(crate::communication::RequestModel::Stop).state == PlayerState::Stopped,
        player.handled(crate::communication::RequestModel::Stop).reported_state()
            == PlaybackState::Stopped,
        !player.handled(crate::communication::RequestModel::Stop).skipping(),
{
}

/// The record only ever grows at its end, and by one tick at most in a step
/// of the simulation: what was recorded stays where it is. A step changes
/// neither the clicks nor how the record is drawn.
pub proof fn lemma_record_only_grows(player: PlayerModel, game: GameSnapshot)
    ensures
        player.stepped(game).trace.ticks == player.trace.ticks || player.stepped(game).trace.ticks
            == player.trace.ticks.push(
            TraceTick { pos: game.pos, ang: game.ang, interact: game.interact },
        ),
        player.stepped(game).trace.clicks == player.trace.clicks,
        player.stepped(game).trace.options == player.trace.options,
        player.stepped(game).trace.ticks != player.trace.ticks ==> player.state
            != PlayerState::Stopped,
{
    let after = player.stepped(game).trace.ticks;
    if after != player.trace.ticks {
        assert(after.len() == player.trace.ticks.len() + 1);
    }
}

/// No message of the controller changes what was recorded; the options for
/// drawing change nothing but how the record is drawn.
pub proof fn lemma_messages_leave_the_record(
    player: PlayerModel,
    request: crate::communication::RequestModel,
)
    ensures
        player.handled(request).trace.ticks == player.trace.ticks,
        player.handled(request).trace.clicks == player.trace.clicks,
        player.handled(request).script == player.script,
        player.handled(request).next_line == player.next_line,
        player.handled(request).controller == player.controller,
{
}

impl PlayerModel {
    /// What holds of a player at all times: the script that it holds, if it
    /// holds one, can be played.
    pub open spec fn sound(self) -> bool {
        self.script is Some ==> playable(self.script->0)
    }
}

/// A player is sound from the start, and stays so whatever is done with it.
pub proof fn lemma_player_stays_sound(
    player: PlayerModel,
    game: GameSnapshot,
    request: crate::communication::RequestModel,
    file: Option<Seq<char>>,
    source: Result<Seq<char>, Seq<char>>,
    live_tick: u32,
    save_folder: Option<Seq<char>>,
)
    requires
        player.sound(),
    ensures
        PlayerModel::initial().sound(),
        player.stepped(game).sound(),
        player.handled(request).sound(),
        player.stopped().sound(),
        player.started(file, source, live_tick, save_folder).sound(),
{
    if source is Ok {
        let text = source->Ok_0;
        if load(text) is Ok {
            lemma_absolute_is_playable(crate::grammar::parse_text(text)->Ok_0);
        }
    }
}

/// Adds an action at the end of an outbox.
fn emit(outbox: &mut Vec<Action>, action: Action)
    ensures
        final(outbox).deep_view() == old(outbox).deep_view().push(action.deep_view()),
{
    let ghost before = outbox.deep_view();
    outbox.push(action);
    assert(outbox.deep_view() =~= before.push(action.deep_view()));
}

impl View for TasPlayer {
    type V = PlayerModel;

    closed spec fn view(&self) -> PlayerModel {
        PlayerModel {
            outbox: self.outbox.deep_view(),
            state: self.state,
            start_tick: self.start_tick,
            current_tick: self.current_tick,
            skipto_tick: self.skipto_tick,
            pauseat_tick: self.pauseat_tick,
            next_line: self.next_line as nat,
            script_name: self.script_name@,
            script: match self.script {
                Some(script) => Some(script.deep_view()),
                None => None,
            },
            controller: self.controller,
            trace: self.trace@,
        }
    }
}

impl TasPlayer {
    /// A player that has played nothing yet.
    pub fn new() -> (player: Self)
        ensures
            player@ == PlayerModel::initial(),
    {
        let player = TasPlayer {
            outbox: Vec::new(),
            state: PlayerState::Stopped,
            start_tick: 0,
            current_tick: 0,
            skipto_tick: 0,
            pauseat_tick: 0,
            next_line: 0,
            script_name: String::new(),
            script: None,
            controller: ControllerState::default(),
            trace: Playertrace::default(),
        };
        assert(player.outbox.deep_view() =~= Seq::<ActionModel>::empty());
        assert(player.script_name@ =~= Seq::<char>::empty());
        player
    }

    /// Where the script is read from that [`TasPlayer::start`] is to play for
    /// the same `file`: the script directory and the script's name.
    pub fn script_path(&self, file: &Option<String>) -> (path: String)
        ensures
            path@ == script_directory() + match file {
                Some(name) => name@,
                None => self@.script_name,
            },
    {
        let mut path: Vec<char> = Vec::new();
        push_str(&mut path, "./tas/");
        let name = match file {
            Some(name) => chars_of(name.as_str()),
            None => chars_of(self.script_name.as_str()),
        };
        push_all(&mut path, &name);
        string_of(&path)
    }

    /// Plays a script from its start; see [`PlayerModel::started`].
    pub fn start(
        &mut self,
        file: Option<String>,
        source: Result<String, String>,
        live_tick: u32,
        save_folder: Option<String>,
    )
        ensures
            final(self)@ == old(self)@.started(
                match file {
                    Some(name) => Some(name@),
                    None => None,
                },
                match source {
                    Ok(text) => Ok(text@),
                    Err(reason) => Err(reason@),
                },
                live_tick,
                match save_folder {
                    Some(folder) => Some(folder@),
                    None => None,
                },
            ),
    {
        self.stop();
        let text = match source {
            Ok(text) => text,
            Err(reason) => {
                let mut reasons: Vec<String> = Vec::new();
                reasons.push(reason);
                assert(reasons.deep_view() =~= seq![reason@]);
                emit(&mut self.outbox, Action::Send(TasToControllerMessage::ParseErrors(reasons)));
                return ;
            },
        };
        let script = match Script::try_from(text) {
            Ok(script) => script,
            Err(messages) => {
                emit(&mut self.outbox, Action::Send(TasToControllerMessage::ParseErrors(messages)));
                return ;
            },
        };
        let ghost before = self.outbox.deep_view();
        let ghost folder = match &save_folder {
            Some(folder) => Some(folder@),
            None => None,
        };
        match &script.start {
            StartType::Now => {},
            StartType::NewGame => {
                emit(&mut self.outbox, Action::RestartNewGame);
            },
            StartType::Save(path) => {
                let folder = match save_folder {
                    Some(folder) => folder,
                    None => {
                        return ;
                    },
                };
                let mut full: Vec<char> = chars_of(folder.as_str());
                full.push('\\');
                let name = chars_of(path.as_str());
                push_all(&mut full, &name);
                assert(full@ =~= save_path(folder@, path@));
                emit(&mut self.outbox, Action::LoadSave(string_of(&full)));
            },
        }
        assert(self.outbox.deep_view() =~= before + start_actions(
            script.deep_view().start,
            folder,
        ));
        match file {
            Some(name) => {
                self.script_name = name;
            },
            None => {},
        }
        self.script = Some(script);
        self.controller = ControllerState::default();
        self.start_tick = live_tick;
        self.current_tick = 0;
        self.next_line = 0;
        self.state = PlayerState::Playing;
        self.trace.clear();
    }

    /// Stops playing. The script, the position in it and the record stay.
    pub fn stop(&mut self)
        ensures
            final(self)@ == old(self)@.stopped(),
    {
        self.state = PlayerState::Stopped;
    }

    /// Takes a step of the simulation and gives the input signals that the
    /// step is to use, if the player runs; see [`PlayerModel::stepped`].
    pub fn get_controller(&mut self, game: &GameSnapshot) -> (input: Option<ControllerState>)
        ensures
            final(self)@ == old(self)@.stepped(*game),
            input == old(self)@.step_input(*game),
    {
        let reported = self.get_playback_state();
        emit(
            &mut self.outbox,
            Action::Send(TasToControllerMessage::CarlInfo { pos: game.pos, ang: game.ang }),
        );
        emit(&mut self.outbox, Action::Send(TasToControllerMessage::PlaybackState(reported)));
        if self.state == PlayerState::Stopped {
            return None;
        }
        let lines = match &self.script {
            Some(script) => script.lines.len(),
            None => {
                return None;
            },
        };
        if self.next_line >= lines {
            self.stop();
            return None;
        }
        let tick = game.tick.wrapping_sub(self.start_tick);
        if self.current_tick != tick {
            emit(&mut self.outbox, Action::Send(TasToControllerMessage::CurrentTick(tick)));
            if tick == self.pauseat_tick {
                self.state = PlayerState::Paused;
                emit(
                    &mut self.outbox,
                    Action::Send(TasToControllerMessage::PlaybackState(PlaybackState::Paused)),
                );
            }
            self.trace.push(game.pos, game.ang, game.interact);
            self.current_tick = tick;
            match &self.script {
                Some(script) => {
                    let line = &script.lines[self.next_line];
                    if line.tick == tick {
                        self.controller.advance(Some(line));
                        self.next_line += 1;
                    } else {
                        self.controller.advance(None);
                    }
                },
                None => {},
            }
        }
        Some(self.controller)
    }

    /// Whether the host is to wait for the next message of the controller
    /// where none waits: only while the player is paused, and only where the
    /// host may block the simulation.
    pub fn must_wait(&self, block: bool) -> (wait: bool)
        ensures
            wait == (block && self@.state == PlayerState::Paused),
    {
        block && self.state == PlayerState::Paused
    }

    /// Takes a message from the controller; see [`PlayerModel::handled`] and
    /// [`PlayerModel::directive`].
    pub fn handle_message(&mut self, message: ControllerToTasMessage) -> (directive: Directive)
        ensures
            final(self)@ == old(self)@.handled(message.deep_view()),
            directive.deep_view() == old(self)@.directive(message.deep_view()),
    {
        match message {
            ControllerToTasMessage::PlayFile(name) => {
                if self.state == PlayerState::Paused {
                    self.state = PlayerState::Playing;
                    Directive::Continue
                } else {
                    Directive::Load(name)
                }
            },
            ControllerToTasMessage::Stop => {
                self.stop();
                Directive::Continue
            },
            ControllerToTasMessage::SkipTo(tick) => {
                self.skipto_tick = tick;
                Directive::Continue
            },
            ControllerToTasMessage::PauseAt(tick) => {
                self.pauseat_tick = tick;
                Directive::Continue
            },
            ControllerToTasMessage::AdvanceFrame => {
                self.state = PlayerState::Paused;
                Directive::Yield
            },
            ControllerToTasMessage::TeleportToTick(tick) => {
                if self.state == PlayerState::Stopped {
                    match self.trace.teleport_tick(tick) {
                        Some((pos, ang)) => {
                            emit(&mut self.outbox, Action::WriteTransform { pos, ang });
                        },
                        None => {},
                    }
                }
                Directive::Continue
            },
            ControllerToTasMessage::TraceOptions(options) => {
                self.trace.set_draw_option(options);
                Directive::Continue
            },
        }
    }

    /// Records a click on a puzzle. The simulation reports a click one step
    /// after it took the input, so the click belongs to the tick before the
    /// simulation's count.
    pub fn add_puzzle_click(&mut self, live_tick: u32, cam_pos: Vec3, click_dir: Vec3)
        ensures
            final(self)@ == (PlayerModel {
                trace: TraceModel {
                    clicks: old(self)@.trace.clicks.insert(
                        ticks_since(ticks_since(live_tick, old(self)@.start_tick), 1),
                        (cam_pos, click_dir),
                    ),
                    ..old(self)@.trace
                },
                ..old(self)@
            }),
    {
        let tick = live_tick.wrapping_sub(self.start_tick).wrapping_sub(1);
        self.trace.add_puzzle_click(tick, cam_pos, click_dir);
    }

    /// Tells the controller that a puzzle was unlocked on the tick of the
    /// simulation's count.
    pub fn send_puzzle_unlock(&mut self, live_tick: u32)
        ensures
            final(self)@ == old(self)@.with_report(
                ReportModel::PuzzleUnlock(ticks_since(live_tick, old(self)@.start_tick)),
            ),
    {
        let tick = live_tick.wrapping_sub(self.start_tick);
        emit(&mut self.outbox, Action::Send(TasToControllerMessage::PuzzleUnlock(tick)));
    }

    /// Whether the simulation should run without pacing and drawing.
    pub fn should_do_skipping(&self) -> (skip: bool)
        ensures
            skip == self@.skipping(),
    {
        self.state == PlayerState::Playing && self.current_tick < self.skipto_tick
            && self.current_tick > WARM_UP_TICKS
    }

    /// The state of the playback as the controller is told it.
    pub fn get_playback_state(&self) -> (state: PlaybackState)
        ensures
            state == self@.reported_state(),
    {
        if self.should_do_skipping() {
            PlaybackState::Skipping
        } else {
            self.state.named()
        }
    }

    /// The record of the run.
    pub fn trace(&self) -> (trace: &Playertrace)
        ensures
            trace@ == self@.trace,
    {
        &self.trace
    }

    /// The last tick of the run that was played.
    pub fn get_current_tick(&self) -> (tick: u32)
        ensures
            tick == self@.current_tick,
    {
        self.current_tick
    }

    /// Hands the actions that wait in the outbox to the host, oldest first.
    pub fn take_actions(&mut self) -> (actions: Vec<Action>)
        ensures
            actions.deep_view() == old(self)@.outbox,
            final(self)@ == (PlayerModel { outbox: Seq::empty(), ..old(self)@ }),
    {
        let mut actions: Vec<Action> = Vec::new();
        core::mem::swap(&mut actions, &mut self.outbox);
        assert(self.outbox.deep_view() =~= Seq::<ActionModel>::empty());
        actions
    }
}

} // verus!
