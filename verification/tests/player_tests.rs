use witness_tas::communication::{ControllerToTasMessage, TasToControllerMessage};
use witness_tas::controller::{ControllerState, HalfControllerState};
use witness_tas::script::ScriptLine;
use witness_tas::tas::{PlaybackState, TraceDrawOptions, TraceInterval};
use witness_tas::tas_player::{Action, Directive, GameSnapshot, TasPlayer};
use witness_tas::witness_types::{InteractionStatus, Scalar, Vec2, Vec3};

fn vec3(x: f32, y: f32, z: f32) -> Vec3 {
    Vec3 {
        x: Scalar { bits: x.to_bits() },
        y: Scalar { bits: y.to_bits() },
        z: Scalar { bits: z.to_bits() },
    }
}

fn vec2(x: f32, y: f32) -> Vec2 {
    Vec2 { x: Scalar { bits: x.to_bits() }, y: Scalar { bits: y.to_bits() } }
}

fn game(tick: u32) -> GameSnapshot {
    GameSnapshot {
        tick,
        pos: vec3(tick as f32, 2.0, 3.0),
        ang: vec2(0.5, -0.5),
        interact: InteractionStatus::Walking,
    }
}

fn started(text: &str, live_tick: u32) -> TasPlayer {
    let mut player = TasPlayer::new();
    player.start(
        Some("run.wtas".to_string()),
        Ok(text.to_string()),
        live_tick,
        Some("C:\\saves".to_string()),
    );
    player
}

fn reports(actions: Vec<Action>) -> Vec<TasToControllerMessage> {
    actions
        .into_iter()
        .filter_map(|action| match action {
            Action::Send(message) => Some(message),
            _ => None,
        })
        .collect()
}

fn same_half(a: &HalfControllerState, b: &HalfControllerState) -> bool {
    a.forward == b.forward
        && a.backward == b.backward
        && a.left == b.left
        && a.right == b.right
        && a.running == b.running
        && a.mouse_pos == b.mouse_pos
        && a.left_click == b.left_click
        && a.right_click == b.right_click
}

fn same(a: &ControllerState, b: &ControllerState) -> bool {
    same_half(&a.current, &b.current) && same_half(&a.previous, &b.previous)
}

#[test]
fn new_player_is_stopped() {
    let mut player = TasPlayer::new();
    assert_eq!(player.get_playback_state(), PlaybackState::Stopped);
    assert_eq!(player.get_current_tick(), 0);
    assert!(!player.should_do_skipping());
    assert!(player.take_actions().is_empty());
    assert!(player.get_controller(&game(5)).is_none());
    assert_eq!(player.trace().len(), 0);
}

#[test]
fn end_to_end_playback() {
    let mut player = started("version 0\nstart now\n1>U\n3>u|5 -2\n", 100);
    assert_eq!(player.get_playback_state(), PlaybackState::Playing);
    assert!(player.take_actions().is_empty());

    let at0 = player.get_controller(&game(100)).unwrap();
    assert!(!at0.current.forward);

    let at1 = player.get_controller(&game(101)).unwrap();
    assert!(at1.current.forward);
    assert!(!at1.previous.forward);
    assert_eq!(player.get_current_tick(), 1);

    let at2 = player.get_controller(&game(102)).unwrap();
    assert!(at2.current.forward);
    assert!(at2.previous.forward);
    assert_eq!(at2.current.mouse_pos, (0, 0));

    let at3 = player.get_controller(&game(103)).unwrap();
    assert!(!at3.current.forward);
    assert!(at3.previous.forward);
    assert_eq!(at3.current.mouse_pos, (5, -2));
    assert_eq!(at3.previous.mouse_pos, (0, 0));
    assert_eq!(player.get_playback_state(), PlaybackState::Playing);

    assert!(player.get_controller(&game(104)).is_none());
    assert_eq!(player.get_playback_state(), PlaybackState::Stopped);
    assert_eq!(player.trace().len(), 3);
}

#[test]
fn same_tick_is_played_once() {
    let mut player = started("version 0\nstart now\n1>UP|7 8\n9>u\n", 10);
    let first = player.get_controller(&game(11)).unwrap();
    let recorded = player.trace().len();
    let second = player.get_controller(&game(11)).unwrap();
    let third = player.get_controller(&game(11)).unwrap();
    assert!(same(&first, &second));
    assert!(same(&first, &third));
    assert!(first.current.left_click);
    assert_eq!(player.trace().len(), recorded);
    assert_eq!(player.get_current_tick(), 1);
    let next = player.get_controller(&game(12)).unwrap();
    assert!(next.current.forward);
    assert!(!next.current.left_click);
}

#[test]
fn click_is_a_pulse() {
    let mut player = started("version 0\nstart now\n2>P\n5>p\n6>Pp\n7>P\n20>\n", 0);
    assert!(!player.get_controller(&game(1)).unwrap().current.left_click);
    let at2 = player.get_controller(&game(2)).unwrap();
    assert!(at2.current.left_click && !at2.previous.left_click);
    let at3 = player.get_controller(&game(3)).unwrap();
    assert!(!at3.current.left_click && at3.previous.left_click);
    let at4 = player.get_controller(&game(4)).unwrap();
    assert!(!at4.current.left_click && !at4.previous.left_click);
    let at5 = player.get_controller(&game(5)).unwrap();
    assert!(at5.current.right_click && !at5.current.left_click);
    let at6 = player.get_controller(&game(6)).unwrap();
    assert!(at6.current.right_click && at6.current.left_click);
    let at7 = player.get_controller(&game(7)).unwrap();
    assert!(!at7.current.right_click && at7.current.left_click);
    let at8 = player.get_controller(&game(8)).unwrap();
    assert!(!at8.current.right_click && !at8.current.left_click);
}

#[test]
fn every_key_letter_sets_its_signal() {
    let idle = HalfControllerState::default();
    assert!(idle.press('U').forward);
    assert!(idle.press('D').backward);
    assert!(idle.press('L').left);
    assert!(idle.press('R').right);
    assert!(idle.press('S').running);
    assert!(idle.press('P').left_click);
    assert!(idle.press('p').right_click);
    assert!(!idle.press('p').left_click);
    let held = idle.press_all(&vec!['U', 'D', 'L', 'R', 'S']);
    assert!(held.forward && held.backward && held.left && held.right && held.running);
    assert!(!held.press('u').forward);
    assert!(!held.press('d').backward);
    assert!(!held.press('l').left);
    assert!(!held.press('r').right);
    assert!(!held.press('s').running);
    assert!(same_half(&held.press('x'), &held));
    let last_wins = idle.press_all(&vec!['U', 'u', 'S', 's', 'S']);
    assert!(!last_wins.forward && last_wins.running);
}

#[test]
fn advance_without_a_line_releases_the_buttons() {
    let mut state = ControllerState::default();
    let line = ScriptLine {
        relative: false,
        tick: 1,
        keys: vec!['P', 'p', 'U'],
        mouse: Some((-3, 4)),
        tools: None,
    };
    state.advance(Some(&line));
    assert!(state.current.left_click && state.current.right_click && state.current.forward);
    assert_eq!(state.current.mouse_pos, (-3, 4));
    assert!(!state.previous.left_click);
    state.advance(None);
    assert!(!state.current.left_click && !state.current.right_click);
    assert!(state.current.forward);
    assert_eq!(state.current.mouse_pos, (-3, 4));
    assert!(state.previous.left_click && state.previous.right_click);
}

#[test]
fn step_reports_transform_state_and_tick() {
    let mut player = started("version 0\nstart now\n1>U\n9>u\n", 50);
    player.get_controller(&game(51));
    let sent = reports(player.take_actions());
    assert_eq!(sent.len(), 3);
    match &sent[0] {
        TasToControllerMessage::CarlInfo { pos, ang } => {
            assert_eq!(f32::from_bits(pos.x.bits), 51.0);
            assert_eq!(f32::from_bits(pos.y.bits), 2.0);
            assert_eq!(f32::from_bits(pos.z.bits), 3.0);
            assert_eq!(f32::from_bits(ang.x.bits), 0.5);
            assert_eq!(f32::from_bits(ang.y.bits), -0.5);
        }
        other => panic!("{other:?}"),
    }
    assert!(matches!(sent[1], TasToControllerMessage::PlaybackState(PlaybackState::Playing)));
    assert!(matches!(sent[2], TasToControllerMessage::CurrentTick(1)));
    player.get_controller(&game(51));
    assert_eq!(reports(player.take_actions()).len(), 2);
    assert!(player.take_actions().is_empty());
}

#[test]
fn stopped_player_only_reports() {
    let mut player = TasPlayer::new();
    assert!(player.get_controller(&game(3)).is_none());
    let sent = reports(player.take_actions());
    assert_eq!(sent.len(), 2);
    assert!(matches!(sent[0], TasToControllerMessage::CarlInfo { .. }));
    assert!(matches!(sent[1], TasToControllerMessage::PlaybackState(PlaybackState::Stopped)));
    assert_eq!(player.trace().len(), 0);
}

#[test]
fn pause_tick_pauses() {
    let mut player = started("version 0\nstart now\n1>U\n9>u\n", 0);
    assert!(matches!(
        player.handle_message(ControllerToTasMessage::PauseAt(2)),
        Directive::Continue
    ));
    player.get_controller(&game(1));
    assert_eq!(player.get_playback_state(), PlaybackState::Playing);
    player.take_actions();
    let at2 = player.get_controller(&game(2)).unwrap();
    assert!(at2.current.forward);
    assert_eq!(player.get_playback_state(), PlaybackState::Paused);
    let sent = reports(player.take_actions());
    assert_eq!(sent.len(), 4);
    assert!(matches!(sent[2], TasToControllerMessage::CurrentTick(2)));
    assert!(matches!(sent[3], TasToControllerMessage::PlaybackState(PlaybackState::Paused)));
    assert!(player.must_wait(true));
    assert!(!player.must_wait(false));
    assert!(matches!(
        player.handle_message(ControllerToTasMessage::PlayFile("other".to_string())),
        Directive::Continue
    ));
    assert_eq!(player.get_playback_state(), PlaybackState::Playing);
    assert!(!player.must_wait(true));
}

#[test]
fn advance_frame_pauses_and_yields() {
    let mut player = started("version 0\nstart now\n1>U\n9>u\n", 0);
    assert!(matches!(
        player.handle_message(ControllerToTasMessage::AdvanceFrame),
        Directive::Yield
    ));
    assert_eq!(player.get_playback_state(), PlaybackState::Paused);
    assert!(player.get_controller(&game(1)).unwrap().current.forward);
    assert_eq!(player.get_playback_state(), PlaybackState::Paused);
    assert_eq!(player.get_current_tick(), 1);
}

#[test]
fn stop_takes_effect_at_once() {
    let mut player = started("version 0\nstart now\n1>U\n9>u\n", 0);
    player.handle_message(ControllerToTasMessage::AdvanceFrame);
    assert!(player.must_wait(true));
    assert!(matches!(player.handle_message(ControllerToTasMessage::Stop), Directive::Continue));
    assert!(!player.must_wait(true));
    assert_eq!(player.get_playback_state(), PlaybackState::Stopped);
    assert!(player.get_controller(&game(1)).is_none());
    assert_eq!(player.trace().len(), 0);
}

#[test]
fn play_file_asks_for_the_script_unless_paused() {
    let mut player = TasPlayer::new();
    match player.handle_message(ControllerToTasMessage::PlayFile("a.wtas".to_string())) {
        Directive::Load(name) => assert_eq!(name, "a.wtas"),
        other => panic!("{other:?}"),
    }
    assert_eq!(player.get_playback_state(), PlaybackState::Stopped);
    assert_eq!(player.script_path(&Some("a.wtas".to_string())), "./tas/a.wtas");
    assert_eq!(player.script_path(&None), "./tas/");
    player.start(Some("a.wtas".to_string()), Ok("version 0 start now 1>".to_string()), 7, None);
    assert_eq!(player.script_path(&None), "./tas/a.wtas");
    assert_eq!(player.get_playback_state(), PlaybackState::Playing);
    match player.handle_message(ControllerToTasMessage::PlayFile("b.wtas".to_string())) {
        Directive::Load(name) => assert_eq!(name, "b.wtas"),
        other => panic!("{other:?}"),
    }
    assert_eq!(player.get_playback_state(), PlaybackState::Playing);
}

#[test]
fn skipping_is_reported_not_stored() {
    let mut player = started("version 0\nstart now\n1>U\n500>u\n", 0);
    player.handle_message(ControllerToTasMessage::SkipTo(100));
    assert_eq!(player.get_playback_state(), PlaybackState::Playing);
    assert!(!player.should_do_skipping());
    for tick in 1..=60 {
        player.get_controller(&game(tick));
        assert!(!player.should_do_skipping());
        assert_eq!(player.get_playback_state(), PlaybackState::Playing);
    }
    player.take_actions();
    player.get_controller(&game(61));
    assert!(player.should_do_skipping());
    assert_eq!(player.get_playback_state(), PlaybackState::Skipping);
    let sent = reports(player.take_actions());
    assert!(matches!(sent[1], TasToControllerMessage::PlaybackState(PlaybackState::Playing)));
    player.get_controller(&game(62));
    let sent = reports(player.take_actions());
    assert!(matches!(sent[1], TasToControllerMessage::PlaybackState(PlaybackState::Skipping)));
    player.get_controller(&game(99));
    assert!(player.should_do_skipping());
    assert_eq!(player.get_playback_state(), PlaybackState::Skipping);
    player.get_controller(&game(100));
    assert!(!player.should_do_skipping());
    assert_eq!(player.get_playback_state(), PlaybackState::Playing);
    player.handle_message(ControllerToTasMessage::SkipTo(200));
    assert_eq!(player.get_playback_state(), PlaybackState::Skipping);
    player.handle_message(ControllerToTasMessage::AdvanceFrame);
    assert!(!player.should_do_skipping());
    assert_eq!(player.get_playback_state(), PlaybackState::Paused);
    player.handle_message(ControllerToTasMessage::Stop);
    assert!(!player.should_do_skipping());
    assert_eq!(player.get_playback_state(), PlaybackState::Stopped);
}

#[test]
fn failed_load_reports_once_and_stays_stopped() {
    let mut player = TasPlayer::new();
    player.start(Some("gone".to_string()), Err("No such file".to_string()), 5, None);
    assert_eq!(player.get_playback_state(), PlaybackState::Stopped);
    let sent = reports(player.take_actions());
    assert_eq!(sent.len(), 1);
    match &sent[0] {
        TasToControllerMessage::ParseErrors(errors) => {
            assert_eq!(errors, &vec!["No such file".to_string()])
        }
        other => panic!("{other:?}"),
    }
    assert_eq!(player.script_path(&None), "./tas/");
    player.start(None, Ok("version 0\nstart now\n2>\n1>\n".to_string()), 5, None);
    assert_eq!(player.get_playback_state(), PlaybackState::Stopped);
    let sent = reports(player.take_actions());
    assert_eq!(sent.len(), 1);
    match &sent[0] {
        TasToControllerMessage::ParseErrors(errors) => {
            assert_eq!(errors, &vec!["Expected tick bigger than 2.".to_string()])
        }
        other => panic!("{other:?}"),
    }
    player.start(None, Ok("version 0\nstart now\nx\n".to_string()), 5, None);
    match &reports(player.take_actions())[0] {
        TasToControllerMessage::ParseErrors(errors) => {
            assert_eq!(errors, &vec!["line 3: expected a line".to_string()])
        }
        other => panic!("{other:?}"),
    }
    assert!(player.get_controller(&game(6)).is_none());
    player.handle_message(ControllerToTasMessage::AdvanceFrame);
    assert!(player.get_controller(&game(7)).is_none());
}

#[test]
fn failed_load_leaves_the_player_as_it_was() {
    let mut player = started("version 0\nstart now\n1>U\n9>u\n", 0);
    player.get_controller(&game(1));
    player.get_controller(&game(2));
    player.handle_message(ControllerToTasMessage::SkipTo(7));
    player.handle_message(ControllerToTasMessage::PauseAt(8));
    assert_eq!(player.trace().len(), 2);
    player.take_actions();
    for source in [Err("unreadable".to_string()), Ok("version 0\nstart newgame\n".to_string())] {
        player.start(Some("other.wtas".to_string()), source, 40, Some("C:\\saves".to_string()));
        assert_eq!(player.get_playback_state(), PlaybackState::Stopped);
        let actions = player.take_actions();
        assert_eq!(actions.len(), 1);
        assert!(matches!(
            actions[0],
            Action::Send(TasToControllerMessage::ParseErrors(_))
        ));
        assert_eq!(player.trace().len(), 2);
        assert_eq!(player.get_current_tick(), 2);
        assert_eq!(player.script_path(&None), "./tas/run.wtas");
    }
    // The script that was held is still there, with its position and its signals.
    player.handle_message(ControllerToTasMessage::PlayFile("ignored".to_string()));
    assert_eq!(player.get_playback_state(), PlaybackState::Stopped);
    player.handle_message(ControllerToTasMessage::AdvanceFrame);
    let at3 = player.get_controller(&game(3)).unwrap();
    assert!(at3.current.forward && at3.previous.forward);
    assert_eq!(player.trace().len(), 3);
    for tick in 4..=8 {
        assert!(player.get_controller(&game(tick)).unwrap().current.forward);
    }
    assert!(!player.get_controller(&game(9)).unwrap().current.forward);
    assert!(player.get_controller(&game(10)).is_none());
}

#[test]
fn start_tells_the_simulation_how_to_begin() {
    let mut player = started("version 0\nstart newgame\n1>\n", 0);
    let actions = player.take_actions();
    assert_eq!(actions.len(), 1);
    assert!(matches!(actions[0], Action::RestartNewGame));
    let mut player = started("version 0\nstart save slots/one.sav\n1>\n", 0);
    let actions = player.take_actions();
    assert_eq!(actions.len(), 1);
    match &actions[0] {
        Action::LoadSave(path) => assert_eq!(path, "C:\\saves\\slots/one.sav"),
        other => panic!("{other:?}"),
    }
    assert_eq!(player.get_playback_state(), PlaybackState::Playing);
}

#[test]
fn start_from_a_save_needs_the_save_folder() {
    let mut player = started("version 0\nstart now\n1>U\n9>u\n", 0);
    player.get_controller(&game(1));
    player.take_actions();
    player.start(
        Some("saved.wtas".to_string()),
        Ok("version 0\nstart save slots/one.sav\n1>D\n".to_string()),
        50,
        None,
    );
    assert!(player.take_actions().is_empty());
    assert_eq!(player.get_playback_state(), PlaybackState::Stopped);
    assert_eq!(player.script_path(&None), "./tas/run.wtas");
    assert_eq!(player.trace().len(), 1);
    assert_eq!(player.get_current_tick(), 1);
    // Without need of the folder the same start goes through.
    player.start(None, Ok("version 0\nstart newgame\n1>D\n".to_string()), 50, None);
    assert_eq!(player.get_playback_state(), PlaybackState::Playing);
    assert_eq!(player.trace().len(), 0);
}

#[test]
fn restart_clears_the_run() {
    let mut player = started("version 0\nstart now\n1>U\n9>u\n", 0);
    player.get_controller(&game(1));
    player.add_puzzle_click(2, vec3(1.0, 1.0, 1.0), vec3(0.0, 0.0, 1.0));
    assert_eq!(player.trace().len(), 1);
    player.start(None, Ok("version 0\nstart now\n1>D\n".to_string()), 1000, None);
    assert_eq!(player.trace().len(), 0);
    assert!(player.trace().get_puzzle_clicks().is_empty());
    assert_eq!(player.get_current_tick(), 0);
    let at1 = player.get_controller(&game(1001)).unwrap();
    assert!(at1.current.backward && !at1.current.forward && !at1.previous.forward);
}

#[test]
fn tick_counter_wraps() {
    let mut player = started("version 0\nstart now\n2>U\n9>u\n", u32::MAX);
    assert!(!player.get_controller(&game(0)).unwrap().current.forward);
    assert_eq!(player.get_current_tick(), 1);
    assert!(player.get_controller(&game(1)).unwrap().current.forward);
    assert_eq!(player.get_current_tick(), 2);
    player.take_actions();
    player.send_puzzle_unlock(4);
    assert!(matches!(
        reports(player.take_actions())[0],
        TasToControllerMessage::PuzzleUnlock(5)
    ));
}

#[test]
fn teleport_is_honoured_only_while_stopped_and_inside_the_record() {
    let mut player = started("version 0\nstart now\n1>U\n9>u\n", 0);
    player.get_controller(&game(1));
    player.get_controller(&game(2));
    player.take_actions();
    player.handle_message(ControllerToTasMessage::TeleportToTick(0));
    assert!(player.take_actions().is_empty());
    player.handle_message(ControllerToTasMessage::Stop);
    player.handle_message(ControllerToTasMessage::TeleportToTick(2));
    player.handle_message(ControllerToTasMessage::TeleportToTick(u32::MAX));
    assert!(player.take_actions().is_empty());
    assert_eq!(player.trace().len(), 2);
    assert_eq!(player.get_playback_state(), PlaybackState::Stopped);
    player.handle_message(ControllerToTasMessage::TeleportToTick(1));
    let actions = player.take_actions();
    assert_eq!(actions.len(), 1);
    match &actions[0] {
        Action::WriteTransform { pos, ang } => {
            assert_eq!(f32::from_bits(pos.x.bits), 2.0);
            assert_eq!(f32::from_bits(ang.y.bits), -0.5);
        }
        other => panic!("{other:?}"),
    }
}

#[test]
fn trace_options_replace_the_window() {
    let mut player = started("version 0\nstart now\n1>U\n99>u\n", 0);
    for tick in 1..=10 {
        player.get_controller(&game(tick));
    }
    let mut options = TraceDrawOptions::default();
    options.interval = TraceInterval::First(4);
    player.handle_message(ControllerToTasMessage::TraceOptions(options));
    assert_eq!(player.trace().get_interval(), 0..4);
    assert_eq!(player.trace().len(), 10);
    assert_eq!(player.get_playback_state(), PlaybackState::Playing);
}

#[test]
fn puzzle_clicks_belong_to_the_tick_before() {
    let mut player = started("version 0\nstart now\n1>U\n99>u\n", 100);
    for tick in 101..=105 {
        player.get_controller(&game(tick));
    }
    player.add_puzzle_click(104, vec3(1.0, 2.0, 3.0), vec3(0.0, 1.0, 0.0));
    let mut options = TraceDrawOptions::default();
    options.interval = TraceInterval::Between(3, 4);
    player.handle_message(ControllerToTasMessage::TraceOptions(options));
    assert_eq!(player.trace().get_puzzle_clicks().len(), 1);
    options.interval = TraceInterval::Between(4, 5);
    player.handle_message(ControllerToTasMessage::TraceOptions(options));
    assert!(player.trace().get_puzzle_clicks().is_empty());
}
