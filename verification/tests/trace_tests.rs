use witness_tas::hooks::{
    all_succeeded, click_message, disable_hooks, enable_hooks, focus_override, forwards_message,
    frame_rest, hotkey, input_events, Hook, Hotkey, InputEvent,
};
use witness_tas::communication::TasToControllerMessage;
use witness_tas::controller::ControllerState;
use witness_tas::interface::{scrolled, InterfaceState};
use witness_tas::tas::{to_time, PlaybackState, TraceDrawOptions, TraceInterval};
use witness_tas::text::{chars_of, string_of};
use witness_tas::trace::Playertrace;
use witness_tas::windows_types::{Message, VirtualKeyCode, MSG, POINT};
use witness_tas::witness_types::{click_color, InteractionStatus, Scalar, Vec2, Vec3};

fn scalar(x: f32) -> Scalar {
    Scalar { bits: x.to_bits() }
}

fn point(x: f32) -> Vec3 {
    Vec3 { x: scalar(x), y: scalar(0.0), z: scalar(0.0) }
}

fn trace_of(len: u32, interval: TraceInterval) -> Playertrace {
    let mut trace = Playertrace::default();
    for tick in 0..len {
        trace.push(
            point(tick as f32),
            Vec2 { x: scalar(0.0), y: scalar(tick as f32) },
            InteractionStatus::Walking,
        );
    }
    let mut options = trace.options();
    options.interval = interval;
    trace.set_draw_option(options);
    trace
}

fn shown(trace: &Playertrace) -> Vec<f32> {
    trace.get_pos_to_show().iter().map(|tick| f32::from_bits(tick.pos.x.bits)).collect()
}

#[test]
fn windows_of_ten_ticks() {
    assert_eq!(trace_of(10, TraceInterval::Last(3)).get_interval(), 7..10);
    assert_eq!(trace_of(10, TraceInterval::First(3)).get_interval(), 0..3);
    assert_eq!(trace_of(10, TraceInterval::Between(5, 2)).get_interval(), 5..5);
    assert!(trace_of(10, TraceInterval::Between(5, 2)).get_pos_to_show().is_empty());
    assert_eq!(shown(&trace_of(10, TraceInterval::Last(3))), vec![7.0, 8.0, 9.0]);
    assert_eq!(shown(&trace_of(10, TraceInterval::First(3))), vec![0.0, 1.0, 2.0]);
    assert_eq!(shown(&trace_of(10, TraceInterval::Between(2, 5))), vec![2.0, 3.0, 4.0]);
}

#[test]
fn windows_never_end_behind_the_record() {
    assert_eq!(trace_of(10, TraceInterval::First(30)).get_interval(), 0..10);
    assert_eq!(trace_of(10, TraceInterval::Last(30)).get_interval(), 0..10);
    assert_eq!(trace_of(10, TraceInterval::Last(0)).get_interval(), 10..10);
    assert_eq!(trace_of(10, TraceInterval::First(0)).get_interval(), 0..0);
    assert_eq!(trace_of(10, TraceInterval::Between(8, 30)).get_interval(), 8..10);
    assert_eq!(trace_of(10, TraceInterval::Between(12, 30)).get_interval(), 12..10);
    assert!(trace_of(10, TraceInterval::Between(12, 30)).get_pos_to_show().is_empty());
    assert!(trace_of(10, TraceInterval::Between(12, 30)).get_puzzle_clicks().is_empty());
    assert_eq!(trace_of(0, TraceInterval::Last(100)).get_interval(), 0..0);
    assert!(trace_of(0, TraceInterval::Last(100)).get_pos_to_show().is_empty());
    assert_eq!(shown(&trace_of(3, TraceInterval::Between(0, u32::MAX))), vec![0.0, 1.0, 2.0]);
}

#[test]
fn default_trace_shows_the_last_hundred() {
    let mut trace = Playertrace::default();
    assert_eq!(trace.len(), 0);
    for tick in 0..250 {
        trace.push(point(tick as f32), Vec2 { x: scalar(0.0), y: scalar(0.0) }, InteractionStatus::FocusMode);
    }
    assert_eq!(trace.get_interval(), 150..250);
    assert_eq!(trace.get_pos_to_show().len(), 100);
    assert!(matches!(trace.get_pos_to_show()[0].interact, InteractionStatus::FocusMode));
}

#[test]
fn default_draw_options() {
    let options = TraceDrawOptions::default();
    assert_eq!(f32::from_bits(options.sphere_radius.bits), 0.05);
    assert_eq!(f32::from_bits(options.z_offset.bits), 0.0);
    assert_eq!(f32::from_bits(options.puzzle_click_indicator_distance_multiplier.bits), 0.0);
    assert_eq!(f32::from_bits(options.puzzle_click_indicator_radius.bits), 0.01);
    assert_eq!(options.interval, TraceInterval::Last(100));
    assert_eq!(TraceInterval::default(), TraceInterval::Last(100));
}

#[test]
fn variant_names() {
    assert_eq!(TraceInterval::First(3).variant_name_simple(), "First");
    assert_eq!(TraceInterval::Last(3).variant_name_simple(), "Last");
    assert_eq!(TraceInterval::Between(3, 4).variant_name_simple(), "Between");
}

#[test]
fn teleport_gives_the_recorded_transform() {
    let trace = trace_of(10, TraceInterval::Last(3));
    let (pos, ang) = trace.teleport_tick(4).unwrap();
    assert_eq!(f32::from_bits(pos.x.bits), 4.0);
    assert_eq!(f32::from_bits(ang.y.bits), 4.0);
    assert!(trace.teleport_tick(0).is_some());
    assert!(trace.teleport_tick(9).is_some());
    assert!(trace.teleport_tick(10).is_none());
    assert!(trace.teleport_tick(u32::MAX).is_none());
    assert_eq!(trace.len(), 10);
    assert!(Playertrace::default().teleport_tick(0).is_none());
}

#[test]
fn clicks_are_shown_in_tick_order_and_the_last_on_a_tick_wins() {
    let mut trace = trace_of(10, TraceInterval::Between(2, 8));
    trace.add_puzzle_click(7, point(70.0), point(0.0));
    trace.add_puzzle_click(2, point(20.0), point(0.0));
    trace.add_puzzle_click(5, point(50.0), point(0.0));
    trace.add_puzzle_click(5, point(55.0), point(1.0));
    trace.add_puzzle_click(8, point(80.0), point(0.0));
    trace.add_puzzle_click(1, point(10.0), point(0.0));
    let clicks: Vec<f32> =
        trace.get_puzzle_clicks().iter().map(|(cam, _)| f32::from_bits(cam.x.bits)).collect();
    assert_eq!(clicks, vec![20.0, 55.0, 70.0]);
    assert_eq!(f32::from_bits(trace.get_puzzle_clicks()[1].1.x.bits), 1.0);
    trace.clear();
    assert_eq!(trace.len(), 0);
    assert!(trace.get_puzzle_clicks().is_empty());
    assert_eq!(trace.options().interval, TraceInterval::Between(2, 8));
}

#[test]
fn times_are_written_in_minutes_and_seconds() {
    assert_eq!(to_time(0), "0m 0.00s");
    assert_eq!(to_time(1), "0m 0.02s");
    assert_eq!(to_time(2), "0m 0.03s");
    assert_eq!(to_time(90), "0m 1.50s");
    assert_eq!(to_time(599), "0m 9.98s");
    assert_eq!(to_time(600), "0m10.00s");
    assert_eq!(to_time(3599), "0m59.98s");
    assert_eq!(to_time(3600), "1m 0.00s");
    assert_eq!(to_time(3600 * 75 + 61), "75m 1.02s");
    assert_eq!(to_time(u32::MAX), "1193046m28.25s");
}

#[test]
fn times_are_those_of_single_precision_arithmetic_on_runs_of_hours() {
    for ticks in (0..1_000_000u32).step_by(7).chain(0..20_000) {
        let total_secs = ticks as f32 / 60.0;
        let mins = (total_secs / 60.0).floor() as u32;
        let secs = total_secs - (mins * 60) as f32;
        assert_eq!(to_time(ticks), format!("{mins}m{secs:5.2}s"), "{ticks}");
    }
}

#[test]
fn strings_and_characters_convert_both_ways() {
    assert_eq!(chars_of("a\u{e9}\u{1F600}z"), vec!['a', '\u{e9}', '\u{1F600}', 'z']);
    assert_eq!(string_of(&vec!['a', '\u{e9}', '\u{1F600}', 'z']), "a\u{e9}\u{1F600}z");
    assert_eq!(string_of(&vec![]), "");
}

#[test]
fn interaction_status_codes() {
    for (code, name) in [(0, "FocusMode"), (1, "SolvingPanel"), (2, "Walking"), (3, "Cinematic")] {
        let status = InteractionStatus::try_from(code).unwrap();
        assert_eq!(status.code(), code);
        assert_eq!(format!("{status:?}"), name);
    }
    assert!(InteractionStatus::try_from(4).is_err());
    assert!(InteractionStatus::try_from(u32::MAX).is_err());
}

#[test]
fn trace_colours() {
    let rgba = |status: InteractionStatus| {
        let c = status.trace_color();
        [c.r, c.g, c.b, c.a].map(|x| f32::from_bits(x.bits))
    };
    assert_eq!(rgba(InteractionStatus::FocusMode), [1.0, 0.0, 0.0, 1.0]);
    assert_eq!(rgba(InteractionStatus::SolvingPanel), [1.0, 0.4, 0.4, 1.0]);
    assert_eq!(rgba(InteractionStatus::Walking), [0.0, 1.0, 0.0, 1.0]);
    assert_eq!(rgba(InteractionStatus::Cinematic), [0.5, 0.5, 0.5, 0.5]);
    let blue = click_color();
    assert_eq!([blue.r, blue.g, blue.b, blue.a].map(|x| f32::from_bits(x.bits)), [0.0, 0.0, 1.0, 1.0]);
}

#[test]
fn message_and_key_codes() {
    assert_eq!(Message::WM_LBUTTONDOWN.code(), 513);
    assert_eq!(Message::WM_RBUTTONUP.code(), 517);
    assert_eq!(Message::WM_NCMOUSEMOVE.code(), 160);
    assert_eq!(Message::WM_POINTERCAPTURECHANGED.code(), 588);
    assert_eq!(Message::default(), Message::WM_INPUT);
    assert_eq!(VirtualKeyCode::W.code(), 0x57);
    assert_eq!(VirtualKeyCode::LShift.code(), 0xA0);
    assert_eq!(VirtualKeyCode::NUM_9.code(), 0x39);
    let mut messages = 0;
    let mut keys = 0;
    for code in 0..1000 {
        if let Ok(message) = Message::try_from(code) {
            assert_eq!(message.code(), code);
            messages += 1;
        }
        if let Ok(key) = VirtualKeyCode::try_from(code) {
            assert_eq!(key.code(), code);
            keys += 1;
        }
    }
    assert_eq!(messages, 24);
    assert_eq!(keys, 40);
    assert_eq!(POINT::default(), POINT { x: 0, y: 0 });
    assert_eq!(MSG::default().message, Message::WM_INPUT);
}

#[test]
fn hooks_to_switch() {
    let on = enable_hooks();
    let off = disable_hooks();
    assert_eq!(on.len(), 12);
    assert_eq!(off.len(), 14);
    assert_eq!(on[0], Hook::GetInput);
    assert_eq!(on[11], Hook::GetRandomFloatInRange);
    assert!(!on.contains(&Hook::DeclareConsoleCommand) && !on.contains(&Hook::IsKeyPressed));
    assert!(off.contains(&Hook::DeclareConsoleCommand) && off.contains(&Hook::IsKeyPressed));
    for hook in [Hook::DoRestart, Hook::DrawSphere, Hook::DrawCylinder, Hook::CopyString] {
        assert!(!on.contains(&hook) && !off.contains(&hook));
    }
    assert!(on.iter().all(|hook| off.contains(hook)));
    assert!(all_succeeded(&vec![]));
    assert!(all_succeeded(&vec![true, true]));
    assert!(!all_succeeded(&vec![true, false, true]));
}

#[test]
fn input_events_follow_the_edges() {
    let mut state = ControllerState::default();
    assert!(input_events(&state).is_empty());
    state.current.forward = true;
    state.current.running = true;
    state.current.left_click = true;
    state.previous.backward = true;
    state.previous.right_click = true;
    state.current.left = true;
    state.previous.left = true;
    assert_eq!(
        input_events(&state),
        vec![
            InputEvent::Key { code: VirtualKeyCode::W, down: true },
            InputEvent::Key { code: VirtualKeyCode::S, down: false },
            InputEvent::Key { code: VirtualKeyCode::LShift, down: true },
            InputEvent::Mouse(click_message(Message::WM_LBUTTONDOWN)),
            InputEvent::Mouse(click_message(Message::WM_RBUTTONUP)),
        ]
    );
    let mut state = ControllerState::default();
    state.current.right = true;
    state.previous.left_click = true;
    state.current.right_click = true;
    assert_eq!(
        input_events(&state),
        vec![
            InputEvent::Key { code: VirtualKeyCode::D, down: true },
            InputEvent::Mouse(click_message(Message::WM_LBUTTONUP)),
            InputEvent::Mouse(click_message(Message::WM_RBUTTONDOWN)),
        ]
    );
    let msg = click_message(Message::WM_LBUTTONDOWN);
    assert_eq!((msg.hwnd, msg.wParam, msg.lParam, msg.time), (0, 1, 23593600, 0));
    assert_eq!(msg.pt, POINT { x: 1000, y: 1000 });
}

#[test]
fn user_messages_are_kept_from_a_running_playback() {
    for state in [PlaybackState::Playing, PlaybackState::Paused, PlaybackState::Skipping] {
        for message in [0, 255, 256, 512, 513, 9999] {
            assert!(!forwards_message(state, message));
        }
    }
    for message in [256, 257, 258, 259, 261] {
        assert!(!forwards_message(PlaybackState::Stopped, message));
    }
    for message in [0, 160, 255, 260, 274, 512, 513, 514, 515, 516, 517, 518, 588, 9999] {
        assert!(forwards_message(PlaybackState::Stopped, message));
    }
}

#[test]
fn hotkeys() {
    assert_eq!(hotkey(0x50, 1), Some(Hotkey::Replay));
    assert_eq!(hotkey(0x4E, 1), Some(Hotkey::ToggleNoclip));
    assert_eq!(hotkey(0x4A, 1), Some(Hotkey::SaveCamera));
    assert_eq!(hotkey(0x4B, 1), Some(Hotkey::RestoreCamera));
    assert_eq!(hotkey(0x45, 1), Some(Hotkey::ToggleOverlay));
    assert_eq!(hotkey(0x50, 0), None);
    assert_eq!(hotkey(0x50, 2), None);
    assert_eq!(hotkey(0x57, 1), None);
}

#[test]
fn window_always_seems_active() {
    assert_eq!(focus_override(0x86, 0), (Some(true), 1));
    assert_eq!(focus_override(0x86, 1), (Some(false), 1));
    assert_eq!(focus_override(0x86, 77), (Some(false), 1));
    assert_eq!(focus_override(0x87, 0), (None, 0));
    assert_eq!(focus_override(5, 77), (None, 77));
}

#[test]
fn frames_are_paced() {
    assert_eq!(frame_rest(0), 16);
    assert_eq!(frame_rest(5), 11);
    assert_eq!(frame_rest(16), 0);
    assert_eq!(frame_rest(17), 0);
    assert_eq!(frame_rest(u64::MAX), 0);
}

#[test]
fn wheel_scrolls_numbers() {
    assert_eq!(scrolled(5, false, false, 1), 6);
    assert_eq!(scrolled(5, true, false, 1), 15);
    assert_eq!(scrolled(5, false, true, 2), 205);
    assert_eq!(scrolled(5, true, true, 1), 1005);
    assert_eq!(scrolled(5, false, false, -3), 2);
    assert_eq!(scrolled(5, true, false, -1), 0);
    assert_eq!(scrolled(u32::MAX - 3, true, false, 1), u32::MAX);
    assert_eq!(scrolled(0, true, true, i32::MAX), u32::MAX);
    assert_eq!(scrolled(u32::MAX, true, true, i32::MIN), 0);
    assert_eq!(scrolled(7, true, true, 0), 7);
    for (value, notches) in [(0u32, 3i32), (100, -7), (4000000000, 1000), (12, -12)] {
        assert_eq!(scrolled(value, false, false, notches), value.saturating_add_signed(notches));
    }
}

#[test]
fn interval_bounds_are_put_in_order() {
    assert_eq!(TraceInterval::Between(5, 2).ordered(), TraceInterval::Between(5, 5));
    assert_eq!(TraceInterval::Between(2, 5).ordered(), TraceInterval::Between(2, 5));
    assert_eq!(TraceInterval::Between(3, 3).ordered(), TraceInterval::Between(3, 3));
    assert_eq!(TraceInterval::First(9).ordered(), TraceInterval::First(9));
    assert_eq!(TraceInterval::Last(0).ordered(), TraceInterval::Last(0));
}

#[test]
fn interface_follows_the_player() {
    let mut state = InterfaceState::new();
    assert_eq!(state.playback_state, PlaybackState::Stopped);
    assert!(state.play_enabled() && !state.stop_enabled() && !state.wants_replay());
    assert_eq!(state.trace_display_opts, TraceDrawOptions::default());
    state.update(TasToControllerMessage::ParseErrors(vec!["bad".to_string()]));
    assert_eq!(state.parse_errors, vec!["bad".to_string()]);
    state.update(TasToControllerMessage::PlaybackState(PlaybackState::Stopped));
    assert_eq!(state.parse_errors.len(), 1);
    state.update(TasToControllerMessage::PlaybackState(PlaybackState::Paused));
    assert_eq!(state.parse_errors.len(), 1);
    assert!(state.play_enabled() && state.stop_enabled());
    state.update(TasToControllerMessage::PlaybackState(PlaybackState::Playing));
    assert!(state.parse_errors.is_empty());
    assert!(!state.play_enabled() && state.stop_enabled());
    state.update(TasToControllerMessage::ParseErrors(vec!["worse".to_string()]));
    state.update(TasToControllerMessage::PlaybackState(PlaybackState::Skipping));
    assert!(state.parse_errors.is_empty());
    assert!(!state.play_enabled());
    state.update(TasToControllerMessage::CurrentTick(42));
    state.update(TasToControllerMessage::PuzzleUnlock(40));
    state.update(TasToControllerMessage::CarlInfo {
        pos: point(1.5),
        ang: Vec2 { x: scalar(0.25), y: scalar(-1.0) },
    });
    assert_eq!((state.current_tick, state.latest_puzzle_unlock), (42, 40));
    assert_eq!(f32::from_bits(state.player_pos.x.bits), 1.5);
    assert_eq!(f32::from_bits(state.player_ang.y.bits), -1.0);
    assert_eq!(state.playback_state, PlaybackState::Skipping);

    state.pauseat = 9;
    state.skipto = 20;
    assert_eq!(state.pause_target(), 9);
    state.always_pause_after_skip = true;
    assert_eq!(state.pause_target(), 21);
    state.skipto = u32::MAX;
    assert_eq!(state.pause_target(), u32::MAX);

    state.looping = true;
    assert!(!state.wants_replay());
    state.update(TasToControllerMessage::PlaybackState(PlaybackState::Paused));
    assert!(state.wants_replay());
    state.update(TasToControllerMessage::PlaybackState(PlaybackState::Stopped));
    assert!(state.wants_replay());
    state.update(TasToControllerMessage::PlaybackState(PlaybackState::Playing));
    assert!(!state.wants_replay());
}
