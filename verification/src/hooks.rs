//! What the engine decides at the points where it is hooked into the
//! simulation: which functions of the simulation it intercepts, which input
//! events stand for a change of the controller state, which window messages
//! reach the simulation, and what the keys of the keyboard do.
//!
//! Intercepting the functions and calling them is the host's work.

use vstd::prelude::*;
use crate::controller::ControllerState;
use crate::tas::PlaybackState;
use crate::windows_types::{Message, VirtualKeyCode, MSG, POINT};

verus! {

/// A function of the simulation that the engine intercepts or calls.
#[derive(Debug, Clone, Copy, PartialEq, Eq, Structural)]
pub enum Hook {
    GetInput,
    HandleAllMessages,
    HandleMessage,
    DeclareConsoleCommands,
    DeclareConsoleCommand,
    HandleKeyboardInput,
    IsKeyPressed,
    GetMouseDeltaPos,
    DrawScreen,
    MiddleOfDrawing,
    WindowProcCallback,
    SetCursorToPos,
    PanelClickCheck,
    GetRandomFloatInRange,
    DoRestart,
    DrawSphere,
    DrawCylinder,
    CopyString,
}

/// The hooks that are switched on when the engine attaches, in this order.
pub open spec fn hooks_to_enable() -> Seq<Hook> {
    seq![
        Hook::GetInput,
        Hook::HandleAllMessages,
        Hook::HandleMessage,
        Hook::DeclareConsoleCommands,
        Hook::HandleKeyboardInput,
        Hook::GetMouseDeltaPos,
        Hook::DrawScreen,
        Hook::MiddleOfDrawing,
        Hook::WindowProcCallback,
        Hook::SetCursorToPos,
        Hook::PanelClickCheck,
        Hook::GetRandomFloatInRange,
    ]
}

/// The hooks that are switched off when the engine detaches, in this order.
pub open spec fn hooks_to_disable() -> Seq<Hook> {
    seq![
        Hook::GetInput,
        Hook::HandleAllMessages,
        Hook::HandleMessage,
        Hook::DeclareConsoleCommands,
        Hook::DeclareConsoleCommand,
        Hook::HandleKeyboardInput,
        Hook::IsKeyPressed,
        Hook::GetMouseDeltaPos,
        Hook::DrawScreen,
        Hook::MiddleOfDrawing,
        Hook::WindowProcCallback,
        Hook::SetCursorToPos,
        Hook::PanelClickCheck,
        Hook::GetRandomFloatInRange,
    ]
}

/// The hooks to switch on when the engine attaches.
pub fn enable_hooks() -> (hooks: Vec<Hook>)
    ensures
        hooks@ == hooks_to_enable(),
{
    let hooks = vec![
        Hook::GetInput,
        Hook::HandleAllMessages,
        Hook::HandleMessage,
        Hook::DeclareConsoleCommands,
        Hook::HandleKeyboardInput,
        Hook::GetMouseDeltaPos,
        Hook::DrawScreen,
        Hook::MiddleOfDrawing,
        Hook::WindowProcCallback,
        Hook::SetCursorToPos,
        Hook::PanelClickCheck,
        Hook::GetRandomFloatInRange,
    ];
    assert(hooks@ =~= hooks_to_enable());
    hooks
}

/// The hooks to switch off when the engine detaches.
pub fn disable_hooks() -> (hooks: Vec<Hook>)
    ensures
        hooks@ == hooks_to_disable(),
{
    let hooks = vec![
        Hook::GetInput,
        Hook::HandleAllMessages,
        Hook::HandleMessage,
        Hook::DeclareConsoleCommands,
        Hook::DeclareConsoleCommand,
        Hook::HandleKeyboardInput,
        Hook::IsKeyPressed,
        Hook::GetMouseDeltaPos,
        Hook::DrawScreen,
        Hook::MiddleOfDrawing,
        Hook::WindowProcCallback,
        Hook::SetCursorToPos,
        Hook::PanelClickCheck,
        Hook::GetRandomFloatInRange,
    ];
    assert(hooks@ =~= hooks_to_disable());
    hooks
}

/// Whether every hook of a list could be switched, given for each whether it
/// could.
pub fn all_succeeded(outcomes: &Vec<bool>) -> (all: bool)
    ensures
        all == (forall|i: int| 0 <= i < outcomes.len() ==> outcomes[i]),
{
    let mut i: usize = 0;
    while i < outcomes.len()
        invariant
            i <= outcomes.len(),
            forall|k: int| 0 <= k < i ==> outcomes[k],
        decreases outcomes.len() - i,
    {
        if !outcomes[i] {
            return false;
        }
        i += 1;
    }
    true
}

/// An input event that the host feeds to the simulation.
#[derive(Debug, Clone, Copy, PartialEq, Eq, Structural)]
pub enum InputEvent {
    /// A key goes down or up.
    Key { code: VirtualKeyCode, down: bool },
    /// A window message about a mouse button.
    Mouse(MSG),
}

/// The window message for a mouse button: of the given kind, with the
/// pointer in the middle of the window.
pub open spec fn spec_click_message(message: Message) -> MSG {
    MSG {
        hwnd: 0,
        message,
        wParam: 1,
        lParam: 23593600,
        time: 0,
        pt: POINT { x: 1000, y: 1000 },
        lPrivate: 0,
    }
}

/// The event for a key whose signal is `now` and was `before`: none where the
/// signal did not change.
pub open spec fn key_events(code: VirtualKeyCode, now: bool, before: bool) -> Seq<InputEvent> {
    if now != before {
        seq![InputEvent::Key { code, down: now }]
    } else {
        Seq::empty()
    }
}

/// The event for a mouse button whose signal is `now` and was `before`.
pub open spec fn button_events(down: Message, up: Message, now: bool, before: bool) -> Seq<
    InputEvent,
> {
    if now != before {
        seq![InputEvent::Mouse(
            spec_click_message(
                if now {
                    down
                } else {
                    up
                },
            ),
        )]
    } else {
        Seq::empty()
    }
}

/// The events that stand for the change from the previous signals to the
/// current ones: the four movement keys, the key for running, and the two
/// mouse buttons, in this order.
pub open spec fn spec_input_events(c: ControllerState) -> Seq<InputEvent> {
    key_events(VirtualKeyCode::W, c.current.forward, c.previous.forward) + key_events(
        VirtualKeyCode::S,
        c.current.backward,
        c.previous.backward,
    ) + key_events(VirtualKeyCode::A, c.current.left, c.previous.left) + key_events(
        VirtualKeyCode::D,
        c.current.right,
        c.previous.right,
    ) + key_events(VirtualKeyCode::LShift, c.current.running, c.previous.running)
        + button_events(
        Message::WM_LBUTTONDOWN,
        Message::WM_LBUTTONUP,
        c.current.left_click,
        c.previous.left_click,
    ) + button_events(
        Message::WM_RBUTTONDOWN,
        Message::WM_RBUTTONUP,
        c.current.right_click,
        c.previous.right_click,
    )
}

/// The window message for a mouse button.
pub fn click_message(message: Message) -> (msg: MSG)
    ensures
        msg == spec_click_message(message),
{
    MSG {
        hwnd: 0,
        message,
        wParam: 1,
        lParam: 23593600,
        time: 0,
        pt: POINT { x: 1000, y: 1000 },
        lPrivate: 0,
    }
}

/// Adds the event for a key to `events`.
fn push_key(events: &mut Vec<InputEvent>, code: VirtualKeyCode, now: bool, before: bool)
    ensures
        final(events)@ == old(events)@ + key_events(code, now, before),
{
    if now != before {
        events.push(InputEvent::Key { code, down: now });
    }
    assert(events@ =~= old(events)@ + key_events(code, now, before));
}

/// Adds the event for a mouse button to `events`.
fn push_button(events: &mut Vec<InputEvent>, down: Message, up: Message, now: bool, before: bool)
    ensures
        final(events)@ == old(events)@ + button_events(down, up, now, before),
{
    if now != before {
        events.push(
            InputEvent::Mouse(
                click_message(
                    if now {
                        down
                    } else {
                        up
                    },
                ),
            ),
        );
    }
    assert(events@ =~= old(events)@ + button_events(down, up, now, before));
}

/// The events that stand for the change from the previous signals to the
/// current ones.
pub fn input_events(controller: &ControllerState) -> (events: Vec<InputEvent>)
    ensures
        events@ == spec_input_events(*controller),
{
    let now = controller.current;
    let before = controller.previous;
    let mut events: Vec<InputEvent> = Vec::new();
    push_key(&mut events, VirtualKeyCode::W, now.forward, before.forward);
    push_key(&mut events, VirtualKeyCode::S, now.backward, before.backward);
    push_key(&mut events, VirtualKeyCode::A, now.left, before.left);
    push_key(&mut events, VirtualKeyCode::D, now.right, before.right);
    push_key(&mut events, VirtualKeyCode::LShift, now.running, before.running);
    push_button(
        &mut events,
        Message::WM_LBUTTONDOWN,
        Message::WM_LBUTTONUP,
        now.left_click,
        before.left_click,
    );
    push_button(
        &mut events,
        Message::WM_RBUTTONDOWN,
        Message::WM_RBUTTONUP,
        now.right_click,
        before.right_click,
    );
    assert(events@ =~= spec_input_events(*controller));
    events
}

/// Whether a window message of the user reaches the simulation. None does
/// while a script is played or paused. Otherwise the messages about keys
/// that the simulation reads as raw input are kept from it: key down, key
/// up, character, dead character and system key up.
pub open spec fn spec_forwards_message(state: PlaybackState, message: u32) -> bool {
    &&& state == PlaybackState::Stopped
    &&& message != 256
    &&& message != 257
    &&& message != 258
    &&& message != 259
    &&& message != 261
}

/// Whether a window message of the user reaches the simulation.
pub fn forwards_message(state: PlaybackState, message: u32) -> (forward: bool)
    ensures
        forward == spec_forwards_message(state, message),
{
    if state != PlaybackState::Stopped {
        return false;
    }
    match Message::try_from(message) {
        Ok(Message::WM_KEYDOWN) => false,
        Ok(Message::WM_KEYUP) => false,
        Ok(Message::WM_CHAR) => false,
        Ok(Message::WM_DEADCHAR) => false,
        Ok(Message::WM_SYSKEYUP) => false,
        _ => true,
    }
}

/// What a key of the keyboard makes the engine do.
#[derive(Debug, Clone, Copy, PartialEq, Eq, Structural)]
pub enum Hotkey {
    /// Play the script that was named last from its start.
    Replay,
    /// Let the player pass through walls, or no longer.
    ToggleNoclip,
    /// Remember where the player is and where it looks.
    SaveCamera,
    /// Put the player where it was remembered.
    RestoreCamera,
    /// Show the debug overlay, or no longer.
    ToggleOverlay,
}

/// What a key event makes the engine do: something only where one of the
/// keys P, N, J, K, E goes down.
pub open spec fn spec_hotkey(virtual_keycode: u32, press_down: u8) -> Option<Hotkey> {
    if press_down != 1 {
        None
    } else if virtual_keycode == 0x50 {
        Some(Hotkey::Replay)
    } else if virtual_keycode == 0x4E {
        Some(Hotkey::ToggleNoclip)
    } else if virtual_keycode == 0x4A {
        Some(Hotkey::SaveCamera)
    } else if virtual_keycode == 0x4B {
        Some(Hotkey::RestoreCamera)
    } else if virtual_keycode == 0x45 {
        Some(Hotkey::ToggleOverlay)
    } else {
        None
    }
}

/// What a key event makes the engine do.
pub fn hotkey(virtual_keycode: u32, press_down: u8) -> (action: Option<Hotkey>)
    ensures
        action == spec_hotkey(virtual_keycode, press_down),
{
    if press_down != 1 {
        None
    } else if virtual_keycode == VirtualKeyCode::P.code() {
        Some(Hotkey::Replay)
    } else if virtual_keycode == VirtualKeyCode::N.code() {
        Some(Hotkey::ToggleNoclip)
    } else if virtual_keycode == VirtualKeyCode::J.code() {
        Some(Hotkey::SaveCamera)
    } else if virtual_keycode == VirtualKeyCode::K.code() {
        Some(Hotkey::RestoreCamera)
    } else if virtual_keycode == VirtualKeyCode::E.code() {
        Some(Hotkey::ToggleOverlay)
    } else {
        None
    }
}

/// The window message that tells a window that it becomes active or
/// inactive.
pub const WM_NCACTIVATE: u32 = 0x86;

/// What the simulation is told in place of a message to its window: always
/// that the window is active, so that it goes on while it is in the
/// background. The first component says whether the window is in the
/// background in truth, where the message tells.
pub open spec fn spec_focus_override(msg: u32, wparam: u64) -> (Option<bool>, u64) {
    if msg == WM_NCACTIVATE {
        (Some(wparam == 0), 1)
    } else {
        (None, wparam)
    }
}

/// What the simulation is told in place of a message to its window.
pub fn focus_override(msg: u32, wparam: u64) -> (r: (Option<bool>, u64))
    ensures
        r == spec_focus_override(msg, wparam),
{
    if msg == WM_NCACTIVATE {
        (Some(wparam == 0), 1)
    } else {
        (None, wparam)
    }
}

/// The milliseconds that a frame is to take.
pub const FRAME_MILLIS: u64 = 16;

/// How long to rest after a frame that took `elapsed_millis` to draw, so that
/// frames follow each other no faster than they are to.
pub fn frame_rest(elapsed_millis: u64) -> (rest: u64)
    ensures
        rest == if elapsed_millis >= FRAME_MILLIS {
            0
        } else {
            FRAME_MILLIS - elapsed_millis
        },
{
    if elapsed_millis >= FRAME_MILLIS {
        0
    } else {
        FRAME_MILLIS - elapsed_millis
    }
}

} // verus!
