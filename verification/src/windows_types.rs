//! The window messages and key codes of the host system that the engine
//! names.

use vstd::prelude::*;

verus! {

/// A kind of window message.
#[allow(non_camel_case_types)]
#[derive(Debug, Clone, Copy, PartialEq, Eq, Structural)]
pub enum Message {
    WM_NCMOUSEMOVE,
    WM_INPUT,
    WM_KEYDOWN,
    WM_KEYUP,
    WM_CHAR,
    WM_DEADCHAR,
    WM_SYSKEYDOWN,
    WM_SYSKEYUP,
    WM_SYSCOMMAND,
    WM_MOUSEMOVE,
    WM_LBUTTONDOWN,
    WM_LBUTTONUP,
    WM_LBUTTONDLBCLK,
    WM_RBUTTONDOWN,
    WM_RBUTTONUP,
    WM_RBUTTONDBCLK,
    WM_MBUTTONDOWN,
    WM_MBUTTONUP,
    WM_XBUTTONDOWN,
    WM_XBUTTONUP,
    WM_POINTERUPDATE,
    WM_POINTERDOWN,
    WM_POINTERUP,
    WM_POINTERCAPTURECHANGED,
}

impl Message {
    /// The number that the system gives the variant.
    pub open spec fn spec_code(self) -> u32 {
        match self {
            Message::WM_NCMOUSEMOVE => 160,
            Message::WM_INPUT => 255,
            Message::WM_KEYDOWN => 256,
            Message::WM_KEYUP => 257,
            Message::WM_CHAR => 258,
            Message::WM_DEADCHAR => 259,
            Message::WM_SYSKEYDOWN => 260,
            Message::WM_SYSKEYUP => 261,
            Message::WM_SYSCOMMAND => 274,
            Message::WM_MOUSEMOVE => 512,
            Message::WM_LBUTTONDOWN => 513,
            Message::WM_LBUTTONUP => 514,
            Message::WM_LBUTTONDLBCLK => 515,
            Message::WM_RBUTTONDOWN => 516,
            Message::WM_RBUTTONUP => 517,
            Message::WM_RBUTTONDBCLK => 518,
            Message::WM_MBUTTONDOWN => 519,
            Message::WM_MBUTTONUP => 520,
            Message::WM_XBUTTONDOWN => 523,
            Message::WM_XBUTTONUP => 524,
            Message::WM_POINTERUPDATE => 581,
            Message::WM_POINTERDOWN => 582,
            Message::WM_POINTERUP => 583,
            Message::WM_POINTERCAPTURECHANGED => 588,
        }
    }

    /// The number that the system gives the variant.
    pub fn code(self) -> (v: u32)
        ensures
            v == self.spec_code(),
    {
        match self {
            Message::WM_NCMOUSEMOVE => 160,
            Message::WM_INPUT => 255,
            Message::WM_KEYDOWN => 256,
            Message::WM_KEYUP => 257,
            Message::WM_CHAR => 258,
            Message::WM_DEADCHAR => 259,
            Message::WM_SYSKEYDOWN => 260,
            Message::WM_SYSKEYUP => 261,
            Message::WM_SYSCOMMAND => 274,
            Message::WM_MOUSEMOVE => 512,
            Message::WM_LBUTTONDOWN => 513,
            Message::WM_LBUTTONUP => 514,
            Message::WM_LBUTTONDLBCLK => 515,
            Message::WM_RBUTTONDOWN => 516,
            Message::WM_RBUTTONUP => 517,
            Message::WM_RBUTTONDBCLK => 518,
            Message::WM_MBUTTONDOWN => 519,
            Message::WM_MBUTTONUP => 520,
            Message::WM_XBUTTONDOWN => 523,
            Message::WM_XBUTTONUP => 524,
            Message::WM_POINTERUPDATE => 581,
            Message::WM_POINTERDOWN => 582,
            Message::WM_POINTERUP => 583,
            Message::WM_POINTERCAPTURECHANGED => 588,
        }
    }

    /// Whether a variant has the number `v`.
    pub open spec fn known(v: u32) -> bool {
        v == 160
            || v == 255
            || v == 256
            || v == 257
            || v == 258
            || v == 259
            || v == 260
            || v == 261
            || v == 274
            || v == 512
            || v == 513
            || v == 514
            || v == 515
            || v == 516
            || v == 517
            || v == 518
            || v == 519
            || v == 520
            || v == 523
            || v == 524
            || v == 581
            || v == 582
            || v == 583
            || v == 588
    }

    /// The variant with the number `v`, if there is one.
    pub fn try_from(v: u32) -> (r: Result<Self, ()>)
        ensures
            match r {
                Ok(x) => x.spec_code() == v,
                Err(_) => !Self::known(v),
            },
    {
        if v == 160 {
            Ok(Message::WM_NCMOUSEMOVE)
        } else if v == 255 {
            Ok(Message::WM_INPUT)
        } else if v == 256 {
            Ok(Message::WM_KEYDOWN)
        } else if v == 257 {
            Ok(Message::WM_KEYUP)
        } else if v == 258 {
            Ok(Message::WM_CHAR)
        } else if v == 259 {
            Ok(Message::WM_DEADCHAR)
        } else if v == 260 {
            Ok(Message::WM_SYSKEYDOWN)
        } else if v == 261 {
            Ok(Message::WM_SYSKEYUP)
        } else if v == 274 {
            Ok(Message::WM_SYSCOMMAND)
        } else if v == 512 {
            Ok(Message::WM_MOUSEMOVE)
        } else if v == 513 {
            Ok(Message::WM_LBUTTONDOWN)
        } else if v == 514 {
            Ok(Message::WM_LBUTTONUP)
        } else if v == 515 {
            Ok(Message::WM_LBUTTONDLBCLK)
        } else if v == 516 {
            Ok(Message::WM_RBUTTONDOWN)
        } else if v == 517 {
            Ok(Message::WM_RBUTTONUP)
        } else if v == 518 {
            Ok(Message::WM_RBUTTONDBCLK)
        } else if v == 519 {
            Ok(Message::WM_MBUTTONDOWN)
        } else if v == 520 {
            Ok(Message::WM_MBUTTONUP)
        } else if v == 523 {
            Ok(Message::WM_XBUTTONDOWN)
        } else if v == 524 {
            Ok(Message::WM_XBUTTONUP)
        } else if v == 581 {
            Ok(Message::WM_POINTERUPDATE)
        } else if v == 582 {
            Ok(Message::WM_POINTERDOWN)
        } else if v == 583 {
            Ok(Message::WM_POINTERUP)
        } else if v == 588 {
            Ok(Message::WM_POINTERCAPTURECHANGED)
        } else {
            Err(())
        }
    }
}

impl Default for Message {
    fn default() -> (message: Self)
        ensures
            message == Message::WM_INPUT,
    {
        Message::WM_INPUT
    }
}

/// A point of the screen.
#[derive(Debug, Clone, Copy, PartialEq, Eq, Structural)]
pub struct POINT {
    pub x: u64,
    pub y: u64,
}

impl Default for POINT {
    fn default() -> (point: Self)
        ensures
            point == (POINT { x: 0, y: 0 }),
    {
        POINT { x: 0, y: 0 }
    }
}

/// A window message as the system hands it to a window.
#[allow(non_snake_case)]
#[derive(Debug, Clone, Copy, PartialEq, Eq, Structural)]
pub struct MSG {
    pub hwnd: usize,
    pub message: Message,
    pub wParam: usize,
    pub lParam: isize,
    pub time: u32,
    pub pt: POINT,
    pub lPrivate: u32,
}

impl Default for MSG {
    fn default() -> (msg: Self)
        ensures
            msg == (MSG {
                hwnd: 0,
                message: Message::WM_INPUT,
                wParam: 0,
                lParam: 0,
                time: 0,
                pt: POINT { x: 0, y: 0 },
                lPrivate: 0,
            }),
    {
        MSG {
            hwnd: 0,
            message: Message::WM_INPUT,
            wParam: 0,
            lParam: 0,
            time: 0,
            pt: POINT { x: 0, y: 0 },
            lPrivate: 0,
        }
    }
}

/// A key of the keyboard or a button of the mouse.
#[allow(non_camel_case_types)]
#[derive(Debug, Clone, Copy, PartialEq, Eq, Structural)]
pub enum VirtualKeyCode {
    LButton,
    RButton,
    Space,
    NUM_0,
    NUM_1,
    NUM_2,
    NUM_3,
    NUM_4,
    NUM_5,
    NUM_6,
    NUM_7,
    NUM_8,
    NUM_9,
    A,
    B,
    C,
    D,
    E,
    F,
    G,
    H,
    I,
    J,
    K,
    L,
    M,
    N,
    O,
    P,
    Q,
    R,
    S,
    T,
    U,
    V,
    W,
    X,
    Y,
    Z,
    LShift,
}

impl VirtualKeyCode {
    /// The number that the system gives the variant.
    pub open spec fn spec_code(self) -> u32 {
        match self {
            VirtualKeyCode::LButton => 1,
            VirtualKeyCode::RButton => 2,
            VirtualKeyCode::Space => 32,
            VirtualKeyCode::NUM_0 => 48,
            VirtualKeyCode::NUM_1 => 49,
            VirtualKeyCode::NUM_2 => 50,
            VirtualKeyCode::NUM_3 => 51,
            VirtualKeyCode::NUM_4 => 52,
            VirtualKeyCode::NUM_5 => 53,
            VirtualKeyCode::NUM_6 => 54,
            VirtualKeyCode::NUM_7 => 55,
            VirtualKeyCode::NUM_8 => 56,
            VirtualKeyCode::NUM_9 => 57,
            VirtualKeyCode::A => 65,
            VirtualKeyCode::B => 66,
            VirtualKeyCode::C => 67,
            VirtualKeyCode::D => 68,
            VirtualKeyCode::E => 69,
            VirtualKeyCode::F => 70,
            VirtualKeyCode::G => 71,
            VirtualKeyCode::H => 72,
            VirtualKeyCode::I => 73,
            VirtualKeyCode::J => 74,
            VirtualKeyCode::K => 75,
            VirtualKeyCode::L => 76,
            VirtualKeyCode::M => 77,
            VirtualKeyCode::N => 78,
            VirtualKeyCode::O => 79,
            VirtualKeyCode::P => 80,
            VirtualKeyCode::Q => 81,
            VirtualKeyCode::R => 82,
            VirtualKeyCode::S => 83,
            VirtualKeyCode::T => 84,
            VirtualKeyCode::U => 85,
            VirtualKeyCode::V => 86,
            VirtualKeyCode::W => 87,
            VirtualKeyCode::X => 88,
            VirtualKeyCode::Y => 89,
            VirtualKeyCode::Z => 90,
            VirtualKeyCode::LShift => 160,
        }
    }

    /// The number that the system gives the variant.
    pub fn code(self) -> (v: u32)
        ensures
            v == self.spec_code(),
    {
        match self {
            VirtualKeyCode::LButton => 1,
            VirtualKeyCode::RButton => 2,
            VirtualKeyCode::Space => 32,
            VirtualKeyCode::NUM_0 => 48,
            VirtualKeyCode::NUM_1 => 49,
            VirtualKeyCode::NUM_2 => 50,
            VirtualKeyCode::NUM_3 => 51,
            VirtualKeyCode::NUM_4 => 52,
            VirtualKeyCode::NUM_5 => 53,
            VirtualKeyCode::NUM_6 => 54,
            VirtualKeyCode::NUM_7 => 55,
            VirtualKeyCode::NUM_8 => 56,
            VirtualKeyCode::NUM_9 => 57,
            VirtualKeyCode::A => 65,
            VirtualKeyCode::B => 66,
            VirtualKeyCode::C => 67,
            VirtualKeyCode::D => 68,
            VirtualKeyCode::E => 69,
            VirtualKeyCode::F => 70,
            VirtualKeyCode::G => 71,
            VirtualKeyCode::H => 72,
            VirtualKeyCode::I => 73,
            VirtualKeyCode::J => 74,
            VirtualKeyCode::K => 75,
            VirtualKeyCode::L => 76,
            VirtualKeyCode::M => 77,
            VirtualKeyCode::N => 78,
            VirtualKeyCode::O => 79,
            VirtualKeyCode::P => 80,
            VirtualKeyCode::Q => 81,
            VirtualKeyCode::R => 82,
            VirtualKeyCode::S => 83,
            VirtualKeyCode::T => 84,
            VirtualKeyCode::U => 85,
            VirtualKeyCode::V => 86,
            VirtualKeyCode::W => 87,
            VirtualKeyCode::X => 88,
            VirtualKeyCode::Y => 89,
            VirtualKeyCode::Z => 90,
            VirtualKeyCode::LShift => 160,
        }
    }

    /// Whether a variant has the number `v`.
    pub open spec fn known(v: u32) -> bool {
        v == 1
            || v == 2
            || v == 32
            || v == 48
            || v == 49
            || v == 50
            || v == 51
            || v == 52
            || v == 53
            || v == 54
            || v == 55
            || v == 56
            || v == 57
            || v == 65
            || v == 66
            || v == 67
            || v == 68
            || v == 69
            || v == 70
            || v == 71
            || v == 72
            || v == 73
            || v == 74
            || v == 75
            || v == 76
            || v == 77
            || v == 78
            || v == 79
            || v == 80
            || v == 81
            || v == 82
            || v == 83
            || v == 84
            || v == 85
            || v == 86
            || v == 87
            || v == 88
            || v == 89
            || v == 90
            || v == 160
    }

    /// The variant with the number `v`, if there is one.
    pub fn try_from(v: u32) -> (r: Result<Self, ()>)
        ensures
            match r {
                Ok(x) => x.spec_code() == v,
                Err(_) => !Self::known(v),
            },
    {
        if v == 1 {
            Ok(VirtualKeyCode::LButton)
        } else if v == 2 {
            Ok(VirtualKeyCode::RButton)
        } else if v == 32 {
            Ok(VirtualKeyCode::Space)
        } else if v == 48 {
            Ok(VirtualKeyCode::NUM_0)
        } else if v == 49 {
            Ok(VirtualKeyCode::NUM_1)
        } else if v == 50 {
            Ok(VirtualKeyCode::NUM_2)
        } else if v == 51 {
            Ok(VirtualKeyCode::NUM_3)
        } else if v == 52 {
            Ok(VirtualKeyCode::NUM_4)
        } else if v == 53 {
            Ok(VirtualKeyCode::NUM_5)
        } else if v == 54 {
            Ok(VirtualKeyCode::NUM_6)
        } else if v == 55 {
            Ok(VirtualKeyCode::NUM_7)
        } else if v == 56 {
            Ok(VirtualKeyCode::NUM_8)
        } else if v == 57 {
            Ok(VirtualKeyCode::NUM_9)
        } else if v == 65 {
            Ok(VirtualKeyCode::A)
        } else if v == 66 {
            Ok(VirtualKeyCode::B)
        } else if v == 67 {
            Ok(VirtualKeyCode::C)
        } else if v == 68 {
            Ok(VirtualKeyCode::D)
        } else if v == 69 {
            Ok(VirtualKeyCode::E)
        } else if v == 70 {
            Ok(VirtualKeyCode::F)
        } else if v == 71 {
            Ok(VirtualKeyCode::G)
        } else if v == 72 {
            Ok(VirtualKeyCode::H)
        } else if v == 73 {
            Ok(VirtualKeyCode::I)
        } else if v == 74 {
            Ok(VirtualKeyCode::J)
        } else if v == 75 {
            Ok(VirtualKeyCode::K)
        } else if v == 76 {
            Ok(VirtualKeyCode::L)
        } else if v == 77 {
            Ok(VirtualKeyCode::M)
        } else if v == 78 {
            Ok(VirtualKeyCode::N)
        } else if v == 79 {
            Ok(VirtualKeyCode::O)
        } else if v == 80 {
            Ok(VirtualKeyCode::P)
        } else if v == 81 {
            Ok(VirtualKeyCode::Q)
        } else if v == 82 {
            Ok(VirtualKeyCode::R)
        } else if v == 83 {
            Ok(VirtualKeyCode::S)
        } else if v == 84 {
            Ok(VirtualKeyCode::T)
        } else if v == 85 {
            Ok(VirtualKeyCode::U)
        } else if v == 86 {
            Ok(VirtualKeyCode::V)
        } else if v == 87 {
            Ok(VirtualKeyCode::W)
        } else if v == 88 {
            Ok(VirtualKeyCode::X)
        } else if v == 89 {
            Ok(VirtualKeyCode::Y)
        } else if v == 90 {
            Ok(VirtualKeyCode::Z)
        } else if v == 160 {
            Ok(VirtualKeyCode::LShift)
        } else {
            Err(())
        }
    }
}

} // verus!
