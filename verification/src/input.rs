//! Discrete input state: keyboard and mouse key edges as the platform
//! layer reports them each frame.

use vstd::prelude::*;
use crate::fx::Fx;

verus! {

/// One two-state key: its level this frame and the previous frame,
/// giving pressed/released edges.
#[derive(Copy, Clone, PartialEq, Eq, Structural, Debug)]
pub struct DigitalKey {
    pub curr: bool,
    pub prev: bool,
}

impl DigitalKey {
    pub fn new() -> (r: DigitalKey)
        ensures
            !r.curr && !r.prev,
    {
        DigitalKey { curr: false, prev: false }
    }

    pub fn is_down(self) -> (r: bool)
        ensures
            r == self.curr,
    {
        self.curr
    }

    pub fn is_up(self) -> (r: bool)
        ensures
            r == !self.curr,
    {
        !self.curr
    }

    /// Went down this frame.
    pub fn pressed(self) -> (r: bool)
        ensures
            r == (self.curr && !self.prev),
    {
        self.curr && !self.prev
    }

    /// Went up this frame.
    pub fn released(self) -> (r: bool)
        ensures
            r == (!self.curr && self.prev),
    {
        !self.curr && self.prev
    }

    /// Records the new level, shifting the old one into the edge state.
    pub fn update(&mut self, new: bool)
        ensures
            final(self).curr == new,
            final(self).prev == old(self).curr,
    {
        self.prev = self.curr;
        self.curr = new;
    }
}

/// The keyboard keys the engine distinguishes.
#[derive(Copy, Clone, PartialEq, Eq, Structural, Debug)]
pub enum KBKey {
    Backspace,
    Tab,
    Enter,
    Shift,
    Ctrl,
    Alt,
    CapsLock,
    Escape,
    Space,
    PageUp,
    PageDown,
    End,
    Home,
    Left,
    Up,
    Right,
    Down,
    PrintScreen,
    Insert,
    Delete,
    D0,
    D1,
    D2,
    D3,
    D4,
    D5,
    D6,
    D7,
    D8,
    D9,
    A,
    B,
    C,
    D,
    E,
    F,
    G,
    H,
    I,
    J,
    K,
    L,
    M,
    N,
    O,
    P,
    Q,
    R,
    S,
    T,
    U,
    V,
    W,
    X,
    Y,
    Z,
    N0,
    N1,
    N2,
    N3,
    N4,
    N5,
    N6,
    N7,
    N8,
    N9,
    NMul,
    NAdd,
    NSub,
    NDec,
    NDiv,
    F1,
    F2,
    F3,
    F4,
    F5,
    F6,
    F7,
    F8,
    F9,
    F10,
    F11,
    F12,
    F13,
    F14,
    F15,
    F16,
    F17,
    F18,
    F19,
    F20,
    F21,
    F22,
    F23,
    F24,
    LShift,
    Rshift,
    LCtrl,
    RCtrl,
    LAlt,
    RAlt,
    Semicolon,
    Plus,
    Comma,
    Minus,
    Period,
    Slash,
    Tilda,
    LBracket,
    Backslash,
    RBracket,
    Quote,
}

/// The slot of a key in the keyboard state table (its platform
/// virtual-key code).
pub open spec fn kbkey_code(k: KBKey) -> int {
    match k {
        KBKey::Backspace => 0x08,
        KBKey::Tab => 0x09,
        KBKey::Enter => 0x0D,
        KBKey::Shift => 0x10,
        KBKey::Ctrl => 0x11,
        KBKey::Alt => 0x12,
        KBKey::CapsLock => 0x14,
        KBKey::Escape => 0x1B,
        KBKey::Space => 0x20,
        KBKey::PageUp => 0x21,
        KBKey::PageDown => 0x22,
        KBKey::End => 0x23,
        KBKey::Home => 0x24,
        KBKey::Left => 0x25,
        KBKey::Up => 0x26,
        KBKey::Right => 0x27,
        KBKey::Down => 0x28,
        KBKey::PrintScreen => 0x2C,
        KBKey::Insert => 0x2D,
        KBKey::Delete => 0x2E,
        KBKey::D0 => 0x30,
        KBKey::D1 => 0x31,
        KBKey::D2 => 0x32,
        KBKey::D3 => 0x33,
        KBKey::D4 => 0x34,
        KBKey::D5 => 0x35,
        KBKey::D6 => 0x36,
        KBKey::D7 => 0x37,
        KBKey::D8 => 0x38,
        KBKey::D9 => 0x39,
        KBKey::A => 0x41,
        KBKey::B => 0x42,
        KBKey::C => 0x43,
        KBKey::D => 0x44,
        KBKey::E => 0x45,
        KBKey::F => 0x46,
        KBKey::G => 0x47,
        KBKey::H => 0x48,
        KBKey::I => 0x49,
        KBKey::J => 0x4A,
        KBKey::K => 0x4B,
        KBKey::L => 0x4C,
        KBKey::M => 0x4D,
        KBKey::N => 0x4E,
        KBKey::O => 0x4F,
        KBKey::P => 0x50,
        KBKey::Q => 0x51,
        KBKey::R => 0x52,
        KBKey::S => 0x53,
        KBKey::T => 0x54,
        KBKey::U => 0x55,
        KBKey::V => 0x56,
        KBKey::W => 0x57,
        KBKey::X => 0x58,
        KBKey::Y => 0x59,
        KBKey::Z => 0x5A,
        KBKey::N0 => 0x60,
        KBKey::N1 => 0x61,
        KBKey::N2 => 0x62,
        KBKey::N3 => 0x63,
        KBKey::N4 => 0x64,
        KBKey::N5 => 0x65,
        KBKey::N6 => 0x66,
        KBKey::N7 => 0x67,
        KBKey::N8 => 0x68,
        KBKey::N9 => 0x69,
        KBKey::NMul => 0x6A,
        KBKey::NAdd => 0x6B,
        KBKey::NSub => 0x6D,
        KBKey::NDec => 0x6E,
        KBKey::NDiv => 0x6F,
        KBKey::F1 => 0x70,
        KBKey::F2 => 0x71,
        KBKey::F3 => 0x72,
        KBKey::F4 => 0x73,
        KBKey::F5 => 0x74,
        KBKey::F6 => 0x75,
        KBKey::F7 => 0x76,
        KBKey::F8 => 0x77,
        KBKey::F9 => 0x78,
        KBKey::F10 => 0x79,
        KBKey::F11 => 0x7A,
        KBKey::F12 => 0x7B,
        KBKey::F13 => 0x7C,
        KBKey::F14 => 0x7D,
        KBKey::F15 => 0x7E,
        KBKey::F16 => 0x7F,
        KBKey::F17 => 0x80,
        KBKey::F18 => 0x81,
        KBKey::F19 => 0x82,
        KBKey::F20 => 0x83,
        KBKey::F21 => 0x84,
        KBKey::F22 => 0x85,
        KBKey::F23 => 0x86,
        KBKey::F24 => 0x87,
        KBKey::LShift => 0xA0,
        KBKey::Rshift => 0xA1,
        KBKey::LCtrl => 0xA2,
        KBKey::RCtrl => 0xA3,
        KBKey::LAlt => 0xA4,
        KBKey::RAlt => 0xA5,
        KBKey::Semicolon => 0xBA,
        KBKey::Plus => 0xBB,
        KBKey::Comma => 0xBC,
        KBKey::Minus => 0xBD,
        KBKey::Period => 0xBE,
        KBKey::Slash => 0xBF,
        KBKey::Tilda => 0xC0,
        KBKey::LBracket => 0xDB,
        KBKey::Backslash => 0xDC,
        KBKey::RBracket => 0xDD,
        KBKey::Quote => 0xDE,
    }
}

/// The key at each slot of the `variants` table, in declaration
/// order: the table holds every key exactly once.
pub open spec fn kbkey_at(i: int) -> KBKey {
    if i == 0 {
        KBKey::Backspace
    } else if i == 1 {
        KBKey::Tab
    } else if i == 2 {
        KBKey::Enter
    } else if i == 3 {
        KBKey::Shift
    } else if i == 4 {
        KBKey::Ctrl
    } else if i == 5 {
        KBKey::Alt
    } else if i == 6 {
        KBKey::CapsLock
    } else if i == 7 {
        KBKey::Escape
    } else if i == 8 {
        KBKey::Space
    } else if i == 9 {
        KBKey::PageUp
    } else if i == 10 {
        KBKey::PageDown
    } else if i == 11 {
        KBKey::End
    } else if i == 12 {
        KBKey::Home
    } else if i == 13 {
        KBKey::Left
    } else if i == 14 {
        KBKey::Up
    } else if i == 15 {
        KBKey::Right
    } else if i == 16 {
        KBKey::Down
    } else if i == 17 {
        KBKey::PrintScreen
    } else if i == 18 {
        KBKey::Insert
    } else if i == 19 {
        KBKey::Delete
    } else if i == 20 {
        KBKey::D0
    } else if i == 21 {
        KBKey::D1
    } else if i == 22 {
        KBKey::D2
    } else if i == 23 {
        KBKey::D3
    } else if i == 24 {
        KBKey::D4
    } else if i == 25 {
        KBKey::D5
    } else if i == 26 {
        KBKey::D6
    } else if i == 27 {
        KBKey::D7
    } else if i == 28 {
        KBKey::D8
    } else if i == 29 {
        KBKey::D9
    } else if i == 30 {
        KBKey::A
    } else if i == 31 {
        KBKey::B
    } else if i == 32 {
        KBKey::C
    } else if i == 33 {
        KBKey::D
    } else if i == 34 {
        KBKey::E
    } else if i == 35 {
        KBKey::F
    } else if i == 36 {
        KBKey::G
    } else if i == 37 {
        KBKey::H
    } else if i == 38 {
        KBKey::I
    } else if i == 39 {
        KBKey::J
    } else if i == 40 {
        KBKey::K
    } else if i == 41 {
        KBKey::L
    } else if i == 42 {
        KBKey::M
    } else if i == 43 {
        KBKey::N
    } else if i == 44 {
        KBKey::O
    } else if i == 45 {
        KBKey::P
    } else if i == 46 {
        KBKey::Q
    } else if i == 47 {
        KBKey::R
    } else if i == 48 {
        KBKey::S
    } else if i == 49 {
        KBKey::T
    } else if i == 50 {
        KBKey::U
    } else if i == 51 {
        KBKey::V
    } else if i == 52 {
        KBKey::W
    } else if i == 53 {
        KBKey::X
    } else if i == 54 {
        KBKey::Y
    } else if i == 55 {
        KBKey::Z
    } else if i == 56 {
        KBKey::N0
    } else if i == 57 {
        KBKey::N1
    } else if i == 58 {
        KBKey::N2
    } else if i == 59 {
        KBKey::N3
    } else if i == 60 {
        KBKey::N4
    } else if i == 61 {
        KBKey::N5
    } else if i == 62 {
        KBKey::N6
    } else if i == 63 {
        KBKey::N7
    } else if i == 64 {
        KBKey::N8
    } else if i == 65 {
        KBKey::N9
    } else if i == 66 {
        KBKey::NMul
    } else if i == 67 {
        KBKey::NAdd
    } else if i == 68 {
        KBKey::NSub
    } else if i == 69 {
        KBKey::NDec
    } else if i == 70 {
        KBKey::NDiv
    } else if i == 71 {
        KBKey::F1
    } else if i == 72 {
        KBKey::F2
    } else if i == 73 {
        KBKey::F3
    } else if i == 74 {
        KBKey::F4
    } else if i == 75 {
        KBKey::F5
    } else if i == 76 {
        KBKey::F6
    } else if i == 77 {
        KBKey::F7
    } else if i == 78 {
        KBKey::F8
    } else if i == 79 {
        KBKey::F9
    } else if i == 80 {
        KBKey::F10
    } else if i == 81 {
        KBKey::F11
    } else if i == 82 {
        KBKey::F12
    } else if i == 83 {
        KBKey::F13
    } else if i == 84 {
        KBKey::F14
    } else if i == 85 {
        KBKey::F15
    } else if i == 86 {
        KBKey::F16
    } else if i == 87 {
        KBKey::F17
    } else if i == 88 {
        KBKey::F18
    } else if i == 89 {
        KBKey::F19
    } else if i == 90 {
        KBKey::F20
    } else if i == 91 {
        KBKey::F21
    } else if i == 92 {
        KBKey::F22
    } else if i == 93 {
        KBKey::F23
    } else if i == 94 {
        KBKey::F24
    } else if i == 95 {
        KBKey::LShift
    } else if i == 96 {
        KBKey::Rshift
    } else if i == 97 {
        KBKey::LCtrl
    } else if i == 98 {
        KBKey::RCtrl
    } else if i == 99 {
        KBKey::LAlt
    } else if i == 100 {
        KBKey::RAlt
    } else if i == 101 {
        KBKey::Semicolon
    } else if i == 102 {
        KBKey::Plus
    } else if i == 103 {
        KBKey::Comma
    } else if i == 104 {
        KBKey::Minus
    } else if i == 105 {
        KBKey::Period
    } else if i == 106 {
        KBKey::Slash
    } else if i == 107 {
        KBKey::Tilda
    } else if i == 108 {
        KBKey::LBracket
    } else if i == 109 {
        KBKey::Backslash
    } else if i == 110 {
        KBKey::RBracket
    } else {
        KBKey::Quote
    }
}

impl KBKey {
    /// The key's slot in the keyboard state table.
    pub fn code(self) -> (r: u8)
        ensures
            r as int == kbkey_code(self),
    {
        match self {
            KBKey::Backspace => 0x08,
            KBKey::Tab => 0x09,
            KBKey::Enter => 0x0D,
            KBKey::Shift => 0x10,
            KBKey::Ctrl => 0x11,
            KBKey::Alt => 0x12,
            KBKey::CapsLock => 0x14,
            KBKey::Escape => 0x1B,
            KBKey::Space => 0x20,
            KBKey::PageUp => 0x21,
            KBKey::PageDown => 0x22,
            KBKey::End => 0x23,
            KBKey::Home => 0x24,
            KBKey::Left => 0x25,
            KBKey::Up => 0x26,
            KBKey::Right => 0x27,
            KBKey::Down => 0x28,
            KBKey::PrintScreen => 0x2C,
            KBKey::Insert => 0x2D,
            KBKey::Delete => 0x2E,
            KBKey::D0 => 0x30,
            KBKey::D1 => 0x31,
            KBKey::D2 => 0x32,
            KBKey::D3 => 0x33,
            KBKey::D4 => 0x34,
            KBKey::D5 => 0x35,
            KBKey::D6 => 0x36,
            KBKey::D7 => 0x37,
            KBKey::D8 => 0x38,
            KBKey::D9 => 0x39,
            KBKey::A => 0x41,
            KBKey::B => 0x42,
            KBKey::C => 0x43,
            KBKey::D => 0x44,
            KBKey::E => 0x45,
            KBKey::F => 0x46,
            KBKey::G => 0x47,
            KBKey::H => 0x48,
            KBKey::I => 0x49,
            KBKey::J => 0x4A,
            KBKey::K => 0x4B,
            KBKey::L => 0x4C,
            KBKey::M => 0x4D,
            KBKey::N => 0x4E,
            KBKey::O => 0x4F,
            KBKey::P => 0x50,
            KBKey::Q => 0x51,
            KBKey::R => 0x52,
            KBKey::S => 0x53,
            KBKey::T => 0x54,
            KBKey::U => 0x55,
            KBKey::V => 0x56,
            KBKey::W => 0x57,
            KBKey::X => 0x58,
            KBKey::Y => 0x59,
            KBKey::Z => 0x5A,
            KBKey::N0 => 0x60,
            KBKey::N1 => 0x61,
            KBKey::N2 => 0x62,
            KBKey::N3 => 0x63,
            KBKey::N4 => 0x64,
            KBKey::N5 => 0x65,
            KBKey::N6 => 0x66,
            KBKey::N7 => 0x67,
            KBKey::N8 => 0x68,
            KBKey::N9 => 0x69,
            KBKey::NMul => 0x6A,
            KBKey::NAdd => 0x6B,
            KBKey::NSub => 0x6D,
            KBKey::NDec => 0x6E,
            KBKey::NDiv => 0x6F,
            KBKey::F1 => 0x70,
            KBKey::F2 => 0x71,
            KBKey::F3 => 0x72,
            KBKey::F4 => 0x73,
            KBKey::F5 => 0x74,
            KBKey::F6 => 0x75,
            KBKey::F7 => 0x76,
            KBKey::F8 => 0x77,
            KBKey::F9 => 0x78,
            KBKey::F10 => 0x79,
            KBKey::F11 => 0x7A,
            KBKey::F12 => 0x7B,
            KBKey::F13 => 0x7C,
            KBKey::F14 => 0x7D,
            KBKey::F15 => 0x7E,
            KBKey::F16 => 0x7F,
            KBKey::F17 => 0x80,
            KBKey::F18 => 0x81,
            KBKey::F19 => 0x82,
            KBKey::F20 => 0x83,
            KBKey::F21 => 0x84,
            KBKey::F22 => 0x85,
            KBKey::F23 => 0x86,
            KBKey::F24 => 0x87,
            KBKey::LShift => 0xA0,
            KBKey::Rshift => 0xA1,
            KBKey::LCtrl => 0xA2,
            KBKey::RCtrl => 0xA3,
            KBKey::LAlt => 0xA4,
            KBKey::RAlt => 0xA5,
            KBKey::Semicolon => 0xBA,
            KBKey::Plus => 0xBB,
            KBKey::Comma => 0xBC,
            KBKey::Minus => 0xBD,
            KBKey::Period => 0xBE,
            KBKey::Slash => 0xBF,
            KBKey::Tilda => 0xC0,
            KBKey::LBracket => 0xDB,
            KBKey::Backslash => 0xDC,
            KBKey::RBracket => 0xDD,
            KBKey::Quote => 0xDE,
        }
    }

    /// Every key, in declaration order, each exactly once.
    pub fn variants() -> (r: Vec<KBKey>)
        ensures
            r@.len() == 112,
            forall|i: int| 0 <= i < 112 ==> r@[i] == kbkey_at(i),
    {
        let mut r = variants_part_0();
        let mut p1 = variants_part_1();
        let mut p2 = variants_part_2();
        let mut p3 = variants_part_3();
        r.append(&mut p1);
        r.append(&mut p2);
        r.append(&mut p3);
        r
    }
}

/// Keys 0 through 27 of the `variants` table.
#[verifier::rlimit(100)]
fn variants_part_0() -> (r: Vec<KBKey>)
    ensures
        r@.len() == 28,
        forall|i: int| 0 <= i < 28 ==> r@[i] == kbkey_at(i + 0),
{
    let mut r: Vec<KBKey> = Vec::new();
    r.push(KBKey::Backspace);
    proof { assert(r@.len() == 1 && forall|i: int| 0 <= i < 1 ==> r@[i] == kbkey_at(i + 0)); }
    r.push(KBKey::Tab);
    proof { assert(r@.len() == 2 && forall|i: int| 0 <= i < 2 ==> r@[i] == kbkey_at(i + 0)); }
    r.push(KBKey::Enter);
    proof { assert(r@.len() == 3 && forall|i: int| 0 <= i < 3 ==> r@[i] == kbkey_at(i + 0)); }
    r.push(KBKey::Shift);
    proof { assert(r@.len() == 4 && forall|i: int| 0 <= i < 4 ==> r@[i] == kbkey_at(i + 0)); }
    r.push(KBKey::Ctrl);
    proof { assert(r@.len() == 5 && forall|i: int| 0 <= i < 5 ==> r@[i] == kbkey_at(i + 0)); }
    r.push(KBKey::Alt);
    proof { assert(r@.len() == 6 && forall|i: int| 0 <= i < 6 ==> r@[i] == kbkey_at(i + 0)); }
    r.push(KBKey::CapsLock);
    proof { assert(r@.len() == 7 && forall|i: int| 0 <= i < 7 ==> r@[i] == kbkey_at(i + 0)); }
    r.push(KBKey::Escape);
    proof { assert(r@.len() == 8 && forall|i: int| 0 <= i < 8 ==> r@[i] == kbkey_at(i + 0)); }
    r.push(KBKey::Space);
    proof { assert(r@.len() == 9 && forall|i: int| 0 <= i < 9 ==> r@[i] == kbkey_at(i + 0)); }
    r.push(KBKey::PageUp);
    proof { assert(r@.len() == 10 && forall|i: int| 0 <= i < 10 ==> r@[i] == kbkey_at(i + 0)); }
    r.push(KBKey::PageDown);
    proof { assert(r@.len() == 11 && forall|i: int| 0 <= i < 11 ==> r@[i] == kbkey_at(i + 0)); }
    r.push(KBKey::End);
    proof { assert(r@.len() == 12 && forall|i: int| 0 <= i < 12 ==> r@[i] == kbkey_at(i + 0)); }
    r.push(KBKey::Home);
    proof { assert(r@.len() == 13 && forall|i: int| 0 <= i < 13 ==> r@[i] == kbkey_at(i + 0)); }
    r.push(KBKey::Left);
    proof { assert(r@.len() == 14 && forall|i: int| 0 <= i < 14 ==> r@[i] == kbkey_at(i + 0)); }
    r.push(KBKey::Up);
    proof { assert(r@.len() == 15 && forall|i: int| 0 <= i < 15 ==> r@[i] == kbkey_at(i + 0)); }
    r.push(KBKey::Right);
    proof { assert(r@.len() == 16 && forall|i: int| 0 <= i < 16 ==> r@[i] == kbkey_at(i + 0)); }
    r.push(KBKey::Down);
    proof { assert(r@.len() == 17 && forall|i: int| 0 <= i < 17 ==> r@[i] == kbkey_at(i + 0)); }
    r.push(KBKey::PrintScreen);
    proof { assert(r@.len() == 18 && forall|i: int| 0 <= i < 18 ==> r@[i] == kbkey_at(i + 0)); }
    r.push(KBKey::Insert);
    proof { assert(r@.len() == 19 && forall|i: int| 0 <= i < 19 ==> r@[i] == kbkey_at(i + 0)); }
    r.push(KBKey::Delete);
    proof { assert(r@.len() == 20 && forall|i: int| 0 <= i < 20 ==> r@[i] == kbkey_at(i + 0)); }
    r.push(KBKey::D0);
    proof { assert(r@.len() == 21 && forall|i: int| 0 <= i < 21 ==> r@[i] == kbkey_at(i + 0)); }
    r.push(KBKey::D1);
    proof { assert(r@.len() == 22 && forall|i: int| 0 <= i < 22 ==> r@[i] == kbkey_at(i + 0)); }
    r.push(KBKey::D2);
    proof { assert(r@.len() == 23 && forall|i: int| 0 <= i < 23 ==> r@[i] == kbkey_at(i + 0)); }
    r.push(KBKey::D3);
    proof { assert(r@.len() == 24 && forall|i: int| 0 <= i < 24 ==> r@[i] == kbkey_at(i + 0)); }
    r.push(KBKey::D4);
    proof { assert(r@.len() == 25 && forall|i: int| 0 <= i < 25 ==> r@[i] == kbkey_at(i + 0)); }
    r.push(KBKey::D5);
    proof { assert(r@.len() == 26 && forall|i: int| 0 <= i < 26 ==> r@[i] == kbkey_at(i + 0)); }
    r.push(KBKey::D6);
    proof { assert(r@.len() == 27 && forall|i: int| 0 <= i < 27 ==> r@[i] == kbkey_at(i + 0)); }
    r.push(KBKey::D7);
    proof { assert(r@.len() == 28 && forall|i: int| 0 <= i < 28 ==> r@[i] == kbkey_at(i + 0)); }
    r
}

/// Keys 28 through 55 of the `variants` table.
#[verifier::rlimit(100)]
fn variants_part_1() -> (r: Vec<KBKey>)
    ensures
        r@.len() == 28,
        forall|i: int| 0 <= i < 28 ==> r@[i] == kbkey_at(i + 28),
{
    let mut r: Vec<KBKey> = Vec::new();
    r.push(KBKey::D8);
    proof { assert(r@.len() == 1 && forall|i: int| 0 <= i < 1 ==> r@[i] == kbkey_at(i + 28)); }
    r.push(KBKey::D9);
    proof { assert(r@.len() == 2 && forall|i: int| 0 <= i < 2 ==> r@[i] == kbkey_at(i + 28)); }
    r.push(KBKey::A);
    proof { assert(r@.len() == 3 && forall|i: int| 0 <= i < 3 ==> r@[i] == kbkey_at(i + 28)); }
    r.push(KBKey::B);
    proof { assert(r@.len() == 4 && forall|i: int| 0 <= i < 4 ==> r@[i] == kbkey_at(i + 28)); }
    r.push(KBKey::C);
    proof { assert(r@.len() == 5 && forall|i: int| 0 <= i < 5 ==> r@[i] == kbkey_at(i + 28)); }
    r.push(KBKey::D);
    proof { assert(r@.len() == 6 && forall|i: int| 0 <= i < 6 ==> r@[i] == kbkey_at(i + 28)); }
    r.push(KBKey::E);
    proof { assert(r@.len() == 7 && forall|i: int| 0 <= i < 7 ==> r@[i] == kbkey_at(i + 28)); }
    r.push(KBKey::F);
    proof { assert(r@.len() == 8 && forall|i: int| 0 <= i < 8 ==> r@[i] == kbkey_at(i + 28)); }
    r.push(KBKey::G);
    proof { assert(r@.len() == 9 && forall|i: int| 0 <= i < 9 ==> r@[i] == kbkey_at(i + 28)); }
    r.push(KBKey::H);
    proof { assert(r@.len() == 10 && forall|i: int| 0 <= i < 10 ==> r@[i] == kbkey_at(i + 28)); }
    r.push(KBKey::I);
    proof { assert(r@.len() == 11 && forall|i: int| 0 <= i < 11 ==> r@[i] == kbkey_at(i + 28)); }
    r.push(KBKey::J);
    proof { assert(r@.len() == 12 && forall|i: int| 0 <= i < 12 ==> r@[i] == kbkey_at(i + 28)); }
    r.push(KBKey::K);
    proof { assert(r@.len() == 13 && forall|i: int| 0 <= i < 13 ==> r@[i] == kbkey_at(i + 28)); }
    r.push(KBKey::L);
    proof { assert(r@.len() == 14 && forall|i: int| 0 <= i < 14 ==> r@[i] == kbkey_at(i + 28)); }
    r.push(KBKey::M);
    proof { assert(r@.len() == 15 && forall|i: int| 0 <= i < 15 ==> r@[i] == kbkey_at(i + 28)); }
    r.push(KBKey::N);
    proof { assert(r@.len() == 16 && forall|i: int| 0 <= i < 16 ==> r@[i] == kbkey_at(i + 28)); }
    r.push(KBKey::O);
    proof { assert(r@.len() == 17 && forall|i: int| 0 <= i < 17 ==> r@[i] == kbkey_at(i + 28)); }
    r.push(KBKey::P);
    proof { assert(r@.len() == 18 && forall|i: int| 0 <= i < 18 ==> r@[i] == kbkey_at(i + 28)); }
    r.push(KBKey::Q);
    proof { assert(r@.len() == 19 && forall|i: int| 0 <= i < 19 ==> r@[i] == kbkey_at(i + 28)); }
    r.push(KBKey::R);
    proof { assert(r@.len() == 20 && forall|i: int| 0 <= i < 20 ==> r@[i] == kbkey_at(i + 28)); }
    r.push(KBKey::S);
    proof { assert(r@.len() == 21 && forall|i: int| 0 <= i < 21 ==> r@[i] == kbkey_at(i + 28)); }
    r.push(KBKey::T);
    proof { assert(r@.len() == 22 && forall|i: int| 0 <= i < 22 ==> r@[i] == kbkey_at(i + 28)); }
    r.push(KBKey::U);
    proof { assert(r@.len() == 23 && forall|i: int| 0 <= i < 23 ==> r@[i] == kbkey_at(i + 28)); }
    r.push(KBKey::V);
    proof { assert(r@.len() == 24 && forall|i: int| 0 <= i < 24 ==> r@[i] == kbkey_at(i + 28)); }
    r.push(KBKey::W);
    proof { assert(r@.len() == 25 && forall|i: int| 0 <= i < 25 ==> r@[i] == kbkey_at(i + 28)); }
    r.push(KBKey::X);
    proof { assert(r@.len() == 26 && forall|i: int| 0 <= i < 26 ==> r@[i] == kbkey_at(i + 28)); }
    r.push(KBKey::Y);
    proof { assert(r@.len() == 27 && forall|i: int| 0 <= i < 27 ==> r@[i] == kbkey_at(i + 28)); }
    r.push(KBKey::Z);
    proof { assert(r@.len() == 28 && forall|i: int| 0 <= i < 28 ==> r@[i] == kbkey_at(i + 28)); }
    r
}

/// Keys 56 through 83 of the `variants` table.
#[verifier::rlimit(100)]
fn variants_part_2() -> (r: Vec<KBKey>)
    ensures
        r@.len() == 28,
        forall|i: int| 0 <= i < 28 ==> r@[i] == kbkey_at(i + 56),
{
    let mut r: Vec<KBKey> = Vec::new();
    r.push(KBKey::N0);
    proof { assert(r@.len() == 1 && forall|i: int| 0 <= i < 1 ==> r@[i] == kbkey_at(i + 56)); }
    r.push(KBKey::N1);
    proof { assert(r@.len() == 2 && forall|i: int| 0 <= i < 2 ==> r@[i] == kbkey_at(i + 56)); }
    r.push(KBKey::N2);
    proof { assert(r@.len() == 3 && forall|i: int| 0 <= i < 3 ==> r@[i] == kbkey_at(i + 56)); }
    r.push(KBKey::N3);
    proof { assert(r@.len() == 4 && forall|i: int| 0 <= i < 4 ==> r@[i] == kbkey_at(i + 56)); }
    r.push(KBKey::N4);
    proof { assert(r@.len() == 5 && forall|i: int| 0 <= i < 5 ==> r@[i] == kbkey_at(i + 56)); }
    r.push(KBKey::N5);
    proof { assert(r@.len() == 6 && forall|i: int| 0 <= i < 6 ==> r@[i] == kbkey_at(i + 56)); }
    r.push(KBKey::N6);
    proof { assert(r@.len() == 7 && forall|i: int| 0 <= i < 7 ==> r@[i] == kbkey_at(i + 56)); }
    r.push(KBKey::N7);
    proof { assert(r@.len() == 8 && forall|i: int| 0 <= i < 8 ==> r@[i] == kbkey_at(i + 56)); }
    r.push(KBKey::N8);
    proof { assert(r@.len() == 9 && forall|i: int| 0 <= i < 9 ==> r@[i] == kbkey_at(i + 56)); }
    r.push(KBKey::N9);
    proof { assert(r@.len() == 10 && forall|i: int| 0 <= i < 10 ==> r@[i] == kbkey_at(i + 56)); }
    r.push(KBKey::NMul);
    proof { assert(r@.len() == 11 && forall|i: int| 0 <= i < 11 ==> r@[i] == kbkey_at(i + 56)); }
    r.push(KBKey::NAdd);
    proof { assert(r@.len() == 12 && forall|i: int| 0 <= i < 12 ==> r@[i] == kbkey_at(i + 56)); }
    r.push(KBKey::NSub);
    proof { assert(r@.len() == 13 && forall|i: int| 0 <= i < 13 ==> r@[i] == kbkey_at(i + 56)); }
    r.push(KBKey::NDec);
    proof { assert(r@.len() == 14 && forall|i: int| 0 <= i < 14 ==> r@[i] == kbkey_at(i + 56)); }
    r.push(KBKey::NDiv);
    proof { assert(r@.len() == 15 && forall|i: int| 0 <= i < 15 ==> r@[i] == kbkey_at(i + 56)); }
    r.push(KBKey::F1);
    proof { assert(r@.len() == 16 && forall|i: int| 0 <= i < 16 ==> r@[i] == kbkey_at(i + 56)); }
    r.push(KBKey::F2);
    proof { assert(r@.len() == 17 && forall|i: int| 0 <= i < 17 ==> r@[i] == kbkey_at(i + 56)); }
    r.push(KBKey::F3);
    proof { assert(r@.len() == 18 && forall|i: int| 0 <= i < 18 ==> r@[i] == kbkey_at(i + 56)); }
    r.push(KBKey::F4);
    proof { assert(r@.len() == 19 && forall|i: int| 0 <= i < 19 ==> r@[i] == kbkey_at(i + 56)); }
    r.push(KBKey::F5);
    proof { assert(r@.len() == 20 && forall|i: int| 0 <= i < 20 ==> r@[i] == kbkey_at(i + 56)); }
    r.push(KBKey::F6);
    proof { assert(r@.len() == 21 && forall|i: int| 0 <= i < 21 ==> r@[i] == kbkey_at(i + 56)); }
    r.push(KBKey::F7);
    proof { assert(r@.len() == 22 && forall|i: int| 0 <= i < 22 ==> r@[i] == kbkey_at(i + 56)); }
    r.push(KBKey::F8);
    proof { assert(r@.len() == 23 && forall|i: int| 0 <= i < 23 ==> r@[i] == kbkey_at(i + 56)); }
    r.push(KBKey::F9);
    proof { assert(r@.len() == 24 && forall|i: int| 0 <= i < 24 ==> r@[i] == kbkey_at(i + 56)); }
    r.push(KBKey::F10);
    proof { assert(r@.len() == 25 && forall|i: int| 0 <= i < 25 ==> r@[i] == kbkey_at(i + 56)); }
    r.push(KBKey::F11);
    proof { assert(r@.len() == 26 && forall|i: int| 0 <= i < 26 ==> r@[i] == kbkey_at(i + 56)); }
    r.push(KBKey::F12);
    proof { assert(r@.len() == 27 && forall|i: int| 0 <= i < 27 ==> r@[i] == kbkey_at(i + 56)); }
    r.push(KBKey::F13);
    proof { assert(r@.len() == 28 && forall|i: int| 0 <= i < 28 ==> r@[i] == kbkey_at(i + 56)); }
    r
}

/// Keys 84 through 111 of the `variants` table.
#[verifier::rlimit(100)]
fn variants_part_3() -> (r: Vec<KBKey>)
    ensures
        r@.len() == 28,
        forall|i: int| 0 <= i < 28 ==> r@[i] == kbkey_at(i + 84),
{
    let mut r: Vec<KBKey> = Vec::new();
    r.push(KBKey::F14);
    proof { assert(r@.len() == 1 && forall|i: int| 0 <= i < 1 ==> r@[i] == kbkey_at(i + 84)); }
    r.push(KBKey::F15);
    proof { assert(r@.len() == 2 && forall|i: int| 0 <= i < 2 ==> r@[i] == kbkey_at(i + 84)); }
    r.push(KBKey::F16);
    proof { assert(r@.len() == 3 && forall|i: int| 0 <= i < 3 ==> r@[i] == kbkey_at(i + 84)); }
    r.push(KBKey::F17);
    proof { assert(r@.len() == 4 && forall|i: int| 0 <= i < 4 ==> r@[i] == kbkey_at(i + 84)); }
    r.push(KBKey::F18);
    proof { assert(r@.len() == 5 && forall|i: int| 0 <= i < 5 ==> r@[i] == kbkey_at(i + 84)); }
    r.push(KBKey::F19);
    proof { assert(r@.len() == 6 && forall|i: int| 0 <= i < 6 ==> r@[i] == kbkey_at(i + 84)); }
    r.push(KBKey::F20);
    proof { assert(r@.len() == 7 && forall|i: int| 0 <= i < 7 ==> r@[i] == kbkey_at(i + 84)); }
    r.push(KBKey::F21);
    proof { assert(r@.len() == 8 && forall|i: int| 0 <= i < 8 ==> r@[i] == kbkey_at(i + 84)); }
    r.push(KBKey::F22);
    proof { assert(r@.len() == 9 && forall|i: int| 0 <= i < 9 ==> r@[i] == kbkey_at(i + 84)); }
    r.push(KBKey::F23);
    proof { assert(r@.len() == 10 && forall|i: int| 0 <= i < 10 ==> r@[i] == kbkey_at(i + 84)); }
    r.push(KBKey::F24);
    proof { assert(r@.len() == 11 && forall|i: int| 0 <= i < 11 ==> r@[i] == kbkey_at(i + 84)); }
    r.push(KBKey::LShift);
    proof { assert(r@.len() == 12 && forall|i: int| 0 <= i < 12 ==> r@[i] == kbkey_at(i + 84)); }
    r.push(KBKey::Rshift);
    proof { assert(r@.len() == 13 && forall|i: int| 0 <= i < 13 ==> r@[i] == kbkey_at(i + 84)); }
    r.push(KBKey::LCtrl);
    proof { assert(r@.len() == 14 && forall|i: int| 0 <= i < 14 ==> r@[i] == kbkey_at(i + 84)); }
    r.push(KBKey::RCtrl);
    proof { assert(r@.len() == 15 && forall|i: int| 0 <= i < 15 ==> r@[i] == kbkey_at(i + 84)); }
    r.push(KBKey::LAlt);
    proof { assert(r@.len() == 16 && forall|i: int| 0 <= i < 16 ==> r@[i] == kbkey_at(i + 84)); }
    r.push(KBKey::RAlt);
    proof { assert(r@.len() == 17 && forall|i: int| 0 <= i < 17 ==> r@[i] == kbkey_at(i + 84)); }
    r.push(KBKey::Semicolon);
    proof { assert(r@.len() == 18 && forall|i: int| 0 <= i < 18 ==> r@[i] == kbkey_at(i + 84)); }
    r.push(KBKey::Plus);
    proof { assert(r@.len() == 19 && forall|i: int| 0 <= i < 19 ==> r@[i] == kbkey_at(i + 84)); }
    r.push(KBKey::Comma);
    proof { assert(r@.len() == 20 && forall|i: int| 0 <= i < 20 ==> r@[i] == kbkey_at(i + 84)); }
    r.push(KBKey::Minus);
    proof { assert(r@.len() == 21 && forall|i: int| 0 <= i < 21 ==> r@[i] == kbkey_at(i + 84)); }
    r.push(KBKey::Period);
    proof { assert(r@.len() == 22 && forall|i: int| 0 <= i < 22 ==> r@[i] == kbkey_at(i + 84)); }
    r.push(KBKey::Slash);
    proof { assert(r@.len() == 23 && forall|i: int| 0 <= i < 23 ==> r@[i] == kbkey_at(i + 84)); }
    r.push(KBKey::Tilda);
    proof { assert(r@.len() == 24 && forall|i: int| 0 <= i < 24 ==> r@[i] == kbkey_at(i + 84)); }
    r.push(KBKey::LBracket);
    proof { assert(r@.len() == 25 && forall|i: int| 0 <= i < 25 ==> r@[i] == kbkey_at(i + 84)); }
    r.push(KBKey::Backslash);
    proof { assert(r@.len() == 26 && forall|i: int| 0 <= i < 26 ==> r@[i] == kbkey_at(i + 84)); }
    r.push(KBKey::RBracket);
    proof { assert(r@.len() == 27 && forall|i: int| 0 <= i < 27 ==> r@[i] == kbkey_at(i + 84)); }
    r.push(KBKey::Quote);
    proof { assert(r@.len() == 28 && forall|i: int| 0 <= i < 28 ==> r@[i] == kbkey_at(i + 84)); }
    r
}

/// Per-key keyboard state, indexed by virtual-key code.
pub struct KeyboardState {
    keys: Vec<DigitalKey>,
}

impl KeyboardState {
    /// The state table, one entry per possible code.
    pub closed spec fn view(&self) -> Seq<DigitalKey> {
        self.keys@
    }

    pub open spec fn wf(&self) -> bool {
        self.view().len() == 256
    }

    /// All keys released, with no edges pending.
    pub fn new() -> (r: KeyboardState)
        ensures
            r.wf(),
            forall|i: int| 0 <= i < 256 ==> !(#[trigger] r.view()[i]).curr && !r.view()[i].prev,
    {
        let mut keys: Vec<DigitalKey> = Vec::new();
        while keys.len() < 256
            invariant
                keys@.len() <= 256,
                forall|i: int|
                    0 <= i < keys@.len() ==> !(#[trigger] keys@[i]).curr && !keys@[i].prev,
            decreases 256 - keys@.len(),
        {
            keys.push(DigitalKey::new());
        }
        KeyboardState { keys }
    }

    /// The state of one key.
    pub fn key(&self, k: KBKey) -> (r: DigitalKey)
        requires
            self.wf(),
        ensures
            r == self.view()[kbkey_code(k)],
    {
        proof {
            assert(0 <= kbkey_code(k) < 256);
        }
        self.keys[k.code() as usize]
    }

    /// Records a key's new level.
    pub fn set_key(&mut self, k: KBKey, down: bool)
        requires
            old(self).wf(),
        ensures
            final(self).wf(),
            final(self).view() == old(self).view().update(
                kbkey_code(k),
                DigitalKey { curr: down, prev: old(self).view()[kbkey_code(k)].curr },
            ),
    {
        proof {
            assert(0 <= kbkey_code(k) < 256);
        }
        let idx = k.code() as usize;
        let mut d = self.keys[idx];
        d.update(down);
        self.keys.set(idx, d);
    }
}

/// The mouse buttons the engine distinguishes.
#[derive(Copy, Clone, PartialEq, Eq, Structural, Debug)]
pub enum MouseKey {
    LB,
    RB,
    MB,
}

/// The slot of a button in the mouse state table.
pub open spec fn mousekey_code(k: MouseKey) -> int {
    match k {
        MouseKey::LB => 0,
        MouseKey::RB => 1,
        MouseKey::MB => 2,
    }
}

/// Mouse position in window pixels, plus per-button state.
pub struct MouseState {
    pub x: i32,
    pub y: i32,
    pub keys: Vec<DigitalKey>,
}

impl MouseState {
    /// The button table.
    pub open spec fn buttons(&self) -> Seq<DigitalKey> {
        self.keys@
    }

    pub open spec fn wf(&self) -> bool {
        self.buttons().len() == 3
    }

    /// At the origin with every button up.
    pub fn new() -> (r: MouseState)
        ensures
            r.wf(),
            r.x == 0 && r.y == 0,
            forall|i: int| 0 <= i < 3 ==> !(#[trigger] r.buttons()[i]).curr && !r.buttons()[i].prev,
    {
        let mut keys: Vec<DigitalKey> = Vec::new();
        keys.push(DigitalKey::new());
        keys.push(DigitalKey::new());
        keys.push(DigitalKey::new());
        MouseState { x: 0, y: 0, keys }
    }

    /// The cursor position.
    pub fn pos(&self) -> (r: (i32, i32))
        ensures
            r.0 == self.x,
            r.1 == self.y,
    {
        (self.x, self.y)
    }

    /// The state of one button.
    pub fn key(&self, k: MouseKey) -> (r: DigitalKey)
        requires
            self.wf(),
        ensures
            r == self.buttons()[mousekey_code(k)],
    {
        let idx: usize = match k {
            MouseKey::LB => 0,
            MouseKey::RB => 1,
            MouseKey::MB => 2,
        };
        self.keys[idx]
    }

    /// Records a button's new level.
    pub fn set_key(&mut self, k: MouseKey, down: bool)
        requires
            old(self).wf(),
        ensures
            final(self).wf(),
            final(self).buttons() == old(self).buttons().update(
                mousekey_code(k),
                DigitalKey { curr: down, prev: old(self).buttons()[mousekey_code(k)].curr },
            ),
            final(self).x == old(self).x,
            final(self).y == old(self).y,
    {
        let idx: usize = match k {
            MouseKey::LB => 0,
            MouseKey::RB => 1,
            MouseKey::MB => 2,
        };
        let mut d = self.keys[idx];
        d.update(down);
        self.keys.set(idx, d);
    }
}

/// One frame's input snapshot: keyboard, mouse, and the frame time in
/// seconds.
pub struct Input {
    pub keyboard: KeyboardState,
    pub mouse: MouseState,
    pub dt: Fx,
}

impl Input {
    pub open spec fn wf(&self) -> bool {
        &&& self.keyboard.wf()
        &&& self.mouse.wf()
    }

    /// Everything released, zero frame time.
    pub fn new() -> (r: Input)
        ensures
            r.wf(),
    {
        Input { keyboard: KeyboardState::new(), mouse: MouseState::new(), dt: Fx::zero() }
    }
}

} // verus!
