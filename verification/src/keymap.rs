//! Translation of client-side virtual key codes to the Linux input event
//! codes the protocol carries. Codes without a Linux counterpart have no
//! mapping and are left out by the callers.

use vstd::prelude::*;

verus! {

/// A virtual key code as a windowing toolkit reports it.
#[derive(Clone, Copy, Debug, PartialEq, Eq, Structural)]
pub enum VirtualKeyCode {
    Key1,
    Key2,
    Key3,
    Key4,
    Key5,
    Key6,
    Key7,
    Key8,
    Key9,
    Key0,
    A,
    B,
    C,
    D,
    E,
    F,
    G,
    H,
    I,
    J,
    K,
    L,
    M,
    N,
    O,
    P,
    Q,
    R,
    S,
    T,
    U,
    V,
    W,
    X,
    Y,
    Z,
    Escape,
    F1,
    F2,
    F3,
    F4,
    F5,
    F6,
    F7,
    F8,
    F9,
    F10,
    F11,
    F12,
    F13,
    F14,
    F15,
    F16,
    F17,
    F18,
    F19,
    F20,
    F21,
    F22,
    F23,
    F24,
    Snapshot,
    Scroll,
    Pause,
    Insert,
    Home,
    Delete,
    End,
    PageDown,
    PageUp,
    Left,
    Up,
    Right,
    Down,
    Back,
    Return,
    Space,
    Compose,
    Caret,
    Numlock,
    Numpad0,
    Numpad1,
    Numpad2,
    Numpad3,
    Numpad4,
    Numpad5,
    Numpad6,
    Numpad7,
    Numpad8,
    Numpad9,
    NumpadAdd,
    NumpadDivide,
    NumpadDecimal,
    NumpadComma,
    NumpadEnter,
    NumpadEquals,
    NumpadMultiply,
    NumpadSubtract,
    AbntC1,
    AbntC2,
    Apostrophe,
    Apps,
    Asterisk,
    At,
    Ax,
    Backslash,
    Calculator,
    Capital,
    Colon,
    Comma,
    Convert,
    Equals,
    Grave,
    Kana,
    Kanji,
    LAlt,
    LBracket,
    LControl,
    LShift,
    LWin,
    Mail,
    MediaSelect,
    MediaStop,
    Minus,
    Mute,
    MyComputer,
    NavigateForward,
    NavigateBackward,
    NextTrack,
    NoConvert,
    OEM102,
    Period,
    PlayPause,
    Plus,
    Power,
    PrevTrack,
    RAlt,
    RBracket,
    RControl,
    RShift,
    RWin,
    Semicolon,
    Slash,
    Sleep,
    Stop,
    Sysrq,
    Tab,
    Underline,
    Unlabeled,
    VolumeDown,
    VolumeUp,
    Wake,
    WebBack,
    WebFavorites,
    WebForward,
    WebHome,
    WebRefresh,
    WebSearch,
    WebStop,
    Yen,
    Copy,
    Paste,
    Cut,
}

/// The Linux input event code a virtual key code stands for, if it has
/// one.
pub open spec fn spec_linux_input_code(vkc: VirtualKeyCode) -> Option<u32> {
    match vkc {
        VirtualKeyCode::Key1 => Some(2u32),
        VirtualKeyCode::Key2 => Some(3u32),
        VirtualKeyCode::Key3 => Some(4u32),
        VirtualKeyCode::Key4 => Some(5u32),
        VirtualKeyCode::Key5 => Some(6u32),
        VirtualKeyCode::Key6 => Some(7u32),
        VirtualKeyCode::Key7 => Some(8u32),
        VirtualKeyCode::Key8 => Some(9u32),
        VirtualKeyCode::Key9 => Some(10u32),
        VirtualKeyCode::Key0 => Some(11u32),
        VirtualKeyCode::A => Some(30u32),
        VirtualKeyCode::B => Some(48u32),
        VirtualKeyCode::C => Some(46u32),
        VirtualKeyCode::D => Some(32u32),
        VirtualKeyCode::E => Some(18u32),
        VirtualKeyCode::F => Some(33u32),
        VirtualKeyCode::G => Some(34u32),
        VirtualKeyCode::H => Some(35u32),
        VirtualKeyCode::I => Some(23u32),
        VirtualKeyCode::J => Some(36u32),
        VirtualKeyCode::K => Some(37u32),
        VirtualKeyCode::L => Some(38u32),
        VirtualKeyCode::M => Some(50u32),
        VirtualKeyCode::N => Some(49u32),
        VirtualKeyCode::O => Some(24u32),
        VirtualKeyCode::P => Some(25u32),
        VirtualKeyCode::Q => Some(16u32),
        VirtualKeyCode::R => Some(19u32),
        VirtualKeyCode::S => Some(31u32),
        VirtualKeyCode::T => Some(20u32),
        VirtualKeyCode::U => Some(22u32),
        VirtualKeyCode::V => Some(47u32),
        VirtualKeyCode::W => Some(17u32),
        VirtualKeyCode::X => Some(45u32),
        VirtualKeyCode::Y => Some(21u32),
        VirtualKeyCode::Z => Some(44u32),
        VirtualKeyCode::Escape => Some(1u32),
        VirtualKeyCode::F1 => Some(59u32),
        VirtualKeyCode::F2 => Some(60u32),
        VirtualKeyCode::F3 => Some(61u32),
        VirtualKeyCode::F4 => Some(62u32),
        VirtualKeyCode::F5 => Some(63u32),
        VirtualKeyCode::F6 => Some(64u32),
        VirtualKeyCode::F7 => Some(65u32),
        VirtualKeyCode::F8 => Some(66u32),
        VirtualKeyCode::F9 => Some(67u32),
        VirtualKeyCode::F10 => Some(68u32),
        VirtualKeyCode::F11 => Some(87u32),
        VirtualKeyCode::F12 => Some(88u32),
        VirtualKeyCode::F13 => Some(183u32),
        VirtualKeyCode::F14 => Some(184u32),
        VirtualKeyCode::F15 => Some(185u32),
        VirtualKeyCode::F16 => Some(186u32),
        VirtualKeyCode::F17 => Some(187u32),
        VirtualKeyCode::F18 => Some(188u32),
        VirtualKeyCode::F19 => Some(189u32),
        VirtualKeyCode::F20 => Some(190u32),
        VirtualKeyCode::F21 => Some(191u32),
        VirtualKeyCode::F22 => Some(192u32),
        VirtualKeyCode::F23 => Some(193u32),
        VirtualKeyCode::F24 => Some(194u32),
        VirtualKeyCode::Snapshot => Some(210u32),
        VirtualKeyCode::Scroll => Some(70u32),
        VirtualKeyCode::Pause => Some(119u32),
        VirtualKeyCode::Insert => Some(110u32),
        VirtualKeyCode::Home => Some(102u32),
        VirtualKeyCode::Delete => Some(111u32),
        VirtualKeyCode::End => Some(107u32),
        VirtualKeyCode::PageDown => Some(109u32),
        VirtualKeyCode::PageUp => Some(104u32),
        VirtualKeyCode::Left => Some(105u32),
        VirtualKeyCode::Up => Some(103u32),
        VirtualKeyCode::Right => Some(106u32),
        VirtualKeyCode::Down => Some(108u32),
        VirtualKeyCode::Back => Some(14u32),
        VirtualKeyCode::Return => Some(28u32),
        VirtualKeyCode::Space => Some(57u32),
        VirtualKeyCode::Compose => Some(127u32),
        VirtualKeyCode::Caret => None,
        VirtualKeyCode::Numlock => Some(69u32),
        VirtualKeyCode::Numpad0 => Some(512u32),
        VirtualKeyCode::Numpad1 => Some(513u32),
        VirtualKeyCode::Numpad2 => Some(514u32),
        VirtualKeyCode::Numpad3 => Some(515u32),
        VirtualKeyCode::Numpad4 => Some(516u32),
        VirtualKeyCode::Numpad5 => Some(517u32),
        VirtualKeyCode::Numpad6 => Some(518u32),
        VirtualKeyCode::Numpad7 => Some(519u32),
        VirtualKeyCode::Numpad8 => Some(520u32),
        VirtualKeyCode::Numpad9 => Some(521u32),
        VirtualKeyCode::NumpadAdd => Some(78u32),
        VirtualKeyCode::NumpadDivide => Some(98u32),
        VirtualKeyCode::NumpadDecimal => Some(83u32),
        VirtualKeyCode::NumpadComma => Some(121u32),
        VirtualKeyCode::NumpadEnter => Some(96u32),
        VirtualKeyCode::NumpadEquals => Some(117u32),
        VirtualKeyCode::NumpadMultiply => Some(522u32),
        VirtualKeyCode::NumpadSubtract => Some(74u32),
        VirtualKeyCode::AbntC1 => None,
        VirtualKeyCode::AbntC2 => None,
        VirtualKeyCode::Apostrophe => Some(40u32),
        VirtualKeyCode::Apps => Some(580u32),
        VirtualKeyCode::Asterisk => Some(55u32),
        VirtualKeyCode::At => Some(215u32),
        VirtualKeyCode::Ax => Some(55u32),
        VirtualKeyCode::Backslash => Some(43u32),
        VirtualKeyCode::Calculator => Some(140u32),
        VirtualKeyCode::Capital => Some(58u32),
        VirtualKeyCode::Colon => None,
        VirtualKeyCode::Comma => Some(51u32),
        VirtualKeyCode::Convert => None,
        VirtualKeyCode::Equals => Some(13u32),
        VirtualKeyCode::Grave => Some(41u32),
        VirtualKeyCode::Kana => Some(90u32),
        VirtualKeyCode::Kanji => None,
        VirtualKeyCode::LAlt => Some(56u32),
        VirtualKeyCode::LBracket => Some(26u32),
        VirtualKeyCode::LControl => Some(29u32),
        VirtualKeyCode::LShift => Some(42u32),
        VirtualKeyCode::LWin => Some(125u32),
        VirtualKeyCode::Mail => Some(155u32),
        VirtualKeyCode::MediaSelect => Some(226u32),
        VirtualKeyCode::MediaStop => Some(128u32),
        VirtualKeyCode::Minus => Some(12u32),
        VirtualKeyCode::Mute => Some(113u32),
        VirtualKeyCode::MyComputer => Some(157u32),
        VirtualKeyCode::NavigateForward => Some(407u32),
        VirtualKeyCode::NavigateBackward => Some(412u32),
        VirtualKeyCode::NextTrack => Some(163u32),
        VirtualKeyCode::NoConvert => None,
        VirtualKeyCode::OEM102 => None,
        VirtualKeyCode::Period => Some(52u32),
        VirtualKeyCode::PlayPause => Some(164u32),
        VirtualKeyCode::Plus => Some(78u32),
        VirtualKeyCode::Power => Some(116u32),
        VirtualKeyCode::PrevTrack => Some(165u32),
        VirtualKeyCode::RAlt => Some(100u32),
        VirtualKeyCode::RBracket => Some(27u32),
        VirtualKeyCode::RControl => Some(97u32),
        VirtualKeyCode::RShift => Some(54u32),
        VirtualKeyCode::RWin => Some(126u32),
        VirtualKeyCode::Semicolon => Some(39u32),
        VirtualKeyCode::Slash => Some(53u32),
        VirtualKeyCode::Sleep => Some(142u32),
        VirtualKeyCode::Stop => Some(128u32),
        VirtualKeyCode::Sysrq => Some(99u32),
        VirtualKeyCode::Tab => Some(15u32),
        VirtualKeyCode::Underline => None,
        VirtualKeyCode::Unlabeled => None,
        VirtualKeyCode::VolumeDown => Some(114u32),
        VirtualKeyCode::VolumeUp => Some(115u32),
        VirtualKeyCode::Wake => Some(143u32),
        VirtualKeyCode::WebBack => Some(158u32),
        VirtualKeyCode::WebFavorites => Some(364u32),
        VirtualKeyCode::WebForward => Some(159u32),
        VirtualKeyCode::WebHome => Some(172u32),
        VirtualKeyCode::WebRefresh => Some(173u32),
        VirtualKeyCode::WebSearch => Some(217u32),
        VirtualKeyCode::WebStop => Some(128u32),
        VirtualKeyCode::Yen => Some(124u32),
        VirtualKeyCode::Copy => Some(133u32),
        VirtualKeyCode::Paste => Some(135u32),
        VirtualKeyCode::Cut => Some(137u32),
    }
}

impl VirtualKeyCode {
    /// Whether this key code has a Linux input event code.
    pub fn has_linux_mapping(self) -> (r: bool)
        ensures
            r == (spec_linux_input_code(self) is Some),
    {
        match self {
            VirtualKeyCode::Caret => false,
            VirtualKeyCode::AbntC1 => false,
            VirtualKeyCode::AbntC2 => false,
            VirtualKeyCode::Colon => false,
            VirtualKeyCode::Convert => false,
            VirtualKeyCode::Kanji => false,
            VirtualKeyCode::NoConvert => false,
            VirtualKeyCode::OEM102 => false,
            VirtualKeyCode::Underline => false,
            VirtualKeyCode::Unlabeled => false,
            _ => true,
        }
    }
}

/// The Linux input event code for a virtual key code that has one.
pub fn virtual_key_code_to_linux_input(vkc: VirtualKeyCode) -> (r: u32)
    requires
        spec_linux_input_code(vkc) is Some,
    ensures
        Some(r) == spec_linux_input_code(vkc),
{
    match vkc {
        VirtualKeyCode::Key1 => 2,
        VirtualKeyCode::Key2 => 3,
        VirtualKeyCode::Key3 => 4,
        VirtualKeyCode::Key4 => 5,
        VirtualKeyCode::Key5 => 6,
        VirtualKeyCode::Key6 => 7,
        VirtualKeyCode::Key7 => 8,
        VirtualKeyCode::Key8 => 9,
        VirtualKeyCode::Key9 => 10,
        VirtualKeyCode::Key0 => 11,
        VirtualKeyCode::A => 30,
        VirtualKeyCode::B => 48,
        VirtualKeyCode::C => 46,
        VirtualKeyCode::D => 32,
        VirtualKeyCode::E => 18,
        VirtualKeyCode::F => 33,
        VirtualKeyCode::G => 34,
        VirtualKeyCode::H => 35,
        VirtualKeyCode::I => 23,
        VirtualKeyCode::J => 36,
        VirtualKeyCode::K => 37,
        VirtualKeyCode::L => 38,
        VirtualKeyCode::M => 50,
        VirtualKeyCode::N => 49,
        VirtualKeyCode::O => 24,
        VirtualKeyCode::P => 25,
        VirtualKeyCode::Q => 16,
        VirtualKeyCode::R => 19,
        VirtualKeyCode::S => 31,
        VirtualKeyCode::T => 20,
        VirtualKeyCode::U => 22,
        VirtualKeyCode::V => 47,
        VirtualKeyCode::W => 17,
        VirtualKeyCode::X => 45,
        VirtualKeyCode::Y => 21,
        VirtualKeyCode::Z => 44,
        VirtualKeyCode::Escape => 1,
        VirtualKeyCode::F1 => 59,
        VirtualKeyCode::F2 => 60,
        VirtualKeyCode::F3 => 61,
        VirtualKeyCode::F4 => 62,
        VirtualKeyCode::F5 => 63,
        VirtualKeyCode::F6 => 64,
        VirtualKeyCode::F7 => 65,
        VirtualKeyCode::F8 => 66,
        VirtualKeyCode::F9 => 67,
        VirtualKeyCode::F10 => 68,
        VirtualKeyCode::F11 => 87,
        VirtualKeyCode::F12 => 88,
        VirtualKeyCode::F13 => 183,
        VirtualKeyCode::F14 => 184,
        VirtualKeyCode::F15 => 185,
        VirtualKeyCode::F16 => 186,
        VirtualKeyCode::F17 => 187,
        VirtualKeyCode::F18 => 188,
        VirtualKeyCode::F19 => 189,
        VirtualKeyCode::F20 => 190,
        VirtualKeyCode::F21 => 191,
        VirtualKeyCode::F22 => 192,
        VirtualKeyCode::F23 => 193,
        VirtualKeyCode::F24 => 194,
        VirtualKeyCode::Snapshot => 210,
        VirtualKeyCode::Scroll => 70,
        VirtualKeyCode::Pause => 119,
        VirtualKeyCode::Insert => 110,
        VirtualKeyCode::Home => 102,
        VirtualKeyCode::Delete => 111,
        VirtualKeyCode::End => 107,
        VirtualKeyCode::PageDown => 109,
        VirtualKeyCode::PageUp => 104,
        VirtualKeyCode::Left => 105,
        VirtualKeyCode::Up => 103,
        VirtualKeyCode::Right => 106,
        VirtualKeyCode::Down => 108,
        VirtualKeyCode::Back => 14,
        VirtualKeyCode::Return => 28,
        VirtualKeyCode::Space => 57,
        VirtualKeyCode::Compose => 127,
        VirtualKeyCode::Numlock => 69,
        VirtualKeyCode::Numpad0 => 512,
        VirtualKeyCode::Numpad1 => 513,
        VirtualKeyCode::Numpad2 => 514,
        VirtualKeyCode::Numpad3 => 515,
        VirtualKeyCode::Numpad4 => 516,
        VirtualKeyCode::Numpad5 => 517,
        VirtualKeyCode::Numpad6 => 518,
        VirtualKeyCode::Numpad7 => 519,
        VirtualKeyCode::Numpad8 => 520,
        VirtualKeyCode::Numpad9 => 521,
        VirtualKeyCode::NumpadAdd => 78,
        VirtualKeyCode::NumpadDivide => 98,
        VirtualKeyCode::NumpadDecimal => 83,
        VirtualKeyCode::NumpadComma => 121,
        VirtualKeyCode::NumpadEnter => 96,
        VirtualKeyCode::NumpadEquals => 117,
        VirtualKeyCode::NumpadMultiply => 522,
        VirtualKeyCode::NumpadSubtract => 74,
        VirtualKeyCode::Apostrophe => 40,
        VirtualKeyCode::Apps => 580,
        VirtualKeyCode::Asterisk => 55,
        VirtualKeyCode::At => 215,
        VirtualKeyCode::Ax => 55,
        VirtualKeyCode::Backslash => 43,
        VirtualKeyCode::Calculator => 140,
        VirtualKeyCode::Capital => 58,
        VirtualKeyCode::Comma => 51,
        VirtualKeyCode::Equals => 13,
        VirtualKeyCode::Grave => 41,
        VirtualKeyCode::Kana => 90,
        VirtualKeyCode::LAlt => 56,
        VirtualKeyCode::LBracket => 26,
        VirtualKeyCode::LControl => 29,
        VirtualKeyCode::LShift => 42,
        VirtualKeyCode::LWin => 125,
        VirtualKeyCode::Mail => 155,
        VirtualKeyCode::MediaSelect => 226,
        VirtualKeyCode::MediaStop => 128,
        VirtualKeyCode::Minus => 12,
        VirtualKeyCode::Mute => 113,
        VirtualKeyCode::MyComputer => 157,
        VirtualKeyCode::NavigateForward => 407,
        VirtualKeyCode::NavigateBackward => 412,
        VirtualKeyCode::NextTrack => 163,
        VirtualKeyCode::Period => 52,
        VirtualKeyCode::PlayPause => 164,
        VirtualKeyCode::Plus => 78,
        VirtualKeyCode::Power => 116,
        VirtualKeyCode::PrevTrack => 165,
        VirtualKeyCode::RAlt => 100,
        VirtualKeyCode::RBracket => 27,
        VirtualKeyCode::RControl => 97,
        VirtualKeyCode::RShift => 54,
        VirtualKeyCode::RWin => 126,
        VirtualKeyCode::Semicolon => 39,
        VirtualKeyCode::Slash => 53,
        VirtualKeyCode::Sleep => 142,
        VirtualKeyCode::Stop => 128,
        VirtualKeyCode::Sysrq => 99,
        VirtualKeyCode::Tab => 15,
        VirtualKeyCode::VolumeDown => 114,
        VirtualKeyCode::VolumeUp => 115,
        VirtualKeyCode::Wake => 143,
        VirtualKeyCode::WebBack => 158,
        VirtualKeyCode::WebFavorites => 364,
        VirtualKeyCode::WebForward => 159,
        VirtualKeyCode::WebHome => 172,
        VirtualKeyCode::WebRefresh => 173,
        VirtualKeyCode::WebSearch => 217,
        VirtualKeyCode::WebStop => 128,
        VirtualKeyCode::Yen => 124,
        VirtualKeyCode::Copy => 133,
        VirtualKeyCode::Paste => 135,
        VirtualKeyCode::Cut => 137,
        VirtualKeyCode::Caret | VirtualKeyCode::AbntC1 | VirtualKeyCode::AbntC2 | VirtualKeyCode::Colon | VirtualKeyCode::Convert | VirtualKeyCode::Kanji | VirtualKeyCode::NoConvert | VirtualKeyCode::OEM102 | VirtualKeyCode::Underline | VirtualKeyCode::Unlabeled => 0,
    }
}

} // verus!
