//! The key translation table.
//!
//! Maps a native physical-key identifier string to a portable virtual key
//! code, and a virtual key code to its classic PC scan code where one exists.
//! Both lookups are pure; the table is stated once as a specification and the
//! executable lookup is proved to match it.

use vstd::prelude::*;

use crate::text::str_eq;

verus! {

/// A portable virtual key code.
#[derive(Clone, Copy, Debug, PartialEq, Eq, Structural)]
pub enum VirtualKeyCode {
    Escape, Key1, Key2, Key3, Key4, Key5,
    Key6, Key7, Key8, Key9, Key0, Minus,
    Equals, Backspace, Tab, Q, W, E,
    R, T, Y, U, I, O,
    P, LBracket, RBracket, Return, LControl, A,
    S, D, F, G, H, J,
    K, L, Semicolon, Apostrophe, Grave, LShift,
    Backslash, Z, X, C, V, B,
    N, M, Comma, Period, Slash, RShift,
    NumpadMultiply, LAlt, Space, Capital, F1, F2,
    F3, F4, F5, F6, F7, F8,
    F9, F10, PauseBreak, ScrollLock, Numpad7, Numpad8,
    Numpad9, NumpadSubtract, Numpad4, Numpad5, Numpad6, NumpadAdd,
    Numpad1, Numpad2, Numpad3, Numpad0, NumpadDecimal, PrintScreen,
    F11, F12, NumpadEquals, F13, F14, F15,
    F16, F17, F18, F19, F20, F21,
    F22, F23, Kana, F24, Convert, NoConvert,
    Yen, NumpadComma, Paste, PrevTrack, Cut, Copy,
    NextTrack, NumpadEnter, RControl, Mute, PlayPause, MediaStop,
    VolumeDown, VolumeUp, WebHome, NumpadDivide, RAlt, Numlock,
    Home, Up, PageUp, Left, Right, End,
    Down, PageDown, Insert, Delete, LWin, RWin,
    Power, WebSearch, WebFavorites, WebRefresh, Stop, WebForward,
    WebBack, Mail, MediaSelect,
}

pub open spec fn key_code_part_0_spec(code: Seq<char>) -> Option<VirtualKeyCode> {
    if code == "Escape"@ {
        Some(VirtualKeyCode::Escape)
    } else if code == "Digit1"@ {
        Some(VirtualKeyCode::Key1)
    } else if code == "Digit2"@ {
        Some(VirtualKeyCode::Key2)
    } else if code == "Digit3"@ {
        Some(VirtualKeyCode::Key3)
    } else if code == "Digit4"@ {
        Some(VirtualKeyCode::Key4)
    } else if code == "Digit5"@ {
        Some(VirtualKeyCode::Key5)
    } else if code == "Digit6"@ {
        Some(VirtualKeyCode::Key6)
    } else if code == "Digit7"@ {
        Some(VirtualKeyCode::Key7)
    } else if code == "Digit8"@ {
        Some(VirtualKeyCode::Key8)
    } else if code == "Digit9"@ {
        Some(VirtualKeyCode::Key9)
    } else if code == "Digit0"@ {
        Some(VirtualKeyCode::Key0)
    } else if code == "Minus"@ {
        Some(VirtualKeyCode::Minus)
    } else if code == "Equal"@ {
        Some(VirtualKeyCode::Equals)
    } else if code == "Backspace"@ {
        Some(VirtualKeyCode::Backspace)
    } else if code == "Tab"@ {
        Some(VirtualKeyCode::Tab)
    } else if code == "KeyQ"@ {
        Some(VirtualKeyCode::Q)
    } else if code == "KeyW"@ {
        Some(VirtualKeyCode::W)
    } else if code == "KeyE"@ {
        Some(VirtualKeyCode::E)
    } else if code == "KeyR"@ {
        Some(VirtualKeyCode::R)
    } else if code == "KeyT"@ {
        Some(VirtualKeyCode::T)
    } else {
        key_code_part_1_spec(code)
    }
}

fn key_code_part_0(code: &str) -> (r: Option<VirtualKeyCode>)
    ensures
        r == key_code_part_0_spec(code@),
{
    if str_eq(code, "Escape") {
        return Some(VirtualKeyCode::Escape);
    }
    if str_eq(code, "Digit1") {
        return Some(VirtualKeyCode::Key1);
    }
    if str_eq(code, "Digit2") {
        return Some(VirtualKeyCode::Key2);
    }
    if str_eq(code, "Digit3") {
        return Some(VirtualKeyCode::Key3);
    }
    if str_eq(code, "Digit4") {
        return Some(VirtualKeyCode::Key4);
    }
    if str_eq(code, "Digit5") {
        return Some(VirtualKeyCode::Key5);
    }
    if str_eq(code, "Digit6") {
        return Some(VirtualKeyCode::Key6);
    }
    if str_eq(code, "Digit7") {
        return Some(VirtualKeyCode::Key7);
    }
    if str_eq(code, "Digit8") {
        return Some(VirtualKeyCode::Key8);
    }
    if str_eq(code, "Digit9") {
        return Some(VirtualKeyCode::Key9);
    }
    if str_eq(code, "Digit0") {
        return Some(VirtualKeyCode::Key0);
    }
    if str_eq(code, "Minus") {
        return Some(VirtualKeyCode::Minus);
    }
    if str_eq(code, "Equal") {
        return Some(VirtualKeyCode::Equals);
    }
    if str_eq(code, "Backspace") {
        return Some(VirtualKeyCode::Backspace);
    }
    if str_eq(code, "Tab") {
        return Some(VirtualKeyCode::Tab);
    }
    if str_eq(code, "KeyQ") {
        return Some(VirtualKeyCode::Q);
    }
    if str_eq(code, "KeyW") {
        return Some(VirtualKeyCode::W);
    }
    if str_eq(code, "KeyE") {
        return Some(VirtualKeyCode::E);
    }
    if str_eq(code, "KeyR") {
        return Some(VirtualKeyCode::R);
    }
    if str_eq(code, "KeyT") {
        return Some(VirtualKeyCode::T);
    }
    key_code_part_1(code)
}

pub open spec fn key_code_part_1_spec(code: Seq<char>) -> Option<VirtualKeyCode> {
    if code == "KeyY"@ {
        Some(VirtualKeyCode::Y)
    } else if code == "KeyU"@ {
        Some(VirtualKeyCode::U)
    } else if code == "KeyI"@ {
        Some(VirtualKeyCode::I)
    } else if code == "KeyO"@ {
        Some(VirtualKeyCode::O)
    } else if code == "KeyP"@ {
        Some(VirtualKeyCode::P)
    } else if code == "BracketLeft"@ {
        Some(VirtualKeyCode::LBracket)
    } else if code == "BracketRight"@ {
        Some(VirtualKeyCode::RBracket)
    } else if code == "Enter"@ {
        Some(VirtualKeyCode::Return)
    } else if code == "ControlLeft"@ {
        Some(VirtualKeyCode::LControl)
    } else if code == "KeyA"@ {
        Some(VirtualKeyCode::A)
    } else if code == "KeyS"@ {
        Some(VirtualKeyCode::S)
    } else if code == "KeyD"@ {
        Some(VirtualKeyCode::D)
    } else if code == "KeyF"@ {
        Some(VirtualKeyCode::F)
    } else if code == "KeyG"@ {
        Some(VirtualKeyCode::G)
    } else if code == "KeyH"@ {
        Some(VirtualKeyCode::H)
    } else if code == "KeyJ"@ {
        Some(VirtualKeyCode::J)
    } else if code == "KeyK"@ {
        Some(VirtualKeyCode::K)
    } else if code == "KeyL"@ {
        Some(VirtualKeyCode::L)
    } else if code == "Semicolon"@ {
        Some(VirtualKeyCode::Semicolon)
    } else if code == "Quote"@ {
        Some(VirtualKeyCode::Apostrophe)
    } else {
        key_code_part_2_spec(code)
    }
}

fn key_code_part_1(code: &str) -> (r: Option<VirtualKeyCode>)
    ensures
        r == key_code_part_1_spec(code@),
{
    if str_eq(code, "KeyY") {
        return Some(VirtualKeyCode::Y);
    }
    if str_eq(code, "KeyU") {
        return Some(VirtualKeyCode::U);
    }
    if str_eq(code, "KeyI") {
        return Some(VirtualKeyCode::I);
    }
    if str_eq(code, "KeyO") {
        return Some(VirtualKeyCode::O);
    }
    if str_eq(code, "KeyP") {
        return Some(VirtualKeyCode::P);
    }
    if str_eq(code, "BracketLeft") {
        return Some(VirtualKeyCode::LBracket);
    }
    if str_eq(code, "BracketRight") {
        return Some(VirtualKeyCode::RBracket);
    }
    if str_eq(code, "Enter") {
        return Some(VirtualKeyCode::Return);
    }
    if str_eq(code, "ControlLeft") {
        return Some(VirtualKeyCode::LControl);
    }
    if str_eq(code, "KeyA") {
        return Some(VirtualKeyCode::A);
    }
    if str_eq(code, "KeyS") {
        return Some(VirtualKeyCode::S);
    }
    if str_eq(code, "KeyD") {
        return Some(VirtualKeyCode::D);
    }
    if str_eq(code, "KeyF") {
        return Some(VirtualKeyCode::F);
    }
    if str_eq(code, "KeyG") {
        return Some(VirtualKeyCode::G);
    }
    if str_eq(code, "KeyH") {
        return Some(VirtualKeyCode::H);
    }
    if str_eq(code, "KeyJ") {
        return Some(VirtualKeyCode::J);
    }
    if str_eq(code, "KeyK") {
        return Some(VirtualKeyCode::K);
    }
    if str_eq(code, "KeyL") {
        return Some(VirtualKeyCode::L);
    }
    if str_eq(code, "Semicolon") {
        return Some(VirtualKeyCode::Semicolon);
    }
    if str_eq(code, "Quote") {
        return Some(VirtualKeyCode::Apostrophe);
    }
    key_code_part_2(code)
}

pub open spec fn key_code_part_2_spec(code: Seq<char>) -> Option<VirtualKeyCode> {
    if code == "Backquote"@ {
        Some(VirtualKeyCode::Grave)
    } else if code == "ShiftLeft"@ {
        Some(VirtualKeyCode::LShift)
    } else if code == "Backslash"@ {
        Some(VirtualKeyCode::Backslash)
    } else if code == "KeyZ"@ {
        Some(VirtualKeyCode::Z)
    } else if code == "KeyX"@ {
        Some(VirtualKeyCode::X)
    } else if code == "KeyC"@ {
        Some(VirtualKeyCode::C)
    } else if code == "KeyV"@ {
        Some(VirtualKeyCode::V)
    } else if code == "KeyB"@ {
        Some(VirtualKeyCode::B)
    } else if code == "KeyN"@ {
        Some(VirtualKeyCode::N)
    } else if code == "KeyM"@ {
        Some(VirtualKeyCode::M)
    } else if code == "Comma"@ {
        Some(VirtualKeyCode::Comma)
    } else if code == "Period"@ {
        Some(VirtualKeyCode::Period)
    } else if code == "Slash"@ {
        Some(VirtualKeyCode::Slash)
    } else if code == "ShiftRight"@ {
        Some(VirtualKeyCode::RShift)
    } else if code == "NumpadMultiply"@ {
        Some(VirtualKeyCode::NumpadMultiply)
    } else if code == "AltLeft"@ {
        Some(VirtualKeyCode::LAlt)
    } else if code == "Space"@ {
        Some(VirtualKeyCode::Space)
    } else if code == "CapsLock"@ {
        Some(VirtualKeyCode::Capital)
    } else if code == "F1"@ {
        Some(VirtualKeyCode::F1)
    } else if code == "F2"@ {
        Some(VirtualKeyCode::F2)
    } else {
        key_code_part_3_spec(code)
    }
}

fn key_code_part_2(code: &str) -> (r: Option<VirtualKeyCode>)
    ensures
        r == key_code_part_2_spec(code@),
{
    if str_eq(code, "Backquote") {
        return Some(VirtualKeyCode::Grave);
    }
    if str_eq(code, "ShiftLeft") {
        return Some(VirtualKeyCode::LShift);
    }
    if str_eq(code, "Backslash") {
        return Some(VirtualKeyCode::Backslash);
    }
    if str_eq(code, "KeyZ") {
        return Some(VirtualKeyCode::Z);
    }
    if str_eq(code, "KeyX") {
        return Some(VirtualKeyCode::X);
    }
    if str_eq(code, "KeyC") {
        return Some(VirtualKeyCode::C);
    }
    if str_eq(code, "KeyV") {
        return Some(VirtualKeyCode::V);
    }
    if str_eq(code, "KeyB") {
        return Some(VirtualKeyCode::B);
    }
    if str_eq(code, "KeyN") {
        return Some(VirtualKeyCode::N);
    }
    if str_eq(code, "KeyM") {
        return Some(VirtualKeyCode::M);
    }
    if str_eq(code, "Comma") {
        return Some(VirtualKeyCode::Comma);
    }
    if str_eq(code, "Period") {
        return Some(VirtualKeyCode::Period);
    }
    if str_eq(code, "Slash") {
        return Some(VirtualKeyCode::Slash);
    }
    if str_eq(code, "ShiftRight") {
        return Some(VirtualKeyCode::RShift);
    }
    if str_eq(code, "NumpadMultiply") {
        return Some(VirtualKeyCode::NumpadMultiply);
    }
    if str_eq(code, "AltLeft") {
        return Some(VirtualKeyCode::LAlt);
    }
    if str_eq(code, "Space") {
        return Some(VirtualKeyCode::Space);
    }
    if str_eq(code, "CapsLock") {
        return Some(VirtualKeyCode::Capital);
    }
    if str_eq(code, "F1") {
        return Some(VirtualKeyCode::F1);
    }
    if str_eq(code, "F2") {
        return Some(VirtualKeyCode::F2);
    }
    key_code_part_3(code)
}

pub open spec fn key_code_part_3_spec(code: Seq<char>) -> Option<VirtualKeyCode> {
    if code == "F3"@ {
        Some(VirtualKeyCode::F3)
    } else if code == "F4"@ {
        Some(VirtualKeyCode::F4)
    } else if code == "F5"@ {
        Some(VirtualKeyCode::F5)
    } else if code == "F6"@ {
        Some(VirtualKeyCode::F6)
    } else if code == "F7"@ {
        Some(VirtualKeyCode::F7)
    } else if code == "F8"@ {
        Some(VirtualKeyCode::F8)
    } else if code == "F9"@ {
        Some(VirtualKeyCode::F9)
    } else if code == "F10"@ {
        Some(VirtualKeyCode::F10)
    } else if code == "Pause"@ {
        Some(VirtualKeyCode::PauseBreak)
    } else if code == "ScrollLock"@ {
        Some(VirtualKeyCode::ScrollLock)
    } else if code == "Numpad7"@ {
        Some(VirtualKeyCode::Numpad7)
    } else if code == "Numpad8"@ {
        Some(VirtualKeyCode::Numpad8)
    } else if code == "Numpad9"@ {
        Some(VirtualKeyCode::Numpad9)
    } else if code == "NumpadSubtract"@ {
        Some(VirtualKeyCode::NumpadSubtract)
    } else if code == "Numpad4"@ {
        Some(VirtualKeyCode::Numpad4)
    } else if code == "Numpad5"@ {
        Some(VirtualKeyCode::Numpad5)
    } else if code == "Numpad6"@ {
        Some(VirtualKeyCode::Numpad6)
    } else if code == "NumpadAdd"@ {
        Some(VirtualKeyCode::NumpadAdd)
    } else if code == "Numpad1"@ {
        Some(VirtualKeyCode::Numpad1)
    } else if code == "Numpad2"@ {
        Some(VirtualKeyCode::Numpad2)
    } else {
        key_code_part_4_spec(code)
    }
}

fn key_code_part_3(code: &str) -> (r: Option<VirtualKeyCode>)
    ensures
        r == key_code_part_3_spec(code@),
{
    if str_eq(code, "F3") {
        return Some(VirtualKeyCode::F3);
    }
    if str_eq(code, "F4") {
        return Some(VirtualKeyCode::F4);
    }
    if str_eq(code, "F5") {
        return Some(VirtualKeyCode::F5);
    }
    if str_eq(code, "F6") {
        return Some(VirtualKeyCode::F6);
    }
    if str_eq(code, "F7") {
        return Some(VirtualKeyCode::F7);
    }
    if str_eq(code, "F8") {
        return Some(VirtualKeyCode::F8);
    }
    if str_eq(code, "F9") {
        return Some(VirtualKeyCode::F9);
    }
    if str_eq(code, "F10") {
        return Some(VirtualKeyCode::F10);
    }
    if str_eq(code, "Pause") {
        return Some(VirtualKeyCode::PauseBreak);
    }
    if str_eq(code, "ScrollLock") {
        return Some(VirtualKeyCode::ScrollLock);
    }
    if str_eq(code, "Numpad7") {
        return Some(VirtualKeyCode::Numpad7);
    }
    if str_eq(code, "Numpad8") {
        return Some(VirtualKeyCode::Numpad8);
    }
    if str_eq(code, "Numpad9") {
        return Some(VirtualKeyCode::Numpad9);
    }
    if str_eq(code, "NumpadSubtract") {
        return Some(VirtualKeyCode::NumpadSubtract);
    }
    if str_eq(code, "Numpad4") {
        return Some(VirtualKeyCode::Numpad4);
    }
    if str_eq(code, "Numpad5") {
        return Some(VirtualKeyCode::Numpad5);
    }
    if str_eq(code, "Numpad6") {
        return Some(VirtualKeyCode::Numpad6);
    }
    if str_eq(code, "NumpadAdd") {
        return Some(VirtualKeyCode::NumpadAdd);
    }
    if str_eq(code, "Numpad1") {
        return Some(VirtualKeyCode::Numpad1);
    }
    if str_eq(code, "Numpad2") {
        return Some(VirtualKeyCode::Numpad2);
    }
    key_code_part_4(code)
}

pub open spec fn key_code_part_4_spec(code: Seq<char>) -> Option<VirtualKeyCode> {
    if code == "Numpad3"@ {
        Some(VirtualKeyCode::Numpad3)
    } else if code == "Numpad0"@ {
        Some(VirtualKeyCode::Numpad0)
    } else if code == "NumpadDecimal"@ {
        Some(VirtualKeyCode::NumpadDecimal)
    } else if code == "PrintScreen"@ {
        Some(VirtualKeyCode::PrintScreen)
    } else if code == "IntlBackslash"@ {
        Some(VirtualKeyCode::Backslash)
    } else if code == "F11"@ {
        Some(VirtualKeyCode::F11)
    } else if code == "F12"@ {
        Some(VirtualKeyCode::F12)
    } else if code == "NumpadEqual"@ {
        Some(VirtualKeyCode::NumpadEquals)
    } else if code == "F13"@ {
        Some(VirtualKeyCode::F13)
    } else if code == "F14"@ {
        Some(VirtualKeyCode::F14)
    } else if code == "F15"@ {
        Some(VirtualKeyCode::F15)
    } else if code == "F16"@ {
        Some(VirtualKeyCode::F16)
    } else if code == "F17"@ {
        Some(VirtualKeyCode::F17)
    } else if code == "F18"@ {
        Some(VirtualKeyCode::F18)
    } else if code == "F19"@ {
        Some(VirtualKeyCode::F19)
    } else if code == "F20"@ {
        Some(VirtualKeyCode::F20)
    } else if code == "F21"@ {
        Some(VirtualKeyCode::F21)
    } else if code == "F22"@ {
        Some(VirtualKeyCode::F22)
    } else if code == "F23"@ {
        Some(VirtualKeyCode::F23)
    } else if code == "KanaMode"@ {
        Some(VirtualKeyCode::Kana)
    } else {
        key_code_part_5_spec(code)
    }
}

fn key_code_part_4(code: &str) -> (r: Option<VirtualKeyCode>)
    ensures
        r == key_code_part_4_spec(code@),
{
    if str_eq(code, "Numpad3") {
        return Some(VirtualKeyCode::Numpad3);
    }
    if str_eq(code, "Numpad0") {
        return Some(VirtualKeyCode::Numpad0);
    }
    if str_eq(code, "NumpadDecimal") {
        return Some(VirtualKeyCode::NumpadDecimal);
    }
    if str_eq(code, "PrintScreen") {
        return Some(VirtualKeyCode::PrintScreen);
    }
    if str_eq(code, "IntlBackslash") {
        return Some(VirtualKeyCode::Backslash);
    }
    if str_eq(code, "F11") {
        return Some(VirtualKeyCode::F11);
    }
    if str_eq(code, "F12") {
        return Some(VirtualKeyCode::F12);
    }
    if str_eq(code, "NumpadEqual") {
        return Some(VirtualKeyCode::NumpadEquals);
    }
    if str_eq(code, "F13") {
        return Some(VirtualKeyCode::F13);
    }
    if str_eq(code, "F14") {
        return Some(VirtualKeyCode::F14);
    }
    if str_eq(code, "F15") {
        return Some(VirtualKeyCode::F15);
    }
    if str_eq(code, "F16") {
        return Some(VirtualKeyCode::F16);
    }
    if str_eq(code, "F17") {
        return Some(VirtualKeyCode::F17);
    }
    if str_eq(code, "F18") {
        return Some(VirtualKeyCode::F18);
    }
    if str_eq(code, "F19") {
        return Some(VirtualKeyCode::F19);
    }
    if str_eq(code, "F20") {
        return Some(VirtualKeyCode::F20);
    }
    if str_eq(code, "F21") {
        return Some(VirtualKeyCode::F21);
    }
    if str_eq(code, "F22") {
        return Some(VirtualKeyCode::F22);
    }
    if str_eq(code, "F23") {
        return Some(VirtualKeyCode::F23);
    }
    if str_eq(code, "KanaMode") {
        return Some(VirtualKeyCode::Kana);
    }
    key_code_part_5(code)
}

pub open spec fn key_code_part_5_spec(code: Seq<char>) -> Option<VirtualKeyCode> {
    if code == "Lang2"@ {
        None::<VirtualKeyCode>
    } else if code == "Lang1"@ {
        None::<VirtualKeyCode>
    } else if code == "IntlRo"@ {
        None::<VirtualKeyCode>
    } else if code == "F24"@ {
        Some(VirtualKeyCode::F24)
    } else if code == "Convert"@ {
        Some(VirtualKeyCode::Convert)
    } else if code == "NonConvert"@ {
        Some(VirtualKeyCode::NoConvert)
    } else if code == "IntlYen"@ {
        Some(VirtualKeyCode::Yen)
    } else if code == "NumpadComma"@ {
        Some(VirtualKeyCode::NumpadComma)
    } else if code == "Paste"@ {
        Some(VirtualKeyCode::Paste)
    } else if code == "MediaTrackPrevious"@ {
        Some(VirtualKeyCode::PrevTrack)
    } else if code == "Cut"@ {
        Some(VirtualKeyCode::Cut)
    } else if code == "Copy"@ {
        Some(VirtualKeyCode::Copy)
    } else if code == "MediaTrackNext"@ {
        Some(VirtualKeyCode::NextTrack)
    } else if code == "NumpadEnter"@ {
        Some(VirtualKeyCode::NumpadEnter)
    } else if code == "ControlRight"@ {
        Some(VirtualKeyCode::RControl)
    } else if code == "AudioVolumeMute"@ {
        Some(VirtualKeyCode::Mute)
    } else if code == "MediaPlayPause"@ {
        Some(VirtualKeyCode::PlayPause)
    } else if code == "MediaStop"@ {
        Some(VirtualKeyCode::MediaStop)
    } else if code == "VolumeDown"@ {
        Some(VirtualKeyCode::VolumeDown)
    } else if code == "AudioVolumeDown"@ {
        Some(VirtualKeyCode::VolumeDown)
    } else {
        key_code_part_6_spec(code)
    }
}

fn key_code_part_5(code: &str) -> (r: Option<VirtualKeyCode>)
    ensures
        r == key_code_part_5_spec(code@),
{
    if str_eq(code, "Lang2") {
        return None;
    }
    if str_eq(code, "Lang1") {
        return None;
    }
    if str_eq(code, "IntlRo") {
        return None;
    }
    if str_eq(code, "F24") {
        return Some(VirtualKeyCode::F24);
    }
    if str_eq(code, "Convert") {
        return Some(VirtualKeyCode::Convert);
    }
    if str_eq(code, "NonConvert") {
        return Some(VirtualKeyCode::NoConvert);
    }
    if str_eq(code, "IntlYen") {
        return Some(VirtualKeyCode::Yen);
    }
    if str_eq(code, "NumpadComma") {
        return Some(VirtualKeyCode::NumpadComma);
    }
    if str_eq(code, "Paste") {
        return Some(VirtualKeyCode::Paste);
    }
    if str_eq(code, "MediaTrackPrevious") {
        return Some(VirtualKeyCode::PrevTrack);
    }
    if str_eq(code, "Cut") {
        return Some(VirtualKeyCode::Cut);
    }
    if str_eq(code, "Copy") {
        return Some(VirtualKeyCode::Copy);
    }
    if str_eq(code, "MediaTrackNext") {
        return Some(VirtualKeyCode::NextTrack);
    }
    if str_eq(code, "NumpadEnter") {
        return Some(VirtualKeyCode::NumpadEnter);
    }
    if str_eq(code, "ControlRight") {
        return Some(VirtualKeyCode::RControl);
    }
    if str_eq(code, "AudioVolumeMute") {
        return Some(VirtualKeyCode::Mute);
    }
    if str_eq(code, "MediaPlayPause") {
        return Some(VirtualKeyCode::PlayPause);
    }
    if str_eq(code, "MediaStop") {
        return Some(VirtualKeyCode::MediaStop);
    }
    if str_eq(code, "VolumeDown") {
        return Some(VirtualKeyCode::VolumeDown);
    }
    if str_eq(code, "AudioVolumeDown") {
        return Some(VirtualKeyCode::VolumeDown);
    }
    key_code_part_6(code)
}

pub open spec fn key_code_part_6_spec(code: Seq<char>) -> Option<VirtualKeyCode> {
    if code == "VolumeUp"@ {
        Some(VirtualKeyCode::VolumeUp)
    } else if code == "AudioVolumeUp"@ {
        Some(VirtualKeyCode::VolumeUp)
    } else if code == "BrowserHome"@ {
        Some(VirtualKeyCode::WebHome)
    } else if code == "NumpadDivide"@ {
        Some(VirtualKeyCode::NumpadDivide)
    } else if code == "AltRight"@ {
        Some(VirtualKeyCode::RAlt)
    } else if code == "NumLock"@ {
        Some(VirtualKeyCode::Numlock)
    } else if code == "Home"@ {
        Some(VirtualKeyCode::Home)
    } else if code == "ArrowUp"@ {
        Some(VirtualKeyCode::Up)
    } else if code == "PageUp"@ {
        Some(VirtualKeyCode::PageUp)
    } else if code == "ArrowLeft"@ {
        Some(VirtualKeyCode::Left)
    } else if code == "ArrowRight"@ {
        Some(VirtualKeyCode::Right)
    } else if code == "End"@ {
        Some(VirtualKeyCode::End)
    } else if code == "ArrowDown"@ {
        Some(VirtualKeyCode::Down)
    } else if code == "PageDown"@ {
        Some(VirtualKeyCode::PageDown)
    } else if code == "Insert"@ {
        Some(VirtualKeyCode::Insert)
    } else if code == "Delete"@ {
        Some(VirtualKeyCode::Delete)
    } else if code == "OSLeft"@ {
        Some(VirtualKeyCode::LWin)
    } else if code == "MetaLeft"@ {
        Some(VirtualKeyCode::LWin)
    } else if code == "OSRight"@ {
        Some(VirtualKeyCode::RWin)
    } else if code == "MetaRight"@ {
        Some(VirtualKeyCode::RWin)
    } else {
        key_code_part_7_spec(code)
    }
}

fn key_code_part_6(code: &str) -> (r: Option<VirtualKeyCode>)
    ensures
        r == key_code_part_6_spec(code@),
{
    if str_eq(code, "VolumeUp") {
        return Some(VirtualKeyCode::VolumeUp);
    }
    if str_eq(code, "AudioVolumeUp") {
        return Some(VirtualKeyCode::VolumeUp);
    }
    if str_eq(code, "BrowserHome") {
        return Some(VirtualKeyCode::WebHome);
    }
    if str_eq(code, "NumpadDivide") {
        return Some(VirtualKeyCode::NumpadDivide);
    }
    if str_eq(code, "AltRight") {
        return Some(VirtualKeyCode::RAlt);
    }
    if str_eq(code, "NumLock") {
        return Some(VirtualKeyCode::Numlock);
    }
    if str_eq(code, "Home") {
        return Some(VirtualKeyCode::Home);
    }
    if str_eq(code, "ArrowUp") {
        return Some(VirtualKeyCode::Up);
    }
    if str_eq(code, "PageUp") {
        return Some(VirtualKeyCode::PageUp);
    }
    if str_eq(code, "ArrowLeft") {
        return Some(VirtualKeyCode::Left);
    }
    if str_eq(code, "ArrowRight") {
        return Some(VirtualKeyCode::Right);
    }
    if str_eq(code, "End") {
        return Some(VirtualKeyCode::End);
    }
    if str_eq(code, "ArrowDown") {
        return Some(VirtualKeyCode::Down);
    }
    if str_eq(code, "PageDown") {
        return Some(VirtualKeyCode::PageDown);
    }
    if str_eq(code, "Insert") {
        return Some(VirtualKeyCode::Insert);
    }
    if str_eq(code, "Delete") {
        return Some(VirtualKeyCode::Delete);
    }
    if str_eq(code, "OSLeft") {
        return Some(VirtualKeyCode::LWin);
    }
    if str_eq(code, "MetaLeft") {
        return Some(VirtualKeyCode::LWin);
    }
    if str_eq(code, "OSRight") {
        return Some(VirtualKeyCode::RWin);
    }
    if str_eq(code, "MetaRight") {
        return Some(VirtualKeyCode::RWin);
    }
    key_code_part_7(code)
}

pub open spec fn key_code_part_7_spec(code: Seq<char>) -> Option<VirtualKeyCode> {
    if code == "ContextMenu"@ {
        None::<VirtualKeyCode>
    } else if code == "Power"@ {
        Some(VirtualKeyCode::Power)
    } else if code == "BrowserSearch"@ {
        Some(VirtualKeyCode::WebSearch)
    } else if code == "BrowserFavorites"@ {
        Some(VirtualKeyCode::WebFavorites)
    } else if code == "BrowserRefresh"@ {
        Some(VirtualKeyCode::WebRefresh)
    } else if code == "BrowserStop"@ {
        Some(VirtualKeyCode::Stop)
    } else if code == "BrowserForward"@ {
        Some(VirtualKeyCode::WebForward)
    } else if code == "BrowserBack"@ {
        Some(VirtualKeyCode::WebBack)
    } else if code == "LaunchMail"@ {
        Some(VirtualKeyCode::Mail)
    } else if code == "MediaSelect"@ {
        Some(VirtualKeyCode::MediaSelect)
    } else {
        None::<VirtualKeyCode>
    }
}

fn key_code_part_7(code: &str) -> (r: Option<VirtualKeyCode>)
    ensures
        r == key_code_part_7_spec(code@),
{
    if str_eq(code, "ContextMenu") {
        return None;
    }
    if str_eq(code, "Power") {
        return Some(VirtualKeyCode::Power);
    }
    if str_eq(code, "BrowserSearch") {
        return Some(VirtualKeyCode::WebSearch);
    }
    if str_eq(code, "BrowserFavorites") {
        return Some(VirtualKeyCode::WebFavorites);
    }
    if str_eq(code, "BrowserRefresh") {
        return Some(VirtualKeyCode::WebRefresh);
    }
    if str_eq(code, "BrowserStop") {
        return Some(VirtualKeyCode::Stop);
    }
    if str_eq(code, "BrowserForward") {
        return Some(VirtualKeyCode::WebForward);
    }
    if str_eq(code, "BrowserBack") {
        return Some(VirtualKeyCode::WebBack);
    }
    if str_eq(code, "LaunchMail") {
        return Some(VirtualKeyCode::Mail);
    }
    if str_eq(code, "MediaSelect") {
        return Some(VirtualKeyCode::MediaSelect);
    }
    None
}

/// The full identifier table as a specification.
pub open spec fn key_code_spec(code: Seq<char>) -> Option<VirtualKeyCode> {
    key_code_part_0_spec(code)
}

/// Translate a native physical-key identifier to a virtual key code.
/// Identifiers outside the table have no translation.
pub fn key_code_from_web(code: &str) -> (r: Option<VirtualKeyCode>)
    ensures
        r == key_code_spec(code@),
{
    key_code_part_0(code)
}

/// The classic PC scan code of each virtual key code, where one exists.
pub open spec fn scan_code_spec(key: VirtualKeyCode) -> Option<u32> {
    match key {
        VirtualKeyCode::Escape => Some(0x1u32),
        VirtualKeyCode::Key1 => Some(0x2u32),
        VirtualKeyCode::Key2 => Some(0x3u32),
        VirtualKeyCode::Key3 => Some(0x4u32),
        VirtualKeyCode::Key4 => Some(0x5u32),
        VirtualKeyCode::Key5 => Some(0x6u32),
        VirtualKeyCode::Key6 => Some(0x7u32),
        VirtualKeyCode::Key7 => Some(0x8u32),
        VirtualKeyCode::Key8 => Some(0x9u32),
        VirtualKeyCode::Key9 => Some(0xAu32),
        VirtualKeyCode::Key0 => Some(0xBu32),
        VirtualKeyCode::Minus => Some(0xCu32),
        VirtualKeyCode::Equals => Some(0xDu32),
        VirtualKeyCode::Backspace => Some(0xEu32),
        VirtualKeyCode::Tab => Some(0xFu32),
        VirtualKeyCode::Q => Some(0x10u32),
        VirtualKeyCode::W => Some(0x11u32),
        VirtualKeyCode::E => Some(0x12u32),
        VirtualKeyCode::R => Some(0x13u32),
        VirtualKeyCode::T => Some(0x14u32),
        VirtualKeyCode::Y => Some(0x15u32),
        VirtualKeyCode::U => Some(0x16u32),
        VirtualKeyCode::I => Some(0x17u32),
        VirtualKeyCode::O => Some(0x18u32),
        VirtualKeyCode::P => Some(0x19u32),
        VirtualKeyCode::LBracket => Some(0x1Au32),
        VirtualKeyCode::RBracket => Some(0x1Bu32),
        VirtualKeyCode::Return => Some(0x1Cu32),
        VirtualKeyCode::LControl => Some(0x1Du32),
        VirtualKeyCode::A => Some(0x1Eu32),
        VirtualKeyCode::S => Some(0x1Fu32),
        VirtualKeyCode::D => Some(0x20u32),
        VirtualKeyCode::F => Some(0x21u32),
        VirtualKeyCode::G => Some(0x22u32),
        VirtualKeyCode::H => Some(0x23u32),
        VirtualKeyCode::J => Some(0x24u32),
        VirtualKeyCode::K => Some(0x25u32),
        VirtualKeyCode::L => Some(0x26u32),
        VirtualKeyCode::Semicolon => Some(0x27u32),
        VirtualKeyCode::Apostrophe => Some(0x28u32),
        VirtualKeyCode::Grave => Some(0x29u32),
        VirtualKeyCode::LShift => Some(0x2Au32),
        VirtualKeyCode::Backslash => Some(0x2Bu32),
        VirtualKeyCode::Z => Some(0x2Cu32),
        VirtualKeyCode::X => Some(0x2Du32),
        VirtualKeyCode::C => Some(0x2Eu32),
        VirtualKeyCode::V => Some(0x2Fu32),
        VirtualKeyCode::B => Some(0x30u32),
        VirtualKeyCode::N => Some(0x31u32),
        VirtualKeyCode::M => Some(0x32u32),
        VirtualKeyCode::Comma => Some(0x33u32),
        VirtualKeyCode::Period => Some(0x34u32),
        VirtualKeyCode::Slash => Some(0x35u32),
        VirtualKeyCode::RShift => Some(0x36u32),
        VirtualKeyCode::NumpadMultiply => Some(0x37u32),
        VirtualKeyCode::LAlt => Some(0x38u32),
        VirtualKeyCode::Space => Some(0x39u32),
        VirtualKeyCode::Capital => Some(0x3Au32),
        VirtualKeyCode::F1 => Some(0x3Bu32),
        VirtualKeyCode::F2 => Some(0x3Cu32),
        VirtualKeyCode::F3 => Some(0x3Du32),
        VirtualKeyCode::F4 => Some(0x3Eu32),
        VirtualKeyCode::F5 => Some(0x3Fu32),
        VirtualKeyCode::F6 => Some(0x40u32),
        VirtualKeyCode::F7 => Some(0x41u32),
        VirtualKeyCode::F8 => Some(0x42u32),
        VirtualKeyCode::F9 => Some(0x43u32),
        VirtualKeyCode::F10 => Some(0x44u32),
        VirtualKeyCode::ScrollLock => Some(0x46u32),
        VirtualKeyCode::Numpad7 => Some(0x47u32),
        VirtualKeyCode::Numpad8 => Some(0x48u32),
        VirtualKeyCode::Numpad9 => Some(0x49u32),
        VirtualKeyCode::NumpadSubtract => Some(0x4Au32),
        VirtualKeyCode::Numpad4 => Some(0x4Bu32),
        VirtualKeyCode::Numpad5 => Some(0x4Cu32),
        VirtualKeyCode::Numpad6 => Some(0x4Du32),
        VirtualKeyCode::NumpadAdd => Some(0x4Eu32),
        VirtualKeyCode::Numpad1 => Some(0x4Fu32),
        VirtualKeyCode::Numpad2 => Some(0x50u32),
        VirtualKeyCode::Numpad3 => Some(0x51u32),
        VirtualKeyCode::Numpad0 => Some(0x52u32),
        VirtualKeyCode::NumpadDecimal => Some(0x53u32),
        VirtualKeyCode::PrintScreen => Some(0xE037u32),
        VirtualKeyCode::F11 => Some(0x57u32),
        VirtualKeyCode::F12 => Some(0x58u32),
        VirtualKeyCode::F13 => Some(0x64u32),
        VirtualKeyCode::F14 => Some(0x65u32),
        VirtualKeyCode::F15 => Some(0x66u32),
        VirtualKeyCode::NumpadEnter => Some(0xE01Cu32),
        VirtualKeyCode::RControl => Some(0xE01Du32),
        VirtualKeyCode::NumpadDivide => Some(0xE035u32),
        VirtualKeyCode::RAlt => Some(0xE038u32),
        VirtualKeyCode::Numlock => Some(0x45u32),
        VirtualKeyCode::Home => Some(0xE047u32),
        VirtualKeyCode::Up => Some(0xE048u32),
        VirtualKeyCode::PageUp => Some(0xE049u32),
        VirtualKeyCode::Left => Some(0xE04Bu32),
        VirtualKeyCode::Right => Some(0xE04Du32),
        VirtualKeyCode::End => Some(0xE04Fu32),
        VirtualKeyCode::Down => Some(0xE050u32),
        VirtualKeyCode::PageDown => Some(0xE051u32),
        VirtualKeyCode::Insert => Some(0xE052u32),
        VirtualKeyCode::Delete => Some(0xE053u32),
        VirtualKeyCode::LWin => Some(0xE05Bu32),
        VirtualKeyCode::RWin => Some(0xE05Cu32),
        VirtualKeyCode::PauseBreak => None::<u32>,
        VirtualKeyCode::NumpadEquals => None::<u32>,
        VirtualKeyCode::F16 => None::<u32>,
        VirtualKeyCode::F17 => None::<u32>,
        VirtualKeyCode::F18 => None::<u32>,
        VirtualKeyCode::F19 => None::<u32>,
        VirtualKeyCode::F20 => None::<u32>,
        VirtualKeyCode::F21 => None::<u32>,
        VirtualKeyCode::F22 => None::<u32>,
        VirtualKeyCode::F23 => None::<u32>,
        VirtualKeyCode::Kana => None::<u32>,
        VirtualKeyCode::F24 => None::<u32>,
        VirtualKeyCode::Convert => None::<u32>,
        VirtualKeyCode::NoConvert => None::<u32>,
        VirtualKeyCode::Yen => None::<u32>,
        VirtualKeyCode::NumpadComma => None::<u32>,
        VirtualKeyCode::Paste => None::<u32>,
        VirtualKeyCode::PrevTrack => None::<u32>,
        VirtualKeyCode::Cut => None::<u32>,
        VirtualKeyCode::Copy => None::<u32>,
        VirtualKeyCode::NextTrack => None::<u32>,
        VirtualKeyCode::Mute => None::<u32>,
        VirtualKeyCode::PlayPause => None::<u32>,
        VirtualKeyCode::MediaStop => None::<u32>,
        VirtualKeyCode::VolumeDown => None::<u32>,
        VirtualKeyCode::VolumeUp => None::<u32>,
        VirtualKeyCode::WebHome => None::<u32>,
        VirtualKeyCode::Power => None::<u32>,
        VirtualKeyCode::WebSearch => None::<u32>,
        VirtualKeyCode::WebFavorites => None::<u32>,
        VirtualKeyCode::WebRefresh => None::<u32>,
        VirtualKeyCode::Stop => None::<u32>,
        VirtualKeyCode::WebForward => None::<u32>,
        VirtualKeyCode::WebBack => None::<u32>,
        VirtualKeyCode::Mail => None::<u32>,
        VirtualKeyCode::MediaSelect => None::<u32>,
    }
}

impl VirtualKeyCode {
    /// The scan code of this key, where the classic PC set defines one.
    pub fn get_scan_code(&self) -> (r: Option<u32>)
        ensures
            r == scan_code_spec(*self),
    {
        match self {
            VirtualKeyCode::Escape => Some(0x1),
            VirtualKeyCode::Key1 => Some(0x2),
            VirtualKeyCode::Key2 => Some(0x3),
            VirtualKeyCode::Key3 => Some(0x4),
            VirtualKeyCode::Key4 => Some(0x5),
            VirtualKeyCode::Key5 => Some(0x6),
            VirtualKeyCode::Key6 => Some(0x7),
            VirtualKeyCode::Key7 => Some(0x8),
            VirtualKeyCode::Key8 => Some(0x9),
            VirtualKeyCode::Key9 => Some(0xA),
            VirtualKeyCode::Key0 => Some(0xB),
            VirtualKeyCode::Minus => Some(0xC),
            VirtualKeyCode::Equals => Some(0xD),
            VirtualKeyCode::Backspace => Some(0xE),
            VirtualKeyCode::Tab => Some(0xF),
            VirtualKeyCode::Q => Some(0x10),
            VirtualKeyCode::W => Some(0x11),
            VirtualKeyCode::E => Some(0x12),
            VirtualKeyCode::R => Some(0x13),
            VirtualKeyCode::T => Some(0x14),
            VirtualKeyCode::Y => Some(0x15),
            VirtualKeyCode::U => Some(0x16),
            VirtualKeyCode::I => Some(0x17),
            VirtualKeyCode::O => Some(0x18),
            VirtualKeyCode::P => Some(0x19),
            VirtualKeyCode::LBracket => Some(0x1A),
            VirtualKeyCode::RBracket => Some(0x1B),
            VirtualKeyCode::Return => Some(0x1C),
            VirtualKeyCode::LControl => Some(0x1D),
            VirtualKeyCode::A => Some(0x1E),
            VirtualKeyCode::S => Some(0x1F),
            VirtualKeyCode::D => Some(0x20),
            VirtualKeyCode::F => Some(0x21),
            VirtualKeyCode::G => Some(0x22),
            VirtualKeyCode::H => Some(0x23),
            VirtualKeyCode::J => Some(0x24),
            VirtualKeyCode::K => Some(0x25),
            VirtualKeyCode::L => Some(0x26),
            VirtualKeyCode::Semicolon => Some(0x27),
            VirtualKeyCode::Apostrophe => Some(0x28),
            VirtualKeyCode::Grave => Some(0x29),
            VirtualKeyCode::LShift => Some(0x2A),
            VirtualKeyCode::Backslash => Some(0x2B),
            VirtualKeyCode::Z => Some(0x2C),
            VirtualKeyCode::X => Some(0x2D),
            VirtualKeyCode::C => Some(0x2E),
            VirtualKeyCode::V => Some(0x2F),
            VirtualKeyCode::B => Some(0x30),
            VirtualKeyCode::N => Some(0x31),
            VirtualKeyCode::M => Some(0x32),
            VirtualKeyCode::Comma => Some(0x33),
            VirtualKeyCode::Period => Some(0x34),
            VirtualKeyCode::Slash => Some(0x35),
            VirtualKeyCode::RShift => Some(0x36),
            VirtualKeyCode::NumpadMultiply => Some(0x37),
            VirtualKeyCode::LAlt => Some(0x38),
            VirtualKeyCode::Space => Some(0x39),
            VirtualKeyCode::Capital => Some(0x3A),
            VirtualKeyCode::F1 => Some(0x3B),
            VirtualKeyCode::F2 => Some(0x3C),
            VirtualKeyCode::F3 => Some(0x3D),
            VirtualKeyCode::F4 => Some(0x3E),
            VirtualKeyCode::F5 => Some(0x3F),
            VirtualKeyCode::F6 => Some(0x40),
            VirtualKeyCode::F7 => Some(0x41),
            VirtualKeyCode::F8 => Some(0x42),
            VirtualKeyCode::F9 => Some(0x43),
            VirtualKeyCode::F10 => Some(0x44),
            VirtualKeyCode::ScrollLock => Some(0x46),
            VirtualKeyCode::Numpad7 => Some(0x47),
            VirtualKeyCode::Numpad8 => Some(0x48),
            VirtualKeyCode::Numpad9 => Some(0x49),
            VirtualKeyCode::NumpadSubtract => Some(0x4A),
            VirtualKeyCode::Numpad4 => Some(0x4B),
            VirtualKeyCode::Numpad5 => Some(0x4C),
            VirtualKeyCode::Numpad6 => Some(0x4D),
            VirtualKeyCode::NumpadAdd => Some(0x4E),
            VirtualKeyCode::Numpad1 => Some(0x4F),
            VirtualKeyCode::Numpad2 => Some(0x50),
            VirtualKeyCode::Numpad3 => Some(0x51),
            VirtualKeyCode::Numpad0 => Some(0x52),
            VirtualKeyCode::NumpadDecimal => Some(0x53),
            VirtualKeyCode::PrintScreen => Some(0xE037),
            VirtualKeyCode::F11 => Some(0x57),
            VirtualKeyCode::F12 => Some(0x58),
            VirtualKeyCode::F13 => Some(0x64),
            VirtualKeyCode::F14 => Some(0x65),
            VirtualKeyCode::F15 => Some(0x66),
            VirtualKeyCode::NumpadEnter => Some(0xE01C),
            VirtualKeyCode::RControl => Some(0xE01D),
            VirtualKeyCode::NumpadDivide => Some(0xE035),
            VirtualKeyCode::RAlt => Some(0xE038),
            VirtualKeyCode::Numlock => Some(0x45),
            VirtualKeyCode::Home => Some(0xE047),
            VirtualKeyCode::Up => Some(0xE048),
            VirtualKeyCode::PageUp => Some(0xE049),
            VirtualKeyCode::Left => Some(0xE04B),
            VirtualKeyCode::Right => Some(0xE04D),
            VirtualKeyCode::End => Some(0xE04F),
            VirtualKeyCode::Down => Some(0xE050),
            VirtualKeyCode::PageDown => Some(0xE051),
            VirtualKeyCode::Insert => Some(0xE052),
            VirtualKeyCode::Delete => Some(0xE053),
            VirtualKeyCode::LWin => Some(0xE05B),
            VirtualKeyCode::RWin => Some(0xE05C),
            VirtualKeyCode::PauseBreak => None,
            VirtualKeyCode::NumpadEquals => None,
            VirtualKeyCode::F16 => None,
            VirtualKeyCode::F17 => None,
            VirtualKeyCode::F18 => None,
            VirtualKeyCode::F19 => None,
            VirtualKeyCode::F20 => None,
            VirtualKeyCode::F21 => None,
            VirtualKeyCode::F22 => None,
            VirtualKeyCode::F23 => None,
            VirtualKeyCode::Kana => None,
            VirtualKeyCode::F24 => None,
            VirtualKeyCode::Convert => None,
            VirtualKeyCode::NoConvert => None,
            VirtualKeyCode::Yen => None,
            VirtualKeyCode::NumpadComma => None,
            VirtualKeyCode::Paste => None,
            VirtualKeyCode::PrevTrack => None,
            VirtualKeyCode::Cut => None,
            VirtualKeyCode::Copy => None,
            VirtualKeyCode::NextTrack => None,
            VirtualKeyCode::Mute => None,
            VirtualKeyCode::PlayPause => None,
            VirtualKeyCode::MediaStop => None,
            VirtualKeyCode::VolumeDown => None,
            VirtualKeyCode::VolumeUp => None,
            VirtualKeyCode::WebHome => None,
            VirtualKeyCode::Power => None,
            VirtualKeyCode::WebSearch => None,
            VirtualKeyCode::WebFavorites => None,
            VirtualKeyCode::WebRefresh => None,
            VirtualKeyCode::Stop => None,
            VirtualKeyCode::WebForward => None,
            VirtualKeyCode::WebBack => None,
            VirtualKeyCode::Mail => None,
            VirtualKeyCode::MediaSelect => None,
        }
    }
}

} // verus!
