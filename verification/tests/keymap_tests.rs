use canvas_bridge::bridge::{KeyDownOutcome, WebCanvasImpl};
use canvas_bridge::dimen::Vector2;
use canvas_bridge::keymap::{VirtualKeyCode, key_code_from_web};
use canvas_bridge::scale::ScaleFactor;

fn fresh_bridge() -> WebCanvasImpl<i32> {
    let (bridge, _info) = WebCanvasImpl::new(Vector2::new(800u32, 600u32), ScaleFactor::identity());
    bridge
}

#[test]
fn letter_key_translates() {
    assert_eq!(key_code_from_web("KeyA"), Some(VirtualKeyCode::A));
    assert_eq!(key_code_from_web("KeyZ"), Some(VirtualKeyCode::Z));
    assert_eq!(key_code_from_web("KeyQ"), Some(VirtualKeyCode::Q));
}

#[test]
fn digit_and_symbol_keys_translate() {
    assert_eq!(key_code_from_web("Escape"), Some(VirtualKeyCode::Escape));
    assert_eq!(key_code_from_web("Digit1"), Some(VirtualKeyCode::Key1));
    assert_eq!(key_code_from_web("Digit0"), Some(VirtualKeyCode::Key0));
    assert_eq!(key_code_from_web("Equal"), Some(VirtualKeyCode::Equals));
    assert_eq!(key_code_from_web("Quote"), Some(VirtualKeyCode::Apostrophe));
    assert_eq!(key_code_from_web("Backquote"), Some(VirtualKeyCode::Grave));
}

#[test]
fn navigation_and_meta_keys_translate() {
    assert_eq!(key_code_from_web("ArrowUp"), Some(VirtualKeyCode::Up));
    assert_eq!(key_code_from_web("PageDown"), Some(VirtualKeyCode::PageDown));
    assert_eq!(key_code_from_web("MetaLeft"), Some(VirtualKeyCode::LWin));
    assert_eq!(key_code_from_web("OSRight"), Some(VirtualKeyCode::RWin));
    assert_eq!(key_code_from_web("IntlBackslash"), Some(VirtualKeyCode::Backslash));
    assert_eq!(key_code_from_web("AudioVolumeUp"), Some(VirtualKeyCode::VolumeUp));
    assert_eq!(key_code_from_web("VolumeUp"), Some(VirtualKeyCode::VolumeUp));
}

#[test]
fn untranslatable_identifiers_have_no_code() {
    assert_eq!(key_code_from_web("Lang1"), None);
    assert_eq!(key_code_from_web("ContextMenu"), None);
    assert_eq!(key_code_from_web("NotAKeyAtAll"), None);
    assert_eq!(key_code_from_web(""), None);
}

#[test]
fn scan_codes_follow_classic_pc_set() {
    assert_eq!(VirtualKeyCode::Escape.get_scan_code(), Some(0x01));
    assert_eq!(VirtualKeyCode::A.get_scan_code(), Some(0x1E));
    assert_eq!(VirtualKeyCode::Space.get_scan_code(), Some(0x39));
    assert_eq!(VirtualKeyCode::Up.get_scan_code(), Some(0xE048));
    assert_eq!(VirtualKeyCode::MediaSelect.get_scan_code(), None);
    assert_eq!(VirtualKeyCode::Power.get_scan_code(), None);
}

#[test]
fn known_key_with_scan_code_is_delivered() {
    let mut bridge = fresh_bridge();
    assert_eq!(
        bridge.on_native_key_down("KeyA"),
        Some(KeyDownOutcome::Deliver(VirtualKeyCode::A, 0x1E))
    );
}

#[test]
fn known_key_without_scan_code_is_dropped() {
    let mut bridge = fresh_bridge();
    assert_eq!(
        bridge.on_native_key_down("MediaSelect"),
        Some(KeyDownOutcome::MissingScanCode)
    );
}

#[test]
fn unknown_key_is_dropped() {
    let mut bridge = fresh_bridge();
    assert_eq!(
        bridge.on_native_key_down("SomethingElse"),
        Some(KeyDownOutcome::UnknownKey)
    );
}
