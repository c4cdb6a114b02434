use std::collections::BTreeSet;

use renderdoc::input_button::{AsInputButtons, InputButton};
use renderdoc::settings::CaptureOption;

fn all_buttons() -> Vec<InputButton> {
    vec![
        InputButton::Key0,
        InputButton::Key1,
        InputButton::Key2,
        InputButton::Key3,
        InputButton::Key4,
        InputButton::Key5,
        InputButton::Key6,
        InputButton::Key7,
        InputButton::Key8,
        InputButton::Key9,
        InputButton::A,
        InputButton::B,
        InputButton::C,
        InputButton::D,
        InputButton::E,
        InputButton::F,
        InputButton::G,
        InputButton::H,
        InputButton::I,
        InputButton::J,
        InputButton::K,
        InputButton::L,
        InputButton::M,
        InputButton::N,
        InputButton::O,
        InputButton::P,
        InputButton::Q,
        InputButton::R,
        InputButton::S,
        InputButton::T,
        InputButton::U,
        InputButton::V,
        InputButton::W,
        InputButton::X,
        InputButton::Y,
        InputButton::Z,
        InputButton::NonPrintable,
        InputButton::Divide,
        InputButton::Multiply,
        InputButton::Subtract,
        InputButton::Plus,
        InputButton::F1,
        InputButton::F2,
        InputButton::F3,
        InputButton::F4,
        InputButton::F5,
        InputButton::F6,
        InputButton::F7,
        InputButton::F8,
        InputButton::F9,
        InputButton::F10,
        InputButton::F11,
        InputButton::F12,
        InputButton::Home,
        InputButton::End,
        InputButton::Insert,
        InputButton::Delete,
        InputButton::PageUp,
        InputButton::PageDn,
        InputButton::Backspace,
        InputButton::Tab,
        InputButton::PrtScrn,
        InputButton::Pause,
        InputButton::Max,
    ]
}

#[test]
fn printable_keys_have_their_ascii_codes() {
    assert_eq!(InputButton::Key0.code(), '0' as u32);
    assert_eq!(InputButton::Key9.code(), '9' as u32);
    assert_eq!(InputButton::A.code(), 'A' as u32);
    assert_eq!(InputButton::M.code(), 'M' as u32);
    assert_eq!(InputButton::Z.code(), 'Z' as u32);
}

#[test]
fn other_keys_count_up_from_0x100() {
    assert_eq!(InputButton::NonPrintable.code(), 0x100);
    assert_eq!(InputButton::Divide.code(), 0x101);
    assert_eq!(InputButton::Plus.code(), 0x104);
    assert_eq!(InputButton::F1.code(), 0x105);
    assert_eq!(InputButton::F12.code(), 0x110);
    assert_eq!(InputButton::Home.code(), 0x111);
    assert_eq!(InputButton::PageDn.code(), 0x116);
    assert_eq!(InputButton::Backspace.code(), 0x117);
    assert_eq!(InputButton::Pause.code(), 0x11a);
    assert_eq!(InputButton::Max.code(), 0x11b);
}

#[test]
fn button_codes_increase_and_differ() {
    let codes: Vec<u32> = all_buttons().into_iter().map(InputButton::code).collect();
    assert_eq!(codes.len(), 64);
    for pair in codes.windows(2) {
        assert!(pair[0] < pair[1]);
    }
    let distinct: BTreeSet<u32> = codes.iter().copied().collect();
    assert_eq!(distinct.len(), codes.len());
}

#[test]
fn codes_of_zero_one_and_many_buttons() {
    assert_eq!(InputButton::F12.codes(), vec![0x110]);
    assert_eq!(Some(InputButton::A).codes(), vec![0x41]);
    assert!(None::<InputButton>.codes().is_empty());
    let keys = vec![InputButton::PrtScrn, InputButton::F12, InputButton::Key1];
    assert_eq!(keys.codes(), vec![0x119, 0x110, 0x31]);
    assert!(Vec::<InputButton>::new().codes().is_empty());
    assert_eq!(keys.as_slice().codes(), vec![0x119, 0x110, 0x31]);
    assert_eq!([InputButton::Home, InputButton::End].codes(), vec![0x111, 0x112]);
    assert!(([] as [InputButton; 0]).codes().is_empty());
    assert_eq!((&InputButton::Z).codes(), vec![0x5a]);
    assert_eq!((&keys).codes(), vec![0x119, 0x110, 0x31]);
}

#[test]
fn capture_options_have_the_codes_of_the_host() {
    assert_eq!(CaptureOption::AllowVSync.code(), 0);
    assert_eq!(CaptureOption::AllowFullscreen.code(), 1);
    assert_eq!(CaptureOption::ApiValidation.code(), 2);
    assert_eq!(CaptureOption::CaptureCallstacks.code(), 3);
    assert_eq!(CaptureOption::CaptureCallstacksOnlyDraws.code(), 4);
    assert_eq!(CaptureOption::DelayForDebugger.code(), 5);
    assert_eq!(CaptureOption::VerifyMapWrites.code(), 6);
    assert_eq!(CaptureOption::HookIntoChildren.code(), 7);
    assert_eq!(CaptureOption::RefAllResources.code(), 8);
    assert_eq!(CaptureOption::SaveAllInitials.code(), 9);
    assert_eq!(CaptureOption::CaptureAllCmdLists.code(), 10);
    assert_eq!(CaptureOption::DebugOutputMute.code(), 11);
    assert_eq!(CaptureOption::AllowUnsupportedVendorExtensions.code(), 12);
}
