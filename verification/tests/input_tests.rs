use artillery_calc::input::{Hotkey, SettingsButton};

const KEYS: [Hotkey; 8] = [
    Hotkey::ToggleSettings,
    Hotkey::ToggleOverlay,
    Hotkey::Reload,
    Hotkey::SetKv,
    Hotkey::SetCam,
    Hotkey::SetTargetFromCoords,
    Hotkey::SetTarget,
    Hotkey::Clear,
];

#[test]
fn hotkey_ids() {
    assert_eq!(Hotkey::ToggleSettings.id(), 1);
    assert_eq!(Hotkey::ToggleOverlay.id(), 2);
    assert_eq!(Hotkey::Reload.id(), 3);
    assert_eq!(Hotkey::SetKv.id(), 4);
    assert_eq!(Hotkey::SetCam.id(), 5);
    assert_eq!(Hotkey::SetTargetFromCoords.id(), 6);
    assert_eq!(Hotkey::SetTarget.id(), 7);
    assert_eq!(Hotkey::Clear.id(), 8);
}

#[test]
fn hotkey_id_roundtrip() {
    for k in KEYS {
        assert_eq!(Hotkey::from_id(k.id()), Some(k));
    }
}

#[test]
fn hotkey_unknown_ids() {
    assert_eq!(Hotkey::from_id(0), None);
    assert_eq!(Hotkey::from_id(9), None);
    assert_eq!(Hotkey::from_id(-3), None);
}

#[test]
fn hotkey_bindings() {
    assert_eq!(Hotkey::ToggleSettings.binding(), (true, 0x31));
    assert_eq!(Hotkey::Reload.binding(), (true, 0x32));
    assert_eq!(Hotkey::SetKv.binding(), (true, 0x33));
    assert_eq!(Hotkey::SetCam.binding(), (true, 0x34));
    assert_eq!(Hotkey::SetTargetFromCoords.binding(), (true, 0x35));
    assert_eq!(Hotkey::SetTarget.binding(), (true, 0x36));
    assert_eq!(Hotkey::ToggleOverlay.binding(), (false, 0xBB));
    assert_eq!(Hotkey::Clear.binding(), (false, 0xBD));
}

#[test]
fn hotkey_bindings_distinct() {
    for a in KEYS {
        for b in KEYS {
            if a != b {
                assert_ne!(a.binding(), b.binding());
            }
        }
    }
}

#[test]
fn button_ids() {
    assert_eq!(SettingsButton::Calculate.control_id(), 100);
    assert_eq!(SettingsButton::ToggleOverlay.control_id(), 101);
    assert_eq!(SettingsButton::Quit.control_id(), 104);
}

#[test]
fn button_click_decodes() {
    for b in [SettingsButton::Calculate, SettingsButton::ToggleOverlay, SettingsButton::Quit] {
        assert_eq!(SettingsButton::from_command(b.control_id() as u32), Some(b));
    }
}

#[test]
fn button_other_notification_ignored() {
    // High word 1 is a notification other than a click.
    assert_eq!(SettingsButton::from_command(0x0001_0064), None);
    assert_eq!(SettingsButton::from_command(0xFFFF_0064), None);
}

#[test]
fn button_unknown_control_ignored() {
    assert_eq!(SettingsButton::from_command(102), None);
    assert_eq!(SettingsButton::from_command(0), None);
}
