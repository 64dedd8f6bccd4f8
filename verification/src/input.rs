//! The hotkeys the overlay registers and the buttons of the settings window,
//! with the numbers by which the window system reports them.

use vstd::prelude::*;
use crate::words::{hiword, loword, high_half, low_half};

verus! {

/// A global hotkey of the overlay.
#[derive(Clone, Copy, Debug, PartialEq, Eq, Structural)]
pub enum Hotkey {
    /// Ctrl+1: show or hide the settings window.
    ToggleSettings,
    /// `=`: show or hide the overlay.
    ToggleOverlay,
    /// Ctrl+2: start the time-of-flight timer.
    Reload,
    /// Ctrl+3: place the grid corner at the cursor.
    SetKv,
    /// Ctrl+4: place the scale marker at the cursor.
    SetCam,
    /// Ctrl+5: place the target from the coordinates typed in the settings.
    SetTargetFromCoords,
    /// Ctrl+6: place the target at the cursor.
    SetTarget,
    /// `-`: remove the map markers.
    Clear,
}

/// The identifier under which a hotkey is registered.
pub open spec fn hotkey_id(h: Hotkey) -> int {
    match h {
        Hotkey::ToggleSettings => 1,
        Hotkey::ToggleOverlay => 2,
        Hotkey::Reload => 3,
        Hotkey::SetKv => 4,
        Hotkey::SetCam => 5,
        Hotkey::SetTargetFromCoords => 6,
        Hotkey::SetTarget => 7,
        Hotkey::Clear => 8,
    }
}

/// The key combination of a hotkey: whether Ctrl is held, and the virtual-key
/// code.
pub open spec fn hotkey_binding(h: Hotkey) -> (bool, u32) {
    match h {
        Hotkey::ToggleSettings => (true, 0x31),
        Hotkey::Reload => (true, 0x32),
        Hotkey::SetKv => (true, 0x33),
        Hotkey::SetCam => (true, 0x34),
        Hotkey::SetTargetFromCoords => (true, 0x35),
        Hotkey::SetTarget => (true, 0x36),
        Hotkey::ToggleOverlay => (false, 0xBB),
        Hotkey::Clear => (false, 0xBD),
    }
}

/// The hotkey registered under identifier `id`, if any.
pub open spec fn hotkey_for_id(id: int) -> Option<Hotkey> {
    if id == 1 {
        Some(Hotkey::ToggleSettings)
    } else if id == 2 {
        Some(Hotkey::ToggleOverlay)
    } else if id == 3 {
        Some(Hotkey::Reload)
    } else if id == 4 {
        Some(Hotkey::SetKv)
    } else if id == 5 {
        Some(Hotkey::SetCam)
    } else if id == 6 {
        Some(Hotkey::SetTargetFromCoords)
    } else if id == 7 {
        Some(Hotkey::SetTarget)
    } else if id == 8 {
        Some(Hotkey::Clear)
    } else {
        None
    }
}

impl Hotkey {
    /// The identifier under which this hotkey is registered.
    pub fn id(self) -> (id: i32)
        ensures
            id == hotkey_id(self),
    {
        match self {
            Hotkey::ToggleSettings => 1,
            Hotkey::ToggleOverlay => 2,
            Hotkey::Reload => 3,
            Hotkey::SetKv => 4,
            Hotkey::SetCam => 5,
            Hotkey::SetTargetFromCoords => 6,
            Hotkey::SetTarget => 7,
            Hotkey::Clear => 8,
        }
    }

    /// The key combination: whether Ctrl is held, and the virtual-key code.
    pub fn binding(self) -> (b: (bool, u32))
        ensures
            b == hotkey_binding(self),
    {
        match self {
            Hotkey::ToggleSettings => (true, 0x31),
            Hotkey::Reload => (true, 0x32),
            Hotkey::SetKv => (true, 0x33),
            Hotkey::SetCam => (true, 0x34),
            Hotkey::SetTargetFromCoords => (true, 0x35),
            Hotkey::SetTarget => (true, 0x36),
            Hotkey::ToggleOverlay => (false, 0xBB),
            Hotkey::Clear => (false, 0xBD),
        }
    }

    /// The hotkey reported under identifier `id`, if any.
    pub fn from_id(id: i32) -> (h: Option<Hotkey>)
        ensures
            h == hotkey_for_id(id as int),
    {
        match id {
            1 => Some(Hotkey::ToggleSettings),
            2 => Some(Hotkey::ToggleOverlay),
            3 => Some(Hotkey::Reload),
            4 => Some(Hotkey::SetKv),
            5 => Some(Hotkey::SetCam),
            6 => Some(Hotkey::SetTargetFromCoords),
            7 => Some(Hotkey::SetTarget),
            8 => Some(Hotkey::Clear),
            _ => None,
        }
    }
}

/// Each hotkey is reported back as itself: registering under `id` and
/// decoding the identifier with `from_id` gives the same hotkey.
pub proof fn lemma_hotkey_id_roundtrip(h: Hotkey)
    ensures
        hotkey_for_id(hotkey_id(h)) == Some(h),
{
}

/// No two hotkeys share a key combination.
pub proof fn lemma_bindings_distinct(h: Hotkey, k: Hotkey)
    requires
        h != k,
    ensures
        hotkey_binding(h) != hotkey_binding(k),
{
}

/// The notification code of a button click.
pub const BUTTON_CLICKED: u16 = 0;

/// A button of the settings window.
#[derive(Clone, Copy, Debug, PartialEq, Eq, Structural)]
pub enum SettingsButton {
    Calculate,
    ToggleOverlay,
    Quit,
}

/// The control identifier of a button.
pub open spec fn button_id(b: SettingsButton) -> int {
    match b {
        SettingsButton::Calculate => 100,
        SettingsButton::ToggleOverlay => 101,
        SettingsButton::Quit => 104,
    }
}

/// The button whose click a command message with parameter `wparam`
/// reports, if any.
pub open spec fn clicked_button(wparam: u32) -> Option<SettingsButton> {
    if high_half(wparam) != BUTTON_CLICKED {
        None
    } else if low_half(wparam) == 100 {
        Some(SettingsButton::Calculate)
    } else if low_half(wparam) == 101 {
        Some(SettingsButton::ToggleOverlay)
    } else if low_half(wparam) == 104 {
        Some(SettingsButton::Quit)
    } else {
        None
    }
}

impl SettingsButton {
    /// The control identifier of this button.
    pub fn control_id(self) -> (id: u16)
        ensures
            id == button_id(self),
    {
        match self {
            SettingsButton::Calculate => 100,
            SettingsButton::ToggleOverlay => 101,
            SettingsButton::Quit => 104,
        }
    }

    /// The button whose click a command message with parameter `wparam`
    /// reports: the high word must be the click notification and the low word
    /// a button's identifier.
    pub fn from_command(wparam: u32) -> (b: Option<SettingsButton>)
        ensures
            b == clicked_button(wparam),
    {
        if hiword(wparam) == BUTTON_CLICKED {
            match loword(wparam) {
                100 => Some(SettingsButton::Calculate),
                101 => Some(SettingsButton::ToggleOverlay),
                104 => Some(SettingsButton::Quit),
                _ => None,
            }
        } else {
            None
        }
    }
}

/// Only clicks decode: a command with any other notification in its high
/// word is no button; and a button is decoded only from a click on its own
/// control (Calculate 100, Toggle overlay 101, Quit 104).
pub proof fn lemma_only_clicks_decode(wparam: u32, b: SettingsButton)
    ensures
        high_half(wparam) != 0 ==> clicked_button(wparam) is None,
        clicked_button(wparam) == Some(b) ==> wparam == button_id(b),
        wparam == 100 ==> clicked_button(wparam) == Some(SettingsButton::Calculate),
        wparam == 101 ==> clicked_button(wparam) == Some(SettingsButton::ToggleOverlay),
        wparam == 104 ==> clicked_button(wparam) == Some(SettingsButton::Quit),
        button_id(SettingsButton::Calculate) == 100,
        button_id(SettingsButton::ToggleOverlay) == 101,
        button_id(SettingsButton::Quit) == 104,
{
    if clicked_button(wparam) == Some(b) {
        assert(high_half(wparam) == 0);
        assert(wparam == high_half(wparam) * 0x1_0000 + low_half(wparam));
    }
}

/// A click on a button, reported with the click notification in the high
/// word and the button's identifier in the low word, decodes to that button.
pub proof fn lemma_button_click_decodes(b: SettingsButton, wparam: u32)
    requires
        wparam == button_id(b),
    ensures
        clicked_button(wparam) == Some(b),
{
}

} // verus!
