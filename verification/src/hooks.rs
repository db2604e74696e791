//! The decisions of the game detours: the extra fullscreen entry that the
//! video settings menu gains, and background loading around the start-up
//! data load.

use vstd::prelude::*;

verus! {

/// The label of the added entry: it shows whether the game runs in
/// fullscreen ("Off" while windowed).
pub open spec fn spec_fullscreen_label(windowed: bool) -> Seq<char> {
    if windowed {
        "Fullscreen: Off"@
    } else {
        "Fullscreen: On"@
    }
}

/// The label drawn for the added menu entry.
pub fn fullscreen_label(windowed: bool) -> (s: &'static str)
    ensures
        s@ == spec_fullscreen_label(windowed),
{
    if windowed {
        "Fullscreen: Off"
    } else {
        "Fullscreen: On"
    }
}

/// What the menu's update handler reads of the menu: the selected entry
/// and the three confirm inputs.
#[derive(PartialEq, Eq, Structural, Clone, Copy, Debug)]
pub struct MenuSelection {
    pub entry_selected: i32,
    pub unknown_select_1: i32,
    pub unknown_select_2: i32,
    pub unknown_select_3: i32,
}

/// The added entry, the first of the menu, is selected and confirmed.
pub open spec fn fullscreen_confirmed(m: MenuSelection) -> bool {
    m.entry_selected == 0 && (m.unknown_select_1 != 0 || m.unknown_select_2 != 0
        || m.unknown_select_3 != 0)
}

/// What the update handler does.
#[derive(PartialEq, Eq, Structural, Clone, Copy, Debug)]
pub enum VideoMenuUpdate {
    /// Play the menu-move sound and set the display mode to `windowed`.
    SwitchDisplayMode { windowed: bool },
    /// Run the game's own handler with the selection set to
    /// `entry_selected`, the position among the game's entries, then move it
    /// back by one with `entry_after_game_update`.
    ForwardToGame { entry_selected: i32 },
}

pub open spec fn spec_video_menu_update(m: MenuSelection, windowed: bool) -> VideoMenuUpdate {
    if fullscreen_confirmed(m) {
        VideoMenuUpdate::SwitchDisplayMode { windowed: !windowed }
    } else {
        VideoMenuUpdate::ForwardToGame { entry_selected: (m.entry_selected - 1) as i32 }
    }
}

/// The update handler's decision: confirming the added entry flips the
/// display mode; any other input goes to the game's handler, which sees the
/// menu without the added entry.
pub fn plan_video_menu_update(menu: &MenuSelection, windowed: bool) -> (u: VideoMenuUpdate)
    requires
        menu.entry_selected > i32::MIN,
    ensures
        u == spec_video_menu_update(*menu, windowed),
        menu.entry_selected == 0 && (menu.unknown_select_3 != 0 || menu.unknown_select_1 != 0
            || menu.unknown_select_2 != 0) ==> u == (VideoMenuUpdate::SwitchDisplayMode {
            windowed: !windowed,
        }),
        menu.entry_selected != 0 || (menu.unknown_select_1 == 0 && menu.unknown_select_2 == 0
            && menu.unknown_select_3 == 0) ==> u == (VideoMenuUpdate::ForwardToGame {
            entry_selected: (menu.entry_selected - 1) as i32,
        }),
{
    if menu.entry_selected == 0 && (menu.unknown_select_1 != 0 || menu.unknown_select_2 != 0
        || menu.unknown_select_3 != 0) {
        VideoMenuUpdate::SwitchDisplayMode { windowed: !windowed }
    } else {
        VideoMenuUpdate::ForwardToGame { entry_selected: menu.entry_selected - 1 }
    }
}

/// The selection after the game's handler has run: moved back by one, so
/// that it counts the added entry again.
pub fn entry_after_game_update(entry_selected: i32) -> (e: i32)
    requires
        entry_selected < i32::MAX,
    ensures
        e == entry_selected + 1,
{
    entry_selected + 1
}

/// Law: on the added entry, any of the three confirm inputs being non-zero,
/// whatever its sign, switches the display mode; on any other entry, or with
/// all three at zero, the game's handler runs one entry lower.
pub proof fn lemma_any_confirm_input_switches(m: MenuSelection, windowed: bool)
    ensures
        m.entry_selected == 0 && (m.unknown_select_3 != 0 || m.unknown_select_1 != 0
            || m.unknown_select_2 != 0) ==> spec_video_menu_update(m, windowed) == (
        VideoMenuUpdate::SwitchDisplayMode { windowed: !windowed }),
        m.entry_selected != 0 || (m.unknown_select_1 == 0 && m.unknown_select_2 == 0
            && m.unknown_select_3 == 0) ==> spec_video_menu_update(m, windowed) == (
        VideoMenuUpdate::ForwardToGame { entry_selected: (m.entry_selected - 1) as i32 }),
{
}

/// Law: confirming the added entry twice gives the display mode back.
pub proof fn lemma_switch_twice_restores(m: MenuSelection, windowed: bool)
    requires
        fullscreen_confirmed(m),
    ensures
        spec_video_menu_update(m, windowed) matches VideoMenuUpdate::SwitchDisplayMode { windowed: w }
            && spec_video_menu_update(m, w) == (VideoMenuUpdate::SwitchDisplayMode { windowed }),
{
}

/// Law: where the game's handler leaves the selection as it found it, the
/// menu's selection after the update is the one before it.
pub proof fn lemma_forward_round_trip(m: MenuSelection, windowed: bool)
    requires
        !fullscreen_confirmed(m),
        m.entry_selected > i32::MIN,
    ensures
        spec_video_menu_update(m, windowed) matches VideoMenuUpdate::ForwardToGame { entry_selected: e }
            && e < i32::MAX && e + 1 == m.entry_selected,
{
}

/// Law: confirming the added entry changes the label it shows, from "On"
/// to "Off" or back.
pub proof fn lemma_switch_changes_label(m: MenuSelection, windowed: bool)
    requires
        fullscreen_confirmed(m),
    ensures
        spec_video_menu_update(m, windowed) matches VideoMenuUpdate::SwitchDisplayMode { windowed: w }
            && spec_fullscreen_label(w) != spec_fullscreen_label(windowed),
{
    reveal_strlit("Fullscreen: Off");
    reveal_strlit("Fullscreen: On");
    assert("Fullscreen: Off"@.len() != "Fullscreen: On"@.len());
}

/// Background loading switched off: the start-up data load then skips the
/// intro logos.
pub const BACKGROUND_LOADING_OFF: i32 = 0;

/// Background loading switched on, as normal play needs it.
pub const BACKGROUND_LOADING_ON: i32 = 1;

/// The two points of the start-up data load at which the detour writes the
/// background loading flag.
#[derive(PartialEq, Eq, Structural, Clone, Copy, Debug)]
pub enum PermLoadPhase {
    /// Before the game's own loader runs.
    BeforeGameLoad,
    /// After the game's own loader has returned.
    AfterGameLoad,
}

/// The value written to the background loading flag at each point.
pub fn background_loading_at(phase: PermLoadPhase) -> (v: i32)
    ensures
        phase == PermLoadPhase::BeforeGameLoad ==> v == BACKGROUND_LOADING_OFF,
        phase == PermLoadPhase::AfterGameLoad ==> v == BACKGROUND_LOADING_ON,
{
    match phase {
        PermLoadPhase::BeforeGameLoad => BACKGROUND_LOADING_OFF,
        PermLoadPhase::AfterGameLoad => BACKGROUND_LOADING_ON,
    }
}

} // verus!
