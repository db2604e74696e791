use dinput8_saga::hooks::{
    background_loading_at, entry_after_game_update, fullscreen_label, plan_video_menu_update,
    MenuSelection, PermLoadPhase, VideoMenuUpdate, BACKGROUND_LOADING_OFF, BACKGROUND_LOADING_ON,
};

fn menu(entry: i32, s1: i32, s2: i32, s3: i32) -> MenuSelection {
    MenuSelection {
        entry_selected: entry,
        unknown_select_1: s1,
        unknown_select_2: s2,
        unknown_select_3: s3,
    }
}

#[test]
fn label_shows_the_mode() {
    assert_eq!(fullscreen_label(true), "Fullscreen: Off");
    assert_eq!(fullscreen_label(false), "Fullscreen: On");
}

#[test]
fn confirming_the_entry_switches_mode() {
    for m in [menu(0, 1, 0, 0), menu(0, 0, 1, 0), menu(0, 0, 0, -1)] {
        assert_eq!(
            plan_video_menu_update(&m, true),
            VideoMenuUpdate::SwitchDisplayMode { windowed: false }
        );
        assert_eq!(
            plan_video_menu_update(&m, false),
            VideoMenuUpdate::SwitchDisplayMode { windowed: true }
        );
    }
}

#[test]
fn other_input_goes_to_the_game_shifted() {
    assert_eq!(
        plan_video_menu_update(&menu(0, 0, 0, 0), true),
        VideoMenuUpdate::ForwardToGame { entry_selected: -1 }
    );
    assert_eq!(
        plan_video_menu_update(&menu(3, 1, 1, 1), false),
        VideoMenuUpdate::ForwardToGame { entry_selected: 2 }
    );
    assert_eq!(entry_after_game_update(2), 3);
    assert_eq!(entry_after_game_update(-1), 0);
}

#[test]
fn switching_twice_restores_and_round_trip_holds() {
    let m = menu(0, 1, 0, 0);
    let VideoMenuUpdate::SwitchDisplayMode { windowed } = plan_video_menu_update(&m, true) else {
        panic!("expected a switch");
    };
    assert_eq!(
        plan_video_menu_update(&m, windowed),
        VideoMenuUpdate::SwitchDisplayMode { windowed: true }
    );
    assert_ne!(fullscreen_label(windowed), fullscreen_label(true));
    let m = menu(5, 0, 0, 0);
    let VideoMenuUpdate::ForwardToGame { entry_selected } = plan_video_menu_update(&m, true) else {
        panic!("expected forwarding");
    };
    assert_eq!(entry_after_game_update(entry_selected), 5);
}

#[test]
fn background_loading_is_off_only_during_the_load() {
    assert_eq!(background_loading_at(PermLoadPhase::BeforeGameLoad), 0);
    assert_eq!(background_loading_at(PermLoadPhase::AfterGameLoad), 1);
    assert_eq!(BACKGROUND_LOADING_OFF, 0);
    assert_eq!(BACKGROUND_LOADING_ON, 1);
}
