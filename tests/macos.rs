use snaptowindow::{Display, MacOSManager, Rect, ScreenInfo, WindowListEntry, WindowManagerError};
use std::cell::Cell;

fn entry(layer: Option<i32>, pid: Option<i32>, name: Option<&str>) -> WindowListEntry {
    WindowListEntry { layer, owner_pid: pid, owner_name: name.map(|n| n.to_string()) }
}

fn display(name: &str, bounds: Rect, primary: bool) -> Display {
    Display { name: name.to_string(), bounds, work_area: bounds, is_primary: primary }
}

#[test]
fn topmost_pid_takes_first_regular_window() {
    let mac = MacOSManager::new();
    let list = vec![
        entry(Some(25), Some(90), Some("Control Center")),
        entry(Some(0), Some(311), Some("Safari")),
        entry(Some(0), Some(312), Some("Mail")),
    ];
    assert_eq!(mac.get_topmost_window_pid(&list), Ok(311));
}

#[test]
fn topmost_pid_skips_own_application() {
    let mac = MacOSManager::new();
    let list = vec![
        entry(Some(0), Some(77), Some("SnapToWindow")),
        entry(Some(0), Some(78), Some("SnapToWindow Helper")),
        entry(Some(0), Some(501), Some("Terminal")),
    ];
    assert_eq!(mac.get_topmost_window_pid(&list), Ok(501));
}

#[test]
fn topmost_pid_accepts_window_without_owner_name() {
    let mac = MacOSManager::new();
    let list = vec![entry(Some(0), None, Some("Finder")), entry(None, Some(5), None), entry(Some(0), Some(6), None)];
    assert_eq!(mac.get_topmost_window_pid(&list), Ok(6));
}

#[test]
fn topmost_pid_fails_without_candidate() {
    let mac = MacOSManager::new();
    assert_eq!(mac.get_topmost_window_pid(&vec![]), Err(WindowManagerError::NoFocusedWindow));
    let list = vec![entry(Some(3), Some(1), Some("Dock")), entry(Some(0), Some(2), Some("SnapToWindow"))];
    assert_eq!(mac.get_topmost_window_pid(&list), Err(WindowManagerError::NoFocusedWindow));
}

#[test]
fn primary_success_is_cached_and_skips_window_list() {
    let mac = MacOSManager::new();
    let consulted = Cell::new(false);
    let mut last = 12;
    let r = mac.get_frontmost_app_pid(
        Ok(640),
        || {
            consulted.set(true);
            Ok(1)
        },
        &mut last,
    );
    assert_eq!(r, Ok(640));
    assert_eq!(last, 640);
    assert!(!consulted.get());
}

#[test]
fn window_list_is_first_fallback() {
    let mac = MacOSManager::new();
    let mut last = 12;
    let r = mac.get_frontmost_app_pid(Err(WindowManagerError::NoFocusedWindow), || Ok(733), &mut last);
    assert_eq!(r, Ok(733));
    assert_eq!(last, 12);
}

#[test]
fn cached_pid_is_last_fallback() {
    let mac = MacOSManager::new();
    let mut last = 12;
    let r = mac.get_frontmost_app_pid(
        Err(WindowManagerError::NoFocusedWindow),
        || Err(WindowManagerError::NoFocusedWindow),
        &mut last,
    );
    assert_eq!(r, Ok(12));
    assert_eq!(last, 12);
}

#[test]
fn all_fallbacks_failing_is_no_focused_window() {
    let mac = MacOSManager::new();
    let mut last = 0;
    let r = mac.get_frontmost_app_pid(
        Err(WindowManagerError::NoFocusedWindow),
        || Err(WindowManagerError::NoFocusedWindow),
        &mut last,
    );
    assert_eq!(r, Err(WindowManagerError::NoFocusedWindow));
    assert_eq!(last, 0);
}

#[test]
fn work_area_converts_visible_frame_to_top_left_origin() {
    let mac = MacOSManager::new();
    let screens = vec![
        ScreenInfo { number: Some(2), visible_x: 1440, visible_y: 0, visible_width: 1920, visible_height: 1080 },
        ScreenInfo { number: Some(1), visible_x: 0, visible_y: 70, visible_width: 1440, visible_height: 805 },
    ];
    let bounds = Rect::new(0, 0, 1440, 900);
    // The primary display is 900 points tall: a 25-point menu bar on top and a 70-point dock below.
    assert_eq!(mac.get_display_work_area(1, &screens, 900, bounds), Ok(Rect::new(0, 25, 1440, 805)));
    assert_eq!(
        mac.get_display_work_area(2, &screens, 900, Rect::new(1440, -180, 1920, 1080)),
        Ok(Rect::new(1440, -180, 1920, 1080))
    );
}

#[test]
fn work_area_falls_back_to_bounds() {
    let mac = MacOSManager::new();
    let screens = vec![ScreenInfo { number: None, visible_x: 0, visible_y: 0, visible_width: 10, visible_height: 10 }];
    let bounds = Rect::new(-1280, 0, 1280, 1024);
    assert_eq!(mac.get_display_work_area(9, &screens, 900, bounds), Ok(bounds));
    assert_eq!(mac.get_display_work_area(9, &vec![], 900, bounds), Ok(bounds));
}

#[test]
fn work_area_out_of_coordinate_range_is_display_error() {
    let mac = MacOSManager::new();
    let screens = vec![ScreenInfo {
        number: Some(1),
        visible_x: 0,
        visible_y: i32::MIN,
        visible_width: 100,
        visible_height: 100,
    }];
    assert_eq!(
        mac.get_display_work_area(1, &screens, u32::MAX, Rect::new(0, 0, 1, 1)),
        Err(WindowManagerError::DisplayError)
    );
}

#[test]
fn current_display_contains_window_center() {
    let mac = MacOSManager::new();
    let displays = vec![
        display("Display 1", Rect::new(0, 0, 1440, 900), true),
        display("Display 2", Rect::new(1440, 0, 1920, 1080), false),
    ];
    // Center is (1440 + 0, 100): on the left edge of the second display.
    let frame = Rect::new(1240, 0, 400, 200);
    assert_eq!(mac.get_current_display(&frame, displays).map(|d| d.name), Ok("Display 2".to_string()));
}

#[test]
fn current_display_right_edge_is_exclusive() {
    let mac = MacOSManager::new();
    let displays = vec![
        display("Display 1", Rect::new(0, 0, 1440, 900), false),
        display("Display 2", Rect::new(1440, 0, 1920, 1080), true),
    ];
    let frame = Rect::new(1000, 100, 878, 100);
    assert_eq!(mac.get_current_display(&frame, displays).map(|d| d.name), Ok("Display 1".to_string()));
}

#[test]
fn current_display_falls_back_to_primary() {
    let mac = MacOSManager::new();
    let displays = vec![
        display("Display 1", Rect::new(0, 0, 1440, 900), false),
        display("Display 2", Rect::new(1440, 0, 1920, 1080), true),
    ];
    let frame = Rect::new(-5000, -5000, 100, 100);
    assert_eq!(mac.get_current_display(&frame, displays).map(|d| d.name), Ok("Display 2".to_string()));
}

#[test]
fn current_display_without_match_or_primary_fails() {
    let mac = MacOSManager::new();
    let displays = vec![display("Display 1", Rect::new(0, 0, 1440, 900), false)];
    let frame = Rect::new(5000, 5000, 100, 100);
    assert_eq!(mac.get_current_display(&frame, displays).err(), Some(WindowManagerError::DisplayError));
    assert_eq!(mac.get_current_display(&frame, vec![]).err(), Some(WindowManagerError::DisplayError));
}

#[test]
fn display_entry_names_by_position() {
    let mac = MacOSManager::default();
    let bounds = Rect::new(0, 0, 2560, 1440);
    let wa = Rect::new(0, 25, 2560, 1415);
    let d = mac.display_entry(2, 69733382, 69733382, bounds, wa);
    assert_eq!(d.name, "Display 3");
    assert!(d.is_primary);
    assert_eq!(d.bounds, bounds);
    assert_eq!(d.work_area, wa);
    let d = mac.display_entry(11, 5, 1, bounds, wa);
    assert_eq!(d.name, "Display 12");
    assert!(!d.is_primary);
}
