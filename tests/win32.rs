use snaptowindow::{MonitorInfo, Rect, Win32Rect, WindowHandle, WindowManagerError, WindowsManager};

fn utf16(s: &str) -> Vec<u16> {
    s.encode_utf16().collect()
}

#[test]
fn native_rect_converts_to_origin_and_extent() {
    let win = WindowsManager::new();
    let r = Win32Rect { left: -8, top: 100, right: 1928, bottom: 1040 };
    assert_eq!(win.rect_from_win32(&r), Rect::new(-8, 100, 1936, 940));
}

#[test]
fn inverted_native_rect_is_empty() {
    let win = WindowsManager::new();
    let r = Win32Rect { left: 50, top: 60, right: 40, bottom: 10 };
    assert_eq!(win.rect_from_win32(&r), Rect::new(50, 60, 0, 0));
}

#[test]
fn widest_native_rect_fits() {
    let win = WindowsManager::new();
    let r = Win32Rect { left: i32::MIN, top: i32::MIN, right: i32::MAX, bottom: i32::MAX };
    assert_eq!(win.rect_from_win32(&r), Rect::new(i32::MIN, i32::MIN, u32::MAX, u32::MAX));
}

#[test]
fn restore_only_minimized_or_maximized() {
    let win = WindowsManager::default();
    assert!(win.restore_needed(true, false));
    assert!(win.restore_needed(false, true));
    assert!(!win.restore_needed(false, false));
}

#[test]
fn title_decodes_copied_units() {
    let win = WindowsManager::new();
    let mut buffer = utf16("Document - Editor");
    buffer.push(0);
    assert_eq!(win.get_window_title(&buffer, 17), "Document - Editor");
    assert_eq!(win.get_window_title(&buffer, 8), "Document");
    assert_eq!(win.get_window_title(&buffer, 0), "");
    assert_eq!(win.get_window_title(&buffer, -1), "");
}

#[test]
fn title_replaces_invalid_units() {
    let win = WindowsManager::new();
    let buffer = vec![0x48, 0xD800, 0x69];
    assert_eq!(win.get_window_title(&buffer, 3), "H\u{FFFD}i");
}

#[test]
fn foreground_null_or_hidden_is_no_focused_window() {
    let win = WindowsManager::new();
    let rect = Some(Win32Rect { left: 0, top: 0, right: 10, bottom: 10 });
    assert_eq!(win.get_focused_window(0, true, String::new(), rect).err(), Some(WindowManagerError::NoFocusedWindow));
    assert_eq!(win.get_focused_window(0x1234, false, String::new(), rect).err(), Some(WindowManagerError::NoFocusedWindow));
}

#[test]
fn foreground_without_rect_is_move_error() {
    let win = WindowsManager::new();
    assert_eq!(
        win.get_focused_window(0x1234, true, "App".to_string(), None).err(),
        Some(WindowManagerError::MoveError("Failed to get window rect".to_string()))
    );
}

#[test]
fn foreground_window_snapshot() {
    let win = WindowsManager::new();
    let rect = Some(Win32Rect { left: 200, top: 150, right: 1000, bottom: 750 });
    let w = win.get_focused_window(0x1234, true, "App".to_string(), rect).unwrap();
    assert_eq!(w.handle, WindowHandle::Windows(0x1234));
    assert_eq!(w.title, "App");
    assert_eq!(w.frame, Rect::new(200, 150, 800, 600));
}

#[test]
fn monitor_becomes_display() {
    let win = WindowsManager::new();
    let mut device = utf16("\\\\.\\DISPLAY1");
    device.resize(32, 0);
    let info = MonitorInfo {
        device,
        flags: 1,
        monitor: Win32Rect { left: 0, top: 0, right: 1920, bottom: 1080 },
        work: Win32Rect { left: 0, top: 0, right: 1920, bottom: 1040 },
    };
    let d = win.display_from_monitor(&info);
    assert_eq!(d.name, "\\\\.\\DISPLAY1");
    assert!(d.is_primary);
    assert_eq!(d.bounds, Rect::new(0, 0, 1920, 1080));
    assert_eq!(d.work_area, Rect::new(0, 0, 1920, 1040));
}

#[test]
fn secondary_monitor_without_nul() {
    let win = WindowsManager::new();
    let info = MonitorInfo {
        device: utf16("DISPLAY2"),
        flags: 2,
        monitor: Win32Rect { left: -1280, top: 0, right: 0, bottom: 1024 },
        work: Win32Rect { left: -1280, top: 0, right: 0, bottom: 984 },
    };
    let d = win.display_from_monitor(&info);
    assert_eq!(d.name, "DISPLAY2");
    assert!(!d.is_primary);
    assert_eq!(d.bounds, Rect::new(-1280, 0, 1280, 1024));
    let empty = MonitorInfo { device: vec![0; 32], ..info };
    assert_eq!(win.display_from_monitor(&empty).name, "");
}
