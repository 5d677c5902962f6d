use yinlang::display::{
    autostart_event, autostart_requested, extra_windows, startup_actions, Monitor, WallpaperWindow, AUTOSTART_DELAY_SECS,
    MAIN_LABEL,
};
use yinlang::events::FrontendEvent;
use yinlang::wallpaper::WindowAction;

fn monitor(x: i32, y: i32) -> Monitor {
    Monitor { x, y, width: 1920, height: 1080 }
}

fn window(label: &str, monitor: Monitor) -> WallpaperWindow {
    WallpaperWindow { label: label.to_string(), monitor }
}

#[test]
fn every_other_display_gets_a_window() {
    let monitors = [monitor(-1920, 0), monitor(0, 0), monitor(1920, -200)];
    assert_eq!(
        extra_windows(&monitors, Some((0, 0))),
        vec![window("wp0", monitors[0]), window("wp2", monitors[2])]
    );
}

#[test]
fn without_a_known_main_display_all_get_one() {
    let monitors = [monitor(0, 0), monitor(1920, 0)];
    assert_eq!(extra_windows(&monitors, None), vec![window("wp0", monitors[0]), window("wp1", monitors[1])]);
}

#[test]
fn displays_at_the_same_place_are_the_main_one() {
    let monitors = [monitor(0, 0), monitor(0, 0)];
    assert_eq!(extra_windows(&monitors, Some((0, 0))), Vec::new());
    assert_eq!(extra_windows(&[], Some((0, 0))), Vec::new());
    assert_eq!(extra_windows(&[monitor(0, 1), monitor(1, 0)], Some((0, 0))).len(), 2);
}

#[test]
fn labels_count_all_displays() {
    let monitors: Vec<Monitor> = (0..12).map(|i| monitor(i * 100, 0)).collect();
    let windows = extra_windows(&monitors, Some((0, 0)));
    assert_eq!(windows.len(), 11);
    for (i, w) in windows.iter().enumerate() {
        assert_eq!(w.label, format!("wp{}", i + 1));
        assert_eq!(w.monitor, monitors[i + 1]);
    }
    assert_eq!(MAIN_LABEL, "main");
}

#[test]
fn windows_fill_their_display_and_let_clicks_through() {
    let display = Monitor { x: -1920, y: 30, width: 1920, height: 1080 };
    let place = WindowAction::MoveTo { x: -1920, y: 30 };
    let size = WindowAction::Resize { width: 1920, height: 1080 };
    let rest = [WindowAction::Attach, WindowAction::IgnoreCursor(true)];
    assert_eq!(startup_actions(Some(display)), vec![place, size, rest[0], rest[1]]);
    assert_eq!(startup_actions(None), rest.to_vec());
}

#[test]
fn autostart_is_asked_for_by_one() {
    assert!(autostart_requested(Some("1")));
    for value in ["", "0", "true", "11", " 1"] {
        assert!(!autostart_requested(Some(value)));
    }
    assert!(!autostart_requested(None));
    assert_eq!(AUTOSTART_DELAY_SECS, 3);
}

#[test]
fn autostart_is_announced_if_it_worked() {
    assert_eq!(autostart_event(true), Some(FrontendEvent::SystemAudio(true)));
    assert_eq!(autostart_event(false), None);
}
