use yinlang::platform::Platform;
use yinlang::wallpaper::{attach, enum_proc, host_window, set_interactive, wake_host, Attachment, TopWindow};

#[test]
fn windows_are_attached_by_system() {
    assert_eq!(attach(Platform::MacOs), Attachment::Level { key: 2, behavior: (1 << 0) | (1 << 4) | (1 << 6) });
    assert_eq!(attach(Platform::Windows), Attachment::Host);
    assert_eq!(attach(Platform::Other), Attachment::Plain);
}

#[test]
fn interaction_changes_the_level_on_macos_only() {
    assert_eq!(set_interactive(Platform::MacOs, true), Some(4));
    assert_eq!(set_interactive(Platform::MacOs, false), Some(2));
    for on in [true, false] {
        assert_eq!(set_interactive(Platform::Windows, on), None);
        assert_eq!(set_interactive(Platform::Other, on), None);
    }
}

#[test]
fn the_program_manager_is_woken_if_there() {
    assert_eq!(wake_host(0), None);
    assert_eq!(wake_host(77), Some((0x052c, 1000)));
}

#[test]
fn the_search_stops_at_the_first_worker() {
    let tops = [
        TopWindow { icon_view: 0, worker: Some(5) },
        TopWindow { icon_view: 9, worker: None },
        TopWindow { icon_view: 9, worker: Some(0) },
        TopWindow { icon_view: 9, worker: Some(6) },
        TopWindow { icon_view: 9, worker: Some(7) },
    ];
    let mut found = None;
    let mut looked = 0;
    for top in tops {
        looked += 1;
        if !enum_proc(&mut found, top) {
            break;
        }
    }
    assert_eq!(found, Some(6));
    assert_eq!(looked, 4);
}

#[test]
fn the_program_manager_is_the_fallback() {
    assert_eq!(host_window(Some(6), 77), Some(6));
    assert_eq!(host_window(None, 77), Some(77));
    assert_eq!(host_window(None, 0), None);
    assert_eq!(host_window(Some(6), 0), Some(6));
}
