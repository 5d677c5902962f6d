use yinlang::events::FrontendEvent;
use yinlang::menu::{
    audio_extensions, audio_reply, command, file_picked, menu_chosen, tray_menu, Command, MenuAction, MenuEntry,
    TrayAction, AUDIO_FILTER, THEME_COUNT,
};
use yinlang::platform::Platform;
use yinlang::wallpaper::WindowAction;

fn text(s: &str) -> String {
    s.to_string()
}

#[test]
fn the_menu_is_laid_out() {
    let item = |id: &str, label: &str| MenuEntry::Item { id: text(id), label: text(label) };
    let check = |id: &str, label: &str| MenuEntry::Check { id: text(id), label: text(label), checked: false };
    let themes = [
        "夜色 Nocturnal",
        "霓虹东京 Neon Tokyo",
        "赛博森林 Cyber Forest",
        "水墨 Ink Wash",
        "极简单色 Minimal Mono",
        "晨曦 Dawn",
    ];
    assert_eq!(
        tray_menu(),
        vec![
            item("pick-file", "选择音乐文件…"),
            item("play-pause", "播放 / 暂停"),
            check("sys-audio", "系统音频（全局听歌律动）"),
            check("mic", "麦克风驱动"),
            MenuEntry::Separator,
            MenuEntry::Submenu {
                label: text("配色主题"),
                items: themes.iter().enumerate().map(|(i, name)| (format!("theme-{i}"), text(name))).collect(),
            },
            check("clock", "显示时钟"),
            check("interactive", "互动模式（壁纸可点击）"),
            MenuEntry::Separator,
            item("quit", "退出"),
        ]
    );
    assert_eq!(THEME_COUNT, themes.len());
}

#[test]
fn ids_stand_for_commands() {
    assert_eq!(command("quit"), Command::Quit);
    assert_eq!(command("pick-file"), Command::PickFile);
    assert_eq!(command("play-pause"), Command::PlayPause);
    assert_eq!(command("mic"), Command::Mic);
    assert_eq!(command("clock"), Command::Clock);
    assert_eq!(command("sys-audio"), Command::SystemAudio);
    assert_eq!(command("interactive"), Command::Interactive);
    assert_eq!(command("theme-0"), Command::Theme(0));
    assert_eq!(command("theme-5"), Command::Theme(5));
    assert_eq!(command("theme-42"), Command::Theme(42));
    assert_eq!(command("theme-+7"), Command::Theme(7));
    for id in ["", "theme", "theme-", "theme--1", "theme-x", "theme-99999999999999999999999", "Quit", "quit ", "tray"] {
        assert_eq!(command(id), Command::Ignored, "{id:?}");
    }
}

#[test]
fn every_offered_item_is_served() {
    let mut seen = Vec::new();
    for entry in tray_menu() {
        match entry {
            MenuEntry::Item { id, .. } | MenuEntry::Check { id, .. } => seen.push(command(&id)),
            MenuEntry::Submenu { items, .. } => seen.extend(items.iter().map(|(id, _)| command(id))),
            MenuEntry::Separator => {}
        }
    }
    assert_eq!(seen.len(), 13);
    for (i, a) in seen.iter().enumerate() {
        assert_ne!(*a, Command::Ignored);
        for b in &seen[i + 1..] {
            assert_ne!(a, b);
        }
    }
}

#[test]
fn choices_lead_to_actions() {
    let chosen = |id: &str| menu_chosen(id, Platform::MacOs, Some(true), Some(false));
    assert_eq!(chosen("quit"), MenuAction::Exit(0));
    assert_eq!(chosen("pick-file"), MenuAction::PickFile);
    assert_eq!(chosen("play-pause"), MenuAction::Emit(FrontendEvent::TogglePlay));
    assert_eq!(chosen("mic"), MenuAction::Emit(FrontendEvent::ToggleMic));
    assert_eq!(chosen("clock"), MenuAction::Emit(FrontendEvent::ToggleClock));
    assert_eq!(chosen("theme-3"), MenuAction::Emit(FrontendEvent::SetTheme(3)));
    assert_eq!(chosen("sys-audio"), MenuAction::StartAudio);
    assert_eq!(chosen("nonsense"), MenuAction::Nothing);
    for tick in [Some(false), None] {
        assert_eq!(menu_chosen("sys-audio", Platform::Windows, tick, Some(true)), MenuAction::StopAudio);
    }
}

#[test]
fn interaction_moves_the_windows() {
    let chosen = |platform, tick| menu_chosen("interactive", platform, Some(true), tick);
    let clicks = WindowAction::IgnoreCursor;
    let level = WindowAction::SetLevel;
    let focus = WindowAction::Focus;
    let event = FrontendEvent::InteractiveMode;
    assert_eq!(
        chosen(Platform::MacOs, Some(true)),
        MenuAction::Interact(vec![clicks(false), level(4), focus], event(true))
    );
    for tick in [Some(false), None] {
        assert_eq!(
            chosen(Platform::MacOs, tick),
            MenuAction::Interact(vec![clicks(true), level(2)], event(false))
        );
    }
    assert_eq!(
        chosen(Platform::Windows, Some(true)),
        MenuAction::Interact(vec![clicks(false), focus], event(true))
    );
    assert_eq!(chosen(Platform::Other, Some(false)), MenuAction::Interact(vec![clicks(true)], event(false)));
}

#[test]
fn the_file_dialog_offers_audio_files() {
    assert_eq!(AUDIO_FILTER, "音频");
    assert_eq!(audio_extensions(), vec!["mp3", "wav", "flac", "m4a", "aac", "ogg"]);
    assert_eq!(file_picked(Some(text("/m/a.ogg"))), Some(FrontendEvent::PlayAudioFile(text("/m/a.ogg"))));
    assert_eq!(file_picked(None), None);
}

#[test]
fn the_outcome_of_a_switch_is_announced() {
    for on in [true, false] {
        assert_eq!(audio_reply(on, Ok(())), vec![TrayAction::Emit(FrontendEvent::SystemAudio(on))]);
    }
    assert_eq!(
        audio_reply(true, Err(text("no device"))),
        vec![TrayAction::UntickAudio, TrayAction::Emit(FrontendEvent::SystemAudioError(text("no device")))]
    );
}
