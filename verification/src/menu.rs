//! The tray menu: what it offers, and what each choice does.

use vstd::prelude::*;
use vstd::string::*;

use crate::events::{EventView, FrontendEvent};
use crate::platform::Platform;
use crate::text::{
    decimal,
    index_of,
    law_index_round_trip,
    law_one_digit_is_read,
    numbered,
    parse_index,
    same,
};
use crate::wallpaper::{attachment_for, interactive_level, set_interactive, Attachment, WindowAction};

verus! {

/// One line of the tray menu. Every line can be chosen from the start.
#[derive(Debug, PartialEq, Eq)]
pub enum MenuEntry {
    /// A plain item.
    Item { id: String, label: String },
    /// An item with a tick, and whether it is ticked at first.
    Check { id: String, label: String, checked: bool },
    Separator,
    /// A submenu of plain items, each with its id and its label.
    Submenu { label: String, items: Vec<(String, String)> },
}

/// The model of [`MenuEntry`].
pub enum EntryView {
    Item { id: Seq<char>, label: Seq<char> },
    Check { id: Seq<char>, label: Seq<char>, checked: bool },
    Separator,
    Submenu { label: Seq<char>, items: Seq<(Seq<char>, Seq<char>)> },
}

impl View for MenuEntry {
    type V = EntryView;

    open spec fn view(&self) -> EntryView {
        match self {
            MenuEntry::Item { id, label } => EntryView::Item { id: id@, label: label@ },
            MenuEntry::Check { id, label, checked } => EntryView::Check {
                id: id@,
                label: label@,
                checked: *checked,
            },
            MenuEntry::Separator => EntryView::Separator,
            MenuEntry::Submenu { label, items } => EntryView::Submenu {
                label: label@,
                items: items@.map_values(|item: (String, String)| (item.0@, item.1@)),
            },
        }
    }
}

/// How many themes there are.
pub const THEME_COUNT: usize = 6;

/// The names of the themes, in the order of their indices.
pub open spec fn theme_names() -> Seq<Seq<char>> {
    seq![
        "夜色 Nocturnal"@,
        "霓虹东京 Neon Tokyo"@,
        "赛博森林 Cyber Forest"@,
        "水墨 Ink Wash"@,
        "极简单色 Minimal Mono"@,
        "晨曦 Dawn"@,
    ]
}

/// The menu id of the theme with index `i`.
pub open spec fn theme_id(i: nat) -> Seq<char> {
    "theme-"@ + decimal(i)
}

/// The items of the theme submenu.
pub open spec fn theme_items() -> Seq<(Seq<char>, Seq<char>)> {
    Seq::new(THEME_COUNT as nat, |i: int| (theme_id(i as nat), theme_names()[i]))
}

/// The tray menu, from top to bottom.
pub open spec fn tray_entries() -> Seq<EntryView> {
    seq![
        EntryView::Item { id: "pick-file"@, label: "选择音乐文件…"@ },
        EntryView::Item { id: "play-pause"@, label: "播放 / 暂停"@ },
        EntryView::Check {
            id: "sys-audio"@,
            label: "系统音频（全局听歌律动）"@,
            checked: false,
        },
        EntryView::Check { id: "mic"@, label: "麦克风驱动"@, checked: false },
        EntryView::Separator,
        EntryView::Submenu { label: "配色主题"@, items: theme_items() },
        EntryView::Check { id: "clock"@, label: "显示时钟"@, checked: false },
        EntryView::Check {
            id: "interactive"@,
            label: "互动模式（壁纸可点击）"@,
            checked: false,
        },
        EntryView::Separator,
        EntryView::Item { id: "quit"@, label: "退出"@ },
    ]
}

fn item(id: &str, label: &str) -> (r: MenuEntry)
    ensures
        r@ == (EntryView::Item { id: id@, label: label@ }),
{
    MenuEntry::Item { id: id.to_owned(), label: label.to_owned() }
}

fn unticked(id: &str, label: &str) -> (r: MenuEntry)
    ensures
        r@ == (EntryView::Check { id: id@, label: label@, checked: false }),
{
    MenuEntry::Check { id: id.to_owned(), label: label.to_owned(), checked: false }
}

/// The name of a theme.
fn theme_name(i: usize) -> (r: &'static str)
    requires
        i < THEME_COUNT,
    ensures
        r@ == theme_names()[i as int],
{
    if i == 0 {
        "夜色 Nocturnal"
    } else if i == 1 {
        "霓虹东京 Neon Tokyo"
    } else if i == 2 {
        "赛博森林 Cyber Forest"
    } else if i == 3 {
        "水墨 Ink Wash"
    } else if i == 4 {
        "极简单色 Minimal Mono"
    } else {
        "晨曦 Dawn"
    }
}

/// The submenu that offers the themes.
fn theme_menu() -> (r: MenuEntry)
    ensures
        r@ == (EntryView::Submenu { label: "配色主题"@, items: theme_items() }),
{
    let mut items: Vec<(String, String)> = Vec::new();
    let mut i: usize = 0;
    while i < THEME_COUNT
        invariant
            i <= THEME_COUNT,
            items@.len() == i,
            forall|j: int|
                0 <= j < i ==> (#[trigger] items@[j]).0@ == theme_id(j as nat) && items@[j].1@
                    == theme_names()[j],
        decreases THEME_COUNT - i,
    {
        items.push((numbered("theme-", i), theme_name(i).to_owned()));
        i = i + 1;
    }
    assert(items@.map_values(|item: (String, String)| (item.0@, item.1@)) =~= theme_items());
    MenuEntry::Submenu { label: "配色主题".to_owned(), items }
}

/// The tray menu, from top to bottom.
pub fn tray_menu() -> (r: Vec<MenuEntry>)
    ensures
        r@.map_values(|e: MenuEntry| e@) == tray_entries(),
{
    let mut r: Vec<MenuEntry> = Vec::new();
    r.push(item("pick-file", "选择音乐文件…"));
    r.push(item("play-pause", "播放 / 暂停"));
    r.push(unticked("sys-audio", "系统音频（全局听歌律动）"));
    r.push(unticked("mic", "麦克风驱动"));
    r.push(MenuEntry::Separator);
    r.push(theme_menu());
    r.push(unticked("clock", "显示时钟"));
    r.push(unticked("interactive", "互动模式（壁纸可点击）"));
    r.push(MenuEntry::Separator);
    r.push(item("quit", "退出"));
    assert(r@.map_values(|e: MenuEntry| e@) =~= tray_entries());
    r
}

/// What a menu choice asks for.
#[derive(Clone, Copy, Debug, PartialEq, Eq, Structural)]
pub enum Command {
    /// Exit with status zero.
    Quit,
    /// Let the user pick an audio file.
    PickFile,
    PlayPause,
    Mic,
    Clock,
    /// Switch system audio to the state of its tick.
    SystemAudio,
    /// Switch interaction to the state of its tick.
    Interactive,
    /// Switch to the theme with this index.
    Theme(usize),
    /// Nothing: no such item.
    Ignored,
}

/// The command that a menu id stands for.
pub open spec fn command_for(id: Seq<char>) -> Command {
    if id == "quit"@ {
        Command::Quit
    } else if id == "pick-file"@ {
        Command::PickFile
    } else if id == "play-pause"@ {
        Command::PlayPause
    } else if id == "mic"@ {
        Command::Mic
    } else if id == "clock"@ {
        Command::Clock
    } else if id == "sys-audio"@ {
        Command::SystemAudio
    } else if id == "interactive"@ {
        Command::Interactive
    } else if id.len() >= "theme-"@.len() && id.take("theme-"@.len() as int) == "theme-"@ {
        match index_of(id.skip("theme-"@.len() as int)) {
            Some(n) => Command::Theme(n),
            None => Command::Ignored,
        }
    } else {
        Command::Ignored
    }
}

/// Tells which command a menu id stands for.
pub fn command(id: &str) -> (r: Command)
    ensures
        r == command_for(id@),
{
    if same(id, "quit") {
        return Command::Quit;
    }
    if same(id, "pick-file") {
        return Command::PickFile;
    }
    if same(id, "play-pause") {
        return Command::PlayPause;
    }
    if same(id, "mic") {
        return Command::Mic;
    }
    if same(id, "clock") {
        return Command::Clock;
    }
    if same(id, "sys-audio") {
        return Command::SystemAudio;
    }
    if same(id, "interactive") {
        return Command::Interactive;
    }
    let prefix: &str = "theme-";
    let skip: usize = prefix.unicode_len();
    let len: usize = id.unicode_len();
    if len < skip {
        return Command::Ignored;
    }
    assert(id@.subrange(0, skip as int) =~= id@.take(skip as int));
    if !same(id.substring_char(0, skip), prefix) {
        return Command::Ignored;
    }
    assert(id@.subrange(skip as int, len as int) =~= id@.skip(skip as int));
    match parse_index(id.substring_char(skip, len)) {
        Some(n) => Command::Theme(n),
        None => Command::Ignored,
    }
}

/// The name of the filter of the file dialog.
pub const AUDIO_FILTER: &'static str = "音频";

/// The file name extensions that the file dialog offers.
pub open spec fn audio_suffixes() -> Seq<Seq<char>> {
    seq!["mp3"@, "wav"@, "flac"@, "m4a"@, "aac"@, "ogg"@]
}

/// Lists the file name extensions that the file dialog offers.
pub fn audio_extensions() -> (r: Vec<&'static str>)
    ensures
        r@.map_values(|s: &'static str| s@) == audio_suffixes(),
{
    let r: Vec<&'static str> = vec!["mp3", "wav", "flac", "m4a", "aac", "ogg"];
    assert(r@.map_values(|s: &'static str| s@) =~= audio_suffixes());
    r
}

/// What the pages are told after the file dialog.
pub open spec fn told_of(path: Option<Seq<char>>) -> Option<EventView> {
    match path {
        Some(path) => Some(EventView::PlayAudioFile(path)),
        None => None,
    }
}

/// What follows the file dialog: the file that was picked is played.
pub fn file_picked(path: Option<String>) -> (r: Option<FrontendEvent>)
    ensures
        match r {
            Some(event) => path is Some && told_of(Some(path->0@)) == Some(event@),
            None => path is None && told_of(None) is None,
        },
{
    match path {
        Some(path) => Some(FrontendEvent::PlayAudioFile(path)),
        None => None,
    }
}

/// Something that is done to the tray, or announced to the pages.
#[derive(Debug, PartialEq, Eq)]
pub enum TrayAction {
    /// Set the microphone tick.
    TickMic(bool),
    /// Stop system audio.
    StopAudio,
    /// Take the system audio tick away.
    UntickAudio,
    /// Broadcast an event.
    Emit(FrontendEvent),
}

/// The model of [`TrayAction`].
pub enum TrayActionView {
    TickMic(bool),
    StopAudio,
    UntickAudio,
    Emit(EventView),
}

impl View for TrayAction {
    type V = TrayActionView;

    open spec fn view(&self) -> TrayActionView {
        match self {
            TrayAction::TickMic(on) => TrayActionView::TickMic(*on),
            TrayAction::StopAudio => TrayActionView::StopAudio,
            TrayAction::UntickAudio => TrayActionView::UntickAudio,
            TrayAction::Emit(event) => TrayActionView::Emit(event@),
        }
    }
}

/// What follows an attempt to switch system audio to `on`, which may have failed with a
/// message, in order: success is announced; after a failure first the tick goes, then the
/// message is shown.
pub open spec fn reply_actions(on: bool, failure: Option<Seq<char>>) -> Seq<TrayActionView> {
    match failure {
        None => seq![TrayActionView::Emit(EventView::SystemAudio(on))],
        Some(message) => seq![
            TrayActionView::UntickAudio,
            TrayActionView::Emit(EventView::SystemAudioError(message)),
        ],
    }
}

/// Answers the attempt to switch system audio to `on`.
pub fn audio_reply(on: bool, outcome: Result<(), String>) -> (r: Vec<TrayAction>)
    ensures
        r@.map_values(|a: TrayAction| a@) == reply_actions(
            on,
            match outcome {
                Ok(()) => None,
                Err(message) => Some(message@),
            },
        ),
{
    let mut r: Vec<TrayAction> = Vec::new();
    match outcome {
        Ok(()) => {
            r.push(TrayAction::Emit(FrontendEvent::SystemAudio(on)));
            assert(r@.map_values(|a: TrayAction| a@) =~= reply_actions(on, None));
        },
        Err(message) => {
            let ghost text = message@;
            r.push(TrayAction::UntickAudio);
            r.push(TrayAction::Emit(FrontendEvent::SystemAudioError(message)));
            assert(r@.map_values(|a: TrayAction| a@) =~= reply_actions(on, Some(text)));
        },
    }
    r
}

/// What is to be done about a menu choice.
#[derive(Debug, PartialEq, Eq)]
pub enum MenuAction {
    /// Exit with this status.
    Exit(i32),
    /// Let the user pick an audio file; [`file_picked`] takes what was picked.
    PickFile,
    /// Broadcast an event.
    Emit(FrontendEvent),
    /// Start system audio; [`audio_reply`] takes the outcome.
    StartAudio,
    /// Stop system audio; this cannot fail, and [`audio_reply`] is told so, whether
    /// anything ran or not.
    StopAudio,
    /// Do this to every wallpaper window, in order, and then broadcast an event.
    Interact(Vec<WindowAction>, FrontendEvent),
    Nothing,
}

/// The model of [`MenuAction`].
pub enum ActionView {
    Exit(i32),
    PickFile,
    Emit(EventView),
    StartAudio,
    StopAudio,
    Interact(Seq<WindowAction>, EventView),
    Nothing,
}

impl View for MenuAction {
    type V = ActionView;

    open spec fn view(&self) -> ActionView {
        match self {
            MenuAction::Exit(status) => ActionView::Exit(*status),
            MenuAction::PickFile => ActionView::PickFile,
            MenuAction::Emit(event) => ActionView::Emit(event@),
            MenuAction::StartAudio => ActionView::StartAudio,
            MenuAction::StopAudio => ActionView::StopAudio,
            MenuAction::Interact(actions, event) => ActionView::Interact(actions@, event@),
            MenuAction::Nothing => ActionView::Nothing,
        }
    }
}

/// What switching interaction to `on` does to every wallpaper window, in order: the
/// clicks, the level where there are levels, and the focus when it is switched on.
pub open spec fn interaction(platform: Platform, on: bool) -> Seq<WindowAction> {
    let clicks = seq![WindowAction::IgnoreCursor(!on)];
    let level = match interactive_level(platform, on) {
        Some(key) => seq![WindowAction::SetLevel(key)],
        None => Seq::empty(),
    };
    let focus = if on {
        seq![WindowAction::Focus]
    } else {
        Seq::empty()
    };
    clicks + level + focus
}

/// Gives what switching interaction to `on` does to every wallpaper window.
fn interaction_actions(platform: Platform, on: bool) -> (r: Vec<WindowAction>)
    ensures
        r@ == interaction(platform, on),
{
    let mut r: Vec<WindowAction> = Vec::new();
    r.push(WindowAction::IgnoreCursor(!on));
    if let Some(key) = set_interactive(platform, on) {
        r.push(WindowAction::SetLevel(key));
    }
    if on {
        r.push(WindowAction::Focus);
    }
    assert(r@ =~= interaction(platform, on));
    r
}

/// What a command asks for, with the state of the two ticks that switch something. A
/// tick that cannot be read counts as off.
pub open spec fn action_for(
    command: Command,
    platform: Platform,
    audio_tick: Option<bool>,
    interactive_tick: Option<bool>,
) -> ActionView {
    match command {
        Command::Quit => ActionView::Exit(0),
        Command::PickFile => ActionView::PickFile,
        Command::PlayPause => ActionView::Emit(EventView::TogglePlay),
        Command::Mic => ActionView::Emit(EventView::ToggleMic),
        Command::Clock => ActionView::Emit(EventView::ToggleClock),
        Command::SystemAudio => if audio_tick == Some(true) {
            ActionView::StartAudio
        } else {
            ActionView::StopAudio
        },
        Command::Interactive => {
            let on = interactive_tick == Some(true);
            ActionView::Interact(interaction(platform, on), EventView::InteractiveMode(on))
        },
        Command::Theme(n) => ActionView::Emit(EventView::SetTheme(n)),
        Command::Ignored => ActionView::Nothing,
    }
}

/// The state of a tick; one that cannot be read counts as off.
fn ticked(tick: Option<bool>) -> (r: bool)
    ensures
        r == (tick == Some(true)),
{
    match tick {
        Some(on) => on,
        None => false,
    }
}

/// Tells what is to be done about the choice of the menu item `id`.
pub fn menu_chosen(
    id: &str,
    platform: Platform,
    audio_tick: Option<bool>,
    interactive_tick: Option<bool>,
) -> (r: MenuAction)
    ensures
        r@ == action_for(command_for(id@), platform, audio_tick, interactive_tick),
{
    match command(id) {
        Command::Quit => MenuAction::Exit(0),
        Command::PickFile => MenuAction::PickFile,
        Command::PlayPause => MenuAction::Emit(FrontendEvent::TogglePlay),
        Command::Mic => MenuAction::Emit(FrontendEvent::ToggleMic),
        Command::Clock => MenuAction::Emit(FrontendEvent::ToggleClock),
        Command::SystemAudio => if ticked(audio_tick) {
            MenuAction::StartAudio
        } else {
            MenuAction::StopAudio
        },
        Command::Interactive => {
            let on: bool = ticked(interactive_tick);
            MenuAction::Interact(
                interaction_actions(platform, on),
                FrontendEvent::InteractiveMode(on),
            )
        },
        Command::Theme(n) => MenuAction::Emit(FrontendEvent::SetTheme(n)),
        Command::Ignored => MenuAction::Nothing,
    }
}

/// Switching interaction off puts the windows back: clicks go through, no window takes
/// the focus, and where there are levels they return to the one that a wallpaper is
/// attached to, which switching it on had left.
pub proof fn law_interaction_is_undone(platform: Platform)
    ensures
        interaction(platform, false)[0] == WindowAction::IgnoreCursor(true),
        !interaction(platform, false).contains(WindowAction::Focus),
        match attachment_for(platform) {
            Attachment::Level { key, .. } => interaction(platform, false).contains(
                WindowAction::SetLevel(key),
            ) && !interaction(platform, true).contains(WindowAction::SetLevel(key)),
            _ => forall|on: bool, i: int|
                0 <= i < interaction(platform, on).len() ==> !(#[trigger] interaction(
                    platform,
                    on,
                )[i] is SetLevel),
        },
{
    if let Attachment::Level { key, .. } = attachment_for(platform) {
        assert(interaction(platform, false)[1] == WindowAction::SetLevel(key));
    }
}

/// The ids that one line of the menu offers.
pub open spec fn entry_ids(entry: EntryView) -> Seq<Seq<char>> {
    match entry {
        EntryView::Item { id, .. } => seq![id],
        EntryView::Check { id, .. } => seq![id],
        EntryView::Separator => Seq::empty(),
        EntryView::Submenu { items, .. } => items.map_values(
            |item: (Seq<char>, Seq<char>)| item.0,
        ),
    }
}

/// A theme id switches to its theme, for every index.
pub proof fn law_theme_ids_select(n: usize)
    ensures
        command_for(theme_id(n as nat)) == Command::Theme(n),
{
    lemma_literals();
    law_index_round_trip(n);
    let id = theme_id(n as nat);
    assert(id[0] == 't');
    assert(id.take(6) =~= "theme-"@);
    assert(id.skip(6) =~= decimal(n as nat));
}

/// The lengths and first characters of the ids.
proof fn lemma_literals()
    ensures
        "quit"@.len() == 4 && "quit"@[0] == 'q',
        "pick-file"@.len() == 9 && "pick-file"@[0] == 'p',
        "play-pause"@.len() == 10 && "play-pause"@[0] == 'p',
        "mic"@.len() == 3 && "mic"@[0] == 'm',
        "clock"@.len() == 5 && "clock"@[0] == 'c',
        "sys-audio"@.len() == 9 && "sys-audio"@[0] == 's',
        "interactive"@.len() == 11 && "interactive"@[0] == 'i',
        "theme-"@.len() == 6 && "theme-"@[0] == 't',
{
    reveal_strlit("quit");
    reveal_strlit("pick-file");
    reveal_strlit("play-pause");
    reveal_strlit("mic");
    reveal_strlit("clock");
    reveal_strlit("sys-audio");
    reveal_strlit("interactive");
    reveal_strlit("theme-");
}

/// The command of the `k`-th id in line `i` of the menu.
pub open spec fn offered(i: int, k: int) -> Command {
    command_for(entry_ids(tray_entries()[i])[k])
}

/// What the menu offers, line by line.
proof fn lemma_offered(i: int, k: int)
    requires
        0 <= i < tray_entries().len(),
        0 <= k < entry_ids(tray_entries()[i]).len(),
    ensures
        offered(i, k) == (if i == 0 {
            Command::PickFile
        } else if i == 1 {
            Command::PlayPause
        } else if i == 2 {
            Command::SystemAudio
        } else if i == 3 {
            Command::Mic
        } else if i == 5 {
            Command::Theme(k as usize)
        } else if i == 6 {
            Command::Clock
        } else if i == 7 {
            Command::Interactive
        } else {
            Command::Quit
        }),
        i != 5 ==> k == 0,
        k < THEME_COUNT,
        i != 4 && i != 8,
{
    lemma_literals();
    if i == 5 {
        law_theme_ids_select(k as usize);
        assert(entry_ids(tray_entries()[5])[k] == theme_id(k as nat));
    }
}

/// Every item that the menu offers stands for a command, and no two for the same.
pub proof fn law_menu_is_served(i: int, k: int, j: int, l: int)
    requires
        0 <= i < tray_entries().len(),
        0 <= k < entry_ids(tray_entries()[i]).len(),
        0 <= j < tray_entries().len(),
        0 <= l < entry_ids(tray_entries()[j]).len(),
    ensures
        offered(i, k) != Command::Ignored,
        offered(i, k) == offered(j, l) ==> i == j && k == l,
{
    lemma_offered(i, k);
    lemma_offered(j, l);
}

/// Whatever file is picked, under whatever path, is the one that is played; and nothing is
/// played where none was picked.
pub proof fn law_the_picked_file_is_played(path: Seq<char>)
    ensures
        told_of(Some(path)) == Some(EventView::PlayAudioFile(path)),
        told_of(None) is None,
{
}

/// Each item of the menu stands for its own command, and no other text does.
pub proof fn law_ids_name_their_commands(id: Seq<char>)
    ensures
        command_for(id) is Quit <==> id == "quit"@,
        command_for(id) is PickFile <==> id == "pick-file"@,
        command_for(id) is PlayPause <==> id == "play-pause"@,
        command_for(id) is Mic <==> id == "mic"@,
        command_for(id) is Clock <==> id == "clock"@,
        command_for(id) is SystemAudio <==> id == "sys-audio"@,
        command_for(id) is Interactive <==> id == "interactive"@,
        command_for(id) is Theme ==> id.len() > 6 && id.take(6) == "theme-"@,
{
    lemma_literals();
    if command_for(id) is Theme {
        if id.len() == 6 {
            assert(id.skip(6) =~= Seq::<char>::empty());
            law_one_digit_is_read('0');
        }
    }
}

/// What stands behind the word for a theme is read as its index, as it is; where it is no
/// index, the choice is for nothing.
pub proof fn law_theme_is_read_from_the_id(rest: Seq<char>)
    ensures
        index_of(rest) is Some ==> command_for("theme-"@ + rest) == Command::Theme(
            index_of(rest)->0,
        ),
        index_of(rest) is None ==> command_for("theme-"@ + rest) is Ignored,
{
    lemma_literals();
    let id = "theme-"@ + rest;
    assert(id[0] == 't');
    assert(id.take(6) =~= "theme-"@);
    assert(id.skip(6) =~= rest);
}

/// The system audio item starts system audio if and only if its tick is set, and stops it
/// otherwise, on every system and whatever the other tick. Nothing else in the menu does
/// either.
pub proof fn law_system_audio_follows_its_tick(
    id: Seq<char>,
    platform: Platform,
    audio_tick: Option<bool>,
    interactive_tick: Option<bool>,
)
    ensures
        action_for(command_for(id), platform, audio_tick, interactive_tick) is StartAudio <==> (id
            == "sys-audio"@ && audio_tick == Some(true)),
        action_for(command_for(id), platform, audio_tick, interactive_tick) is StopAudio <==> (id
            == "sys-audio"@ && audio_tick != Some(true)),
{
    law_ids_name_their_commands(id);
}

/// The interaction item switches interaction to its tick, on every system and whatever the
/// other tick: the windows are changed first, and then the pages are told. Nothing else in
/// the menu changes the windows.
pub proof fn law_interaction_follows_its_tick(
    id: Seq<char>,
    platform: Platform,
    audio_tick: Option<bool>,
    interactive_tick: Option<bool>,
)
    ensures
        action_for(command_for(id), platform, audio_tick, interactive_tick) is Interact <==> id
            == "interactive"@,
        id == "interactive"@ && interactive_tick == Some(true) ==> action_for(
            command_for(id),
            platform,
            audio_tick,
            interactive_tick,
        ) == ActionView::Interact(interaction(platform, true), EventView::InteractiveMode(true)),
        id == "interactive"@ && interactive_tick != Some(true) ==> action_for(
            command_for(id),
            platform,
            audio_tick,
            interactive_tick,
        ) == ActionView::Interact(interaction(platform, false), EventView::InteractiveMode(false)),
{
    law_ids_name_their_commands(id);
}

/// The other items do the same on every system and whatever the ticks: each of them its own
/// thing, and every theme id switches to its theme. What is no item does nothing.
pub proof fn law_other_items_do_their_thing(
    id: Seq<char>,
    platform: Platform,
    audio_tick: Option<bool>,
    interactive_tick: Option<bool>,
)
    ensures
        ({
            let action = action_for(command_for(id), platform, audio_tick, interactive_tick);
            &&& action is Exit <==> id == "quit"@
            &&& id == "quit"@ ==> action == ActionView::Exit(0)
            &&& action is PickFile <==> id == "pick-file"@
            &&& action == ActionView::Emit(EventView::TogglePlay) <==> id == "play-pause"@
            &&& action == ActionView::Emit(EventView::ToggleMic) <==> id == "mic"@
            &&& action == ActionView::Emit(EventView::ToggleClock) <==> id == "clock"@
            &&& command_for(id) is Theme ==> action == ActionView::Emit(
                EventView::SetTheme(command_for(id)->Theme_0),
            )
            &&& action is Emit ==> id == "play-pause"@ || id == "mic"@ || id == "clock"@
                || command_for(id) is Theme
            &&& action is Nothing <==> command_for(id) is Ignored
        }),
{
    law_ids_name_their_commands(id);
}

/// Switching interaction sets the clicks first, on every system: it takes them when it is
/// switched on and lets them through when it is switched off. The focus is taken last, and
/// only when it is switched on; the level changes in between, and only on macOS.
pub proof fn law_interaction_goes_in_order(platform: Platform, on: bool)
    ensures
        ({
            let actions = interaction(platform, on);
            &&& actions[0] == WindowAction::IgnoreCursor(!on)
            &&& platform is MacOs && on ==> actions.len() == 3 && actions[1]
                == WindowAction::SetLevel(4) && actions[2] is Focus
            &&& platform is MacOs && !on ==> actions.len() == 2 && actions[1]
                == WindowAction::SetLevel(2)
            &&& !(platform is MacOs) && on ==> actions.len() == 2 && actions[1] is Focus
            &&& !(platform is MacOs) && !on ==> actions.len() == 1
        }),
{
}

/// A switch that worked is announced as what it was switched to, and nothing else is done.
/// One that failed loses its tick first, and then the user reads the very message of the
/// failure, whichever way the switch was to go.
pub proof fn law_switches_are_answered(on: bool, message: Seq<char>)
    ensures
        reply_actions(on, None).len() == 1,
        reply_actions(on, None)[0] == TrayActionView::Emit(EventView::SystemAudio(on)),
        reply_actions(on, Some(message)).len() == 2,
        reply_actions(on, Some(message))[0] is UntickAudio,
        reply_actions(on, Some(message))[1] == TrayActionView::Emit(
            EventView::SystemAudioError(message),
        ),
{
}

/// The models leave nothing out: what is done to the tray, and what a choice asks for, is
/// known from its model.
pub proof fn law_actions_are_modelled_faithfully(
    on: bool,
    status: i32,
    event: FrontendEvent,
    actions: Vec<WindowAction>,
)
    ensures
        TrayAction::TickMic(on)@ == TrayActionView::TickMic(on),
        TrayAction::StopAudio@ is StopAudio,
        TrayAction::UntickAudio@ is UntickAudio,
        TrayAction::Emit(event)@ == TrayActionView::Emit(event@),
        MenuAction::Exit(status)@ == ActionView::Exit(status),
        MenuAction::PickFile@ is PickFile,
        MenuAction::Emit(event)@ == ActionView::Emit(event@),
        MenuAction::StartAudio@ is StartAudio,
        MenuAction::StopAudio@ is StopAudio,
        MenuAction::Interact(actions, event)@ == ActionView::Interact(actions@, event@),
        MenuAction::Nothing@ is Nothing,
{
}

} // verus!
