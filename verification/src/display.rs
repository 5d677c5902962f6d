//! Which windows the wallpaper opens on which displays, and what happens at startup.

use vstd::prelude::*;

use crate::events::{EventView, FrontendEvent};
use crate::menu::interaction;
use crate::platform::Platform;
use crate::text::{decimal, law_decimal_is_injective, numbered, same};
use crate::wallpaper::WindowAction;

verus! {

/// The label of the window that exists from the start.
pub const MAIN_LABEL: &'static str = "main";

/// How long the startup of system audio is put off, in seconds.
pub const AUTOSTART_DELAY_SECS: u64 = 3;

/// A display: where it lies on the desktop, and how large it is, in pixels.
#[derive(Clone, Copy, Debug, PartialEq, Eq, Structural)]
pub struct Monitor {
    pub x: i32,
    pub y: i32,
    pub width: u32,
    pub height: u32,
}

impl Monitor {
    /// Where the display lies.
    pub open spec fn at(self) -> (i32, i32) {
        (self.x, self.y)
    }
}

/// A wallpaper window: its label, and the display that it fills.
#[derive(Debug, PartialEq, Eq)]
pub struct WallpaperWindow {
    pub label: String,
    pub monitor: Monitor,
}

impl View for WallpaperWindow {
    type V = (Seq<char>, Monitor);

    open spec fn view(&self) -> (Seq<char>, Monitor) {
        (self.label@, self.monitor)
    }
}

/// A window is known from its label and its display.
pub proof fn law_windows_are_modelled_faithfully(label: String, monitor: Monitor)
    ensures
        (WallpaperWindow { label, monitor })@ == (label@, monitor),
{
}

/// The label of the window on the display with index `i`.
pub open spec fn window_label(i: nat) -> Seq<char> {
    "wp"@ + decimal(i)
}

/// Whether the main window fills this display: it lies where the main window's does.
pub open spec fn is_main(monitor: Monitor, main: Option<(i32, i32)>) -> bool {
    main == Some(monitor.at())
}

/// The windows on the first `n` displays, without the one that the main window fills.
pub open spec fn windows_on(monitors: Seq<Monitor>, main: Option<(i32, i32)>, n: nat) -> Seq<
    (Seq<char>, Monitor),
>
    decreases n,
{
    if n == 0 {
        Seq::empty()
    } else {
        let i = (n - 1) as nat;
        let before = windows_on(monitors, main, i);
        if is_main(monitors[i as int], main) {
            before
        } else {
            before.push((window_label(i), monitors[i as int]))
        }
    }
}

/// Tells which windows to open besides the main one: one on each display that the
/// main window does not fill. Where the main window's display is not known, every
/// display gets one.
pub fn extra_windows(monitors: &[Monitor], main: Option<(i32, i32)>) -> (r: Vec<WallpaperWindow>)
    ensures
        r@.map_values(|w: WallpaperWindow| w@) == windows_on(monitors@, main, monitors@.len()),
{
    let mut r: Vec<WallpaperWindow> = Vec::new();
    let mut i: usize = 0;
    assert(r@.map_values(|w: WallpaperWindow| w@) =~= windows_on(monitors@, main, 0));
    while i < monitors.len()
        invariant
            i <= monitors@.len(),
            r@.map_values(|w: WallpaperWindow| w@) == windows_on(monitors@, main, i as nat),
        decreases monitors@.len() - i,
    {
        let monitor: Monitor = monitors[i];
        let taken: bool = match main {
            Some((x, y)) => x == monitor.x && y == monitor.y,
            None => false,
        };
        let ghost before = r@.map_values(|w: WallpaperWindow| w@);
        if !taken {
            r.push(WallpaperWindow { label: numbered("wp", i), monitor });
            assert(r@.map_values(|w: WallpaperWindow| w@) =~= before.push(
                (window_label(i as nat), monitor),
            ));
        }
        i = i + 1;
    }
    r
}

/// Every display but the main window's gets its window, with its own label.
pub proof fn law_every_display_is_covered(
    monitors: Seq<Monitor>,
    main: Option<(i32, i32)>,
    n: nat,
    i: int,
)
    requires
        0 <= i < n <= monitors.len(),
    ensures
        windows_on(monitors, main, n).contains((window_label(i as nat), monitors[i])) <==> !is_main(
            monitors[i],
            main,
        ),
    decreases n,
{
    let last = (n - 1) as nat;
    let before = windows_on(monitors, main, last);
    let here = (window_label(i as nat), monitors[i]);
    if i < last {
        law_every_display_is_covered(monitors, main, last, i);
        if before.contains(here) {
            let k = before.index_of(here);
            assert(windows_on(monitors, main, n)[k] == here);
        } else if windows_on(monitors, main, n).contains(here) {
            let k = windows_on(monitors, main, n).index_of(here);
            assert(k == before.len());
            lemma_labels_differ(i as nat, last);
        }
    } else {
        if !is_main(monitors[i], main) {
            assert(windows_on(monitors, main, n)[before.len() as int] == here);
        } else if before.contains(here) {
            let k = before.index_of(here);
            lemma_window_origin(monitors, main, last, k);
            let j = choose|j: int|
                0 <= j < last && before[k] == (window_label(j as nat), #[trigger] monitors[j])
                    && !is_main(monitors[j], main);
            lemma_labels_differ(i as nat, j as nat);
        }
    }
}

/// Labels of different displays differ.
proof fn lemma_labels_differ(i: nat, j: nat)
    ensures
        window_label(i) == window_label(j) ==> i == j,
{
    if window_label(i) == window_label(j) {
        let skip = "wp"@.len() as int;
        assert(window_label(i).skip(skip) =~= decimal(i));
        assert(window_label(j).skip(skip) =~= decimal(j));
        law_decimal_is_injective(i, j);
    }
}

/// Every window belongs to a display that is not the main window's.
proof fn lemma_window_origin(monitors: Seq<Monitor>, main: Option<(i32, i32)>, n: nat, k: int)
    requires
        n <= monitors.len(),
        0 <= k < windows_on(monitors, main, n).len(),
    ensures
        exists|j: int|
            0 <= j < n && windows_on(monitors, main, n)[k] == (
                window_label(j as nat),
                #[trigger] monitors[j],
            ) && !is_main(monitors[j], main),
    decreases n,
{
    let last = (n - 1) as nat;
    let before = windows_on(monitors, main, last);
    if k < before.len() {
        lemma_window_origin(monitors, main, last, k);
        let j = choose|j: int|
            0 <= j < last && before[k] == (window_label(j as nat), #[trigger] monitors[j])
                && !is_main(monitors[j], main);
        assert(windows_on(monitors, main, n)[k] == (window_label(j as nat), monitors[j]));
    } else {
        assert(windows_on(monitors, main, n)[k] == (
            window_label(last),
            monitors[last as int],
        ));
    }
}

/// No two windows share a label.
proof fn lemma_window_labels(
    monitors: Seq<Monitor>,
    main: Option<(i32, i32)>,
    n: nat,
    a: int,
    b: int,
)
    requires
        n <= monitors.len(),
        0 <= a < b < windows_on(monitors, main, n).len(),
    ensures
        windows_on(monitors, main, n)[a].0 != windows_on(monitors, main, n)[b].0,
    decreases n,
{
    let last = (n - 1) as nat;
    let before = windows_on(monitors, main, last);
    if b < before.len() {
        lemma_window_labels(monitors, main, last, a, b);
    } else {
        lemma_window_origin(monitors, main, last, a);
        let j = choose|j: int|
            0 <= j < last && before[a] == (window_label(j as nat), #[trigger] monitors[j])
                && !is_main(monitors[j], main);
        lemma_labels_differ(j as nat, last);
    }
}

/// No window is opened where the main window lies, and no two windows share a label.
pub proof fn law_windows_are_apart(
    monitors: Seq<Monitor>,
    main: Option<(i32, i32)>,
    n: nat,
    a: int,
    b: int,
)
    requires
        n <= monitors.len(),
        0 <= a < windows_on(monitors, main, n).len(),
        0 <= b < windows_on(monitors, main, n).len(),
    ensures
        !is_main(windows_on(monitors, main, n)[a].1, main),
        a != b ==> windows_on(monitors, main, n)[a].0 != windows_on(monitors, main, n)[b].0,
{
    lemma_window_origin(monitors, main, n, a);
    if a < b {
        lemma_window_labels(monitors, main, n, a, b);
    } else if b < a {
        lemma_window_labels(monitors, main, n, b, a);
    }
}

/// What is done to a wallpaper window when it opens, in order, where `monitor` is the
/// display that it opens on: it fills the display, if that is known; then it becomes a
/// wallpaper; then it lets clicks through.
pub open spec fn startup(monitor: Option<Monitor>) -> Seq<WindowAction> {
    let filling = match monitor {
        Some(monitor) => seq![
            WindowAction::MoveTo { x: monitor.x, y: monitor.y },
            WindowAction::Resize { width: monitor.width, height: monitor.height },
        ],
        None => Seq::empty(),
    };
    filling + seq![WindowAction::Attach, WindowAction::IgnoreCursor(true)]
}

/// Tells what is to be done to a wallpaper window when it opens, in order. For the main
/// window, `monitor` is the display that it is on, as far as that is known; for one of
/// [`extra_windows`] it is its own.
pub fn startup_actions(monitor: Option<Monitor>) -> (r: Vec<WindowAction>)
    ensures
        r@ == startup(monitor),
{
    let mut r: Vec<WindowAction> = Vec::new();
    if let Some(monitor) = monitor {
        r.push(WindowAction::MoveTo { x: monitor.x, y: monitor.y });
        r.push(WindowAction::Resize { width: monitor.width, height: monitor.height });
    }
    r.push(WindowAction::Attach);
    r.push(WindowAction::IgnoreCursor(true));
    assert(r@ =~= startup(monitor));
    r
}

/// A window that opens lets clicks through, as it does again whenever interaction is
/// switched off. Nothing else at startup is about clicks, and no window takes the focus.
pub proof fn law_windows_let_clicks_through(monitor: Option<Monitor>, platform: Platform, i: int)
    requires
        0 <= i < startup(monitor).len(),
    ensures
        startup(monitor).last() == WindowAction::IgnoreCursor(true),
        startup(monitor).last() == interaction(platform, false)[0],
        startup(monitor)[i] is IgnoreCursor ==> i == startup(monitor).len() - 1,
        !(startup(monitor)[i] is Focus),
{
}

/// A window that opens is moved and sized if and only if its display is known: to where
/// the display lies, and as large as it is. It becomes a wallpaper once, and after that.
pub proof fn law_windows_fill_their_display(monitor: Option<Monitor>, i: int)
    requires
        0 <= i < startup(monitor).len(),
    ensures
        startup(monitor)[i] is MoveTo <==> monitor is Some && i == 0,
        startup(monitor)[i] is Resize <==> monitor is Some && i == 1,
        monitor is Some && i == 0 ==> startup(monitor)[i] == (WindowAction::MoveTo {
            x: monitor->0.x,
            y: monitor->0.y,
        }),
        monitor is Some && i == 1 ==> startup(monitor)[i] == (WindowAction::Resize {
            width: monitor->0.width,
            height: monitor->0.height,
        }),
        startup(monitor)[i] is Attach <==> i == startup(monitor).len() - 2,
        startup(monitor).len() == (if monitor is Some {
            4
        } else {
            2int
        }),
{
}

/// Every display gets its window but those that lie where the main window's does, whatever
/// their size; where the main window's display is not known, every display does. The
/// window is named after the place of the display in the list, and fills that display.
pub proof fn law_displays_elsewhere_get_their_window(
    monitors: Seq<Monitor>,
    main: Option<(i32, i32)>,
    n: nat,
    i: int,
)
    requires
        0 <= i < n <= monitors.len(),
    ensures
        windows_on(monitors, main, n).contains(("wp"@ + decimal(i as nat), monitors[i]))
            <==> main != Some((monitors[i].x, monitors[i].y)),
{
    law_every_display_is_covered(monitors, main, n, i);
}

/// There are no other windows, and they come in the order of the displays. One more display
/// adds at most one window, behind those of the others, which stay as they are.
pub proof fn law_a_display_adds_at_most_its_window(
    monitors: Seq<Monitor>,
    main: Option<(i32, i32)>,
    more: Monitor,
)
    ensures
        ({
            let n = monitors.len();
            let before = windows_on(monitors, main, n);
            let after = windows_on(monitors.push(more), main, n + 1);
            &&& n == 0 ==> before.len() == 0
            &&& before.len() <= after.len() <= before.len() + 1
            &&& after.take(before.len() as int) == before
            &&& after.len() == before.len() <==> main == Some((more.x, more.y))
            &&& after.len() > before.len() ==> after.last().0 == "wp"@ + decimal(n)
                && after.last().1 == more
        }),
{
    lemma_windows_by_prefix(monitors, monitors.push(more), main, monitors.len());
    let before = windows_on(monitors, main, monitors.len());
    let after = windows_on(monitors.push(more), main, monitors.len() + 1);
    assert(after.take(before.len() as int) =~= before);
}

/// The windows on the first displays do not depend on the others.
proof fn lemma_windows_by_prefix(
    a: Seq<Monitor>,
    b: Seq<Monitor>,
    main: Option<(i32, i32)>,
    n: nat,
)
    requires
        n <= a.len(),
        n <= b.len(),
        forall|i: int| 0 <= i < n ==> a[i] == b[i],
    ensures
        windows_on(a, main, n) == windows_on(b, main, n),
    decreases n,
{
    if n > 0 {
        lemma_windows_by_prefix(a, b, main, (n - 1) as nat);
    }
}

/// Whether this value of the environment variable asks for system audio.
pub open spec fn asks_for_autostart(variable: Option<Seq<char>>) -> bool {
    variable == Some("1"@)
}

/// System audio is asked for by one value only, the digit one; to set no value does not ask
/// for it.
pub proof fn law_autostart_has_one_value(variable: Option<Seq<char>>)
    ensures
        asks_for_autostart(variable) <==> variable == Some(seq!['1']),
{
    reveal_strlit("1");
    assert("1"@ =~= seq!['1']);
}

/// Whether system audio is to start by itself: the environment variable asks for it.
pub fn autostart_requested(variable: Option<&str>) -> (r: bool)
    ensures
        r == asks_for_autostart(
            match variable {
                Some(value) => Some(value@),
                None => None,
            },
        ),
{
    match variable {
        Some(value) => same(value, "1"),
        None => false,
    }
}

/// Announces system audio that has started by itself; a failure is only logged.
pub fn autostart_event(started: bool) -> (r: Option<FrontendEvent>)
    ensures
        match r {
            Some(event) => started && event@ == EventView::SystemAudio(true),
            None => !started,
        },
{
    if started {
        Some(FrontendEvent::SystemAudio(true))
    } else {
        None
    }
}

} // verus!
