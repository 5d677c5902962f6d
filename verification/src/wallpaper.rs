//! The place of the wallpaper window among the windows of the desktop: above the
//! system wallpaper, below the desktop icons.

use vstd::prelude::*;

use crate::platform::Platform;

verus! {

/// The key of the desktop window level (`kCGDesktopWindowLevelKey`).
pub const DESKTOP_LEVEL_KEY: i32 = 2;

/// The key of the normal window level (`kCGNormalWindowLevelKey`).
pub const NORMAL_LEVEL_KEY: i32 = 4;

/// The message that makes the program manager create the worker window.
pub const SPAWN_WORKER_MESSAGE: u32 = 0x052c;

/// How long to wait for that message to be handled, in milliseconds.
pub const SPAWN_WORKER_TIMEOUT_MS: u32 = 1000;

/// The value of a window handle that stands for no window.
pub const NO_WINDOW: usize = 0;

/// How a window becomes a wallpaper.
#[derive(Clone, Copy, Debug, PartialEq, Eq, Structural)]
pub enum Attachment {
    /// By moving to a window level, with this collection behavior.
    Level { key: i32, behavior: usize },
    /// By becoming a child of the window that hosts the desktop.
    Host,
    /// It stays an ordinary window.
    Plain,
}

/// Something that is done to a wallpaper window.
#[derive(Clone, Copy, Debug, PartialEq, Eq, Structural)]
pub enum WindowAction {
    /// Move to this place on the desktop.
    MoveTo { x: i32, y: i32 },
    /// Take this size, in pixels.
    Resize { width: u32, height: u32 },
    /// Become a wallpaper: [`attach`].
    Attach,
    /// Let clicks through, or take them.
    IgnoreCursor(bool),
    /// Move to the window level with this key.
    SetLevel(i32),
    /// Take the focus.
    Focus,
}

/// The collection behavior of a wallpaper window: it joins all spaces (bit 0), stays
/// put (bit 4) and is left out when windows are cycled (bit 6).
pub open spec fn wallpaper_behavior() -> usize {
    0b101_0001
}

/// How a window becomes a wallpaper.
pub open spec fn attachment_for(platform: Platform) -> Attachment {
    match platform {
        Platform::MacOs => Attachment::Level {
            key: DESKTOP_LEVEL_KEY,
            behavior: wallpaper_behavior(),
        },
        Platform::Windows => Attachment::Host,
        Platform::Other => Attachment::Plain,
    }
}

/// Tells how a window becomes a wallpaper.
pub fn attach(platform: Platform) -> (r: Attachment)
    ensures
        r == attachment_for(platform),
{
    match platform {
        Platform::MacOs => {
            let behavior: usize = (1usize << 0) | (1usize << 4) | (1usize << 6);
            assert((1usize << 0) | (1usize << 4) | (1usize << 6) == 0b101_0001) by (bit_vector);
            Attachment::Level { key: DESKTOP_LEVEL_KEY, behavior }
        },
        Platform::Windows => Attachment::Host,
        Platform::Other => Attachment::Plain,
    }
}

/// The level that a wallpaper window moves to when interaction is switched: the desktop
/// level gets no clicks, as the icons lie above it. Only macOS has such levels.
pub open spec fn interactive_level(platform: Platform, on: bool) -> Option<i32> {
    if platform == Platform::MacOs {
        Some(
            if on {
                NORMAL_LEVEL_KEY
            } else {
                DESKTOP_LEVEL_KEY
            },
        )
    } else {
        None
    }
}

/// Tells the level that a wallpaper window moves to when interaction is switched.
pub fn set_interactive(platform: Platform, on: bool) -> (r: Option<i32>)
    ensures
        r == interactive_level(platform, on),
{
    if platform == Platform::MacOs {
        if on {
            Some(NORMAL_LEVEL_KEY)
        } else {
            Some(DESKTOP_LEVEL_KEY)
        }
    } else {
        None
    }
}

/// What the program manager has to be told first, if there is one: create the worker
/// window. The message, and how long to wait for it.
pub open spec fn wake_up(progman: usize) -> Option<(u32, u32)> {
    if progman != NO_WINDOW {
        Some((SPAWN_WORKER_MESSAGE, SPAWN_WORKER_TIMEOUT_MS))
    } else {
        None
    }
}

/// Every program manager is woken, and in the same way, if there is one.
pub proof fn law_any_program_manager_is_woken(progman: usize)
    ensures
        wake_up(progman) is None <==> progman == 0,
        progman != 0 ==> wake_up(progman) == Some((0x052cu32, 1000u32)),
{
}

/// Tells what the program manager has to be told first, if there is one.
pub fn wake_host(progman: usize) -> (r: Option<(u32, u32)>)
    ensures
        r == wake_up(progman),
{
    if progman != NO_WINDOW {
        Some((SPAWN_WORKER_MESSAGE, SPAWN_WORKER_TIMEOUT_MS))
    } else {
        None
    }
}

/// What is seen of a top-level window: the icon view inside it, and the worker window
/// behind it, as far as the search for one succeeded.
#[derive(Clone, Copy, Debug, PartialEq, Eq, Structural)]
pub struct TopWindow {
    pub icon_view: usize,
    pub worker: Option<usize>,
}

/// The worker window that a top-level window leads to: the one behind it, if it holds
/// the icon view.
pub open spec fn worker_of(top: TopWindow) -> Option<usize> {
    if top.icon_view != NO_WINDOW && top.worker is Some && top.worker->0 != NO_WINDOW {
        top.worker
    } else {
        None
    }
}

/// What is found once a top-level window was looked at, where `found` was before.
pub open spec fn noted(found: Option<usize>, top: TopWindow) -> Option<usize> {
    if worker_of(top) is Some {
        worker_of(top)
    } else {
        found
    }
}

/// Looks at one top-level window: notes the worker window that it leads to, and tells
/// whether to go on looking.
pub fn enum_proc(found: &mut Option<usize>, top: TopWindow) -> (go_on: bool)
    ensures
        go_on == (worker_of(top) is None),
        *final(found) == noted(*old(found), top),
{
    if top.icon_view != NO_WINDOW {
        if let Some(worker) = top.worker {
            if worker != NO_WINDOW {
                *found = Some(worker);
                return false;
            }
        }
    }
    true
}

/// What is found by looking at the top-level windows in order until told to stop.
pub open spec fn enumerated(tops: Seq<TopWindow>, found: Option<usize>) -> Option<usize>
    decreases tops.len(),
{
    if tops.len() == 0 {
        found
    } else if worker_of(tops.first()) is Some {
        worker_of(tops.first())
    } else {
        enumerated(tops.drop_first(), found)
    }
}

/// The search finds the worker window of the first top-level window that leads to one,
/// and nothing if none does.
pub proof fn law_first_worker_is_found(tops: Seq<TopWindow>)
    ensures
        match enumerated(tops, None) {
            Some(worker) => exists|i: int|
                0 <= i < tops.len() && #[trigger] worker_of(tops[i]) == Some(worker) && (forall|
                    j: int,
                |
                    0 <= j < i ==> #[trigger] worker_of(tops[j]) is None),
            None => forall|i: int| 0 <= i < tops.len() ==> #[trigger] worker_of(tops[i]) is None,
        },
    decreases tops.len(),
{
    if tops.len() > 0 && worker_of(tops.first()) is None {
        let rest = tops.drop_first();
        law_first_worker_is_found(rest);
        if enumerated(rest, None) is Some {
            let worker = enumerated(rest, None)->0;
            let i = choose|i: int|
                0 <= i < rest.len() && #[trigger] worker_of(rest[i]) == Some(worker) && (forall|
                    j: int,
                |
                    0 <= j < i ==> #[trigger] worker_of(rest[j]) is None);
            assert(worker_of(tops[i + 1]) == Some(worker));
            assert forall|j: int| 0 <= j < i + 1 implies #[trigger] worker_of(tops[j]) is None by {
                if j > 0 {
                    assert(worker_of(rest[j - 1]) is None);
                }
            }
        } else {
            assert forall|j: int| 0 <= j < tops.len() implies #[trigger] worker_of(
                tops[j],
            ) is None by {
                if j > 0 {
                    assert(worker_of(rest[j - 1]) is None);
                }
            }
        }
    } else if tops.len() > 0 {
        assert(worker_of(tops[0]) == enumerated(tops, None));
    }
}

/// A top-level window leads to a worker window if and only if it holds the icon view and
/// the worker window behind it was found. No other window counts, and any such does.
pub proof fn law_the_icon_view_leads_to_the_worker(top: TopWindow, worker: usize)
    ensures
        worker_of(top) == Some(worker) <==> (top.icon_view != 0 && top.worker == Some(worker)
            && worker != 0),
{
}

/// A top-level window that holds the icon view and has a worker window behind it has that
/// noted, in place of anything found before; any other leaves what was found.
pub proof fn law_the_worker_is_noted(found: Option<usize>, top: TopWindow)
    ensures
        top.icon_view != 0 && top.worker is Some && top.worker->0 != 0 ==> noted(found, top)
            == top.worker,
        top.icon_view == 0 || top.worker is None || top.worker->0 == 0 ==> noted(found, top)
            == found,
{
}

/// How the search goes, window by window: one that holds the icon view and has a worker
/// window behind it ends it with that, whatever comes later; any other changes nothing.
pub proof fn law_search_ends_at_the_icon_view(
    top: TopWindow,
    later: Seq<TopWindow>,
    found: Option<usize>,
)
    ensures
        enumerated(Seq::empty(), found) == found,
        top.icon_view != 0 && top.worker is Some && top.worker->0 != 0 ==> enumerated(
            seq![top] + later,
            found,
        ) == top.worker,
        top.icon_view == 0 || top.worker is None || top.worker->0 == 0 ==> enumerated(
            seq![top] + later,
            found,
        ) == enumerated(later, found),
{
    assert((seq![top] + later).drop_first() =~= later);
}

/// The wallpaper becomes a child of a window if and only if that is the worker window, or
/// the program manager where no worker window was found.
pub proof fn law_host_is_worker_or_program_manager(
    found: Option<usize>,
    progman: usize,
    host: usize,
)
    ensures
        host_for(found, progman) == Some(host) <==> (host != 0 && (found == Some(host) || (
        found is None && progman == host))),
{
}

/// A wallpaper lies below the icons on macOS and Windows, each in its own way, and interaction
/// lifts it to the normal level and back on macOS alone.
pub proof fn law_systems_have_their_layers(platform: Platform, on: bool)
    ensures
        attachment_for(platform) is Level <==> platform is MacOs,
        attachment_for(platform) is Host <==> platform is Windows,
        attachment_for(platform) is Plain <==> platform is Other,
        platform is MacOs ==> attachment_for(platform) == (Attachment::Level {
            key: 2,
            behavior: 81,
        }),
        interactive_level(platform, on) is Some <==> platform is MacOs,
        platform is MacOs && on ==> interactive_level(platform, on) == Some(4i32),
        platform is MacOs && !on ==> interactive_level(platform, on) == Some(2i32),
{
}

/// The window that the wallpaper becomes a child of: the worker window, or else the
/// program manager. There may be neither.
pub open spec fn host_for(found: Option<usize>, progman: usize) -> Option<usize> {
    let target = match found {
        Some(worker) => worker,
        None => progman,
    };
    if target != NO_WINDOW {
        Some(target)
    } else {
        None
    }
}

/// Tells which window the wallpaper becomes a child of.
pub fn host_window(found: Option<usize>, progman: usize) -> (r: Option<usize>)
    ensures
        r == host_for(found, progman),
{
    let target: usize = match found {
        Some(worker) => worker,
        None => progman,
    };
    if target != NO_WINDOW {
        Some(target)
    } else {
        None
    }
}

/// The wallpaper goes to the worker window that the search finds; where it finds none,
/// to the program manager; and nowhere only if that is missing too.
pub proof fn law_wallpaper_finds_its_host(tops: Seq<TopWindow>, progman: usize)
    ensures
        enumerated(tops, None) is Some ==> host_for(enumerated(tops, None), progman) == enumerated(
            tops,
            None,
        ),
        enumerated(tops, None) is None && progman != NO_WINDOW ==> host_for(
            enumerated(tops, None),
            progman,
        ) == Some(progman),
        host_for(enumerated(tops, None), progman) is None <==> enumerated(tops, None) is None
            && progman == NO_WINDOW,
    decreases tops.len(),
{
    if tops.len() > 0 {
        law_wallpaper_finds_its_host(tops.drop_first(), progman);
    }
}

} // verus!
