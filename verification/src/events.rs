//! The events that the shell broadcasts to the wallpaper pages.

use vstd::prelude::*;

verus! {

/// An event for the wallpaper pages.
#[derive(Debug, PartialEq, Eq)]
pub enum FrontendEvent {
    /// Play the audio file at this path.
    PlayAudioFile(String),
    TogglePlay,
    ToggleMic,
    ToggleClock,
    /// System audio capture was switched on or off.
    SystemAudio(bool),
    /// System audio capture failed, with a message for the user.
    SystemAudioError(String),
    /// One spectrum, its bytes written in base64.
    SystemAudioSpectrum(String),
    /// The wallpaper takes clicks, or lets them through.
    InteractiveMode(bool),
    /// Switch to the theme with this index.
    SetTheme(usize),
}

/// What an event carries.
#[derive(Debug, PartialEq, Eq)]
pub enum Payload {
    Nothing,
    Flag(bool),
    Index(usize),
    Text(String),
}

/// The model of [`FrontendEvent`].
pub enum EventView {
    PlayAudioFile(Seq<char>),
    TogglePlay,
    ToggleMic,
    ToggleClock,
    SystemAudio(bool),
    SystemAudioError(Seq<char>),
    SystemAudioSpectrum(Seq<char>),
    InteractiveMode(bool),
    SetTheme(usize),
}

/// The model of [`Payload`].
pub enum PayloadView {
    Nothing,
    Flag(bool),
    Index(usize),
    Text(Seq<char>),
}

impl View for FrontendEvent {
    type V = EventView;

    open spec fn view(&self) -> EventView {
        match self {
            FrontendEvent::PlayAudioFile(path) => EventView::PlayAudioFile(path@),
            FrontendEvent::TogglePlay => EventView::TogglePlay,
            FrontendEvent::ToggleMic => EventView::ToggleMic,
            FrontendEvent::ToggleClock => EventView::ToggleClock,
            FrontendEvent::SystemAudio(on) => EventView::SystemAudio(*on),
            FrontendEvent::SystemAudioError(message) => EventView::SystemAudioError(message@),
            FrontendEvent::SystemAudioSpectrum(text) => EventView::SystemAudioSpectrum(text@),
            FrontendEvent::InteractiveMode(on) => EventView::InteractiveMode(*on),
            FrontendEvent::SetTheme(index) => EventView::SetTheme(*index),
        }
    }
}

impl View for Payload {
    type V = PayloadView;

    open spec fn view(&self) -> PayloadView {
        match self {
            Payload::Nothing => PayloadView::Nothing,
            Payload::Flag(on) => PayloadView::Flag(*on),
            Payload::Index(index) => PayloadView::Index(*index),
            Payload::Text(text) => PayloadView::Text(text@),
        }
    }
}

impl EventView {
    /// The name under which the pages listen for the event.
    pub open spec fn name(self) -> Seq<char> {
        match self {
            EventView::PlayAudioFile(_) => "play-audio-file"@,
            EventView::TogglePlay => "toggle-play"@,
            EventView::ToggleMic => "toggle-mic"@,
            EventView::ToggleClock => "toggle-clock"@,
            EventView::SystemAudio(_) => "system-audio"@,
            EventView::SystemAudioError(_) => "system-audio-error"@,
            EventView::SystemAudioSpectrum(_) => "system-audio-spectrum"@,
            EventView::InteractiveMode(_) => "interactive-mode"@,
            EventView::SetTheme(_) => "set-theme"@,
        }
    }

    /// What the event carries.
    pub open spec fn payload(self) -> PayloadView {
        match self {
            EventView::PlayAudioFile(path) => PayloadView::Text(path),
            EventView::TogglePlay => PayloadView::Nothing,
            EventView::ToggleMic => PayloadView::Nothing,
            EventView::ToggleClock => PayloadView::Nothing,
            EventView::SystemAudio(on) => PayloadView::Flag(on),
            EventView::SystemAudioError(message) => PayloadView::Text(message),
            EventView::SystemAudioSpectrum(text) => PayloadView::Text(text),
            EventView::InteractiveMode(on) => PayloadView::Flag(on),
            EventView::SetTheme(index) => PayloadView::Index(index),
        }
    }
}

impl FrontendEvent {
    /// The name under which the pages listen for the event.
    pub fn name(&self) -> (r: &'static str)
        ensures
            r@ == self@.name(),
    {
        match self {
            FrontendEvent::PlayAudioFile(_) => "play-audio-file",
            FrontendEvent::TogglePlay => "toggle-play",
            FrontendEvent::ToggleMic => "toggle-mic",
            FrontendEvent::ToggleClock => "toggle-clock",
            FrontendEvent::SystemAudio(_) => "system-audio",
            FrontendEvent::SystemAudioError(_) => "system-audio-error",
            FrontendEvent::SystemAudioSpectrum(_) => "system-audio-spectrum",
            FrontendEvent::InteractiveMode(_) => "interactive-mode",
            FrontendEvent::SetTheme(_) => "set-theme",
        }
    }

    /// Hands out what the event carries.
    pub fn into_payload(self) -> (r: Payload)
        ensures
            r@ == self@.payload(),
    {
        match self {
            FrontendEvent::PlayAudioFile(path) => Payload::Text(path),
            FrontendEvent::TogglePlay => Payload::Nothing,
            FrontendEvent::ToggleMic => Payload::Nothing,
            FrontendEvent::ToggleClock => Payload::Nothing,
            FrontendEvent::SystemAudio(on) => Payload::Flag(on),
            FrontendEvent::SystemAudioError(message) => Payload::Text(message),
            FrontendEvent::SystemAudioSpectrum(text) => Payload::Text(text),
            FrontendEvent::InteractiveMode(on) => Payload::Flag(on),
            FrontendEvent::SetTheme(index) => Payload::Index(index),
        }
    }
}

/// The lengths of the names. No two are the same but for two that begin differently.
proof fn lemma_names()
    ensures
        "play-audio-file"@.len() == 15,
        "toggle-play"@.len() == 11,
        "toggle-mic"@.len() == 10,
        "toggle-clock"@.len() == 12 && "toggle-clock"@[0] == 't',
        "system-audio"@.len() == 12 && "system-audio"@[0] == 's',
        "system-audio-error"@.len() == 18,
        "system-audio-spectrum"@.len() == 21,
        "interactive-mode"@.len() == 16,
        "set-theme"@.len() == 9,
{
    reveal_strlit("play-audio-file");
    reveal_strlit("toggle-play");
    reveal_strlit("toggle-mic");
    reveal_strlit("toggle-clock");
    reveal_strlit("system-audio");
    reveal_strlit("system-audio-error");
    reveal_strlit("system-audio-spectrum");
    reveal_strlit("interactive-mode");
    reveal_strlit("set-theme");
}

/// An event can be told from its name and what it carries: two events that agree
/// in both are the same event.
pub proof fn law_events_are_told_apart(a: EventView, b: EventView)
    requires
        a.name() == b.name(),
        a.payload() == b.payload(),
    ensures
        a == b,
{
    lemma_names();
}

/// The pages listen for each event under its own name, whatever it carries.
pub proof fn law_events_have_their_names(event: EventView)
    ensures
        event is PlayAudioFile <==> event.name() == "play-audio-file"@,
        event is TogglePlay <==> event.name() == "toggle-play"@,
        event is ToggleMic <==> event.name() == "toggle-mic"@,
        event is ToggleClock <==> event.name() == "toggle-clock"@,
        event is SystemAudio <==> event.name() == "system-audio"@,
        event is SystemAudioError <==> event.name() == "system-audio-error"@,
        event is SystemAudioSpectrum <==> event.name() == "system-audio-spectrum"@,
        event is InteractiveMode <==> event.name() == "interactive-mode"@,
        event is SetTheme <==> event.name() == "set-theme"@,
{
    lemma_names();
}

/// What an event is made with arrives at the pages as it is: every path, message and
/// spectrum as that text, every switch as that flag, every theme as that index. The
/// toggles carry nothing.
pub proof fn law_events_carry_what_they_are_made_with(text: String, on: bool, index: usize)
    ensures
        FrontendEvent::PlayAudioFile(text)@.payload() == PayloadView::Text(text@),
        FrontendEvent::SystemAudioError(text)@.payload() == PayloadView::Text(text@),
        FrontendEvent::SystemAudioSpectrum(text)@.payload() == PayloadView::Text(text@),
        FrontendEvent::SystemAudio(on)@.payload() == PayloadView::Flag(on),
        FrontendEvent::InteractiveMode(on)@.payload() == PayloadView::Flag(on),
        FrontendEvent::SetTheme(index)@.payload() == PayloadView::Index(index),
        FrontendEvent::TogglePlay@.payload() is Nothing,
        FrontendEvent::ToggleMic@.payload() is Nothing,
        FrontendEvent::ToggleClock@.payload() is Nothing,
{
}

/// The models leave nothing out: an event, or what it carries, is known from its model up
/// to the identity of its text.
pub proof fn law_models_are_faithful(text: String, on: bool, index: usize)
    ensures
        FrontendEvent::PlayAudioFile(text)@ == EventView::PlayAudioFile(text@),
        FrontendEvent::SystemAudioError(text)@ == EventView::SystemAudioError(text@),
        FrontendEvent::SystemAudioSpectrum(text)@ == EventView::SystemAudioSpectrum(text@),
        FrontendEvent::SystemAudio(on)@ == EventView::SystemAudio(on),
        FrontendEvent::InteractiveMode(on)@ == EventView::InteractiveMode(on),
        FrontendEvent::SetTheme(index)@ == EventView::SetTheme(index),
        FrontendEvent::TogglePlay@ is TogglePlay,
        FrontendEvent::ToggleMic@ is ToggleMic,
        FrontendEvent::ToggleClock@ is ToggleClock,
        Payload::Text(text)@ == PayloadView::Text(text@),
        Payload::Flag(on)@ == PayloadView::Flag(on),
        Payload::Index(index)@ == PayloadView::Index(index),
        Payload::Nothing@ is Nothing,
{
}

} // verus!
