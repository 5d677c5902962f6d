use yinlang::events::FrontendEvent;
use yinlang::menu::{audio_reply, TrayAction};
use yinlang::platform::Platform;
use yinlang::sync::{audio_tick, source_change, source_changed, takeover_done, SourceChange};
use yinlang::system_audio::{
    complete_start, finish, report_end, restart_due, start, stop, Finish, Launch, Start, SysAudioState,
};

fn running() -> SysAudioState<&'static str> {
    let mut state = SysAudioState::new();
    assert_eq!(start(&mut state, Platform::MacOs), Start::Launch);
    complete_start(&mut state, Launch::Running("tap")).unwrap();
    state
}

#[test]
fn the_tick_follows_the_announcement() {
    assert!(audio_tick("true"));
    for payload in ["false", "", "null", "\"true\"", "true ", "True"] {
        assert!(!audio_tick(payload));
    }
}

#[test]
fn changes_are_read_from_json() {
    assert_eq!(source_change("\"mic-on\""), SourceChange::MicOn);
    assert_eq!(source_change("\"mic-off\""), SourceChange::MicOff);
    assert_eq!(source_change("\"file\""), SourceChange::File);
    assert_eq!(source_change("mic-on"), SourceChange::MicOn);
    assert_eq!(source_change("\"\"file\""), SourceChange::File);
    for payload in ["", "\"\"", "\"idle\"", "null", " \"file\"", "\"mic\""] {
        assert_eq!(source_change(payload), SourceChange::Other);
    }
}

#[test]
fn changes_have_their_actions_in_order() {
    assert_eq!(source_changed(SourceChange::MicOn), vec![TrayAction::TickMic(true), TrayAction::StopAudio]);
    assert_eq!(source_changed(SourceChange::MicOff), vec![TrayAction::TickMic(false)]);
    assert_eq!(source_changed(SourceChange::File), vec![TrayAction::StopAudio]);
    assert_eq!(source_changed(SourceChange::Other), Vec::new());
    assert_eq!(
        takeover_done(true),
        vec![TrayAction::UntickAudio, TrayAction::Emit(FrontendEvent::SystemAudio(false))]
    );
    assert_eq!(takeover_done(false), Vec::new());
}

/// A tray that notes what is done to it.
struct Tray {
    state: SysAudioState<&'static str>,
    audio_tick: bool,
    mic_tick: bool,
    log: Vec<String>,
}

impl Tray {
    fn new(state: SysAudioState<&'static str>) -> Tray {
        let audio_tick = state.session.is_some();
        Tray { state, audio_tick, mic_tick: false, log: Vec::new() }
    }

    fn hear(&mut self, event: &FrontendEvent) {
        self.log.push(format!("emit {event:?}"));
        if let FrontendEvent::SystemAudio(on) = event {
            self.audio_tick = audio_tick(&on.to_string());
        }
    }

    fn perform(&mut self, actions: Vec<TrayAction>) {
        for action in actions {
            match action {
                TrayAction::TickMic(on) => {
                    self.log.push(format!("mic {on}"));
                    self.mic_tick = on;
                }
                TrayAction::StopAudio => {
                    let ran = stop(&mut self.state, Platform::MacOs).is_some();
                    self.log.push(format!("stop {ran}"));
                    self.perform(takeover_done(ran));
                }
                TrayAction::UntickAudio => {
                    self.log.push("untick".to_string());
                    self.audio_tick = false;
                }
                TrayAction::Emit(event) => self.hear(&event),
            }
        }
    }

    fn in_step(&self) -> bool {
        self.audio_tick == self.state.session.is_some()
    }
}

#[test]
fn the_microphone_takes_over() {
    let mut tray = Tray::new(running());
    tray.perform(source_changed(source_change("\"mic-on\"")));
    assert_eq!(tray.log, vec!["mic true", "stop true", "untick", "emit SystemAudio(false)"]);
    assert!(tray.mic_tick && tray.in_step());
    assert!(tray.state.session.is_none() && !tray.state.desired);
}

#[test]
fn a_file_takes_over() {
    let mut tray = Tray::new(running());
    tray.perform(source_changed(source_change("\"file\"")));
    assert_eq!(tray.log, vec!["stop true", "untick", "emit SystemAudio(false)"]);
    assert!(!tray.mic_tick && tray.in_step());
    assert!(tray.state.session.is_none() && !tray.state.desired);
}

#[test]
fn the_microphone_going_off_leaves_system_audio() {
    let mut tray = Tray::new(running());
    tray.perform(source_changed(source_change("\"mic-off\"")));
    tray.perform(source_changed(source_change("\"idle\"")));
    assert_eq!(tray.log, vec!["mic false"]);
    assert!(tray.state.session.is_some() && tray.state.desired && tray.in_step());
}

#[test]
fn taking_over_from_nothing_is_not_announced() {
    let mut tray = Tray::new(SysAudioState::new());
    tray.state.desired = true;
    tray.perform(source_changed(SourceChange::MicOn));
    assert_eq!(tray.log, vec!["mic true", "stop false"]);
    assert!(!tray.state.desired && tray.in_step());
}

#[test]
fn the_tick_agrees_with_the_session() {
    let mut tray = Tray::new(SysAudioState::new());

    // A click that fails. The click itself turns the tick.
    tray.audio_tick = true;
    assert_eq!(start(&mut tray.state, Platform::MacOs), Start::Launch);
    let outcome = complete_start(&mut tray.state, Launch::HelperMissing).map(|_| ());
    tray.perform(audio_reply(true, outcome));
    assert!(!tray.audio_tick && tray.in_step());

    // A click that works.
    tray.audio_tick = true;
    assert_eq!(start(&mut tray.state, Platform::MacOs), Start::Launch);
    let gen = complete_start(&mut tray.state, Launch::Running("tap")).unwrap();
    tray.perform(audio_reply(true, Ok(())));
    assert!(tray.audio_tick && tray.in_step());

    // An end with a restart.
    assert!(matches!(finish(&mut tray.state, gen), Finish::Ended(_)));
    assert!(restart_due(&tray.state, 31, 0));
    assert_eq!(start(&mut tray.state, Platform::MacOs), Start::Launch);
    let again = complete_start(&mut tray.state, Launch::Running("again")).unwrap();
    assert!(again > gen);
    assert!(matches!(finish(&mut tray.state, gen), Finish::Superseded));
    for event in report_end(true, "gone") {
        tray.hear(&event);
    }
    assert!(tray.audio_tick && tray.in_step());

    // An end for good.
    assert!(matches!(finish(&mut tray.state, again), Finish::Ended(_)));
    assert!(!restart_due(&tray.state, 3, 0));
    for event in report_end(false, "gone") {
        tray.hear(&event);
    }
    assert!(!tray.audio_tick && tray.in_step());
}
