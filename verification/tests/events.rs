use yinlang::events::{FrontendEvent, Payload};

#[test]
fn events_have_their_names() {
    assert_eq!(FrontendEvent::PlayAudioFile(String::new()).name(), "play-audio-file");
    assert_eq!(FrontendEvent::TogglePlay.name(), "toggle-play");
    assert_eq!(FrontendEvent::ToggleMic.name(), "toggle-mic");
    assert_eq!(FrontendEvent::ToggleClock.name(), "toggle-clock");
    assert_eq!(FrontendEvent::SystemAudio(true).name(), "system-audio");
    assert_eq!(FrontendEvent::SystemAudioError(String::new()).name(), "system-audio-error");
    assert_eq!(FrontendEvent::SystemAudioSpectrum(String::new()).name(), "system-audio-spectrum");
    assert_eq!(FrontendEvent::InteractiveMode(false).name(), "interactive-mode");
    assert_eq!(FrontendEvent::SetTheme(0).name(), "set-theme");
}

#[test]
fn events_carry_their_payloads() {
    assert_eq!(FrontendEvent::PlayAudioFile("/a.mp3".to_string()).into_payload(), Payload::Text("/a.mp3".to_string()));
    assert_eq!(FrontendEvent::TogglePlay.into_payload(), Payload::Nothing);
    assert_eq!(FrontendEvent::ToggleMic.into_payload(), Payload::Nothing);
    assert_eq!(FrontendEvent::ToggleClock.into_payload(), Payload::Nothing);
    assert_eq!(FrontendEvent::SystemAudio(true).into_payload(), Payload::Flag(true));
    assert_eq!(FrontendEvent::SystemAudioError("e".to_string()).into_payload(), Payload::Text("e".to_string()));
    assert_eq!(FrontendEvent::SystemAudioSpectrum("AA==".to_string()).into_payload(), Payload::Text("AA==".to_string()));
    assert_eq!(FrontendEvent::InteractiveMode(false).into_payload(), Payload::Flag(false));
    assert_eq!(FrontendEvent::SetTheme(5).into_payload(), Payload::Index(5));
}
