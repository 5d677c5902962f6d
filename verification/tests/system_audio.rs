use yinlang::events::FrontendEvent;
use yinlang::platform::Platform;
use yinlang::system_audio::{
    complete_start, end_message_text, finish, report_end, restart_due, restart_wanted, start, stop, EndStep, Finish, Launch, Start,
    SysAudioState, RESTART_AFTER_SECS, RESTART_DELAY_SECS,
};

fn running(state: &mut SysAudioState<&'static str>, handle: &'static str) -> u64 {
    assert_eq!(start(state, Platform::MacOs), Start::Launch);
    complete_start(state, Launch::Running(handle)).unwrap()
}

#[test]
fn a_new_state_is_idle() {
    let state: SysAudioState<u8> = SysAudioState::new();
    assert!(state.session.is_none());
    assert!(!state.desired);
    assert_eq!(state.next_gen, 1);
}

#[test]
fn generations_count_up_from_one() {
    let mut state = SysAudioState::new();
    for expected in 1..=5u64 {
        assert_eq!(running(&mut state, "tap"), expected);
        assert_eq!(stop(&mut state, Platform::MacOs), Some("tap"));
    }
}

#[test]
fn the_generation_counter_wraps_around() {
    let mut state = SysAudioState::new();
    state.next_gen = u64::MAX - 1;
    assert_eq!(running(&mut state, "second to last"), u64::MAX - 1);
    stop(&mut state, Platform::MacOs);
    assert_eq!(running(&mut state, "last"), u64::MAX);
    assert!(matches!(finish(&mut state, u64::MAX), Finish::Ended("last")));
    assert_eq!(running(&mut state, "first"), 0);
}

#[test]
fn starting_twice_keeps_the_session() {
    let mut state = SysAudioState::new();
    assert_eq!(running(&mut state, "tap"), 1);
    assert_eq!(start(&mut state, Platform::Windows), Start::Running);
    assert_eq!(state.session.as_ref().unwrap().gen, 1);
    assert_eq!(state.next_gen, 2);
}

#[test]
fn a_failed_launch_is_told_and_leaves_nothing_running() {
    let mut state: SysAudioState<u8> = SysAudioState::new();
    for (launch, message) in [
        (Launch::HelperMissing, "找不到 audio-tap 助手程序"),
        (Launch::SpawnFailed("denied (os error 13)".to_string()), "启动系统音频助手失败: denied (os error 13)"),
        (Launch::OutputUnavailable, "无法读取助手输出"),
    ] {
        assert_eq!(start(&mut state, Platform::MacOs), Start::Launch);
        assert_eq!(complete_start(&mut state, launch), Err(message.to_string()));
        assert!(state.session.is_none());
        assert!(state.desired);
        assert_eq!(state.next_gen, 1);
    }
}

#[test]
fn other_systems_refuse_and_stay_untouched() {
    let mut state: SysAudioState<u8> = SysAudioState::new();
    assert_eq!(start(&mut state, Platform::Other), Start::Refused("当前平台暂不支持系统音频采集".to_string()));
    assert!(!state.desired);
    assert_eq!(stop(&mut state, Platform::Other), None);
    assert!(!state.desired);
}

#[test]
fn stopping_hands_the_session_out_once() {
    let mut state = SysAudioState::new();
    running(&mut state, "tap");
    assert_eq!(stop(&mut state, Platform::MacOs), Some("tap"));
    assert!(!state.desired);
    assert_eq!(stop(&mut state, Platform::MacOs), None);
    assert!(matches!(finish(&mut state, 1), Finish::Superseded));
    assert!(!restart_wanted(&state));
}

#[test]
fn a_late_thread_does_not_end_the_next_session() {
    let mut state = SysAudioState::new();
    let old = running(&mut state, "old");
    stop(&mut state, Platform::MacOs);
    let new = running(&mut state, "new");
    assert_ne!(old, new);
    assert!(matches!(finish(&mut state, old), Finish::Superseded));
    assert_eq!(state.session.as_ref().unwrap().handle, "new");
    assert!(matches!(finish(&mut state, new), Finish::Ended("new")));
    assert!(state.session.is_none());
    assert!(matches!(finish(&mut state, new), Finish::Superseded));
}

#[test]
fn only_a_session_of_more_than_thirty_seconds_is_restarted() {
    for (secs, nanos, expected) in [
        (0, 0, false),
        (29, 999_999_999, false),
        (30, 0, false),
        (30, 1, true),
        (31, 0, true),
        (u64::MAX, 999_999_999, true),
    ] {
        let mut state = SysAudioState::new();
        let gen = running(&mut state, "tap");
        assert!(matches!(finish(&mut state, gen), Finish::Ended("tap")));
        assert_eq!(restart_due(&state, secs, nanos), expected);
        assert!(restart_wanted(&state));
    }
    assert_eq!(RESTART_AFTER_SECS, 30);
    assert_eq!(RESTART_DELAY_SECS, 2);
}

#[test]
fn an_unwanted_session_is_not_restarted() {
    let mut state = SysAudioState::new();
    let gen = running(&mut state, "tap");
    state.desired = false;
    assert!(matches!(finish(&mut state, gen), Finish::Ended("tap")));
    assert!(!restart_due(&state, 60, 0));
}

#[test]
fn an_end_is_reported_unless_restarted() {
    assert_eq!(report_end(true, "gone"), Vec::new());
    assert_eq!(
        report_end(false, "gone"),
        vec![FrontendEvent::SystemAudio(false), FrontendEvent::SystemAudioError("gone".to_string())]
    );
}

#[test]
fn end_messages_differ_by_system() {
    assert_eq!(
        end_message_text(Platform::MacOs),
        Some("系统音频已停止（若是首次使用，请在 系统设置→隐私与安全性→屏幕录制 中授权后重启应用）")
    );
    assert_eq!(
        end_message_text(Platform::Windows),
        Some("系统音频已停止（未检测到可采集的播放设备，请确认有音频输出设备）")
    );
    assert_eq!(end_message_text(Platform::Other), None);
}

#[test]
fn an_end_takes_its_steps() {
    assert_eq!(EndStep::begin(false), EndStep::Report);
    assert_eq!(EndStep::begin(true), EndStep::Wait);
    assert_eq!(EndStep::Wait.next(false), EndStep::CheckWanted);
    assert_eq!(EndStep::Wait.next(true), EndStep::CheckWanted);
    assert_eq!(EndStep::CheckWanted.next(true), EndStep::Restart);
    assert_eq!(EndStep::CheckWanted.next(false), EndStep::Report);
    assert_eq!(EndStep::Restart.next(true), EndStep::Quiet);
    assert_eq!(EndStep::Restart.next(false), EndStep::Report);
    for yes in [true, false] {
        assert_eq!(EndStep::Report.next(yes), EndStep::Report);
        assert_eq!(EndStep::Quiet.next(yes), EndStep::Quiet);
    }
}

#[test]
fn generations_rise_and_only_sessions_take_them() {
    let mut state = SysAudioState::new();
    let first = running(&mut state, "first");
    assert_eq!(first, 1);
    assert_eq!(start(&mut state, Platform::MacOs), Start::Running);
    assert!(matches!(finish(&mut state, first), Finish::Ended(_)));
    assert_eq!(start(&mut state, Platform::MacOs), Start::Launch);
    assert!(complete_start(&mut state, Launch::OutputUnavailable).is_err());
    stop(&mut state, Platform::MacOs);
    let second = running(&mut state, "second");
    assert_eq!(second, 2);
    assert!(state.session.as_ref().unwrap().gen < state.next_gen);
}

#[test]
fn a_start_is_wanted_whether_it_works_or_not() {
    let mut state: SysAudioState<u8> = SysAudioState::new();
    assert_eq!(start(&mut state, Platform::MacOs), Start::Launch);
    assert!(complete_start(&mut state, Launch::HelperMissing).is_err());
    assert!(state.desired && state.session.is_none());
    assert_eq!(start(&mut state, Platform::Windows), Start::Launch);
    assert!(complete_start(&mut state, Launch::Running(1)).is_ok());
    assert!(state.desired && state.session.is_some());
}
