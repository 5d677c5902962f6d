//! The life of a system audio session: who may start one, who may end one, and
//! what is reported when one ends by itself.
//!
//! Every session carries a generation number. A capture thread that ends cleans up
//! its own generation only, so that a late thread never takes down the session that
//! followed it. A session that ran for long enough and then ended unasked is started
//! once more.

use vstd::prelude::*;
use vstd::string::*;

use crate::events::{EventView, FrontendEvent};
use crate::platform::Platform;

verus! {

/// A running capture: its generation, and the handle by which it is ended.
#[derive(Debug)]
pub struct Session<H> {
    pub gen: u64,
    pub handle: H,
}

/// What is known of system audio capture.
#[derive(Debug)]
pub struct SysAudioState<H> {
    pub session: Option<Session<H>>,
    /// What the user asked for. A session is restarted only while this is `true`.
    pub desired: bool,
    /// The generation that the next session gets.
    pub next_gen: u64,
}

/// The first generation that is handed out.
pub const FIRST_GEN: u64 = 1;

/// A session has to run for longer than this before its end is answered by a restart.
pub const RESTART_AFTER_SECS: u64 = 30;

/// How long a restart waits.
pub const RESTART_DELAY_SECS: u64 = 2;

/// The nanoseconds of one second.
pub const NANOS_PER_SEC: u32 = 1_000_000_000;

/// What a request to start is answered.
#[derive(Debug, PartialEq, Eq)]
pub enum Start {
    /// System audio cannot be captured here, with a message for the user.
    Refused(String),
    /// A session is running already; nothing is left to do.
    Running,
    /// A capture has to be launched; [`complete_start`] takes the outcome.
    Launch,
}

/// How the launch of a capture went.
#[derive(Debug)]
pub enum Launch<H> {
    /// It runs, and ends by this handle.
    Running(H),
    /// The helper program was not found.
    HelperMissing,
    /// The helper program could not be started, for this reason.
    SpawnFailed(String),
    /// The output of the helper program cannot be read.
    OutputUnavailable,
}

/// What is to be done when a capture has ended.
#[derive(Debug)]
pub enum Finish<H> {
    /// The session was stopped or replaced: nothing.
    Superseded,
    /// The session ended by itself: release the handle, and only then ask whether a
    /// restart is due, [`restart_due`].
    Ended(H),
}

/// The message for a system without capture.
pub open spec fn unsupported_message() -> Seq<char> {
    "当前平台暂不支持系统音频采集"@
}

/// The message for a launch that failed.
pub open spec fn launch_message<H>(launch: Launch<H>) -> Seq<char> {
    match launch {
        Launch::Running(_) => Seq::empty(),
        Launch::HelperMissing => "找不到 audio-tap 助手程序"@,
        Launch::SpawnFailed(reason) => "启动系统音频助手失败: "@ + reason@,
        Launch::OutputUnavailable => "无法读取助手输出"@,
    }
}

/// The generation after `gen`: a 64-bit counter that wraps around.
pub open spec fn gen_after(gen: u64) -> u64 {
    if gen == u64::MAX {
        0
    } else {
        (gen + 1) as u64
    }
}

/// The generation that the `n`-th of the following sessions gets.
pub open spec fn nth_gen(first: u64, n: nat) -> u64
    decreases n,
{
    if n == 0 {
        first
    } else {
        gen_after(nth_gen(first, (n - 1) as nat))
    }
}

impl<H> SysAudioState<H> {
    /// Nothing runs and nothing is asked for.
    pub fn new() -> (r: Self)
        ensures
            r.session is None,
            !r.desired,
            r.next_gen == FIRST_GEN,
    {
        SysAudioState { session: None, desired: false, next_gen: FIRST_GEN }
    }

    /// Whether the running session has this generation.
    pub open spec fn runs(self, gen: u64) -> bool {
        self.session is Some && self.session->0.gen == gen
    }

    /// The state after a request to start.
    pub open spec fn asked_to_start(self, platform: Platform) -> Self {
        if platform == Platform::Other {
            self
        } else {
            SysAudioState { desired: true, ..self }
        }
    }

    /// The state after a launch.
    pub open spec fn launched(self, launch: Launch<H>) -> Self {
        match launch {
            Launch::Running(handle) => SysAudioState {
                session: Some(Session { gen: self.next_gen, handle }),
                next_gen: gen_after(self.next_gen),
                desired: self.desired,
            },
            _ => self,
        }
    }

    /// The state after a request to stop.
    pub open spec fn stopped(self, platform: Platform) -> Self {
        if platform == Platform::Other {
            self
        } else {
            SysAudioState { session: None, desired: false, ..self }
        }
    }

    /// The state after the capture of generation `gen` has ended.
    pub open spec fn finished(self, gen: u64) -> Self {
        if self.runs(gen) {
            SysAudioState { session: None, ..self }
        } else {
            self
        }
    }
}

/// The model of [`Start`].
pub enum StartView {
    Refused(Seq<char>),
    Running,
    Launch,
}

impl View for Start {
    type V = StartView;

    open spec fn view(&self) -> StartView {
        match self {
            Start::Refused(message) => StartView::Refused(message@),
            Start::Running => StartView::Running,
            Start::Launch => StartView::Launch,
        }
    }
}

/// An answer is known from its model.
pub proof fn law_answers_are_modelled_faithfully(message: String)
    ensures
        Start::Refused(message)@ == StartView::Refused(message@),
        Start::Running@ is Running,
        Start::Launch@ is Launch,
{
}

/// What a request to start is answered in a state.
pub open spec fn start_answer<H>(state: SysAudioState<H>, platform: Platform) -> StartView {
    if platform == Platform::Other {
        StartView::Refused(unsupported_message())
    } else if state.session is Some {
        StartView::Running
    } else {
        StartView::Launch
    }
}

/// Answers a request to start, and remembers that the user wants system audio.
pub fn start<H>(state: &mut SysAudioState<H>, platform: Platform) -> (r: Start)
    ensures
        *final(state) == old(state).asked_to_start(platform),
        r@ == start_answer(*old(state), platform),
{
    if platform == Platform::Other {
        return Start::Refused("当前平台暂不支持系统音频采集".to_owned());
    }
    state.desired = true;
    if state.session.is_some() {
        Start::Running
    } else {
        Start::Launch
    }
}

/// Where there is capture, a request to start is never refused: a capture is launched if
/// and only if none runs, and the wish is noted, which is all that changes. Elsewhere the
/// request is refused with a message, and nothing changes.
pub proof fn law_start_is_answered<H>(state: SysAudioState<H>, platform: Platform)
    ensures
        platform is Other ==> start_answer(state, platform) == StartView::Refused(
            "当前平台暂不支持系统音频采集"@,
        ) && state.asked_to_start(platform) == state,
        !(platform is Other) ==> (start_answer(state, platform) is Launch <==> state.session
            is None),
        !(platform is Other) ==> (start_answer(state, platform) is Running <==> state.session
            is Some),
        !(platform is Other) ==> state.asked_to_start(platform).desired,
        state.asked_to_start(platform).session == state.session,
        state.asked_to_start(platform).next_gen == state.next_gen,
{
}

/// What the one who launched a capture is told.
pub open spec fn launch_result<H>(state: SysAudioState<H>, launch: Launch<H>) -> Result<
    u64,
    Seq<char>,
> {
    if launch is Running {
        Ok(state.next_gen)
    } else {
        Err(launch_message(launch))
    }
}

/// A capture that runs becomes the session, as it is, under the number that the counter
/// stood at; the counter goes on by one, or comes round. Nothing else changes.
pub proof fn law_capture_becomes_the_session<H>(state: SysAudioState<H>, handle: H)
    ensures
        ({
            let after = state.launched(Launch::Running(handle));
            &&& launch_result(state, Launch::Running(handle)) == Ok::<u64, Seq<char>>(
                state.next_gen,
            )
            &&& after.session is Some
            &&& after.session->0.gen == state.next_gen
            &&& after.session->0.handle == handle
            &&& after.next_gen == (state.next_gen + 1) % 0x1_0000_0000_0000_0000
            &&& after.desired == state.desired
        }),
{
}

/// A launch that failed changes nothing, whatever the reason; the user reads which of the
/// three steps failed, and the very reason where one is known.
pub proof fn law_failed_launch_is_told<H>(state: SysAudioState<H>, reason: String)
    ensures
        state.launched(Launch::HelperMissing) == state,
        state.launched(Launch::SpawnFailed(reason)) == state,
        state.launched(Launch::OutputUnavailable) == state,
        launch_result(state, Launch::HelperMissing) == Err::<u64, Seq<char>>(
            "找不到 audio-tap 助手程序"@,
        ),
        launch_result(state, Launch::SpawnFailed(reason)) == Err::<u64, Seq<char>>(
            "启动系统音频助手失败: "@ + reason@,
        ),
        launch_result(state, Launch::OutputUnavailable) == Err::<u64, Seq<char>>(
            "无法读取助手输出"@,
        ),
{
}

/// Takes the outcome of a launch: a capture that runs becomes the session, with a
/// new generation; of one that failed the message is returned.
pub fn complete_start<H>(state: &mut SysAudioState<H>, launch: Launch<H>) -> (r: Result<
    u64,
    String,
>)
    requires
        old(state).session is None,
    ensures
        *final(state) == old(state).launched(launch),
        match r {
            Ok(gen) => launch_result(*old(state), launch) == Ok::<u64, Seq<char>>(gen),
            Err(message) => launch_result(*old(state), launch) == Err::<u64, Seq<char>>(message@),
        },
{
    match launch {
        Launch::Running(handle) => {
            let gen: u64 = state.next_gen;
            state.next_gen = gen.wrapping_add(1);
            state.session = Some(Session { gen, handle });
            Ok(gen)
        },
        Launch::HelperMissing => Err("找不到 audio-tap 助手程序".to_owned()),
        Launch::SpawnFailed(reason) => {
            let mut message = "启动系统音频助手失败: ".to_owned();
            message.append(reason.as_str());
            Err(message)
        },
        Launch::OutputUnavailable => Err("无法读取助手输出".to_owned()),
    }
}

/// The state after a request to start, where `launch` is how the launch goes if one is
/// needed.
pub open spec fn after_start<H>(
    state: SysAudioState<H>,
    platform: Platform,
    launch: Launch<H>,
) -> SysAudioState<H> {
    let asked = state.asked_to_start(platform);
    if platform == Platform::Other || state.session is Some {
        asked
    } else {
        asked.launched(launch)
    }
}

/// The message with which that request fails, if it does.
pub open spec fn start_failure<H>(
    state: SysAudioState<H>,
    platform: Platform,
    launch: Launch<H>,
) -> Option<Seq<char>> {
    if platform == Platform::Other {
        Some(unsupported_message())
    } else if state.session is Some || launch is Running {
        None
    } else {
        Some(launch_message(launch))
    }
}

/// How a launch can go on a system: the helper program of macOS can fail in several
/// ways; on Windows a launch only sets up the capture thread and always works. Elsewhere
/// nothing is launched.
pub open spec fn launch_possible<H>(platform: Platform, launch: Launch<H>) -> bool {
    match platform {
        Platform::MacOs => true,
        Platform::Windows => launch is Running,
        Platform::Other => false,
    }
}

/// A start succeeds if and only if a session runs after it. It records that system audio
/// is wanted, whether it succeeds or not, and on Windows it always succeeds.
pub proof fn law_start_settles<H>(
    state: SysAudioState<H>,
    platform: Platform,
    launch: Launch<H>,
)
    requires
        launch_possible(platform, launch),
    ensures
        start_failure(state, platform, launch) is None <==> after_start(
            state,
            platform,
            launch,
        ).session is Some,
        after_start(state, platform, launch).desired,
        platform == Platform::Windows ==> start_failure(state, platform, launch) is None,
{
}

/// The handle that a stop hands out.
pub open spec fn stop_result<H>(state: SysAudioState<H>, platform: Platform) -> Option<H> {
    if platform != Platform::Other && state.session is Some {
        Some(state.session->0.handle)
    } else {
        None
    }
}

/// Where there is capture, a stop hands out the handle of whatever session runs, takes the
/// wish back, and leaves the counter alone. Elsewhere it does nothing.
pub proof fn law_stop_ends_what_runs<H>(state: SysAudioState<H>, platform: Platform)
    ensures
        !(platform is Other) && state.session is Some ==> stop_result(state, platform) == Some(
            state.session->0.handle,
        ),
        state.session is None ==> stop_result(state, platform) is None,
        platform is Other ==> stop_result(state, platform) is None && state.stopped(platform)
            == state,
        !(platform is Other) ==> state.stopped(platform).session is None && !state.stopped(
            platform,
        ).desired,
        state.stopped(platform).next_gen == state.next_gen,
{
}

/// Stops system audio, and remembers that the user does not want it. Hands out the
/// handle of the session that ran, if one did.
pub fn stop<H>(state: &mut SysAudioState<H>, platform: Platform) -> (r: Option<H>)
    ensures
        *final(state) == old(state).stopped(platform),
        r == stop_result(*old(state), platform),
{
    if platform == Platform::Other {
        return None;
    }
    state.desired = false;
    match state.session.take() {
        Some(session) => Some(session.handle),
        None => None,
    }
}

/// The handle that is to be released when the capture of generation `gen` has ended.
pub open spec fn end_result<H>(state: SysAudioState<H>, gen: u64) -> Option<H> {
    if state.runs(gen) {
        Some(state.session->0.handle)
    } else {
        None
    }
}

/// The end of a capture ends the session of its own generation, whichever that is, and no
/// other; the handle of that session is released. The wish and the counter stay.
pub proof fn law_end_takes_its_own_session<H>(state: SysAudioState<H>, gen: u64)
    ensures
        state.session is Some && state.session->0.gen == gen ==> end_result(state, gen) == Some(
            state.session->0.handle,
        ) && state.finished(gen).session is None,
        state.session is None || state.session->0.gen != gen ==> end_result(state, gen) is None
            && state.finished(gen) == state,
        state.finished(gen).desired == state.desired,
        state.finished(gen).next_gen == state.next_gen,
{
}

/// Takes the end of the capture of generation `gen`.
pub fn finish<H>(state: &mut SysAudioState<H>, gen: u64) -> (r: Finish<H>)
    ensures
        *final(state) == old(state).finished(gen),
        match r {
            Finish::Superseded => end_result(*old(state), gen) is None,
            Finish::Ended(handle) => end_result(*old(state), gen) == Some(handle),
        },
{
    let current: bool = match &state.session {
        Some(session) => session.gen == gen,
        None => false,
    };
    if !current {
        return Finish::Superseded;
    }
    match state.session.take() {
        Some(session) => Finish::Ended(session.handle),
        None => Finish::Superseded,
    }
}

/// Whether a session that ran for this long is restarted when it ends.
pub open spec fn ran_long(secs: u64, nanos: u32) -> bool {
    secs * NANOS_PER_SEC + nanos > RESTART_AFTER_SECS * NANOS_PER_SEC
}

/// Whether a restart is due to a session that ended by itself.
pub open spec fn is_due(desired: bool, secs: u64, nanos: u32) -> bool {
    ran_long(secs, nanos) && desired
}

/// A wanted session is due a restart when it ran for more than thirty seconds, however
/// long; one that is not wanted, or ran for no more than that, is not. The seconds decide,
/// and at thirty of them the rest of the time does.
pub proof fn law_long_sessions_are_restarted(desired: bool, secs: u64, nanos: u32)
    requires
        nanos < 1_000_000_000,
    ensures
        secs > 30 ==> is_due(desired, secs, nanos) == desired,
        secs == 30 ==> (is_due(desired, secs, nanos) <==> desired && nanos > 0),
        secs < 30 ==> !is_due(desired, secs, nanos),
        is_due(desired, secs, nanos) ==> desired,
{
    assert(secs * NANOS_PER_SEC == secs * 1_000_000_000);
}

/// A session that ran for at least as long as one that is restarted is restarted too.
pub proof fn law_longer_sessions_are_restarted_too(
    desired: bool,
    secs: u64,
    nanos: u32,
    more_secs: u64,
    more_nanos: u32,
)
    requires
        is_due(desired, secs, nanos),
        more_secs * 1_000_000_000 + more_nanos >= secs * 1_000_000_000 + nanos,
    ensures
        is_due(desired, more_secs, more_nanos),
{
    assert(secs * NANOS_PER_SEC == secs * 1_000_000_000);
    assert(more_secs * NANOS_PER_SEC == more_secs * 1_000_000_000);
}

/// Asked once the handle of a session that ended by itself is released, `secs` seconds
/// and `nanos` nanoseconds after its start: whether a restart is due.
pub fn restart_due<H>(state: &SysAudioState<H>, secs: u64, nanos: u32) -> (r: bool)
    ensures
        r == is_due(state.desired, secs, nanos),
{
    assert(secs * NANOS_PER_SEC <= u64::MAX * 1_000_000_000) by (nonlinear_arith)
        requires
            0 <= secs <= u64::MAX,
            NANOS_PER_SEC == 1_000_000_000,
    ;
    let ran: u128 = secs as u128 * NANOS_PER_SEC as u128 + nanos as u128;
    ran > RESTART_AFTER_SECS as u128 * NANOS_PER_SEC as u128 && state.desired
}

/// What is to be done next about a session that ended by itself.
#[derive(Clone, Copy, Debug, PartialEq, Eq, Structural)]
pub enum EndStep {
    /// Wait for [`RESTART_DELAY_SECS`].
    Wait,
    /// Ask whether the user still wants system audio: [`restart_wanted`].
    CheckWanted,
    /// Start system audio again.
    Restart,
    /// Report the end; this is the last step.
    Report,
    /// Nothing, as the session was restarted; this is the last step.
    Quiet,
}

impl EndStep {
    /// The first step, where `retry` is what [`restart_due`] said.
    pub open spec fn first(retry: bool) -> EndStep {
        if retry {
            EndStep::Wait
        } else {
            EndStep::Report
        }
    }

    /// The step after this one, where `yes` is what came of it: whether system audio is
    /// wanted, or whether it was started.
    pub open spec fn after(self, yes: bool) -> EndStep {
        match self {
            EndStep::Wait => EndStep::CheckWanted,
            EndStep::CheckWanted => if yes {
                EndStep::Restart
            } else {
                EndStep::Report
            },
            EndStep::Restart => if yes {
                EndStep::Quiet
            } else {
                EndStep::Report
            },
            EndStep::Report => EndStep::Report,
            EndStep::Quiet => EndStep::Quiet,
        }
    }

    /// Gives the first step.
    pub fn begin(retry: bool) -> (r: EndStep)
        ensures
            r == EndStep::first(retry),
    {
        if retry {
            EndStep::Wait
        } else {
            EndStep::Report
        }
    }

    /// Gives the step after this one.
    pub fn next(self, yes: bool) -> (r: EndStep)
        ensures
            r == self.after(yes),
    {
        match self {
            EndStep::Wait => EndStep::CheckWanted,
            EndStep::CheckWanted => if yes {
                EndStep::Restart
            } else {
                EndStep::Report
            },
            EndStep::Restart => if yes {
                EndStep::Quiet
            } else {
                EndStep::Report
            },
            EndStep::Report => EndStep::Report,
            EndStep::Quiet => EndStep::Quiet,
        }
    }
}

/// An end is either made good by one restart or reported: it stays quiet if and only if
/// a restart was due, still wanted when its time came, and worked. It takes no more than
/// three steps to get there, so that no end is answered by two restarts.
pub proof fn law_end_is_restarted_or_reported(
    retry: bool,
    waited: bool,
    wanted: bool,
    started: bool,
)
    ensures
        EndStep::first(retry).after(waited).after(wanted).after(started) == (if retry && wanted
            && started {
            EndStep::Quiet
        } else {
            EndStep::Report
        }),
{
}

/// Whether the user wants system audio.
pub open spec fn is_wanted<H>(state: SysAudioState<H>) -> bool {
    state.desired
}

/// The last request decides what is wanted: a start, whether it works or not, until the
/// next stop. No launch and no end of a capture changes it.
pub proof fn law_last_request_decides<H>(
    state: SysAudioState<H>,
    platform: Platform,
    launch: Launch<H>,
    gen: u64,
)
    requires
        !(platform is Other),
    ensures
        is_wanted(state.asked_to_start(platform)),
        !is_wanted(state.stopped(platform)),
        is_wanted(state.launched(launch)) == is_wanted(state),
        is_wanted(state.finished(gen)) == is_wanted(state),
{
}

/// Asked once the delay before a restart is over: whether the user still wants system
/// audio.
pub fn restart_wanted<H>(state: &SysAudioState<H>) -> (r: bool)
    ensures
        r == is_wanted(*state),
{
    state.desired
}

/// The events that follow the end of a session.
pub open spec fn end_report(restarted: bool, message: Seq<char>) -> Seq<EventView> {
    if restarted {
        Seq::empty()
    } else {
        seq![EventView::SystemAudio(false), EventView::SystemAudioError(message)]
    }
}

/// A restart is silent. An end that was not made good is reported by two events: first
/// that system audio is off, and then the message, as it is.
pub proof fn law_ends_are_reported_in_order(message: Seq<char>)
    ensures
        end_report(true, message).len() == 0,
        end_report(false, message).len() == 2,
        end_report(false, message)[0] == EventView::SystemAudio(false),
        end_report(false, message)[1] == EventView::SystemAudioError(message),
{
}

/// Reports the end of a session, unless it was restarted.
pub fn report_end(restarted: bool, message: &str) -> (r: Vec<FrontendEvent>)
    ensures
        r@.map_values(|e: FrontendEvent| e@) == end_report(restarted, message@),
{
    let mut r: Vec<FrontendEvent> = Vec::new();
    if !restarted {
        r.push(FrontendEvent::SystemAudio(false));
        r.push(FrontendEvent::SystemAudioError(message.to_owned()));
    }
    assert(r@.map_values(|e: FrontendEvent| e@) =~= end_report(restarted, message@));
    r
}

/// The message for a capture that ended by itself, on a system with capture.
pub open spec fn end_message(platform: Platform) -> Option<Seq<char>> {
    match platform {
        Platform::MacOs => Some(
            "系统音频已停止（若是首次使用，请在 系统设置→隐私与安全性→屏幕录制 中授权后重启应用）"@,
        ),
        Platform::Windows => Some(
            "系统音频已停止（未检测到可采集的播放设备，请确认有音频输出设备）"@,
        ),
        Platform::Other => None,
    }
}

/// Tells what the user reads when a capture ended by itself.
pub fn end_message_text(platform: Platform) -> (r: Option<&'static str>)
    ensures
        match r {
            Some(text) => end_message(platform) == Some(text@),
            None => end_message(platform) is None,
        },
{
    match platform {
        Platform::MacOs => Some(
            "系统音频已停止（若是首次使用，请在 系统设置→隐私与安全性→屏幕录制 中授权后重启应用）",
        ),
        Platform::Windows => Some(
            "系统音频已停止（未检测到可采集的播放设备，请确认有音频输出设备）",
        ),
        Platform::Other => None,
    }
}

/// The number of generations after which the counter comes round again.
pub open spec fn gen_count() -> int {
    0x1_0000_0000_0000_0000
}

/// Counting up from `first`, the `n`-th generation is `first + n`, modulo the number
/// of generations.
proof fn lemma_nth_gen(first: u64, n: nat)
    ensures
        nth_gen(first, n) == (first + n) % gen_count(),
    decreases n,
{
    if n > 0 {
        lemma_nth_gen(first, (n - 1) as nat);
    }
}

/// Counting `a` generations and then `b` more is counting `a + b`.
proof fn lemma_nth_gen_adds(first: u64, a: nat, b: nat)
    ensures
        nth_gen(nth_gen(first, a), b) == nth_gen(first, a + b),
    decreases b,
{
    if b > 0 {
        lemma_nth_gen_adds(first, a, (b - 1) as nat);
    }
}

/// No two of fewer than `2^64` sessions in a row share a generation.
pub proof fn law_generations_are_distinct(first: u64, i: nat, j: nat)
    requires
        i < j < i + gen_count(),
    ensures
        nth_gen(first, i) != nth_gen(first, j),
{
    lemma_nth_gen(first, i);
    lemma_nth_gen(first, j);
}

/// Something that happens to a [`SysAudioState`].
pub enum Step<H> {
    AskStart(Platform),
    Launched(Launch<H>),
    Stop(Platform),
    Finish(u64),
}

/// The state after `step`. A launch is taken only while nothing runs.
pub open spec fn after_step<H>(state: SysAudioState<H>, step: Step<H>) -> SysAudioState<H> {
    match step {
        Step::AskStart(platform) => state.asked_to_start(platform),
        Step::Launched(launch) => if state.session is None {
            state.launched(launch)
        } else {
            state
        },
        Step::Stop(platform) => state.stopped(platform),
        Step::Finish(gen) => state.finished(gen),
    }
}

/// The state after `steps`, in their order.
pub open spec fn after_steps<H>(state: SysAudioState<H>, steps: Seq<Step<H>>) -> SysAudioState<H>
    decreases steps.len(),
{
    if steps.len() == 0 {
        state
    } else {
        after_step(after_steps(state, steps.drop_last()), steps.last())
    }
}

/// How many sessions `steps` start.
pub open spec fn sessions_started<H>(state: SysAudioState<H>, steps: Seq<Step<H>>) -> nat
    decreases steps.len(),
{
    if steps.len() == 0 {
        0
    } else {
        let before = after_steps(state, steps.drop_last());
        let starts = before.session is None && steps.last() is Launched && steps.last()->Launched_0
            is Running;
        sessions_started(state, steps.drop_last()) + if starts {
            1nat
        } else {
            0nat
        }
    }
}

/// The counter moves by one for each session that is started.
proof fn lemma_counter<H>(state: SysAudioState<H>, steps: Seq<Step<H>>)
    ensures
        after_steps(state, steps).next_gen == nth_gen(
            state.next_gen,
            sessions_started(state, steps),
        ),
    decreases steps.len(),
{
    if steps.len() > 0 {
        lemma_counter(state, steps.drop_last());
    }
}

/// Steps taken one part after the other.
proof fn lemma_steps_split<H>(state: SysAudioState<H>, a: Seq<Step<H>>, b: Seq<Step<H>>)
    ensures
        after_steps(state, a + b) == after_steps(after_steps(state, a), b),
        sessions_started(state, a + b) == sessions_started(state, a) + sessions_started(
            after_steps(state, a),
            b,
        ),
    decreases b.len(),
{
    if b.len() == 0 {
        assert(a + b =~= a);
    } else {
        lemma_steps_split(state, a, b.drop_last());
        assert((a + b).drop_last() =~= a + b.drop_last());
        assert((a + b).last() == b.last());
    }
}

/// Whatever runs after steps that began with nothing running was started by one of
/// them, and has its generation.
proof fn lemma_session_is_recent<H>(state: SysAudioState<H>, steps: Seq<Step<H>>) -> (i: nat)
    requires
        state.session is None,
    ensures
        after_steps(state, steps).session is Some ==> i < sessions_started(state, steps)
            && after_steps(state, steps).session->0.gen == nth_gen(state.next_gen, i),
    decreases steps.len(),
{
    if steps.len() == 0 {
        0
    } else {
        let before = after_steps(state, steps.drop_last());
        let i = lemma_session_is_recent(state, steps.drop_last());
        lemma_counter(state, steps.drop_last());
        if before.session is None {
            sessions_started(state, steps.drop_last())
        } else {
            i
        }
    }
}

/// Generations rise. Begin with nothing running; then, short of the wrap-around, the
/// counter has moved by the number of sessions that were started, and what runs has a
/// generation that was handed out since: not below the first of them, and below the
/// counter.
pub proof fn law_generations_rise<H>(state: SysAudioState<H>, steps: Seq<Step<H>>)
    requires
        state.session is None,
        state.next_gen + sessions_started(state, steps) <= u64::MAX,
    ensures
        after_steps(state, steps).next_gen == state.next_gen + sessions_started(state, steps),
        after_steps(state, steps).session is Some ==> state.next_gen <= after_steps(
            state,
            steps,
        ).session->0.gen < after_steps(state, steps).next_gen,
{
    let n = sessions_started(state, steps);
    lemma_counter(state, steps);
    lemma_nth_gen(state.next_gen, n);
    let i = lemma_session_is_recent(state, steps);
    lemma_nth_gen(state.next_gen, i);
}

/// A later session has a greater generation. Start one session; when, after whatever
/// happens, nothing runs and another is started, its generation lies above the first,
/// short of the wrap-around: it is the one after the first plus the number of sessions
/// started in between. Each takes one number, and nothing but a session takes any.
pub proof fn law_later_sessions_have_greater_generations<H>(
    state: SysAudioState<H>,
    first: H,
    between: Seq<Step<H>>,
    second: H,
)
    requires
        state.session is None,
        after_steps(state.launched(Launch::Running(first)), between).session is None,
        state.next_gen + 1 + sessions_started(state.launched(Launch::Running(first)), between)
            <= u64::MAX,
    ensures
        ({
            let one = state.launched(Launch::Running(first));
            let two = after_steps(one, between).launched(Launch::Running(second));
            &&& one.session is Some && two.session is Some
            &&& one.session->0.gen == state.next_gen
            &&& one.session->0.gen < two.session->0.gen
            &&& one.next_gen == state.next_gen + 1
            &&& two.session->0.gen == one.next_gen + sessions_started(one, between)
            &&& two.next_gen == gen_after(two.session->0.gen)
        }),
{
    let one = state.launched(Launch::Running(first));
    lemma_counter(one, between);
    lemma_nth_gen(one.next_gen, sessions_started(one, between));
}

/// A restart is told from the session that it replaces. Let the session `gen` run, in a
/// state reached from one where nothing ran, and end; the session that a restart then
/// starts has a greater generation, short of the wrap-around, and a second end of `gen`
/// changes nothing. Such a restart is silent.
pub proof fn law_restart_has_a_greater_generation<H>(
    state: SysAudioState<H>,
    steps: Seq<Step<H>>,
    gen: u64,
    platform: Platform,
    handle: H,
    message: Seq<char>,
)
    requires
        state.session is None,
        state.next_gen + sessions_started(state, steps) <= u64::MAX,
        after_steps(state, steps).runs(gen),
        platform != Platform::Other,
    ensures
        ({
            let ended = after_steps(state, steps).finished(gen);
            let again = after_start(ended, platform, Launch::Running(handle));
            &&& start_failure(ended, platform, Launch::Running(handle)) is None
            &&& again.session == Some(
                Session { gen: after_steps(state, steps).next_gen, handle },
            )
            &&& again.session->0.gen > gen
            &&& again.finished(gen) == again
            &&& end_report(true, message) == Seq::<EventView>::empty()
        }),
{
    law_generations_rise(state, steps);
}

/// A capture thread that ends late harms nobody. Start a session; let it be gone at
/// some point in what follows; then its thread's end changes nothing, whatever else
/// was started meanwhile (short of `2^64` sessions, when the counter comes round).
pub proof fn law_late_end_changes_nothing<H>(
    state: SysAudioState<H>,
    handle: H,
    until_gone: Seq<Step<H>>,
    later: Seq<Step<H>>,
)
    requires
        state.session is None,
        ({
            let started = state.launched(Launch::Running(handle));
            &&& after_steps(started, until_gone).session is None
            &&& sessions_started(started, until_gone + later) < gen_count()
        }),
    ensures
        ({
            let started = state.launched(Launch::Running(handle));
            let now = after_steps(started, until_gone + later);
            now.finished(state.next_gen) == now
        }),
{
    let gen = state.next_gen;
    let started = state.launched(Launch::Running(handle));
    let gone = after_steps(started, until_gone);
    let now = after_steps(started, until_gone + later);
    lemma_steps_split(started, until_gone, later);
    lemma_counter(started, until_gone);
    let i = lemma_session_is_recent(gone, later);
    let a = sessions_started(started, until_gone);
    if now.session is Some {
        assert(nth_gen(gen, 0) == gen);
        assert(nth_gen(gen, 1) == gen_after(nth_gen(gen, 0)));
        lemma_nth_gen_adds(gen, 1, a);
        lemma_nth_gen_adds(gen, 1 + a, i);
        law_generations_are_distinct(gen, 0, 1 + a + i);
    }
}

/// A stop is the last word: after it nothing runs, no thread that ends changes
/// anything, and a restart that is still waiting is not wanted.
pub proof fn law_stop_is_final<H>(state: SysAudioState<H>, platform: Platform, gen: u64)
    requires
        platform != Platform::Other,
    ensures
        state.stopped(platform).session is None,
        state.stopped(platform).finished(gen) == state.stopped(platform),
        !state.stopped(platform).desired,
        state.stopped(platform).stopped(platform) == state.stopped(platform),
{
}

/// Asking again for what runs already changes nothing.
pub proof fn law_start_is_idempotent<H>(state: SysAudioState<H>, platform: Platform)
    ensures
        state.asked_to_start(platform).session == state.session,
        state.asked_to_start(platform).next_gen == state.next_gen,
        state.asked_to_start(platform).asked_to_start(platform) == state.asked_to_start(platform),
{
}

} // verus!
