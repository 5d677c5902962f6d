//! Keeps the ticks of the tray menu in step with what runs.

use vstd::prelude::*;

use crate::events::{EventView, FrontendEvent};
use crate::menu::{reply_actions, TrayAction, TrayActionView};
use crate::platform::Platform;
use crate::system_audio::{
    after_start,
    end_report,
    is_due,
    start_failure,
    Launch,
    SysAudioState,
};
use crate::text::{law_margin_comes_off, law_quotes_come_off, same, trim, trimmed, Margin};

verus! {

/// The state of the system audio tick after an event that announces it, from the JSON text
/// of the event's payload.
pub open spec fn tick_in(payload: Seq<char>) -> bool {
    payload == "true"@
}

/// Tells the state of the system audio tick after an event that announces it.
pub fn audio_tick(payload: &str) -> (r: bool)
    ensures
        r == tick_in(payload@),
{
    same(payload, "true")
}

/// How the sound source of the wallpaper pages has changed.
#[derive(Clone, Copy, Debug, PartialEq, Eq, Structural)]
pub enum SourceChange {
    MicOn,
    MicOff,
    /// A file is played.
    File,
    /// Some other change, of no concern here.
    Other,
}

/// The change that the JSON text of an event's payload announces.
pub open spec fn change_in(payload: Seq<char>) -> SourceChange {
    let state = trimmed(payload, Margin::Quotes);
    if state == "mic-on"@ {
        SourceChange::MicOn
    } else if state == "mic-off"@ {
        SourceChange::MicOff
    } else if state == "file"@ {
        SourceChange::File
    } else {
        SourceChange::Other
    }
}

/// Reads the change that the JSON text of an event's payload announces.
pub fn source_change(payload: &str) -> (r: SourceChange)
    ensures
        r == change_in(payload@),
{
    let state: &str = trim(payload, Margin::Quotes);
    if same(state, "mic-on") {
        SourceChange::MicOn
    } else if same(state, "mic-off") {
        SourceChange::MicOff
    } else if same(state, "file") {
        SourceChange::File
    } else {
        SourceChange::Other
    }
}

/// Whether a change takes the sound over from system audio.
pub open spec fn takes_over(change: SourceChange) -> bool {
    change == SourceChange::MicOn || change == SourceChange::File
}

/// What follows a change of the sound source, in order: the microphone tick follows it;
/// then system audio stops, where the microphone or a file takes over.
pub open spec fn change_actions(change: SourceChange) -> Seq<TrayActionView> {
    match change {
        SourceChange::MicOn => seq![TrayActionView::TickMic(true), TrayActionView::StopAudio],
        SourceChange::MicOff => seq![TrayActionView::TickMic(false)],
        SourceChange::File => seq![TrayActionView::StopAudio],
        SourceChange::Other => Seq::empty(),
    }
}

/// What follows that stop, in order, where `ran` is whether there was anything to stop:
/// the system audio tick goes; then it is announced.
pub open spec fn stop_actions(ran: bool) -> Seq<TrayActionView> {
    if ran {
        seq![
            TrayActionView::UntickAudio,
            TrayActionView::Emit(EventView::SystemAudio(false)),
        ]
    } else {
        Seq::empty()
    }
}

/// Tells what is to be done about a change of the sound source, in order. A stop among it
/// comes last, and [`takeover_done`] takes what came of it.
pub fn source_changed(change: SourceChange) -> (r: Vec<TrayAction>)
    ensures
        r@.map_values(|a: TrayAction| a@) == change_actions(change),
{
    let mut r: Vec<TrayAction> = Vec::new();
    match change {
        SourceChange::MicOn => {
            r.push(TrayAction::TickMic(true));
            r.push(TrayAction::StopAudio);
        },
        SourceChange::MicOff => {
            r.push(TrayAction::TickMic(false));
        },
        SourceChange::File => {
            r.push(TrayAction::StopAudio);
        },
        SourceChange::Other => {},
    }
    assert(r@.map_values(|a: TrayAction| a@) =~= change_actions(change));
    r
}

/// Tells what is to be done, in order, once system audio was stopped on a change of the
/// sound source, where `ran` is whether there was anything to stop.
pub fn takeover_done(ran: bool) -> (r: Vec<TrayAction>)
    ensures
        r@.map_values(|a: TrayAction| a@) == stop_actions(ran),
{
    let mut r: Vec<TrayAction> = Vec::new();
    if ran {
        r.push(TrayAction::UntickAudio);
        r.push(TrayAction::Emit(FrontendEvent::SystemAudio(false)));
    }
    assert(r@.map_values(|a: TrayAction| a@) =~= stop_actions(ran));
    r
}

/// All that a change of the sound source brings about, in order, where `ran` is whether
/// system audio ran.
pub open spec fn change_effects(change: SourceChange, ran: bool) -> Seq<TrayActionView> {
    if takes_over(change) {
        change_actions(change) + stop_actions(ran)
    } else {
        change_actions(change)
    }
}

/// A change stops system audio just where it takes over, and at most once. The microphone
/// is ticked before the stop; the system audio tick goes after it, and before that is
/// announced.
pub proof fn law_takeover_is_in_order(change: SourceChange, ran: bool, i: int, j: int)
    requires
        0 <= i < change_effects(change, ran).len(),
        0 <= j < change_effects(change, ran).len(),
        change_effects(change, ran)[i] is StopAudio,
    ensures
        takes_over(change),
        change_effects(change, ran)[j] is TickMic ==> j < i,
        change_effects(change, ran)[j] is StopAudio ==> j == i,
        change_effects(change, ran)[j] is UntickAudio ==> ran && j == i + 1,
        change_effects(change, ran)[j] is Emit ==> ran && j == i + 2,
{
}

/// A tray menu together with what it controls.
pub struct Tray<H> {
    pub platform: Platform,
    pub audio: SysAudioState<H>,
    pub audio_tick: bool,
    pub mic_tick: bool,
    /// How many times it is still to be announced that system audio is on.
    pub to_say_on: nat,
    /// How many times it is still to be announced that system audio is off.
    pub to_say_off: nat,
    /// What was announced and has not reached the tick yet, the oldest first.
    pub announced: Seq<bool>,
    /// How many captures have ended, where it is still open whether a restart is due.
    pub ended: nat,
    /// How many of them are due a restart, and wait for the delay before it.
    pub waiting: nat,
    /// How many of them were found to be wanted still, and are about to be restarted.
    pub restarting: nat,
}

/// Something that happens to a tray. A `launch` is how a launch goes, if one is needed.
pub enum TrayStep<H> {
    /// The user clicks the system audio item. The click itself turns the tick.
    AudioClick { launch: Launch<H> },
    /// System audio is started without a click.
    Autostart { launch: Launch<H> },
    /// The pages change their sound source.
    SourceMoved { change: SourceChange },
    /// The capture of generation `gen` ends.
    CaptureEnded { gen: u64 },
    /// It is looked whether a capture that has ended is due a restart, this long after its
    /// start.
    EndJudged { secs: u64, nanos: u32, message: Seq<char> },
    /// The delay before a restart is over, and it is looked whether one is wanted.
    RestartDue { message: Seq<char> },
    /// A restart that is wanted is made.
    RestartMade { launch: Launch<H>, message: Seq<char> },
    /// An announcement is made, which may be later than the change that it is about.
    Said { on: bool },
    /// The oldest announcement that was made reaches the tick.
    TickSet,
}

/// The JSON text of a boolean payload.
pub open spec fn flag_json(on: bool) -> Seq<char> {
    if on {
        "true"@
    } else {
        "false"@
    }
}

impl<H> Tray<H> {
    /// The tray with one more announcement to make.
    pub open spec fn to_say(self, on: bool) -> Self {
        if on {
            Tray { to_say_on: self.to_say_on + 1, ..self }
        } else {
            Tray { to_say_off: self.to_say_off + 1, ..self }
        }
    }

    /// The tray when an event is to be broadcast. Of interest here is the one that
    /// announces system audio: the tray listens for it and sets the tick by its payload.
    pub open spec fn heard(self, event: EventView) -> Self {
        match event {
            EventView::SystemAudio(on) => self.to_say(tick_in(flag_json(on))),
            _ => self,
        }
    }

    /// The tray when several events are to be broadcast.
    pub open spec fn heard_all(self, events: Seq<EventView>) -> Self
        decreases events.len(),
    {
        if events.len() == 0 {
            self
        } else {
            self.heard_all(events.drop_last()).heard(events.last())
        }
    }

    /// The tray after an action.
    pub open spec fn done(self, action: TrayActionView) -> Self {
        match action {
            TrayActionView::TickMic(on) => Tray { mic_tick: on, ..self },
            TrayActionView::StopAudio => Tray { audio: self.audio.stopped(self.platform), ..self },
            TrayActionView::UntickAudio => Tray { audio_tick: false, ..self },
            TrayActionView::Emit(event) => self.heard(event),
        }
    }

    /// The tray after several actions, in their order.
    pub open spec fn done_all(self, actions: Seq<TrayActionView>) -> Self
        decreases actions.len(),
    {
        if actions.len() == 0 {
            self
        } else {
            self.done_all(actions.drop_last()).done(actions.last())
        }
    }

    /// Whether a stop would find anything to stop.
    pub open spec fn can_stop(self) -> bool {
        self.platform != Platform::Other && self.audio.session is Some
    }

    /// The message with which a start of system audio fails, if it does.
    pub open spec fn failure(self, launch: Launch<H>) -> Option<Seq<char>> {
        start_failure(self.audio, self.platform, launch)
    }

    /// The tray after a start of system audio, before anything is announced.
    pub open spec fn started(self, launch: Launch<H>) -> Self {
        Tray { audio: after_start(self.audio, self.platform, launch), ..self }
    }

    /// The tray after `step`.
    pub open spec fn after(self, step: TrayStep<H>) -> Self {
        match step {
            TrayStep::AudioClick { launch } => if self.audio_tick {
                Tray { audio: self.audio.stopped(self.platform), audio_tick: false, ..self }.done_all(
                    reply_actions(false, None),
                )
            } else {
                Tray { audio_tick: true, ..self.started(launch) }.done_all(
                    reply_actions(true, self.failure(launch)),
                )
            },
            TrayStep::Autostart { launch } => if self.failure(launch) is None {
                self.started(launch).heard(EventView::SystemAudio(true))
            } else {
                self.started(launch)
            },
            TrayStep::SourceMoved { change } => self.done_all(
                change_effects(change, self.can_stop()),
            ),
            TrayStep::CaptureEnded { gen } => if self.audio.runs(gen) {
                Tray { audio: self.audio.finished(gen), ended: self.ended + 1, ..self }
            } else {
                self
            },
            TrayStep::EndJudged { secs, nanos, message } => {
                let over = Tray { ended: (self.ended - 1) as nat, ..self };
                if self.ended == 0 {
                    self
                } else if is_due(self.audio.desired, secs, nanos) {
                    Tray { waiting: self.waiting + 1, ..over }
                } else {
                    over.heard_all(end_report(false, message))
                }
            },
            TrayStep::RestartDue { message } => {
                let over = Tray { waiting: (self.waiting - 1) as nat, ..self };
                if self.waiting == 0 {
                    self
                } else if self.audio.desired {
                    Tray { restarting: self.restarting + 1, ..over }
                } else {
                    over.heard_all(end_report(false, message))
                }
            },
            TrayStep::RestartMade { launch, message } => {
                let over = Tray { restarting: (self.restarting - 1) as nat, ..self };
                if self.restarting == 0 {
                    self
                } else {
                    over.started(launch).heard_all(
                        end_report(self.failure(launch) is None, message),
                    )
                }
            },
            TrayStep::Said { on } => if on && self.to_say_on > 0 {
                Tray {
                    to_say_on: (self.to_say_on - 1) as nat,
                    announced: self.announced.push(true),
                    ..self
                }
            } else if !on && self.to_say_off > 0 {
                Tray {
                    to_say_off: (self.to_say_off - 1) as nat,
                    announced: self.announced.push(false),
                    ..self
                }
            } else {
                self
            },
            TrayStep::TickSet => if self.announced.len() == 0 {
                self
            } else {
                Tray {
                    audio_tick: self.announced.first(),
                    announced: self.announced.drop_first(),
                    ..self
                }
            },
        }
    }

    /// The tray after `steps`, in their order.
    pub open spec fn after_all(self, steps: Seq<TrayStep<H>>) -> Self
        decreases steps.len(),
    {
        if steps.len() == 0 {
            self
        } else {
            self.after_all(steps.drop_last()).after(steps.last())
        }
    }

    /// The state that the system audio tick will have once all that was announced is set.
    pub open spec fn coming_tick(self) -> bool {
        if self.announced.len() == 0 {
            self.audio_tick
        } else {
            self.announced.last()
        }
    }

    /// Whether the tick is there, or on its way, or still to be announced.
    pub open spec fn promised(self) -> bool {
        self.coming_tick() || self.to_say_on > 0
    }

    /// How many restarts are on their way, or may be.
    pub open spec fn restarts(self) -> nat {
        self.ended + self.waiting + self.restarting
    }

    /// Whether a restart is on its way that is wanted as things stand.
    pub open spec fn restart_expected(self) -> bool {
        self.restarts() > 0 && self.audio.desired
    }

    /// Whether nothing is on its way: no restart, and no announcement.
    pub open spec fn settled(self) -> bool {
        &&& self.restarts() == 0
        &&& self.to_say_on == 0 && self.to_say_off == 0 && self.announced.len() == 0
    }

    /// Whether `step` crosses something that is on its way. It does so
    /// - when a start or a restart fails, and so leaves system audio wanted, while another
    ///   restart is on its way that no tick is promised for;
    /// - when a restart is made although the tick has gone since it was found to be wanted;
    /// - when an announcement is made too late: that system audio is off, as the last word,
    ///   while a session runs or a restart is expected; or that it is on, as the last
    ///   word, while nothing runs and no restart is on its way.
    pub open spec fn crosses(self, step: TrayStep<H>) -> bool {
        match step {
            TrayStep::AudioClick { launch } => !self.audio_tick && self.failure(launch) is Some
                && self.restarts() > 0 && !self.promised(),
            TrayStep::Autostart { launch } => self.failure(launch) is Some && self.restarts() > 0
                && !self.promised(),
            TrayStep::SourceMoved { .. } => false,
            TrayStep::CaptureEnded { .. } => false,
            TrayStep::EndJudged { .. } => false,
            TrayStep::RestartDue { .. } => false,
            TrayStep::RestartMade { launch, .. } => self.restarting > 0 && !self.promised() && (
            self.failure(launch) is Some ==> self.restarts() > 1),
            TrayStep::Said { on } => if on {
                self.to_say_on > 0 && self.to_say_off == 0 && self.audio.session is None
                    && self.restarts() == 0
            } else {
                self.to_say_off > 0 && self.to_say_on == 0 && (self.audio.session is Some
                    || self.restart_expected())
            },
            TrayStep::TickSet => false,
        }
    }

    /// The tick is promised whenever a session runs, and whenever a restart is expected; it
    /// does not come to stay without either. What runs is wanted. Nothing ever runs where
    /// there is no capture.
    pub open spec fn steady(self) -> bool {
        &&& self.audio.session is Some ==> self.promised() && self.audio.desired
        &&& self.restart_expected() ==> self.promised()
        &&& self.coming_tick() && self.restarts() == 0 && self.to_say_off == 0
            ==> self.audio.session is Some
        &&& self.platform == Platform::Other ==> self.audio.session is None && self.restarts() == 0
    }
}

/// The tray hears what is announced.
proof fn lemma_hears<H>(tray: Tray<H>, on: bool)
    ensures
        tray.heard(EventView::SystemAudio(on)) == tray.to_say(on),
{
    reveal_strlit("true");
    reveal_strlit("false");
    assert("true"@.len() == 4);
    assert("false"@.len() == 5);
}

/// The report of an end announces that the tick goes; where there is nothing to report,
/// the tray stays as it is.
proof fn lemma_hears_report<H>(tray: Tray<H>, message: Seq<char>)
    ensures
        tray.heard_all(end_report(false, message)) == tray.to_say(false),
        tray.heard_all(end_report(true, message)) == tray,
{
    let events = end_report(false, message);
    assert(events.drop_last() =~= seq![EventView::SystemAudio(false)]);
    assert(seq![EventView::SystemAudio(false)].drop_last() =~= Seq::<EventView>::empty());
    reveal_with_fuel(Tray::heard_all, 3);
    lemma_hears(tray, false);
}

/// What the reply to a click does.
proof fn lemma_reply<H>(tray: Tray<H>, on: bool, failure: Option<Seq<char>>)
    ensures
        tray.done_all(reply_actions(on, failure)) == (if failure is None {
            tray.to_say(on)
        } else {
            Tray { audio_tick: false, ..tray }
        }),
{
    let actions = reply_actions(on, failure);
    reveal_with_fuel(Tray::done_all, 3);
    lemma_hears(tray, on);
    if failure is None {
        assert(actions.drop_last() =~= Seq::<TrayActionView>::empty());
    } else {
        assert(actions.drop_last() =~= seq![TrayActionView::UntickAudio]);
        assert(seq![TrayActionView::UntickAudio].drop_last() =~= Seq::<TrayActionView>::empty());
    }
}

/// What a change of the sound source does.
proof fn lemma_change<H>(tray: Tray<H>, change: SourceChange)
    ensures
        ({
            let after = tray.done_all(change_effects(change, tray.can_stop()));
            let mic_tick = match change {
                SourceChange::MicOn => true,
                SourceChange::MicOff => false,
                _ => tray.mic_tick,
            };
            after == (if !takes_over(change) {
                Tray { mic_tick, ..tray }
            } else if tray.can_stop() {
                Tray {
                    mic_tick,
                    audio: tray.audio.stopped(tray.platform),
                    audio_tick: false,
                    ..tray
                }.to_say(false)
            } else {
                Tray { mic_tick, audio: tray.audio.stopped(tray.platform), ..tray }
            })
        }),
{
    let actions = change_effects(change, tray.can_stop());
    let unticked = Tray {
        mic_tick: if change == SourceChange::MicOn {
            true
        } else {
            tray.mic_tick
        },
        audio: tray.audio.stopped(tray.platform),
        audio_tick: false,
        ..tray
    };
    lemma_hears(unticked, false);
    reveal_with_fuel(Tray::done_all, 5);
    if takes_over(change) {
        let n = change_actions(change).len() as int;
        assert(actions.take(n) =~= change_actions(change));
        if tray.can_stop() {
            assert(actions.drop_last().drop_last() =~= change_actions(change));
            assert(actions.drop_last().last() is UntickAudio);
        } else {
            assert(actions =~= change_actions(change));
        }
        if change == SourceChange::MicOn {
            assert(change_actions(change).drop_last() =~= seq![TrayActionView::TickMic(true)]);
            assert(seq![TrayActionView::TickMic(true)].drop_last() =~= Seq::<
                TrayActionView,
            >::empty());
        } else {
            assert(change_actions(change).drop_last() =~= Seq::<TrayActionView>::empty());
        }
    } else if change == SourceChange::MicOff {
        assert(actions.drop_last() =~= Seq::<TrayActionView>::empty());
    }
}

/// Every step that crosses nothing keeps a tray steady.
proof fn lemma_step_is_steady<H>(tray: Tray<H>, step: TrayStep<H>)
    requires
        tray.steady(),
        !tray.crosses(step),
    ensures
        tray.after(step).steady(),
{
    match step {
        TrayStep::AudioClick { launch } => {
            if tray.audio_tick {
                lemma_reply(
                    Tray {
                        audio: tray.audio.stopped(tray.platform),
                        audio_tick: false,
                        ..tray
                    },
                    false,
                    None,
                );
            } else {
                lemma_reply(
                    Tray { audio_tick: true, ..tray.started(launch) },
                    true,
                    tray.failure(launch),
                );
            }
        },
        TrayStep::Autostart { launch } => {
            lemma_hears(tray.started(launch), true);
        },
        TrayStep::SourceMoved { change } => {
            lemma_change(tray, change);
        },
        TrayStep::CaptureEnded { .. } => {},
        TrayStep::EndJudged { message, .. } => {
            lemma_hears_report(Tray { ended: (tray.ended - 1) as nat, ..tray }, message);
        },
        TrayStep::RestartDue { message } => {
            lemma_hears_report(Tray { waiting: (tray.waiting - 1) as nat, ..tray }, message);
        },
        TrayStep::RestartMade { launch, message } => {
            let over = Tray { restarting: (tray.restarting - 1) as nat, ..tray };
            lemma_hears_report(over.started(launch), message);
        },
        TrayStep::Said { .. } => {},
        TrayStep::TickSet => {},
    }
}

/// The tick follows the session. Take a tray with nothing running and no tick, and let
/// any number of things happen to it: clicks, starts without a click, changes of the
/// sound source, captures that end and are found to be due a restart or not, restarts
/// that are found to be wanted and are made, announcements that are made some time after the change that they are about, and reach
/// the tick later still. Then, whenever nothing is on its way, the system audio tick is
/// there if and only if a session runs. Left out are steps that cross something that is on
/// its way ([`Tray::crosses`]): such as the report that a session has ended, made when the
/// next one has already started and has been announced.
pub proof fn law_tick_follows_session<H>(tray: Tray<H>, steps: Seq<TrayStep<H>>)
    requires
        tray.audio.session is None,
        tray.settled(),
        !tray.audio_tick,
        forall|i: int|
            0 <= i < steps.len() ==> !tray.after_all(steps.take(i)).crosses(#[trigger] steps[i]),
    ensures
        tray.after_all(steps).steady(),
        tray.after_all(steps).settled() ==> (tray.after_all(steps).audio_tick <==> tray.after_all(
            steps,
        ).audio.session is Some),
    decreases steps.len(),
{
    if steps.len() > 0 {
        let n = steps.len() - 1;
        let earlier = steps.drop_last();
        assert forall|i: int| 0 <= i < earlier.len() implies !tray.after_all(
            earlier.take(i),
        ).crosses(#[trigger] earlier[i]) by {
            assert(earlier[i] == steps[i]);
            assert(earlier.take(i) =~= steps.take(i));
        }
        law_tick_follows_session(tray, earlier);
        assert(steps.take(n) =~= earlier);
        assert(steps[n] == steps.last());
        lemma_step_is_steady(tray.after_all(earlier), steps.last());
    }
}

/// The microphone or a file never plays over system audio: once either has taken over,
/// nothing is captured, and a restart that waits is not wanted.
pub proof fn law_sources_exclude_each_other<H>(tray: Tray<H>, change: SourceChange)
    requires
        tray.platform != Platform::Other,
        takes_over(change),
    ensures
        tray.after(TrayStep::SourceMoved { change }).audio.session is None,
        !tray.after(TrayStep::SourceMoved { change }).audio.desired,
{
    lemma_change(tray, change);
}

/// The tick is set by what is announced and by nothing else: it takes the value of every
/// flag that is announced, and any other payload takes it away.
pub proof fn law_tick_takes_the_flag(on: bool, payload: Seq<char>)
    ensures
        tick_in(flag_json(on)) == on,
        tick_in(payload) <==> payload == seq!['t', 'r', 'u', 'e'],
        flag_json(false) == seq!['f', 'a', 'l', 's', 'e'],
{
    reveal_strlit("true");
    reveal_strlit("false");
    assert("true"@ =~= seq!['t', 'r', 'u', 'e']);
    assert("false"@ =~= seq!['f', 'a', 'l', 's', 'e']);
    assert("true"@.len() == 4);
    assert("false"@.len() == 5);
}

/// A change is read by its name, with any number of quotes on both sides of it; what has
/// none of the three names is of no concern.
pub proof fn law_changes_are_read_by_name(left: Seq<char>, name: Seq<char>, right: Seq<char>)
    requires
        forall|i: int| 0 <= i < left.len() ==> #[trigger] left[i] == '"',
        forall|i: int| 0 <= i < right.len() ==> #[trigger] right[i] == '"',
        name.len() > 0 ==> name.first() != '"' && name.last() != '"',
    ensures
        change_in(left + name + right) is MicOn <==> name == "mic-on"@,
        change_in(left + name + right) is MicOff <==> name == "mic-off"@,
        change_in(left + name + right) is File <==> name == "file"@,
{
    law_margin_comes_off(left, name, right, Margin::Quotes);
    reveal_strlit("mic-on");
    reveal_strlit("mic-off");
    reveal_strlit("file");
    assert("mic-on"@.len() == 6);
    assert("mic-off"@.len() == 7);
    assert("file"@.len() == 4);
}

/// System audio is stopped by a change if and only if the microphone goes on or a file is
/// played; the microphone tick is set if and only if it goes on, and taken away if and only
/// if it goes off. Nothing else follows the change itself.
pub proof fn law_changes_do_their_part(change: SourceChange)
    ensures
        change_actions(change).contains(TrayActionView::StopAudio) <==> (change is MicOn || change
            is File),
        change_actions(change).contains(TrayActionView::TickMic(true)) <==> change is MicOn,
        change_actions(change).contains(TrayActionView::TickMic(false)) <==> change is MicOff,
        !change_actions(change).contains(TrayActionView::UntickAudio),
        change_actions(change).len() == (if change is MicOn {
            2
        } else if change is Other {
            0
        } else {
            1int
        }),
{
    let actions = change_actions(change);
    if change is MicOn {
        assert(actions[0] == TrayActionView::TickMic(true));
        assert(actions[1] == TrayActionView::StopAudio);
    } else if change is MicOff {
        assert(actions[0] == TrayActionView::TickMic(false));
    } else if change is File {
        assert(actions[0] == TrayActionView::StopAudio);
    }
}

/// A change reads the same with the quotes of a JSON string as without them.
pub proof fn law_quotes_do_not_matter(state: Seq<char>)
    requires
        state.len() > 0 ==> state.first() != '"' && state.last() != '"',
    ensures
        change_in(seq!['"'] + state + seq!['"']) == change_in(state),
{
    law_quotes_come_off(state);
}

} // verus!
