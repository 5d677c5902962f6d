//! Loopback capture: what is asked of the audio device, and in which order, and how
//! its packets are read.
//!
//! The device itself is driven from outside. Each [`CaptureState`] asks for one thing
//! by its [`Request`]; what came of it is handed to [`CaptureState::step`], which
//! gives the next state.

use vstd::prelude::*;
use vstd::string::*;

use crate::text::{decimal, decimal_text};

verus! {

/// The sample width that is understood, in bits.
pub const SAMPLE_BITS: u16 = 32;

/// The length of the device buffer, in units of 100 ns.
pub const BUFFER_DURATION: i64 = 2_000_000;

/// How long to sleep when no packet is ready, in milliseconds.
pub const IDLE_SLEEP_MS: u64 = 5;

/// The flag of a packet that is to be taken as silence, whatever it holds.
pub const SILENT_FLAG: u32 = 2;

/// The message for a sample width that is not understood.
pub open spec fn bit_depth_message(bits: u16) -> Seq<char> {
    "不支持的采样位深 "@ + decimal(bits as nat) + "（期望 32-bit float）"@
}

/// What is wrong with a sample width, if anything is.
pub open spec fn bit_depth_problem(bits: u16) -> Option<Seq<char>> {
    if bits == SAMPLE_BITS {
        None
    } else {
        Some(bit_depth_message(bits))
    }
}

/// Samples of 32 bits are understood and no others. The message for the others names the
/// width, whatever it is.
pub proof fn law_only_32_bits_are_understood(bits: u16)
    ensures
        bit_depth_problem(bits) is None <==> bits == 32,
        bits != 32 ==> bit_depth_problem(bits) == Some(
            "不支持的采样位深 "@ + decimal(bits as nat) + "（期望 32-bit float）"@,
        ),
{
}

/// Accepts the device's sample width, or says why not.
pub fn check_bit_depth(bits: u16) -> (r: Result<(), String>)
    ensures
        match r {
            Ok(()) => bit_depth_problem(bits) is None,
            Err(message) => bit_depth_problem(bits) == Some(message@),
        },
{
    if bits == SAMPLE_BITS {
        Ok(())
    } else {
        let mut message = "不支持的采样位深 ".to_owned();
        message.append(decimal_text(bits as usize).as_str());
        message.append("（期望 32-bit float）");
        Err(message)
    }
}

/// What a packet holds.
#[derive(Clone, Copy, Debug, PartialEq, Eq, Structural)]
pub enum PacketContent {
    /// Silence: as many zero samples as the packet has frames.
    Silence,
    /// The samples of all channels, frame by frame.
    Interleaved,
    /// Nothing that could be read.
    Absent,
}

/// What a packet with these flags holds, which may have come with data or without.
pub open spec fn content_of(flags: u32, has_data: bool) -> PacketContent {
    if flags & SILENT_FLAG != 0 {
        PacketContent::Silence
    } else if has_data {
        PacketContent::Interleaved
    } else {
        PacketContent::Absent
    }
}

/// A packet is silent if and only if the second lowest of its flags is set, whatever the
/// others are and whether it came with data or not; any other holds data if and only if it
/// came with some.
pub proof fn law_the_silent_flag_decides(flags: u32, has_data: bool)
    ensures
        content_of(flags, has_data) is Silence <==> flags / 2 % 2 == 1,
        content_of(flags, has_data) is Interleaved <==> flags / 2 % 2 == 0 && has_data,
        content_of(flags, has_data) is Absent <==> flags / 2 % 2 == 0 && !has_data,
{
    assert(flags & 2 != 0 <==> flags / 2 % 2 == 1) by (bit_vector);
}

/// Tells what a packet holds, from its flags and from whether it came with data.
pub fn packet_content(flags: u32, has_data: bool) -> (r: PacketContent)
    ensures
        r == content_of(flags, has_data),
{
    if flags & SILENT_FLAG != 0 {
        PacketContent::Silence
    } else if has_data {
        PacketContent::Interleaved
    } else {
        PacketContent::Absent
    }
}

/// The samples of a silent packet: one zero for each frame.
pub open spec fn zeros(frames: nat) -> Seq<u32> {
    Seq::new(frames, |i: int| 0u32)
}

/// Gives the samples of a silent packet.
pub fn silence(frames: usize) -> (r: Vec<u32>)
    ensures
        r@ == zeros(frames as nat),
{
    let mut r: Vec<u32> = Vec::new();
    r.resize(frames, 0);
    assert(r@ =~= zeros(frames as nat));
    r
}

/// The samples of one frame: one for each channel.
pub open spec fn frame_samples(samples: Seq<u32>, channels: int, f: int) -> Seq<u32> {
    samples.subrange(f * channels, (f + 1) * channels)
}

/// A frame holds one sample for each channel, in the order of the channels, and the frames
/// follow one another.
pub proof fn law_frames_hold_their_samples(samples: Seq<u32>, channels: int, f: int, c: int)
    requires
        0 <= f,
        0 <= c < channels,
        (f + 1) * channels <= samples.len(),
    ensures
        frame_samples(samples, channels, f).len() == channels,
        frame_samples(samples, channels, f)[c] == samples[f * channels + c],
{
    assert((f + 1) * channels == f * channels + channels && 0 <= f * channels) by (nonlinear_arith)
        requires
            0 <= f,
            0 <= channels,
    ;
}

/// Takes interleaved samples apart into frames of one sample per channel. Each frame
/// is then mixed down to one sample.
pub fn split_frames(samples: &[u32], frames: usize, channels: usize) -> (r: Vec<Vec<u32>>)
    requires
        samples@.len() == frames * channels,
    ensures
        r@.map_values(|f: Vec<u32>| f@) == Seq::new(
            frames as nat,
            |f: int| frame_samples(samples@, channels as int, f),
        ),
{
    let len: usize = samples.len();
    let mut r: Vec<Vec<u32>> = Vec::new();
    let mut at: usize = 0;
    while r.len() < frames
        invariant
            len == samples@.len(),
            samples@.len() == frames * channels,
            r@.len() <= frames,
            at == r@.len() * channels,
            forall|f: int|
                0 <= f < r@.len() ==> (#[trigger] r@[f])@ == frame_samples(
                    samples@,
                    channels as int,
                    f,
                ),
        decreases frames - r@.len(),
    {
        let ghost n = r@.len() as int;
        assert((n + 1) * channels <= frames * channels) by (nonlinear_arith)
            requires
                n < frames,
                0 <= channels,
        ;
        assert((n + 1) * channels == n * channels + channels) by (nonlinear_arith);
        let mut frame: Vec<u32> = Vec::with_capacity(channels);
        let mut c: usize = 0;
        while c < channels
            invariant
                len == samples@.len(),
                samples@.len() == frames * channels,
                at == n * channels,
                (n + 1) * channels == n * channels + channels,
                (n + 1) * channels <= frames * channels,
                c <= channels,
                frame@ == samples@.subrange(at as int, at + c),
            decreases channels - c,
        {
            frame.push(samples[at + c]);
            c = c + 1;
            assert(frame@ =~= samples@.subrange(at as int, at + c));
        }
        r.push(frame);
        at = at + channels;
    }
    assert(r@.map_values(|f: Vec<u32>| f@) =~= Seq::new(
        frames as nat,
        |f: int| frame_samples(samples@, channels as int, f),
    ));
    r
}

/// Whether `sample` is what `mix` makes of the samples of one frame.
pub open spec fn mixed_from<F: Fn(&Vec<u32>) -> u32>(
    mix: F,
    frame: Seq<u32>,
    sample: u32,
) -> bool {
    exists|v: &Vec<u32>| v@ == frame && #[trigger] call_ensures(mix, (v,), sample)
}

/// A packet as it is read from the device, with its samples in an `S`: those of all
/// channels, frame by frame. They count only where the packet holds interleaved data.
#[derive(Clone, Copy, Debug, PartialEq, Eq)]
pub struct Packet<S> {
    pub flags: u32,
    /// Whether the packet came with data.
    pub has_data: bool,
    pub frames: u32,
    pub samples: S,
}

impl<'a> View for Packet<&'a [u32]> {
    type V = Packet<Seq<u32>>;

    open spec fn view(&self) -> Packet<Seq<u32>> {
        Packet {
            flags: self.flags,
            has_data: self.has_data,
            frames: self.frames,
            samples: self.samples@,
        }
    }
}

impl Packet<Seq<u32>> {
    /// What the packet holds.
    pub open spec fn content(self) -> PacketContent {
        content_of(self.flags, self.has_data)
    }

    /// Whether interleaved data has one sample for each channel of each frame.
    pub open spec fn complete(self, channels: nat) -> bool {
        self.content() == PacketContent::Interleaved ==> self.samples.len() == self.frames * channels
    }

    /// The mono samples of the packet, where `mean` mixes the samples of one frame.
    pub open spec fn mono(self, channels: nat, mean: spec_fn(Seq<u32>) -> u32) -> Seq<u32> {
        match self.content() {
            PacketContent::Silence => zeros(self.frames as nat),
            PacketContent::Interleaved => Seq::new(
                self.frames as nat,
                |f: int| mean(frame_samples(self.samples, channels as int, f)),
            ),
            PacketContent::Absent => Seq::empty(),
        }
    }
}

/// Whether `chunk` holds the mono samples of `packet`, one for each frame: zeros for
/// silence; of data, what `mix` makes of the samples of the frame, one per channel; and
/// none at all where nothing could be read.
pub open spec fn is_mono<F: Fn(&Vec<u32>) -> u32>(
    mix: F,
    packet: Packet<Seq<u32>>,
    channels: nat,
    chunk: Seq<u32>,
) -> bool {
    match packet.content() {
        PacketContent::Silence => chunk == zeros(packet.frames as nat),
        PacketContent::Interleaved => chunk.len() == packet.frames && forall|f: int|
            0 <= f < packet.frames ==> mixed_from(
                mix,
                frame_samples(packet.samples, channels as int, f),
                #[trigger] chunk[f],
            ),
        PacketContent::Absent => chunk == Seq::<u32>::empty(),
    }
}

/// Whether `mix` takes every frame of one sample per channel.
pub open spec fn mixes<F: Fn(&Vec<u32>) -> u32>(mix: F, channels: nat) -> bool {
    forall|frame: &Vec<u32>| frame@.len() == channels ==> #[trigger] call_requires(mix, (frame,))
}

/// Whether `mix` gives `mean` of every frame.
pub open spec fn computes<F: Fn(&Vec<u32>) -> u32>(
    mix: F,
    mean: spec_fn(Seq<u32>) -> u32,
) -> bool {
    forall|frame: &Vec<u32>, sample: u32| #[trigger]
        call_ensures(mix, (frame,), sample) ==> sample == mean(frame@)
}

/// The mono samples that a packet is handed on as.
pub fn mono_chunk<F: Fn(&Vec<u32>) -> u32>(
    packet: Packet<&[u32]>,
    channels: usize,
    mix: &F,
) -> (r: Vec<u32>)
    requires
        packet@.complete(channels as nat),
        mixes(*mix, channels as nat),
    ensures
        is_mono(*mix, packet@, channels as nat, r@),
{
    match packet_content(packet.flags, packet.has_data) {
        PacketContent::Silence => silence(packet.frames as usize),
        PacketContent::Interleaved => {
            let frames: usize = packet.frames as usize;
            let split: Vec<Vec<u32>> = split_frames(packet.samples, frames, channels);
            let ghost views = split@.map_values(|f: Vec<u32>| f@);
            assert(views.len() == frames);
            let mut r: Vec<u32> = Vec::new();
            while r.len() < frames
                invariant
                    packet.samples@.len() == frames * channels,
                    mixes(*mix, channels as nat),
                    split@.len() == frames,
                    views == split@.map_values(|f: Vec<u32>| f@),
                    views == Seq::new(
                        frames as nat,
                        |f: int| frame_samples(packet.samples@, channels as int, f),
                    ),
                    r@.len() <= frames,
                    forall|f: int|
                        0 <= f < r@.len() ==> call_ensures(*mix, (&split@[f],), #[trigger] r@[f]),
                decreases frames - r@.len(),
            {
                let i: usize = r.len();
                assert(views[i as int] == split@[i as int]@);
                assert(split@[i as int]@.len() == channels) by {
                    assert((i + 1) * channels <= frames * channels && (i + 1) * channels == i
                        * channels + channels && 0 <= i * channels) by (nonlinear_arith)
                        requires
                            0 <= i < frames,
                            0 <= channels,
                    ;
                }
                let mixed: u32 = mix(&split[i]);
                r.push(mixed);
            }
            assert forall|f: int| 0 <= f < frames implies mixed_from(
                *mix,
                frame_samples(packet.samples@, channels as int, f),
                #[trigger] r@[f],
            ) by {
                assert(views[f] == split@[f]@);
                assert(call_ensures(*mix, (&split@[f],), r@[f]));
            }
            r
        },
        PacketContent::Absent => Vec::new(),
    }
}

/// Where a capture stands: what it waits to learn. A packet on its way is held as a `C`,
/// its mono samples.
#[derive(Clone, Debug, PartialEq, Eq)]
pub enum CaptureState<C> {
    /// Whether it was told to stop.
    CheckingStop,
    /// Whether a first packet is ready.
    Polling,
    /// That it has slept, as no packet was.
    Sleeping,
    /// The packet that is ready.
    Reading,
    /// That the packet, which has this many frames, was handed on as this chunk.
    HandingOn { frames: u32, chunk: C },
    /// That the packet, which had this many frames, was given back.
    Releasing(u32),
    /// Whether a further packet is ready.
    Draining,
    /// Nothing: it was told to stop.
    Stopped,
    /// Nothing: the device failed.
    Failed,
}

/// What a capture asks for.
#[derive(Clone, Copy, Debug, PartialEq, Eq)]
pub enum Request<C> {
    /// Look at the stop flag.
    CheckStop,
    /// Ask the device for the size of the next packet.
    NextPacketSize,
    /// Sleep for [`IDLE_SLEEP_MS`].
    Sleep,
    /// Take the packet from the device.
    TakePacket,
    /// Hand this chunk on.
    HandOn(C),
    /// Give the packet of this many frames back to the device.
    ReleasePacket(u32),
    /// Stop the device and return.
    Finish,
    /// Return the error of the device; it is not stopped.
    Abort,
}

/// What came of a request.
#[derive(Clone, Copy, Debug, PartialEq, Eq)]
pub enum Answer<S> {
    /// Whether the stop flag is set.
    StopFlag(bool),
    /// The size of the next packet; zero if there is none.
    PacketSize(u32),
    Slept,
    /// This packet was taken.
    Taken(Packet<S>),
    /// Its samples were handed on.
    HandedOn,
    Released,
    /// The device reported an error.
    DeviceError,
}

impl View for CaptureState<Vec<u32>> {
    type V = CaptureState<Seq<u32>>;

    open spec fn view(&self) -> CaptureState<Seq<u32>> {
        match self {
            CaptureState::CheckingStop => CaptureState::CheckingStop,
            CaptureState::Polling => CaptureState::Polling,
            CaptureState::Sleeping => CaptureState::Sleeping,
            CaptureState::Reading => CaptureState::Reading,
            CaptureState::HandingOn { frames, chunk } => CaptureState::HandingOn {
                frames: *frames,
                chunk: chunk@,
            },
            CaptureState::Releasing(frames) => CaptureState::Releasing(*frames),
            CaptureState::Draining => CaptureState::Draining,
            CaptureState::Stopped => CaptureState::Stopped,
            CaptureState::Failed => CaptureState::Failed,
        }
    }
}

impl<'a> View for Request<&'a Vec<u32>> {
    type V = Request<Seq<u32>>;

    open spec fn view(&self) -> Request<Seq<u32>> {
        match self {
            Request::CheckStop => Request::CheckStop,
            Request::NextPacketSize => Request::NextPacketSize,
            Request::Sleep => Request::Sleep,
            Request::TakePacket => Request::TakePacket,
            Request::HandOn(chunk) => Request::HandOn(chunk@),
            Request::ReleasePacket(frames) => Request::ReleasePacket(*frames),
            Request::Finish => Request::Finish,
            Request::Abort => Request::Abort,
        }
    }
}

impl<'a> View for Answer<&'a [u32]> {
    type V = Answer<Seq<u32>>;

    open spec fn view(&self) -> Answer<Seq<u32>> {
        match self {
            Answer::StopFlag(set) => Answer::StopFlag(*set),
            Answer::PacketSize(size) => Answer::PacketSize(*size),
            Answer::Slept => Answer::Slept,
            Answer::Taken(packet) => Answer::Taken(packet@),
            Answer::HandedOn => Answer::HandedOn,
            Answer::Released => Answer::Released,
            Answer::DeviceError => Answer::DeviceError,
        }
    }
}

impl CaptureState<Seq<u32>> {
    /// What the state asks for.
    pub open spec fn asks(self) -> Request<Seq<u32>> {
        match self {
            CaptureState::CheckingStop => Request::CheckStop,
            CaptureState::Polling => Request::NextPacketSize,
            CaptureState::Sleeping => Request::Sleep,
            CaptureState::Reading => Request::TakePacket,
            CaptureState::HandingOn { chunk, .. } => Request::HandOn(chunk),
            CaptureState::Releasing(frames) => Request::ReleasePacket(frames),
            CaptureState::Draining => Request::NextPacketSize,
            CaptureState::Stopped => Request::Finish,
            CaptureState::Failed => Request::Abort,
        }
    }

    /// The state that an answer leads to, where `chunk` is what is made of the packet, if
    /// one was taken. An answer to something else than what was asked leads nowhere.
    pub open spec fn after(self, answer: Answer<Seq<u32>>, chunk: Seq<u32>) -> Self {
        match (self, answer) {
            (CaptureState::CheckingStop, Answer::StopFlag(set)) => if set {
                CaptureState::Stopped
            } else {
                CaptureState::Polling
            },
            (CaptureState::Polling, Answer::PacketSize(size)) => if size == 0 {
                CaptureState::Sleeping
            } else {
                CaptureState::Reading
            },
            (CaptureState::Sleeping, Answer::Slept) => CaptureState::CheckingStop,
            (CaptureState::Reading, Answer::Taken(packet)) => CaptureState::HandingOn {
                frames: packet.frames,
                chunk,
            },
            (
                CaptureState::HandingOn { frames, .. },
                Answer::HandedOn,
            ) => CaptureState::Releasing(frames),
            (CaptureState::Releasing(_), Answer::Released) => CaptureState::Draining,
            (CaptureState::Draining, Answer::PacketSize(size)) => if size == 0 {
                CaptureState::CheckingStop
            } else {
                CaptureState::Reading
            },
            (CaptureState::Polling, Answer::DeviceError) => CaptureState::Failed,
            (CaptureState::Reading, Answer::DeviceError) => CaptureState::Failed,
            (CaptureState::Releasing(_), Answer::DeviceError) => CaptureState::Failed,
            (CaptureState::Draining, Answer::DeviceError) => CaptureState::Failed,
            _ => self,
        }
    }

    /// The chunk that the state holds, if it holds one.
    pub open spec fn held(self) -> Seq<u32> {
        match self {
            CaptureState::HandingOn { chunk, .. } => chunk,
            _ => Seq::empty(),
        }
    }

    /// Whether `answer` leads to the state `next`. A packet that is taken is held as its
    /// mono samples.
    pub open spec fn leads_to<F: Fn(&Vec<u32>) -> u32>(
        self,
        answer: Answer<Seq<u32>>,
        channels: nat,
        mix: F,
        next: Self,
    ) -> bool {
        &&& next == self.after(answer, next.held())
        &&& match (self, answer) {
            (CaptureState::Reading, Answer::Taken(packet)) => is_mono(
                mix,
                packet,
                channels,
                next.held(),
            ),
            _ => true,
        }
    }
}

impl CaptureState<Vec<u32>> {
    /// A capture begins by looking at the stop flag.
    pub fn begin() -> (r: Self)
        ensures
            r@ == CaptureState::<Seq<u32>>::CheckingStop,
    {
        CaptureState::CheckingStop
    }

    /// Tells what the state asks for.
    pub fn request(&self) -> (r: Request<&Vec<u32>>)
        ensures
            r@ == self@.asks(),
    {
        match self {
            CaptureState::CheckingStop => Request::CheckStop,
            CaptureState::Polling => Request::NextPacketSize,
            CaptureState::Sleeping => Request::Sleep,
            CaptureState::Reading => Request::TakePacket,
            CaptureState::HandingOn { chunk, .. } => Request::HandOn(chunk),
            CaptureState::Releasing(frames) => Request::ReleasePacket(*frames),
            CaptureState::Draining => Request::NextPacketSize,
            CaptureState::Stopped => Request::Finish,
            CaptureState::Failed => Request::Abort,
        }
    }

    /// Goes on to the state that `answer` leads to. The samples of one frame, one per
    /// channel, are mixed down to one by `mix`.
    pub fn step<F: Fn(&Vec<u32>) -> u32>(
        self,
        answer: Answer<&[u32]>,
        channels: usize,
        mix: &F,
    ) -> (r: Self)
        requires
            answer matches Answer::Taken(packet) ==> packet@.complete(channels as nat),
            answer is Taken ==> mixes(*mix, channels as nat),
        ensures
            self@.leads_to(answer@, channels as nat, *mix, r@),
    {
        match answer {
            Answer::StopFlag(set) => match self {
                CaptureState::CheckingStop => if set {
                    CaptureState::Stopped
                } else {
                    CaptureState::Polling
                },
                _ => self,
            },
            Answer::PacketSize(size) => match self {
                CaptureState::Polling => if size == 0 {
                    CaptureState::Sleeping
                } else {
                    CaptureState::Reading
                },
                CaptureState::Draining => if size == 0 {
                    CaptureState::CheckingStop
                } else {
                    CaptureState::Reading
                },
                _ => self,
            },
            Answer::Slept => match self {
                CaptureState::Sleeping => CaptureState::CheckingStop,
                _ => self,
            },
            Answer::Taken(packet) => match self {
                CaptureState::Reading => CaptureState::HandingOn {
                    frames: packet.frames,
                    chunk: mono_chunk(packet, channels, mix),
                },
                _ => self,
            },
            Answer::HandedOn => match self {
                CaptureState::HandingOn { frames, .. } => CaptureState::Releasing(frames),
                _ => self,
            },
            Answer::Released => match self {
                CaptureState::Releasing(_) => CaptureState::Draining,
                _ => self,
            },
            Answer::DeviceError => match self {
                CaptureState::Polling => CaptureState::Failed,
                CaptureState::Reading => CaptureState::Failed,
                CaptureState::Releasing(_) => CaptureState::Failed,
                CaptureState::Draining => CaptureState::Failed,
                _ => self,
            },
        }
    }
}

/// Splitting loses nothing: the frames, one behind the other, are the samples.
pub proof fn law_frames_hold_all_samples(samples: Seq<u32>, frames: nat, channels: nat)
    requires
        samples.len() == frames * channels,
    ensures
        Seq::new(frames, |f: int| frame_samples(samples, channels as int, f)).flatten() == samples,
    decreases frames,
{
    let split = Seq::new(frames, |f: int| frame_samples(samples, channels as int, f));
    if frames == 0 {
        assert(split =~= Seq::<Seq<u32>>::empty());
        assert(split.flatten() =~= samples);
    } else {
        let c = channels as int;
        let rest = samples.skip(c);
        let less = (frames - 1) as nat;
        assert(frames * channels == less * channels + channels) by (nonlinear_arith)
            requires
                frames == less + 1,
        ;
        law_frames_hold_all_samples(rest, less, channels);
        let tail = Seq::new(less, |f: int| frame_samples(rest, c, f));
        assert forall|f: int| 0 <= f < less implies #[trigger] tail[f] =~= split.drop_first()[f] by {
            assert((f + 1) * c == f * c + c && (f + 2) * c == f * c + c + c && f * c + c <= less * c
                && 0 <= f * c) by (nonlinear_arith)
                requires
                    0 <= f < less,
                    0 <= c,
            ;
            assert(rest.subrange(f * c, (f + 1) * c) =~= samples.subrange((f + 1) * c, (f + 2) * c));
        }
        assert(split.drop_first() =~= tail);
        assert(0 * c == 0 && (0 + 1) * c == c) by (nonlinear_arith);
        assert(split.first() =~= samples.take(c));
        assert(split.flatten() =~= samples.take(c) + rest);
        assert(samples =~= samples.take(c) + rest);
    }
}

/// Whether a capture goes through `states`, by `answers`: it begins by looking at the stop
/// flag, and each answer leads from one state to the next.
pub open spec fn is_run<F: Fn(&Vec<u32>) -> u32>(
    states: Seq<CaptureState<Seq<u32>>>,
    answers: Seq<Answer<Seq<u32>>>,
    channels: nat,
    mix: F,
) -> bool {
    &&& states.len() == answers.len() + 1
    &&& states[0] == CaptureState::<Seq<u32>>::CheckingStop
    &&& forall|i: int|
        0 <= i < answers.len() ==> states[i].leads_to(
            #[trigger] answers[i],
            channels,
            mix,
            states[i + 1],
        )
}

/// The packets that a capture takes in its first `n` steps, in order.
pub open spec fn taken(
    states: Seq<CaptureState<Seq<u32>>>,
    answers: Seq<Answer<Seq<u32>>>,
    n: nat,
) -> Seq<Packet<Seq<u32>>>
    decreases n,
{
    if n == 0 {
        Seq::empty()
    } else {
        let before = taken(states, answers, (n - 1) as nat);
        match (states[n - 1], answers[n - 1]) {
            (CaptureState::Reading, Answer::Taken(packet)) => before.push(packet),
            _ => before,
        }
    }
}

/// The chunks that a capture hands on in its first `n` steps, in order.
pub open spec fn handed_on(
    states: Seq<CaptureState<Seq<u32>>>,
    answers: Seq<Answer<Seq<u32>>>,
    n: nat,
) -> Seq<Seq<u32>>
    decreases n,
{
    if n == 0 {
        Seq::empty()
    } else {
        let before = handed_on(states, answers, (n - 1) as nat);
        match (states[n - 1].asks(), answers[n - 1]) {
            (Request::HandOn(chunk), Answer::HandedOn) => before.push(chunk),
            _ => before,
        }
    }
}

/// The frame counts of the packets that a capture gives back in its first `n` steps, in
/// order.
pub open spec fn released(
    states: Seq<CaptureState<Seq<u32>>>,
    answers: Seq<Answer<Seq<u32>>>,
    n: nat,
) -> Seq<u32>
    decreases n,
{
    if n == 0 {
        Seq::empty()
    } else {
        let before = released(states, answers, (n - 1) as nat);
        match (states[n - 1].asks(), answers[n - 1]) {
            (Request::ReleasePacket(frames), Answer::Released) => before.push(frames),
            _ => before,
        }
    }
}

/// At any point of a capture, the chunks that were handed on are the mono samples of the
/// packets that were taken, each of its own packet, in order; and what was given back are
/// those packets, each with its own frame count. Every packet is handed on once, and then
/// given back once, before the next one is taken: at most one is out at any time. Only a
/// device error can leave the last one out, and even that one was handed on.
pub proof fn law_packets_are_handed_on_and_given_back<F: Fn(&Vec<u32>) -> u32>(
    states: Seq<CaptureState<Seq<u32>>>,
    answers: Seq<Answer<Seq<u32>>>,
    channels: nat,
    mix: F,
    n: nat,
)
    requires
        is_run(states, answers, channels, mix),
        n <= answers.len(),
    ensures
        ({
            let packets = taken(states, answers, n);
            let chunks = handed_on(states, answers, n);
            let back = released(states, answers, n);
            &&& chunks.len() <= packets.len()
            &&& back.len() <= chunks.len()
            &&& forall|k: int|
                0 <= k < chunks.len() ==> is_mono(mix, packets[k], channels, #[trigger] chunks[k])
            &&& forall|k: int| 0 <= k < back.len() ==> #[trigger] back[k] == packets[k].frames
            &&& match states[n as int] {
                CaptureState::HandingOn { frames, chunk } => packets.len() == chunks.len() + 1
                    && chunks.len() == back.len() && packets.last().frames == frames && is_mono(
                    mix,
                    packets.last(),
                    channels,
                    chunk,
                ),
                CaptureState::Releasing(frames) => packets.len() == chunks.len() && packets.len()
                    == back.len() + 1 && packets.last().frames == frames,
                CaptureState::Failed => packets.len() == chunks.len() && packets.len()
                    <= back.len() + 1,
                _ => packets.len() == chunks.len() && packets.len() == back.len(),
            }
        }),
    decreases n,
{
    if n > 0 {
        let m = (n - 1) as nat;
        law_packets_are_handed_on_and_given_back(states, answers, channels, mix, m);
        assert(states[m as int].leads_to(answers[m as int], channels, mix, states[n as int]));
    }
}

/// A capture that was told to stop has handed on every packet that it took, and nothing
/// else: the chunks are the mono samples of the packets, one chunk for each, in their
/// order, and each packet was given back with its own frame count. Here `mean` is what
/// `mix` computes of the samples of one frame.
pub proof fn law_capture_hands_on_all_it_takes<F: Fn(&Vec<u32>) -> u32>(
    states: Seq<CaptureState<Seq<u32>>>,
    answers: Seq<Answer<Seq<u32>>>,
    channels: nat,
    mix: F,
    mean: spec_fn(Seq<u32>) -> u32,
)
    requires
        is_run(states, answers, channels, mix),
        computes(mix, mean),
        states.last() is Stopped,
    ensures
        handed_on(states, answers, answers.len()) == taken(
            states,
            answers,
            answers.len(),
        ).map_values(|p: Packet<Seq<u32>>| p.mono(channels, mean)),
        released(states, answers, answers.len()) == taken(
            states,
            answers,
            answers.len(),
        ).map_values(|p: Packet<Seq<u32>>| p.frames),
{
    let n = answers.len();
    let packets = taken(states, answers, n);
    let chunks = handed_on(states, answers, n);
    let back = released(states, answers, n);
    law_packets_are_handed_on_and_given_back(states, answers, channels, mix, n);
    assert forall|k: int| 0 <= k < chunks.len() implies chunks[k] == packets[k].mono(
        channels,
        mean,
    ) by {
        lemma_mono_is_computed(mix, packets[k], channels, chunks[k], mean);
    }
    assert(chunks =~= packets.map_values(|p: Packet<Seq<u32>>| p.mono(channels, mean)));
    assert(back =~= packets.map_values(|p: Packet<Seq<u32>>| p.frames));
}

/// Where the mixing computes `mean`, the mono samples of a packet are known.
proof fn lemma_mono_is_computed<F: Fn(&Vec<u32>) -> u32>(
    mix: F,
    packet: Packet<Seq<u32>>,
    channels: nat,
    chunk: Seq<u32>,
    mean: spec_fn(Seq<u32>) -> u32,
)
    requires
        is_mono(mix, packet, channels, chunk),
        computes(mix, mean),
    ensures
        chunk == packet.mono(channels, mean),
{
    if packet.content() == PacketContent::Interleaved {
        assert forall|f: int| 0 <= f < packet.frames implies chunk[f] == mean(
            frame_samples(packet.samples, channels as int, f),
        ) by {
            assert(mixed_from(mix, frame_samples(packet.samples, channels as int, f), chunk[f]));
        }
    }
    assert(chunk =~= packet.mono(channels, mean));
}

/// A capture ends well only because it was told to stop, and only when it looked.
pub proof fn law_stops_only_when_told<F: Fn(&Vec<u32>) -> u32>(
    states: Seq<CaptureState<Seq<u32>>>,
    answers: Seq<Answer<Seq<u32>>>,
    channels: nat,
    mix: F,
    n: nat,
)
    requires
        is_run(states, answers, channels, mix),
        n <= answers.len(),
        states[n as int] is Stopped,
    ensures
        exists|i: int|
            0 <= i < n && #[trigger] answers[i] == Answer::<Seq<u32>>::StopFlag(true)
                && states[i] is CheckingStop,
    decreases n,
{
    let m = n - 1;
    assert(states[m].leads_to(answers[m], channels, mix, states[n as int]));
    if states[m] is Stopped {
        law_stops_only_when_told(states, answers, channels, mix, m as nat);
    } else {
        assert(answers[m] == Answer::<Seq<u32>>::StopFlag(true));
    }
}

/// The stop flag is looked at between two bursts of packets, never within one: the
/// capture comes back to it only from a sleep, or when no packet is left.
pub proof fn law_bursts_are_drained(
    state: CaptureState<Seq<u32>>,
    answer: Answer<Seq<u32>>,
    chunk: Seq<u32>,
)
    requires
        !(state is CheckingStop),
        state.after(answer, chunk) is CheckingStop,
    ensures
        (state is Sleeping && answer is Slept) || (state is Draining && answer
            == Answer::<Seq<u32>>::PacketSize(0)),
{
}

/// Whether `answer` is one that `request` can have.
pub open spec fn fits(request: Request<Seq<u32>>, answer: Answer<Seq<u32>>) -> bool {
    match request {
        Request::CheckStop => answer is StopFlag,
        Request::NextPacketSize => answer is PacketSize || answer is DeviceError,
        Request::Sleep => answer is Slept,
        Request::TakePacket => answer is Taken || answer is DeviceError,
        Request::HandOn(_) => answer is HandedOn,
        Request::ReleasePacket(_) => answer is Released || answer is DeviceError,
        Request::Finish => false,
        Request::Abort => false,
    }
}

/// What is asked for and answered moves the capture on; any other answer leaves it
/// where it is.
pub proof fn law_only_answers_move(
    state: CaptureState<Seq<u32>>,
    answer: Answer<Seq<u32>>,
    chunk: Seq<u32>,
)
    ensures
        state.after(answer, chunk) != state <==> fits(state.asks(), answer),
{
}

/// The samples of one frame, one for each channel, out of those of a packet.
pub open spec fn channel_samples(samples: Seq<u32>, channels: nat, f: int) -> Seq<u32> {
    Seq::new(channels, |c: int| samples[f * channels + c])
}

/// What a packet is handed on as, sample by sample, where `mean` is what the mixing
/// computes. A silent packet becomes as many zeros as it has frames. Data becomes one
/// sample for each frame, of the samples of that very frame. A packet that is neither
/// becomes nothing.
pub proof fn law_chunks_are_made_frame_by_frame<F: Fn(&Vec<u32>) -> u32>(
    mix: F,
    packet: Packet<Seq<u32>>,
    channels: nat,
    chunk: Seq<u32>,
    mean: spec_fn(Seq<u32>) -> u32,
    f: int,
)
    requires
        is_mono(mix, packet, channels, chunk),
        computes(mix, mean),
        packet.has_data && packet.flags / 2 % 2 == 0 ==> packet.samples.len() == packet.frames
            * channels,
        0 <= f < packet.frames,
    ensures
        packet.has_data || packet.flags / 2 % 2 == 1 ==> chunk.len() == packet.frames,
        !packet.has_data && packet.flags / 2 % 2 == 0 ==> chunk.len() == 0,
        packet.flags / 2 % 2 == 1 ==> chunk[f] == 0,
        packet.has_data && packet.flags / 2 % 2 == 0 ==> chunk[f] == mean(
            channel_samples(packet.samples, channels, f),
        ),
{
    law_the_silent_flag_decides(packet.flags, packet.has_data);
    if packet.content() is Interleaved {
        assert(mixed_from(mix, frame_samples(packet.samples, channels as int, f), chunk[f]));
        assert((f + 1) * channels <= packet.frames * channels && (f + 1) * channels == f * channels
            + channels && 0 <= f * channels) by (nonlinear_arith)
            requires
                0 <= f < packet.frames,
                0 <= channels,
        ;
        assert(frame_samples(packet.samples, channels as int, f) =~= channel_samples(
            packet.samples,
            channels,
            f,
        ));
    }
}

/// A packet that is ready is taken: when the device answers the question for the next
/// packet with any size but zero, the capture asks for that packet next, at the first of a
/// burst as at the later ones. With a size of zero it sleeps where it was the first, and
/// looks at the stop flag where a burst has ended.
pub proof fn law_ready_packets_are_taken(size: u32, chunk: Seq<u32>)
    ensures
        ({
            let polled = CaptureState::<Seq<u32>>::Polling.after(Answer::PacketSize(size), chunk);
            let drained = CaptureState::<Seq<u32>>::Draining.after(Answer::PacketSize(size), chunk);
            &&& CaptureState::<Seq<u32>>::Polling.asks() is NextPacketSize
            &&& CaptureState::<Seq<u32>>::Draining.asks() is NextPacketSize
            &&& size > 0 ==> polled.asks() is TakePacket && drained.asks() is TakePacket
            &&& polled.asks() is Sleep <==> size == 0
            &&& drained.asks() is CheckStop <==> size == 0
        }),
{
}

/// A packet that was taken is handed on next, as what was made of it; then it is given back,
/// with the number of frames that it had, however many; and then the next one is asked for.
pub proof fn law_a_taken_packet_goes_through(packet: Packet<Seq<u32>>, chunk: Seq<u32>, c: Seq<u32>)
    ensures
        ({
            let held = CaptureState::<Seq<u32>>::Reading.after(Answer::Taken(packet), chunk);
            let handed_on = held.after(Answer::HandedOn, c);
            let given_back = handed_on.after(Answer::Released, c);
            &&& CaptureState::<Seq<u32>>::Reading.asks() is TakePacket
            &&& held.asks() == Request::HandOn(chunk)
            &&& handed_on.asks() == Request::<Seq<u32>>::ReleasePacket(packet.frames)
            &&& given_back is Draining
        }),
{
}

/// A capture that is not told to stop polls, one that is told stops the device; after a
/// sleep it looks at the stop flag again. An error of the device ends the capture at any
/// question that is put to the device, and does not stop the device.
pub proof fn law_stop_and_errors_end_a_capture(frames: u32, chunk: Seq<u32>)
    ensures
        ({
            let start = CaptureState::<Seq<u32>>::CheckingStop;
            let sleeping = CaptureState::<Seq<u32>>::Sleeping;
            let error = Answer::<Seq<u32>>::DeviceError;
            &&& start.asks() is CheckStop
            &&& start.after(Answer::StopFlag(false), chunk) is Polling
            &&& start.after(Answer::StopFlag(true), chunk).asks() is Finish
            &&& sleeping.asks() is Sleep
            &&& sleeping.after(Answer::Slept, chunk) is CheckingStop
            &&& CaptureState::<Seq<u32>>::Polling.after(error, chunk).asks() is Abort
            &&& CaptureState::<Seq<u32>>::Reading.after(error, chunk).asks() is Abort
            &&& CaptureState::<Seq<u32>>::Releasing(frames).after(error, chunk).asks() is Abort
            &&& CaptureState::<Seq<u32>>::Draining.after(error, chunk).asks() is Abort
            &&& CaptureState::<Seq<u32>>::Releasing(frames).asks() == Request::<
                Seq<u32>,
            >::ReleasePacket(frames)
        }),
{
}

/// Every step is the one that the answer leads to. Only a packet that is taken brings
/// anything new into the capture: what was made of it, by its frames.
pub proof fn law_steps_follow_their_answers<F: Fn(&Vec<u32>) -> u32>(
    state: CaptureState<Seq<u32>>,
    answer: Answer<Seq<u32>>,
    channels: nat,
    mix: F,
    next: CaptureState<Seq<u32>>,
    chunk: Seq<u32>,
)
    requires
        state.leads_to(answer, channels, mix, next),
    ensures
        !(state is Reading && answer is Taken) ==> next == state.after(answer, chunk),
        state is Reading && answer is Taken ==> next is HandingOn && next->HandingOn_frames
            == answer->Taken_0.frames && is_mono(
            mix,
            answer->Taken_0,
            channels,
            next->HandingOn_chunk,
        ),
{
}

/// The models leave nothing out: a capture, what it asks for and what it is answered are
/// known from their models.
pub proof fn law_captures_are_modelled_faithfully(
    frames: u32,
    chunk: Vec<u32>,
    packet: Packet<&[u32]>,
    set: bool,
    size: u32,
)
    ensures
        (CaptureState::HandingOn { frames, chunk })@ == (CaptureState::HandingOn {
            frames,
            chunk: chunk@,
        }),
        CaptureState::<Vec<u32>>::Releasing(frames)@ == CaptureState::<Seq<u32>>::Releasing(frames),
        Request::HandOn(&chunk)@ == Request::HandOn(chunk@),
        Request::<&Vec<u32>>::ReleasePacket(frames)@ == Request::<Seq<u32>>::ReleasePacket(frames),
        Answer::Taken(packet)@ == Answer::Taken(packet@),
        Answer::<&[u32]>::StopFlag(set)@ == Answer::<Seq<u32>>::StopFlag(set),
        Answer::<&[u32]>::PacketSize(size)@ == Answer::<Seq<u32>>::PacketSize(size),
        packet@.flags == packet.flags,
        packet@.has_data == packet.has_data,
        packet@.frames == packet.frames,
        packet@.samples == packet.samples@,
{
}

} // verus!
