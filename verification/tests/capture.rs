use yinlang::capture::{
    check_bit_depth, mono_chunk, packet_content, silence, split_frames, Answer, CaptureState, Packet, PacketContent,
    Request, BUFFER_DURATION, IDLE_SLEEP_MS, SILENT_FLAG,
};

type State = CaptureState<Vec<u32>>;

fn data(frames: u32, samples: &[u32]) -> Packet<&[u32]> {
    Packet { flags: 0, has_data: true, frames, samples }
}

fn silent(frames: u32, samples: &[u32]) -> Packet<&[u32]> {
    Packet { flags: SILENT_FLAG, has_data: true, frames, samples }
}

fn absent(frames: u32) -> Packet<&'static [u32]> {
    Packet { flags: 0, has_data: false, frames, samples: &[] }
}

fn first(frame: &Vec<u32>) -> u32 {
    frame[0]
}

fn step(state: State, answer: Answer<&[u32]>) -> State {
    state.step(answer, 2, &first)
}

#[test]
fn only_wide_samples_are_understood() {
    assert_eq!(check_bit_depth(32), Ok(()));
    assert_eq!(check_bit_depth(16), Err("不支持的采样位深 16（期望 32-bit float）".to_string()));
    assert_eq!(check_bit_depth(0), Err("不支持的采样位深 0（期望 32-bit float）".to_string()));
    assert_eq!(check_bit_depth(65535), Err("不支持的采样位深 65535（期望 32-bit float）".to_string()));
}

#[test]
fn silence_wins_over_data() {
    assert_eq!(packet_content(0, true), PacketContent::Interleaved);
    assert_eq!(packet_content(0, false), PacketContent::Absent);
    assert_eq!(packet_content(SILENT_FLAG, true), PacketContent::Silence);
    assert_eq!(packet_content(SILENT_FLAG, false), PacketContent::Silence);
    assert_eq!(packet_content(0b111, true), PacketContent::Silence);
    assert_eq!(packet_content(0b101, true), PacketContent::Interleaved);
    assert_eq!(packet_content(!SILENT_FLAG, false), PacketContent::Absent);
}

#[test]
fn silence_is_zero_samples() {
    assert_eq!(silence(0), Vec::<u32>::new());
    assert_eq!(silence(3), vec![0, 0, 0]);
    assert_eq!(f32::from_bits(silence(1)[0]), 0.0);
}

#[test]
fn frames_are_taken_apart() {
    assert_eq!(split_frames(&[1, 2, 3, 4, 5, 6], 3, 2), vec![vec![1, 2], vec![3, 4], vec![5, 6]]);
    assert_eq!(split_frames(&[1, 2, 3], 3, 1), vec![vec![1], vec![2], vec![3]]);
    assert_eq!(split_frames(&[1, 2, 3], 1, 3), vec![vec![1, 2, 3]]);
    assert_eq!(split_frames(&[], 0, 2), Vec::<Vec<u32>>::new());
    assert_eq!(split_frames(&[], 2, 0), vec![Vec::<u32>::new(), Vec::new()]);
    let samples: Vec<u32> = (0..60).collect();
    assert_eq!(split_frames(&samples, 12, 5).concat(), samples);
}

#[test]
fn packets_become_mono() {
    let mean = |frame: &Vec<u32>| {
        let sum = frame.iter().fold(0.0f32, |sum, sample| sum + f32::from_bits(*sample));
        (sum / frame.len() as f32).to_bits()
    };
    let samples: Vec<u32> = [0.5f32, 0.25, -1.0, 1.0, 0.0, 0.5].iter().map(|x| x.to_bits()).collect();
    let mono = mono_chunk(data(3, &samples), 2, &mean);
    let mono: Vec<f32> = mono.iter().map(|x| f32::from_bits(*x)).collect();
    assert_eq!(mono, vec![0.375, 0.0, 0.25]);
    assert_eq!(mono_chunk(data(2, &[1, 2, 3, 4, 5, 6]), 3, &first), vec![1, 4]);
    assert_eq!(mono_chunk(data(0, &[]), 2, &first), Vec::<u32>::new());
    assert_eq!(mono_chunk(silent(4, &[]), 2, &first), vec![0, 0, 0, 0]);
    assert_eq!(mono_chunk(silent(2, &[1, 2, 3, 4]), 2, &first), vec![0, 0]);
    assert_eq!(mono_chunk(Packet { has_data: false, ..silent(1, &[]) }, 2, &first), vec![0]);
    assert_eq!(mono_chunk(absent(4), 2, &first), Vec::<u32>::new());
}

#[test]
fn a_capture_reads_in_bursts_until_told_to_stop() {
    let mut state = State::begin();
    let chunks = [vec![1, 3, 5], vec![0, 0], vec![]];
    let script = [
        (Request::CheckStop, Answer::StopFlag(false)),
        (Request::NextPacketSize, Answer::PacketSize(0)),
        (Request::Sleep, Answer::Slept),
        (Request::CheckStop, Answer::StopFlag(false)),
        (Request::NextPacketSize, Answer::PacketSize(3)),
        (Request::TakePacket, Answer::Taken(data(3, &[1, 2, 3, 4, 5, 6]))),
        (Request::HandOn(&chunks[0]), Answer::HandedOn),
        (Request::ReleasePacket(3), Answer::Released),
        (Request::NextPacketSize, Answer::PacketSize(9)),
        (Request::TakePacket, Answer::Taken(silent(2, &[]))),
        (Request::HandOn(&chunks[1]), Answer::HandedOn),
        (Request::ReleasePacket(2), Answer::Released),
        (Request::NextPacketSize, Answer::PacketSize(1)),
        (Request::TakePacket, Answer::Taken(absent(440))),
        (Request::HandOn(&chunks[2]), Answer::HandedOn),
        (Request::ReleasePacket(440), Answer::Released),
        (Request::NextPacketSize, Answer::PacketSize(0)),
        (Request::CheckStop, Answer::StopFlag(true)),
    ];
    for (request, answer) in script {
        assert_eq!(state.request(), request);
        state = step(state, answer);
    }
    assert_eq!(state, State::Stopped);
    assert_eq!(state.request(), Request::Finish);
    assert_eq!(step(state, Answer::StopFlag(false)), State::Stopped);
}

#[test]
fn the_chunks_handed_on_are_those_of_the_packets() {
    let packets = [
        data(2, &[7, 8, 9, 10]),
        silent(3, &[]),
        data(1, &[11, 12]),
    ];
    let mut left = packets.iter();
    let (mut handed_on, mut released) = (Vec::new(), Vec::new());
    let mut state = State::begin();
    while state != State::Stopped {
        let answer = match state.request() {
            Request::CheckStop => Answer::StopFlag(left.len() == 0),
            Request::NextPacketSize => Answer::PacketSize(left.len() as u32),
            Request::Sleep => Answer::Slept,
            Request::TakePacket => Answer::Taken(*left.next().unwrap()),
            Request::HandOn(chunk) => {
                assert_eq!(handed_on.len(), released.len());
                handed_on.push(chunk.clone());
                Answer::HandedOn
            }
            Request::ReleasePacket(frames) => {
                released.push(frames);
                assert_eq!(handed_on.len(), released.len());
                Answer::Released
            }
            Request::Finish | Request::Abort => unreachable!(),
        };
        state = step(state, answer);
    }
    let expected: Vec<Vec<u32>> = packets.iter().map(|p| mono_chunk(*p, 2, &first)).collect();
    assert_eq!(handed_on, expected);
    assert_eq!(handed_on, vec![vec![7, 9], vec![0, 0, 0], vec![11]]);
    assert_eq!(released, vec![2, 3, 1]);
}

#[test]
fn a_device_error_aborts() {
    for state in [State::Polling, State::Reading, State::Releasing(7), State::Draining] {
        let failed = step(state, Answer::DeviceError);
        assert_eq!(failed, State::Failed);
        assert_eq!(failed.request(), Request::Abort);
        assert_eq!(step(failed, Answer::Released), State::Failed);
    }
    let holding = State::HandingOn { frames: 7, chunk: vec![1] };
    for state in [State::CheckingStop, State::Sleeping, holding, State::Stopped] {
        assert_eq!(step(state.clone(), Answer::DeviceError), state);
    }
}

#[test]
fn answers_to_other_questions_are_ignored() {
    assert_eq!(step(State::CheckingStop, Answer::PacketSize(3)), State::CheckingStop);
    assert_eq!(step(State::Polling, Answer::StopFlag(true)), State::Polling);
    assert_eq!(step(State::Reading, Answer::Released), State::Reading);
    let holding = State::HandingOn { frames: 4, chunk: vec![1, 2] };
    assert_eq!(step(holding.clone(), Answer::Released), holding);
    let taken = Answer::Taken(silent(5, &[]));
    assert_eq!(step(holding.clone(), taken), holding);
    assert_eq!(step(State::Releasing(4), taken), State::Releasing(4));
    assert_eq!(step(State::Draining, Answer::Slept), State::Draining);
}

#[test]
fn capture_timings_are_fixed() {
    assert_eq!(BUFFER_DURATION, 2_000_000);
    assert_eq!(IDLE_SLEEP_MS, 5);
}
