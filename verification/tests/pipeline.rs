use base64::engine::general_purpose::STANDARD;
use base64::Engine;
use yinlang::events::{FrontendEvent, Payload};
use yinlang::pipeline::{decode_frame, spectrum_event, SpectrumPipeline, BINS, FFT_SIZE, FRAME_BYTES, SAMPLE_BYTES};

fn ramp(n: u32) -> Vec<u32> {
    (0..n).collect()
}

#[test]
fn sizes_fit_together() {
    assert_eq!(FFT_SIZE, 1024);
    assert_eq!(BINS, FFT_SIZE / 2);
    assert_eq!(FRAME_BYTES, FFT_SIZE * SAMPLE_BYTES);
}

#[test]
fn short_chunks_wait() {
    let mut pipeline = SpectrumPipeline::new();
    assert_eq!(pipeline.pending(), 0);
    assert!(pipeline.feed(&ramp(1023)).is_empty());
    assert_eq!(pipeline.pending(), 1023);
    let frames = pipeline.feed(&[1023]);
    assert_eq!(frames, vec![ramp(1024)]);
    assert_eq!(pipeline.pending(), 0);
}

#[test]
fn a_long_chunk_gives_several_frames() {
    let mut pipeline = SpectrumPipeline::new();
    let all = ramp(3 * 1024 + 7);
    let frames = pipeline.feed(&all);
    assert_eq!(frames.len(), 3);
    for (k, frame) in frames.iter().enumerate() {
        assert_eq!(frame[..], all[k * 1024..(k + 1) * 1024]);
    }
    assert_eq!(pipeline.pending(), 7);
}

#[test]
fn an_empty_chunk_changes_nothing() {
    let mut pipeline = SpectrumPipeline::new();
    pipeline.feed(&[1, 2, 3]);
    assert!(pipeline.feed(&[]).is_empty());
    assert_eq!(pipeline.pending(), 3);
}

#[test]
fn chunking_does_not_matter() {
    let all = ramp(5000);
    let mut whole = SpectrumPipeline::new();
    let expected = whole.feed(&all);
    for size in [1usize, 7, 480, 1023, 1024, 1025, 4999] {
        let mut pipeline = SpectrumPipeline::new();
        let mut frames = Vec::new();
        for chunk in all.chunks(size) {
            frames.extend(pipeline.feed(chunk));
        }
        assert_eq!(frames, expected);
        assert_eq!(pipeline.pending(), whole.pending());
    }
}

#[test]
fn samples_are_little_endian() {
    let mut raw = vec![0u8; FRAME_BYTES];
    raw[0..4].copy_from_slice(&0.5f32.to_le_bytes());
    raw[4..8].copy_from_slice(&[0x01, 0x02, 0x03, 0xff]);
    raw[4092..4096].copy_from_slice(&(-1.0f32).to_le_bytes());
    let samples = decode_frame(&raw);
    assert_eq!(samples.len(), FFT_SIZE);
    assert_eq!(f32::from_bits(samples[0]), 0.5);
    assert_eq!(samples[1], 0xff03_0201);
    assert_eq!(samples[2], 0);
    assert_eq!(f32::from_bits(samples[1023]), -1.0);
    for i in 0..FFT_SIZE {
        let at = i * 4;
        assert_eq!(samples[i], u32::from_le_bytes([raw[at], raw[at + 1], raw[at + 2], raw[at + 3]]));
    }
}

#[test]
fn a_spectrum_travels_as_base64() {
    for (bytes, text) in [
        (&b""[..], ""),
        (&b"f"[..], "Zg=="),
        (&b"fo"[..], "Zm8="),
        (&b"foo"[..], "Zm9v"),
        (&b"foob"[..], "Zm9vYg=="),
        (&[0xfb, 0xff, 0xfe][..], "+//+"),
    ] {
        assert_eq!(spectrum_event(bytes), FrontendEvent::SystemAudioSpectrum(text.to_string()));
    }
}

/// The characters that the base64 of `bytes` has, place by place.
fn expected_base64(bytes: &[u8]) -> String {
    let alphabet: Vec<char> = "ABCDEFGHIJKLMNOPQRSTUVWXYZabcdefghijklmnopqrstuvwxyz0123456789+/".chars().collect();
    let at = |i: usize| if i < bytes.len() { bytes[i] as usize } else { 0 };
    (0..4 * ((bytes.len() + 2) / 3))
        .map(|k| {
            let (a, b, c) = (at(3 * (k / 4)), at(3 * (k / 4) + 1), at(3 * (k / 4) + 2));
            let six = match k % 4 {
                0 => a / 4,
                1 => (a % 4) * 16 + b / 16,
                2 => (b % 16) * 4 + c / 64,
                _ => c % 64,
            };
            if 6 * k < 8 * bytes.len() {
                alphabet[six]
            } else {
                '='
            }
        })
        .collect()
}

#[test]
fn base64_has_the_stated_characters() {
    for len in 0..200usize {
        let bytes: Vec<u8> = (0..len).map(|i| (i * 37 + len * 11) as u8).collect();
        match spectrum_event(&bytes).into_payload() {
            Payload::Text(text) => assert_eq!(text, expected_base64(&bytes)),
            other => panic!("{other:?}"),
        }
    }
}

#[test]
fn a_spectrum_can_be_read_back() {
    let spectrum: Vec<u8> = (0..BINS).map(|i| (i % 256) as u8).collect();
    match spectrum_event(&spectrum).into_payload() {
        Payload::Text(text) => {
            assert_eq!(text.len(), 684);
            assert!(text.ends_with('='));
            assert_eq!(STANDARD.decode(text).unwrap(), spectrum);
        }
        other => panic!("{other:?}"),
    }
}
