//! From captured sound to spectrum events.
//!
//! Samples are 32-bit floating-point numbers; here each stands as its bit pattern,
//! which is all that cutting them into frames needs. The spectrum of a frame is
//! computed elsewhere and comes back as one byte per frequency bin.

use base64::engine::general_purpose::STANDARD;
use base64::Engine;
use vstd::prelude::*;

use crate::events::{EventView, FrontendEvent};

verus! {

/// The samples of one frame.
pub const FFT_SIZE: usize = 1024;

/// The frequency bins of one spectrum.
pub const BINS: usize = 512;

/// The bytes of one sample.
pub const SAMPLE_BYTES: usize = 4;

/// The bytes of one frame.
pub const FRAME_BYTES: usize = 4096;

/// The whole frames that `samples` begin with.
pub open spec fn frames(samples: Seq<u32>) -> Seq<Seq<u32>> {
    Seq::new(
        samples.len() / FFT_SIZE as nat,
        |k: int| samples.subrange(k * FFT_SIZE, (k + 1) * FFT_SIZE),
    )
}

/// What is left of `samples` behind its whole frames.
pub open spec fn leftover(samples: Seq<u32>) -> Seq<u32> {
    samples.skip((samples.len() / FFT_SIZE as nat) * FFT_SIZE)
}

/// Gathers samples that come in chunks of any length and hands them out in frames of
/// [`FFT_SIZE`].
#[derive(Debug)]
pub struct SpectrumPipeline {
    acc: Vec<u32>,
}

impl View for SpectrumPipeline {
    type V = Seq<u32>;

    /// The samples that wait for their frame to fill.
    closed spec fn view(&self) -> Seq<u32> {
        self.acc@
    }
}

impl SpectrumPipeline {
    /// Nothing waits.
    pub fn new() -> (r: Self)
        ensures
            r@ == Seq::<u32>::empty(),
    {
        SpectrumPipeline { acc: Vec::with_capacity(FFT_SIZE * 2) }
    }

    /// How many samples wait for their frame to fill.
    pub fn pending(&self) -> (r: usize)
        ensures
            r == self@.len(),
    {
        self.acc.len()
    }

    /// Takes a chunk and hands out the frames that it completes, in order.
    pub fn feed(&mut self, chunk: &[u32]) -> (r: Vec<Vec<u32>>)
        ensures
            r@.map_values(|f: Vec<u32>| f@) == frames(old(self)@ + chunk@),
            final(self)@ == leftover(old(self)@ + chunk@),
            final(self)@.len() < FFT_SIZE,
            r@.map_values(|f: Vec<u32>| f@).flatten() + final(self)@ == old(self)@ + chunk@,
            forall|k: int| 0 <= k < r@.len() ==> (#[trigger] r@[k])@.len() == FFT_SIZE,
    {
        let ghost all = self.acc@ + chunk@;
        self.acc.extend_from_slice(chunk);
        assert(self.acc@ =~= all);
        let mut r: Vec<Vec<u32>> = Vec::new();
        assert(all.skip(0) =~= all);
        while self.acc.len() >= FFT_SIZE
            invariant
                r@.len() * FFT_SIZE <= all.len(),
                self.acc@ == all.skip(r@.len() * FFT_SIZE),
                forall|k: int|
                    0 <= k < r@.len() ==> (#[trigger] r@[k])@ == all.subrange(
                        k * FFT_SIZE,
                        (k + 1) * FFT_SIZE,
                    ),
            decreases self.acc.len(),
        {
            let ghost n = r@.len();
            let rest = self.acc.split_off(FFT_SIZE);
            let mut frame: Vec<u32> = rest;
            std::mem::swap(&mut frame, &mut self.acc);
            assert(frame@ =~= all.subrange(n * FFT_SIZE, (n + 1) * FFT_SIZE));
            assert(self.acc@ =~= all.skip((n + 1) * FFT_SIZE));
            r.push(frame);
        }
        assert(r@.len() == all.len() / FFT_SIZE as nat);
        assert(r@.map_values(|f: Vec<u32>| f@) =~= frames(all));
        proof {
            law_samples_are_kept(all);
        }
        r
    }
}

/// The frames of `a + b` begin with those of `a`, and go on with those of what `a`
/// leaves over followed by `b`.
proof fn lemma_frames_of_sum(a: Seq<u32>, b: Seq<u32>)
    ensures
        frames(a + b) == frames(a) + frames(leftover(a) + b),
        leftover(a + b) == leftover(leftover(a) + b),
{
    let n = a.len() / FFT_SIZE as nat;
    let rest = leftover(a) + b;
    let m = rest.len() / FFT_SIZE as nat;
    assert((a + b).len() / FFT_SIZE as nat == n + m);
    assert forall|k: int| 0 <= k < n + m implies #[trigger] frames(a + b)[k] =~= (frames(a)
        + frames(rest))[k] by {
        if k < n {
            assert((a + b).subrange(k * FFT_SIZE, (k + 1) * FFT_SIZE) =~= a.subrange(
                k * FFT_SIZE,
                (k + 1) * FFT_SIZE,
            ));
        } else {
            assert((a + b).subrange(k * FFT_SIZE, (k + 1) * FFT_SIZE) =~= rest.subrange(
                (k - n) * FFT_SIZE,
                (k - n + 1) * FFT_SIZE,
            ));
        }
    }
    assert(frames(a + b) =~= frames(a) + frames(rest));
    assert(leftover(a + b) =~= leftover(rest));
}

/// It does not matter how sound is cut into chunks: feeding `a` and then `b` gives the
/// frames, and leaves the samples, that feeding both at once does.
pub proof fn law_chunks_do_not_matter(waiting: Seq<u32>, a: Seq<u32>, b: Seq<u32>)
    ensures
        frames(waiting + a) + frames(leftover(waiting + a) + b) == frames(waiting + (a + b)),
        leftover(leftover(waiting + a) + b) == leftover(waiting + (a + b)),
{
    lemma_frames_of_sum(waiting + a, b);
    assert(waiting + a + b =~= waiting + (a + b));
}

/// No sample is lost, repeated or moved: the frames in order, and behind them what is
/// left over, are the samples that went in.
pub proof fn law_samples_are_kept(samples: Seq<u32>)
    ensures
        frames(samples).flatten() + leftover(samples) == samples,
        leftover(samples).len() < FFT_SIZE,
        forall|k: int| 0 <= k < frames(samples).len() ==> (#[trigger] frames(samples)[k]).len() == FFT_SIZE,
    decreases samples.len(),
{
    let size = FFT_SIZE as int;
    if samples.len() < size {
        assert(frames(samples) =~= Seq::<Seq<u32>>::empty());
        assert(leftover(samples) =~= samples);
        assert(frames(samples).flatten() =~= Seq::<u32>::empty());
        assert(frames(samples).flatten() + leftover(samples) =~= samples);
    } else {
        let first = samples.take(size);
        let rest = samples.skip(size);
        assert(samples =~= first + rest);
        law_samples_are_kept(rest);
        lemma_frames_of_sum(first, rest);
        assert(first.subrange(0 * FFT_SIZE, (0 + 1) * FFT_SIZE) =~= first);
        assert(frames(first) =~= seq![first]);
        assert(leftover(first) =~= Seq::<u32>::empty());
        assert(leftover(first) + rest =~= rest);
        assert(frames(samples) == seq![first] + frames(rest));
        assert((seq![first] + frames(rest)).drop_first() =~= frames(rest));
        assert(frames(samples).flatten() =~= first + frames(rest).flatten());
        assert(frames(samples).flatten() + leftover(samples) =~= first + (frames(rest).flatten()
            + leftover(rest)));
    }
}

/// The `i`-th sample of a frame of raw bytes: four bytes, the lowest first.
pub open spec fn sample_at(raw: Seq<u8>, i: int) -> int {
    raw[4 * i] + raw[4 * i + 1] * 0x100 + raw[4 * i + 2] * 0x1_0000 + raw[4 * i + 3] * 0x100_0000
}

/// Reads the samples of one frame of raw bytes.
pub fn decode_frame(raw: &[u8]) -> (r: Vec<u32>)
    requires
        raw@.len() == FRAME_BYTES,
    ensures
        r@.len() == FFT_SIZE,
        forall|i: int| 0 <= i < FFT_SIZE ==> #[trigger] r@[i] == sample_at(raw@, i),
        forall|i: int|
            0 <= i < FFT_SIZE ==> (#[trigger] r@[i]) % 0x100 == raw@[4 * i] && r@[i] / 0x100 % 0x100
                == raw@[4 * i + 1] && r@[i] / 0x1_0000 % 0x100 == raw@[4 * i + 2] && r@[i]
                / 0x100_0000 == raw@[4 * i + 3],
{
    let mut r: Vec<u32> = Vec::with_capacity(FFT_SIZE);
    let mut i: usize = 0;
    while i < FFT_SIZE
        invariant
            raw@.len() == FRAME_BYTES,
            i <= FFT_SIZE,
            r@.len() == i,
            forall|j: int| 0 <= j < i ==> #[trigger] r@[j] == sample_at(raw@, j),
        decreases FFT_SIZE - i,
    {
        let at: usize = i * SAMPLE_BYTES;
        let sample: u32 = raw[at] as u32 + raw[at + 1] as u32 * 0x100 + raw[at + 2] as u32
            * 0x1_0000 + raw[at + 3] as u32 * 0x100_0000;
        r.push(sample);
        i = i + 1;
    }
    assert forall|i: int| 0 <= i < FFT_SIZE implies (#[trigger] r@[i]) % 0x100 == raw@[4 * i]
        && r@[i] / 0x100 % 0x100 == raw@[4 * i + 1] && r@[i] / 0x1_0000 % 0x100 == raw@[4 * i + 2]
        && r@[i] / 0x100_0000 == raw@[4 * i + 3] by {
        law_samples_hold_their_bytes(raw@, i);
    }
    r
}

/// A sample holds exactly the bytes that came in for it: the first of them is its lowest,
/// the fourth its highest.
pub proof fn law_samples_hold_their_bytes(raw: Seq<u8>, i: int)
    requires
        0 <= i,
        4 * i + 3 < raw.len(),
    ensures
        0 <= sample_at(raw, i) <= u32::MAX,
        sample_at(raw, i) % 0x100 == raw[4 * i],
        sample_at(raw, i) / 0x100 % 0x100 == raw[4 * i + 1],
        sample_at(raw, i) / 0x1_0000 % 0x100 == raw[4 * i + 2],
        sample_at(raw, i) / 0x100_0000 == raw[4 * i + 3],
{
}

/// Nothing of a frame is lost: different bytes are read as different samples.
pub proof fn law_frames_are_told_apart(a: Seq<u8>, b: Seq<u8>)
    requires
        a.len() == FRAME_BYTES,
        b.len() == FRAME_BYTES,
        forall|i: int| 0 <= i < FFT_SIZE ==> #[trigger] sample_at(a, i) == sample_at(b, i),
    ensures
        a == b,
{
    assert forall|j: int| 0 <= j < FRAME_BYTES implies a[j] == b[j] by {
        let i = j / 4;
        assert(sample_at(a, i) == sample_at(b, i));
        law_samples_hold_their_bytes(a, i);
        law_samples_hold_their_bytes(b, i);
        assert(j == 4 * i || j == 4 * i + 1 || j == 4 * i + 2 || j == 4 * i + 3);
    }
    assert(a =~= b);
}

/// The length of the base64 text of `n` bytes.
pub open spec fn base64_len(n: nat) -> nat {
    4 * ((n + 2) / 3)
}

/// The character of the standard base64 alphabet that stands for six bits.
pub open spec fn base64_symbol(v: int) -> char {
    if v < 26 {
        ('A' as int + v) as char
    } else if v < 52 {
        ('a' as int + (v - 26)) as char
    } else if v < 62 {
        ('0' as int + (v - 52)) as char
    } else if v == 62 {
        '+'
    } else {
        '/'
    }
}

/// The `i`-th byte, or zero behind the last.
pub open spec fn byte_or_zero(bytes: Seq<u8>, i: int) -> int {
    if i < bytes.len() {
        bytes[i] as int
    } else {
        0
    }
}

/// The `k`-th group of six bits of `bytes`, highest bits first. Four groups make up
/// three bytes.
pub open spec fn six_bits(bytes: Seq<u8>, k: int) -> int {
    let a = byte_or_zero(bytes, 3 * (k / 4));
    let b = byte_or_zero(bytes, 3 * (k / 4) + 1);
    let c = byte_or_zero(bytes, 3 * (k / 4) + 2);
    if k % 4 == 0 {
        a / 4
    } else if k % 4 == 1 {
        (a % 4) * 16 + b / 16
    } else if k % 4 == 2 {
        (b % 16) * 4 + c / 64
    } else {
        c % 64
    }
}

/// The base64 text of `bytes`, with the standard alphabet and padding: one character
/// for each six bits, filled up to a multiple of four with `=`.
pub open spec fn base64_text(bytes: Seq<u8>) -> Seq<char> {
    Seq::new(
        base64_len(bytes.len()),
        |k: int|
            if 6 * k < 8 * bytes.len() {
                base64_symbol(six_bits(bytes, k))
            } else {
                '='
            },
    )
}

/// Calls `base64::Engine::encode` on the engine `STANDARD`, which writes `bytes` in
/// base64 with the alphabet `A-Z a-z 0-9 + /` and `=` as padding. Trusted: the text
/// is [`base64_text`] of the bytes. The call panics where the text would not fit in
/// memory, which the precondition leaves out.
#[verifier::external_body]
fn encode_base64(bytes: &[u8]) -> (r: String)
    requires
        base64_len(bytes@.len()) <= isize::MAX,
    ensures
        r@ == base64_text(bytes@),
{
    STANDARD.encode(bytes)
}

/// The event that carries one spectrum to the pages.
pub open spec fn event_of(spectrum: Seq<u8>) -> EventView {
    EventView::SystemAudioSpectrum(base64_text(spectrum))
}

/// Gives the event that carries one spectrum to the pages.
pub fn spectrum_event(spectrum: &[u8]) -> (r: FrontendEvent)
    requires
        base64_len(spectrum@.len()) <= isize::MAX,
    ensures
        r@ == event_of(spectrum@),
{
    FrontendEvent::SystemAudioSpectrum(encode_base64(spectrum))
}

/// Each byte is made of the six-bit groups that it reaches into.
proof fn lemma_bytes_from_groups(bytes: Seq<u8>, q: int)
    requires
        q >= 0,
    ensures
        byte_or_zero(bytes, 3 * q) == six_bits(bytes, 4 * q) * 4 + six_bits(bytes, 4 * q + 1) / 16,
        byte_or_zero(bytes, 3 * q + 1) == (six_bits(bytes, 4 * q + 1) % 16) * 16 + six_bits(
            bytes,
            4 * q + 2,
        ) / 4,
        byte_or_zero(bytes, 3 * q + 2) == (six_bits(bytes, 4 * q + 2) % 4) * 64 + six_bits(
            bytes,
            4 * q + 3,
        ),
        0 <= six_bits(bytes, 4 * q) < 64,
        0 <= six_bits(bytes, 4 * q + 1) < 64,
        0 <= six_bits(bytes, 4 * q + 2) < 64,
        0 <= six_bits(bytes, 4 * q + 3) < 64,
{
}

/// The characters of the alphabet are all different, and none of them is the padding.
proof fn lemma_symbols_differ(v: int, w: int)
    requires
        0 <= v < 64,
        0 <= w < 64,
    ensures
        base64_symbol(v) == base64_symbol(w) ==> v == w,
        base64_symbol(v) != '=',
{
}

/// A group beyond the last byte is zero.
proof fn lemma_groups_beyond(bytes: Seq<u8>, k: int)
    requires
        6 * k >= 8 * bytes.len(),
        k >= 0,
    ensures
        six_bits(bytes, k) == 0,
{
}

/// The pages can get every spectrum back from its event: different spectra have
/// different texts.
pub proof fn law_spectrum_text_is_injective(a: Seq<u8>, b: Seq<u8>)
    requires
        base64_text(a) == base64_text(b),
    ensures
        a == b,
{
    let text = base64_text(a);
    let len = text.len();
    assert(len == base64_len(a.len()) && len == base64_len(b.len()));
    assert forall|k: int| 0 <= k < len implies six_bits(a, k) == six_bits(b, k) && (6 * k < 8
        * a.len() <==> 6 * k < 8 * b.len()) by {
        let q = k / 4;
        lemma_bytes_from_groups(a, q);
        lemma_bytes_from_groups(b, q);
        assert(k == 4 * q || k == 4 * q + 1 || k == 4 * q + 2 || k == 4 * q + 3);
        lemma_symbols_differ(six_bits(a, k), six_bits(b, k));
        lemma_symbols_differ(six_bits(b, k), six_bits(a, k));
        assert(text[k] == base64_text(b)[k]);
        if 6 * k >= 8 * a.len() {
            lemma_groups_beyond(a, k);
        }
        if 6 * k >= 8 * b.len() {
            lemma_groups_beyond(b, k);
        }
    }
    assert(a.len() == b.len()) by {
        let q = (len - 4) / 4;
        if len > 0 {
            assert(six_bits(a, 4 * q + 2) == six_bits(b, 4 * q + 2));
            assert(six_bits(a, 4 * q + 3) == six_bits(b, 4 * q + 3));
            assert(6 * (4 * q + 2) < 8 * a.len() <==> 6 * (4 * q + 2) < 8 * b.len());
            assert(6 * (4 * q + 3) < 8 * a.len() <==> 6 * (4 * q + 3) < 8 * b.len());
        }
    }
    assert forall|i: int| 0 <= i < a.len() implies a[i] == b[i] by {
        let q = i / 3;
        lemma_bytes_from_groups(a, q);
        lemma_bytes_from_groups(b, q);
        assert(4 * q + 3 < len);
        assert(six_bits(a, 4 * q) == six_bits(b, 4 * q));
        assert(six_bits(a, 4 * q + 1) == six_bits(b, 4 * q + 1));
        assert(six_bits(a, 4 * q + 2) == six_bits(b, 4 * q + 2));
        assert(six_bits(a, 4 * q + 3) == six_bits(b, 4 * q + 3));
        assert(i == 3 * q || i == 3 * q + 1 || i == 3 * q + 2);
        assert(byte_or_zero(a, i) == byte_or_zero(b, i));
    }
    assert(a =~= b);
}

/// The six bits that a character of the base64 alphabet stands for; the padding stands for
/// none.
pub open spec fn symbol_value(c: char) -> int {
    if 'A' <= c <= 'Z' {
        c as int - 'A' as int
    } else if 'a' <= c <= 'z' {
        c as int - 'a' as int + 26
    } else if '0' <= c <= '9' {
        c as int - '0' as int + 52
    } else if c == '+' {
        62
    } else if c == '/' {
        63
    } else {
        0
    }
}

/// A character of the alphabet stands for the six bits that it was chosen for.
proof fn lemma_symbol_is_read(v: int)
    requires
        0 <= v < 64,
    ensures
        symbol_value(base64_symbol(v)) == v,
        base64_symbol(v) != '=',
{
}

/// A place of the text holds its six bits, or padding where no byte reaches.
proof fn lemma_text_at(bytes: Seq<u8>, k: int)
    requires
        0 <= k < base64_len(bytes.len()),
    ensures
        symbol_value(base64_text(bytes)[k]) == six_bits(bytes, k),
        base64_text(bytes)[k] == '=' <==> 6 * k >= 8 * bytes.len(),
        0 <= six_bits(bytes, k) < 64,
{
    lemma_bytes_from_groups(bytes, k / 4);
    let q = k / 4;
    assert(k == 4 * q || k == 4 * q + 1 || k == 4 * q + 2 || k == 4 * q + 3);
    lemma_symbol_is_read(six_bits(bytes, k));
    if 6 * k >= 8 * bytes.len() {
        lemma_groups_beyond(bytes, k);
    }
}

/// Three bytes, the highest first, are read back from the number that they make up.
proof fn lemma_three_bytes(x: int, y: int, z: int)
    requires
        0 <= x < 256,
        0 <= y < 256,
        0 <= z < 256,
    ensures
        (x * 0x1_0000 + y * 0x100 + z) / 0x1_0000 == x,
        (x * 0x1_0000 + y * 0x100 + z) / 0x100 % 0x100 == y,
        (x * 0x1_0000 + y * 0x100 + z) % 0x100 == z,
{
    let n = x * 0x1_0000 + y * 0x100 + z;
    assert(n / 0x100 == x * 0x100 + y);
}

/// Four times six bits are three times eight.
proof fn lemma_four_are_three(a: int, b: int, c: int, d: int)
    requires
        0 <= a < 64,
        0 <= b < 64,
        0 <= c < 64,
        0 <= d < 64,
    ensures
        (a * 262144 + b * 4096 + c * 64 + d) / 0x1_0000 == a * 4 + b / 16,
        (a * 262144 + b * 4096 + c * 64 + d) / 0x100 % 0x100 == (b % 16) * 16 + c / 4,
        (a * 262144 + b * 4096 + c * 64 + d) % 0x100 == (c % 4) * 64 + d,
{
    let x = a * 4 + b / 16;
    let y = (b % 16) * 16 + c / 4;
    let z = (c % 4) * 64 + d;
    assert(b == 16 * (b / 16) + b % 16);
    assert(c == 4 * (c / 4) + c % 4);
    assert(x * 0x1_0000 + y * 0x100 + z == a * 262144 + b * 4096 + c * 64 + d);
    lemma_three_bytes(x, y, z);
}

/// The number that four characters of base64 hold, 24 bits, the highest first.
pub open spec fn four_symbols(text: Seq<char>, q: int) -> int {
    symbol_value(text[4 * q]) * 262144 + symbol_value(text[4 * q + 1]) * 4096 + symbol_value(
        text[4 * q + 2],
    ) * 64 + symbol_value(text[4 * q + 3])
}

/// The pages read a spectrum back from its text: each group of four characters holds three
/// bytes, as many as there are. `q` counts the groups. The text has as many groups as the
/// bytes need, and padding stands just where no byte reaches.
pub proof fn law_spectrum_is_read_back(bytes: Seq<u8>, q: int)
    requires
        0 <= q,
        3 * q < bytes.len(),
    ensures
        base64_text(bytes).len() % 4 == 0,
        4 * bytes.len() <= 3 * base64_text(bytes).len() < 4 * bytes.len() + 12,
        bytes[3 * q] == four_symbols(base64_text(bytes), q) / 0x1_0000,
        3 * q + 1 < bytes.len() ==> bytes[3 * q + 1] == four_symbols(base64_text(bytes), q) / 0x100
            % 0x100,
        3 * q + 2 < bytes.len() ==> bytes[3 * q + 2] == four_symbols(base64_text(bytes), q) % 0x100,
        base64_text(bytes)[4 * q] != '=',
        base64_text(bytes)[4 * q + 1] != '=',
        base64_text(bytes)[4 * q + 2] == '=' <==> 3 * q + 1 >= bytes.len(),
        base64_text(bytes)[4 * q + 3] == '=' <==> 3 * q + 2 >= bytes.len(),
{
    lemma_text_at(bytes, 4 * q);
    lemma_text_at(bytes, 4 * q + 1);
    lemma_text_at(bytes, 4 * q + 2);
    lemma_text_at(bytes, 4 * q + 3);
    lemma_bytes_from_groups(bytes, q);
    lemma_four_are_three(
        six_bits(bytes, 4 * q),
        six_bits(bytes, 4 * q + 1),
        six_bits(bytes, 4 * q + 2),
        six_bits(bytes, 4 * q + 3),
    );
}

/// A spectrum event carries the base64 text of the whole spectrum: different spectra have
/// different events, and none is taken for another kind of event.
pub proof fn law_spectra_are_told_apart(a: Seq<u8>, b: Seq<u8>)
    ensures
        event_of(a) is SystemAudioSpectrum,
        event_of(a)->SystemAudioSpectrum_0 == base64_text(a),
        event_of(a) == event_of(b) ==> a == b,
{
    if event_of(a) == event_of(b) {
        law_spectrum_text_is_injective(a, b);
    }
}

} // verus!
