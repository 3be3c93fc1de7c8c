//! The sample work and the decisions of the streaming loop.
//!
//! The speaker receives frames of interleaved stereo 16-bit little-endian
//! samples. Each left/right pair is mixed down to one mono sample, `(L >> 1) +
//! (R >> 1)` with an arithmetic shift, and the mono samples become the next
//! microphone frame. The microphone sends one frame per service interval:
//! the latest mixed frame when the speaker side signalled one in time, else a
//! fixed heartbeat frame.

use vstd::prelude::*;
use vstd::slice::slice_subrange;

verus! {

/// Bytes of one microphone frame: 49 mono 16-bit samples.
pub const MIC_FRAME_LEN: usize = 98;

/// Bytes of the largest speaker transfer that the receive loop reads.
pub const SPEAKER_READ_LEN: usize = 400;

/// The signed 16-bit little-endian sample at byte offset `i`.
pub open spec fn sample_at(s: Seq<u8>, i: int) -> int {
    let u = s[i] as int + s[i + 1] as int * 256;
    if u >= 32768 {
        u - 65536
    } else {
        u
    }
}

/// Mix-down of one left/right pair: each halved by an arithmetic shift right
/// (the floor of half), then added.
pub open spec fn mix_spec(left: int, right: int) -> int {
    left / 2 + right / 2
}

/// Little-endian bytes of a 16-bit two's-complement value.
pub open spec fn sample_bytes(v: int) -> Seq<u8> {
    let u = v % 65536;
    seq![(u % 256) as u8, (u / 256) as u8]
}

/// The mono sample mixed from the `k`-th 4-byte chunk.
pub open spec fn mixed_sample(s: Seq<u8>, k: int) -> int {
    mix_spec(sample_at(s, 4 * k), sample_at(s, 4 * k + 2))
}

/// Mix-down of a whole transfer: two output bytes for every complete 4-byte
/// chunk; a trailing partial chunk is dropped.
pub open spec fn mix_down_spec(s: Seq<u8>) -> Seq<u8> {
    Seq::new((s.len() / 4 * 2) as nat, |j: int| sample_bytes(mixed_sample(s, j / 2))[j % 2])
}

/// The microphone frame made from a transfer: its mix-down, cut or padded
/// with zeros to the frame length.
pub open spec fn mic_frame_spec(s: Seq<u8>) -> Seq<u8> {
    Seq::new(
        MIC_FRAME_LEN as nat,
        |j: int|
            if j < mix_down_spec(s).len() {
                mix_down_spec(s)[j]
            } else {
                0u8
            },
    )
}

/// For every pair of 16-bit samples, the mix-down is the sum of the two
/// arithmetic shifts, and it fits in 16 bits without overflow.
pub proof fn lemma_mix_fits(left: i16, right: i16)
    ensures
        mix_spec(left as int, right as int) == (left >> 1) as int + (right >> 1) as int,
        i16::MIN <= mix_spec(left as int, right as int) <= i16::MAX,
{
    lemma_shift_is_floor_half(left);
    lemma_shift_is_floor_half(right);
}

proof fn lemma_shift_is_floor_half(x: i16)
    ensures
        (x >> 1) as int == x as int / 2,
        -16384 <= (x >> 1) <= 16383,
{
    let h = x >> 1;
    assert(-16384 <= h && h <= 16383 && (h as i32 * 2 == x as i32 || h as i32 * 2 + 1 == x as i32))
        by (bit_vector)
        requires
            h == x >> 1,
    ;
}

/// Mixes one left/right pair down to one sample.
pub fn mix(left: i16, right: i16) -> (r: i16)
    ensures
        r as int == mix_spec(left as int, right as int),
        r as int == (left >> 1) as int + (right >> 1) as int,
{
    proof {
        lemma_mix_fits(left, right);
    }
    (left >> 1) + (right >> 1)
}

/// Reads the signed 16-bit little-endian sample at byte offset `i`.
fn read_sample(s: &[u8], i: usize) -> (r: i16)
    requires
        i + 1 < s@.len(),
    ensures
        r as int == sample_at(s@, i as int),
{
    let u: i32 = s[i] as i32 + s[i + 1] as i32 * 256;
    if u >= 32768 {
        (u - 65536) as i16
    } else {
        u as i16
    }
}

/// Appends the little-endian bytes of `v`.
fn push_sample(out: &mut Vec<u8>, v: i16)
    ensures
        final(out)@ == old(out)@ + sample_bytes(v as int),
{
    let u: u16 = if v < 0 {
        (v as i32 + 65536) as u16
    } else {
        v as u16
    };
    out.push((u % 256) as u8);
    out.push((u / 256) as u8);
    assert(final(out)@ =~= old(out)@ + sample_bytes(v as int));
}

/// Mixes every complete 4-byte stereo chunk of `transfer` down to one 2-byte
/// mono sample.
pub fn mix_down(transfer: &[u8]) -> (r: Vec<u8>)
    ensures
        r@ == mix_down_spec(transfer@),
        r@.len() == transfer@.len() / 4 * 2,
{
    let chunks: usize = transfer.len() / 4;
    let mut out: Vec<u8> = Vec::new();
    let mut k: usize = 0;
    while k < chunks
        invariant
            chunks == transfer@.len() / 4,
            k <= chunks,
            out@ =~= Seq::new((k * 2) as nat, |j: int| sample_bytes(mixed_sample(transfer@, j / 2))[j % 2]),
        decreases chunks - k,
    {
        assert(4 * k + 3 < transfer@.len()) by (nonlinear_arith)
            requires
                k < chunks,
                chunks == transfer@.len() / 4,
        ;
        assert(transfer@.len() == transfer.len());
        let left = read_sample(transfer, 4 * k);
        let right = read_sample(transfer, 4 * k + 2);
        let m = mix(left, right);
        let ghost prev = out@;
        push_sample(&mut out, m);
        proof {
            assert((2 * k as int) / 2 == k as int);
            assert((2 * k as int + 1) / 2 == k as int);
            assert((2 * k as int) % 2 == 0);
            assert((2 * k as int + 1) % 2 == 1);
        }
        k = k + 1;
    }
    out
}

/// The microphone frame made from a speaker transfer: the mix-down of the
/// transfer, cut to the frame length or padded with zeros.
pub fn mic_frame(transfer: &[u8]) -> (r: [u8; 98])
    ensures
        r@ == mic_frame_spec(transfer@),
{
    let mixed = mix_down(transfer);
    let mut frame: [u8; 98] = [0; 98];
    let n: usize = if mixed.len() < MIC_FRAME_LEN {
        mixed.len()
    } else {
        MIC_FRAME_LEN
    };
    let mut i: usize = 0;
    while i < n
        invariant
            n <= mixed@.len(),
            n <= MIC_FRAME_LEN,
            n == mixed@.len() || n == MIC_FRAME_LEN,
            i <= n,
            mixed@ == mix_down_spec(transfer@),
            frame@.len() == MIC_FRAME_LEN,
            forall|j: int| 0 <= j < i ==> frame@[j] == mixed@[j],
            forall|j: int| i <= j < MIC_FRAME_LEN ==> frame@[j] == 0u8,
        decreases n - i,
    {
        frame[i] = mixed[i];
        i = i + 1;
    }
    assert(frame@ =~= mic_frame_spec(transfer@));
    frame
}

/// State of one stream, as the host set it up.
#[derive(Clone, Copy, Debug, PartialEq, Eq, Structural)]
pub enum StreamState {
    /// Alternate setting 0 selected, or the device not configured.
    Disabled,
    /// Alternate setting 1: 16-bit samples.
    Enabled16,
    /// Alternate setting 2: 24-bit samples.
    Enabled24,
}

/// Why a transfer on a streaming endpoint failed.
#[derive(Clone, Copy, Debug, PartialEq, Eq, Structural)]
pub enum EndpointError {
    /// The packet did not fit in the buffer.
    BufferOverflow,
    /// The endpoint is disabled: alternate setting 0, or the device is not
    /// configured.
    Disabled,
}

pub open spec fn state_for_alt_spec(alt: u8) -> StreamState {
    if alt == 1 {
        StreamState::Enabled16
    } else if alt == 2 {
        StreamState::Enabled24
    } else {
        StreamState::Disabled
    }
}

/// The state that the host's choice of alternate setting puts a stream in.
pub fn state_for_alt(alt: u8) -> (r: StreamState)
    ensures
        r == state_for_alt_spec(alt),
{
    if alt == 1 {
        StreamState::Enabled16
    } else if alt == 2 {
        StreamState::Enabled24
    } else {
        StreamState::Disabled
    }
}

/// The state after a transfer: a failed transfer disables the stream until it
/// is enabled again; a good one leaves it as it was.
pub fn after_transfer(state: StreamState, ok: bool) -> (r: StreamState)
    ensures
        ok ==> r == state,
        !ok ==> r == StreamState::Disabled,
{
    if ok {
        state
    } else {
        StreamState::Disabled
    }
}

/// What the speaker side does after a read.
#[derive(Debug)]
pub enum ReceiveAction {
    /// Hand this microphone frame over and signal the microphone side.
    Publish([u8; 98]),
    /// Wait until the endpoint is enabled again.
    WaitEnabled,
}

/// One step of the speaker side: the outcome of a read into `data` gives the
/// next state and what to do. `n` bytes read make a microphone frame from
/// `data[..n]`; an error disables the stream.
pub fn on_read(state: StreamState, data: &[u8], result: Result<usize, EndpointError>) -> (r: (StreamState, ReceiveAction))
    requires
        result is Ok ==> result->Ok_0 <= data@.len(),
    ensures
        match result {
            Ok(n) => r.0 == state && r.1 is Publish && r.1->Publish_0@ == mic_frame_spec(data@.take(n as int)),
            Err(_) => r.0 == StreamState::Disabled && r.1 is WaitEnabled,
        },
{
    match result {
        Ok(n) => {
            let received = slice_subrange(data, 0, n);
            assert(received@ =~= data@.take(n as int));
            (state, ReceiveAction::Publish(mic_frame(received)))
        },
        Err(_) => (after_transfer(state, false), ReceiveAction::WaitEnabled),
    }
}

/// Which of the two wake sources of the microphone side fired first.
#[derive(Clone, Copy, Debug, PartialEq, Eq, Structural)]
pub enum Wake {
    /// The service-interval timer ran out first.
    Timeout,
    /// The speaker side signalled a new frame first.
    Signalled,
}

/// The frame that the microphone side sends: the latest mixed frame when the
/// speaker side signalled, the heartbeat frame when the timer ran out.
pub fn select_payload<'a>(wake: Wake, latest: &'a [u8; 98], heartbeat: &'a [u8; 98]) -> (r: &'a [u8; 98])
    ensures
        wake == Wake::Signalled ==> r@ == latest@,
        wake == Wake::Timeout ==> r@ == heartbeat@,
        r@.len() == MIC_FRAME_LEN,
{
    match wake {
        Wake::Signalled => latest,
        Wake::Timeout => heartbeat,
    }
}

} // verus!
