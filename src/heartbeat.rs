//! The heartbeat frame that the microphone sends while the speaker is
//! silent: bytes drawn from a small pseudo-random generator with a fixed
//! seed.
//!
//! The generator is modelled by the bytes it will yield next, in order. Which
//! bytes those are is up to the generator (its algorithm differs between
//! platforms); the model states only that draws come out in that order.

use vstd::prelude::*;
use rand::rngs::SmallRng;
use rand::{Rng, SeedableRng};

verus! {

/// Seed of the heartbeat generator.
pub const HEARTBEAT_SEED: u64 = 0x3675_9783_5673_9456;

#[verifier::external_type_specification]
#[verifier::external_body]
pub struct ExSmallRng(SmallRng);

/// A seeded generator, with the bytes it will yield next.
pub struct HeartbeatRng {
    rng: SmallRng,
    upcoming: Ghost<Seq<u8>>,
}

impl HeartbeatRng {
    /// The bytes that the next draws return, in order.
    pub closed spec fn upcoming(&self) -> Seq<u8> {
        self.upcoming@
    }
}

/// Relies on rand's `SeedableRng::seed_from_u64` for `SmallRng`: a generator
/// whose state comes from the seed alone, and which yields a byte on every
/// draw, without end.
#[verifier::external_body]
fn seeded_rng(seed: u64) -> (g: HeartbeatRng)
    ensures
        g.upcoming().len() >= 98,
{
    HeartbeatRng { rng: SmallRng::seed_from_u64(seed), upcoming: Ghost(arbitrary()) }
}

/// Relies on rand's `Rng::gen::<u8>` for `SmallRng`: it returns the
/// generator's next byte and moves past it.
#[verifier::external_body]
fn next_byte(g: &mut HeartbeatRng) -> (b: u8)
    requires
        old(g).upcoming().len() > 0,
    ensures
        b == old(g).upcoming()[0],
        final(g).upcoming() == old(g).upcoming().drop_first(),
{
    let b = g.rng.gen::<u8>();
    g.upcoming = Ghost(g.upcoming@.drop_first());
    b
}

/// Draws one microphone frame from the generator: its next 98 bytes, in
/// order.
pub fn heartbeat_frame_from(rng: &mut HeartbeatRng) -> (r: [u8; 98])
    requires
        old(rng).upcoming().len() >= 98,
    ensures
        r@ == old(rng).upcoming().take(98),
        final(rng).upcoming() == old(rng).upcoming().skip(98),
{
    let mut frame: [u8; 98] = [0; 98];
    let mut i: usize = 0;
    while i < 98
        invariant
            i <= 98,
            frame@.len() == 98,
            rng.upcoming() == old(rng).upcoming().skip(i as int),
            old(rng).upcoming().len() >= 98,
            forall|j: int| 0 <= j < i ==> frame@[j] == old(rng).upcoming()[j],
        decreases 98 - i,
    {
        let b = next_byte(rng);
        frame[i] = b;
        i = i + 1;
        assert(rng.upcoming() =~= old(rng).upcoming().skip(i as int));
    }
    assert(frame@ =~= old(rng).upcoming().take(98));
    frame
}

/// The heartbeat frame of a generator seeded with `seed`: the first 98 bytes
/// it yields. Which bytes those are is the generator's; what holds of every
/// outcome is that the frame is a full microphone frame.
pub fn heartbeat_frame(seed: u64) -> (r: [u8; 98])
    ensures
        r@.len() == 98,
{
    let mut rng = seeded_rng(seed);
    heartbeat_frame_from(&mut rng)
}

} // verus!
