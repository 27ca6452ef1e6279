//! The pseudo-random source of the game's sequence.
//!
//! The generator is `rand`'s `SmallRng`, seeded once from sixteen bytes. Its
//! algorithm is not part of this crate, and `rand` picks it by the word size
//! of the target it is compiled for. The contracts below give a name to what
//! the generator of the build at hand computes, and prove the rest from
//! that: a generator that starts from the same bytes yields the same
//! indices, call by call.

use rand::rngs::SmallRng;
use rand::RngCore;
use rand::SeedableRng;
use vstd::prelude::*;

verus! {

/// Number of bytes in a seed.
pub const SEED_LEN: usize = 16;

/// Number of oscillator bits that go into a seed, one byte each.
pub const OSCILLATOR_BITS: usize = 14;

/// `rand::rngs::SmallRng`. Nothing is known of a value of it but what the
/// functions below say.
#[verifier::external_type_specification]
#[verifier::external_body]
pub struct ExSmallRng(SmallRng);

/// The internal state of a `SmallRng`, as bytes.
pub uninterp spec fn small_rng_state(rng: SmallRng) -> Seq<u8>;

/// The state in which `SmallRng::from_seed` leaves a fresh generator.
pub uninterp spec fn small_rng_seeded(seed: Seq<u8>) -> Seq<u8>;

/// What `SmallRng::next_u32` does in a given state: the value it returns,
/// and the state it leaves behind.
pub uninterp spec fn small_rng_next(state: Seq<u8>) -> (u32, Seq<u8>);

/// `SmallRng::from_seed`. Trusted: the state of the new generator depends
/// on the seed bytes alone. Which state that is is not said.
#[verifier::external_body]
fn small_rng_from_seed(seed: [u8; SEED_LEN]) -> (rng: SmallRng)
    ensures
        small_rng_state(rng) == small_rng_seeded(seed@),
{
    SmallRng::from_seed(seed)
}

/// `SmallRng::next_u32`. Trusted: the value returned and the state left
/// behind depend on the state before the call alone. Which value and which
/// state they are is not said.
#[verifier::external_body]
fn small_rng_next_u32(rng: &mut SmallRng) -> (value: u32)
    ensures
        value == small_rng_next(small_rng_state(*old(rng))).0,
        small_rng_state(*final(rng)) == small_rng_next(small_rng_state(*old(rng))).1,
{
    rng.next_u32()
}

/// The index that a generated value stands for: its remainder by `bound`.
///
/// No value is rejected, so when `bound` does not divide 2^32 the low
/// indices are slightly more likely than the high ones.
pub open spec fn index_of(value: u32, bound: nat) -> nat {
    value as nat % bound
}

/// The index below `bound` that a generator in `state` draws next.
pub open spec fn drawn_index(state: Seq<u8>, bound: nat) -> usize {
    index_of(small_rng_next(state).0, bound) as usize
}

/// The state in which a draw leaves a generator that was in `state`.
pub open spec fn drawn_state(state: Seq<u8>) -> Seq<u8> {
    small_rng_next(state).1
}

/// Reduces a generated value to an index below `bound`.
pub fn index_from_value(value: u32, bound: usize) -> (index: usize)
    requires
        bound > 0,
    ensures
        index == index_of(value, bound as nat),
        index < bound,
{
    value as usize % bound
}

/// The seed that a temperature sample and fourteen oscillator bits make:
/// the sample's low byte, its high byte, then one byte of 0 or 1 per bit.
///
/// Such a seed holds little entropy. The oscillator is read as fast as the
/// program can ask, so its bits are far from independent.
pub open spec fn seed_bytes(temperature: u16, bits: Seq<bool>) -> Seq<u8> {
    Seq::new(
        SEED_LEN as nat,
        |k: int|
            if k == 0 {
                (temperature % 256) as u8
            } else if k == 1 {
                (temperature / 256) as u8
            } else if bits[k - 2] {
                1u8
            } else {
                0u8
            },
    )
}

/// Lays a temperature sample and fourteen oscillator bits out as a seed.
pub fn assemble_seed(temperature: u16, bits: &[bool; OSCILLATOR_BITS]) -> (seed: [u8; SEED_LEN])
    ensures
        seed@ == seed_bytes(temperature, bits@),
{
    let mut seed: [u8; SEED_LEN] = [0u8; SEED_LEN];
    seed[0] = (temperature % 256) as u8;
    seed[1] = (temperature / 256) as u8;
    let mut k: usize = 0;
    while k < OSCILLATOR_BITS
        invariant
            k <= OSCILLATOR_BITS,
            seed@.len() == SEED_LEN,
            seed@[0] == (temperature % 256) as u8,
            seed@[1] == (temperature / 256) as u8,
            forall|j: int| 0 <= j < k ==> seed@[j + 2] == (if bits@[j] { 1u8 } else { 0u8 }),
        decreases OSCILLATOR_BITS - k,
    {
        seed[k + 2] = if bits[k] { 1 } else { 0 };
        k += 1;
    }
    seed
}

/// The source of the sequence: a `SmallRng` that is seeded once and then
/// drawn from, one index per round.
pub struct SequenceGenerator {
    rng: SmallRng,
}

impl View for SequenceGenerator {
    type V = Seq<u8>;

    /// The generator's internal state.
    closed spec fn view(&self) -> Seq<u8> {
        small_rng_state(self.rng)
    }
}

impl SequenceGenerator {
    /// A generator in the state that `bytes` determine.
    pub fn seed(bytes: [u8; SEED_LEN]) -> (generator: Self)
        ensures
            generator@ == small_rng_seeded(bytes@),
    {
        SequenceGenerator { rng: small_rng_from_seed(bytes) }
    }

    /// Draws the next index below `bound`.
    pub fn next_index(&mut self, bound: usize) -> (index: usize)
        requires
            bound > 0,
        ensures
            index == drawn_index(old(self)@, bound as nat),
            index < bound,
            final(self)@ == drawn_state(old(self)@),
    {
        let value: u32 = small_rng_next_u32(&mut self.rng);
        index_from_value(value, bound)
    }
}

/// The generator's state after `count` draws from `state`.
pub open spec fn state_after(state: Seq<u8>, count: nat) -> Seq<u8>
    decreases count,
{
    if count == 0 {
        state
    } else {
        drawn_state(state_after(state, (count - 1) as nat))
    }
}

/// The first `count` indices below `bound` that a generator in `state` yields.
pub open spec fn drawn(state: Seq<u8>, bound: nat, count: nat) -> Seq<usize>
    decreases count,
{
    if count == 0 {
        Seq::empty()
    } else {
        drawn(state, bound, (count - 1) as nat).push(
            drawn_index(state_after(state, (count - 1) as nat), bound),
        )
    }
}

/// A longer draw goes on from a shorter one: the next entry is the index
/// that the generator yields in the state the shorter draw left it in.
pub proof fn lemma_drawn_step(state: Seq<u8>, bound: nat, count: nat)
    ensures
        drawn(state, bound, count).len() == count,
        drawn(state, bound, count + 1) == drawn(state, bound, count).push(
            drawn_index(state_after(state, count), bound),
        ),
        state_after(state, count + 1) == drawn_state(state_after(state, count)),
    decreases count,
{
    if count > 0 {
        lemma_drawn_step(state, bound, (count - 1) as nat);
    }
}

/// An index drawn below a positive bound lies below it, whatever state the
/// generator is in.
pub proof fn lemma_drawn_index_in_range(state: Seq<u8>, bound: nat)
    requires
        bound > 0,
    ensures
        drawn_index(state, bound) < bound,
{
    let value = small_rng_next(state).0;
    assert(value as nat % bound < bound && value as nat % bound <= value) by (nonlinear_arith)
        requires
            bound > 0,
    ;
}

/// Every index of a draw below a positive bound lies below it.
pub proof fn lemma_drawn_in_range(state: Seq<u8>, bound: nat, count: nat)
    requires
        bound > 0,
    ensures
        drawn(state, bound, count).len() == count,
        forall|k: int| 0 <= k < count ==> drawn(state, bound, count)[k] < bound,
    decreases count,
{
    if count > 0 {
        lemma_drawn_in_range(state, bound, (count - 1) as nat);
        lemma_drawn_index_in_range(state_after(state, (count - 1) as nat), bound);
    }
}

/// The first `count` indices drawn are the start of any longer draw.
pub proof fn lemma_drawn_extends(state: Seq<u8>, bound: nat, count: nat, more: nat)
    requires
        count <= more,
    ensures
        drawn(state, bound, more).len() == more,
        drawn(state, bound, count) == drawn(state, bound, more).take(count as int),
    decreases more,
{
    if more > 0 {
        if count == more {
            lemma_drawn_extends(state, bound, (more - 1) as nat, (more - 1) as nat);
        } else {
            lemma_drawn_extends(state, bound, count, (more - 1) as nat);
        }
    }
}

/// Seeding is repeatable: two generators fresh from equal seed bytes yield
/// the same indices, call by call, and are left in the same state after any
/// number of calls.
pub proof fn lemma_equal_seeds_draw_alike(
    first: Seq<u8>,
    second: Seq<u8>,
    bound: nat,
    count: nat,
)
    requires
        first == second,
    ensures
        drawn(small_rng_seeded(first), bound, count) == drawn(
            small_rng_seeded(second),
            bound,
            count,
        ),
        state_after(small_rng_seeded(first), count) == state_after(
            small_rng_seeded(second),
            count,
        ),
{
}

} // verus!
