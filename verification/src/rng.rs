//! Deterministic pseudo-random number generator used by all game rules.
//!
//! The generator is a splitmix64 stream: every draw advances the state by a
//! fixed odd constant and returns a mixed image of the new state. Because the
//! stream is a function of the state alone, every contract in the crate can
//! say exactly which value a draw yields.

use vstd::prelude::*;

verus! {

/// Increment of the splitmix64 stream.
pub const GOLDEN: u64 = 0x9E37_79B9_7F4A_7C15u64;

/// First multiplier of the splitmix64 finalizer.
pub const MIX1: u64 = 0xBF58_476D_1CE4_E5B9u64;

/// Second multiplier of the splitmix64 finalizer.
pub const MIX2: u64 = 0x94D0_49BB_1331_11EBu64;

/// The state that follows `s`.
pub open spec fn step(s: u64) -> u64 {
    vstd::wrapping::u64_specs::wrapping_add(s, GOLDEN)
}

/// The state after `k` draws from `s`.
pub open spec fn steps(s: u64, k: nat) -> u64
    decreases k,
{
    if k == 0 {
        s
    } else {
        steps(step(s), (k - 1) as nat)
    }
}

/// The 64-bit value produced by the draw made in state `s`.
pub closed spec fn output(s: u64) -> u64 {
    let z0 = step(s);
    let z1 = vstd::wrapping::u64_specs::wrapping_mul(z0 ^ (z0 >> 30u64), MIX1);
    let z2 = vstd::wrapping::u64_specs::wrapping_mul(z1 ^ (z1 >> 27u64), MIX2);
    z2 ^ (z2 >> 31u64)
}

/// The value of `rn2(n)` drawn in state `s`: uniform over `0..n`.
pub open spec fn rn2_at(s: u64, n: u32) -> u32
    recommends
        n > 0,
{
    (output(s) % (n as u64)) as u32
}

/// The value of `rnd(n)` drawn in state `s`: uniform over `1..=n`.
pub open spec fn rnd_at(s: u64, n: u32) -> int
    recommends
        n > 0,
{
    rn2_at(s, n) + 1
}

/// The total of `n` dice with `sides` faces thrown from state `s`.
pub open spec fn dice_at(s: u64, n: nat, sides: u32) -> int
    decreases n,
{
    if n == 0 {
        0
    } else {
        rnd_at(s, sides) + dice_at(step(s), (n - 1) as nat, sides)
    }
}

/// Each die adds between 1 and `sides`, so the total lies in `n..=n*sides`.
pub proof fn lemma_dice_bounds(s: u64, n: nat, sides: u32)
    requires
        sides > 0,
    ensures
        n <= dice_at(s, n, sides) <= n * sides,
    decreases n,
{
    if n > 0 {
        lemma_dice_bounds(step(s), (n - 1) as nat, sides);
        assert(rn2_at(s, sides) < sides);
        assert((n - 1) * sides + sides == n * sides) by (nonlinear_arith);
    }
}

/// A draw of `rn2(n)` is below `n`.
pub proof fn lemma_rn2_bound(s: u64, n: u32)
    requires
        n > 0,
    ensures
        rn2_at(s, n) < n,
{
}

/// The game's random number generator.
pub struct GameRng {
    state: u64,
}

impl View for GameRng {
    type V = u64;

    closed spec fn view(&self) -> u64 {
        self.state
    }
}

impl GameRng {
    /// A generator started from `seed`.
    pub fn new(seed: u64) -> (r: GameRng)
        ensures
            r@ == seed,
    {
        GameRng { state: seed }
    }

    /// A generator seeded from the system clock.
    pub fn from_entropy() -> (r: GameRng) {
        let t = clock_now();
        GameRng { state: nanos_since_epoch(&t) }
    }

    /// Draw 64 raw bits.
    pub fn next_u64(&mut self) -> (r: u64)
        ensures
            r == output(old(self)@),
            final(self)@ == step(old(self)@),
    {
        let z0 = self.state.wrapping_add(GOLDEN);
        self.state = z0;
        let z1 = (z0 ^ (z0 >> 30u64)).wrapping_mul(MIX1);
        let z2 = (z1 ^ (z1 >> 27u64)).wrapping_mul(MIX2);
        z2 ^ (z2 >> 31u64)
    }

    /// Uniform draw in `0..n`.
    pub fn rn2(&mut self, n: u32) -> (r: u32)
        requires
            n > 0,
        ensures
            r == rn2_at(old(self)@, n),
            r < n,
            final(self)@ == step(old(self)@),
    {
        let x = self.next_u64();
        (x % (n as u64)) as u32
    }

    /// Uniform draw in `1..=n`.
    pub fn rnd(&mut self, n: u32) -> (r: u32)
        requires
            n > 0,
        ensures
            r == rnd_at(old(self)@, n),
            1 <= r <= n,
            final(self)@ == step(old(self)@),
    {
        let x = self.rn2(n);
        x + 1
    }

    /// True with probability `1/n`.
    pub fn one_in(&mut self, n: u32) -> (r: bool)
        requires
            n > 0,
        ensures
            r == (rn2_at(old(self)@, n) == 0),
            final(self)@ == step(old(self)@),
    {
        self.rn2(n) == 0
    }

    /// True with probability `p` percent.
    pub fn percent(&mut self, p: u32) -> (r: bool)
        ensures
            r == (rn2_at(old(self)@, 100) < p),
            final(self)@ == step(old(self)@),
    {
        self.rn2(100) < p
    }

    /// Total of `n` throws of a die with `sides` faces.
    pub fn dice(&mut self, n: u32, sides: u32) -> (r: u32)
        requires
            sides > 0,
            n * sides <= u32::MAX,
        ensures
            r == dice_at(old(self)@, n as nat, sides),
            n <= r <= n * sides,
            final(self)@ == steps(old(self)@, n as nat),
    {
        let mut total: u32 = 0;
        let mut i: u32 = 0;
        let ghost s0 = self@;
        while i < n
            invariant
                i <= n,
                sides > 0,
                n * sides <= u32::MAX,
                self@ == steps(s0, i as nat),
                total + dice_at(self@, (n - i) as nat, sides) == dice_at(s0, n as nat, sides),
                i <= total <= i * sides,
            decreases n - i,
        {
            proof {
                lemma_steps_succ(s0, i as nat);
                assert(i * sides + sides == (i + 1) * sides) by (nonlinear_arith);
                assert((i + 1) * sides <= n * sides) by (nonlinear_arith)
                    requires
                        i + 1 <= n,
                ;
            }
            let v = self.rnd(sides);
            total = total + v;
            i = i + 1;
        }
        proof {
            lemma_dice_bounds(s0, n as nat, sides);
        }
        total
    }
}

/// One more draw after `k` draws is `k + 1` draws.
pub proof fn lemma_steps_succ(s: u64, k: nat)
    ensures
        steps(s, k + 1) == step(steps(s, k)),
    decreases k,
{
    assert(steps(s, k + 1) == steps(step(s), k));
    if k > 0 {
        lemma_steps_succ(step(s), (k - 1) as nat);
    } else {
        assert(steps(step(s), 0) == step(s));
    }
}

/// Declares the standard library's clock reading to the verifier.
#[verifier::external_type_specification]
#[verifier::external_body]
pub struct ExSystemTime(std::time::SystemTime);

/// Calls `std::time::SystemTime::now`; nothing is promised of the reading.
#[verifier::external_body]
fn clock_now() -> std::time::SystemTime {
    std::time::SystemTime::now()
}

/// Calls `std::time::SystemTime::duration_since` with the Unix epoch and keeps
/// the low 64 bits of the nanoseconds (0 for a reading before the epoch);
/// nothing is promised of the value.
#[verifier::external_body]
fn nanos_since_epoch(t: &std::time::SystemTime) -> u64 {
    t.duration_since(std::time::UNIX_EPOCH).map_or(0, |d| d.as_nanos() as u64)
}

} // verus!
