use vstd::prelude::*;

verus! {

/// A 13-bit left rotation of a 64-bit word.
pub open spec fn spec_rotl13(x: u64) -> u64 {
    (x << 13u64) | (x >> 51u64)
}

/// Entropy mixing: the rotated contribution is folded in by exclusive-or,
/// then diffused by a multiplicative hash constant, wrapping.
pub open spec fn spec_mix(seed: u64, entropy: u64) -> u64 {
    u64::wrapping_mul(seed ^ spec_rotl13(entropy), 0x9e3779b97f4a7c15u64)
}

/// One step of the xorshift generator.
pub open spec fn spec_step(seed: u64) -> u64 {
    let a = seed ^ (seed << 7u64);
    let b = a ^ (a >> 9u64);
    b ^ (b << 8u64)
}

/// A deterministic randomness beacon: contributed entropy is mixed into the
/// seed, and each round draws the next xorshift state, keeping a history.
pub struct RandomnessBeacon {
    pub seed: u64,
    pub round: u64,
    pub history: Vec<u64>,
}

impl RandomnessBeacon {
    pub fn new(seed: u64) -> (r: Self)
        ensures
            r.seed == seed,
            r.round == 0,
            r.history@ == seq![seed],
    {
        let mut history: Vec<u64> = Vec::new();
        history.push(seed);
        proof {
            assert(history@ =~= seq![seed]);
        }
        RandomnessBeacon { seed, round: 0, history }
    }

    /// Folds contributed entropy into the seed.
    pub fn contribute_entropy(&mut self, entropy: u64)
        ensures
            final(self).seed == spec_mix(old(self).seed, entropy),
            final(self).round == old(self).round,
            final(self).history@ == old(self).history@,
    {
        let rotated: u64 = (entropy << 13u64) | (entropy >> 51u64);
        self.seed ^= rotated;
        self.seed = self.seed.wrapping_mul(0x9e3779b97f4a7c15);
    }

    /// Advances the generator one round, records the draw and returns it.
    pub fn next_random(&mut self) -> (r: u64)
        requires
            old(self).round < u64::MAX,
        ensures
            r == spec_step(old(self).seed),
            final(self).seed == r,
            final(self).round == old(self).round + 1,
            final(self).history@ == old(self).history@.push(r),
    {
        self.round += 1;
        let mut x: u64 = self.seed ^ (self.seed << 7u64);
        x ^= x >> 9u64;
        x ^= x << 8u64;
        self.seed = x;
        self.history.push(x);
        x
    }
}

} // verus!
