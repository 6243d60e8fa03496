//! The chance on which a call refreshes the cached block number, and the
//! draws that are held against it.
//!
//! Both are counted in steps of 2^-53, the resolution of a uniform
//! double-precision draw from [0, 1): a chance is a number of steps from 0
//! to 2^53, a roll a number of steps below 2^53, and a chance admits a roll
//! that lies below it.

use vstd::prelude::*;

verus! {

/// The number of steps in the unit interval: 2^53.
pub const SCALE: u64 = 0x20_0000_0000_0000;

/// A probability in [0, 1], as a whole number of steps of 1 / `SCALE`.
#[derive(Clone, Copy, Debug, PartialEq, Eq)]
pub struct Chance {
    steps: u64,
}

/// A draw from [0, 1), as a whole number of steps of 1 / `SCALE`.
#[derive(Clone, Copy, Debug, PartialEq, Eq)]
pub struct Roll {
    bits: u64,
}

impl Chance {
    /// The number of steps: the probability times `SCALE`.
    pub closed spec fn steps(self) -> nat {
        if self.steps <= SCALE {
            self.steps as nat
        } else {
            SCALE as nat
        }
    }

    /// Whether the chance is the probability 1.
    pub open spec fn is_certain(self) -> bool {
        self.steps() == SCALE
    }

    /// Whether the chance is the probability 0.
    pub open spec fn is_never(self) -> bool {
        self.steps() == 0
    }

    /// Whether `roll` lies below the chance.
    pub open spec fn spec_admits(self, roll: Roll) -> bool {
        roll.steps() < self.steps()
    }

    /// The chance of `steps` in `SCALE`; more steps than `SCALE` are the
    /// probability 1.
    pub fn from_steps(steps: u64) -> (chance: Chance)
        ensures
            chance.steps() == if steps <= SCALE {
                steps as nat
            } else {
                SCALE as nat
            },
    {
        Chance { steps }
    }

    /// The probability 0.
    pub fn never() -> (chance: Chance)
        ensures
            chance.is_never(),
    {
        Chance { steps: 0 }
    }

    /// The probability 1.
    pub fn always() -> (chance: Chance)
        ensures
            chance.is_certain(),
    {
        Chance { steps: SCALE }
    }

    /// Whether `roll` lies below the chance. Over uniform rolls this is true
    /// with the probability that the chance stands for.
    #[verifier::when_used_as_spec(spec_admits)]
    pub fn admits(self, roll: Roll) -> (admitted: bool)
        ensures
            admitted == self.spec_admits(roll),
    {
        let steps: u64 = if self.steps <= SCALE {
            self.steps
        } else {
            SCALE
        };
        roll.bits >> 11 < steps
    }
}

impl Roll {
    /// The number of steps, below `SCALE`: the upper 53 of the 64 bits.
    pub closed spec fn steps(self) -> nat {
        (self.bits >> 11) as nat
    }

    /// The roll that the upper 53 bits of `bits` count.
    pub fn from_bits(bits: u64) -> (roll: Roll)
        ensures
            roll.steps() == (bits >> 11) as nat,
    {
        Roll { bits }
    }

    /// A roll from the generator of the calling thread. Any roll may come
    /// back, and so nothing is said of it but what holds of every roll.
    pub fn draw() -> (roll: Roll)
        ensures
            roll.steps() < SCALE,
    {
        let roll = Roll { bits: random_bits() };
        proof {
            roll.lemma_steps_bound();
        }
        roll
    }

    /// A roll lies below `SCALE`.
    pub proof fn lemma_steps_bound(self)
        ensures
            self.steps() < SCALE,
    {
        let bits = self.bits;
        assert(bits >> 11 < 0x20_0000_0000_0000u64) by (bit_vector);
    }
}

/// Sixty-four bits from `rand::random`, which draws them from the generator
/// that `rand` keeps for the calling thread. Nothing is claimed of them:
/// every value may come back, and two calls may differ. The call panics
/// where the operating system gives the generator no seed.
#[verifier::external_body]
fn random_bits() -> u64 {
    rand::random::<u64>()
}

/// The probability 1 admits every roll.
pub proof fn lemma_certain_admits_all(chance: Chance, roll: Roll)
    requires
        chance.is_certain(),
    ensures
        chance.spec_admits(roll),
{
    roll.lemma_steps_bound();
}

/// The probability 0 admits no roll.
pub proof fn lemma_never_admits_none(chance: Chance, roll: Roll)
    requires
        chance.is_never(),
    ensures
        !chance.spec_admits(roll),
{
}

} // verus!
