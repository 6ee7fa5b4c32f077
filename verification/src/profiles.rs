//! Industry profiles: how much each axis weighs in the overall score.

use vstd::prelude::*;
use vstd::std_specs::cmp::PartialEqSpecImpl;
use crate::decimal::{Decimal, UNIT};

verus! {

/// How far the sum of three weights may be from one, and how far two
/// weights may be apart to count as equal: a ten-thousandth.
pub const TOLERANCE: u128 = 100_000;

/// The weights of the three axes of a score.
#[derive(Clone, Copy, Debug, PartialOrd)]
pub struct ProfileWeights {
    /// Weight of the performance score, between 0 and 1.
    pub performance: Decimal,
    /// Weight of the energy score, between 0 and 1.
    pub energy: Decimal,
    /// Weight of the cost score, between 0 and 1.
    pub cost: Decimal,
}

/// Three weights, in billionths, sum to one within the tolerance.
pub open spec fn sums_to_one(performance: nat, energy: nat, cost: nat) -> bool {
    UNIT - TOLERANCE < performance + energy + cost < UNIT + TOLERANCE
}

/// Two quantities, in billionths, are less than the tolerance apart.
pub open spec fn close(a: nat, b: nat) -> bool {
    a - b < TOLERANCE && b - a < TOLERANCE
}

impl ProfileWeights {
    /// The weights sum to one within the tolerance.
    pub open spec fn well_formed(&self) -> bool {
        sums_to_one(self.performance@, self.energy@, self.cost@)
    }

    /// The weights `performance`, `energy` and `cost`, which must sum to
    /// one within the tolerance.
    pub fn new(performance: Decimal, energy: Decimal, cost: Decimal) -> (w: Self)
        requires
            sums_to_one(performance@, energy@, cost@),
        ensures
            w.performance == performance,
            w.energy == energy,
            w.cost == cost,
            w.well_formed(),
    {
        ProfileWeights { performance, energy, cost }
    }

    /// Whether three weights sum to one within the tolerance, so that
    /// `new` accepts them.
    pub fn is_valid(performance: Decimal, energy: Decimal, cost: Decimal) -> (ok: bool)
        ensures
            ok == sums_to_one(performance@, energy@, cost@),
    {
        let limit: u128 = UNIT + TOLERANCE;
        if performance.nanos >= limit || energy.nanos >= limit || cost.nanos >= limit {
            return false;
        }
        let sum: u128 = performance.nanos + energy.nanos + cost.nanos;
        UNIT - TOLERANCE < sum && sum < limit
    }
}

impl Default for ProfileWeights {
    fn default() -> (w: Self)
        ensures
            w.performance@ == 400_000_000,
            w.energy@ == 300_000_000,
            w.cost@ == 300_000_000,
            w.well_formed(),
    {
        ProfileWeights {
            performance: Decimal::from_nanos(400_000_000),
            energy: Decimal::from_nanos(300_000_000),
            cost: Decimal::from_nanos(300_000_000),
        }
    }
}

fn near(a: Decimal, b: Decimal) -> (r: bool)
    ensures
        r == close(a@, b@),
{
    if a.nanos >= b.nanos {
        a.nanos - b.nanos < TOLERANCE
    } else {
        b.nanos - a.nanos < TOLERANCE
    }
}

impl PartialEq for ProfileWeights {
    /// Two sets of weights are equal when each weight is less than the
    /// tolerance away from its counterpart.
    fn eq(&self, other: &Self) -> (r: bool) {
        near(self.performance, other.performance) && near(self.energy, other.energy) && near(
            self.cost,
            other.cost,
        )
    }
}

impl PartialEqSpecImpl for ProfileWeights {
    open spec fn obeys_eq_spec() -> bool {
        true
    }

    open spec fn eq_spec(&self, other: &Self) -> bool {
        close(self.performance@, other.performance@) && close(self.energy@, other.energy@)
            && close(self.cost@, other.cost@)
    }
}

impl Eq for ProfileWeights {

}

/// An industry profile: a named preset, or weights of the caller's own.
#[derive(Clone, Copy, Debug, PartialEq, Eq)]
pub enum IndustryProfile {
    /// Web services and APIs: 40% performance, 30% energy, 30% cost.
    WebServices,
    /// IoT and embedded systems: 20% performance, 60% energy, 20% cost.
    IotEmbedded,
    /// Financial applications: 50% performance, 20% energy, 30% cost.
    Financial,
    /// Games: 60% performance, 20% energy, 20% cost.
    Gaming,
    /// Enterprise software: 30% performance, 30% energy, 40% cost.
    Enterprise,
    /// Weights of the caller's own.
    Custom(ProfileWeights),
}

/// The weights of a profile, in billionths: performance, energy, cost.
pub open spec fn weights_of(profile: IndustryProfile) -> (nat, nat, nat) {
    match profile {
        IndustryProfile::WebServices => (400_000_000, 300_000_000, 300_000_000),
        IndustryProfile::IotEmbedded => (200_000_000, 600_000_000, 200_000_000),
        IndustryProfile::Financial => (500_000_000, 200_000_000, 300_000_000),
        IndustryProfile::Gaming => (600_000_000, 200_000_000, 200_000_000),
        IndustryProfile::Enterprise => (300_000_000, 300_000_000, 400_000_000),
        IndustryProfile::Custom(w) => (w.performance@, w.energy@, w.cost@),
    }
}

impl IndustryProfile {
    /// The profile's weights sum to one within the tolerance. Every preset
    /// is well formed; a custom profile is as its weights are.
    pub open spec fn well_formed(&self) -> bool {
        sums_to_one(weights_of(*self).0, weights_of(*self).1, weights_of(*self).2)
    }

    /// The weights of the profile. Those of a preset sum to one exactly.
    pub fn weights(&self) -> (w: ProfileWeights)
        ensures
            (w.performance@, w.energy@, w.cost@) == weights_of(*self),
            !(self is Custom) ==> w.performance@ + w.energy@ + w.cost@ == UNIT,
            self.well_formed() == w.well_formed(),
    {
        match self {
            IndustryProfile::WebServices => preset(400_000_000, 300_000_000, 300_000_000),
            IndustryProfile::IotEmbedded => preset(200_000_000, 600_000_000, 200_000_000),
            IndustryProfile::Financial => preset(500_000_000, 200_000_000, 300_000_000),
            IndustryProfile::Gaming => preset(600_000_000, 200_000_000, 200_000_000),
            IndustryProfile::Enterprise => preset(300_000_000, 300_000_000, 400_000_000),
            IndustryProfile::Custom(w) => *w,
        }
    }
}

fn preset(performance: u128, energy: u128, cost: u128) -> (w: ProfileWeights)
    requires
        sums_to_one(performance as nat, energy as nat, cost as nat),
    ensures
        w.performance@ == performance,
        w.energy@ == energy,
        w.cost@ == cost,
{
    ProfileWeights::new(
        Decimal::from_nanos(performance),
        Decimal::from_nanos(energy),
        Decimal::from_nanos(cost),
    )
}

impl Default for IndustryProfile {
    fn default() -> (p: Self)
        ensures
            p is WebServices,
    {
        IndustryProfile::WebServices
    }
}

/// The weights of every preset sum to one exactly, and so every preset is
/// well formed.
pub proof fn lemma_presets_sum_to_one(profile: IndustryProfile)
    requires
        !(profile is Custom),
    ensures
        weights_of(profile).0 + weights_of(profile).1 + weights_of(profile).2 == UNIT,
        profile.well_formed(),
{
}

} // verus!
