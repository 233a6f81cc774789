use super::{
    buildings::hundredth_share,
    resources::{saturating_mul_u128, Gold, GoldMarker, Resource, WoodMarker},
    Consumer, Converter, Producer,
};
use vstd::prelude::*;

verus! {

#[derive(Debug, Default, Clone, Copy, PartialEq, Eq)]
pub struct MinerMarker;

/// Worker.
/// Net produces 1 gold per second
/// (imagine paying miners, but they still mine more than you pay them).
pub type Miner = Resource<MinerMarker>;

impl Producer<GoldMarker> for MinerMarker {
    const MILLI_PRODUCE_PER_UPDATE: u128 = 10;
}

#[derive(Debug, Default, Clone, Copy, PartialEq, Eq)]
pub struct LumberjackMarker;

/// Worker.
/// Consumes 1 gold per second.
/// Produces 1 wood per second.
pub type Lumberjack = Resource<LumberjackMarker>;

impl Converter<GoldMarker, WoodMarker> for LumberjackMarker {
    const MILLI_COST_PER_UPDATE: u128 = 10;

    const MILLI_PRODUCE_PER_UPDATE: u128 = 10;
}

#[derive(Debug, Default, Clone, Copy, PartialEq, Eq)]
pub struct RecruiterMarker;

/// Worker.
/// Produces (auto-hires) 1 Lumberjack per update per 100 units of gold in our coffers.
pub type Recruiter = Resource<RecruiterMarker>;

impl RecruiterMarker {
    /// The lumberjacks that `units` recruiters hire with a supply of `base` gold.
    pub fn produce(base: &Gold, units: &Resource<Self>) -> (r: Lumberjack)
        ensures
            r@ == hundredth_share(base@, units.units()),
    {
        let amount_per_recruiter = base.raw_milli_amount() / 100;
        let total_amount = saturating_mul_u128(units.raw_amount(), amount_per_recruiter);
        Resource::new_milli(total_amount)
    }
}

#[derive(Debug, Default, Clone, Copy, PartialEq, Eq)]
pub struct MonsterMarker;

/// Worker.
/// Consumes (eats) 1 Lumberjack per second.
pub type Monster = Resource<MonsterMarker>;

impl Consumer<LumberjackMarker> for MonsterMarker {
    const MILLI_COST_PER_UPDATE: u128 = 10;
}

/// The rates of the workers, which other modules cannot read off the impls.
pub proof fn lemma_worker_rates()
    ensures
        MinerMarker::MILLI_PRODUCE_PER_UPDATE == 10,
        LumberjackMarker::MILLI_COST_PER_UPDATE == 10,
        LumberjackMarker::MILLI_PRODUCE_PER_UPDATE == 10,
        MonsterMarker::MILLI_COST_PER_UPDATE == 10,
{
}

} // verus!
