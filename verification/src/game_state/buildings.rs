use super::{
    resources::{clamp_u128, saturating_mul_u128, EnergyMarker, Gold, Resource, WoodMarker},
    workers::MinerMarker,
    Converter,
};
use vstd::prelude::*;

verus! {

#[derive(Debug, Default, Clone, Copy, PartialEq, Eq)]
pub struct FurnaceMarker;

/// Building.
/// Consumes 1 Wood per second.
/// Produces 1 Energy per second.
pub type Furnace = Resource<FurnaceMarker>;

impl Converter<WoodMarker, EnergyMarker> for FurnaceMarker {
    const MILLI_COST_PER_UPDATE: u128 = 10;

    const MILLI_PRODUCE_PER_UPDATE: u128 = 10;
}

#[derive(Debug, Default, Clone, Copy, PartialEq, Eq)]
pub struct FactoryMarker;

/// Building.
/// Consumes 1 Energy per second.
/// Produces 1 (robotic) Miner worker per second.
pub type Factory = Resource<FactoryMarker>;

impl Converter<EnergyMarker, MinerMarker> for FactoryMarker {
    const MILLI_COST_PER_UPDATE: u128 = 10;

    const MILLI_PRODUCE_PER_UPDATE: u128 = 10;
}

#[derive(Debug, Default, Clone, Copy, PartialEq, Eq)]
pub struct BankMarker;

/// Building.
/// Increases gold supply by 1% per update per bank.
pub type Bank = Resource<BankMarker>;

/// The rates of the furnaces and factories, which other modules cannot read off the impls.
pub proof fn lemma_building_rates()
    ensures
        FurnaceMarker::MILLI_COST_PER_UPDATE == 10,
        FurnaceMarker::MILLI_PRODUCE_PER_UPDATE == 10,
        FactoryMarker::MILLI_COST_PER_UPDATE == 10,
        FactoryMarker::MILLI_PRODUCE_PER_UPDATE == 10,
{
}

/// What `units` whole units produce when each yields a hundredth of `base_milli`
/// (saturating): the interest of banks, the hiring of recruiters.
pub open spec fn hundredth_share(base_milli: u128, units: u128) -> u128 {
    clamp_u128(units * (base_milli / 100))
}

impl BankMarker {
    /// The gold that `units` banks add to a supply of `base`.
    pub fn produce(base: &Gold, units: &Resource<Self>) -> (r: Gold)
        ensures
            r@ == hundredth_share(base@, units.units()),
    {
        let amount_per_bank = base.raw_milli_amount() / 100;
        let total_amount = saturating_mul_u128(units.raw_amount(), amount_per_bank);
        Resource::new_milli(total_amount)
    }
}

} // verus!
