use self::{
    buildings::{hundredth_share, lemma_building_rates, Bank, BankMarker, Factory, FactoryMarker, Furnace, FurnaceMarker},
    resources::{clamp_i128, clamp_u128, saturating_mul_u128, Energy, Gold, Resource, ResourceDiff, Wood},
    workers::{
        lemma_worker_rates, Lumberjack, LumberjackMarker, Miner, MinerMarker, Monster, MonsterMarker, Recruiter,
        RecruiterMarker,
    },
};
use vstd::prelude::*;

pub mod buildings;
pub mod laws;
pub mod resources;
pub mod workers;

verus! {

/// Whole units of wood that the marketplace takes for one gold.
pub const WOOD_PER_GOLD: u128 = 25;

/// Whole units of gold that a miner costs.
pub const MINER_GOLD_COST: u128 = 5;

/// The whole state of a game.
#[derive(Debug, Clone, PartialEq, Eq)]
pub struct GameState {
    // Basic resources
    pub wood: Wood,
    pub gold: Gold,
    pub energy: Energy,
    // Buildings
    pub banks: Bank,
    pub furnaces: Furnace,
    pub factories: Factory,
    // Workers
    pub miners: Miner,
    pub lumberjacks: Lumberjack,
    pub recruiters: Recruiter,
    pub monsters: Monster,
}

/// The amounts of a game state, each in milli units.
pub struct GameStateView {
    pub wood: u128,
    pub gold: u128,
    pub energy: u128,
    pub banks: u128,
    pub furnaces: u128,
    pub factories: u128,
    pub miners: u128,
    pub lumberjacks: u128,
    pub recruiters: u128,
    pub monsters: u128,
}

impl View for GameState {
    type V = GameStateView;

    open spec fn view(&self) -> GameStateView {
        GameStateView {
            wood: self.wood@,
            gold: self.gold@,
            energy: self.energy@,
            banks: self.banks@,
            furnaces: self.furnaces@,
            factories: self.factories@,
            miners: self.miners@,
            lumberjacks: self.lumberjacks@,
            recruiters: self.recruiters@,
            monsters: self.monsters@,
        }
    }
}

/// Whole units in an amount of milli units.
pub open spec fn whole(milli: u128) -> u128 {
    (milli / 1000) as u128
}

/// What `units` whole units yield at `rate` milli units each (saturating).
pub open spec fn scaled(units: u128, rate: u128) -> u128 {
    clamp_u128(units * rate)
}

/// How many of `units` converters work in an update when each takes `cost` milli units
/// of input, `base` milli units are held and `production` more are made in the same
/// update: only as many as the input can feed.
pub open spec fn active_converters(base: u128, production: u128, units: u128, cost: u128) -> u128
    recommends
        cost > 0,
{
    let available = clamp_u128(base + production) / cost;
    if units < available {
        units
    } else {
        available
    }
}

/// The output of the working converters, at `rate` milli units each (saturating).
pub open spec fn converted(base: u128, production: u128, units: u128, cost: u128, rate: u128) -> u128
    recommends
        cost > 0,
{
    clamp_u128(active_converters(base, production, units, cost) * rate)
}

impl GameStateView {
    /// Gold that miners and banks make in one update.
    pub open spec fn gold_produced(self) -> u128 {
        clamp_u128(
            scaled(whole(self.miners), MinerMarker::MILLI_PRODUCE_PER_UPDATE) + hundredth_share(
                self.gold,
                whole(self.banks),
            ),
        )
    }

    /// Wood that lumberjacks make in one update, paid from the gold held and made.
    pub open spec fn wood_produced(self) -> u128 {
        converted(
            self.gold,
            self.gold_produced(),
            whole(self.lumberjacks),
            LumberjackMarker::MILLI_COST_PER_UPDATE,
            LumberjackMarker::MILLI_PRODUCE_PER_UPDATE,
        )
    }

    /// Energy that furnaces make in one update, burning the wood held and made.
    pub open spec fn energy_produced(self) -> u128 {
        converted(
            self.wood,
            self.wood_produced(),
            whole(self.furnaces),
            FurnaceMarker::MILLI_COST_PER_UPDATE,
            FurnaceMarker::MILLI_PRODUCE_PER_UPDATE,
        )
    }

    /// Miners that factories make in one update, powered by the energy held and made.
    pub open spec fn miners_produced(self) -> u128 {
        converted(
            self.energy,
            self.energy_produced(),
            whole(self.factories),
            FactoryMarker::MILLI_COST_PER_UPDATE,
            FactoryMarker::MILLI_PRODUCE_PER_UPDATE,
        )
    }

    /// Lumberjacks that recruiters hire in one update.
    pub open spec fn lumberjacks_produced(self) -> u128 {
        hundredth_share(self.gold, whole(self.recruiters))
    }

    /// The amounts after chopping a tree: one more wood.
    pub open spec fn after_chop(self) -> GameStateView {
        GameStateView { wood: clamp_u128(self.wood + 1000), ..self }
    }

    /// The amounts after selling wood: with at least `WOOD_PER_GOLD` whole wood, that much
    /// wood less and one gold more; without, nothing changes.
    pub open spec fn after_sell_wood(self) -> GameStateView {
        if whole(self.wood) >= WOOD_PER_GOLD {
            GameStateView {
                wood: (self.wood - WOOD_PER_GOLD * 1000) as u128,
                gold: clamp_u128(self.gold + 1000),
                ..self
            }
        } else {
            self
        }
    }

    /// The amounts after hiring a miner: with at least `MINER_GOLD_COST` whole gold, that
    /// much gold less and one miner more; without, nothing changes.
    pub open spec fn after_hire_miner(self) -> GameStateView {
        if whole(self.gold) >= MINER_GOLD_COST {
            GameStateView {
                gold: (self.gold - MINER_GOLD_COST * 1000) as u128,
                miners: clamp_u128(self.miners + 1000),
                ..self
            }
        } else {
            self
        }
    }

    /// The amounts after hiring a lumberjack, which costs nothing.
    pub open spec fn after_hire_lumberjack(self) -> GameStateView {
        GameStateView { lumberjacks: clamp_u128(self.lumberjacks + 1000), ..self }
    }

    /// The amounts after one update.
    pub open spec fn after_update(self) -> GameStateView {
        GameStateView {
            wood: clamp_u128(
                self.wood + self.wood_produced() - scaled(whole(self.furnaces), FurnaceMarker::MILLI_COST_PER_UPDATE),
            ),
            gold: clamp_u128(
                self.gold + self.gold_produced() - scaled(whole(self.lumberjacks), LumberjackMarker::MILLI_COST_PER_UPDATE),
            ),
            energy: clamp_u128(
                self.energy + self.energy_produced() - scaled(whole(self.factories), FactoryMarker::MILLI_COST_PER_UPDATE),
            ),
            lumberjacks: clamp_u128(
                self.lumberjacks + self.lumberjacks_produced() - scaled(whole(self.monsters), MonsterMarker::MILLI_COST_PER_UPDATE),
            ),
            miners: clamp_u128(self.miners + self.miners_produced()),
            ..self
        }
    }
}

impl GameState {
    /// The amounts of a fresh game: nothing at all.
    pub open spec fn default_view() -> GameStateView {
        GameStateView {
            wood: 0,
            gold: 0,
            energy: 0,
            banks: 0,
            furnaces: 0,
            factories: 0,
            miners: 0,
            lumberjacks: 0,
            recruiters: 0,
            monsters: 0,
        }
    }
}

impl Default for GameState {
    fn default() -> (r: Self)
        ensures
            r@ == GameState::default_view(),
    {
        GameState {
            wood: Resource::default(),
            gold: Resource::default(),
            energy: Resource::default(),
            banks: Resource::default(),
            furnaces: Resource::default(),
            factories: Resource::default(),
            miners: Resource::default(),
            lumberjacks: Resource::default(),
            recruiters: Resource::default(),
            monsters: Resource::default(),
        }
    }
}

impl GameState {
    /// Manually chop down a tree to get wood.
    pub fn chop(&mut self)
        ensures
            final(self)@ == old(self)@.after_chop(),
    {
        self.wood.increment();
    }

    /// Sell some wood at the marketplace for gold; nothing happens without enough wood.
    pub fn sell_wood(&mut self)
        ensures
            final(self)@ == old(self)@.after_sell_wood(),
    {
        if self.wood.raw_amount() >= WOOD_PER_GOLD {
            self.wood.remove(Wood::new(WOOD_PER_GOLD));
            self.gold.increment();
        }
    }

    /// Spend gold to hire a miner; nothing happens without enough gold.
    pub fn hire_miner(&mut self)
        ensures
            final(self)@ == old(self)@.after_hire_miner(),
    {
        if self.gold.raw_amount() >= MINER_GOLD_COST {
            self.gold.remove(Gold::new(MINER_GOLD_COST));
            self.miners.increment();
        }
    }

    /// Hire a lumberjack, which costs nothing.
    pub fn hire_lumberjack(&mut self)
        ensures
            final(self)@ == old(self)@.after_hire_lumberjack(),
    {
        self.lumberjacks.increment();
    }

    /// One step of the game (one update per 10ms, 100 updates per second): every worker
    /// and building produces and consumes once.
    pub fn update(&mut self)
        ensures
            final(self)@ == old(self)@.after_update(),
    {
        proof {
            lemma_building_rates();
            lemma_worker_rates();
        }
        let produced_gold = MinerMarker::produce(&self.miners).saturating_add(
            BankMarker::produce(&self.gold, &self.banks),
        );
        let produced_wood = LumberjackMarker::produce(&self.gold, &produced_gold, &self.lumberjacks);
        let produced_energy = FurnaceMarker::produce(&self.wood, &produced_wood, &self.furnaces);
        let produced_miners = FactoryMarker::produce(&self.energy, &produced_energy, &self.factories);
        let produced_lumberjacks = RecruiterMarker::produce(&self.gold, &self.recruiters);

        let consumed_wood = FurnaceMarker::consume(&self.furnaces);
        let consumed_gold = LumberjackMarker::consume(&self.lumberjacks);
        let consumed_energy = FactoryMarker::consume(&self.factories);
        let consumed_lumberjacks = MonsterMarker::consume(&self.monsters);

        self.wood.apply_net(produced_wood, consumed_wood);
        self.gold.apply_net(produced_gold, consumed_gold);
        self.energy.apply_net(produced_energy, consumed_energy);
        self.lumberjacks.apply_net(produced_lumberjacks, consumed_lumberjacks);
        self.miners = self.miners.saturating_add(produced_miners);
    }
}

/// Something that makes resource `R` out of nothing.
pub trait Producer<R>: Sized {
    /// Milli units of `R` that one unit makes per update.
    const MILLI_PRODUCE_PER_UPDATE: u128;

    /// What `units` make in one update.
    fn produce(units: &Resource<Self>) -> (r: Resource<R>)
        ensures
            r@ == scaled(units.units(), Self::MILLI_PRODUCE_PER_UPDATE),
    {
        let amount = saturating_mul_u128(units.raw_amount(), Self::MILLI_PRODUCE_PER_UPDATE);
        Resource::new_milli(amount)
    }
}

/// Something that uses up resource `R`.
pub trait Consumer<R>: Sized {
    /// Milli units of `R` that one unit uses per update.
    const MILLI_COST_PER_UPDATE: u128;

    /// What `units` use in one update.
    fn consume(units: &Resource<Self>) -> (r: Resource<R>)
        ensures
            r@ == scaled(units.units(), Self::MILLI_COST_PER_UPDATE),
    {
        let amount = saturating_mul_u128(units.raw_amount(), Self::MILLI_COST_PER_UPDATE);
        Resource::new_milli(amount)
    }
}

/// Convert resource R1 into resource R2.
pub trait Converter<R1, R2>: Sized {
    /// Milli units of `R1` that one unit uses per update.
    const MILLI_COST_PER_UPDATE: u128;

    /// Milli units of `R2` that one working unit makes per update.
    const MILLI_PRODUCE_PER_UPDATE: u128;

    /// What `units` use in one update when all of them work.
    fn consume(units: &Resource<Self>) -> (r: Resource<R1>)
        ensures
            r@ == scaled(units.units(), Self::MILLI_COST_PER_UPDATE),
    {
        let amount = saturating_mul_u128(units.raw_amount(), Self::MILLI_COST_PER_UPDATE);
        Resource::new_milli(amount)
    }

    /// What `units` make in one update out of `base` held and `production` made.
    fn produce(base: &Resource<R1>, production: &Resource<R1>, units: &Resource<Self>) -> (r:
        Resource<R2>)
        requires
            Self::MILLI_COST_PER_UPDATE > 0,
        ensures
            r@ == converted(
                base@,
                production@,
                units.units(),
                Self::MILLI_COST_PER_UPDATE,
                Self::MILLI_PRODUCE_PER_UPDATE,
            ),
    {
        let available = base.raw_milli_amount().saturating_add(production.raw_milli_amount())
            / Self::MILLI_COST_PER_UPDATE;
        let unit_count = units.raw_amount();
        let active_units = if unit_count < available { unit_count } else { available };
        let amount = saturating_mul_u128(active_units, Self::MILLI_PRODUCE_PER_UPDATE);
        Resource::new_milli(amount)
    }
}

/// The change from `consumed` to `produced`, saturating at the bounds of `i128`.
pub fn diff<R>(produced: Resource<R>, consumed: Resource<R>) -> (r: ResourceDiff<R>)
    ensures
        r@ == clamp_i128(produced@ - consumed@),
{
    let produced = produced.raw_milli_amount();
    let consumed = consumed.raw_milli_amount();
    let limit: u128 = 0x7fff_ffff_ffff_ffff_ffff_ffff_ffff_ffff;
    let diff: i128 = if produced > consumed {
        let d: u128 = produced - consumed;
        if d > limit {
            i128::MAX
        } else {
            d as i128
        }
    } else {
        let d: u128 = consumed - produced;
        if d > limit {
            i128::MIN
        } else {
            -(d as i128)
        }
    };
    ResourceDiff::new(diff)
}

} // verus!
