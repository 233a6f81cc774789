use super::{
    buildings::{hundredth_share, lemma_building_rates},
    active_converters, converted,
    resources::{clamp_i128, clamp_u128},
    scaled, whole,
    workers::lemma_worker_rates,
    GameStateView,
};
use vstd::prelude::*;

verus! {

/// Saturating arithmetic: an amount that fits in a `u128` is kept as it is, one below zero
/// becomes zero and one above the top becomes the top.
pub proof fn law_saturation(x: int)
    ensures
        0 <= x <= u128::MAX ==> clamp_u128(x) == x,
        x < 0 ==> clamp_u128(x) == 0,
        x > u128::MAX ==> clamp_u128(x) == u128::MAX,
        i128::MIN <= x <= i128::MAX ==> clamp_i128(x) == x,
        x < i128::MIN ==> clamp_i128(x) == i128::MIN,
        x > i128::MAX ==> clamp_i128(x) == i128::MAX,
{
}

/// The whole units in an amount are the thousands of milli units it holds, rounded down.
pub proof fn law_whole_units(milli: u128)
    ensures
        whole(milli) * 1000 <= milli < (whole(milli) + 1) * 1000,
{
}

/// What `units` whole units yield at `rate` milli units each is their product, or the top
/// of `u128` when the product does not fit.
pub proof fn law_scaled_is_product(units: u128, rate: u128)
    ensures
        units * rate <= u128::MAX ==> scaled(units, rate) == units * rate,
        units * rate > u128::MAX ==> scaled(units, rate) == u128::MAX,
{
    assert(units * rate >= 0) by (nonlinear_arith);
}

/// A resource made of `amount` whole units holds exactly `amount` whole units again,
/// as long as its milli amount fits in a `u128`.
pub proof fn law_whole_units_round_trip(amount: u128)
    requires
        amount * 1000 <= u128::MAX,
    ensures
        whole(clamp_u128(amount * 1000)) == amount,
{
}

/// Adding a unit and then taking one away gives back the amount that was there,
/// unless the addition saturated.
pub proof fn law_increment_then_decrement(milli: u128)
    requires
        milli + 1000 <= u128::MAX,
    ensures
        clamp_u128(clamp_u128(milli + 1000) - 1000) == milli,
{
}

/// Adding an amount and then removing the same amount gives back what was there,
/// unless the addition saturated.
pub proof fn law_add_then_remove(milli: u128, amount: u128)
    requires
        milli + amount <= u128::MAX,
    ensures
        clamp_u128(clamp_u128(milli + amount) - amount) == milli,
{
}

/// Applying the difference between what was produced and what was consumed changes an
/// amount by exactly `produced - consumed` (saturating at both ends of `u128`), whenever
/// that difference fits in an `i128`.
pub proof fn law_update_by_diff(milli: u128, produced: u128, consumed: u128)
    requires
        i128::MIN <= produced - consumed <= i128::MAX,
    ensures
        clamp_u128(milli + clamp_i128(produced - consumed)) == clamp_u128(milli + produced - consumed),
{
}

/// Converters never use more input than there is: the working units take (`cost` each)
/// at most what is held plus what is made, never more units work than there are, and
/// the output is what the working units make.
pub proof fn law_converters_are_fed(base: u128, production: u128, units: u128, cost: u128, rate: u128)
    requires
        cost > 0,
        base + production <= u128::MAX,
    ensures
        active_converters(base, production, units, cost) <= units,
        active_converters(base, production, units, cost) * cost <= base + production,
        active_converters(base, production, units, cost) == units || base + production < (
        active_converters(base, production, units, cost) + 1) * cost,
        converted(base, production, units, cost, rate) == clamp_u128(
            active_converters(base, production, units, cost) * rate,
        ),
{
    let available = clamp_u128(base + production) / cost;
    let active = active_converters(base, production, units, cost);
    assert(available * cost <= base + production) by (nonlinear_arith)
        requires
            available == (base + production) / (cost as int),
            cost > 0,
    ;
    assert(active * cost <= available * cost) by (nonlinear_arith)
        requires
            active <= available,
    ;
    assert(base + production < (available + 1) * cost) by (nonlinear_arith)
        requires
            available == (base + production) / (cost as int),
            cost > 0,
    ;
}

/// Without enough input for even one unit, converters make nothing.
pub proof fn law_converters_need_input(base: u128, production: u128, units: u128, cost: u128, rate: u128)
    requires
        cost > 0,
        base + production < cost,
    ensures
        converted(base, production, units, cost, rate) == 0,
{
    assert(clamp_u128(base + production) == base + production);
    assert((base + production) / (cost as int) == 0) by (nonlinear_arith)
        requires
            0 <= base + production < cost,
    ;
    assert(active_converters(base, production, units, cost) == 0);
}

/// Lumberjacks make no wood without gold to be paid with, furnaces make no energy
/// without wood to burn, and factories make no miners without energy: when what is held
/// plus what is made in the same update is less than one unit's cost, nothing comes out.
pub proof fn law_no_input_no_output(s: GameStateView)
    ensures
        s.gold + s.gold_produced() < 10 ==> s.wood_produced() == 0,
        s.wood + s.wood_produced() < 10 ==> s.energy_produced() == 0,
        s.energy + s.energy_produced() < 10 ==> s.miners_produced() == 0,
{
    lemma_building_rates();
    lemma_worker_rates();
    if s.gold + s.gold_produced() < 10 {
        law_converters_need_input(s.gold, s.gold_produced(), whole(s.lumberjacks), 10, 10);
    }
    if s.wood + s.wood_produced() < 10 {
        law_converters_need_input(s.wood, s.wood_produced(), whole(s.furnaces), 10, 10);
    }
    if s.energy + s.energy_produced() < 10 {
        law_converters_need_input(s.energy, s.energy_produced(), whole(s.factories), 10, 10);
    }
}

/// An update never changes the buildings, the recruiters or the monsters.
pub proof fn law_update_keeps_buildings(s: GameStateView)
    ensures
        s.after_update().banks == s.banks,
        s.after_update().furnaces == s.furnaces,
        s.after_update().factories == s.factories,
        s.after_update().recruiters == s.recruiters,
        s.after_update().monsters == s.monsters,
{
}

/// Without whole workers or buildings, an update changes nothing.
pub proof fn law_update_idle(s: GameStateView)
    requires
        whole(s.banks) == 0,
        whole(s.furnaces) == 0,
        whole(s.factories) == 0,
        whole(s.miners) == 0,
        whole(s.lumberjacks) == 0,
        whole(s.recruiters) == 0,
        whole(s.monsters) == 0,
    ensures
        s.after_update() == s,
{
    lemma_building_rates();
    lemma_worker_rates();
    assert(s.after_update() =~= s);
}

/// Each whole miner adds 10 milli gold per update (1 gold per second), when there are
/// no banks or lumberjacks.
pub proof fn law_miners_grow_gold(s: GameStateView)
    requires
        whole(s.banks) == 0,
        whole(s.lumberjacks) == 0,
    ensures
        s.after_update().gold == clamp_u128(s.gold + scaled(whole(s.miners), 10)),
{
    lemma_building_rates();
    lemma_worker_rates();
}

/// Each whole bank adds a hundredth of the gold held per update, when there are no
/// miners or lumberjacks; the gold saturates at the top of `u128`.
pub proof fn law_banks_grow_gold(s: GameStateView)
    requires
        whole(s.miners) == 0,
        whole(s.lumberjacks) == 0,
    ensures
        s.after_update().gold == clamp_u128(s.gold + whole(s.banks) * (s.gold / 100)),
{
    lemma_building_rates();
    lemma_worker_rates();
    let p = whole(s.banks) * (s.gold / 100);
    let b: int = whole(s.banks) as int;
    let g: int = (s.gold / 100) as int;
    assert(b * g >= 0) by (nonlinear_arith)
        requires
            b >= 0,
            g >= 0,
    ;
    assert(scaled(whole(s.miners), 10) == 0);
    assert(scaled(whole(s.lumberjacks), 10) == 0);
}

/// Furnaces turn wood into as much energy, 10 milli units per furnace and update, as long
/// as there is wood for all of them and no factory uses the energy.
pub proof fn law_furnaces_convert_wood(s: GameStateView)
    requires
        whole(s.factories) == 0,
        whole(s.lumberjacks) == 0,
        whole(s.furnaces) * 10 <= s.wood,
    ensures
        s.after_update().energy == clamp_u128(s.energy + whole(s.furnaces) * 10),
        s.after_update().wood == s.wood - whole(s.furnaces) * 10,
{
    lemma_building_rates();
    lemma_worker_rates();
    let u = whole(s.furnaces);
    assert(u <= clamp_u128(s.wood + 0) / 10) by (nonlinear_arith)
        requires
            u * 10 <= s.wood,
            clamp_u128(s.wood + 0) == s.wood,
    ;
}

/// Converters that each take and give 10 milli units, fed by `supply` milli units in
/// all: when the supply covers every unit, every unit works; otherwise the output is the
/// supply rounded down to a multiple of 10, so less than one unit's share of it is left
/// over. The output never exceeds either bound.
proof fn lemma_fed_converters(base: u128, production: u128, units: u128)
    requires
        units * 10 <= u128::MAX,
    ensures
        converted(base, production, units, 10, 10) <= units * 10,
        converted(base, production, units, 10, 10) <= clamp_u128(base + production),
        clamp_u128(base + production) >= units * 10 ==> converted(base, production, units, 10, 10)
            == units * 10,
        clamp_u128(base + production) < units * 10 ==> converted(base, production, units, 10, 10)
            + 10 > clamp_u128(base + production),
{
}

/// Lumberjacks each make 10 milli wood per update (1 wood per second) when the gold held
/// plus the gold made in the update pays all of them (10 milli each); when it does not,
/// they make as much wood as there is gold to pay, rounded down to whole wages.
pub proof fn law_lumberjacks_make_wood(s: GameStateView)
    ensures
        s.wood_produced() <= whole(s.lumberjacks) * 10,
        s.wood_produced() <= s.gold + s.gold_produced(),
        s.gold + s.gold_produced() >= whole(s.lumberjacks) * 10 ==> s.wood_produced() == whole(
            s.lumberjacks,
        ) * 10,
        s.gold + s.gold_produced() < whole(s.lumberjacks) * 10 ==> s.wood_produced() + 10 > s.gold
            + s.gold_produced(),
{
    lemma_building_rates();
    lemma_worker_rates();
    lemma_fed_converters(s.gold, s.gold_produced(), whole(s.lumberjacks));
}

/// Furnaces each make 10 milli energy per update (1 energy per second) when the wood held
/// plus the wood made in the update feeds all of them (10 milli each); when it does not,
/// they make as much energy as there is wood, rounded down to whole shares.
pub proof fn law_furnaces_make_energy(s: GameStateView)
    ensures
        s.energy_produced() <= whole(s.furnaces) * 10,
        s.energy_produced() <= s.wood + s.wood_produced(),
        s.wood + s.wood_produced() >= whole(s.furnaces) * 10 ==> s.energy_produced() == whole(
            s.furnaces,
        ) * 10,
        s.wood + s.wood_produced() < whole(s.furnaces) * 10 ==> s.energy_produced() + 10 > s.wood
            + s.wood_produced(),
{
    lemma_building_rates();
    lemma_worker_rates();
    law_lumberjacks_make_wood(s);
    lemma_fed_converters(s.wood, s.wood_produced(), whole(s.furnaces));
}

/// Factories each make 10 milli miners per update (1 miner per second) when the energy
/// held plus the energy made in the update powers all of them (10 milli each); when it
/// does not, they make as many miners as there is energy, rounded down to whole shares.
pub proof fn law_factories_make_miners(s: GameStateView)
    ensures
        s.miners_produced() <= whole(s.factories) * 10,
        s.miners_produced() <= s.energy + s.energy_produced(),
        s.energy + s.energy_produced() >= whole(s.factories) * 10 ==> s.miners_produced() == whole(
            s.factories,
        ) * 10,
        s.energy + s.energy_produced() < whole(s.factories) * 10 ==> s.miners_produced() + 10
            > s.energy + s.energy_produced(),
{
    lemma_building_rates();
    lemma_worker_rates();
    law_furnaces_make_energy(s);
    lemma_fed_converters(s.energy, s.energy_produced(), whole(s.factories));
}

/// Gold made in an update: 10 milli per whole miner plus a hundredth of the gold held per
/// whole bank, saturating at the top of `u128`; lumberjacks hired by recruiters: a
/// hundredth of the gold held per whole recruiter, saturating likewise.
pub proof fn law_gold_and_recruits_made(s: GameStateView)
    ensures
        whole(s.miners) * 10 + whole(s.banks) * (s.gold / 100) <= u128::MAX ==> s.gold_produced()
            == whole(s.miners) * 10 + whole(s.banks) * (s.gold / 100),
        whole(s.miners) * 10 + whole(s.banks) * (s.gold / 100) > u128::MAX ==> s.gold_produced()
            == u128::MAX,
        whole(s.recruiters) * (s.gold / 100) <= u128::MAX ==> s.lumberjacks_produced() == whole(
            s.recruiters,
        ) * (s.gold / 100),
        whole(s.recruiters) * (s.gold / 100) > u128::MAX ==> s.lumberjacks_produced()
            == u128::MAX,
{
    lemma_building_rates();
    lemma_worker_rates();
    let b: int = whole(s.banks) as int;
    let r: int = whole(s.recruiters) as int;
    let g: int = (s.gold / 100) as int;
    assert(b * g >= 0 && r * g >= 0) by (nonlinear_arith)
        requires
            b >= 0,
            r >= 0,
            g >= 0,
    ;
}

/// An update keeps the books of every resource that is made and used in the same step:
/// what is held afterwards plus what was used equals what was held plus what was made,
/// unless the result would fall below zero (then nothing is left) or rise above the top
/// of `u128` (then it stops there). Wood is made by lumberjacks and burnt by furnaces
/// (10 milli each), gold is made by miners and banks and paid to lumberjacks (10 milli
/// each), energy is made by furnaces and used by factories (10 milli each), lumberjacks
/// are hired by recruiters and eaten by monsters (10 milli each), and miners are only
/// made, by factories.
pub proof fn law_update_balances(s: GameStateView)
    ensures
        s.wood + s.wood_produced() >= whole(s.furnaces) * 10 && s.wood + s.wood_produced() - whole(
            s.furnaces,
        ) * 10 <= u128::MAX ==> s.after_update().wood + whole(s.furnaces) * 10 == s.wood
            + s.wood_produced(),
        s.wood + s.wood_produced() < whole(s.furnaces) * 10 ==> s.after_update().wood == 0,
        s.wood + s.wood_produced() - whole(s.furnaces) * 10 > u128::MAX ==> s.after_update().wood
            == u128::MAX,
        s.gold + s.gold_produced() >= whole(s.lumberjacks) * 10 && s.gold + s.gold_produced()
            - whole(s.lumberjacks) * 10 <= u128::MAX ==> s.after_update().gold + whole(
            s.lumberjacks,
        ) * 10 == s.gold + s.gold_produced(),
        s.gold + s.gold_produced() < whole(s.lumberjacks) * 10 ==> s.after_update().gold == 0,
        s.gold + s.gold_produced() - whole(s.lumberjacks) * 10 > u128::MAX ==> s.after_update().gold
            == u128::MAX,
        s.energy + s.energy_produced() >= whole(s.factories) * 10 && s.energy + s.energy_produced()
            - whole(s.factories) * 10 <= u128::MAX ==> s.after_update().energy + whole(s.factories)
            * 10 == s.energy + s.energy_produced(),
        s.energy + s.energy_produced() < whole(s.factories) * 10 ==> s.after_update().energy == 0,
        s.energy + s.energy_produced() - whole(s.factories) * 10 > u128::MAX ==> s.after_update().energy
            == u128::MAX,
        s.lumberjacks + s.lumberjacks_produced() >= whole(s.monsters) * 10 && s.lumberjacks
            + s.lumberjacks_produced() - whole(s.monsters) * 10 <= u128::MAX ==> s.after_update().lumberjacks
            + whole(s.monsters) * 10 == s.lumberjacks + s.lumberjacks_produced(),
        s.lumberjacks + s.lumberjacks_produced() < whole(s.monsters) * 10 ==> s.after_update().lumberjacks
            == 0,
        s.lumberjacks + s.lumberjacks_produced() - whole(s.monsters) * 10 > u128::MAX
            ==> s.after_update().lumberjacks == u128::MAX,
        s.miners + s.miners_produced() <= u128::MAX ==> s.after_update().miners == s.miners
            + s.miners_produced(),
        s.miners + s.miners_produced() > u128::MAX ==> s.after_update().miners == u128::MAX,
{
    lemma_building_rates();
    lemma_worker_rates();
}

/// Chopping adds exactly one whole wood (1000 milli) to the wood held, stopping at the top
/// of `u128`, and leaves every other amount as it was.
pub proof fn law_chop_adds_one_wood(s: GameStateView)
    ensures
        s.wood + 1000 <= u128::MAX ==> s.after_chop().wood == s.wood + 1000,
        s.wood + 1000 > u128::MAX ==> s.after_chop().wood == u128::MAX,
        s.after_chop().gold == s.gold,
        s.after_chop().energy == s.energy,
        s.after_chop().banks == s.banks,
        s.after_chop().furnaces == s.furnaces,
        s.after_chop().factories == s.factories,
        s.after_chop().miners == s.miners,
        s.after_chop().lumberjacks == s.lumberjacks,
        s.after_chop().recruiters == s.recruiters,
        s.after_chop().monsters == s.monsters,
{
}

/// Selling wood takes exactly 25 whole wood (25000 milli) and gives one whole gold (1000
/// milli, stopping at the top of `u128`) when at least 25 whole wood are held, and
/// changes nothing otherwise; no other amount ever changes.
pub proof fn law_sell_wood_trades_wood_for_gold(s: GameStateView)
    ensures
        s.wood >= 25000 ==> s.after_sell_wood().wood + 25000 == s.wood,
        s.wood >= 25000 && s.gold + 1000 <= u128::MAX ==> s.after_sell_wood().gold == s.gold + 1000,
        s.wood >= 25000 && s.gold + 1000 > u128::MAX ==> s.after_sell_wood().gold == u128::MAX,
        s.wood < 25000 ==> s.after_sell_wood().wood == s.wood && s.after_sell_wood().gold == s.gold,
        s.after_sell_wood().energy == s.energy,
        s.after_sell_wood().banks == s.banks,
        s.after_sell_wood().furnaces == s.furnaces,
        s.after_sell_wood().factories == s.factories,
        s.after_sell_wood().miners == s.miners,
        s.after_sell_wood().lumberjacks == s.lumberjacks,
        s.after_sell_wood().recruiters == s.recruiters,
        s.after_sell_wood().monsters == s.monsters,
{
}

/// Hiring a miner takes exactly 5 whole gold (5000 milli) and adds one miner (1000 milli,
/// stopping at the top of `u128`) to those already held when at least 5 whole gold are
/// held, and changes nothing otherwise; no other amount ever changes.
pub proof fn law_hire_miner_spends_gold(s: GameStateView)
    ensures
        s.gold >= 5000 ==> s.after_hire_miner().gold + 5000 == s.gold,
        s.gold >= 5000 && s.miners + 1000 <= u128::MAX ==> s.after_hire_miner().miners == s.miners
            + 1000,
        s.gold >= 5000 && s.miners + 1000 > u128::MAX ==> s.after_hire_miner().miners == u128::MAX,
        s.gold < 5000 ==> s.after_hire_miner().gold == s.gold && s.after_hire_miner().miners
            == s.miners,
        s.after_hire_miner().wood == s.wood,
        s.after_hire_miner().energy == s.energy,
        s.after_hire_miner().banks == s.banks,
        s.after_hire_miner().furnaces == s.furnaces,
        s.after_hire_miner().factories == s.factories,
        s.after_hire_miner().lumberjacks == s.lumberjacks,
        s.after_hire_miner().recruiters == s.recruiters,
        s.after_hire_miner().monsters == s.monsters,
{
}

/// Hiring a lumberjack costs nothing: it adds one lumberjack (1000 milli, stopping at the
/// top of `u128`) to those already held and leaves every other amount as it was.
pub proof fn law_hire_lumberjack_is_free(s: GameStateView)
    ensures
        s.lumberjacks + 1000 <= u128::MAX ==> s.after_hire_lumberjack().lumberjacks == s.lumberjacks
            + 1000,
        s.lumberjacks + 1000 > u128::MAX ==> s.after_hire_lumberjack().lumberjacks == u128::MAX,
        s.after_hire_lumberjack().wood == s.wood,
        s.after_hire_lumberjack().gold == s.gold,
        s.after_hire_lumberjack().energy == s.energy,
        s.after_hire_lumberjack().banks == s.banks,
        s.after_hire_lumberjack().furnaces == s.furnaces,
        s.after_hire_lumberjack().factories == s.factories,
        s.after_hire_lumberjack().miners == s.miners,
        s.after_hire_lumberjack().recruiters == s.recruiters,
        s.after_hire_lumberjack().monsters == s.monsters,
{
}

} // verus!
