use std::marker::PhantomData;
use vstd::prelude::*;

verus! {

/// 1000 milli units per unit.
pub const MILLI_MULTIPLIER: u128 = 1000;

/// `x` clamped into the range of `u128`: what saturating arithmetic gives.
pub open spec fn clamp_u128(x: int) -> u128 {
    if x < 0 {
        0
    } else if x > u128::MAX {
        u128::MAX
    } else {
        x as u128
    }
}

/// `x` clamped into the range of `i128`.
pub open spec fn clamp_i128(x: int) -> i128 {
    if x < i128::MIN {
        i128::MIN
    } else if x > i128::MAX {
        i128::MAX
    } else {
        x as i128
    }
}

/// Saturating multiplication of two `u128`.
pub fn saturating_mul_u128(a: u128, b: u128) -> (r: u128)
    ensures
        r == clamp_u128(a * b),
{
    proof {
        assert(a * b >= 0) by (nonlinear_arith);
    }
    match a.checked_mul(b) {
        Some(p) => p,
        None => u128::MAX,
    }
}

/// The absolute value of an `i128`, which always fits in a `u128`.
pub fn unsigned_abs_i128(x: i128) -> (r: u128)
    ensures
        r == (if x < 0 { -x } else { x as int }),
{
    if x >= 0 {
        x as u128
    } else {
        let y: i128 = -(x + 1);
        (y as u128) + 1
    }
}

/// Generic basic resource, counted in thousandths of a unit.
#[derive(Debug, PartialEq, Eq)]
pub struct Resource<Marker> {
    milli_amount: u128,
    pd: PhantomData<Marker>,
}

impl<Marker> View for Resource<Marker> {
    type V = u128;

    /// The amount of the resource in milli units.
    closed spec fn view(&self) -> u128 {
        self.milli_amount
    }
}

impl<Marker> Resource<Marker> {
    /// The whole units held (milli units divided by 1000, rounded down).
    pub open spec fn units(&self) -> u128 {
        (self@ / MILLI_MULTIPLIER) as u128
    }

    /// A resource of `amount` whole units (saturating).
    pub fn new(amount: u128) -> (r: Self)
        ensures
            r@ == clamp_u128(amount * 1000),
    {
        Self { milli_amount: saturating_mul_u128(amount, MILLI_MULTIPLIER), pd: PhantomData }
    }

    /// A resource of `milli_amount` milli units.
    pub fn new_milli(milli_amount: u128) -> (r: Self)
        ensures
            r@ == milli_amount,
    {
        Self { milli_amount, pd: PhantomData }
    }

    /// Adds one whole unit (saturating).
    pub fn increment(&mut self)
        ensures
            final(self)@ == clamp_u128(old(self)@ + 1000),
    {
        self.milli_amount = self.milli_amount.saturating_add(MILLI_MULTIPLIER);
    }

    /// Takes away one whole unit (saturating at zero).
    pub fn decrement(&mut self)
        ensures
            final(self)@ == clamp_u128(old(self)@ - 1000),
    {
        self.milli_amount = self.milli_amount.saturating_sub(MILLI_MULTIPLIER);
    }

    /// The sum of two amounts (saturating).
    pub fn saturating_add(self, amount: Self) -> (r: Self)
        ensures
            r@ == clamp_u128(self@ + amount@),
    {
        Self { milli_amount: self.milli_amount.saturating_add(amount.milli_amount), pd: PhantomData }
    }

    /// Takes away `amount` (saturating at zero).
    pub fn remove(&mut self, amount: Self)
        ensures
            final(self)@ == clamp_u128(old(self)@ - amount@),
    {
        self.milli_amount = self.milli_amount.saturating_sub(amount.milli_amount);
    }

    /// The whole units held.
    pub fn raw_amount(&self) -> (r: u128)
        ensures
            r == self.units(),
            r == self@ / 1000,
    {
        self.milli_amount / MILLI_MULTIPLIER
    }

    /// The milli units held.
    pub fn raw_milli_amount(&self) -> (r: u128)
        ensures
            r == self@,
    {
        self.milli_amount
    }

    /// Adds what was `produced` and takes away what was `consumed` in the same step,
    /// saturating both ways: a surplus is added, a shortfall is taken away.
    pub fn apply_net(&mut self, produced: Self, consumed: Self)
        ensures
            final(self)@ == clamp_u128(old(self)@ + produced@ - consumed@),
    {
        if produced.milli_amount > consumed.milli_amount {
            self.milli_amount = self.milli_amount.saturating_add(
                produced.milli_amount - consumed.milli_amount,
            );
        } else {
            self.milli_amount = self.milli_amount.saturating_sub(
                consumed.milli_amount - produced.milli_amount,
            );
        }
    }

    /// Adds a positive difference or takes away a negative one (saturating both ways).
    pub fn update(&mut self, diff: ResourceDiff<Marker>)
        ensures
            final(self)@ == clamp_u128(old(self)@ + diff@),
    {
        self.milli_amount = if diff.milli_amount > 0 {
            self.milli_amount.saturating_add(diff.milli_amount as u128)
        } else {
            self.milli_amount.saturating_sub(unsigned_abs_i128(diff.milli_amount))
        };
    }
}

impl<Marker> Clone for Resource<Marker> {
    fn clone(&self) -> (r: Self)
        ensures
            r@ == self@,
    {
        Self { milli_amount: self.milli_amount, pd: PhantomData }
    }
}

impl<Marker> Copy for Resource<Marker> {

}

impl<Marker> Default for Resource<Marker> {
    fn default() -> (r: Self)
        ensures
            r@ == 0,
    {
        Self { milli_amount: 0, pd: PhantomData }
    }
}

/// A signed change of a resource, in milli units.
#[derive(Debug, PartialEq, Eq)]
pub struct ResourceDiff<Marker> {
    milli_amount: i128,
    pd: PhantomData<Marker>,
}

impl<Marker> View for ResourceDiff<Marker> {
    type V = i128;

    /// The change in milli units.
    closed spec fn view(&self) -> i128 {
        self.milli_amount
    }
}

impl<Marker> ResourceDiff<Marker> {
    /// A change of `milli_amount` milli units.
    pub fn new(milli_amount: i128) -> (r: Self)
        ensures
            r@ == milli_amount,
    {
        Self { milli_amount, pd: PhantomData }
    }
}

impl<Marker> Clone for ResourceDiff<Marker> {
    fn clone(&self) -> (r: Self)
        ensures
            r@ == self@,
    {
        Self { milli_amount: self.milli_amount, pd: PhantomData }
    }
}

impl<Marker> Copy for ResourceDiff<Marker> {

}

impl<Marker> Default for ResourceDiff<Marker> {
    fn default() -> (r: Self)
        ensures
            r@ == 0,
    {
        Self { milli_amount: 0, pd: PhantomData }
    }
}

#[derive(Debug, Default, Clone, Copy, PartialEq, Eq)]
pub struct WoodMarker;

/// Basic resource.
/// Produced manually (chopping).
/// Produced by Lumberjack worker.
/// Consumed by Furnace building.
pub type Wood = Resource<WoodMarker>;

#[derive(Debug, Default, Clone, Copy, PartialEq, Eq)]
pub struct GoldMarker;

/// Basic resource.
/// Produced manually (selling wood).
/// Produced by Miner worker.
/// Consumed by Lumberjack worker.
pub type Gold = Resource<GoldMarker>;

#[derive(Debug, Default, Clone, Copy, PartialEq, Eq)]
pub struct EnergyMarker;

/// Basic resource.
/// Produced by Furnace.
pub type Energy = Resource<EnergyMarker>;

} // verus!
