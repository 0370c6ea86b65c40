//! The resource catalog: counted stocks (food, money, work force, ores,
//! refined products) and the scientific-research pool of experts.
use vstd::prelude::*;

verus! {

/// A stock of something the simulation counts.
pub trait Resource: Clone + Sized {

}

// ======================= Food =======================

/// An amount of food, from zero upward.
#[derive(Clone)]
pub struct Food {
    amount: u64,
}

impl View for Food {
    type V = u64;

    closed spec fn view(&self) -> u64 {
        self.amount
    }
}

impl Food {
    /// A stock holding the given amount.
    pub fn new(amount: u64) -> (r: Self)
        ensures
            r@ == amount,
    {
        Self { amount }
    }

    /// Add an amount of food.
    pub fn add(&mut self, amount: u64)
        requires
            old(self)@ + amount <= u64::MAX,
        ensures
            final(self)@ == old(self)@ + amount,
    {
        self.amount += amount;
    }

    /// Remove an amount of food; nothing is removed and false comes back
    /// when the stock is not enough.
    pub fn remove(&mut self, amount: u64) -> (r: bool)
        ensures
            old(self)@ >= amount ==> r && final(self)@ == old(self)@ - amount,
            old(self)@ < amount ==> !r && final(self)@ == old(self)@,
    {
        if self.amount < amount {
            return false;
        }
        self.amount -= amount;
        true
    }

    /// The amount of food.
    pub fn get(&self) -> (r: u64)
        ensures
            r == self@,
    {
        self.amount
    }
}

impl Default for Food {
    /// An empty stock.
    fn default() -> (r: Self)
        ensures
            r@ == 0,
    {
        Self { amount: 0 }
    }
}

impl Resource for Food {

}

// ======================= Money =======================

/// An amount of money; unlike the other stocks it may go negative.
#[derive(Clone)]
pub struct Money {
    amount: i64,
}

impl View for Money {
    type V = i64;

    closed spec fn view(&self) -> i64 {
        self.amount
    }
}

impl Money {
    /// A stock holding the given amount.
    pub fn new(amount: i64) -> (r: Self)
        ensures
            r@ == amount,
    {
        Self { amount }
    }

    /// Add an amount of money.
    pub fn add(&mut self, amount: i64)
        requires
            i64::MIN <= old(self)@ + amount <= i64::MAX,
        ensures
            final(self)@ == old(self)@ + amount,
    {
        self.amount += amount;
    }

    /// Remove an amount of money; money may go negative, so this always
    /// succeeds.
    pub fn remove(&mut self, amount: i64) -> (r: bool)
        requires
            i64::MIN <= old(self)@ - amount <= i64::MAX,
        ensures
            r,
            final(self)@ == old(self)@ - amount,
    {
        self.amount -= amount;
        true
    }

    /// True when the amount of money is negative.
    pub fn is_negative(&self) -> (r: bool)
        ensures
            r == (self@ < 0),
    {
        self.amount < 0
    }

    /// The amount of money.
    pub fn get(&self) -> (r: i64)
        ensures
            r == self@,
    {
        self.amount
    }
}

impl Default for Money {
    /// An empty stock.
    fn default() -> (r: Self)
        ensures
            r@ == 0,
    {
        Self { amount: 0 }
    }
}

impl Resource for Money {

}

// ======================= WorkForce =======================

/// An amount of work force, from zero upward.
#[derive(Clone)]
pub struct WorkForce {
    amount: u64,
}

impl View for WorkForce {
    type V = u64;

    closed spec fn view(&self) -> u64 {
        self.amount
    }
}

impl WorkForce {
    /// A stock holding the given amount.
    pub fn new(amount: u64) -> (r: Self)
        ensures
            r@ == amount,
    {
        Self { amount }
    }

    /// Add an amount of work force.
    pub fn add(&mut self, amount: u64)
        requires
            old(self)@ + amount <= u64::MAX,
        ensures
            final(self)@ == old(self)@ + amount,
    {
        self.amount += amount;
    }

    /// Remove an amount of work force; nothing is removed and false comes
    /// back when the stock is not enough.
    pub fn remove(&mut self, amount: u64) -> (r: bool)
        ensures
            old(self)@ >= amount ==> r && final(self)@ == old(self)@ - amount,
            old(self)@ < amount ==> !r && final(self)@ == old(self)@,
    {
        if self.amount < amount {
            return false;
        }
        self.amount -= amount;
        true
    }

    /// The amount of work force.
    pub fn get(&self) -> (r: u64)
        ensures
            r == self@,
    {
        self.amount
    }
}

impl Default for WorkForce {
    /// An empty stock.
    fn default() -> (r: Self)
        ensures
            r@ == 0,
    {
        Self { amount: 0 }
    }
}

impl Resource for WorkForce {

}

// ======================= Ores =======================

/// Stocks of mined ores: uranium and rare metals.
#[derive(Clone)]
pub struct Ores {
    uranium: u64,
    rate_metals: u64,
}

impl View for Ores {
    type V = (u64, u64);

    closed spec fn view(&self) -> (u64, u64) {
        (self.uranium, self.rate_metals)
    }
}

impl Ores {
    /// Stocks holding the given amounts.
    pub fn new(uranium: u64, rate_metals: u64) -> (r: Self)
        ensures
            r@ == (uranium, rate_metals),
    {
        Self { uranium, rate_metals }
    }

    /// Add an amount of uranium.
    pub fn add_uranium(&mut self, amount: u64)
        requires
            old(self)@.0 + amount <= u64::MAX,
        ensures
            final(self)@ == ((old(self)@.0 + amount) as u64, old(self)@.1),
    {
        self.uranium += amount;
    }

    /// Add an amount of rate metals.
    pub fn add_rate_metals(&mut self, amount: u64)
        requires
            old(self)@.1 + amount <= u64::MAX,
        ensures
            final(self)@ == (old(self)@.0, (old(self)@.1 + amount) as u64),
    {
        self.rate_metals += amount;
    }

    /// Remove an amount of uranium; nothing is removed and false comes back
    /// when the stock is not enough.
    pub fn remove_uranium(&mut self, amount: u64) -> (r: bool)
        ensures
            old(self)@.0 >= amount ==> r && final(self)@ == ((old(self)@.0 - amount) as u64, old(
                self,
            )@.1),
            old(self)@.0 < amount ==> !r && final(self)@ == old(self)@,
    {
        if self.uranium < amount {
            return false;
        }
        self.uranium -= amount;
        true
    }

    /// Remove an amount of rate metals; nothing is removed and false comes
    /// back when the stock is not enough.
    pub fn remove_rate_metals(&mut self, amount: u64) -> (r: bool)
        ensures
            old(self)@.1 >= amount ==> r && final(self)@ == (old(self)@.0, (old(self)@.1
                - amount) as u64),
            old(self)@.1 < amount ==> !r && final(self)@ == old(self)@,
    {
        if self.rate_metals < amount {
            return false;
        }
        self.rate_metals -= amount;
        true
    }

    /// The amount of uranium.
    pub fn get_uranium(&self) -> (r: u64)
        ensures
            r == self@.0,
    {
        self.uranium
    }

    /// The amount of rate metals.
    pub fn get_rate_metals(&self) -> (r: u64)
        ensures
            r == self@.1,
    {
        self.rate_metals
    }
}

impl Default for Ores {
    /// Empty stocks.
    fn default() -> (r: Self)
        ensures
            r@ == (0u64, 0u64),
    {
        Self { uranium: 0, rate_metals: 0 }
    }
}

impl Resource for Ores {

}

// ======================= RefinedProduct =======================

/// Stocks of refined products: alloys, chips and components.
#[derive(Clone)]
pub struct RefinedProduct {
    alloys: u64,
    chips: u64,
    components: u64,
}

impl View for RefinedProduct {
    type V = (u64, u64, u64);

    closed spec fn view(&self) -> (u64, u64, u64) {
        (self.alloys, self.chips, self.components)
    }
}

impl RefinedProduct {
    /// Add an amount of alloys.
    pub fn add_alloys(&mut self, amount: u64)
        requires
            old(self)@.0 + amount <= u64::MAX,
        ensures
            final(self)@ == ((old(self)@.0 + amount) as u64, old(self)@.1, old(self)@.2),
    {
        self.alloys += amount;
    }

    /// Add an amount of chips.
    pub fn add_chips(&mut self, amount: u64)
        requires
            old(self)@.1 + amount <= u64::MAX,
        ensures
            final(self)@ == (old(self)@.0, (old(self)@.1 + amount) as u64, old(self)@.2),
    {
        self.chips += amount;
    }

    /// Add an amount of components.
    pub fn add_components(&mut self, amount: u64)
        requires
            old(self)@.2 + amount <= u64::MAX,
        ensures
            final(self)@ == (old(self)@.0, old(self)@.1, (old(self)@.2 + amount) as u64),
    {
        self.components += amount;
    }

    /// Remove an amount of alloys; nothing is removed and false comes back
    /// when the stock is not enough.
    pub fn remove_alloys(&mut self, amount: u64) -> (r: bool)
        ensures
            old(self)@.0 >= amount ==> r && final(self)@ == ((old(self)@.0 - amount) as u64, old(
                self,
            )@.1, old(self)@.2),
            old(self)@.0 < amount ==> !r && final(self)@ == old(self)@,
    {
        if self.alloys < amount {
            return false;
        }
        self.alloys -= amount;
        true
    }

    /// Remove an amount of chips; nothing is removed and false comes back
    /// when the stock is not enough.
    pub fn remove_chips(&mut self, amount: u64) -> (r: bool)
        ensures
            old(self)@.1 >= amount ==> r && final(self)@ == (old(self)@.0, (old(self)@.1
                - amount) as u64, old(self)@.2),
            old(self)@.1 < amount ==> !r && final(self)@ == old(self)@,
    {
        if self.chips < amount {
            return false;
        }
        self.chips -= amount;
        true
    }

    /// Remove an amount of components; nothing is removed and false comes
    /// back when the stock is not enough.
    pub fn remove_components(&mut self, amount: u64) -> (r: bool)
        ensures
            old(self)@.2 >= amount ==> r && final(self)@ == (old(self)@.0, old(self)@.1, (old(
                self,
            )@.2 - amount) as u64),
            old(self)@.2 < amount ==> !r && final(self)@ == old(self)@,
    {
        if self.components < amount {
            return false;
        }
        self.components -= amount;
        true
    }

    /// The amount of alloys.
    pub fn get_alloys(&self) -> (r: u64)
        ensures
            r == self@.0,
    {
        self.alloys
    }

    /// The amount of chips.
    pub fn get_chips(&self) -> (r: u64)
        ensures
            r == self@.1,
    {
        self.chips
    }

    /// The amount of components.
    pub fn get_components(&self) -> (r: u64)
        ensures
            r == self@.2,
    {
        self.components
    }
}

impl Default for RefinedProduct {
    /// Empty stocks.
    fn default() -> (r: Self)
        ensures
            r@ == (0u64, 0u64, 0u64),
    {
        Self { alloys: 0, chips: 0, components: 0 }
    }
}

impl Resource for RefinedProduct {

}

// ======================= ScientificResearch =======================

/// A scientific expert with a competence level.
#[derive(Clone)]
pub struct Expert {
    level: u8,
}

impl View for Expert {
    type V = u8;

    closed spec fn view(&self) -> u8 {
        self.level
    }
}

impl Expert {
    /// An expert of the given level.
    pub fn new(level: u8) -> (r: Self)
        ensures
            r@ == level,
    {
        Self { level }
    }

    /// The level of the expert.
    pub fn get_level(&self) -> (r: u8)
        ensures
            r == self@,
    {
        self.level
    }
}

/// The sum of the experts' levels.
pub open spec fn spec_levels_sum(levels: Seq<u8>) -> int
    decreases levels.len(),
{
    if levels.len() == 0 {
        0
    } else {
        spec_levels_sum(levels.drop_last()) + levels.last()
    }
}

/// The pool of scientific research: the experts it employs; its amount is
/// the sum of their levels.
#[derive(Clone)]
pub struct ScientificResearch {
    experts: Vec<Expert>,
}

impl View for ScientificResearch {
    type V = Seq<u8>;

    closed spec fn view(&self) -> Seq<u8> {
        self.experts@.map_values(|e: Expert| e@)
    }
}

impl ScientificResearch {
    /// Employ one more expert.
    pub fn add_expert(&mut self, expert: Expert)
        ensures
            final(self)@ == old(self)@.push(expert@),
    {
        let ghost prev = self@;
        self.experts.push(expert);
        proof {
            assert(self@ =~= prev.push(expert@));
        }
    }

    /// How many experts are employed.
    pub fn size(&self) -> (r: usize)
        ensures
            r == self@.len(),
    {
        self.experts.len()
    }

    /// The amount of research: the sum of the experts' levels.
    pub fn get_amount(&self) -> (r: u64)
        requires
            spec_levels_sum(self@) <= u64::MAX,
        ensures
            r == spec_levels_sum(self@),
    {
        let mut acc: u64 = 0;
        let mut i: usize = 0;
        proof {
            lemma_levels_sum_bounds(self@, 0);
        }
        while i < self.experts.len()
            invariant
                i <= self@.len(),
                self@.len() == self.experts@.len(),
                acc == spec_levels_sum(self@.take(i as int)),
                spec_levels_sum(self@) <= u64::MAX,
                forall|k: int|
                    0 <= k <= self@.len() ==> #[trigger] spec_levels_sum(self@.take(k))
                        <= spec_levels_sum(self@),
            decreases self@.len() - i,
        {
            let level = self.experts[i].get_level();
            proof {
                assert(self@.take(i + 1).drop_last() =~= self@.take(i as int));
                assert(self@.take(i + 1).last() == self@[i as int]);
                assert(spec_levels_sum(self@.take(i + 1)) == acc + level);
                assert(spec_levels_sum(self@.take(i + 1)) <= spec_levels_sum(self@));
            }
            acc = acc + (level as u64);
            i += 1;
        }
        proof {
            assert(self@.take(self@.len() as int) =~= self@);
        }
        acc
    }
}

/// Every prefix sum of non-negative levels is at most the whole sum.
proof fn lemma_levels_sum_bounds(levels: Seq<u8>, start: int)
    ensures
        forall|k: int|
            0 <= k <= levels.len() ==> #[trigger] spec_levels_sum(levels.take(k))
                <= spec_levels_sum(levels),
{
    assert forall|k: int|
        0 <= k <= levels.len() implies #[trigger] spec_levels_sum(levels.take(k))
        <= spec_levels_sum(levels) by {
        lemma_levels_prefix(levels, k);
    }
}

/// The sum of a prefix is at most the whole sum.
proof fn lemma_levels_prefix(levels: Seq<u8>, k: int)
    requires
        0 <= k <= levels.len(),
    ensures
        spec_levels_sum(levels.take(k)) <= spec_levels_sum(levels),
    decreases levels.len() - k,
{
    if k == levels.len() {
        assert(levels.take(k) =~= levels);
    } else {
        lemma_levels_prefix(levels, k + 1);
        assert(levels.take(k + 1).drop_last() =~= levels.take(k));
        assert(spec_levels_sum(levels.take(k)) <= spec_levels_sum(levels.take(k + 1)));
    }
}

impl Default for ScientificResearch {
    /// A pool without experts.
    fn default() -> (r: Self)
        ensures
            r@ == Seq::<u8>::empty(),
    {
        let p = Self { experts: Vec::new() };
        proof {
            assert(p@ =~= Seq::<u8>::empty());
        }
        p
    }
}

impl Resource for ScientificResearch {

}

} // verus!
