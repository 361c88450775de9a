//! Resources, costs, discounts and payment scopes: the data the pricing
//! engine works on.

use vstd::prelude::*;
use crate::Coins;

verus! {

/// Which payments a discount applies to.
#[derive(Debug, Copy, Clone, PartialEq, Eq, Structural)]
pub enum PayScope {
    Global,
    Civilian,
    Wonders,
}

/// The payment scope a building purchase falls under.
pub open spec fn spec_pay_scope(id: crate::building::Id) -> PayScope {
    if crate::building::spec_kind(id) == crate::building::Kind::Civilian {
        PayScope::Civilian
    } else {
        PayScope::Global
    }
}

impl PayScope {
    /// Civilian buildings pay in their own scope; everything else globally.
    pub fn from_building(id: crate::building::Id) -> (r: Self)
        ensures
            r == spec_pay_scope(id),
    {
        if crate::building::get(id).kind == crate::building::Kind::Civilian {
            PayScope::Civilian
        } else {
            PayScope::Global
        }
    }
}

#[derive(Debug, Copy, Clone, PartialEq, Eq, Structural)]
pub enum Resource {
    Clay,
    Wood,
    Stone,
    Glass,
    Papyrus,
}

impl Resource {
    /// Canonical order of the five resources; also the tie-break order the
    /// pricing engine uses.
    pub fn all() -> (r: Vec<Resource>)
        ensures
            r@ =~= all_resources(),
    {
        let v = vec![
            Resource::Clay,
            Resource::Wood,
            Resource::Stone,
            Resource::Glass,
            Resource::Papyrus,
        ];
        assert(v@ =~= all_resources());
        v
    }

    pub fn raw_materials() -> (r: Vec<Resource>)
        ensures
            r@ =~= seq![Resource::Clay, Resource::Wood, Resource::Stone],
    {
        vec![Resource::Clay, Resource::Wood, Resource::Stone]
    }

    pub fn manufactured_goods() -> (r: Vec<Resource>)
        ensures
            r@ =~= seq![Resource::Glass, Resource::Papyrus],
    {
        vec![Resource::Glass, Resource::Papyrus]
    }
}

pub open spec fn all_resources() -> Seq<Resource> {
    seq![Resource::Clay, Resource::Wood, Resource::Stone, Resource::Glass, Resource::Papyrus]
}

/// A count (or a coin price) per resource kind; every kind is always present.
#[derive(Debug, Copy, Clone, PartialEq, Eq, Structural)]
pub struct Resources {
    pub clay: u8,
    pub wood: u8,
    pub stone: u8,
    pub glass: u8,
    pub papyrus: u8,
}

impl Resources {
    pub open spec fn spec_get(self, r: Resource) -> u8 {
        match r {
            Resource::Clay => self.clay,
            Resource::Wood => self.wood,
            Resource::Stone => self.stone,
            Resource::Glass => self.glass,
            Resource::Papyrus => self.papyrus,
        }
    }

    pub open spec fn spec_set(self, r: Resource, v: u8) -> Resources {
        match r {
            Resource::Clay => Resources { clay: v, ..self },
            Resource::Wood => Resources { wood: v, ..self },
            Resource::Stone => Resources { stone: v, ..self },
            Resource::Glass => Resources { glass: v, ..self },
            Resource::Papyrus => Resources { papyrus: v, ..self },
        }
    }

    pub fn get(&self, r: Resource) -> (v: u8)
        ensures
            v == self.spec_get(r),
    {
        match r {
            Resource::Clay => self.clay,
            Resource::Wood => self.wood,
            Resource::Stone => self.stone,
            Resource::Glass => self.glass,
            Resource::Papyrus => self.papyrus,
        }
    }

    pub fn set(&mut self, r: Resource, v: u8)
        ensures
            *final(self) == old(self).spec_set(r, v),
    {
        match r {
            Resource::Clay => self.clay = v,
            Resource::Wood => self.wood = v,
            Resource::Stone => self.stone = v,
            Resource::Glass => self.glass = v,
            Resource::Papyrus => self.papyrus = v,
        }
    }

    /// All five counts zero.
    pub fn none() -> (r: Resources)
        ensures
            r == (Resources { clay: 0, wood: 0, stone: 0, glass: 0, papyrus: 0 }),
    {
        Resources { clay: 0, wood: 0, stone: 0, glass: 0, papyrus: 0 }
    }

    /// Counts listed in canonical resource order.
    pub fn of(clay: u8, wood: u8, stone: u8, glass: u8, papyrus: u8) -> (r: Resources)
        ensures
            r == (Resources { clay, wood, stone, glass, papyrus }),
    {
        Resources { clay, wood, stone, glass, papyrus }
    }

    /// The same price for every resource kind.
    pub fn uniform(v: u8) -> (r: Resources)
        ensures
            forall|res: Resource| r.spec_get(res) == v,
    {
        let r = Resources { clay: v, wood: v, stone: v, glass: v, papyrus: v };
        assert forall|res: Resource| r.spec_get(res) == v by {}
        r
    }
}

/// A subset of the five resource kinds, as membership flags.
#[derive(Debug, Copy, Clone, PartialEq, Eq, Structural)]
pub struct ResourceSet {
    pub clay: bool,
    pub wood: bool,
    pub stone: bool,
    pub glass: bool,
    pub papyrus: bool,
}

impl ResourceSet {
    pub open spec fn spec_has(self, r: Resource) -> bool {
        match r {
            Resource::Clay => self.clay,
            Resource::Wood => self.wood,
            Resource::Stone => self.stone,
            Resource::Glass => self.glass,
            Resource::Papyrus => self.papyrus,
        }
    }

    pub fn has(&self, r: Resource) -> (b: bool)
        ensures
            b == self.spec_has(r),
    {
        match r {
            Resource::Clay => self.clay,
            Resource::Wood => self.wood,
            Resource::Stone => self.stone,
            Resource::Glass => self.glass,
            Resource::Papyrus => self.papyrus,
        }
    }

    pub open spec fn all_set() -> ResourceSet {
        ResourceSet { clay: true, wood: true, stone: true, glass: true, papyrus: true }
    }

    pub open spec fn raw_set() -> ResourceSet {
        ResourceSet { clay: true, wood: true, stone: true, glass: false, papyrus: false }
    }

    pub open spec fn goods_set() -> ResourceSet {
        ResourceSet { clay: false, wood: false, stone: false, glass: true, papyrus: true }
    }

    pub open spec fn one_set(r: Resource) -> ResourceSet {
        ResourceSet {
            clay: r == Resource::Clay,
            wood: r == Resource::Wood,
            stone: r == Resource::Stone,
            glass: r == Resource::Glass,
            papyrus: r == Resource::Papyrus,
        }
    }

    pub fn full() -> (r: ResourceSet)
        ensures
            r == Self::all_set(),
    {
        ResourceSet { clay: true, wood: true, stone: true, glass: true, papyrus: true }
    }

    pub fn raw() -> (r: ResourceSet)
        ensures
            r == Self::raw_set(),
    {
        ResourceSet { clay: true, wood: true, stone: true, glass: false, papyrus: false }
    }

    pub fn goods() -> (r: ResourceSet)
        ensures
            r == Self::goods_set(),
    {
        ResourceSet { clay: false, wood: false, stone: false, glass: true, papyrus: true }
    }

    pub fn only(r: Resource) -> (s: ResourceSet)
        ensures
            s == Self::one_set(r),
    {
        let mut s = ResourceSet {
            clay: false,
            wood: false,
            stone: false,
            glass: false,
            papyrus: false,
        };
        match r {
            Resource::Clay => s.clay = true,
            Resource::Wood => s.wood = true,
            Resource::Stone => s.stone = true,
            Resource::Glass => s.glass = true,
            Resource::Papyrus => s.papyrus = true,
        }
        s
    }
}

/// What a unit costs: coins plus resource counts.
#[derive(Debug, Copy, Clone, PartialEq, Eq, Structural)]
pub struct Cost {
    pub coins: Coins,
    pub resources: Resources,
}

impl Cost {
    pub fn free() -> (r: Cost)
        ensures
            r.coins == 0,
            r.resources == (Resources { clay: 0, wood: 0, stone: 0, glass: 0, papyrus: 0 }),
    {
        Cost { coins: 0, resources: Resources::none() }
    }
}

/// An active price reduction: within `scope`, up to `count` units taken from
/// the covered `resources` are free.
#[derive(Debug, Copy, Clone, PartialEq, Eq, Structural)]
pub struct Discount {
    pub scope: PayScope,
    pub resources: ResourceSet,
    pub count: u8,
}

/// One step of discount application: if `r` is covered and some allowance is
/// left, cancel as many costed units of `r` as the allowance permits.
pub open spec fn discount_step(cost: Resources, covered: ResourceSet, reserve: u8, r: Resource)
    -> (Resources, u8) {
    if !covered.spec_has(r) || reserve == 0 {
        (cost, reserve)
    } else {
        let n = if cost.spec_get(r) < reserve { cost.spec_get(r) } else { reserve };
        (cost.spec_set(r, (cost.spec_get(r) - n) as u8), (reserve - n) as u8)
    }
}

/// Discount application over a whole priority list, priciest resource first.
pub open spec fn discount_fold(cost: Resources, covered: ResourceSet, reserve: u8,
    priority: Seq<Resource>) -> (Resources, u8)
    decreases priority.len(),
{
    if priority.len() == 0 {
        (cost, reserve)
    } else {
        let (c2, r2) = discount_step(cost, covered, reserve, priority[0]);
        discount_fold(c2, covered, r2, priority.drop_first())
    }
}

impl Discount {
    /// Consume costed resources in the order of `priority` (priciest first),
    /// cancelling up to `self.count` units of the kinds this discount covers.
    pub fn apply(&self, cost: &mut Cost, priority: &Vec<Resource>)
        ensures
            final(cost).coins == old(cost).coins,
            final(cost).resources
                == discount_fold(old(cost).resources, self.resources, self.count, priority@).0,
    {
        let ghost orig = cost.resources;
        let mut reserve: u8 = self.count;
        let mut i: usize = 0;
        assert(priority@.skip(0) =~= priority@);
        while i < priority.len()
            invariant
                i <= priority@.len(),
                cost.coins == old(cost).coins,
                discount_fold(cost.resources, self.resources, reserve, priority@.skip(i as int))
                    == discount_fold(orig, self.resources, self.count, priority@),
            decreases priority@.len() - i,
        {
            let r = priority[i];
            assert(priority@.skip(i as int)[0] == r);
            assert(priority@.skip(i as int).drop_first() =~= priority@.skip(i + 1));
            if self.resources.has(r) && reserve > 0 {
                let current = cost.resources.get(r);
                let n = if current < reserve { current } else { reserve };
                cost.resources.set(r, current - n);
                reserve = reserve - n;
            }
            i = i + 1;
        }
        assert(priority@.skip(priority@.len() as int) =~= Seq::<Resource>::empty());
    }
}

} // verus!
