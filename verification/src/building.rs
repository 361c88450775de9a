//! The building catalog: identifiers, kinds, and the immutable definition
//! table (age, kind, cost, effect list) the engine consults by identifier.

use vstd::prelude::*;
use crate::Age;
use crate::economy::{Cost, PayScope, Resource, Resources, ResourceSet};
use crate::effect::Effect;
use crate::ScientificSymbol;
use crate::Bonus;

verus! {

#[derive(Debug, Copy, Clone, PartialEq, Eq, Structural)]
pub enum Id {
    LumberYard,
    LoggingCamp,
    ClayPool,
    ClayPit,
    Quarry,
    StonePit,
    GlassWorks,
    Press,
    GuardTower,
    Workshop,
    Apothecary,
    StoneReserve,
    ClayReserve,
    WoodReserve,
    Stable,
    Garrison,
    Palisade,
    Scriptorium,
    Pharmacist,
    Theater,
    Altar,
    Baths,
    Tavern,
    SawMill,
    BrickYard,
    ShelfQuarry,
    GlassBlower,
    DryingRoom,
    Walls,
    Forum,
    Caravansery,
    CustomHouse,
    CourtHouse,
    HorseBreeders,
    Barracks,
    ArcheryRange,
    ParadeGround,
    Library,
    Dispensary,
    School,
    Laboratory,
    Statue,
    Temple,
    Aqueduct,
    Rostrum,
    Brewery,
    Arsenal,
    Pretorium,
    Academy,
    Study,
    ChamberOfCommerce,
    Port,
    Armory,
    Palace,
    TownHall,
    Obelisk,
    Fortifications,
    SiegeWorkshop,
    Circus,
    University,
    Observatory,
    Gardens,
    Pantheon,
    Senate,
    Lighthouse,
    Arena,
    MerchantsGuild,
    ShipOwnersGuild,
    BuildersGuild,
    MagistratesGuild,
    ScientistsGuild,
    MoneyLendersGuild,
    TacticiansGuild,
}

#[derive(Debug, Copy, Clone, PartialEq, Eq, Structural)]
pub enum Kind {
    RawMaterials,
    ManufacturedGoods,
    Military,
    Scientific,
    Civilian,
    Commercial,
    Guild,
}

/// One catalog entry: an identifier together with its fixed definition.
#[derive(Debug, Clone, PartialEq, Eq)]
pub struct Unit {
    pub id: Id,
    pub age: Age,
    pub kind: Kind,
    pub cost: Cost,
    pub effects: Vec<Effect>,
}

impl Unit {
    pub fn effects(&self) -> (r: &Vec<Effect>)
        ensures
            r == &self.effects,
    {
        &self.effects
    }

    /// Run all attached effects on construction.
    pub fn construct(&self, s: &mut crate::state::State)
        requires
            old(s).wf(),
            old(s).phase != crate::Phase::Unstarted,
        ensures
            crate::effect::effects_apply_fold(self.effects@, *old(s), *final(s)),
            final(s).wf(),
    {
        crate::effect::construct_effects(&self.effects, s);
    }

    /// Roll all attached effects back on destruction.
    pub fn destruct(&self, s: &mut crate::state::State)
        ensures
            crate::effect::effects_rollback_fold(self.effects@, *old(s), *final(s)),
            old(s).wf() ==> final(s).wf(),
    {
        crate::effect::destruct_effects(&self.effects, s);
    }

    /// The points this unit contributes to the acting city's score.
    pub fn get_points(&self, s: &crate::state::State) -> (r: u8)
        ensures
            r == crate::state::pts_fold(self.effects@, s.me_city, s.enemy_city, 0),
    {
        crate::state::effects_points(&self.effects, &s.me_city, &s.enemy_city)
    }
}

/// Shorthand for a cost: coins, then resource counts in canonical order.
pub open spec fn cost_of(coins: u8, clay: u8, wood: u8, stone: u8, glass: u8, papyrus: u8)
    -> Cost {
    Cost { coins, resources: Resources { clay, wood, stone, glass, papyrus } }
}

/// The fixed catalog: age, kind, cost and effect list of every building.
pub open spec fn spec_unit(id: Id) -> (Age, Kind, Cost, Seq<Effect>) {
    match id {
        Id::LumberYard => (Age::I, Kind::RawMaterials, cost_of(0, 0, 0, 0, 0, 0),
            seq![Effect::Resource(Resource::Wood, 1)]),
        Id::LoggingCamp => (Age::I, Kind::RawMaterials, cost_of(1, 0, 0, 0, 0, 0),
            seq![Effect::Resource(Resource::Wood, 1)]),
        Id::ClayPool => (Age::I, Kind::RawMaterials, cost_of(0, 0, 0, 0, 0, 0),
            seq![Effect::Resource(Resource::Clay, 1)]),
        Id::ClayPit => (Age::I, Kind::RawMaterials, cost_of(1, 0, 0, 0, 0, 0),
            seq![Effect::Resource(Resource::Clay, 1)]),
        Id::Quarry => (Age::I, Kind::RawMaterials, cost_of(0, 0, 0, 0, 0, 0),
            seq![Effect::Resource(Resource::Stone, 1)]),
        Id::StonePit => (Age::I, Kind::RawMaterials, cost_of(1, 0, 0, 0, 0, 0),
            seq![Effect::Resource(Resource::Stone, 1)]),
        Id::GlassWorks => (Age::I, Kind::ManufacturedGoods, cost_of(1, 0, 0, 0, 0, 0),
            seq![Effect::Resource(Resource::Glass, 1)]),
        Id::Press => (Age::I, Kind::ManufacturedGoods, cost_of(1, 0, 0, 0, 0, 0),
            seq![Effect::Resource(Resource::Papyrus, 1)]),
        Id::GuardTower => (Age::I, Kind::Military, cost_of(0, 0, 0, 0, 0, 0),
            seq![Effect::Military(1, true)]),
        Id::Workshop => (Age::I, Kind::Scientific, cost_of(0, 0, 0, 0, 0, 1),
            seq![Effect::Points(1), Effect::Science(ScientificSymbol::Compass)]),
        Id::Apothecary => (Age::I, Kind::Scientific, cost_of(0, 0, 0, 0, 1, 0),
            seq![Effect::Points(1), Effect::Science(ScientificSymbol::Wheel)]),
        Id::StoneReserve => (Age::I, Kind::Commercial, cost_of(3, 0, 0, 0, 0, 0),
            seq![Effect::FixedResourcePrice(ResourceSet::one_set(Resource::Stone)),
                Effect::DiscardRewardAdjuster]),
        Id::ClayReserve => (Age::I, Kind::Commercial, cost_of(3, 0, 0, 0, 0, 0),
            seq![Effect::FixedResourcePrice(ResourceSet::one_set(Resource::Clay)),
                Effect::DiscardRewardAdjuster]),
        Id::WoodReserve => (Age::I, Kind::Commercial, cost_of(3, 0, 0, 0, 0, 0),
            seq![Effect::FixedResourcePrice(ResourceSet::one_set(Resource::Wood)),
                Effect::DiscardRewardAdjuster]),
        Id::Stable => (Age::I, Kind::Military, cost_of(0, 0, 1, 0, 0, 0),
            seq![Effect::Military(1, true), Effect::Chain(Id::HorseBreeders)]),
        Id::Garrison => (Age::I, Kind::Military, cost_of(0, 1, 0, 0, 0, 0),
            seq![Effect::Military(1, true), Effect::Chain(Id::Barracks)]),
        Id::Palisade => (Age::I, Kind::Military, cost_of(2, 0, 0, 0, 0, 0),
            seq![Effect::Military(1, true), Effect::Chain(Id::Fortifications)]),
        Id::Scriptorium => (Age::I, Kind::Scientific, cost_of(2, 0, 0, 0, 0, 0),
            seq![Effect::Science(ScientificSymbol::Writing), Effect::Chain(Id::Library)]),
        Id::Pharmacist => (Age::I, Kind::Scientific, cost_of(2, 0, 0, 0, 0, 0),
            seq![Effect::Science(ScientificSymbol::Mortar), Effect::Chain(Id::Dispensary)]),
        Id::Theater => (Age::I, Kind::Civilian, cost_of(0, 0, 0, 0, 0, 0),
            seq![Effect::Points(3), Effect::Chain(Id::Statue)]),
        Id::Altar => (Age::I, Kind::Civilian, cost_of(0, 0, 0, 0, 0, 0),
            seq![Effect::Points(3), Effect::Chain(Id::Temple)]),
        Id::Baths => (Age::I, Kind::Civilian, cost_of(0, 0, 0, 1, 0, 0),
            seq![Effect::Points(3), Effect::Chain(Id::Aqueduct)]),
        Id::Tavern => (Age::I, Kind::Commercial, cost_of(0, 0, 0, 0, 0, 0),
            seq![Effect::Coins(4), Effect::Chain(Id::Lighthouse),
                Effect::DiscardRewardAdjuster]),
        Id::SawMill => (Age::II, Kind::RawMaterials, cost_of(2, 0, 0, 0, 0, 0),
            seq![Effect::Resource(Resource::Wood, 2)]),
        Id::BrickYard => (Age::II, Kind::RawMaterials, cost_of(2, 0, 0, 0, 0, 0),
            seq![Effect::Resource(Resource::Clay, 2)]),
        Id::ShelfQuarry => (Age::II, Kind::RawMaterials, cost_of(2, 0, 0, 0, 0, 0),
            seq![Effect::Resource(Resource::Stone, 2)]),
        Id::GlassBlower => (Age::II, Kind::ManufacturedGoods, cost_of(0, 0, 0, 0, 0, 0),
            seq![Effect::Resource(Resource::Glass, 1)]),
        Id::DryingRoom => (Age::II, Kind::ManufacturedGoods, cost_of(0, 0, 0, 0, 0, 0),
            seq![Effect::Resource(Resource::Papyrus, 1)]),
        Id::Walls => (Age::II, Kind::Military, cost_of(0, 0, 0, 2, 0, 0),
            seq![Effect::Military(2, true)]),
        Id::Forum => (Age::II, Kind::Commercial, cost_of(3, 1, 0, 0, 0, 0),
            seq![Effect::Discounter {
                scope: PayScope::Global,
                resources: ResourceSet::goods_set(),
                count: 1,
            }, Effect::DiscardRewardAdjuster]),
        Id::Caravansery => (Age::II, Kind::Commercial, cost_of(2, 0, 0, 0, 1, 1),
            seq![Effect::Discounter {
                scope: PayScope::Global,
                resources: ResourceSet::raw_set(),
                count: 1,
            }, Effect::DiscardRewardAdjuster]),
        Id::CustomHouse => (Age::II, Kind::Commercial, cost_of(4, 0, 0, 0, 0, 0),
            seq![Effect::FixedResourcePrice(ResourceSet::goods_set()),
                Effect::DiscardRewardAdjuster]),
        Id::CourtHouse => (Age::II, Kind::Civilian, cost_of(0, 0, 2, 0, 1, 0),
            seq![Effect::Points(5)]),
        Id::HorseBreeders => (Age::II, Kind::Military, cost_of(0, 1, 1, 0, 0, 0),
            seq![Effect::Military(1, true)]),
        Id::Barracks => (Age::II, Kind::Military, cost_of(3, 0, 0, 0, 0, 0),
            seq![Effect::Military(1, true)]),
        Id::ArcheryRange => (Age::II, Kind::Military, cost_of(0, 0, 1, 1, 0, 1),
            seq![Effect::Military(2, true), Effect::Chain(Id::SiegeWorkshop)]),
        Id::ParadeGround => (Age::II, Kind::Military, cost_of(0, 2, 0, 0, 1, 0),
            seq![Effect::Military(2, true), Effect::Chain(Id::Circus)]),
        Id::Library => (Age::II, Kind::Scientific, cost_of(0, 0, 1, 1, 1, 0),
            seq![Effect::Points(2), Effect::Science(ScientificSymbol::Writing)]),
        Id::Dispensary => (Age::II, Kind::Scientific, cost_of(0, 2, 0, 1, 0, 0),
            seq![Effect::Points(2), Effect::Science(ScientificSymbol::Mortar)]),
        Id::School => (Age::II, Kind::Scientific, cost_of(0, 0, 1, 0, 0, 2),
            seq![Effect::Points(1), Effect::Science(ScientificSymbol::Wheel),
                Effect::Chain(Id::University)]),
        Id::Laboratory => (Age::II, Kind::Scientific, cost_of(0, 0, 1, 0, 2, 0),
            seq![Effect::Points(1), Effect::Science(ScientificSymbol::Compass),
                Effect::Chain(Id::Observatory)]),
        Id::Statue => (Age::II, Kind::Civilian, cost_of(0, 2, 0, 0, 0, 0),
            seq![Effect::Points(4), Effect::Chain(Id::Gardens)]),
        Id::Temple => (Age::II, Kind::Civilian, cost_of(0, 0, 1, 0, 0, 1),
            seq![Effect::Points(4), Effect::Chain(Id::Pantheon)]),
        Id::Aqueduct => (Age::II, Kind::Civilian, cost_of(0, 0, 0, 3, 0, 0),
            seq![Effect::Points(5)]),
        Id::Rostrum => (Age::II, Kind::Civilian, cost_of(0, 0, 1, 1, 0, 0),
            seq![Effect::Points(4), Effect::Chain(Id::Senate)]),
        Id::Brewery => (Age::II, Kind::Commercial, cost_of(0, 0, 0, 0, 0, 0),
            seq![Effect::Coins(6), Effect::Chain(Id::Arena),
                Effect::DiscardRewardAdjuster]),
        Id::Arsenal => (Age::III, Kind::Military, cost_of(0, 3, 2, 0, 0, 0),
            seq![Effect::Military(3, true)]),
        Id::Pretorium => (Age::III, Kind::Military, cost_of(8, 0, 0, 0, 0, 0),
            seq![Effect::Military(3, true)]),
        Id::Academy => (Age::III, Kind::Scientific, cost_of(0, 0, 1, 1, 2, 0),
            seq![Effect::Points(3), Effect::Science(ScientificSymbol::Sundial)]),
        Id::Study => (Age::III, Kind::Scientific, cost_of(0, 0, 2, 0, 1, 1),
            seq![Effect::Points(3), Effect::Science(ScientificSymbol::Sundial)]),
        Id::ChamberOfCommerce => (Age::III, Kind::Commercial, cost_of(0, 0, 0, 0, 0, 2),
            seq![Effect::Points(3), Effect::CoinsFor(Bonus::ManufacturedGoods, 3),
                Effect::DiscardRewardAdjuster]),
        Id::Port => (Age::III, Kind::Commercial, cost_of(0, 0, 1, 0, 1, 1),
            seq![Effect::Points(3), Effect::CoinsFor(Bonus::RawMaterials, 2),
                Effect::DiscardRewardAdjuster]),
        Id::Armory => (Age::III, Kind::Commercial, cost_of(0, 0, 0, 2, 1, 0),
            seq![Effect::Points(3), Effect::CoinsFor(Bonus::Military, 1),
                Effect::DiscardRewardAdjuster]),
        Id::Palace => (Age::III, Kind::Civilian, cost_of(0, 1, 1, 1, 2, 0),
            seq![Effect::Points(7)]),
        Id::TownHall => (Age::III, Kind::Civilian, cost_of(0, 0, 2, 3, 0, 0),
            seq![Effect::Points(7)]),
        Id::Obelisk => (Age::III, Kind::Civilian, cost_of(0, 0, 0, 2, 1, 0),
            seq![Effect::Points(5)]),
        Id::Fortifications => (Age::III, Kind::Military, cost_of(0, 1, 0, 2, 0, 1),
            seq![Effect::Military(2, true)]),
        Id::SiegeWorkshop => (Age::III, Kind::Military, cost_of(0, 0, 3, 0, 1, 0),
            seq![Effect::Military(2, true)]),
        Id::Circus => (Age::III, Kind::Military, cost_of(0, 2, 0, 2, 0, 0),
            seq![Effect::Military(2, true)]),
        Id::University => (Age::III, Kind::Scientific, cost_of(0, 1, 0, 0, 1, 1),
            seq![Effect::Points(2), Effect::Science(ScientificSymbol::Astrology)]),
        Id::Observatory => (Age::III, Kind::Scientific, cost_of(0, 0, 0, 1, 0, 2),
            seq![Effect::Points(2), Effect::Science(ScientificSymbol::Astrology)]),
        Id::Gardens => (Age::III, Kind::Civilian, cost_of(0, 2, 2, 0, 0, 0),
            seq![Effect::Points(6)]),
        Id::Pantheon => (Age::III, Kind::Civilian, cost_of(0, 1, 1, 0, 0, 2),
            seq![Effect::Points(6)]),
        Id::Senate => (Age::III, Kind::Civilian, cost_of(0, 2, 0, 1, 0, 1),
            seq![Effect::Points(5)]),
        Id::Lighthouse => (Age::III, Kind::Commercial, cost_of(0, 2, 0, 0, 1, 0),
            seq![Effect::Points(3), Effect::CoinsFor(Bonus::Commercial, 1),
                Effect::DiscardRewardAdjuster]),
        Id::Arena => (Age::III, Kind::Commercial, cost_of(0, 1, 1, 1, 0, 0),
            seq![Effect::Points(3), Effect::CoinsFor(Bonus::Wonder, 2),
                Effect::DiscardRewardAdjuster]),
        Id::MerchantsGuild => (Age::III, Kind::Guild, cost_of(0, 1, 1, 0, 1, 1),
            seq![Effect::Guild(Bonus::Commercial, 1, 1)]),
        Id::ShipOwnersGuild => (Age::III, Kind::Guild, cost_of(0, 1, 0, 1, 1, 1),
            seq![Effect::Guild(Bonus::Resources, 1, 1)]),
        Id::BuildersGuild => (Age::III, Kind::Guild, cost_of(0, 1, 1, 2, 1, 0),
            seq![Effect::Guild(Bonus::Wonder, 0, 2)]),
        Id::MagistratesGuild => (Age::III, Kind::Guild, cost_of(0, 1, 2, 0, 0, 1),
            seq![Effect::Guild(Bonus::Civilian, 1, 1)]),
        Id::ScientistsGuild => (Age::III, Kind::Guild, cost_of(0, 2, 2, 0, 0, 0),
            seq![Effect::Guild(Bonus::Science, 1, 1)]),
        Id::MoneyLendersGuild => (Age::III, Kind::Guild, cost_of(0, 0, 2, 2, 0, 0),
            seq![Effect::Guild(Bonus::Coin, 0, 1)]),
        Id::TacticiansGuild => (Age::III, Kind::Guild, cost_of(0, 1, 0, 2, 0, 1),
            seq![Effect::Guild(Bonus::Military, 1, 1)]),
    }
}

pub open spec fn spec_age(id: Id) -> Age {
    spec_unit(id).0
}

pub open spec fn spec_kind(id: Id) -> Kind {
    spec_unit(id).1
}

pub open spec fn spec_cost(id: Id) -> Cost {
    spec_unit(id).2
}

pub open spec fn spec_effects(id: Id) -> Seq<Effect> {
    spec_unit(id).3
}

fn mk(id: Id, age: Age, kind: Kind, cost: Cost, effects: Vec<Effect>) -> (u: Unit)
    ensures
        u.id == id,
        u.age == age,
        u.kind == kind,
        u.cost == cost,
        u.effects@ == effects@,
{
    Unit { id, age, kind, cost, effects }
}

fn costc(coins: u8, clay: u8, wood: u8, stone: u8, glass: u8, papyrus: u8) -> (c: Cost)
    ensures
        c == cost_of(coins, clay, wood, stone, glass, papyrus),
{
    Cost { coins, resources: Resources { clay, wood, stone, glass, papyrus } }
}

/// Look an identifier up in the catalog.
#[verifier::rlimit(100)]
pub fn get(id: Id) -> (u: Unit)
    ensures
        u.id == id,
        u.age == spec_age(id),
        u.kind == spec_kind(id),
        u.cost == spec_cost(id),
        u.effects@ =~= spec_effects(id),
{
    match id {
        Id::LumberYard => mk(id, Age::I, Kind::RawMaterials, costc(0, 0, 0, 0, 0, 0),
            vec![Effect::Resource(Resource::Wood, 1)]),
        Id::LoggingCamp => mk(id, Age::I, Kind::RawMaterials, costc(1, 0, 0, 0, 0, 0),
            vec![Effect::Resource(Resource::Wood, 1)]),
        Id::ClayPool => mk(id, Age::I, Kind::RawMaterials, costc(0, 0, 0, 0, 0, 0),
            vec![Effect::Resource(Resource::Clay, 1)]),
        Id::ClayPit => mk(id, Age::I, Kind::RawMaterials, costc(1, 0, 0, 0, 0, 0),
            vec![Effect::Resource(Resource::Clay, 1)]),
        Id::Quarry => mk(id, Age::I, Kind::RawMaterials, costc(0, 0, 0, 0, 0, 0),
            vec![Effect::Resource(Resource::Stone, 1)]),
        Id::StonePit => mk(id, Age::I, Kind::RawMaterials, costc(1, 0, 0, 0, 0, 0),
            vec![Effect::Resource(Resource::Stone, 1)]),
        Id::GlassWorks => mk(id, Age::I, Kind::ManufacturedGoods, costc(1, 0, 0, 0, 0, 0),
            vec![Effect::Resource(Resource::Glass, 1)]),
        Id::Press => mk(id, Age::I, Kind::ManufacturedGoods, costc(1, 0, 0, 0, 0, 0),
            vec![Effect::Resource(Resource::Papyrus, 1)]),
        Id::GuardTower => mk(id, Age::I, Kind::Military, costc(0, 0, 0, 0, 0, 0),
            vec![Effect::Military(1, true)]),
        Id::Workshop => mk(id, Age::I, Kind::Scientific, costc(0, 0, 0, 0, 0, 1),
            vec![Effect::Points(1), Effect::Science(ScientificSymbol::Compass)]),
        Id::Apothecary => mk(id, Age::I, Kind::Scientific, costc(0, 0, 0, 0, 1, 0),
            vec![Effect::Points(1), Effect::Science(ScientificSymbol::Wheel)]),
        Id::StoneReserve => mk(id, Age::I, Kind::Commercial, costc(3, 0, 0, 0, 0, 0),
            vec![Effect::FixedResourcePrice(ResourceSet::only(Resource::Stone)),
                Effect::DiscardRewardAdjuster]),
        Id::ClayReserve => mk(id, Age::I, Kind::Commercial, costc(3, 0, 0, 0, 0, 0),
            vec![Effect::FixedResourcePrice(ResourceSet::only(Resource::Clay)),
                Effect::DiscardRewardAdjuster]),
        Id::WoodReserve => mk(id, Age::I, Kind::Commercial, costc(3, 0, 0, 0, 0, 0),
            vec![Effect::FixedResourcePrice(ResourceSet::only(Resource::Wood)),
                Effect::DiscardRewardAdjuster]),
        Id::Stable => mk(id, Age::I, Kind::Military, costc(0, 0, 1, 0, 0, 0),
            vec![Effect::Military(1, true), Effect::Chain(Id::HorseBreeders)]),
        Id::Garrison => mk(id, Age::I, Kind::Military, costc(0, 1, 0, 0, 0, 0),
            vec![Effect::Military(1, true), Effect::Chain(Id::Barracks)]),
        Id::Palisade => mk(id, Age::I, Kind::Military, costc(2, 0, 0, 0, 0, 0),
            vec![Effect::Military(1, true), Effect::Chain(Id::Fortifications)]),
        Id::Scriptorium => mk(id, Age::I, Kind::Scientific, costc(2, 0, 0, 0, 0, 0),
            vec![Effect::Science(ScientificSymbol::Writing), Effect::Chain(Id::Library)]),
        Id::Pharmacist => mk(id, Age::I, Kind::Scientific, costc(2, 0, 0, 0, 0, 0),
            vec![Effect::Science(ScientificSymbol::Mortar), Effect::Chain(Id::Dispensary)]),
        Id::Theater => mk(id, Age::I, Kind::Civilian, costc(0, 0, 0, 0, 0, 0),
            vec![Effect::Points(3), Effect::Chain(Id::Statue)]),
        Id::Altar => mk(id, Age::I, Kind::Civilian, costc(0, 0, 0, 0, 0, 0),
            vec![Effect::Points(3), Effect::Chain(Id::Temple)]),
        Id::Baths => mk(id, Age::I, Kind::Civilian, costc(0, 0, 0, 1, 0, 0),
            vec![Effect::Points(3), Effect::Chain(Id::Aqueduct)]),
        Id::Tavern => mk(id, Age::I, Kind::Commercial, costc(0, 0, 0, 0, 0, 0),
            vec![Effect::Coins(4), Effect::Chain(Id::Lighthouse),
                Effect::DiscardRewardAdjuster]),
        Id::SawMill => mk(id, Age::II, Kind::RawMaterials, costc(2, 0, 0, 0, 0, 0),
            vec![Effect::Resource(Resource::Wood, 2)]),
        Id::BrickYard => mk(id, Age::II, Kind::RawMaterials, costc(2, 0, 0, 0, 0, 0),
            vec![Effect::Resource(Resource::Clay, 2)]),
        Id::ShelfQuarry => mk(id, Age::II, Kind::RawMaterials, costc(2, 0, 0, 0, 0, 0),
            vec![Effect::Resource(Resource::Stone, 2)]),
        Id::GlassBlower => mk(id, Age::II, Kind::ManufacturedGoods, costc(0, 0, 0, 0, 0, 0),
            vec![Effect::Resource(Resource::Glass, 1)]),
        Id::DryingRoom => mk(id, Age::II, Kind::ManufacturedGoods, costc(0, 0, 0, 0, 0, 0),
            vec![Effect::Resource(Resource::Papyrus, 1)]),
        Id::Walls => mk(id, Age::II, Kind::Military, costc(0, 0, 0, 2, 0, 0),
            vec![Effect::Military(2, true)]),
        Id::Forum => mk(id, Age::II, Kind::Commercial, costc(3, 1, 0, 0, 0, 0),
            vec![Effect::Discounter {
                scope: PayScope::Global,
                resources: ResourceSet::goods(),
                count: 1,
            }, Effect::DiscardRewardAdjuster]),
        Id::Caravansery => mk(id, Age::II, Kind::Commercial, costc(2, 0, 0, 0, 1, 1),
            vec![Effect::Discounter {
                scope: PayScope::Global,
                resources: ResourceSet::raw(),
                count: 1,
            }, Effect::DiscardRewardAdjuster]),
        Id::CustomHouse => mk(id, Age::II, Kind::Commercial, costc(4, 0, 0, 0, 0, 0),
            vec![Effect::FixedResourcePrice(ResourceSet::goods()),
                Effect::DiscardRewardAdjuster]),
        Id::CourtHouse => mk(id, Age::II, Kind::Civilian, costc(0, 0, 2, 0, 1, 0),
            vec![Effect::Points(5)]),
        Id::HorseBreeders => mk(id, Age::II, Kind::Military, costc(0, 1, 1, 0, 0, 0),
            vec![Effect::Military(1, true)]),
        Id::Barracks => mk(id, Age::II, Kind::Military, costc(3, 0, 0, 0, 0, 0),
            vec![Effect::Military(1, true)]),
        Id::ArcheryRange => mk(id, Age::II, Kind::Military, costc(0, 0, 1, 1, 0, 1),
            vec![Effect::Military(2, true), Effect::Chain(Id::SiegeWorkshop)]),
        Id::ParadeGround => mk(id, Age::II, Kind::Military, costc(0, 2, 0, 0, 1, 0),
            vec![Effect::Military(2, true), Effect::Chain(Id::Circus)]),
        Id::Library => mk(id, Age::II, Kind::Scientific, costc(0, 0, 1, 1, 1, 0),
            vec![Effect::Points(2), Effect::Science(ScientificSymbol::Writing)]),
        Id::Dispensary => mk(id, Age::II, Kind::Scientific, costc(0, 2, 0, 1, 0, 0),
            vec![Effect::Points(2), Effect::Science(ScientificSymbol::Mortar)]),
        Id::School => mk(id, Age::II, Kind::Scientific, costc(0, 0, 1, 0, 0, 2),
            vec![Effect::Points(1), Effect::Science(ScientificSymbol::Wheel),
                Effect::Chain(Id::University)]),
        Id::Laboratory => mk(id, Age::II, Kind::Scientific, costc(0, 0, 1, 0, 2, 0),
            vec![Effect::Points(1), Effect::Science(ScientificSymbol::Compass),
                Effect::Chain(Id::Observatory)]),
        Id::Statue => mk(id, Age::II, Kind::Civilian, costc(0, 2, 0, 0, 0, 0),
            vec![Effect::Points(4), Effect::Chain(Id::Gardens)]),
        Id::Temple => mk(id, Age::II, Kind::Civilian, costc(0, 0, 1, 0, 0, 1),
            vec![Effect::Points(4), Effect::Chain(Id::Pantheon)]),
        Id::Aqueduct => mk(id, Age::II, Kind::Civilian, costc(0, 0, 0, 3, 0, 0),
            vec![Effect::Points(5)]),
        Id::Rostrum => mk(id, Age::II, Kind::Civilian, costc(0, 0, 1, 1, 0, 0),
            vec![Effect::Points(4), Effect::Chain(Id::Senate)]),
        Id::Brewery => mk(id, Age::II, Kind::Commercial, costc(0, 0, 0, 0, 0, 0),
            vec![Effect::Coins(6), Effect::Chain(Id::Arena),
                Effect::DiscardRewardAdjuster]),
        Id::Arsenal => mk(id, Age::III, Kind::Military, costc(0, 3, 2, 0, 0, 0),
            vec![Effect::Military(3, true)]),
        Id::Pretorium => mk(id, Age::III, Kind::Military, costc(8, 0, 0, 0, 0, 0),
            vec![Effect::Military(3, true)]),
        Id::Academy => mk(id, Age::III, Kind::Scientific, costc(0, 0, 1, 1, 2, 0),
            vec![Effect::Points(3), Effect::Science(ScientificSymbol::Sundial)]),
        Id::Study => mk(id, Age::III, Kind::Scientific, costc(0, 0, 2, 0, 1, 1),
            vec![Effect::Points(3), Effect::Science(ScientificSymbol::Sundial)]),
        Id::ChamberOfCommerce => mk(id, Age::III, Kind::Commercial, costc(0, 0, 0, 0, 0, 2),
            vec![Effect::Points(3), Effect::CoinsFor(Bonus::ManufacturedGoods, 3),
                Effect::DiscardRewardAdjuster]),
        Id::Port => mk(id, Age::III, Kind::Commercial, costc(0, 0, 1, 0, 1, 1),
            vec![Effect::Points(3), Effect::CoinsFor(Bonus::RawMaterials, 2),
                Effect::DiscardRewardAdjuster]),
        Id::Armory => mk(id, Age::III, Kind::Commercial, costc(0, 0, 0, 2, 1, 0),
            vec![Effect::Points(3), Effect::CoinsFor(Bonus::Military, 1),
                Effect::DiscardRewardAdjuster]),
        Id::Palace => mk(id, Age::III, Kind::Civilian, costc(0, 1, 1, 1, 2, 0),
            vec![Effect::Points(7)]),
        Id::TownHall => mk(id, Age::III, Kind::Civilian, costc(0, 0, 2, 3, 0, 0),
            vec![Effect::Points(7)]),
        Id::Obelisk => mk(id, Age::III, Kind::Civilian, costc(0, 0, 0, 2, 1, 0),
            vec![Effect::Points(5)]),
        Id::Fortifications => mk(id, Age::III, Kind::Military, costc(0, 1, 0, 2, 0, 1),
            vec![Effect::Military(2, true)]),
        Id::SiegeWorkshop => mk(id, Age::III, Kind::Military, costc(0, 0, 3, 0, 1, 0),
            vec![Effect::Military(2, true)]),
        Id::Circus => mk(id, Age::III, Kind::Military, costc(0, 2, 0, 2, 0, 0),
            vec![Effect::Military(2, true)]),
        Id::University => mk(id, Age::III, Kind::Scientific, costc(0, 1, 0, 0, 1, 1),
            vec![Effect::Points(2), Effect::Science(ScientificSymbol::Astrology)]),
        Id::Observatory => mk(id, Age::III, Kind::Scientific, costc(0, 0, 0, 1, 0, 2),
            vec![Effect::Points(2), Effect::Science(ScientificSymbol::Astrology)]),
        Id::Gardens => mk(id, Age::III, Kind::Civilian, costc(0, 2, 2, 0, 0, 0),
            vec![Effect::Points(6)]),
        Id::Pantheon => mk(id, Age::III, Kind::Civilian, costc(0, 1, 1, 0, 0, 2),
            vec![Effect::Points(6)]),
        Id::Senate => mk(id, Age::III, Kind::Civilian, costc(0, 2, 0, 1, 0, 1),
            vec![Effect::Points(5)]),
        Id::Lighthouse => mk(id, Age::III, Kind::Commercial, costc(0, 2, 0, 0, 1, 0),
            vec![Effect::Points(3), Effect::CoinsFor(Bonus::Commercial, 1),
                Effect::DiscardRewardAdjuster]),
        Id::Arena => mk(id, Age::III, Kind::Commercial, costc(0, 1, 1, 1, 0, 0),
            vec![Effect::Points(3), Effect::CoinsFor(Bonus::Wonder, 2),
                Effect::DiscardRewardAdjuster]),
        Id::MerchantsGuild => mk(id, Age::III, Kind::Guild, costc(0, 1, 1, 0, 1, 1),
            vec![Effect::Guild(Bonus::Commercial, 1, 1)]),
        Id::ShipOwnersGuild => mk(id, Age::III, Kind::Guild, costc(0, 1, 0, 1, 1, 1),
            vec![Effect::Guild(Bonus::Resources, 1, 1)]),
        Id::BuildersGuild => mk(id, Age::III, Kind::Guild, costc(0, 1, 1, 2, 1, 0),
            vec![Effect::Guild(Bonus::Wonder, 0, 2)]),
        Id::MagistratesGuild => mk(id, Age::III, Kind::Guild, costc(0, 1, 2, 0, 0, 1),
            vec![Effect::Guild(Bonus::Civilian, 1, 1)]),
        Id::ScientistsGuild => mk(id, Age::III, Kind::Guild, costc(0, 2, 2, 0, 0, 0),
            vec![Effect::Guild(Bonus::Science, 1, 1)]),
        Id::MoneyLendersGuild => mk(id, Age::III, Kind::Guild, costc(0, 0, 2, 2, 0, 0),
            vec![Effect::Guild(Bonus::Coin, 0, 1)]),
        Id::TacticiansGuild => mk(id, Age::III, Kind::Guild, costc(0, 1, 0, 2, 0, 1),
            vec![Effect::Guild(Bonus::Military, 1, 1)]),
    }
}


/// The canonical position of an identifier in the catalog.
pub open spec fn spec_index(id: Id) -> int {
    match id {
        Id::LumberYard => 0,
        Id::LoggingCamp => 1,
        Id::ClayPool => 2,
        Id::ClayPit => 3,
        Id::Quarry => 4,
        Id::StonePit => 5,
        Id::GlassWorks => 6,
        Id::Press => 7,
        Id::GuardTower => 8,
        Id::Workshop => 9,
        Id::Apothecary => 10,
        Id::StoneReserve => 11,
        Id::ClayReserve => 12,
        Id::WoodReserve => 13,
        Id::Stable => 14,
        Id::Garrison => 15,
        Id::Palisade => 16,
        Id::Scriptorium => 17,
        Id::Pharmacist => 18,
        Id::Theater => 19,
        Id::Altar => 20,
        Id::Baths => 21,
        Id::Tavern => 22,
        Id::SawMill => 23,
        Id::BrickYard => 24,
        Id::ShelfQuarry => 25,
        Id::GlassBlower => 26,
        Id::DryingRoom => 27,
        Id::Walls => 28,
        Id::Forum => 29,
        Id::Caravansery => 30,
        Id::CustomHouse => 31,
        Id::CourtHouse => 32,
        Id::HorseBreeders => 33,
        Id::Barracks => 34,
        Id::ArcheryRange => 35,
        Id::ParadeGround => 36,
        Id::Library => 37,
        Id::Dispensary => 38,
        Id::School => 39,
        Id::Laboratory => 40,
        Id::Statue => 41,
        Id::Temple => 42,
        Id::Aqueduct => 43,
        Id::Rostrum => 44,
        Id::Brewery => 45,
        Id::Arsenal => 46,
        Id::Pretorium => 47,
        Id::Academy => 48,
        Id::Study => 49,
        Id::ChamberOfCommerce => 50,
        Id::Port => 51,
        Id::Armory => 52,
        Id::Palace => 53,
        Id::TownHall => 54,
        Id::Obelisk => 55,
        Id::Fortifications => 56,
        Id::SiegeWorkshop => 57,
        Id::Circus => 58,
        Id::University => 59,
        Id::Observatory => 60,
        Id::Gardens => 61,
        Id::Pantheon => 62,
        Id::Senate => 63,
        Id::Lighthouse => 64,
        Id::Arena => 65,
        Id::MerchantsGuild => 66,
        Id::ShipOwnersGuild => 67,
        Id::BuildersGuild => 68,
        Id::MagistratesGuild => 69,
        Id::ScientistsGuild => 70,
        Id::MoneyLendersGuild => 71,
        Id::TacticiansGuild => 72,
    }
}

/// The catalog lists each identifier at its canonical position, once: the
/// first twenty-three cards belong to the first age, the next twenty-three
/// to the second, the next twenty are the ordinary third-age cards, and the
/// last seven are the guilds.
#[verifier::rlimit(100)]
pub proof fn lemma_catalog_order()
    ensures
        all_ids().len() == 73,
        forall|i: int| 0 <= i < 73 ==> spec_index(#[trigger] all_ids()[i]) == i,
        all_ids().no_duplicates(),
        forall|i: int| 0 <= i < 23 ==> spec_age(#[trigger] all_ids()[i]) == crate::Age::I,
        forall|i: int| 23 <= i < 46 ==> spec_age(#[trigger] all_ids()[i]) == crate::Age::II,
        forall|i: int| 46 <= i < 66 ==> spec_age(#[trigger] all_ids()[i]) == crate::Age::III
            && spec_kind(all_ids()[i]) != Kind::Guild,
        forall|i: int| 66 <= i < 73 ==> spec_age(#[trigger] all_ids()[i]) == crate::Age::III
            && spec_kind(all_ids()[i]) == Kind::Guild,
{
    assert forall|i: int| 0 <= i < 73 implies spec_index(#[trigger] all_ids()[i]) == i by {
        assert(spec_index(all_ids()[i]) == i);
    }
    assert forall|i: int, j: int|
        0 <= i < all_ids().len() && 0 <= j < all_ids().len() && i != j
        implies all_ids()[i] != all_ids()[j] by {
        assert(spec_index(all_ids()[i]) == i);
        assert(spec_index(all_ids()[j]) == j);
    }
    assert forall|i: int| 0 <= i < 23 implies spec_age(#[trigger] all_ids()[i]) == crate::Age::I by {
        assert(spec_age(all_ids()[i]) == crate::Age::I);
    }
    assert forall|i: int| 23 <= i < 46 implies spec_age(#[trigger] all_ids()[i]) == crate::Age::II by {
        assert(spec_age(all_ids()[i]) == crate::Age::II);
    }
    assert forall|i: int| 46 <= i < 66 implies spec_age(#[trigger] all_ids()[i]) == crate::Age::III
        && spec_kind(all_ids()[i]) != Kind::Guild by {
        assert(spec_age(all_ids()[i]) == crate::Age::III && spec_kind(all_ids()[i]) != Kind::Guild);
    }
    assert forall|i: int| 66 <= i < 73 implies spec_age(#[trigger] all_ids()[i]) == crate::Age::III
        && spec_kind(all_ids()[i]) == Kind::Guild by {
        assert(spec_age(all_ids()[i]) == crate::Age::III && spec_kind(all_ids()[i]) == Kind::Guild);
    }
}

/// The catalog's identifiers, one each, in canonical order.
pub open spec fn all_ids() -> Seq<Id> {
    seq![
        Id::LumberYard, Id::LoggingCamp, Id::ClayPool, Id::ClayPit, Id::Quarry, Id::StonePit,
        Id::GlassWorks, Id::Press, Id::GuardTower, Id::Workshop, Id::Apothecary, Id::StoneReserve,
        Id::ClayReserve, Id::WoodReserve, Id::Stable, Id::Garrison, Id::Palisade, Id::Scriptorium,
        Id::Pharmacist, Id::Theater, Id::Altar, Id::Baths, Id::Tavern, Id::SawMill, Id::BrickYard,
        Id::ShelfQuarry, Id::GlassBlower, Id::DryingRoom, Id::Walls, Id::Forum, Id::Caravansery,
        Id::CustomHouse, Id::CourtHouse, Id::HorseBreeders, Id::Barracks, Id::ArcheryRange,
        Id::ParadeGround, Id::Library, Id::Dispensary, Id::School, Id::Laboratory, Id::Statue,
        Id::Temple, Id::Aqueduct, Id::Rostrum, Id::Brewery, Id::Arsenal, Id::Pretorium,
        Id::Academy, Id::Study, Id::ChamberOfCommerce, Id::Port, Id::Armory, Id::Palace,
        Id::TownHall, Id::Obelisk, Id::Fortifications, Id::SiegeWorkshop, Id::Circus,
        Id::University, Id::Observatory, Id::Gardens, Id::Pantheon, Id::Senate, Id::Lighthouse,
        Id::Arena, Id::MerchantsGuild, Id::ShipOwnersGuild, Id::BuildersGuild,
        Id::MagistratesGuild, Id::ScientistsGuild, Id::MoneyLendersGuild, Id::TacticiansGuild,
    ]
}

/// Every building identifier, in canonical order.
#[verifier::rlimit(100)]
pub fn get_all() -> (r: Vec<Id>)
    ensures
        r@ =~= all_ids(),
{
    let v = vec![
        Id::LumberYard, Id::LoggingCamp, Id::ClayPool, Id::ClayPit, Id::Quarry, Id::StonePit,
        Id::GlassWorks, Id::Press, Id::GuardTower, Id::Workshop, Id::Apothecary, Id::StoneReserve,
        Id::ClayReserve, Id::WoodReserve, Id::Stable, Id::Garrison, Id::Palisade, Id::Scriptorium,
        Id::Pharmacist, Id::Theater, Id::Altar, Id::Baths, Id::Tavern, Id::SawMill, Id::BrickYard,
        Id::ShelfQuarry, Id::GlassBlower, Id::DryingRoom, Id::Walls, Id::Forum, Id::Caravansery,
        Id::CustomHouse, Id::CourtHouse, Id::HorseBreeders, Id::Barracks, Id::ArcheryRange,
        Id::ParadeGround, Id::Library, Id::Dispensary, Id::School, Id::Laboratory, Id::Statue,
        Id::Temple, Id::Aqueduct, Id::Rostrum, Id::Brewery, Id::Arsenal, Id::Pretorium,
        Id::Academy, Id::Study, Id::ChamberOfCommerce, Id::Port, Id::Armory, Id::Palace,
        Id::TownHall, Id::Obelisk, Id::Fortifications, Id::SiegeWorkshop, Id::Circus,
        Id::University, Id::Observatory, Id::Gardens, Id::Pantheon, Id::Senate, Id::Lighthouse,
        Id::Arena, Id::MerchantsGuild, Id::ShipOwnersGuild, Id::BuildersGuild,
        Id::MagistratesGuild, Id::ScientistsGuild, Id::MoneyLendersGuild, Id::TacticiansGuild,
    ];
    v
}

/// The members of `source` whose kind is `kind`, in their given order.
pub open spec fn filter_kind(s: Seq<Id>, kind: Kind) -> Seq<Id>
    decreases s.len(),
{
    if s.len() == 0 {
        Seq::empty()
    } else {
        let rest = filter_kind(s.drop_first(), kind);
        if spec_kind(s[0]) == kind {
            seq![s[0]] + rest
        } else {
            rest
        }
    }
}

pub fn filter_by_kind(source: &Vec<Id>, kind: Kind) -> (r: Vec<Id>)
    ensures
        r@ =~= filter_kind(source@, kind),
{
    let mut out: Vec<Id> = Vec::new();
    let mut i: usize = 0;
    assert(source@.skip(0) =~= source@);
    while i < source.len()
        invariant
            i <= source@.len(),
            filter_kind(source@, kind) =~= out@ + filter_kind(source@.skip(i as int), kind),
        decreases source@.len() - i,
    {
        let id = source[i];
        assert(source@.skip(i as int)[0] == id);
        assert(source@.skip(i as int).drop_first() =~= source@.skip(i + 1));
        let u = get(id);
        if u.kind == kind {
            out.push(id);
        }
        i = i + 1;
    }
    assert(source@.skip(source@.len() as int) =~= Seq::<Id>::empty());
    assert(out@ + Seq::<Id>::empty() =~= out@);
    out
}

/// How many members of `source` have kind `kind`, saturating at 255.
pub fn count_by_kind(source: &Vec<Id>, kind: Kind) -> (n: u8)
    ensures
        n == if filter_kind(source@, kind).len() > 255 {
            255int
        } else {
            filter_kind(source@, kind).len() as int
        },
{
    let filtered = filter_by_kind(source, kind);
    if filtered.len() > 255 {
        255
    } else {
        filtered.len() as u8
    }
}

} // verus!

