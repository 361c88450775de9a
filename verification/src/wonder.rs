//! The wonder catalog: identifiers, costs and fixed effect lists.

use vstd::prelude::*;
use crate::building;
use crate::building::cost_of;
use crate::economy::{Cost, PayScope, Resources, ResourceSet};
use crate::effect::Effect;

verus! {

#[derive(Debug, Copy, Clone, PartialEq, Eq, Structural)]
pub enum Id {
    TheAppianWay,
    CircusMaximus,
    TheColossus,
    TheGreatLibrary,
    TheGreatLighthouse,
    TheHangingGardens,
    TheMausoleum,
    Piraeus,
    ThePyramids,
    TheSphinx,
    TheStatueOfZeus,
    TheTempleOfArtemis,
    Messe,
    StatueOfLiberty,
}

impl Id {
    /// Whether this wonder belongs to the promotional extension pool.
    pub open spec fn spec_is_promo(self) -> bool {
        self == Id::Messe || self == Id::StatueOfLiberty
    }

    pub fn is_promo(&self) -> (r: bool)
        ensures
            r == self.spec_is_promo(),
    {
        *self == Id::Messe || *self == Id::StatueOfLiberty
    }
}

/// One catalog entry: an identifier together with its fixed definition.
#[derive(Debug, Clone, PartialEq, Eq)]
pub struct Unit {
    pub id: Id,
    pub cost: Cost,
    pub effects: Vec<Effect>,
}

impl Unit {
    pub fn effects(&self) -> (r: &Vec<Effect>)
        ensures
            r == &self.effects,
    {
        &self.effects
    }

    /// Run all attached effects on construction.
    pub fn construct(&self, s: &mut crate::state::State)
        requires
            old(s).wf(),
            old(s).phase != crate::Phase::Unstarted,
        ensures
            crate::effect::effects_apply_fold(self.effects@, *old(s), *final(s)),
            final(s).wf(),
    {
        crate::effect::construct_effects(&self.effects, s);
    }

    /// The points this wonder contributes to the acting city's score.
    pub fn get_points(&self, s: &crate::state::State) -> (r: u8)
        ensures
            r == crate::state::pts_fold(self.effects@, s.me_city, s.enemy_city, 0),
    {
        crate::state::effects_points(&self.effects, &s.me_city, &s.enemy_city)
    }
}

/// The fixed catalog: cost and effect list of every wonder.
pub open spec fn spec_unit(id: Id) -> (Cost, Seq<Effect>) {
    match id {
        Id::TheAppianWay => (cost_of(0, 2, 0, 2, 0, 1),
            seq![Effect::Coins(3), Effect::Fine(3), Effect::PlayAgain, Effect::Points(3)]),
        Id::CircusMaximus => (cost_of(0, 0, 1, 2, 1, 0),
            seq![Effect::DestructBuilding(building::Kind::ManufacturedGoods),
                Effect::Military(1, false), Effect::Points(3)]),
        Id::TheColossus => (cost_of(0, 3, 0, 0, 1, 0),
            seq![Effect::Military(2, false), Effect::Points(3)]),
        Id::TheGreatLibrary => (cost_of(0, 0, 3, 0, 1, 1),
            seq![Effect::PickRandomToken, Effect::Points(4)]),
        Id::TheGreatLighthouse => (cost_of(0, 0, 1, 1, 0, 2),
            seq![Effect::Discounter {
                scope: PayScope::Global,
                resources: ResourceSet::raw_set(),
                count: 1,
            }, Effect::Points(4)]),
        Id::TheHangingGardens => (cost_of(0, 0, 2, 0, 1, 1),
            seq![Effect::Coins(6), Effect::PlayAgain, Effect::Points(3)]),
        Id::TheMausoleum => (cost_of(0, 2, 0, 0, 2, 1),
            seq![Effect::PickDiscardedBuilding, Effect::Points(2)]),
        Id::Piraeus => (cost_of(0, 1, 2, 1, 0, 0),
            seq![Effect::Discounter {
                scope: PayScope::Global,
                resources: ResourceSet::goods_set(),
                count: 1,
            }, Effect::PlayAgain, Effect::Points(2)]),
        Id::ThePyramids => (cost_of(0, 0, 0, 3, 0, 1),
            seq![Effect::Points(9)]),
        Id::TheSphinx => (cost_of(0, 1, 0, 1, 2, 0),
            seq![Effect::PlayAgain, Effect::Points(6)]),
        Id::TheStatueOfZeus => (cost_of(0, 1, 1, 1, 0, 2),
            seq![Effect::DestructBuilding(building::Kind::RawMaterials),
                Effect::Military(1, false), Effect::Points(3)]),
        Id::TheTempleOfArtemis => (cost_of(0, 0, 1, 1, 1, 1),
            seq![Effect::Coins(12), Effect::PlayAgain]),
        Id::Messe => (cost_of(0, 2, 1, 0, 1, 1),
            seq![Effect::PickTopLineBuilding, Effect::Points(2)]),
        Id::StatueOfLiberty => (cost_of(0, 1, 1, 1, 1, 1),
            seq![Effect::PickReturnedBuildings, Effect::Points(5)]),
    }
}

pub open spec fn spec_cost(id: Id) -> Cost {
    spec_unit(id).0
}

pub open spec fn spec_effects(id: Id) -> Seq<Effect> {
    spec_unit(id).1
}

fn costc(coins: u8, clay: u8, wood: u8, stone: u8, glass: u8, papyrus: u8) -> (c: Cost)
    ensures
        c == cost_of(coins, clay, wood, stone, glass, papyrus),
{
    Cost { coins, resources: Resources { clay, wood, stone, glass, papyrus } }
}

/// Look an identifier up in the catalog.
#[verifier::rlimit(50)]
pub fn get(id: Id) -> (u: Unit)
    ensures
        u.id == id,
        u.cost == spec_cost(id),
        u.effects@ =~= spec_effects(id),
{
    let (cost, effects): (Cost, Vec<Effect>) = match id {
        Id::TheAppianWay => (costc(0, 2, 0, 2, 0, 1),
            vec![Effect::Coins(3), Effect::Fine(3), Effect::PlayAgain, Effect::Points(3)]),
        Id::CircusMaximus => (costc(0, 0, 1, 2, 1, 0),
            vec![Effect::DestructBuilding(building::Kind::ManufacturedGoods),
                Effect::Military(1, false), Effect::Points(3)]),
        Id::TheColossus => (costc(0, 3, 0, 0, 1, 0),
            vec![Effect::Military(2, false), Effect::Points(3)]),
        Id::TheGreatLibrary => (costc(0, 0, 3, 0, 1, 1),
            vec![Effect::PickRandomToken, Effect::Points(4)]),
        Id::TheGreatLighthouse => (costc(0, 0, 1, 1, 0, 2),
            vec![Effect::Discounter {
                scope: PayScope::Global,
                resources: ResourceSet::raw(),
                count: 1,
            }, Effect::Points(4)]),
        Id::TheHangingGardens => (costc(0, 0, 2, 0, 1, 1),
            vec![Effect::Coins(6), Effect::PlayAgain, Effect::Points(3)]),
        Id::TheMausoleum => (costc(0, 2, 0, 0, 2, 1),
            vec![Effect::PickDiscardedBuilding, Effect::Points(2)]),
        Id::Piraeus => (costc(0, 1, 2, 1, 0, 0),
            vec![Effect::Discounter {
                scope: PayScope::Global,
                resources: ResourceSet::goods(),
                count: 1,
            }, Effect::PlayAgain, Effect::Points(2)]),
        Id::ThePyramids => (costc(0, 0, 0, 3, 0, 1),
            vec![Effect::Points(9)]),
        Id::TheSphinx => (costc(0, 1, 0, 1, 2, 0),
            vec![Effect::PlayAgain, Effect::Points(6)]),
        Id::TheStatueOfZeus => (costc(0, 1, 1, 1, 0, 2),
            vec![Effect::DestructBuilding(building::Kind::RawMaterials),
                Effect::Military(1, false), Effect::Points(3)]),
        Id::TheTempleOfArtemis => (costc(0, 0, 1, 1, 1, 1),
            vec![Effect::Coins(12), Effect::PlayAgain]),
        Id::Messe => (costc(0, 2, 1, 0, 1, 1),
            vec![Effect::PickTopLineBuilding, Effect::Points(2)]),
        Id::StatueOfLiberty => (costc(0, 1, 1, 1, 1, 1),
            vec![Effect::PickReturnedBuildings, Effect::Points(5)]),
    };
    Unit { id, cost, effects }
}

/// The catalog's identifiers, one each, in canonical order.
pub open spec fn all_ids() -> Seq<Id> {
    seq![
        Id::TheAppianWay, Id::CircusMaximus, Id::TheColossus, Id::TheGreatLibrary,
        Id::TheGreatLighthouse, Id::TheHangingGardens, Id::TheMausoleum, Id::Piraeus,
        Id::ThePyramids, Id::TheSphinx, Id::TheStatueOfZeus, Id::TheTempleOfArtemis, Id::Messe,
        Id::StatueOfLiberty,
    ]
}

/// No wonder identifier repeats in the catalog.
#[verifier::rlimit(100)]
pub proof fn lemma_wonders_distinct()
    ensures
        all_ids().no_duplicates(),
{
}

/// Every wonder identifier, in canonical order.
pub fn get_all() -> (r: Vec<Id>)
    ensures
        r@ =~= all_ids(),
{
    vec![
        Id::TheAppianWay, Id::CircusMaximus, Id::TheColossus, Id::TheGreatLibrary,
        Id::TheGreatLighthouse, Id::TheHangingGardens, Id::TheMausoleum, Id::Piraeus,
        Id::ThePyramids, Id::TheSphinx, Id::TheStatueOfZeus, Id::TheTempleOfArtemis, Id::Messe,
        Id::StatueOfLiberty,
    ]
}

} // verus!
