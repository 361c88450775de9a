//! The progress-token catalog: identifiers and their fixed effect lists.

use vstd::prelude::*;
use crate::economy::{PayScope, ResourceSet};
use crate::effect::Effect;
use crate::ScientificSymbol;

verus! {

#[derive(Debug, Copy, Clone, PartialEq, Eq, Structural)]
pub enum Id {
    Agriculture,
    Architecture,
    Economy,
    Law,
    Masonry,
    Mathematics,
    Philosophy,
    Strategy,
    Theology,
    Urbanism,
}

/// One catalog entry: an identifier together with its fixed effect list.
#[derive(Debug, Clone, PartialEq, Eq)]
pub struct Unit {
    pub id: Id,
    pub effects: Vec<Effect>,
}

impl Unit {
    pub fn effects(&self) -> (r: &Vec<Effect>)
        ensures
            r == &self.effects,
    {
        &self.effects
    }

    /// Run all attached effects on construction.
    pub fn construct(&self, s: &mut crate::state::State)
        requires
            old(s).wf(),
            old(s).phase != crate::Phase::Unstarted,
        ensures
            crate::effect::effects_apply_fold(self.effects@, *old(s), *final(s)),
            final(s).wf(),
    {
        crate::effect::construct_effects(&self.effects, s);
    }

    /// The points this token contributes to the acting city's score.
    pub fn get_points(&self, s: &crate::state::State) -> (r: u8)
        ensures
            r == crate::state::pts_fold(self.effects@, s.me_city, s.enemy_city, 0),
    {
        crate::state::effects_points(&self.effects, &s.me_city, &s.enemy_city)
    }
}

/// The fixed catalog: the effect list of every progress token.
pub open spec fn spec_effects(id: Id) -> Seq<Effect> {
    match id {
        Id::Agriculture => seq![Effect::Coins(6), Effect::Points(4)],
        Id::Architecture => seq![Effect::Discounter {
            scope: PayScope::Wonders,
            resources: ResourceSet::all_set(),
            count: 2,
        }],
        Id::Economy => seq![],
        Id::Law => seq![Effect::Science(ScientificSymbol::Law)],
        Id::Masonry => seq![Effect::Discounter {
            scope: PayScope::Civilian,
            resources: ResourceSet::all_set(),
            count: 2,
        }],
        Id::Mathematics => seq![Effect::Mathematics],
        Id::Philosophy => seq![Effect::Points(7)],
        Id::Strategy => seq![],
        Id::Theology => seq![],
        Id::Urbanism => seq![Effect::Coins(6)],
    }
}

/// Look an identifier up in the catalog.
pub fn get(id: Id) -> (u: Unit)
    ensures
        u.id == id,
        u.effects@ =~= spec_effects(id),
{
    let effects: Vec<Effect> = match id {
        Id::Agriculture => vec![Effect::Coins(6), Effect::Points(4)],
        Id::Architecture => vec![Effect::Discounter {
            scope: PayScope::Wonders,
            resources: ResourceSet::full(),
            count: 2,
        }],
        Id::Economy => vec![],
        Id::Law => vec![Effect::Science(ScientificSymbol::Law)],
        Id::Masonry => vec![Effect::Discounter {
            scope: PayScope::Civilian,
            resources: ResourceSet::full(),
            count: 2,
        }],
        Id::Mathematics => vec![Effect::Mathematics],
        Id::Philosophy => vec![Effect::Points(7)],
        Id::Strategy => vec![],
        Id::Theology => vec![],
        Id::Urbanism => vec![Effect::Coins(6)],
    };
    Unit { id, effects }
}

/// The catalog's identifiers, one each, in canonical order.
pub open spec fn all_ids() -> Seq<Id> {
    seq![
        Id::Agriculture, Id::Architecture, Id::Economy, Id::Law, Id::Masonry, Id::Mathematics,
        Id::Philosophy, Id::Strategy, Id::Theology, Id::Urbanism,
    ]
}

/// No token identifier repeats in the catalog.
#[verifier::rlimit(100)]
pub proof fn lemma_tokens_distinct()
    ensures
        all_ids().no_duplicates(),
{
}

/// Every token identifier, in canonical order.
pub fn get_all() -> (r: Vec<Id>)
    ensures
        r@ =~= all_ids(),
{
    vec![
        Id::Agriculture, Id::Architecture, Id::Economy, Id::Law, Id::Masonry, Id::Mathematics,
        Id::Philosophy, Id::Strategy, Id::Theology, Id::Urbanism,
    ]
}

} // verus!
