//! The closed catalog of effects a building, wonder or token can carry, and
//! the deferred post-effects that require a follow-up player choice.

use vstd::prelude::*;
use crate::{
    Bonus, Coins, Finisher, Nickname, Phase, Points, ScientificSymbol, Victory,
    DEFAULT_RESOURCE_PRICE,
};
use crate::building;
use crate::token;
use crate::economy::{PayScope, Resource, ResourceSet};
use crate::military::conflict_result;
use crate::state::{
    add_sat, effect_points, mul_u8, post_effect_actor, spec_bonus_rate, spec_effect_points,
    spec_guild_rate, spec_over, with_turn, Bank, City, State, Units,
};
use crate::economy::{Discount, Resources};

verus! {

/// An immediate or deferred consequence of constructing a unit.  `apply` runs
/// on construction, `rollback` on destruction (only resource production is
/// reversible), `get_points` contributes to scoring without mutating.
#[derive(Debug, Copy, Clone, PartialEq, Eq, Structural)]
pub enum Effect {
    /// The named building later constructs free of charge.
    Chain(building::Id),
    Coins(Coins),
    /// Coins per point of the city's own bonus rate in a category.
    CoinsFor(Bonus, Coins),
    /// Offer to destroy one enemy building of the given kind.
    DestructBuilding(building::Kind),
    DiscardRewardAdjuster,
    Discounter { scope: PayScope, resources: ResourceSet, count: u8 },
    /// The enemy loses up to this many coins.
    Fine(Coins),
    FixedResourcePrice(ResourceSet),
    /// Coins now and points later, per point of the better player's bonus
    /// rate in a category.
    Guild(Bonus, Coins, Points),
    /// Points per collected progress token.
    Mathematics,
    /// Military power; the flag allows the Strategy token to add one.
    Military(u8, bool),
    PickBoardToken,
    PickDiscardedBuilding,
    PickRandomToken,
    PickReturnedBuildings,
    PickTopLineBuilding,
    PlayAgain,
    Points(u8),
    Resource(Resource, u8),
    Science(ScientificSymbol),
}

/// A deferred effect waiting in the queue: the acting player and the concrete
/// candidate set, frozen at enqueue time.
#[derive(Debug, Clone, PartialEq, Eq)]
pub enum PostEffect {
    DestructBuilding(Nickname, Vec<building::Id>),
    PickBoardToken(Nickname, Vec<token::Id>),
    PickDiscardedBuilding(Nickname, Vec<building::Id>),
    PickRandomToken(Nickname, Vec<token::Id>),
    PickReturnedBuildings(Nickname, Vec<building::Id>),
    PickTopLineBuilding(Nickname, Vec<building::Id>),
}

/// The board tokens still face-up, in slot order.
pub open spec fn avail_tokens(pt: Seq<Option<token::Id>>) -> Seq<token::Id>
    decreases pt.len(),
{
    if pt.len() == 0 {
        Seq::empty()
    } else {
        let rest = avail_tokens(pt.drop_first());
        match pt[0] {
            Some(t) => seq![t] + rest,
            None => rest,
        }
    }
}

/// The index of a symbol in the collected list, or a negative value if the
/// city has none of it yet.
pub open spec fn find_symbol(ss: Seq<(ScientificSymbol, u8)>, sym: ScientificSymbol) -> int
    decreases ss.len(),
{
    if ss.len() == 0 {
        -1
    } else if ss[0].0 == sym {
        0
    } else {
        let r = find_symbol(ss.drop_first(), sym);
        if r < 0 {
            -1
        } else {
            r + 1
        }
    }
}

/// Resource prices after pinning every covered kind to the fixed low price.
pub open spec fn fix_prices(p: Resources, set: ResourceSet) -> Resources {
    Resources {
        clay: if set.clay { crate::FIXED_RESOURCE_PRICE } else { p.clay },
        wood: if set.wood { crate::FIXED_RESOURCE_PRICE } else { p.wood },
        stone: if set.stone { crate::FIXED_RESOURCE_PRICE } else { p.stone },
        glass: if set.glass { crate::FIXED_RESOURCE_PRICE } else { p.glass },
        papyrus: if set.papyrus { crate::FIXED_RESOURCE_PRICE } else { p.papyrus },
    }
}

/// A queue that grew by exactly the given pending choice for the acting
/// player, with the given candidate identifiers.
pub open spec fn pushed_building_choice(pre: Seq<PostEffect>, post: Seq<PostEffect>,
    kind_sel: Phase, actor: Nickname, cands: Seq<building::Id>) -> bool {
    &&& post.len() == pre.len() + 1
    &&& post.take(pre.len() as int) == pre
    &&& match post.last() {
        PostEffect::DestructBuilding(n, v) => kind_sel == Phase::DestructBuildingSelection
            && n == actor && v@ == cands,
        PostEffect::PickDiscardedBuilding(n, v) => kind_sel
            == Phase::DiscardedBuildingSelection && n == actor && v@ == cands,
        PostEffect::PickReturnedBuildings(n, v) => kind_sel
            == Phase::ReturnedBuildingSelection && n == actor && v@ == cands,
        PostEffect::PickTopLineBuilding(n, v) => kind_sel == Phase::TopLineBuildingSelection
            && n == actor && v@ == cands,
        _ => false,
    }
}

pub open spec fn pushed_token_choice(pre: Seq<PostEffect>, post: Seq<PostEffect>,
    kind_sel: Phase, actor: Nickname, cands: Seq<token::Id>) -> bool {
    &&& post.len() == pre.len() + 1
    &&& post.take(pre.len() as int) == pre
    &&& match post.last() {
        PostEffect::PickBoardToken(n, v) => kind_sel == Phase::BoardTokenSelection && n == actor
            && v@ == cands,
        PostEffect::PickRandomToken(n, v) => kind_sel == Phase::RandomTokenSelection
            && n == actor && v@ == cands,
        _ => false,
    }
}

/// The candidates a returned-card pick offers in this state.
pub open spec fn spec_returned_candidates(s: State) -> Seq<building::Id> {
    if s.deck.buildings@.len() == 0 {
        Seq::empty()
    } else {
        crate::deck::returned_of(
            building::all_ids(),
            building::spec_age(s.deck.buildings@[0]),
            s.deck.buildings@,
        )
    }
}

/// The candidates a top-line pick offers in this state.
pub open spec fn spec_top_line_candidates(s: State) -> Seq<building::Id> {
    if s.deck.scheme@.len() == 0 {
        Seq::empty()
    } else {
        crate::deck::face_up_prefix(
            crate::deck::spec_public_layout(s.deck.graph@, s.deck.face_down@, s.deck.buildings@),
            crate::deck::occupied(s.deck.scheme@[0]@) / 2,
        )
    }
}

/// Exactly what applying one effect does to the state.
pub open spec fn effect_apply_spec(e: Effect, pre: State, post: State) -> bool {
    match e {
        Effect::Chain(b) => {
            &&& post == (State {
                me_city: City { chains: post.me_city.chains, ..pre.me_city },
                ..pre
            })
            &&& post.me_city.chains@ == pre.me_city.chains@.push(b)
        },
        Effect::Coins(c) => post == (State {
            me_city: City {
                coins: crate::state::sat_u8(pre.me_city.coins + c),
                ..pre.me_city
            },
            ..pre
        }),
        Effect::CoinsFor(b, c) => post == (State {
            me_city: City {
                coins: crate::state::sat_u8(
                    pre.me_city.coins + spec_bonus_rate(pre.me_city, b) * c,
                ),
                ..pre.me_city
            },
            ..pre
        }),
        Effect::DestructBuilding(kind) => {
            let cands = building::filter_kind(pre.enemy_city.buildings@, kind);
            if cands.len() == 0 {
                post == pre
            } else {
                &&& post == (State { post_effects: post.post_effects, ..pre })
                &&& pushed_building_choice(
                    pre.post_effects@,
                    post.post_effects@,
                    Phase::DestructBuildingSelection,
                    pre.players.me,
                    cands,
                )
            }
        },
        Effect::DiscardRewardAdjuster => post == (State {
            me_city: City {
                bank: Bank {
                    discard_reward: crate::state::sat_u8(pre.me_city.bank.discard_reward + 1),
                    ..pre.me_city.bank
                },
                ..pre.me_city
            },
            ..pre
        }),
        Effect::Discounter { scope, resources, count } => {
            &&& post == (State {
                me_city: City {
                    bank: Bank {
                        discounts: post.me_city.bank.discounts,
                        ..pre.me_city.bank
                    },
                    ..pre.me_city
                },
                ..pre
            })
            &&& post.me_city.bank.discounts@ == pre.me_city.bank.discounts@.push(
                Discount { scope, resources, count },
            )
        },
        Effect::Fine(c) => post == (State {
            enemy_city: City {
                coins: crate::state::sub_sat_spec(pre.enemy_city.coins, c),
                ..pre.enemy_city
            },
            ..pre
        }),
        Effect::FixedResourcePrice(set) => post == (State {
            me_city: City {
                bank: Bank {
                    resource_price: fix_prices(pre.me_city.bank.resource_price, set),
                    ..pre.me_city.bank
                },
                ..pre.me_city
            },
            ..pre
        }),
        Effect::Guild(b, c, _) => post == (State {
            me_city: City {
                coins: crate::state::sat_u8(
                    pre.me_city.coins + spec_guild_rate(pre.me_city, pre.enemy_city, b) * c,
                ),
                ..pre.me_city
            },
            ..pre
        }),
        Effect::Military(power, use_strategy) => {
            let strat = use_strategy && pre.me_city.tokens@.contains(token::Id::Strategy);
            let pw = if strat {
                crate::state::sat_u8(power + 1)
            } else {
                power
            };
            let (mt, et, fine, sup) = conflict_result(
                pre.me_city.track,
                pre.enemy_city.track,
                pw,
            );
            let mid = State {
                me_city: City { track: mt, ..pre.me_city },
                enemy_city: City {
                    track: et,
                    coins: crate::state::sub_sat_spec(pre.enemy_city.coins, fine),
                    ..pre.enemy_city
                },
                ..pre
            };
            post == if sup {
                spec_over(mid, Finisher::Winner(pre.players.me), Victory::MilitarySupremacy)
            } else {
                mid
            }
        },
        Effect::PickBoardToken => {
            let avail = avail_tokens(pre.progress_tokens@);
            if avail.len() == 0 {
                post == pre
            } else {
                &&& post == (State { post_effects: post.post_effects, ..pre })
                &&& pushed_token_choice(
                    pre.post_effects@,
                    post.post_effects@,
                    Phase::BoardTokenSelection,
                    pre.players.me,
                    avail,
                )
            }
        },
        Effect::PickDiscardedBuilding => {
            if pre.buildings.discarded@.len() == 0 {
                post == pre
            } else {
                &&& post == (State { post_effects: post.post_effects, ..pre })
                &&& pushed_building_choice(
                    pre.post_effects@,
                    post.post_effects@,
                    Phase::DiscardedBuildingSelection,
                    pre.players.me,
                    pre.buildings.discarded@,
                )
            }
        },
        Effect::PickRandomToken => {
            if pre.random_units.tokens@.len() == 0 {
                post == pre
            } else {
                &&& post == (State { post_effects: post.post_effects, ..pre })
                &&& pushed_token_choice(
                    pre.post_effects@,
                    post.post_effects@,
                    Phase::RandomTokenSelection,
                    pre.players.me,
                    pre.random_units.tokens@,
                )
            }
        },
        Effect::PickReturnedBuildings => {
            let cands = spec_returned_candidates(pre);
            if cands.len() == 0 {
                post == pre
            } else {
                &&& post == (State { post_effects: post.post_effects, ..pre })
                &&& pushed_building_choice(
                    pre.post_effects@,
                    post.post_effects@,
                    Phase::ReturnedBuildingSelection,
                    pre.players.me,
                    cands,
                )
            }
        },
        Effect::PickTopLineBuilding => {
            let cands = spec_top_line_candidates(pre);
            if cands.len() == 0 {
                post == pre
            } else {
                &&& post == (State { post_effects: post.post_effects, ..pre })
                &&& pushed_building_choice(
                    pre.post_effects@,
                    post.post_effects@,
                    Phase::TopLineBuildingSelection,
                    pre.players.me,
                    cands,
                )
            }
        },
        Effect::PlayAgain => post == (State { play_again: true, ..pre }),
        Effect::Resource(r, count) => {
            let stock = crate::state::sat_u8(pre.me_city.resources.spec_get(r) + count);
            let me2 = City { resources: pre.me_city.resources.spec_set(r, stock), ..pre.me_city };
            let enemy2 = if pre.enemy_city.bank.resource_price.spec_get(r)
                == crate::FIXED_RESOURCE_PRICE {
                pre.enemy_city
            } else {
                City {
                    bank: Bank {
                        resource_price: pre.enemy_city.bank.resource_price.spec_set(
                            r,
                            crate::state::sat_u8(DEFAULT_RESOURCE_PRICE + stock),
                        ),
                        ..pre.enemy_city.bank
                    },
                    ..pre.enemy_city
                }
            };
            post == (State { me_city: me2, enemy_city: enemy2, ..pre })
        },
        Effect::Science(sym) => {
            let ss = pre.me_city.scientific_symbols@;
            let j = find_symbol(ss, sym);
            let cnt = if j >= 0 {
                crate::state::sat_u8(ss[j].1 + 1)
            } else {
                1u8
            };
            let ss2 = if j >= 0 {
                ss.update(j, (sym, cnt))
            } else {
                ss.push((sym, 1))
            };
            let picks = j >= 0 && cnt == crate::SAME_SCIENTIFIC_SYMBOLS_FOR_TOKEN;
            let avail = avail_tokens(pre.progress_tokens@);
            let pushed = picks && avail.len() > 0;
            let win = ss2.len() == crate::DIFFERENT_SCIENTIFIC_SYMBOLS_FOR_SUPREMACY as int;
            let mid = State {
                me_city: City {
                    scientific_symbols: post.me_city.scientific_symbols,
                    ..pre.me_city
                },
                post_effects: post.post_effects,
                ..pre
            };
            &&& post.me_city.scientific_symbols@ == ss2
            &&& (pushed ==> pushed_token_choice(
                pre.post_effects@,
                post.post_effects@,
                Phase::BoardTokenSelection,
                pre.players.me,
                avail,
            ))
            &&& (!pushed ==> post.post_effects == pre.post_effects)
            &&& post == if win {
                spec_over(mid, Finisher::Winner(pre.players.me), Victory::ScienceSupremacy)
            } else {
                mid
            }
        },
        _ => post == pre,
    }
}

/// The better of the two players' rates in a category.
pub fn get_guild_rate(s: &State, b: Bonus) -> (r: u8)
    ensures
        r == spec_guild_rate(s.me_city, s.enemy_city, b),
{
    let mr = s.me_city.bonus_rate(b);
    let er = s.enemy_city.bonus_rate(b);
    if mr >= er {
        mr
    } else {
        er
    }
}

impl Effect {
    /// Run this effect on construction.  The whole change is pinned by
    /// `effect_apply_spec`; structural validity is preserved.
    pub fn apply(&self, s: &mut State)
        requires
            old(s).wf(),
            old(s).phase != Phase::Unstarted,
        ensures
            effect_apply_spec(*self, *old(s), *final(s)),
            final(s).wf(),
            final(s).phase == old(s).phase || final(s).phase == Phase::Over,
            final(s).players == old(s).players,
            final(s).me_city.wonders == old(s).me_city.wonders,
            final(s).enemy_city.wonders == old(s).enemy_city.wonders,
            final(s).me_city.buildings == old(s).me_city.buildings,
            final(s).enemy_city.buildings == old(s).enemy_city.buildings,
            final(s).me_city.tokens == old(s).me_city.tokens,
            final(s).enemy_city.tokens == old(s).enemy_city.tokens,
            final(s).interactive_units == old(s).interactive_units,
            final(s).buildings == old(s).buildings,
            final(s).deck == old(s).deck,
    {
        match self {
            Effect::Chain(b) => {
                s.me_city.chains.push(*b);
            },
            Effect::Coins(c) => {
                s.me_city.coins = add_sat(s.me_city.coins, *c);
            },
            Effect::CoinsFor(b, c) => {
                let rate = s.me_city.bonus_rate(*b);
                let gain = mul_u8(rate, *c);
                s.me_city.coins = add_sat_u32_pub(s.me_city.coins, gain);
            },
            Effect::DestructBuilding(kind) => {
                let cands = building::filter_by_kind(&s.enemy_city.buildings, *kind);
                if cands.len() > 0 {
                    let actor = s.players.me;
                    s.post_effects.push(PostEffect::DestructBuilding(actor, cands));
                    proof {
                        assert(s.post_effects@.take(old(s).post_effects@.len() as int)
                            =~= old(s).post_effects@);
                    }
                }
            },
            Effect::DiscardRewardAdjuster => {
                s.me_city.bank.discard_reward = add_sat(s.me_city.bank.discard_reward, 1);
            },
            Effect::Discounter { scope, resources, count } => {
                s.me_city.bank.discounts.push(
                    Discount { scope: *scope, resources: *resources, count: *count },
                );
            },
            Effect::Fine(c) => {
                let cur = s.enemy_city.coins;
                s.enemy_city.coins = if *c < cur {
                    cur - *c
                } else {
                    0
                };
            },
            Effect::FixedResourcePrice(set) => {
                let p = &mut s.me_city.bank.resource_price;
                if set.clay {
                    p.clay = crate::FIXED_RESOURCE_PRICE;
                }
                if set.wood {
                    p.wood = crate::FIXED_RESOURCE_PRICE;
                }
                if set.stone {
                    p.stone = crate::FIXED_RESOURCE_PRICE;
                }
                if set.glass {
                    p.glass = crate::FIXED_RESOURCE_PRICE;
                }
                if set.papyrus {
                    p.papyrus = crate::FIXED_RESOURCE_PRICE;
                }
            },
            Effect::Guild(b, c, _) => {
                let rate = get_guild_rate(s, *b);
                let gain = mul_u8(rate, *c);
                s.me_city.coins = add_sat_u32_pub(s.me_city.coins, gain);
            },
            Effect::Military(power, use_strategy) => {
                let mut pw = *power;
                if *use_strategy && has_token(&s.me_city.tokens, token::Id::Strategy) {
                    pw = add_sat(pw, 1);
                }
                let (fine, supremacy) = s.move_conflict_pawn(pw);
                let cur = s.enemy_city.coins;
                s.enemy_city.coins = if fine < cur {
                    cur - fine
                } else {
                    0
                };
                if supremacy {
                    let w = s.players.me;
                    s.over(Finisher::Winner(w), Victory::MilitarySupremacy);
                }
            },
            Effect::PickBoardToken => {
                let avail = collect_board_tokens(&s.progress_tokens);
                if avail.len() > 0 {
                    let actor = s.players.me;
                    s.post_effects.push(PostEffect::PickBoardToken(actor, avail));
                    proof {
                        assert(s.post_effects@.take(old(s).post_effects@.len() as int)
                            =~= old(s).post_effects@);
                    }
                }
            },
            Effect::PickDiscardedBuilding => {
                if s.buildings.discarded.len() > 0 {
                    let actor = s.players.me;
                    let cands = copy_buildings(&s.buildings.discarded);
                    s.post_effects.push(PostEffect::PickDiscardedBuilding(actor, cands));
                    proof {
                        assert(s.post_effects@.take(old(s).post_effects@.len() as int)
                            =~= old(s).post_effects@);
                    }
                }
            },
            Effect::PickRandomToken => {
                if s.random_units.tokens.len() > 0 {
                    let actor = s.players.me;
                    let cands = copy_tokens(&s.random_units.tokens);
                    s.post_effects.push(PostEffect::PickRandomToken(actor, cands));
                    proof {
                        assert(s.post_effects@.take(old(s).post_effects@.len() as int)
                            =~= old(s).post_effects@);
                    }
                }
            },
            Effect::PickReturnedBuildings => {
                let cands = s.deck.get_returned_buildings();
                proof {
                    assert(cands@ == spec_returned_candidates(*s));
                }
                if cands.len() > 0 {
                    let actor = s.players.me;
                    s.post_effects.push(PostEffect::PickReturnedBuildings(actor, cands));
                    proof {
                        assert(s.post_effects@.take(old(s).post_effects@.len() as int)
                            =~= old(s).post_effects@);
                    }
                }
            },
            Effect::PickTopLineBuilding => {
                let cands = s.deck.get_top_line_buildings();
                proof {
                    assert(cands@ == spec_top_line_candidates(*s));
                }
                if cands.len() > 0 {
                    let actor = s.players.me;
                    s.post_effects.push(PostEffect::PickTopLineBuilding(actor, cands));
                    proof {
                        assert(s.post_effects@.take(old(s).post_effects@.len() as int)
                            =~= old(s).post_effects@);
                    }
                }
            },
            Effect::PlayAgain => {
                s.play_again = true;
            },
            Effect::Resource(r, count) => {
                let stock = add_sat(s.me_city.resources.get(*r), *count);
                s.me_city.resources.set(*r, stock);
                if !s.enemy_city.bank.has_fixed_resource_price(*r) {
                    s.enemy_city.bank.resource_price.set(
                        *r,
                        add_sat(DEFAULT_RESOURCE_PRICE, stock),
                    );
                }
            },
            Effect::Science(sym) => {
                let pos = find_symbol_pos(&s.me_city.scientific_symbols, *sym);
                let mut picked_second = false;
                if let Some(j) = pos {
                    let cnt = add_sat(s.me_city.scientific_symbols[j].1, 1);
                    s.me_city.scientific_symbols[j] = (*sym, cnt);
                    if cnt == crate::SAME_SCIENTIFIC_SYMBOLS_FOR_TOKEN {
                        picked_second = true;
                    }
                } else {
                    s.me_city.scientific_symbols.push((*sym, 1));
                }
                if picked_second {
                    let avail = collect_board_tokens(&s.progress_tokens);
                    if avail.len() > 0 {
                        let actor = s.players.me;
                        s.post_effects.push(PostEffect::PickBoardToken(actor, avail));
                        proof {
                            assert(s.post_effects@.take(old(s).post_effects@.len() as int)
                                =~= old(s).post_effects@);
                        }
                    }
                }
                if s.me_city.scientific_symbols.len()
                    == crate::DIFFERENT_SCIENTIFIC_SYMBOLS_FOR_SUPREMACY as usize {
                    let w = s.players.me;
                    s.over(Finisher::Winner(w), Victory::ScienceSupremacy);
                }
            },
            _ => {},
        }
    }

    /// Undo this effect on destruction: only resource production reverses,
    /// clamped at zero, and the opponent's floating price for that kind
    /// re-derives from the reduced stock.
    pub fn rollback(&self, s: &mut State)
        ensures
            effect_rollback_spec(*self, *old(s), *final(s)),
            old(s).wf() ==> final(s).wf(),
            final(s).phase == old(s).phase,
            final(s).players == old(s).players,
            final(s).me_city.buildings == old(s).me_city.buildings,
            final(s).enemy_city.buildings == old(s).enemy_city.buildings,
    {
        match self {
            Effect::Resource(r, count) => {
                let cur = s.me_city.resources.get(*r);
                let stock = if cur >= *count {
                    cur - *count
                } else {
                    0
                };
                s.me_city.resources.set(*r, stock);
                if !s.enemy_city.bank.has_fixed_resource_price(*r) {
                    s.enemy_city.bank.resource_price.set(
                        *r,
                        add_sat(DEFAULT_RESOURCE_PRICE, stock),
                    );
                }
            },
            _ => {},
        }
    }

    /// The points this effect contributes at scoring time; side-effect free.
    pub fn get_points(&self, s: &State) -> (r: u8)
        ensures
            r == spec_effect_points(*self, s.me_city, s.enemy_city),
    {
        effect_points(self, &s.me_city, &s.enemy_city)
    }
}

/// Exactly what resolving one queued post-effect does: it enters the
/// matching selection phase, gives the turn to the recorded actor, and
/// replaces the interactive offer with the frozen candidates.
pub open spec fn post_effect_apply_spec(pe: PostEffect, pre: State, post: State) -> bool {
    let t = with_turn(pre, post_effect_actor(pe));
    match pe {
        PostEffect::DestructBuilding(_, v) => post == (State {
            phase: Phase::DestructBuildingSelection,
            interactive_units: Units { buildings: post.interactive_units.buildings,
                ..t.interactive_units },
            ..t
        }) && post.interactive_units.buildings == v,
        PostEffect::PickBoardToken(_, v) => post == (State {
            phase: Phase::BoardTokenSelection,
            interactive_units: Units { tokens: post.interactive_units.tokens,
                ..t.interactive_units },
            ..t
        }) && post.interactive_units.tokens == v,
        PostEffect::PickDiscardedBuilding(_, v) => post == (State {
            phase: Phase::DiscardedBuildingSelection,
            interactive_units: Units { buildings: post.interactive_units.buildings,
                ..t.interactive_units },
            ..t
        }) && post.interactive_units.buildings == v,
        PostEffect::PickRandomToken(_, v) => post == (State {
            phase: Phase::RandomTokenSelection,
            interactive_units: Units { tokens: post.interactive_units.tokens,
                ..t.interactive_units },
            ..t
        }) && post.interactive_units.tokens == v,
        PostEffect::PickReturnedBuildings(_, v) => post == (State {
            phase: Phase::ReturnedBuildingSelection,
            interactive_units: Units { buildings: post.interactive_units.buildings,
                ..t.interactive_units },
            ..t
        }) && post.interactive_units.buildings == v,
        PostEffect::PickTopLineBuilding(_, v) => post == (State {
            phase: Phase::TopLineBuildingSelection,
            interactive_units: Units { buildings: post.interactive_units.buildings,
                ..t.interactive_units },
            ..t
        }) && post.interactive_units.buildings == v,
    }
}

impl PostEffect {
    /// Resolve this deferred choice: enter its selection phase, hand the
    /// turn to the recorded actor, and offer the frozen candidates.
    pub fn apply(self, s: &mut State)
        requires
            old(s).wf(),
            old(s).phase != Phase::Unstarted,
            old(s).phase != Phase::Over,
            post_effect_actor(self) == old(s).players.me || post_effect_actor(self)
                == old(s).players.enemy,
            old(s).players.me != old(s).players.enemy,
        ensures
            post_effect_apply_spec(self, *old(s), *final(s)),
            final(s).wf(),
    {
        match self {
            PostEffect::DestructBuilding(actor, buildings) => {
                s.phase = Phase::DestructBuildingSelection;
                s.set_turn(actor);
                s.interactive_units.buildings = buildings;
            },
            PostEffect::PickBoardToken(actor, tokens) => {
                s.phase = Phase::BoardTokenSelection;
                s.set_turn(actor);
                s.interactive_units.tokens = tokens;
            },
            PostEffect::PickDiscardedBuilding(actor, buildings) => {
                s.phase = Phase::DiscardedBuildingSelection;
                s.set_turn(actor);
                s.interactive_units.buildings = buildings;
            },
            PostEffect::PickRandomToken(actor, tokens) => {
                s.phase = Phase::RandomTokenSelection;
                s.set_turn(actor);
                s.interactive_units.tokens = tokens;
            },
            PostEffect::PickReturnedBuildings(actor, buildings) => {
                s.phase = Phase::ReturnedBuildingSelection;
                s.set_turn(actor);
                s.interactive_units.buildings = buildings;
            },
            PostEffect::PickTopLineBuilding(actor, buildings) => {
                s.phase = Phase::TopLineBuildingSelection;
                s.set_turn(actor);
                s.interactive_units.buildings = buildings;
            },
        }
    }
}

/// A state reached from `pre` by applying the listed effects in order.
pub open spec fn effects_apply_fold(es: Seq<Effect>, pre: State, post: State) -> bool
    decreases es.len(),
{
    if es.len() == 0 {
        post == pre
    } else {
        exists|mid: State|
            #[trigger] effect_apply_spec(es[0], pre, mid) && effects_apply_fold(
                es.drop_first(),
                mid,
                post,
            )
    }
}

/// Run every effect of a constructed unit, in list order.
pub fn construct_effects(effects: &Vec<Effect>, s: &mut State)
    requires
        old(s).wf(),
        old(s).phase != Phase::Unstarted,
    ensures
        effects_apply_fold(effects@, *old(s), *final(s)),
        final(s).wf(),
        final(s).phase != Phase::Unstarted,
        final(s).phase == old(s).phase || final(s).phase == Phase::Over,
        final(s).players == old(s).players,
        final(s).interactive_units == old(s).interactive_units,
        final(s).me_city.buildings == old(s).me_city.buildings,
        final(s).enemy_city.buildings == old(s).enemy_city.buildings,
        final(s).me_city.tokens == old(s).me_city.tokens,
        final(s).enemy_city.tokens == old(s).enemy_city.tokens,
        final(s).me_city.wonders == old(s).me_city.wonders,
        final(s).enemy_city.wonders == old(s).enemy_city.wonders,
        final(s).buildings == old(s).buildings,
        final(s).deck == old(s).deck,
{
    let ghost es = effects@;
    let mut i: usize = 0;
    proof {
        assert(es.skip(0) =~= es);
    }
    while i < effects.len()
        invariant
            i <= es.len(),
            effects@ == es,
            s.wf(),
            s.phase != Phase::Unstarted,
            s.phase == old(s).phase || s.phase == Phase::Over,
            s.players == old(s).players,
            s.interactive_units == old(s).interactive_units,
            s.me_city.buildings == old(s).me_city.buildings,
            s.enemy_city.buildings == old(s).enemy_city.buildings,
            s.me_city.tokens == old(s).me_city.tokens,
            s.enemy_city.tokens == old(s).enemy_city.tokens,
            s.me_city.wonders == old(s).me_city.wonders,
            s.enemy_city.wonders == old(s).enemy_city.wonders,
            s.buildings == old(s).buildings,
            s.deck == old(s).deck,
            forall|q: State| effects_apply_fold(es.skip(i as int), *s, q)
                ==> effects_apply_fold(es, *old(s), q),
        decreases es.len() - i,
    {
        let ghost pre = *s;
        effects[i].apply(s);
        proof {
            assert(es.skip(i as int)[0] == es[i as int]);
            assert(es.skip(i as int).drop_first() =~= es.skip(i + 1));
            assert forall|q: State| effects_apply_fold(es.skip(i + 1), *s, q)
                implies effects_apply_fold(es, *old(s), q) by {
                assert(effect_apply_spec(es.skip(i as int)[0], pre, *s));
                assert(effects_apply_fold(es.skip(i as int).drop_first(), *s, q));
                assert(effects_apply_fold(es.skip(i as int), pre, q));
            }
        }
        i = i + 1;
    }
    proof {
        assert(es.skip(es.len() as int) =~= Seq::<Effect>::empty());
        assert(effects_apply_fold(es.skip(es.len() as int), *s, *s));
    }
}

/// Exactly what rolling one effect back does: the producer's stock falls,
/// clamped at zero, and the opponent's floating price for that kind
/// re-derives from the reduced stock.
pub open spec fn effect_rollback_spec(e: Effect, pre: State, post: State) -> bool {
    match e {
        Effect::Resource(r, count) => {
            let stock = crate::state::sub_sat_spec(pre.me_city.resources.spec_get(r), count);
            let me2 = City { resources: pre.me_city.resources.spec_set(r, stock), ..pre.me_city };
            let enemy2 = if pre.enemy_city.bank.resource_price.spec_get(r)
                == crate::FIXED_RESOURCE_PRICE {
                pre.enemy_city
            } else {
                City {
                    bank: Bank {
                        resource_price: pre.enemy_city.bank.resource_price.spec_set(
                            r,
                            crate::state::sat_u8(DEFAULT_RESOURCE_PRICE + stock),
                        ),
                        ..pre.enemy_city.bank
                    },
                    ..pre.enemy_city
                }
            };
            post == (State { me_city: me2, enemy_city: enemy2, ..pre })
        },
        _ => post == pre,
    }
}

pub open spec fn effects_rollback_fold(es: Seq<Effect>, pre: State, post: State) -> bool
    decreases es.len(),
{
    if es.len() == 0 {
        post == pre
    } else {
        exists|mid: State|
            #[trigger] effect_rollback_spec(es[0], pre, mid) && effects_rollback_fold(
                es.drop_first(),
                mid,
                post,
            )
    }
}

/// Roll every effect of a destroyed unit back, in list order.
pub fn destruct_effects(effects: &Vec<Effect>, s: &mut State)
    ensures
        effects_rollback_fold(effects@, *old(s), *final(s)),
        old(s).wf() ==> final(s).wf(),
        final(s).phase == old(s).phase,
        final(s).players == old(s).players,
        final(s).me_city.buildings == old(s).me_city.buildings,
        final(s).enemy_city.buildings == old(s).enemy_city.buildings,
{
    let ghost es = effects@;
    let mut i: usize = 0;
    proof {
        assert(es.skip(0) =~= es);
    }
    while i < effects.len()
        invariant
            i <= es.len(),
            effects@ == es,
            old(s).wf() ==> s.wf(),
            s.phase == old(s).phase,
            s.players == old(s).players,
            s.me_city.buildings == old(s).me_city.buildings,
            s.enemy_city.buildings == old(s).enemy_city.buildings,
            forall|q: State| effects_rollback_fold(es.skip(i as int), *s, q)
                ==> effects_rollback_fold(es, *old(s), q),
        decreases es.len() - i,
    {
        let ghost pre = *s;
        effects[i].rollback(s);
        proof {
            assert(es.skip(i as int)[0] == es[i as int]);
            assert(es.skip(i as int).drop_first() =~= es.skip(i + 1));
            assert forall|q: State| effects_rollback_fold(es.skip(i + 1), *s, q)
                implies effects_rollback_fold(es, *old(s), q) by {
                assert(effect_rollback_spec(es.skip(i as int)[0], pre, *s));
                assert(effects_rollback_fold(es.skip(i as int).drop_first(), *s, q));
                assert(effects_rollback_fold(es.skip(i as int), pre, q));
            }
        }
        i = i + 1;
    }
    proof {
        assert(es.skip(es.len() as int) =~= Seq::<Effect>::empty());
        assert(effects_rollback_fold(es.skip(es.len() as int), *s, *s));
    }
}

/// `a + b`, clamped, where `b` may exceed the coin range.
fn add_sat_u32_pub(a: u8, b: u32) -> (r: u8)
    ensures
        r == crate::state::sat_u8(a + b),
{
    if b > 255 {
        255
    } else {
        add_sat(a, b as u8)
    }
}

fn has_token(v: &Vec<token::Id>, id: token::Id) -> (b: bool)
    ensures
        b == v@.contains(id),
{
    let n = v.len();
    let mut i: usize = 0;
    while i < n
        invariant
            n == v@.len(),
            i <= n,
            forall|j: int| 0 <= j < i ==> v@[j] != id,
        decreases n - i,
    {
        if v[i] == id {
            return true;
        }
        i = i + 1;
    }
    false
}

/// The face-up board tokens, in slot order.
fn collect_board_tokens(pt: &Vec<Option<token::Id>>) -> (r: Vec<token::Id>)
    ensures
        r@ == avail_tokens(pt@),
{
    let mut out: Vec<token::Id> = Vec::new();
    let mut i: usize = 0;
    proof {
        assert(pt@.skip(0) =~= pt@);
    }
    while i < pt.len()
        invariant
            i <= pt@.len(),
            avail_tokens(pt@) =~= out@ + avail_tokens(pt@.skip(i as int)),
        decreases pt@.len() - i,
    {
        proof {
            assert(pt@.skip(i as int)[0] == pt@[i as int]);
            assert(pt@.skip(i as int).drop_first() =~= pt@.skip(i + 1));
        }
        if let Some(t) = pt[i] {
            out.push(t);
        }
        i = i + 1;
    }
    proof {
        assert(pt@.skip(pt@.len() as int) =~= Seq::<Option<token::Id>>::empty());
        assert(out@ + Seq::<token::Id>::empty() =~= out@);
    }
    out
}

/// The first collected entry of a symbol, if any.
fn find_symbol_pos(ss: &Vec<(ScientificSymbol, u8)>, sym: ScientificSymbol) -> (r: Option<
    usize>)
    ensures
        r is Some ==> {
            &&& 0 <= r->0 < ss@.len()
            &&& find_symbol(ss@, sym) == r->0 as int
        },
        r is None ==> find_symbol(ss@, sym) == -1,
{
    let n = ss.len();
    let mut i: usize = 0;
    while i < n
        invariant
            n == ss@.len(),
            i <= n,
            forall|j: int| 0 <= j < i ==> (#[trigger] ss@[j]).0 != sym,
        decreases n - i,
    {
        if ss[i].0 == sym {
            proof {
                lemma_find_symbol_at(ss@, sym, i as int);
            }
            return Some(i);
        }
        i = i + 1;
    }
    proof {
        lemma_find_symbol_none(ss@, sym);
    }
    None
}

proof fn lemma_find_symbol_at(ss: Seq<(ScientificSymbol, u8)>, sym: ScientificSymbol, i: int)
    requires
        0 <= i < ss.len(),
        ss[i].0 == sym,
        forall|j: int| 0 <= j < i ==> (#[trigger] ss[j]).0 != sym,
    ensures
        find_symbol(ss, sym) == i,
    decreases i,
{
    if i > 0 {
        lemma_find_symbol_at(ss.drop_first(), sym, i - 1);
    }
}

proof fn lemma_find_symbol_none(ss: Seq<(ScientificSymbol, u8)>, sym: ScientificSymbol)
    requires
        forall|j: int| 0 <= j < ss.len() ==> (#[trigger] ss[j]).0 != sym,
    ensures
        find_symbol(ss, sym) == -1,
    decreases ss.len(),
{
    if ss.len() > 0 {
        lemma_find_symbol_none(ss.drop_first(), sym);
    }
}

fn copy_buildings(v: &Vec<building::Id>) -> (r: Vec<building::Id>)
    ensures
        r@ == v@,
{
    let mut out: Vec<building::Id> = Vec::new();
    let mut i: usize = 0;
    while i < v.len()
        invariant
            i <= v@.len(),
            out@ =~= v@.take(i as int),
        decreases v@.len() - i,
    {
        out.push(v[i]);
        proof {
            assert(out@ =~= v@.take(i + 1));
        }
        i = i + 1;
    }
    proof {
        assert(v@.take(v@.len() as int) =~= v@);
    }
    out
}

fn copy_tokens(v: &Vec<token::Id>) -> (r: Vec<token::Id>)
    ensures
        r@ == v@,
{
    let mut out: Vec<token::Id> = Vec::new();
    let mut i: usize = 0;
    while i < v.len()
        invariant
            i <= v@.len(),
            out@ =~= v@.take(i as int),
        decreases v@.len() - i,
    {
        out.push(v[i]);
        proof {
            assert(out@ =~= v@.take(i + 1));
        }
        i = i + 1;
    }
    proof {
        assert(v@.take(v@.len() as int) =~= v@);
    }
    out
}

} // verus!
