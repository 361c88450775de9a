//! The action dispatcher: one entry point per player-visible move.  Every
//! action first checks the phase and the offered set, then pays if needed,
//! then mutates; a rejected action leaves the state untouched.

use vstd::prelude::*;
use crate::{
    Age, Error, Finisher, Nickname, Options, Phase, Victory, WONDERS_CONSTRUCT_LIMIT,
    WONDER_SELECTION_POOL_SIZE, WONDER_TOTAL_POOL_SIZE,
};
use crate::building;
use crate::deck::Deck;
use crate::economy::{spec_pay_scope, Cost, PayScope};
use crate::effect::{construct_effects, destruct_effects};
use crate::state::{
    after, city_initial, city_of, contains_building, contains_token, playable_sync,
    refresh_buildings, refresh_cities, residual, spec_over, spec_price, with_turn, City,
    Players, RandomUnits, State, Units,
};
use crate::token;
use crate::wonder;

verus! {

/// One player-visible move.
pub enum Action {
    Prepare(Setup),
    Resign(Nickname),
    SelectWhoBeginsTheNextAge(Nickname),
    ConstructWonder(wonder::Id, building::Id),
    ConstructBuilding(building::Id),
    DiscardBuilding(building::Id),
    DestructBuilding(building::Id),
    PickWonder(wonder::Id),
    PickBoardToken(token::Id),
    PickRandomToken(token::Id),
    PickTopLineBuilding(building::Id),
    PickDiscardedBuilding(building::Id),
    PickReturnedBuildings(building::Id, building::Id),
}

/// The already-decided initial draw a caller hands the engine: two distinct
/// players, the wonder pool, the face-up and hidden token pools, and one
/// full pre-shuffled deal per age.
pub struct Setup {
    pub p1: Nickname,
    pub p2: Nickname,
    pub wonders: Vec<wonder::Id>,
    pub board_tokens: Vec<token::Id>,
    pub random_tokens: Vec<token::Id>,
    pub buildings1: Vec<building::Id>,
    pub buildings2: Vec<building::Id>,
    pub buildings3: Vec<building::Id>,
}

/// The city still holds this wonder unbuilt.
pub open spec fn has_free_wonder(ws: Seq<(wonder::Id, Option<building::Id>)>, wid: wonder::Id)
    -> bool {
    exists|i: int| 0 <= i < ws.len() && (#[trigger] ws[i]).0 == wid && ws[i].1 is None
}

/// The demand left once own stock is spent, as the payment routine prices
/// it.
pub open spec fn cost_after_stock(cost: Cost, stock: crate::economy::Resources) -> Cost {
    Cost { coins: cost.coins, resources: residual(cost.resources, stock) }
}

/// The acting city can afford this wonder right now.
pub open spec fn wonder_affordable(s: State, wid: wonder::Id) -> bool {
    spec_price(
        s.me_city.bank,
        PayScope::Wonders,
        cost_after_stock(wonder::spec_cost(wid), s.me_city.resources),
    ) <= s.me_city.coins
}

/// The acting city can afford this building right now.
pub open spec fn building_affordable(s: State, bid: building::Id) -> bool {
    spec_price(
        s.me_city.bank,
        spec_pay_scope(bid),
        cost_after_stock(building::spec_cost(bid), s.me_city.resources),
    ) <= s.me_city.coins
}

/// The phase and offered-set guards of each action: what must hold of the
/// state for the action to be considered at all.
pub open spec fn guards_ok(a: Action, s: State) -> bool {
    match a {
        Action::Prepare(v) => {
            &&& s.phase == Phase::Unstarted
            &&& v.p1 != v.p2
            &&& v.buildings1@.len() == 20
            &&& v.buildings2@.len() == 20
            &&& v.buildings3@.len() == 20
        },
        Action::Resign(_) => true,
        Action::SelectWhoBeginsTheNextAge(p) => s.phase == Phase::WhoBeginsTheNextAgeSelection
            && (p == s.players.me || p == s.players.enemy),
        Action::ConstructWonder(wid, bid) => s.phase == Phase::Turn
            && s.buildings.playable@.contains(bid) && has_free_wonder(s.me_city.wonders@, wid),
        Action::ConstructBuilding(bid) => s.phase == Phase::Turn
            && s.buildings.playable@.contains(bid),
        Action::DiscardBuilding(bid) => s.phase == Phase::Turn
            && s.buildings.playable@.contains(bid),
        Action::DestructBuilding(bid) => s.phase == Phase::DestructBuildingSelection
            && s.interactive_units.buildings@.contains(bid),
        Action::PickWonder(wid) => s.phase == Phase::WondersSelection
            && s.interactive_units.wonders@.contains(Some(wid)),
        Action::PickBoardToken(t) => s.phase == Phase::BoardTokenSelection
            && s.interactive_units.tokens@.contains(t),
        Action::PickRandomToken(t) => s.phase == Phase::RandomTokenSelection
            && s.interactive_units.tokens@.contains(t),
        Action::PickTopLineBuilding(b) => s.phase == Phase::TopLineBuildingSelection
            && s.interactive_units.buildings@.contains(b),
        Action::PickDiscardedBuilding(b) => s.phase == Phase::DiscardedBuildingSelection
            && s.interactive_units.buildings@.contains(b),
        Action::PickReturnedBuildings(p, g) => s.phase == Phase::ReturnedBuildingSelection
            && p != g && s.interactive_units.buildings@.contains(p)
            && s.interactive_units.buildings@.contains(g),
    }
}

/// The payment feasibility of each action, checked after the guards: only
/// constructions pay, and a chained building is free.
pub open spec fn payment_ok(a: Action, s: State) -> bool {
    match a {
        Action::ConstructWonder(wid, _) => wonder_affordable(s, wid),
        Action::ConstructBuilding(bid) => s.me_city.chains@.contains(bid)
            || building_affordable(s, bid),
        _ => true,
    }
}

pub open spec fn action_ok(a: Action, s: State) -> bool {
    guards_ok(a, s) && payment_ok(a, s)
}

/// The state after a successful payment: own stock reduces the resource
/// demand, the bank prices the rest, the coins leave the acting city, and
/// an enemy holding the Economy token collects the trade part.
pub open spec fn spec_paid(pre: State, scope: PayScope, cost: Cost) -> State {
    let reduced = Cost {
        coins: cost.coins,
        resources: residual(cost.resources, pre.me_city.resources),
    };
    let price = spec_price(pre.me_city.bank, scope, reduced);
    State {
        me_city: City { coins: (pre.me_city.coins - price) as u8, ..pre.me_city },
        enemy_city: City {
            coins: if pre.enemy_city.tokens@.contains(token::Id::Economy) {
                crate::state::sat_u8(pre.enemy_city.coins + price - cost.coins)
            } else {
                pre.enemy_city.coins
            },
            ..pre.enemy_city
        },
        ..pre
    }
}

/// The deck after one card is pulled: its node leaves the graph, every
/// support slot pointing at it empties, and face-down cards left without
/// support are revealed.
pub open spec fn deck_pulled(pre: Deck, post: Deck, bid: building::Id) -> bool {
    &&& post.buildings == pre.buildings
    &&& post.scheme == pre.scheme
    &&& post.graph@ == crate::deck::pull_graph(pre.graph@, bid)
    &&& post.face_down@ == crate::deck::still_hidden(pre.face_down@, post.graph@)
}

/// The first four-wonder slice of the pool offered for drafting, from
/// `from` on: each wonder in its own selectable slot.
pub open spec fn spec_draft_offer(ws: Seq<wonder::Id>, from: int) -> Seq<Option<wonder::Id>> {
    if from >= ws.len() {
        Seq::empty()
    } else {
        let to = if ws.len() < from + WONDER_SELECTION_POOL_SIZE as int {
            ws.len() as int
        } else {
            from + WONDER_SELECTION_POOL_SIZE as int
        };
        ws.subrange(from, to).map_values(|w: wonder::Id| Some(w))
    }
}

/// A successful `Prepare`: the first age opens on the wonder draft, the two
/// fresh cities are seeded, the board tokens go face-up, the hidden pools
/// are stored, and the first four wonders are offered.
pub open spec fn prepare_ok(v: Setup, pre: State, post: State) -> bool {
    &&& post.age == Age::I
    &&& post.phase == Phase::WondersSelection
    &&& post.players == (Players { starts: v.p1, me: v.p1, enemy: v.p2, fallback: None })
    &&& city_initial(post.me_city)
    &&& city_initial(post.enemy_city)
    &&& post.progress_tokens@ == v.board_tokens@.map_values(|t: token::Id| Some(t))
    &&& post.random_units.buildings1@ == v.buildings1@
    &&& post.random_units.buildings2@ == v.buildings2@
    &&& post.random_units.buildings3@ == v.buildings3@
    &&& post.random_units.tokens@ == v.random_tokens@
    &&& post.random_units.wonders@ == v.wonders@
    &&& post.interactive_units.wonders@ == spec_draft_offer(v.wonders@, 0)
    &&& post.interactive_units.buildings == pre.interactive_units.buildings
    &&& post.interactive_units.tokens == pre.interactive_units.tokens
    &&& post.post_effects@.len() == 0
    &&& post.deck == pre.deck
    &&& post.buildings == pre.buildings
    &&& post.finish == pre.finish
    &&& post.play_again == pre.play_again
}

/// One successful `ConstructWonder` run, staged: `placed` after payment,
/// the deck pull, the assignment and the seven-wonder retain rule; `done`
/// after the wonder's effects; the turn then resolves, with the Theology
/// token granting the extra turn first.
pub open spec fn construct_wonder_witness(wid: wonder::Id, bid: building::Id, pre: State,
    placed: State, done: State, post: State) -> bool {
    let paid = spec_paid(pre, PayScope::Wonders, wonder::spec_cost(wid));
    let mw = assigned(paid.me_city.wonders@, wid, bid);
    let total = crate::state::wonders_built(mw) + crate::state::wonders_built(
        paid.enemy_city.wonders@,
    );
    &&& deck_pulled(paid.deck, placed.deck, bid)
    &&& (if total == WONDERS_CONSTRUCT_LIMIT as int {
        placed.me_city.wonders@ == built_only(mw) && placed.enemy_city.wonders@ == built_only(
            paid.enemy_city.wonders@,
        )
    } else {
        placed.me_city.wonders@ == mw && placed.enemy_city.wonders@
            == paid.enemy_city.wonders@
    })
    &&& placed == (State {
        deck: placed.deck,
        me_city: (City { wonders: placed.me_city.wonders, ..paid.me_city }),
        enemy_city: (City { wonders: placed.enemy_city.wonders, ..paid.enemy_city }),
        ..paid
    })
    &&& crate::effect::effects_apply_fold(wonder::spec_effects(wid), placed, done)
    &&& crate::state::after_spec(
        if done.me_city.tokens@.contains(token::Id::Theology) {
            State { play_again: true, ..done }
        } else {
            done
        },
        post,
    )
}

pub open spec fn construct_wonder_ok(wid: wonder::Id, bid: building::Id, pre: State,
    post: State) -> bool {
    exists|placed: State, done: State|
        #[trigger] construct_wonder_witness(wid, bid, pre, placed, done, post)
}

/// One successful `ConstructBuilding` run, staged: a chained card is free
/// (the Urbanism token pays four coins instead), any other card is paid
/// for; `placed` after the card joins the city and leaves the deck; `done`
/// after the card's effects; the turn then resolves.
pub open spec fn construct_building_witness(bid: building::Id, pre: State, placed: State,
    done: State, post: State) -> bool {
    let paid = if pre.me_city.chains@.contains(bid) {
        if pre.me_city.tokens@.contains(token::Id::Urbanism) {
            State {
                me_city: (City {
                    coins: crate::state::sat_u8(pre.me_city.coins + 4),
                    ..pre.me_city
                }),
                ..pre
            }
        } else {
            pre
        }
    } else {
        spec_paid(pre, spec_pay_scope(bid), building::spec_cost(bid))
    };
    &&& placed == (State {
        me_city: (City { buildings: placed.me_city.buildings, ..paid.me_city }),
        deck: placed.deck,
        ..paid
    })
    &&& placed.me_city.buildings@ == paid.me_city.buildings@.push(bid)
    &&& deck_pulled(paid.deck, placed.deck, bid)
    &&& crate::effect::effects_apply_fold(building::spec_effects(bid), placed, done)
    &&& crate::state::after_spec(done, post)
}

pub open spec fn construct_building_ok(bid: building::Id, pre: State, post: State) -> bool {
    exists|placed: State, done: State|
        #[trigger] construct_building_witness(bid, pre, placed, done, post)
}

/// One successful `DiscardBuilding` run: the card joins the discard pile
/// and leaves the deck, the city collects its discard reward, no effect
/// runs, and the turn resolves.
pub open spec fn discard_building_witness(bid: building::Id, pre: State, mid: State,
    post: State) -> bool {
    &&& mid == (State {
        buildings: (crate::state::Buildings {
            discarded: mid.buildings.discarded,
            ..pre.buildings
        }),
        deck: mid.deck,
        me_city: (City {
            coins: crate::state::sat_u8(pre.me_city.coins + pre.me_city.bank.discard_reward),
            ..pre.me_city
        }),
        ..pre
    })
    &&& mid.buildings.discarded@ == pre.buildings.discarded@.push(bid)
    &&& deck_pulled(pre.deck, mid.deck, bid)
    &&& crate::state::after_spec(mid, post)
}

pub open spec fn discard_building_ok(bid: building::Id, pre: State, post: State) -> bool {
    exists|mid: State| #[trigger] discard_building_witness(bid, pre, mid, post)
}

/// One successful `DestructBuilding` run: every copy of the card leaves the
/// enemy city, its reversible effects roll back, and the turn resolves.
pub open spec fn destruct_building_witness(bid: building::Id, pre: State, mid: State,
    done: State, post: State) -> bool {
    &&& mid == (State {
        enemy_city: (City { buildings: mid.enemy_city.buildings, ..pre.enemy_city }),
        ..pre
    })
    &&& mid.enemy_city.buildings@ == removed(pre.enemy_city.buildings@, bid)
    &&& crate::effect::effects_rollback_fold(building::spec_effects(bid), mid, done)
    &&& crate::state::after_spec(done, post)
}

pub open spec fn destruct_building_ok(bid: building::Id, pre: State, post: State) -> bool {
    exists|mid: State, done: State|
        #[trigger] destruct_building_witness(bid, pre, mid, done, post)
}

/// One successful `PickWonder` run: the wonder's offer slot empties (order
/// preserved), the wonder joins the city unbuilt, the snake order holds the
/// turn at two and six picked wonders and passes it otherwise, the fourth
/// pick reveals the second pool of four, and the eighth pick enters the
/// first age: the offer clears and the age's deal is dealt and refreshed.
pub open spec fn pick_wonder_witness(wid: wonder::Id, pre: State, b: State, d: State,
    post: State) -> bool {
    &&& b == (State {
        me_city: (City { wonders: b.me_city.wonders, ..pre.me_city }),
        interactive_units: (Units {
            wonders: b.interactive_units.wonders,
            ..pre.interactive_units
        }),
        ..pre
    })
    &&& b.me_city.wonders@ == pre.me_city.wonders@.push((wid, None))
    &&& b.interactive_units.wonders@ == cleared_offer(pre.interactive_units.wonders@, wid)
    &&& ({
        let n = pre.me_city.wonders@.len() + 1 + pre.enemy_city.wonders@.len();
        let t = if n == 2 || n == 6 {
            b
        } else {
            crate::state::swapped(b)
        };
        if n == WONDER_SELECTION_POOL_SIZE as int {
            &&& post == (State {
                interactive_units: (Units {
                    wonders: post.interactive_units.wonders,
                    ..t.interactive_units
                }),
                ..t
            })
            &&& post.interactive_units.wonders@ == spec_draft_offer(
                pre.random_units.wonders@,
                WONDER_SELECTION_POOL_SIZE as int,
            )
        } else if n == WONDER_TOTAL_POOL_SIZE as int {
            &&& d == (State {
                phase: Phase::Turn,
                interactive_units: (Units {
                    wonders: d.interactive_units.wonders,
                    ..t.interactive_units
                }),
                deck: d.deck,
                ..t
            })
            &&& d.interactive_units.wonders@.len() == 0
            &&& crate::deck::deck_dealt(
                d.deck,
                crate::deck::spec_layout(pre.age),
                pre.random_units.spec_for_age(pre.age),
            )
            &&& crate::state::boards_refreshed(d, post)
        } else {
            post == t
        }
    })
}

pub open spec fn pick_wonder_ok(wid: wonder::Id, pre: State, post: State) -> bool {
    exists|b: State, d: State| #[trigger] pick_wonder_witness(wid, pre, b, d, post)
}

/// One successful token pick, staged: the token joins the city, its effects
/// run, its board slot (if it sat on the board) empties while every other
/// slot keeps its position, and the turn resolves.
pub open spec fn pick_token_witness(tid: token::Id, pre: State, pushed: State, done: State,
    cleared: State, post: State) -> bool {
    &&& pushed == (State { me_city: (City { tokens: pushed.me_city.tokens, ..pre.me_city }), ..pre })
    &&& pushed.me_city.tokens@ == pre.me_city.tokens@.push(tid)
    &&& crate::effect::effects_apply_fold(token::spec_effects(tid), pushed, done)
    &&& cleared == (State { progress_tokens: cleared.progress_tokens, ..done })
    &&& cleared.progress_tokens@ == cleared_token(done.progress_tokens@, tid)
    &&& crate::state::after_spec(cleared, post)
}

pub open spec fn pick_token_ok(tid: token::Id, pre: State, post: State) -> bool {
    exists|pushed: State, done: State, cleared: State|
        #[trigger] pick_token_witness(tid, pre, pushed, done, cleared, post)
}

/// One successful `PickTopLineBuilding` run: the card joins the city and
/// leaves the deck, its effects run, and the turn resolves.
pub open spec fn pick_top_line_witness(bid: building::Id, pre: State, placed: State,
    done: State, post: State) -> bool {
    &&& placed == (State {
        me_city: (City { buildings: placed.me_city.buildings, ..pre.me_city }),
        deck: placed.deck,
        ..pre
    })
    &&& placed.me_city.buildings@ == pre.me_city.buildings@.push(bid)
    &&& deck_pulled(pre.deck, placed.deck, bid)
    &&& crate::effect::effects_apply_fold(building::spec_effects(bid), placed, done)
    &&& crate::state::after_spec(done, post)
}

pub open spec fn pick_top_line_ok(bid: building::Id, pre: State, post: State) -> bool {
    exists|placed: State, done: State|
        #[trigger] pick_top_line_witness(bid, pre, placed, done, post)
}

/// One successful `PickDiscardedBuilding` run: the card joins the city and
/// leaves the discard pile, its effects run, and the turn resolves.
pub open spec fn pick_discarded_witness(bid: building::Id, pre: State, placed: State,
    done: State, post: State) -> bool {
    &&& placed == (State {
        me_city: (City { buildings: placed.me_city.buildings, ..pre.me_city }),
        buildings: (crate::state::Buildings {
            discarded: placed.buildings.discarded,
            ..pre.buildings
        }),
        ..pre
    })
    &&& placed.me_city.buildings@ == pre.me_city.buildings@.push(bid)
    &&& placed.buildings.discarded@ == removed(pre.buildings.discarded@, bid)
    &&& crate::effect::effects_apply_fold(building::spec_effects(bid), placed, done)
    &&& crate::state::after_spec(done, post)
}

pub open spec fn pick_discarded_ok(bid: building::Id, pre: State, post: State) -> bool {
    exists|placed: State, done: State|
        #[trigger] pick_discarded_witness(bid, pre, placed, done, post)
}

/// One successful `PickReturnedBuildings` run, staged: the picked card
/// joins the acting city and its effects run there, the turn passes so the
/// given card joins the opponent's city and its effects run for that owner,
/// the turn returns to the acting player, and only then does the turn
/// resolve.
pub open spec fn pick_returned_witness(pick: building::Id, give: building::Id, pre: State,
    p1: State, p2: State, p3: State, p4: State, post: State) -> bool {
    &&& p1 == (State { me_city: (City { buildings: p1.me_city.buildings, ..pre.me_city }), ..pre })
    &&& p1.me_city.buildings@ == pre.me_city.buildings@.push(pick)
    &&& crate::effect::effects_apply_fold(building::spec_effects(pick), p1, p2)
    &&& p3 == (State {
        me_city: (City {
            buildings: p3.me_city.buildings,
            ..crate::state::swapped(p2).me_city
        }),
        ..crate::state::swapped(p2)
    })
    &&& p3.me_city.buildings@ == crate::state::swapped(p2).me_city.buildings@.push(give)
    &&& crate::effect::effects_apply_fold(building::spec_effects(give), p3, p4)
    &&& crate::state::after_spec(crate::state::swapped(p4), post)
}

pub open spec fn pick_returned_ok(pick: building::Id, give: building::Id, pre: State,
    post: State) -> bool {
    exists|p1: State, p2: State, p3: State, p4: State|
        #[trigger] pick_returned_witness(pick, give, pre, p1, p2, p3, p4, post)
}

/// Exactly what each action does on success, composed from the payment, the
/// deck, the effects and the turn resolution.
pub open spec fn apply_ok(a: Action, pre: State, post: State) -> bool {
    match a {
        Action::Prepare(v) => prepare_ok(v, pre, post),
        Action::Resign(l) => post == spec_over(pre, Finisher::Loser(l), Victory::Resign),
        Action::SelectWhoBeginsTheNextAge(p) => post == (State {
            phase: Phase::Turn,
            ..with_turn(pre, p)
        }),
        Action::ConstructWonder(w, b) => construct_wonder_ok(w, b, pre, post),
        Action::ConstructBuilding(b) => construct_building_ok(b, pre, post),
        Action::DiscardBuilding(b) => discard_building_ok(b, pre, post),
        Action::DestructBuilding(b) => destruct_building_ok(b, pre, post),
        Action::PickWonder(w) => pick_wonder_ok(w, pre, post),
        Action::PickBoardToken(t) => pick_token_ok(t, pre, post),
        Action::PickRandomToken(t) => pick_token_ok(t, pre, post),
        Action::PickTopLineBuilding(b) => pick_top_line_ok(b, pre, post),
        Action::PickDiscardedBuilding(b) => pick_discarded_ok(b, pre, post),
        Action::PickReturnedBuildings(p, g) => pick_returned_ok(p, g, pre, post),
    }
}

impl Action {
    /// Validate this action against the state and perform it.  An action is
    /// accepted exactly when its guards and its payment are; a rejected
    /// action returns which check failed and leaves the state unchanged.
    #[verifier::rlimit(100)]
    pub fn apply(self, s: &mut State) -> (r: Result<(), Error>)
        requires
            old(s).wf(),
        ensures
            final(s).wf(),
            r is Err ==> *final(s) == *old(s),
            (r is Ok) == action_ok(self, *old(s)),
            r == Result::<(), Error>::Err(Error::ActionNotAllowed) <==> !guards_ok(
                self,
                *old(s),
            ),
            r == Result::<(), Error>::Err(Error::NotEnoughCoins) <==> guards_ok(self, *old(s))
                && !payment_ok(self, *old(s)),
            r is Ok ==> apply_ok(self, *old(s), *final(s)),
            playable_sync(*old(s)) ==> playable_sync(*final(s)),
            self matches Action::ConstructBuilding(bid) ==> r is Ok ==> city_of(
                *final(s),
                old(s).players.me,
            ).buildings@ == old(s).me_city.buildings@.push(bid),
            self matches Action::DiscardBuilding(bid) ==> r is Ok
                ==> final(s).buildings.discarded@ == old(s).buildings.discarded@.push(bid),
            self matches Action::DestructBuilding(bid) ==> r is Ok ==> city_of(
                *final(s),
                old(s).players.enemy,
            ).buildings@ == removed(old(s).enemy_city.buildings@, bid),
            self matches Action::PickWonder(wid) ==> r is Ok ==> city_of(
                *final(s),
                old(s).players.me,
            ).wonders@ == old(s).me_city.wonders@.push((wid, None)),
            self matches Action::PickBoardToken(t) ==> r is Ok ==> city_of(
                *final(s),
                old(s).players.me,
            ).tokens@ == old(s).me_city.tokens@.push(t),
            self matches Action::PickRandomToken(t) ==> r is Ok ==> city_of(
                *final(s),
                old(s).players.me,
            ).tokens@ == old(s).me_city.tokens@.push(t),
            self matches Action::PickTopLineBuilding(b) ==> r is Ok ==> city_of(
                *final(s),
                old(s).players.me,
            ).buildings@ == old(s).me_city.buildings@.push(b),
            self matches Action::PickDiscardedBuilding(b) ==> r is Ok ==> city_of(
                *final(s),
                old(s).players.me,
            ).buildings@ == old(s).me_city.buildings@.push(b)
                && final(s).buildings.discarded@ == removed(old(s).buildings.discarded@, b),
            self matches Action::PickReturnedBuildings(p, g) ==> r is Ok ==> city_of(
                *final(s),
                old(s).players.me,
            ).buildings@ == old(s).me_city.buildings@.push(p) && city_of(
                *final(s),
                old(s).players.enemy,
            ).buildings@ == old(s).enemy_city.buildings@.push(g),
            self matches Action::Resign(l) ==> *final(s) == spec_over(
                *old(s),
                Finisher::Loser(l),
                Victory::Resign,
            ),
            self matches Action::SelectWhoBeginsTheNextAge(p) ==> r is Ok ==> *final(s) == (
            State { phase: Phase::Turn, ..with_turn(*old(s), p) }),
            self matches Action::Prepare(v) ==> r is Ok ==> {
                &&& final(s).age == Age::I
                &&& final(s).phase == Phase::WondersSelection
                &&& final(s).players == (Players {
                    starts: v.p1,
                    me: v.p1,
                    enemy: v.p2,
                    fallback: None,
                })
                &&& city_initial(final(s).me_city)
                &&& city_initial(final(s).enemy_city)
                &&& final(s).progress_tokens@ == v.board_tokens@.map_values(
                    |t: token::Id| Some(t),
                )
                &&& final(s).random_units.buildings1@ == v.buildings1@
                &&& final(s).random_units.buildings2@ == v.buildings2@
                &&& final(s).random_units.buildings3@ == v.buildings3@
                &&& final(s).random_units.tokens@ == v.random_tokens@
                &&& final(s).random_units.wonders@ == v.wonders@
                &&& final(s).interactive_units.wonders@ == spec_draft_offer(v.wonders@, 0)
                &&& final(s).post_effects@.len() == 0
                &&& final(s).deck == old(s).deck
                &&& final(s).buildings == old(s).buildings
                &&& final(s).finish == old(s).finish
                &&& final(s).play_again == old(s).play_again
            },
    {
        match self {
            Action::Prepare(v) => {
                if s.phase != Phase::Unstarted || v.p1 == v.p2 || v.buildings1.len() != 20
                    || v.buildings2.len() != 20 || v.buildings3.len() != 20 {
                    return Err(Error::ActionNotAllowed);
                }

                s.age = Age::I;
                s.phase = Phase::WondersSelection;
                s.players = Players { starts: v.p1, me: v.p1, enemy: v.p2, fallback: None };
                s.me_city = City::default();
                s.enemy_city = City::default();
                s.progress_tokens = face_up_slots(&v.board_tokens);
                s.interactive_units.wonders = draft_offer(&v.wonders, 0);
                s.post_effects = Vec::new();
                s.random_units = RandomUnits {
                    buildings1: v.buildings1,
                    buildings2: v.buildings2,
                    buildings3: v.buildings3,
                    tokens: v.random_tokens,
                    wonders: v.wonders,
                };
                proof {
                    assert(prepare_ok(v, *old(s), *s));
                }
                Ok(())
            },

            Action::Resign(actor) => {
                s.over(Finisher::Loser(actor), Victory::Resign);
                Ok(())
            },

            Action::SelectWhoBeginsTheNextAge(p) => {
                if s.phase != Phase::WhoBeginsTheNextAgeSelection {
                    return Err(Error::ActionNotAllowed);
                }
                if p != s.players.me && p != s.players.enemy {
                    return Err(Error::ActionNotAllowed);
                }
                s.set_turn(p);
                s.phase = Phase::Turn;
                Ok(())
            },

            Action::ConstructWonder(wid, bid) => {
                if s.phase != Phase::Turn {
                    return Err(Error::ActionNotAllowed);
                }
                if !contains_building(&s.buildings.playable, bid) {
                    return Err(Error::ActionNotAllowed);
                }
                if !find_free_wonder(&s.me_city.wonders, wid) {
                    return Err(Error::ActionNotAllowed);
                }

                let wu = wonder::get(wid);
                match s.pay(PayScope::Wonders, wu.cost) {
                    Err(e) => {
                        return Err(e);
                    },
                    Ok(()) => {},
                }
                let ghost paid_g = *s;

                s.deck.pull_building(bid);
                assign_wonder(&mut s.me_city.wonders, wid, bid);

                let total: u128 = count_built(&s.me_city.wonders) as u128 + count_built(
                    &s.enemy_city.wonders,
                ) as u128;
                if total == WONDERS_CONSTRUCT_LIMIT as u128 {
                    retain_built(&mut s.me_city.wonders);
                    retain_built(&mut s.enemy_city.wonders);
                }
                let ghost placed_g = *s;

                construct_effects(&wu.effects, s);
                let ghost done_g = *s;

                if contains_token(&s.me_city.tokens, token::Id::Theology) {
                    s.play_again = true;
                }
                let ghost flagged_g = *s;

                after(s);
                proof {
                    assert(paid_g == spec_paid(*old(s), PayScope::Wonders, wonder::spec_cost(
                        wid,
                    )));
                    assert(flagged_g == if done_g.me_city.tokens@.contains(token::Id::Theology) {
                        State { play_again: true, ..done_g }
                    } else {
                        done_g
                    });
                    assert(construct_wonder_witness(wid, bid, *old(s), placed_g, done_g, *s));
                    assert(construct_wonder_ok(wid, bid, *old(s), *s));
                }
                Ok(())
            },

            Action::ConstructBuilding(bid) => {
                if s.phase != Phase::Turn {
                    return Err(Error::ActionNotAllowed);
                }
                if !contains_building(&s.buildings.playable, bid) {
                    return Err(Error::ActionNotAllowed);
                }

                let u = building::get(bid);
                if contains_building(&s.me_city.chains, bid) {
                    if contains_token(&s.me_city.tokens, token::Id::Urbanism) {
                        s.me_city.coins = crate::state::add_sat(s.me_city.coins, 4);
                    }
                } else {
                    match s.pay(PayScope::from_building(bid), u.cost) {
                        Err(e) => {
                            return Err(e);
                        },
                        Ok(()) => {},
                    }
                }
                let ghost paid_g = *s;

                s.me_city.buildings.push(bid);
                s.deck.pull_building(bid);
                let ghost placed_g = *s;
                construct_effects(&u.effects, s);
                let ghost done_g = *s;

                after(s);
                proof {
                    assert(construct_building_witness(bid, *old(s), placed_g, done_g, *s));
                    assert(construct_building_ok(bid, *old(s), *s));
                }
                Ok(())
            },

            Action::DiscardBuilding(bid) => {
                if s.phase != Phase::Turn {
                    return Err(Error::ActionNotAllowed);
                }
                if !contains_building(&s.buildings.playable, bid) {
                    return Err(Error::ActionNotAllowed);
                }

                s.buildings.discarded.push(bid);
                s.deck.pull_building(bid);
                let reward = s.me_city.bank.discard_reward;
                s.me_city.coins = crate::state::add_sat(s.me_city.coins, reward);
                let ghost mid_g = *s;

                after(s);
                proof {
                    assert(discard_building_witness(bid, *old(s), mid_g, *s));
                    assert(discard_building_ok(bid, *old(s), *s));
                }
                Ok(())
            },

            Action::DestructBuilding(bid) => {
                if s.phase != Phase::DestructBuildingSelection {
                    return Err(Error::ActionNotAllowed);
                }
                if !contains_building(&s.interactive_units.buildings, bid) {
                    return Err(Error::ActionNotAllowed);
                }

                remove_building(&mut s.enemy_city.buildings, bid);
                let ghost mid_g = *s;
                let u = building::get(bid);
                destruct_effects(&u.effects, s);
                let ghost done_g = *s;

                after(s);
                proof {
                    assert(destruct_building_witness(bid, *old(s), mid_g, done_g, *s));
                    assert(destruct_building_ok(bid, *old(s), *s));
                }
                Ok(())
            },

            Action::PickWonder(wid) => {
                if s.phase != Phase::WondersSelection {
                    return Err(Error::ActionNotAllowed);
                }
                if !offer_contains(&s.interactive_units.wonders, wid) {
                    return Err(Error::ActionNotAllowed);
                }

                clear_offer_slot(&mut s.interactive_units.wonders, wid);
                s.me_city.wonders.push((wid, None));
                let ghost b_g = *s;
                let ghost mut d_g = *s;

                let picked: u128 = count_wonders(&s.me_city.wonders) as u128 + count_wonders(
                    &s.enemy_city.wonders,
                ) as u128;

                if picked == 2 || picked == 6 {
                    // the same player picks twice in a row
                } else {
                    s.next_turn();
                }
                let ghost t_g = *s;

                if picked == WONDER_SELECTION_POOL_SIZE as u128 {
                    let offer = draft_offer(
                        &s.random_units.wonders,
                        WONDER_SELECTION_POOL_SIZE as usize,
                    );
                    s.interactive_units.wonders = offer;
                } else if picked == WONDER_TOTAL_POOL_SIZE as u128 {
                    s.phase = Phase::Turn;
                    s.interactive_units.wonders = Vec::new();
                    let pool = copy_pool(s.random_units.buildings_for_age(s.age));
                    let layout = crate::deck::get_layout(s.age);
                    s.deck = Deck::new(&layout, pool);
                    proof {
                        d_g = *s;
                    }
                    refresh_buildings(s);
                    let ghost rb_g = *s;
                    refresh_cities(s);
                    proof {
                        assert(crate::state::refreshed(rb_g, *s));
                        assert(crate::state::boards_refreshed(d_g, *s));
                    }
                }
                proof {
                    assert(pick_wonder_witness(wid, *old(s), b_g, d_g, *s));
                    assert(pick_wonder_ok(wid, *old(s), *s));
                }
                Ok(())
            },

            Action::PickBoardToken(tid) => Self::pick_token(s, Phase::BoardTokenSelection, tid),

            Action::PickRandomToken(tid) => Self::pick_token(
                s,
                Phase::RandomTokenSelection,
                tid,
            ),

            Action::PickTopLineBuilding(bid) => {
                if s.phase != Phase::TopLineBuildingSelection {
                    return Err(Error::ActionNotAllowed);
                }
                if !contains_building(&s.interactive_units.buildings, bid) {
                    return Err(Error::ActionNotAllowed);
                }

                s.me_city.buildings.push(bid);
                s.deck.pull_building(bid);
                let ghost placed_g = *s;
                let u = building::get(bid);
                construct_effects(&u.effects, s);
                let ghost done_g = *s;

                after(s);
                proof {
                    assert(pick_top_line_witness(bid, *old(s), placed_g, done_g, *s));
                    assert(pick_top_line_ok(bid, *old(s), *s));
                }
                Ok(())
            },

            Action::PickDiscardedBuilding(bid) => {
                if s.phase != Phase::DiscardedBuildingSelection {
                    return Err(Error::ActionNotAllowed);
                }
                if !contains_building(&s.interactive_units.buildings, bid) {
                    return Err(Error::ActionNotAllowed);
                }

                s.me_city.buildings.push(bid);
                remove_building(&mut s.buildings.discarded, bid);
                let ghost placed_g = *s;
                let u = building::get(bid);
                construct_effects(&u.effects, s);
                let ghost done_g = *s;

                after(s);
                proof {
                    assert(pick_discarded_witness(bid, *old(s), placed_g, done_g, *s));
                    assert(pick_discarded_ok(bid, *old(s), *s));
                }
                Ok(())
            },

            Action::PickReturnedBuildings(pick, give) => {
                if s.phase != Phase::ReturnedBuildingSelection {
                    return Err(Error::ActionNotAllowed);
                }
                if pick == give {
                    return Err(Error::ActionNotAllowed);
                }
                if !contains_building(&s.interactive_units.buildings, pick) {
                    return Err(Error::ActionNotAllowed);
                }
                if !contains_building(&s.interactive_units.buildings, give) {
                    return Err(Error::ActionNotAllowed);
                }

                let fallback_turn = s.players.me;

                s.me_city.buildings.push(pick);
                let ghost p1_g = *s;
                let up = building::get(pick);
                construct_effects(&up.effects, s);
                let ghost p2_g = *s;

                let other = s.players.enemy;
                s.set_turn(other);
                s.me_city.buildings.push(give);
                let ghost p3_g = *s;
                let ug = building::get(give);
                construct_effects(&ug.effects, s);
                let ghost p4_g = *s;

                s.set_turn(fallback_turn);

                after(s);
                proof {
                    assert(pick_returned_witness(pick, give, *old(s), p1_g, p2_g, p3_g, p4_g,
                        *s));
                    assert(pick_returned_ok(pick, give, *old(s), *s));
                }
                Ok(())
            },
        }
    }

    /// Collect one offered token: the city keeps it, its effects run, and
    /// its board slot (if it sat on the board) empties.
    fn pick_token(s: &mut State, phase: Phase, tid: token::Id) -> (r: Result<(), Error>)
        requires
            old(s).wf(),
            phase == Phase::BoardTokenSelection || phase == Phase::RandomTokenSelection,
        ensures
            final(s).wf(),
            r is Err ==> *final(s) == *old(s),
            (r is Ok) == (old(s).phase == phase && old(s).interactive_units.tokens@.contains(
                tid,
            )),
            r is Err ==> r == Result::<(), Error>::Err(Error::ActionNotAllowed),
            playable_sync(*old(s)) ==> playable_sync(*final(s)),
            r is Ok ==> city_of(*final(s), old(s).players.me).tokens@
                == old(s).me_city.tokens@.push(tid),
            r is Ok ==> pick_token_ok(tid, *old(s), *final(s)),
    {
        if s.phase != phase {
            return Err(Error::ActionNotAllowed);
        }
        if !contains_token(&s.interactive_units.tokens, tid) {
            return Err(Error::ActionNotAllowed);
        }

        s.me_city.tokens.push(tid);
        let ghost pushed_g = *s;
        let tu = token::get(tid);
        construct_effects(&tu.effects, s);
        let ghost done_g = *s;
        clear_board_token(&mut s.progress_tokens, tid);
        let ghost cleared_g = *s;

        after(s);
        proof {
            assert(pick_token_witness(tid, *old(s), pushed_g, done_g, cleared_g, *s));
            assert(pick_token_ok(tid, *old(s), *s));
        }
        Ok(())
    }
}

/// The fold of `Action::apply` over an action log: every action succeeds in
/// turn through `apply_ok`, and the first rejected action aborts the fold
/// with its own error, returned as is.
pub open spec fn replay(actions: Seq<Action>, pre: State, r: Result<State, Error>) -> bool
    decreases actions.len(),
{
    if actions.len() == 0 {
        r == Result::<State, Error>::Ok(pre)
    } else if !guards_ok(actions[0], pre) {
        r == Result::<State, Error>::Err(Error::ActionNotAllowed)
    } else if !payment_ok(actions[0], pre) {
        r == Result::<State, Error>::Err(Error::NotEnoughCoins)
    } else {
        exists|mid: State|
            #[trigger] apply_ok(actions[0], pre, mid) && replay(actions.drop_first(), mid, r)
    }
}

impl State {
    /// Fold a whole action log over a fresh state: the result is exactly the
    /// fold of `Action::apply` from the blank pre-game state, and the first
    /// error aborts the fold and is returned unchanged.
    pub fn from(actions: Vec<Action>) -> (r: Result<State, Error>)
        ensures
            r matches Ok(st) ==> st.wf() && playable_sync(st),
            exists|s0: State| #[trigger] crate::state::initial_state(s0) && replay(
                actions@,
                s0,
                r,
            ),
    {
        let mut s = State::default();
        let ghost s0 = s;
        let mut rest = actions;
        proof {
            assert(s.buildings.playable@ =~= crate::deck::playable_of(s.deck.graph@));
        }
        while rest.len() > 0
            invariant
                s.wf(),
                playable_sync(s),
                crate::state::initial_state(s0),
                forall|q: Result<State, Error>| replay(rest@, s, q) ==> replay(actions@, s0, q),
            decreases rest@.len(),
        {
            let ghost rest0 = rest@;
            let ghost s_pre = s;
            let a = rest.remove(0);
            match a.apply(&mut s) {
                Ok(()) => {
                    proof {
                        assert(rest0.drop_first() =~= rest@);
                        assert(apply_ok(a, s_pre, s));
                        assert forall|q: Result<State, Error>| replay(rest@, s, q)
                            implies replay(actions@, s0, q) by {
                            assert(apply_ok(rest0[0], s_pre, s) && replay(
                                rest0.drop_first(),
                                s,
                                q,
                            ));
                            assert(replay(rest0, s_pre, q));
                        }
                    }
                },
                Err(e) => {
                    proof {
                        assert(replay(rest0, s_pre, Result::<State, Error>::Err(e)));
                    }
                    return Err(e);
                },
            }
        }
        proof {
            assert(replay(rest@, s, Result::<State, Error>::Ok(s)));
        }
        Ok(s)
    }
}

/// Relies on rand's `IteratorRandom::choose_multiple`: a reservoir sample.
/// The result holds `amount` items unless the pool is smaller, in which case
/// it holds the whole pool; each item comes from a distinct pool position,
/// so the result is a sub-multiset of the pool, and a pool without
/// duplicates yields a sample without duplicates.  Nothing is promised of
/// the selection or its order.
#[verifier::external_body]
fn sample<T>(pool: Vec<T>, amount: usize) -> (r: Vec<T>)
    ensures
        r@.len() == if amount <= pool@.len() {
            amount as int
        } else {
            pool@.len() as int
        },
        r@.to_multiset().subset_of(pool@.to_multiset()),
        forall|i: int| 0 <= i < r@.len() ==> pool@.contains(#[trigger] r@[i]),
        pool@.no_duplicates() ==> r@.no_duplicates(),
{
    rand::seq::IteratorRandom::choose_multiple(pool.into_iter(), &mut rand::thread_rng(), amount)
}

/// Relies on rand::random::<bool>: a coin flip; either outcome may come.
#[verifier::external_body]
fn coin_flip() -> bool {
    rand::random::<bool>()
}

/// The wonder pool a draw comes from: every wonder, without the promotional
/// ones unless asked for.
pub open spec fn wonder_pool(ws: Seq<wonder::Id>, with_promo: bool) -> Seq<wonder::Id>
    decreases ws.len(),
{
    if ws.len() == 0 {
        Seq::empty()
    } else {
        let rest = wonder_pool(ws.drop_first(), with_promo);
        if with_promo || !ws[0].spec_is_promo() {
            seq![ws[0]] + rest
        } else {
            rest
        }
    }
}


fn build_wonder_pool(with_promo: bool) -> (r: Vec<wonder::Id>)
    ensures
        r@ =~= wonder_pool(wonder::all_ids(), with_promo),
{
    let all = wonder::get_all();
    let mut out: Vec<wonder::Id> = Vec::new();
    let mut i: usize = 0;
    proof {
        assert(all@.skip(0) =~= all@);
    }
    while i < all.len()
        invariant
            i <= all@.len(),
            all@ == wonder::all_ids(),
            wonder_pool(all@, with_promo) =~= out@ + wonder_pool(
                all@.skip(i as int),
                with_promo,
            ),
        decreases all@.len() - i,
    {
        proof {
            assert(all@.skip(i as int)[0] == all@[i as int]);
            assert(all@.skip(i as int).drop_first() =~= all@.skip(i + 1));
        }
        let id = all[i];
        if with_promo || !id.is_promo() {
            out.push(id);
        }
        i = i + 1;
    }
    proof {
        assert(all@.skip(all@.len() as int) =~= Seq::<wonder::Id>::empty());
        assert(out@ + Seq::<wonder::Id>::empty() =~= out@);
    }
    out
}

/// One contiguous pool of the canonical catalog order, which lists each
/// age's ordinary cards together and the guilds last.
fn slice_ids(v: &Vec<building::Id>, from: usize, to: usize) -> (r: Vec<building::Id>)
    requires
        from <= to <= v@.len(),
    ensures
        r@ == v@.subrange(from as int, to as int),
{
    let mut out: Vec<building::Id> = Vec::new();
    let mut i: usize = from;
    while i < to
        invariant
            from <= i <= to <= v@.len(),
            out@ =~= v@.subrange(from as int, i as int),
        decreases to - i,
    {
        out.push(v[i]);
        proof {
            assert(out@ =~= v@.subrange(from as int, i + 1));
        }
        i = i + 1;
    }
    out
}

impl Setup {
    /// Draw a full random setup for two players: a random starter, eight
    /// wonders, the face-up and hidden token pools, and one twenty-card
    /// deal per age.
    pub fn new(p1: Nickname, p2: Nickname, o: Options) -> (r: Setup)
        ensures
            (r.p1 == p1 && r.p2 == p2) || (r.p1 == p2 && r.p2 == p1),
            r.wonders@.len() == 8,
            r.wonders@.no_duplicates(),
            !o.with_promo_wonders ==> forall|i: int| 0 <= i < r.wonders@.len()
                ==> !(#[trigger] r.wonders@[i]).spec_is_promo(),
            r.board_tokens@.len() == 5,
            r.random_tokens@.len() == 5,
            r.board_tokens@.no_duplicates(),
            r.random_tokens@.no_duplicates(),
            forall|i: int, j: int| 0 <= i < r.board_tokens@.len() && 0 <= j
                < r.random_tokens@.len() ==> r.board_tokens@[i] != r.random_tokens@[j],
            r.buildings1@.len() == 20,
            r.buildings2@.len() == 20,
            r.buildings3@.len() == 20,
            r.buildings1@.no_duplicates(),
            r.buildings2@.no_duplicates(),
            r.buildings3@.no_duplicates(),
            forall|i: int| 0 <= i < r.buildings1@.len() ==> building::spec_age(
                #[trigger] r.buildings1@[i],
            ) == Age::I,
            forall|i: int| 0 <= i < r.buildings2@.len() ==> building::spec_age(
                #[trigger] r.buildings2@[i],
            ) == Age::II,
            forall|i: int| 0 <= i < r.buildings3@.len() ==> building::spec_age(
                #[trigger] r.buildings3@[i],
            ) == Age::III,
            forall|i: int| 0 <= i < 17 ==> building::spec_kind(#[trigger] r.buildings3@[i])
                != building::Kind::Guild,
            forall|i: int| 17 <= i < r.buildings3@.len() ==> building::spec_kind(
                #[trigger] r.buildings3@[i],
            ) == building::Kind::Guild,
    {
        let (first, second) = if coin_flip() {
            (p2, p1)
        } else {
            (p1, p2)
        };

        let (board_tokens, random_tokens) = Self::get_random_tokens();
        let (buildings1, buildings2, buildings3) = Self::get_random_buildings();

        Setup {
            p1: first,
            p2: second,
            wonders: Self::get_random_wonders(&o),
            board_tokens,
            random_tokens,
            buildings1,
            buildings2,
            buildings3,
        }
    }

    /// Draw eight distinct wonders from the catalog; the promotional pair
    /// only when asked for.
    pub fn get_random_wonders(o: &Options) -> (r: Vec<wonder::Id>)
        ensures
            r@.len() == 8,
            r@.no_duplicates(),
            forall|i: int| 0 <= i < r@.len() ==> wonder::all_ids().contains(#[trigger] r@[i]),
            !o.with_promo_wonders ==> forall|i: int| 0 <= i < r@.len() ==> !(
            #[trigger] r@[i]).spec_is_promo(),
    {
        let pool = build_wonder_pool(o.with_promo_wonders);
        proof {
            reveal_with_fuel(wonder_pool, 16);
            if o.with_promo_wonders {
                assert(pool@.len() == 14);
            } else {
                assert(pool@.len() == 12);
            }
            wonder::lemma_wonders_distinct();
            lemma_pool_distinct(wonder::all_ids(), o.with_promo_wonders);
        }
        let ghost pool_view = pool@;
        let picked = sample(pool, WONDER_TOTAL_POOL_SIZE as usize);
        proof {
            assert forall|i: int| 0 <= i < picked@.len()
                implies wonder::all_ids().contains(#[trigger] picked@[i]) by {
                let j = choose|j: int| 0 <= j < pool_view.len() && pool_view[j] == picked@[i];
                assert(wonder::all_ids().contains(
                    wonder_pool(wonder::all_ids(), o.with_promo_wonders)[j],
                ));
            }
            if !o.with_promo_wonders {
                lemma_pool_no_promo(wonder::all_ids());
                assert forall|i: int| 0 <= i < picked@.len()
                    implies !(#[trigger] picked@[i]).spec_is_promo() by {
                    let p = picked@[i];
                    assert(pool_view.contains(p));
                    let j = choose|j: int| 0 <= j < pool_view.len() && pool_view[j] == p;
                    assert(!wonder_pool(wonder::all_ids(), false)[j].spec_is_promo());
                }
            }
        }
        picked
    }

    /// Shuffle the whole token catalog: the first five go face-up on the
    /// board, the next five form the hidden pool.  The two pools are
    /// disjoint, duplicate-free draws of the catalog.
    pub fn get_random_tokens() -> (r: (Vec<token::Id>, Vec<token::Id>))
        ensures
            r.0@.len() == 5,
            r.1@.len() == 5,
            r.0@.no_duplicates(),
            r.1@.no_duplicates(),
            forall|i: int| 0 <= i < r.0@.len() ==> token::all_ids().contains(#[trigger] r.0@[i]),
            forall|i: int| 0 <= i < r.1@.len() ==> token::all_ids().contains(#[trigger] r.1@[i]),
            forall|i: int, j: int| 0 <= i < r.0@.len() && 0 <= j < r.1@.len()
                ==> r.0@[i] != r.1@[j],
    {
        let all = token::get_all();
        proof {
            token::lemma_tokens_distinct();
        }
        let shuffled = sample(all, 10);
        let mut board: Vec<token::Id> = Vec::new();
        let mut hidden: Vec<token::Id> = Vec::new();
        let mut i: usize = 0;
        while i < 5
            invariant
                i <= 5,
                board@.len() == i,
                shuffled@.len() == 10,
                forall|k: int| 0 <= k < i ==> board@[k] == shuffled@[k],
            decreases 5 - i,
        {
            board.push(shuffled[i]);
            i = i + 1;
        }
        let mut j: usize = 5;
        while j < 10
            invariant
                5 <= j <= 10,
                hidden@.len() == j - 5,
                shuffled@.len() == 10,
                forall|k: int| 0 <= k < j - 5 ==> hidden@[k] == shuffled@[5 + k],
            decreases 10 - j,
        {
            hidden.push(shuffled[j]);
            j = j + 1;
        }
        (board, hidden)
    }

    /// Draw one twenty-card deal per age: the first two ages from their own
    /// pools, the last age as seventeen ordinary cards with three guilds
    /// merged into the tail.  Each deal is duplicate-free and drawn from its
    /// own age's catalog slice.
    #[verifier::rlimit(100)]
    pub fn get_random_buildings() -> (r: (Vec<building::Id>, Vec<building::Id>, Vec<
        building::Id>))
        ensures
            r.0@.len() == 20,
            r.1@.len() == 20,
            r.2@.len() == 20,
            r.0@.no_duplicates(),
            r.1@.no_duplicates(),
            r.2@.no_duplicates(),
            forall|i: int| 0 <= i < r.0@.len() ==> building::spec_age(#[trigger] r.0@[i])
                == Age::I,
            forall|i: int| 0 <= i < r.1@.len() ==> building::spec_age(#[trigger] r.1@[i])
                == Age::II,
            forall|i: int| 0 <= i < r.2@.len() ==> building::spec_age(#[trigger] r.2@[i])
                == Age::III,
            forall|i: int| 0 <= i < 17 ==> building::spec_kind(#[trigger] r.2@[i])
                != building::Kind::Guild,
            forall|i: int| 17 <= i < r.2@.len() ==> building::spec_kind(#[trigger] r.2@[i])
                == building::Kind::Guild,
    {
        let all = building::get_all();
        proof {
            building::lemma_catalog_order();
        }
        let pool1 = slice_ids(&all, 0, 23);
        let pool2 = slice_ids(&all, 23, 46);
        let pool3 = slice_ids(&all, 46, 66);
        let guilds = slice_ids(&all, 66, 73);
        proof {
            assert forall|i: int, j: int|
                0 <= i < pool1@.len() && 0 <= j < pool1@.len() && i != j
                implies pool1@[i] != pool1@[j] by {
                assert(pool1@[i] == building::all_ids()[i]);
                assert(pool1@[j] == building::all_ids()[j]);
            }
            assert forall|i: int, j: int|
                0 <= i < pool2@.len() && 0 <= j < pool2@.len() && i != j
                implies pool2@[i] != pool2@[j] by {
                assert(pool2@[i] == building::all_ids()[23 + i]);
                assert(pool2@[j] == building::all_ids()[23 + j]);
            }
            assert forall|i: int, j: int|
                0 <= i < pool3@.len() && 0 <= j < pool3@.len() && i != j
                implies pool3@[i] != pool3@[j] by {
                assert(pool3@[i] == building::all_ids()[46 + i]);
                assert(pool3@[j] == building::all_ids()[46 + j]);
            }
            assert forall|i: int, j: int|
                0 <= i < guilds@.len() && 0 <= j < guilds@.len() && i != j
                implies guilds@[i] != guilds@[j] by {
                assert(guilds@[i] == building::all_ids()[66 + i]);
                assert(guilds@[j] == building::all_ids()[66 + j]);
            }
        }
        let deal1 = sample(pool1, 20);
        let deal2 = sample(pool2, 20);
        let mut deal3 = sample(pool3, 17);
        let mut tail = sample(guilds, 3);
        proof {
            assert forall|i: int| 0 <= i < deal1@.len()
                implies building::spec_age(#[trigger] deal1@[i]) == Age::I by {
                let k = choose|k: int| 0 <= k < pool1@.len() && pool1@[k] == deal1@[i];
                assert(pool1@[k] == building::all_ids()[k]);
            }
            assert forall|i: int| 0 <= i < deal2@.len()
                implies building::spec_age(#[trigger] deal2@[i]) == Age::II by {
                let k = choose|k: int| 0 <= k < pool2@.len() && pool2@[k] == deal2@[i];
                assert(pool2@[k] == building::all_ids()[23 + k]);
            }
            assert forall|i: int| 0 <= i < deal3@.len()
                implies building::spec_age(#[trigger] deal3@[i]) == Age::III
                && building::spec_kind(deal3@[i]) != building::Kind::Guild by {
                let k = choose|k: int| 0 <= k < pool3@.len() && pool3@[k] == deal3@[i];
                assert(pool3@[k] == building::all_ids()[46 + k]);
            }
            assert forall|i: int| 0 <= i < tail@.len()
                implies building::spec_age(#[trigger] tail@[i]) == Age::III
                && building::spec_kind(tail@[i]) == building::Kind::Guild by {
                let k = choose|k: int| 0 <= k < guilds@.len() && guilds@[k] == tail@[i];
                assert(guilds@[k] == building::all_ids()[66 + k]);
            }
        }
        let ghost d3 = deal3@;
        let ghost t3 = tail@;
        deal3.append(&mut tail);
        proof {
            assert(deal3@ == d3 + t3);
            assert forall|i: int, j: int|
                0 <= i < deal3@.len() && 0 <= j < deal3@.len() && i != j
                implies deal3@[i] != deal3@[j] by {
                if i < 17 && j < 17 {
                    assert(deal3@[i] == d3[i] && deal3@[j] == d3[j]);
                } else if i >= 17 && j >= 17 {
                    assert(deal3@[i] == t3[i - 17] && deal3@[j] == t3[j - 17]);
                } else if i < 17 {
                    assert(building::spec_kind(deal3@[i]) != building::Kind::Guild);
                    assert(building::spec_kind(deal3@[j]) == building::Kind::Guild);
                } else {
                    assert(building::spec_kind(deal3@[i]) == building::Kind::Guild);
                    assert(building::spec_kind(deal3@[j]) != building::Kind::Guild);
                }
            }
        }
        (deal1, deal2, deal3)
    }
}

/// The drafting pool draws from the catalog and keeps its distinctness: the
/// filter drops entries, never adds or repeats one.
proof fn lemma_pool_distinct(ws: Seq<wonder::Id>, promo: bool)
    ensures
        forall|i: int| 0 <= i < wonder_pool(ws, promo).len() ==> ws.contains(
            #[trigger] wonder_pool(ws, promo)[i],
        ),
        ws.no_duplicates() ==> wonder_pool(ws, promo).no_duplicates(),
    decreases ws.len(),
{
    if ws.len() > 0 {
        lemma_pool_distinct(ws.drop_first(), promo);
        let rest = wonder_pool(ws.drop_first(), promo);
        let cur = wonder_pool(ws, promo);
        assert forall|i: int| 0 <= i < cur.len() implies ws.contains(#[trigger] cur[i]) by {
            if promo || !ws[0].spec_is_promo() {
                if i == 0 {
                    assert(cur[0] == ws[0]);
                } else {
                    assert(cur[i] == rest[i - 1]);
                    let k = choose|k: int|
                        0 <= k < ws.drop_first().len() && ws.drop_first()[k] == rest[i - 1];
                    assert(ws[k + 1] == rest[i - 1]);
                }
            } else {
                assert(cur[i] == rest[i]);
                let k = choose|k: int|
                    0 <= k < ws.drop_first().len() && ws.drop_first()[k] == rest[i];
                assert(ws[k + 1] == rest[i]);
            }
        }
        if ws.no_duplicates() {
            assert forall|i: int, j: int|
                0 <= i < ws.drop_first().len() && 0 <= j < ws.drop_first().len() && i != j
                implies ws.drop_first()[i] != ws.drop_first()[j] by {
                assert(ws.drop_first()[i] == ws[i + 1]);
                assert(ws.drop_first()[j] == ws[j + 1]);
            }
            assert forall|i: int, j: int|
                0 <= i < cur.len() && 0 <= j < cur.len() && i != j
                implies cur[i] != cur[j] by {
                if promo || !ws[0].spec_is_promo() {
                    if i > 0 && j > 0 {
                        assert(cur[i] == rest[i - 1] && cur[j] == rest[j - 1]);
                    } else {
                        let a = if i == 0 { j } else { i };
                        assert(cur[a] == rest[a - 1]);
                        let k = choose|k: int|
                            0 <= k < ws.drop_first().len() && ws.drop_first()[k] == rest[a - 1];
                        assert(ws[k + 1] == rest[a - 1]);
                        assert(ws[0] != ws[k + 1]);
                    }
                } else {
                    assert(cur[i] == rest[i] && cur[j] == rest[j]);
                }
            }
        }
    }
}

proof fn lemma_pool_no_promo(ws: Seq<wonder::Id>)
    ensures
        forall|i: int| 0 <= i < wonder_pool(ws, false).len() ==> !(#[trigger] wonder_pool(
            ws,
            false,
        )[i]).spec_is_promo(),
    decreases ws.len(),
{
    if ws.len() > 0 {
        lemma_pool_no_promo(ws.drop_first());
        let rest = wonder_pool(ws.drop_first(), false);
        if !ws[0].spec_is_promo() {
            assert forall|i: int| 0 <= i < wonder_pool(ws, false).len()
                implies !(#[trigger] wonder_pool(ws, false)[i]).spec_is_promo() by {
                if i > 0 {
                    assert(wonder_pool(ws, false)[i] == rest[i - 1]);
                }
            }
        }
    }
}

/// Each token of the pool placed face-up in its own board slot.
fn face_up_slots(tokens: &Vec<token::Id>) -> (r: Vec<Option<token::Id>>)
    ensures
        r@ == tokens@.map_values(|t: token::Id| Some(t)),
{
    let mut out: Vec<Option<token::Id>> = Vec::new();
    let mut i: usize = 0;
    while i < tokens.len()
        invariant
            i <= tokens@.len(),
            out@.len() == i,
            forall|k: int| 0 <= k < i ==> out@[k] == Some(tokens@[k]),
        decreases tokens@.len() - i,
    {
        out.push(Some(tokens[i]));
        i = i + 1;
    }
    proof {
        assert(out@ =~= tokens@.map_values(|t: token::Id| Some(t)));
    }
    out
}

/// The pool slice offered for drafting: up to four wonders starting at
/// `from`, each in a selectable slot.
fn draft_offer(wonders: &Vec<wonder::Id>, from: usize) -> (r: Vec<Option<wonder::Id>>)
    ensures
        r@ == spec_draft_offer(wonders@, from as int),
{
    let mut out: Vec<Option<wonder::Id>> = Vec::new();
    let mut i: usize = from;
    let stop: usize = if from >= wonders.len() {
        from
    } else if wonders.len() - from < 4 {
        wonders.len()
    } else {
        from + 4
    };
    while i < stop
        invariant
            from <= i <= stop,
            stop <= wonders@.len() || stop == from,
            out@.len() == i - from,
            forall|k: int| 0 <= k < out@.len() ==> out@[k] == Some(wonders@[from + k]),
        decreases stop - i,
    {
        out.push(Some(wonders[i]));
        i = i + 1;
    }
    proof {
        if from >= wonders@.len() {
            assert(out@ =~= spec_draft_offer(wonders@, from as int));
        } else {
            assert(out@ =~= spec_draft_offer(wonders@, from as int));
        }
    }
    out
}

fn offer_contains(v: &Vec<Option<wonder::Id>>, wid: wonder::Id) -> (b: bool)
    ensures
        b == v@.contains(Some(wid)),
{
    let n = v.len();
    let mut i: usize = 0;
    while i < n
        invariant
            n == v@.len(),
            i <= n,
            forall|j: int| 0 <= j < i ==> v@[j] != Some(wid),
        decreases n - i,
    {
        if v[i] == Some(wid) {
            return true;
        }
        i = i + 1;
    }
    false
}

/// Empty the first offer slot holding this wonder.
pub open spec fn cleared_offer(v: Seq<Option<wonder::Id>>, wid: wonder::Id) -> Seq<Option<
    wonder::Id>>
    decreases v.len(),
{
    if v.len() == 0 {
        v
    } else if v[0] == Some(wid) {
        seq![None] + v.drop_first()
    } else {
        seq![v[0]] + cleared_offer(v.drop_first(), wid)
    }
}

fn clear_offer_slot(v: &mut Vec<Option<wonder::Id>>, wid: wonder::Id)
    ensures
        final(v)@ == cleared_offer(old(v)@, wid),
{
    let n = v.len();
    let mut i: usize = 0;
    while i < n
        invariant
            n == v@.len(),
            i <= n,
            v@ == old(v)@,
            forall|j: int| 0 <= j < i ==> v@[j] != Some(wid),
        decreases n - i,
    {
        if v[i] == Some(wid) {
            v[i] = None;
            proof {
                lemma_cleared_at(old(v)@, wid, i as int);
                assert(final(v)@ =~= old(v)@.update(i as int, None));
            }
            return;
        }
        i = i + 1;
    }
    proof {
        lemma_cleared_absent(v@, wid);
    }
}

proof fn lemma_cleared_at(v: Seq<Option<wonder::Id>>, wid: wonder::Id, i: int)
    requires
        0 <= i < v.len(),
        v[i] == Some(wid),
        forall|j: int| 0 <= j < i ==> v[j] != Some(wid),
    ensures
        cleared_offer(v, wid) =~= v.update(i, None::<wonder::Id>),
    decreases i,
{
    if i == 0 {
        assert(cleared_offer(v, wid) == seq![None::<wonder::Id>] + v.drop_first());
        assert(seq![None::<wonder::Id>] + v.drop_first() =~= v.update(0, None::<wonder::Id>));
    } else {
        lemma_cleared_at(v.drop_first(), wid, i - 1);
        assert(v.drop_first().update(i - 1, None::<wonder::Id>) =~= v.update(
            i,
            None::<wonder::Id>,
        ).drop_first());
        assert(seq![v[0]] + v.update(i, None::<wonder::Id>).drop_first() =~= v.update(
            i,
            None::<wonder::Id>,
        ));
    }
}

proof fn lemma_cleared_absent(v: Seq<Option<wonder::Id>>, wid: wonder::Id)
    requires
        forall|j: int| 0 <= j < v.len() ==> v[j] != Some(wid),
    ensures
        cleared_offer(v, wid) =~= v,
    decreases v.len(),
{
    if v.len() > 0 {
        lemma_cleared_absent(v.drop_first(), wid);
        assert(seq![v[0]] + v.drop_first() =~= v);
    }
}

fn find_free_wonder(ws: &Vec<(wonder::Id, Option<building::Id>)>, wid: wonder::Id) -> (b: bool)
    ensures
        b == has_free_wonder(ws@, wid),
{
    let n = ws.len();
    let mut i: usize = 0;
    while i < n
        invariant
            n == ws@.len(),
            i <= n,
            forall|j: int| 0 <= j < i ==> !((#[trigger] ws@[j]).0 == wid && ws@[j].1 is None),
        decreases n - i,
    {
        if ws[i].0 == wid && ws[i].1.is_none() {
            return true;
        }
        i = i + 1;
    }
    false
}

/// Record a built card on every held copy of this wonder.
pub open spec fn assigned(ws: Seq<(wonder::Id, Option<building::Id>)>, wid: wonder::Id,
    bid: building::Id) -> Seq<(wonder::Id, Option<building::Id>)> {
    ws.map_values(
        |e: (wonder::Id, Option<building::Id>)| if e.0 == wid {
            (e.0, Some(bid))
        } else {
            e
        },
    )
}

fn assign_wonder(ws: &mut Vec<(wonder::Id, Option<building::Id>)>, wid: wonder::Id,
    bid: building::Id)
    ensures
        final(ws)@ == assigned(old(ws)@, wid, bid),
{
    let n = ws.len();
    let mut i: usize = 0;
    while i < n
        invariant
            n == ws@.len(),
            ws@.len() == old(ws)@.len(),
            i <= n,
            forall|k: int| 0 <= k < i ==> ws@[k] == assigned(old(ws)@, wid, bid)[k],
            forall|k: int| i <= k < n ==> ws@[k] == old(ws)@[k],
        decreases n - i,
    {
        if ws[i].0 == wid {
            let e = ws[i];
            ws[i] = (e.0, Some(bid));
        }
        i = i + 1;
    }
    proof {
        assert(final(ws)@ =~= assigned(old(ws)@, wid, bid));
    }
}

/// How many held wonders carry a built card.
fn count_built(ws: &Vec<(wonder::Id, Option<building::Id>)>) -> (n: u64)
    ensures
        n == crate::state::wonders_built(ws@),
        n <= ws@.len(),
{
    let mut count: u64 = 0;
    let mut i: usize = 0;
    proof {
        assert(ws@.skip(0) =~= ws@);
        crate::state::lemma_wonders_built_bounds(ws@);
    }
    while i < ws.len()
        invariant
            i <= ws@.len(),
            count <= i,
            count + crate::state::wonders_built(ws@.skip(i as int)) == crate::state::wonders_built(
                ws@,
            ),
            crate::state::wonders_built(ws@) <= ws@.len(),
        decreases ws@.len() - i,
    {
        proof {
            assert(ws@.skip(i as int)[0] == ws@[i as int]);
            assert(ws@.skip(i as int).drop_first() =~= ws@.skip(i + 1));
            crate::state::lemma_wonders_built_bounds(ws@.skip(i + 1));
        }
        if ws[i].1.is_some() {
            count = count + 1;
        }
        i = i + 1;
    }
    proof {
        assert(ws@.skip(ws@.len() as int) =~= Seq::<(wonder::Id, Option<building::Id>)>::empty());
    }
    count
}

/// How many draft slots have been taken from the offer pools.
fn count_wonders(ws: &Vec<(wonder::Id, Option<building::Id>)>) -> (n: u64)
    ensures
        n == ws@.len(),
{
    let n = ws.len();
    n as u64
}

/// Only the constructed wonders, in hand order.
pub open spec fn built_only(ws: Seq<(wonder::Id, Option<building::Id>)>) -> Seq<(
    wonder::Id,
    Option<building::Id>,
)>
    decreases ws.len(),
{
    if ws.len() == 0 {
        Seq::empty()
    } else {
        let rest = built_only(ws.drop_first());
        if ws[0].1 is Some {
            seq![ws[0]] + rest
        } else {
            rest
        }
    }
}

fn retain_built(ws: &mut Vec<(wonder::Id, Option<building::Id>)>)
    ensures
        final(ws)@ == built_only(old(ws)@),
{
    let ghost w0 = ws@;
    let mut out: Vec<(wonder::Id, Option<building::Id>)> = Vec::new();
    let mut i: usize = 0;
    proof {
        assert(w0.skip(0) =~= w0);
    }
    while i < ws.len()
        invariant
            i <= ws@.len(),
            ws@ == w0,
            built_only(w0) =~= out@ + built_only(w0.skip(i as int)),
        decreases ws@.len() - i,
    {
        proof {
            assert(w0.skip(i as int)[0] == w0[i as int]);
            assert(w0.skip(i as int).drop_first() =~= w0.skip(i + 1));
        }
        if ws[i].1.is_some() {
            out.push(ws[i]);
        }
        i = i + 1;
    }
    proof {
        assert(w0.skip(w0.len() as int) =~= Seq::<(wonder::Id, Option<building::Id>)>::empty());
        assert(out@ + Seq::<(wonder::Id, Option<building::Id>)>::empty() =~= out@);
    }
    *ws = out;
}

/// Drop every copy of a card from a list, keeping the others' order.
pub open spec fn removed(v: Seq<building::Id>, id: building::Id) -> Seq<building::Id>
    decreases v.len(),
{
    if v.len() == 0 {
        Seq::empty()
    } else {
        let rest = removed(v.drop_first(), id);
        if v[0] == id {
            rest
        } else {
            seq![v[0]] + rest
        }
    }
}

fn remove_building(v: &mut Vec<building::Id>, id: building::Id)
    ensures
        final(v)@ == removed(old(v)@, id),
{
    let ghost v0 = v@;
    let mut out: Vec<building::Id> = Vec::new();
    let mut i: usize = 0;
    proof {
        assert(v0.skip(0) =~= v0);
    }
    while i < v.len()
        invariant
            i <= v@.len(),
            v@ == v0,
            removed(v0, id) =~= out@ + removed(v0.skip(i as int), id),
        decreases v@.len() - i,
    {
        proof {
            assert(v0.skip(i as int)[0] == v0[i as int]);
            assert(v0.skip(i as int).drop_first() =~= v0.skip(i + 1));
        }
        if v[i] != id {
            out.push(v[i]);
        }
        i = i + 1;
    }
    proof {
        assert(v0.skip(v0.len() as int) =~= Seq::<building::Id>::empty());
        assert(out@ + Seq::<building::Id>::empty() =~= out@);
    }
    *v = out;
}

/// Empty the first board slot holding this token; a token that never sat on
/// the board leaves the slots as they are.
pub open spec fn cleared_token(v: Seq<Option<token::Id>>, tid: token::Id) -> Seq<Option<
    token::Id>>
    decreases v.len(),
{
    if v.len() == 0 {
        v
    } else if v[0] == Some(tid) {
        seq![None] + v.drop_first()
    } else {
        seq![v[0]] + cleared_token(v.drop_first(), tid)
    }
}

fn clear_board_token(v: &mut Vec<Option<token::Id>>, tid: token::Id)
    ensures
        final(v)@ == cleared_token(old(v)@, tid),
{
    let n = v.len();
    let mut i: usize = 0;
    while i < n
        invariant
            n == v@.len(),
            i <= n,
            v@ == old(v)@,
            forall|j: int| 0 <= j < i ==> v@[j] != Some(tid),
        decreases n - i,
    {
        if v[i] == Some(tid) {
            v[i] = None;
            proof {
                lemma_cleared_token_at(old(v)@, tid, i as int);
                assert(final(v)@ =~= old(v)@.update(i as int, None));
            }
            return;
        }
        i = i + 1;
    }
    proof {
        lemma_cleared_token_absent(v@, tid);
    }
}

proof fn lemma_cleared_token_at(v: Seq<Option<token::Id>>, tid: token::Id, i: int)
    requires
        0 <= i < v.len(),
        v[i] == Some(tid),
        forall|j: int| 0 <= j < i ==> v[j] != Some(tid),
    ensures
        cleared_token(v, tid) =~= v.update(i, None::<token::Id>),
    decreases i,
{
    if i == 0 {
        assert(cleared_token(v, tid) == seq![None::<token::Id>] + v.drop_first());
        assert(seq![None::<token::Id>] + v.drop_first() =~= v.update(0, None::<token::Id>));
    } else {
        lemma_cleared_token_at(v.drop_first(), tid, i - 1);
        assert(v.drop_first().update(i - 1, None::<token::Id>) =~= v.update(
            i,
            None::<token::Id>,
        ).drop_first());
        assert(seq![v[0]] + v.update(i, None::<token::Id>).drop_first() =~= v.update(
            i,
            None::<token::Id>,
        ));
    }
}

proof fn lemma_cleared_token_absent(v: Seq<Option<token::Id>>, tid: token::Id)
    requires
        forall|j: int| 0 <= j < v.len() ==> v[j] != Some(tid),
    ensures
        cleared_token(v, tid) =~= v,
    decreases v.len(),
{
    if v.len() > 0 {
        lemma_cleared_token_absent(v.drop_first(), tid);
        assert(seq![v[0]] + v.drop_first() =~= v);
    }
}

fn copy_pool(v: &Vec<building::Id>) -> (r: Vec<building::Id>)
    ensures
        r@ == v@,
{
    let mut out: Vec<building::Id> = Vec::new();
    let mut i: usize = 0;
    while i < v.len()
        invariant
            i <= v@.len(),
            out@ =~= v@.take(i as int),
        decreases v@.len() - i,
    {
        out.push(v[i]);
        proof {
            assert(out@ =~= v@.take(i + 1));
        }
        i = i + 1;
    }
    proof {
        assert(v@.take(v@.len() as int) =~= v@);
    }
    out
}

} // verus!
