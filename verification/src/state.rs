//! The single mutable root of a game: both cities, the turn pointers, the
//! board pools, the deck, the deferred-effect queue, and the terminal result.

use vstd::prelude::*;
use crate::{
    Age, Bonus, Coins, Error, Finisher, Nickname, Phase, ScientificSymbol, Victory,
    COINS_PER_POINT, DEFAULT_DISCARD_REWARD, DEFAULT_RESOURCE_PRICE, FIXED_RESOURCE_PRICE,
    STARTING_CITY_COINS,
};
use crate::economy::spec_pay_scope;
use crate::effect::Effect;
use crate::building;
use crate::deck::{playable_of, Deck, Layout};
use crate::economy::{discount_fold, Cost, Discount, PayScope, Resource, Resources};
use crate::effect::PostEffect;
use crate::military::{conflict_result, spec_zone, spec_zone_index, Track, CAPITAL_POS};
use crate::token;
use crate::wonder;

verus! {

/// Turn pointers: who started the game, whose turn it is, who waits, and the
/// turn to restore once a chain of interactive sub-phases completes.
#[derive(Debug, Copy, Clone, PartialEq, Eq, Structural)]
pub struct Players {
    pub starts: Nickname,
    pub me: Nickname,
    pub enemy: Nickname,
    pub fallback: Option<Nickname>,
}

impl Default for Players {
    fn default() -> (r: Self)
        ensures
            r == (Players { starts: 0u64, me: 0u64, enemy: 0u64, fallback: None::<Nickname> }),
    {
        Players { starts: 0, me: 0, enemy: 0, fallback: None }
    }
}

impl Players {
    /// Swap the acting and waiting identities.
    pub fn next_turn(&mut self)
        ensures
            *final(self) == (Players { me: old(self).enemy, enemy: old(self).me, ..*old(self) }),
    {
        let t = self.me;
        self.me = self.enemy;
        self.enemy = t;
    }

    /// Make `turn` the acting identity; it must be one of the two members.
    pub fn set_turn(&mut self, turn: Nickname)
        requires
            turn == old(self).me || turn == old(self).enemy,
        ensures
            final(self).me == turn,
            final(self).starts == old(self).starts,
            final(self).fallback == old(self).fallback,
            turn == old(self).me ==> *final(self) == *old(self),
            turn != old(self).me ==> *final(self) == (Players {
                me: old(self).enemy,
                enemy: old(self).me,
                ..*old(self)
            }),
    {
        if self.me != turn {
            self.next_turn();
        }
    }

    /// The two identities, acting player first.
    pub fn members(&self) -> (r: Vec<Nickname>)
        ensures
            r@ =~= seq![self.me, self.enemy],
    {
        vec![self.me, self.enemy]
    }
}

/// A per-category score snapshot; recomputed at every turn boundary.
#[derive(Debug, Default, Copy, Clone, PartialEq, Eq, Structural)]
pub struct Score {
    pub civilian: u8,
    pub science: u8,
    pub commercial: u8,
    pub guilds: u8,
    pub wonders: u8,
    pub tokens: u8,
    pub coins: u8,
    pub military: u8,
    pub total: u8,
}

/// Per-city pricing state.
#[derive(Debug, Clone, PartialEq, Eq)]
pub struct Bank {
    pub discard_reward: u8,
    pub building_price: Vec<(building::Id, Coins)>,
    pub wonder_price: Vec<(wonder::Id, Coins)>,
    pub resource_price: Resources,
    pub discounts: Vec<Discount>,
}

/// Insert `r` into a price-descending list, after any equally priced entry.
pub open spec fn insert_desc(s: Seq<Resource>, r: Resource, p: Resources) -> Seq<Resource>
    decreases s.len(),
{
    if s.len() == 0 {
        seq![r]
    } else if p.spec_get(s[0]) < p.spec_get(r) {
        seq![r] + s
    } else {
        seq![s[0]] + insert_desc(s.drop_first(), r, p)
    }
}

/// All five resources ordered by price, priciest first; ties keep canonical
/// order.
pub open spec fn spec_priority(p: Resources) -> Seq<Resource> {
    insert_desc(
        insert_desc(
            insert_desc(
                insert_desc(insert_desc(Seq::empty(), Resource::Clay, p), Resource::Wood, p),
                Resource::Stone,
                p,
            ),
            Resource::Glass,
            p,
        ),
        Resource::Papyrus,
        p,
    )
}

/// Apply every discount whose scope matches, in list order.
pub open spec fn discounts_fold(cost: Resources, ds: Seq<Discount>, scope: PayScope,
    priority: Seq<Resource>) -> Resources
    decreases ds.len(),
{
    if ds.len() == 0 {
        cost
    } else {
        let c2 = if ds[0].scope == PayScope::Global || ds[0].scope == scope {
            discount_fold(cost, ds[0].resources, ds[0].count, priority).0
        } else {
            cost
        };
        discounts_fold(c2, ds.drop_first(), scope, priority)
    }
}

/// The resource counts of `cost` after every applicable discount.
pub open spec fn spec_discounted(bank: Bank, scope: PayScope, cost: Cost) -> Resources {
    discounts_fold(cost.resources, bank.discounts@, scope, spec_priority(bank.resource_price))
}

/// The exact coin price of a cost under this bank: the cost's coins plus
/// each remaining discounted resource count at its current price.
pub open spec fn spec_price(bank: Bank, scope: PayScope, cost: Cost) -> int {
    let rc = spec_discounted(bank, scope, cost);
    let p = bank.resource_price;
    cost.coins + p.clay * rc.clay + p.wood * rc.wood + p.stone * rc.stone + p.glass * rc.glass
        + p.papyrus * rc.papyrus
}

proof fn lemma_insert_desc_at(s: Seq<Resource>, r: Resource, p: Resources, i: int)
    requires
        0 <= i <= s.len(),
        forall|j: int| 0 <= j < i ==> p.spec_get(#[trigger] s[j]) >= p.spec_get(r),
        i < s.len() ==> p.spec_get(s[i]) < p.spec_get(r),
    ensures
        insert_desc(s, r, p) =~= s.take(i) + seq![r] + s.skip(i),
    decreases i,
{
    if i == 0 {
        assert(s.take(0) =~= Seq::<Resource>::empty());
        assert(s.skip(0) =~= s);
    } else {
        assert(p.spec_get(s[0]) >= p.spec_get(r));
        lemma_insert_desc_at(s.drop_first(), r, p, i - 1);
        assert(s.drop_first().take(i - 1) =~= s.take(i).drop_first());
        assert(s.drop_first().skip(i - 1) =~= s.skip(i));
    }
}

impl Bank {
    /// All five resources, priciest first; equal prices keep canonical
    /// order.
    fn get_resources_ordered_by_price(&self) -> (r: Vec<Resource>)
        ensures
            r@ == spec_priority(self.resource_price),
    {
        let mut v: Vec<Resource> = Vec::new();
        assert(v@ =~= Seq::<Resource>::empty());
        self.insert_by_price(&mut v, Resource::Clay);
        self.insert_by_price(&mut v, Resource::Wood);
        self.insert_by_price(&mut v, Resource::Stone);
        self.insert_by_price(&mut v, Resource::Glass);
        self.insert_by_price(&mut v, Resource::Papyrus);
        v
    }

    fn insert_pos(&self, v: &Vec<Resource>, r: Resource) -> (i: usize)
        ensures
            i <= v@.len(),
            forall|j: int| 0 <= j < i ==> self.resource_price.spec_get(#[trigger] v@[j])
                >= self.resource_price.spec_get(r),
            i < v@.len() ==> self.resource_price.spec_get(v@[i as int])
                < self.resource_price.spec_get(r),
    {
        let n = v.len();
        let mut i: usize = 0;
        while i < n
            invariant
                n == v@.len(),
                i <= n,
                forall|j: int| 0 <= j < i ==> self.resource_price.spec_get(#[trigger] v@[j])
                    >= self.resource_price.spec_get(r),
            decreases n - i,
        {
            if self.resource_price.get(v[i]) < self.resource_price.get(r) {
                return i;
            }
            i = i + 1;
        }
        i
    }

    fn insert_by_price(&self, v: &mut Vec<Resource>, r: Resource)
        ensures
            final(v)@ == insert_desc(old(v)@, r, self.resource_price),
    {
        let ghost p = self.resource_price;
        let i = self.insert_pos(v, r);
        proof {
            lemma_insert_desc_at(v@, r, p, i as int);
        }
        v.insert(i, r);
        proof {
            assert(final(v)@ =~= old(v)@.take(i as int) + seq![r] + old(v)@.skip(i as int));
        }
    }

    /// Apply every active discount whose scope is global or matches, each
    /// consuming resources priciest first.
    fn discount(&self, scope: PayScope, cost: &mut Cost)
        ensures
            final(cost).coins == old(cost).coins,
            final(cost).resources == spec_discounted(*self, scope, *old(cost)),
    {
        let priority = self.get_resources_ordered_by_price();
        let ghost ds = self.discounts@;
        let mut i: usize = 0;
        proof {
            assert(ds.skip(0) =~= ds);
        }
        while i < self.discounts.len()
            invariant
                i <= ds.len(),
                self.discounts@ == ds,
                priority@ == spec_priority(self.resource_price),
                cost.coins == old(cost).coins,
                discounts_fold(cost.resources, ds.skip(i as int), scope, priority@)
                    == discounts_fold(old(cost).resources, ds, scope, priority@),
            decreases ds.len() - i,
        {
            let d = &self.discounts[i];
            proof {
                assert(ds.skip(i as int)[0] == self.discounts@[i as int]);
                assert(ds.skip(i as int).drop_first() =~= ds.skip(i + 1));
            }
            if d.scope == PayScope::Global || d.scope == scope {
                d.apply(cost, &priority);
            }
            i = i + 1;
        }
        proof {
            assert(ds.skip(ds.len() as int) =~= Seq::<Discount>::empty());
        }
    }

    /// The exact price as a wide integer, never truncated.
    pub fn price_total(&self, scope: PayScope, cost: Cost) -> (r: u32)
        ensures
            r == spec_price(*self, scope, cost),
            r >= cost.coins,
    {
        let mut c = cost;
        self.discount(scope, &mut c);
        let p = &self.resource_price;
        let sum: u32 = (cost.coins as u32) + mul_u8(p.clay, c.resources.clay)
            + mul_u8(p.wood, c.resources.wood) + mul_u8(p.stone, c.resources.stone)
            + mul_u8(p.glass, c.resources.glass) + mul_u8(p.papyrus, c.resources.papyrus);
        sum
    }

    /// The price of a cost, clamped to the coin type's range.
    pub fn get_price(&self, scope: PayScope, cost: Cost) -> (r: Coins)
        ensures
            r == if spec_price(*self, scope, cost) > 255 {
                255int
            } else {
                spec_price(*self, scope, cost)
            },
    {
        let t = self.price_total(scope, cost);
        if t > 255 {
            255
        } else {
            t as u8
        }
    }

    /// Whether an effect has pinned this resource to the fixed low price.
    pub fn has_fixed_resource_price(&self, r: Resource) -> (b: bool)
        ensures
            b == (self.resource_price.spec_get(r) == FIXED_RESOURCE_PRICE),
    {
        self.resource_price.get(r) == FIXED_RESOURCE_PRICE
    }
}

impl Default for Bank {
    fn default() -> (r: Self)
        ensures
            r.discard_reward == DEFAULT_DISCARD_REWARD,
            r.building_price@.len() == 0,
            r.wonder_price@.len() == 0,
            forall|res: Resource| r.resource_price.spec_get(res) == DEFAULT_RESOURCE_PRICE,
            r.discounts@.len() == 0,
    {
        Bank {
            discard_reward: DEFAULT_DISCARD_REWARD,
            building_price: Vec::new(),
            wonder_price: Vec::new(),
            resource_price: Resources::uniform(DEFAULT_RESOURCE_PRICE),
            discounts: Vec::new(),
        }
    }
}

/// One player's side of the board.
#[derive(Debug, Clone, PartialEq, Eq)]
pub struct City {
    pub coins: Coins,
    pub resources: Resources,
    pub score: Score,
    pub buildings: Vec<building::Id>,
    pub wonders: Vec<(wonder::Id, Option<building::Id>)>,
    pub tokens: Vec<token::Id>,
    pub scientific_symbols: Vec<(ScientificSymbol, u8)>,
    pub chains: Vec<building::Id>,
    pub bank: Bank,
    pub track: Track,
}

/// What a freshly seeded city looks like: starting coins, empty stocks and
/// holdings, default pricing, the pawn at rest.
pub open spec fn city_initial(c: City) -> bool {
    &&& c.coins == STARTING_CITY_COINS
    &&& c.resources == (Resources { clay: 0, wood: 0, stone: 0, glass: 0, papyrus: 0 })
    &&& c.score == Score::default_spec()
    &&& c.buildings@.len() == 0
    &&& c.wonders@.len() == 0
    &&& c.tokens@.len() == 0
    &&& c.scientific_symbols@.len() == 0
    &&& c.chains@.len() == 0
    &&& c.bank.discard_reward == DEFAULT_DISCARD_REWARD
    &&& c.bank.building_price@.len() == 0
    &&& c.bank.wonder_price@.len() == 0
    &&& (forall|res: Resource| c.bank.resource_price.spec_get(res) == DEFAULT_RESOURCE_PRICE)
    &&& c.bank.discounts@.len() == 0
    &&& c.track.pos == 0
    &&& c.track.max_zone == 0
}

impl Default for City {
    fn default() -> (c: Self)
        ensures
            city_initial(c),
            c.coins == STARTING_CITY_COINS,
            c.resources == (Resources { clay: 0, wood: 0, stone: 0, glass: 0, papyrus: 0 }),
            c.score == Score::default_spec(),
            c.buildings@.len() == 0,
            c.wonders@.len() == 0,
            c.tokens@.len() == 0,
            c.scientific_symbols@.len() == 0,
            c.chains@.len() == 0,
            c.bank.discard_reward == DEFAULT_DISCARD_REWARD,
            c.bank.building_price@.len() == 0,
            c.bank.wonder_price@.len() == 0,
            forall|res: Resource| c.bank.resource_price.spec_get(res) == DEFAULT_RESOURCE_PRICE,
            c.bank.discounts@.len() == 0,
            c.track.pos == 0,
            c.track.max_zone == 0,
    {
        City {
            coins: STARTING_CITY_COINS,
            resources: Resources::none(),
            score: Score::zero(),
            buildings: Vec::new(),
            wonders: Vec::new(),
            tokens: Vec::new(),
            scientific_symbols: Vec::new(),
            chains: Vec::new(),
            bank: Bank::default(),
            track: Track::default(),
        }
    }
}

impl Score {
    pub open spec fn default_spec() -> Score {
        Score {
            civilian: 0,
            science: 0,
            commercial: 0,
            guilds: 0,
            wonders: 0,
            tokens: 0,
            coins: 0,
            military: 0,
            total: 0,
        }
    }

    pub fn zero() -> (s: Score)
        ensures
            s == Score::default_spec(),
    {
        Score {
            civilian: 0,
            science: 0,
            commercial: 0,
            guilds: 0,
            wonders: 0,
            tokens: 0,
            coins: 0,
            military: 0,
            total: 0,
        }
    }
}

/// The units currently offered to the acting player for a pending choice.
/// Picked wonder slots stay as empty entries so the original offer order is
/// visible.
#[derive(Debug, Clone, PartialEq, Eq)]
pub struct Units {
    pub wonders: Vec<Option<wonder::Id>>,
    pub buildings: Vec<building::Id>,
    pub tokens: Vec<token::Id>,
}

impl Units {
    pub fn empty() -> (u: Units)
        ensures
            u.wonders@.len() == 0,
            u.buildings@.len() == 0,
            u.tokens@.len() == 0,
    {
        Units { wonders: Vec::new(), buildings: Vec::new(), tokens: Vec::new() }
    }
}

/// The pre-shuffled pools for the three ages, hidden from the players.
#[derive(Debug, Clone, PartialEq, Eq)]
pub struct RandomUnits {
    pub buildings1: Vec<building::Id>,
    pub buildings2: Vec<building::Id>,
    pub buildings3: Vec<building::Id>,
    pub tokens: Vec<token::Id>,
    pub wonders: Vec<wonder::Id>,
}

impl RandomUnits {
    pub fn empty() -> (u: RandomUnits)
        ensures
            u.buildings1@.len() == 0,
            u.buildings2@.len() == 0,
            u.buildings3@.len() == 0,
            u.tokens@.len() == 0,
            u.wonders@.len() == 0,
    {
        RandomUnits {
            buildings1: Vec::new(),
            buildings2: Vec::new(),
            buildings3: Vec::new(),
            tokens: Vec::new(),
            wonders: Vec::new(),
        }
    }

    pub open spec fn spec_for_age(self, age: Age) -> Seq<building::Id> {
        match age {
            Age::I => self.buildings1@,
            Age::II => self.buildings2@,
            Age::III => self.buildings3@,
        }
    }

    /// The pre-shuffled deal of one age.
    pub fn buildings_for_age(&self, age: Age) -> (r: &Vec<building::Id>)
        ensures
            r@ == self.spec_for_age(age),
    {
        match age {
            Age::I => &self.buildings1,
            Age::II => &self.buildings2,
            Age::III => &self.buildings3,
        }
    }
}

/// The terminal result: who won and by which victory.
#[derive(Debug, Copy, Clone, PartialEq, Eq, Structural)]
pub struct Finish {
    pub winner: Nickname,
    pub victory: Victory,
}

/// The board's building display: the public layout, the playable set, and
/// the discard pile.
#[derive(Debug, Clone, PartialEq, Eq)]
pub struct Buildings {
    pub layout: Layout,
    pub playable: Vec<building::Id>,
    pub discarded: Vec<building::Id>,
}

impl Buildings {
    pub fn empty() -> (b: Buildings)
        ensures
            b.layout@.len() == 0,
            b.playable@.len() == 0,
            b.discarded@.len() == 0,
    {
        Buildings { layout: Vec::new(), playable: Vec::new(), discarded: Vec::new() }
    }
}

/// The single mutable root.  The acting player's city is `me_city`, the
/// waiting player's is `enemy_city`; passing the turn swaps both the
/// identities and the cities, so `players.me` always owns `me_city`.
#[derive(Debug, Clone, PartialEq, Eq)]
pub struct State {
    pub age: Age,
    pub phase: Phase,
    pub players: Players,
    pub me_city: City,
    pub enemy_city: City,
    pub progress_tokens: Vec<Option<token::Id>>,
    pub buildings: Buildings,
    pub interactive_units: Units,
    pub post_effects: Vec<PostEffect>,
    pub play_again: bool,
    pub finish: Option<Finish>,
    pub deck: Deck,
    pub random_units: RandomUnits,
}

pub open spec fn post_effect_actor(pe: PostEffect) -> Nickname {
    match pe {
        PostEffect::DestructBuilding(n, _) => n,
        PostEffect::PickBoardToken(n, _) => n,
        PostEffect::PickDiscardedBuilding(n, _) => n,
        PostEffect::PickRandomToken(n, _) => n,
        PostEffect::PickReturnedBuildings(n, _) => n,
        PostEffect::PickTopLineBuilding(n, _) => n,
    }
}

impl State {
    /// Structural validity: conflict positions stay on the track and at most
    /// one side holds the pawn, the deck graph has no duplicate card, queued
    /// post-effects and the turn fallback name a known player, and once the
    /// game is prepared the two identities differ and the hidden age pools
    /// each hold a full deal.
    pub open spec fn wf(self) -> bool {
        &&& self.me_city.track.pos <= CAPITAL_POS
        &&& self.enemy_city.track.pos <= CAPITAL_POS
        &&& (self.me_city.track.pos == 0 || self.enemy_city.track.pos == 0)
        &&& self.deck.wf()
        &&& (self.phase != Phase::Unstarted && self.phase != Phase::Over
            ==> self.players.me != self.players.enemy)
        &&& forall|i: int| 0 <= i < self.post_effects@.len()
            ==> post_effect_actor(#[trigger] self.post_effects@[i]) == self.players.me
                || post_effect_actor(self.post_effects@[i]) == self.players.enemy
        &&& (self.players.fallback is Some ==> self.players.fallback->0 == self.players.me
                || self.players.fallback->0 == self.players.enemy)
        &&& (self.phase != Phase::Unstarted && self.phase != Phase::Over ==> {
            &&& self.random_units.buildings1@.len() == 20
            &&& self.random_units.buildings2@.len() == 20
            &&& self.random_units.buildings3@.len() == 20
        })
    }

    /// The acting player's city.
    pub fn me(&self) -> (c: &City)
        ensures
            c == &self.me_city,
    {
        &self.me_city
    }

    pub fn me_mut(&mut self) -> (c: &mut City)
        ensures
            *c == old(self).me_city,
            *final(self) == (State { me_city: *final(c), ..*old(self) }),
    {
        &mut self.me_city
    }

    /// The waiting player's city.
    pub fn enemy(&self) -> (c: &City)
        ensures
            c == &self.enemy_city,
    {
        &self.enemy_city
    }

    pub fn enemy_mut(&mut self) -> (c: &mut City)
        ensures
            *c == old(self).enemy_city,
            *final(self) == (State { enemy_city: *final(c), ..*old(self) }),
    {
        &mut self.enemy_city
    }

    /// Pass the turn: the identities and the cities swap together.
    pub fn next_turn(&mut self)
        ensures
            *final(self) == (State {
                players: Players {
                    me: old(self).players.enemy,
                    enemy: old(self).players.me,
                    ..old(self).players
                },
                me_city: old(self).enemy_city,
                enemy_city: old(self).me_city,
                ..*old(self)
            }),
    {
        self.players.next_turn();
        core::mem::swap(&mut self.me_city, &mut self.enemy_city);
    }

    /// Make `turn` the acting player.
    pub fn set_turn(&mut self, turn: Nickname)
        requires
            turn == old(self).players.me || turn == old(self).players.enemy,
        ensures
            final(self).players.me == turn,
            turn == old(self).players.me ==> *final(self) == *old(self),
            turn != old(self).players.me ==> *final(self) == (State {
                players: Players {
                    me: old(self).players.enemy,
                    enemy: old(self).players.me,
                    ..old(self).players
                },
                me_city: old(self).enemy_city,
                enemy_city: old(self).me_city,
                ..*old(self)
            }),
    {
        if self.players.me != turn {
            self.next_turn();
        }
    }

    /// End the game, once: a later call changes nothing.  A known loser's
    /// opponent wins.
    pub fn over(&mut self, finisher: Finisher, victory: Victory)
        ensures
            old(self).phase == Phase::Over ==> *final(self) == *old(self),
            old(self).phase != Phase::Over ==> *final(self) == (State {
                phase: Phase::Over,
                finish: Some(
                    Finish { winner: spec_winner_of(finisher, old(self).players), victory },
                ),
                ..*old(self)
            }),
    {
        if self.phase == Phase::Over {
            return;
        }
        self.phase = Phase::Over;
        let winner = match finisher {
            Finisher::Winner(w) => w,
            Finisher::Loser(l) => {
                if l == self.players.me {
                    self.players.enemy
                } else {
                    self.players.me
                }
            },
        };
        self.finish = Some(Finish { winner, victory });
    }

    /// Charge the acting city for a cost: its own stock first reduces the
    /// resource demand, then the bank prices the rest.  On a shortfall
    /// nothing changes.  If the enemy holds the Economy token it collects
    /// the trade part of the payment, from the discounted price.
    pub fn pay(&mut self, scope: PayScope, cost: Cost) -> (r: Result<(), Error>)
        ensures
            ({
                let reduced = Cost {
                    coins: cost.coins,
                    resources: residual(cost.resources, old(self).me_city.resources),
                };
                let price = spec_price(old(self).me_city.bank, scope, reduced);
                &&& (r is Err <==> price > old(self).me_city.coins)
                &&& (r is Err ==> r == Result::<(), Error>::Err(Error::NotEnoughCoins)
                        && *final(self) == *old(self))
                &&& (r is Ok ==> *final(self) == (State {
                    me_city: City {
                        coins: (old(self).me_city.coins - price) as u8,
                        ..old(self).me_city
                    },
                    enemy_city: City {
                        coins: if old(self).enemy_city.tokens@.contains(token::Id::Economy) {
                            sat_u8(old(self).enemy_city.coins + price - cost.coins)
                        } else {
                            old(self).enemy_city.coins
                        },
                        ..old(self).enemy_city
                    },
                    ..*old(self)
                }))
            }),
    {
        let cost_coins = cost.coins;
        let mut c = cost;
        c.resources.clay = sub_sat(c.resources.clay, self.me_city.resources.clay);
        c.resources.wood = sub_sat(c.resources.wood, self.me_city.resources.wood);
        c.resources.stone = sub_sat(c.resources.stone, self.me_city.resources.stone);
        c.resources.glass = sub_sat(c.resources.glass, self.me_city.resources.glass);
        c.resources.papyrus = sub_sat(c.resources.papyrus, self.me_city.resources.papyrus);
        assert(c.resources == residual(cost.resources, self.me_city.resources));

        let price = self.me_city.bank.price_total(scope, c);

        if price > self.me_city.coins as u32 {
            return Err(Error::NotEnoughCoins);
        }

        self.me_city.coins = self.me_city.coins - (price as u8);

        if contains_token(&self.enemy_city.tokens, token::Id::Economy) {
            let gain = price - (cost_coins as u32);
            self.enemy_city.coins = add_sat_u32(self.enemy_city.coins, gain);
        }

        Ok(())
    }
}

impl State {
    /// Push the conflict pawn for the acting city; see the track's own
    /// contract for the outcome.  Only the two tracks change.
    pub fn move_conflict_pawn(&mut self, power: u8) -> (r: (Coins, bool))
        requires
            old(self).me_city.track.pos <= CAPITAL_POS,
            old(self).enemy_city.track.pos <= CAPITAL_POS,
        ensures
            ({
                let (mt, et, fine, sup) = conflict_result(
                    old(self).me_city.track,
                    old(self).enemy_city.track,
                    power,
                );
                &&& *final(self) == (State {
                    me_city: City { track: mt, ..old(self).me_city },
                    enemy_city: City { track: et, ..old(self).enemy_city },
                    ..*old(self)
                })
                &&& r == (fine, sup)
            }),
            final(self).me_city.track.pos <= CAPITAL_POS,
            final(self).enemy_city.track.pos <= CAPITAL_POS,
            old(self).me_city.track.pos == 0 || old(self).enemy_city.track.pos == 0
                ==> final(self).me_city.track.pos == 0 || final(self).enemy_city.track.pos == 0,
    {
        let mut me_track = self.me_city.track;
        let mut enemy_track = self.enemy_city.track;
        let r = me_track.move_conflict_pawn(&mut enemy_track, power);
        self.me_city.track = me_track;
        self.enemy_city.track = enemy_track;
        r
    }
}

/// Deck graph invariant: unless the game is over, the playable set lists
/// exactly the cards of the pyramid graph with zero remaining supports.
pub open spec fn playable_sync(s: State) -> bool {
    s.phase == Phase::Over || s.buildings.playable@ == playable_of(s.deck.graph@)
}

/// Deck graph invariant, spelled out: while a game is in progress, a card
/// is offered as playable exactly when its graph node has zero remaining
/// supports — and only such cards are offered.
pub proof fn lemma_deck_graph_invariant(s: State, id: building::Id)
    requires
        playable_sync(s),
        s.phase != Phase::Over,
    ensures
        s.buildings.playable@.contains(id) <==> crate::deck::graph_has_empty(s.deck.graph@, id),
{
    crate::deck::lemma_playable_iff(s.deck.graph@, id);
}

/// Resource non-negativity: every resource count and every coin balance of
/// any city is non-negative — the counts are unsigned and no operation can
/// drive them below zero.
pub proof fn lemma_resources_non_negative(c: City)
    ensures
        forall|r: Resource| c.resources.spec_get(r) >= 0,
        c.coins >= 0,
{
}

/// The state with the turn passed: identities and cities swap together.
pub open spec fn swapped(s: State) -> State {
    State {
        players: Players { me: s.players.enemy, enemy: s.players.me, ..s.players },
        me_city: s.enemy_city,
        enemy_city: s.me_city,
        ..s
    }
}

/// The state with the turn given to `turn`, one of the two members.
pub open spec fn with_turn(s: State, turn: Nickname) -> State {
    if turn == s.players.me {
        s
    } else {
        swapped(s)
    }
}

/// The state after ending the game, if it was not already over.
pub open spec fn spec_over(s: State, f: Finisher, v: Victory) -> State {
    if s.phase == Phase::Over {
        s
    } else {
        State {
            phase: Phase::Over,
            finish: Some(Finish { winner: spec_winner_of(f, s.players), victory: v }),
            ..s
        }
    }
}

/// The winner a finisher denotes: a named winner, or a named loser's
/// opponent.
pub open spec fn spec_winner_of(f: Finisher, p: Players) -> Nickname {
    match f {
        Finisher::Winner(w) => w,
        Finisher::Loser(l) => if l == p.me {
            p.enemy
        } else {
            p.me
        },
    }
}

/// Resource demand left after spending own stock.
pub open spec fn residual(cost: Resources, stock: Resources) -> Resources {
    Resources {
        clay: sub_sat_spec(cost.clay, stock.clay),
        wood: sub_sat_spec(cost.wood, stock.wood),
        stone: sub_sat_spec(cost.stone, stock.stone),
        glass: sub_sat_spec(cost.glass, stock.glass),
        papyrus: sub_sat_spec(cost.papyrus, stock.papyrus),
    }
}

pub open spec fn sub_sat_spec(a: u8, b: u8) -> u8 {
    if a >= b {
        (a - b) as u8
    } else {
        0
    }
}

pub open spec fn sat_u8(v: int) -> u8 {
    if v > 255 {
        255
    } else if v < 0 {
        0
    } else {
        v as u8
    }
}

fn sub_sat(a: u8, b: u8) -> (r: u8)
    ensures
        r == sub_sat_spec(a, b),
{
    if a >= b {
        a - b
    } else {
        0
    }
}

/// Exact product of two small counts, in a type wide enough to hold it.
pub fn mul_u8(a: u8, b: u8) -> (r: u32)
    ensures
        r == a * b,
        r <= 65025,
{
    proof {
        assert(a * b <= 255 * 255) by (nonlinear_arith)
            requires
                a <= 255,
                b <= 255,
        ;
    }
    (a as u32) * (b as u32)
}

/// `a + b`, clamped to the coin type's range.
pub fn add_sat(a: u8, b: u8) -> (r: u8)
    ensures
        r == sat_u8(a + b),
{
    let s: u32 = a as u32 + b as u32;
    if s > 255 {
        255
    } else {
        s as u8
    }
}

fn add_sat_u32(a: u8, b: u32) -> (r: u8)
    ensures
        r == sat_u8(a + b),
{
    if b > 255 {
        255
    } else {
        add_sat(a, b as u8)
    }
}

/// `n`, clamped to the top of the small-count range.
pub open spec fn cap255(n: int) -> int {
    if n > 255 {
        255
    } else {
        n
    }
}

/// How many of the city's wonders are constructed.
pub open spec fn wonders_built(ws: Seq<(wonder::Id, Option<building::Id>)>) -> int
    decreases ws.len(),
{
    if ws.len() == 0 {
        0
    } else {
        (if ws[0].1 is Some {
            1int
        } else {
            0int
        }) + wonders_built(ws.drop_first())
    }
}

/// The city's rate in a bonus category: a count of its own holdings.
pub open spec fn spec_bonus_rate(c: City, b: Bonus) -> int {
    match b {
        Bonus::Resources => cap255(
            cap255(building::filter_kind(c.buildings@, building::Kind::RawMaterials).len() as int)
                + cap255(
                building::filter_kind(c.buildings@, building::Kind::ManufacturedGoods).len()
                    as int,
            ),
        ),
        Bonus::RawMaterials => cap255(
            building::filter_kind(c.buildings@, building::Kind::RawMaterials).len() as int,
        ),
        Bonus::ManufacturedGoods => cap255(
            building::filter_kind(c.buildings@, building::Kind::ManufacturedGoods).len() as int,
        ),
        Bonus::Military => cap255(
            building::filter_kind(c.buildings@, building::Kind::Military).len() as int,
        ),
        Bonus::Commercial => cap255(
            building::filter_kind(c.buildings@, building::Kind::Commercial).len() as int,
        ),
        Bonus::Civilian => cap255(
            building::filter_kind(c.buildings@, building::Kind::Civilian).len() as int,
        ),
        Bonus::Science => cap255(
            building::filter_kind(c.buildings@, building::Kind::Scientific).len() as int,
        ),
        Bonus::Wonder => cap255(wonders_built(c.wonders@)),
        Bonus::Coin => c.coins as int / COINS_PER_POINT as int,
    }
}

/// The better of the two cities' rates: what a guild rewards.
pub open spec fn spec_guild_rate(me: City, enemy: City, b: Bonus) -> int {
    if spec_bonus_rate(me, b) >= spec_bonus_rate(enemy, b) {
        spec_bonus_rate(me, b)
    } else {
        spec_bonus_rate(enemy, b)
    }
}

impl City {
    /// The city's rate in a bonus category.
    pub fn bonus_rate(&self, b: Bonus) -> (r: u8)
        ensures
            r == spec_bonus_rate(*self, b),
    {
        match b {
            Bonus::Resources => add_sat(
                building::count_by_kind(&self.buildings, building::Kind::RawMaterials),
                building::count_by_kind(&self.buildings, building::Kind::ManufacturedGoods),
            ),
            Bonus::RawMaterials => building::count_by_kind(
                &self.buildings,
                building::Kind::RawMaterials,
            ),
            Bonus::ManufacturedGoods => building::count_by_kind(
                &self.buildings,
                building::Kind::ManufacturedGoods,
            ),
            Bonus::Military => building::count_by_kind(&self.buildings, building::Kind::Military),
            Bonus::Commercial => building::count_by_kind(
                &self.buildings,
                building::Kind::Commercial,
            ),
            Bonus::Civilian => building::count_by_kind(&self.buildings, building::Kind::Civilian),
            Bonus::Science => building::count_by_kind(
                &self.buildings,
                building::Kind::Scientific,
            ),
            Bonus::Wonder => {
                let mut n: u8 = 0;
                let mut i: usize = 0;
                proof {
                    assert(self.wonders@.skip(0) =~= self.wonders@);
                    wonders_built_nonneg(self.wonders@);
                }
                while i < self.wonders.len()
                    invariant
                        i <= self.wonders@.len(),
                        cap255(n + wonders_built(self.wonders@.skip(i as int))) == cap255(
                            wonders_built(self.wonders@),
                        ),
                        n <= 255,
                        wonders_built(self.wonders@.skip(i as int)) >= 0,
                    decreases self.wonders@.len() - i,
                {
                    proof {
                        assert(self.wonders@.skip(i as int)[0] == self.wonders@[i as int]);
                        assert(self.wonders@.skip(i as int).drop_first() =~= self.wonders@.skip(
                            i + 1,
                        ));
                        wonders_built_nonneg(self.wonders@.skip(i + 1));
                    }
                    if self.wonders[i].1.is_some() {
                        n = add_sat(n, 1);
                    }
                    i = i + 1;
                }
                proof {
                    assert(self.wonders@.skip(self.wonders@.len() as int) =~= Seq::<(
                        wonder::Id,
                        Option<building::Id>,
                    )>::empty());
                }
                n
            },
            Bonus::Coin => self.coins / COINS_PER_POINT,
        }
    }
}

proof fn wonders_built_nonneg(ws: Seq<(wonder::Id, Option<building::Id>)>)
    ensures
        wonders_built(ws) >= 0,
    decreases ws.len(),
{
    if ws.len() > 0 {
        wonders_built_nonneg(ws.drop_first());
    }
}

/// A city's built-wonder count lies between zero and its hand size.
pub proof fn lemma_wonders_built_bounds(ws: Seq<(wonder::Id, Option<building::Id>)>)
    ensures
        0 <= wonders_built(ws) <= ws.len(),
    decreases ws.len(),
{
    if ws.len() > 0 {
        lemma_wonders_built_bounds(ws.drop_first());
    }
}

/// The points one effect contributes to scoring, for the city `me`.
pub open spec fn spec_effect_points(e: Effect, me: City, enemy: City) -> int {
    match e {
        Effect::Guild(b, _, pts) => cap255(spec_guild_rate(me, enemy, b) * pts),
        Effect::Mathematics => cap255(me.tokens@.len() as int * 3),
        Effect::Points(n) => n as int,
        _ => 0,
    }
}

/// Points of a whole effect list, accumulated left to right, each addition
/// clamped.
pub open spec fn pts_fold(es: Seq<Effect>, me: City, enemy: City, acc: int) -> int
    decreases es.len(),
{
    if es.len() == 0 {
        acc
    } else {
        pts_fold(es.drop_first(), me, enemy, cap255(acc + spec_effect_points(es[0], me, enemy)))
    }
}

/// The scoring contribution of one effect.
pub fn effect_points(e: &Effect, me: &City, enemy: &City) -> (r: u8)
    ensures
        r == spec_effect_points(*e, *me, *enemy),
{
    match e {
        Effect::Guild(b, _, pts) => {
            let mr = me.bonus_rate(*b);
            let er = enemy.bonus_rate(*b);
            let rate = if mr >= er {
                mr
            } else {
                er
            };
            let prod = mul_u8(rate, *pts);
            if prod > 255 {
                255
            } else {
                prod as u8
            }
        },
        Effect::Mathematics => {
            let n = me.tokens.len();
            if n > 85 {
                255
            } else {
                (n as u8) * 3
            }
        },
        Effect::Points(n) => *n,
        _ => 0,
    }
}

/// Points of a whole effect list.
pub fn effects_points(effects: &Vec<Effect>, me: &City, enemy: &City) -> (r: u8)
    ensures
        r == pts_fold(effects@, *me, *enemy, 0),
{
    let mut acc: u8 = 0;
    let mut i: usize = 0;
    proof {
        assert(effects@.skip(0) =~= effects@);
    }
    while i < effects.len()
        invariant
            i <= effects@.len(),
            pts_fold(effects@.skip(i as int), *me, *enemy, acc as int) == pts_fold(
                effects@,
                *me,
                *enemy,
                0,
            ),
        decreases effects@.len() - i,
    {
        proof {
            assert(effects@.skip(i as int)[0] == effects@[i as int]);
            assert(effects@.skip(i as int).drop_first() =~= effects@.skip(i + 1));
        }
        let p = effect_points(&effects[i], me, enemy);
        acc = add_sat(acc, p);
        i = i + 1;
    }
    proof {
        assert(effects@.skip(effects@.len() as int) =~= Seq::<Effect>::empty());
    }
    acc
}

/// One pass over the built list, adding each unit's points to its kind's
/// bucket: civilian, science, commercial, guilds.
pub open spec fn cat_fold(ids: Seq<building::Id>, me: City, enemy: City, civ: int, sci: int,
    com: int, gld: int) -> (int, int, int, int)
    decreases ids.len(),
{
    if ids.len() == 0 {
        (civ, sci, com, gld)
    } else {
        let p = pts_fold(building::spec_effects(ids[0]), me, enemy, 0);
        let k = building::spec_kind(ids[0]);
        cat_fold(
            ids.drop_first(),
            me,
            enemy,
            if k == building::Kind::Civilian {
                cap255(civ + p)
            } else {
                civ
            },
            if k == building::Kind::Scientific {
                cap255(sci + p)
            } else {
                sci
            },
            if k == building::Kind::Commercial {
                cap255(com + p)
            } else {
                com
            },
            if k == building::Kind::Guild {
                cap255(gld + p)
            } else {
                gld
            },
        )
    }
}

/// Points of the constructed wonders, accumulated in list order.
pub open spec fn wonder_pts_fold(ws: Seq<(wonder::Id, Option<building::Id>)>, me: City,
    enemy: City, acc: int) -> int
    decreases ws.len(),
{
    if ws.len() == 0 {
        acc
    } else {
        let a2 = if ws[0].1 is Some {
            cap255(acc + pts_fold(wonder::spec_effects(ws[0].0), me, enemy, 0))
        } else {
            acc
        };
        wonder_pts_fold(ws.drop_first(), me, enemy, a2)
    }
}

/// Points of the collected progress tokens, accumulated in list order.
pub open spec fn token_pts_fold(ts: Seq<token::Id>, me: City, enemy: City, acc: int) -> int
    decreases ts.len(),
{
    if ts.len() == 0 {
        acc
    } else {
        token_pts_fold(
            ts.drop_first(),
            me,
            enemy,
            cap255(acc + pts_fold(token::spec_effects(ts[0]), me, enemy, 0)),
        )
    }
}

/// The full per-category score of city `me`, with `enemy` as the opponent.
pub open spec fn spec_score(me: City, enemy: City) -> Score {
    let (civ, sci, com, gld) = cat_fold(me.buildings@, me, enemy, 0, 0, 0, 0);
    let won = wonder_pts_fold(me.wonders@, me, enemy, 0);
    let tok = token_pts_fold(me.tokens@, me, enemy, 0);
    let coin = me.coins as int / COINS_PER_POINT as int;
    let mil = spec_zone(spec_zone_index(me.track.pos)).points as int;
    Score {
        civilian: civ as u8,
        science: sci as u8,
        commercial: com as u8,
        guilds: gld as u8,
        wonders: won as u8,
        tokens: tok as u8,
        coins: coin as u8,
        military: mil as u8,
        total: cap255(civ + sci + com + gld + won + tok + coin + mil) as u8,
    }
}

/// Recompute the acting city's per-category score from the state alone.
pub fn get_score(s: &State) -> (sc: Score)
    ensures
        sc == spec_score(s.me_city, s.enemy_city),
{
    score_of(&s.me_city, &s.enemy_city)
}

/// Recompute a city's per-category score against its opponent.
pub fn score_of(me: &City, enemy: &City) -> (sc: Score)
    ensures
        sc == spec_score(*me, *enemy),
{
    let mut civ: u8 = 0;
    let mut sci: u8 = 0;
    let mut com: u8 = 0;
    let mut gld: u8 = 0;
    let mut i: usize = 0;
    proof {
        assert(me.buildings@.skip(0) =~= me.buildings@);
    }
    while i < me.buildings.len()
        invariant
            i <= me.buildings@.len(),
            cat_fold(
                me.buildings@.skip(i as int),
                *me,
                *enemy,
                civ as int,
                sci as int,
                com as int,
                gld as int,
            ) == cat_fold(me.buildings@, *me, *enemy, 0, 0, 0, 0),
        decreases me.buildings@.len() - i,
    {
        proof {
            assert(me.buildings@.skip(i as int)[0] == me.buildings@[i as int]);
            assert(me.buildings@.skip(i as int).drop_first() =~= me.buildings@.skip(i + 1));
        }
        let bid = me.buildings[i];
        let u = building::get(bid);
        let p = effects_points(&u.effects, me, enemy);
        if u.kind == building::Kind::Civilian {
            civ = add_sat(civ, p);
        } else if u.kind == building::Kind::Scientific {
            sci = add_sat(sci, p);
        } else if u.kind == building::Kind::Commercial {
            com = add_sat(com, p);
        } else if u.kind == building::Kind::Guild {
            gld = add_sat(gld, p);
        }
        i = i + 1;
    }
    proof {
        assert(me.buildings@.skip(me.buildings@.len() as int) =~= Seq::<building::Id>::empty());
    }

    let mut won: u8 = 0;
    let mut i: usize = 0;
    proof {
        assert(me.wonders@.skip(0) =~= me.wonders@);
    }
    while i < me.wonders.len()
        invariant
            i <= me.wonders@.len(),
            wonder_pts_fold(me.wonders@.skip(i as int), *me, *enemy, won as int)
                == wonder_pts_fold(me.wonders@, *me, *enemy, 0),
        decreases me.wonders@.len() - i,
    {
        proof {
            assert(me.wonders@.skip(i as int)[0] == me.wonders@[i as int]);
            assert(me.wonders@.skip(i as int).drop_first() =~= me.wonders@.skip(i + 1));
        }
        let (wid, built) = me.wonders[i];
        if built.is_some() {
            let u = wonder::get(wid);
            let p = effects_points(&u.effects, me, enemy);
            won = add_sat(won, p);
        }
        i = i + 1;
    }
    proof {
        assert(me.wonders@.skip(me.wonders@.len() as int) =~= Seq::<(
            wonder::Id,
            Option<building::Id>,
        )>::empty());
    }

    let mut tok: u8 = 0;
    let mut i: usize = 0;
    proof {
        assert(me.tokens@.skip(0) =~= me.tokens@);
    }
    while i < me.tokens.len()
        invariant
            i <= me.tokens@.len(),
            token_pts_fold(me.tokens@.skip(i as int), *me, *enemy, tok as int) == token_pts_fold(
                me.tokens@,
                *me,
                *enemy,
                0,
            ),
        decreases me.tokens@.len() - i,
    {
        proof {
            assert(me.tokens@.skip(i as int)[0] == me.tokens@[i as int]);
            assert(me.tokens@.skip(i as int).drop_first() =~= me.tokens@.skip(i + 1));
        }
        let u = token::get(me.tokens[i]);
        let p = effects_points(&u.effects, me, enemy);
        tok = add_sat(tok, p);
        i = i + 1;
    }
    proof {
        assert(me.tokens@.skip(me.tokens@.len() as int) =~= Seq::<token::Id>::empty());
    }

    let coin = me.coins / COINS_PER_POINT;
    let mil = me.track.get_points();
    let total = add_sat(
        add_sat(add_sat(add_sat(add_sat(add_sat(add_sat(civ, sci), com), gld), won), tok), coin),
        mil,
    );
    Score {
        civilian: civ,
        science: sci,
        commercial: com,
        guilds: gld,
        wonders: won,
        tokens: tok,
        coins: coin,
        military: mil,
        total,
    }
}

/// The price shown for one playable building: free through a chain, else
/// the bank's clamped price for its cost.
pub open spec fn spec_building_price(id: building::Id, c: City) -> (building::Id, Coins) {
    (
        id,
        if c.chains@.contains(id) {
            0u8
        } else {
            cap255(
                spec_price(c.bank, spec_pay_scope(id), building::spec_cost(id)),
            ) as u8
        },
    )
}

pub open spec fn spec_buildings_price(pl: Seq<building::Id>, c: City) -> Seq<(
    building::Id,
    Coins,
)> {
    pl.map_values(|id: building::Id| spec_building_price(id, c))
}

/// The price shown for each wonder still unbuilt, in hand order.
pub open spec fn spec_wonders_price(ws: Seq<(wonder::Id, Option<building::Id>)>, c: City)
    -> Seq<(wonder::Id, Coins)>
    decreases ws.len(),
{
    if ws.len() == 0 {
        Seq::empty()
    } else {
        let rest = spec_wonders_price(ws.drop_first(), c);
        if ws[0].1 is Some {
            rest
        } else {
            seq![
                (
                    ws[0].0,
                    cap255(
                        spec_price(c.bank, PayScope::Wonders, wonder::spec_cost(ws[0].0)),
                    ) as u8,
                ),
            ] + rest
        }
    }
}

pub(crate) fn contains_building(v: &Vec<building::Id>, id: building::Id) -> (b: bool)
    ensures
        b == v@.contains(id),
{
    let n = v.len();
    let mut i: usize = 0;
    while i < n
        invariant
            n == v@.len(),
            i <= n,
            forall|j: int| 0 <= j < i ==> v@[j] != id,
        decreases n - i,
    {
        if v[i] == id {
            return true;
        }
        i = i + 1;
    }
    false
}

/// Price every playable building for one city.
fn buildings_price_for(playable: &Vec<building::Id>, c: &City) -> (r: Vec<(
    building::Id,
    Coins,
)>)
    ensures
        r@ =~= spec_buildings_price(playable@, *c),
{
    let mut out: Vec<(building::Id, Coins)> = Vec::new();
    let mut i: usize = 0;
    while i < playable.len()
        invariant
            i <= playable@.len(),
            out@.len() == i,
            forall|k: int| 0 <= k < i ==> out@[k] == spec_building_price(playable@[k], *c),
        decreases playable@.len() - i,
    {
        let id = playable[i];
        if contains_building(&c.chains, id) {
            out.push((id, 0));
        } else {
            let u = building::get(id);
            let price = c.bank.get_price(PayScope::from_building(id), u.cost);
            out.push((id, price));
        }
        i = i + 1;
    }
    out
}

/// Price every unbuilt wonder for one city.
fn wonders_price_for(c: &City) -> (r: Vec<(wonder::Id, Coins)>)
    ensures
        r@ =~= spec_wonders_price(c.wonders@, *c),
{
    let mut out: Vec<(wonder::Id, Coins)> = Vec::new();
    let mut i: usize = 0;
    proof {
        assert(c.wonders@.skip(0) =~= c.wonders@);
    }
    while i < c.wonders.len()
        invariant
            i <= c.wonders@.len(),
            spec_wonders_price(c.wonders@, *c) =~= out@ + spec_wonders_price(
                c.wonders@.skip(i as int),
                *c,
            ),
        decreases c.wonders@.len() - i,
    {
        proof {
            assert(c.wonders@.skip(i as int)[0] == c.wonders@[i as int]);
            assert(c.wonders@.skip(i as int).drop_first() =~= c.wonders@.skip(i + 1));
        }
        let (wid, built) = c.wonders[i];
        if built.is_none() {
            let u = wonder::get(wid);
            let price = c.bank.get_price(PayScope::Wonders, u.cost);
            out.push((wid, price));
        }
        i = i + 1;
    }
    proof {
        assert(c.wonders@.skip(c.wonders@.len() as int) =~= Seq::<(
            wonder::Id,
            Option<building::Id>,
        )>::empty());
        assert(out@ + Seq::<(wonder::Id, Coins)>::empty() =~= out@);
    }
    out
}

/// Rebuild the public layout and the playable set from the deck.
pub fn refresh_buildings(s: &mut State)
    ensures
        *final(s) == (State {
            buildings: Buildings {
                layout: final(s).buildings.layout,
                playable: final(s).buildings.playable,
                discarded: old(s).buildings.discarded,
            },
            ..*old(s)
        }),
        final(s).buildings.playable@ == playable_of(old(s).deck.graph@),
        final(s).buildings.layout@ == crate::deck::spec_public_layout(
            old(s).deck.graph@,
            old(s).deck.face_down@,
            old(s).deck.buildings@,
        ),
{
    let layout = s.deck.get_public_layout();
    proof {
        assert(layout@ =~= crate::deck::spec_public_layout(
            s.deck.graph@,
            s.deck.face_down@,
            s.deck.buildings@,
        ));
    }
    s.buildings.layout = layout;
    s.buildings.playable = s.deck.get_playable_buildings();
}

/// What one turn-boundary refresh does: both cities' scores are recomputed
/// from the state as it stood, both price caches are rebuilt, and nothing
/// else changes.
pub open spec fn refreshed(pre: State, post: State) -> bool {
    &&& post == (State {
        me_city: City {
            score: spec_score(pre.me_city, pre.enemy_city),
            bank: Bank {
                building_price: post.me_city.bank.building_price,
                wonder_price: post.me_city.bank.wonder_price,
                ..pre.me_city.bank
            },
            ..pre.me_city
        },
        enemy_city: City {
            score: spec_score(pre.enemy_city, pre.me_city),
            bank: Bank {
                building_price: post.enemy_city.bank.building_price,
                wonder_price: post.enemy_city.bank.wonder_price,
                ..pre.enemy_city.bank
            },
            ..pre.enemy_city
        },
        ..pre
    })
    &&& post.me_city.bank.building_price@ == spec_buildings_price(
        pre.buildings.playable@,
        pre.me_city,
    )
    &&& post.me_city.bank.wonder_price@ == spec_wonders_price(pre.me_city.wonders@, pre.me_city)
    &&& post.enemy_city.bank.building_price@ == spec_buildings_price(
        pre.buildings.playable@,
        pre.enemy_city,
    )
    &&& post.enemy_city.bank.wonder_price@ == spec_wonders_price(
        pre.enemy_city.wonders@,
        pre.enemy_city,
    )
}

/// Everything a city's score is computed from; the cached score and prices
/// themselves are not among it.
pub open spec fn score_inputs(c: City) -> (
    Seq<building::Id>,
    Seq<(wonder::Id, Option<building::Id>)>,
    Seq<token::Id>,
    Coins,
    Track,
) {
    (c.buildings@, c.wonders@, c.tokens@, c.coins, c.track)
}

proof fn lemma_bonus_rate_inputs(a1: City, b1: City, a2: City, b2: City, b: Bonus)
    requires
        score_inputs(a1) == score_inputs(a2),
        score_inputs(b1) == score_inputs(b2),
    ensures
        spec_bonus_rate(a1, b) == spec_bonus_rate(a2, b),
        spec_guild_rate(a1, b1, b) == spec_guild_rate(a2, b2, b),
{
}

proof fn lemma_pts_fold_inputs(es: Seq<Effect>, a1: City, b1: City, a2: City, b2: City,
    acc: int)
    requires
        score_inputs(a1) == score_inputs(a2),
        score_inputs(b1) == score_inputs(b2),
    ensures
        pts_fold(es, a1, b1, acc) == pts_fold(es, a2, b2, acc),
    decreases es.len(),
{
    if es.len() > 0 {
        match es[0] {
            Effect::Guild(b, _, _) => {
                lemma_bonus_rate_inputs(a1, b1, a2, b2, b);
            },
            _ => {},
        }
        assert(spec_effect_points(es[0], a1, b1) == spec_effect_points(es[0], a2, b2));
        lemma_pts_fold_inputs(
            es.drop_first(),
            a1,
            b1,
            a2,
            b2,
            cap255(acc + spec_effect_points(es[0], a1, b1)),
        );
    }
}

proof fn lemma_cat_fold_inputs(ids: Seq<building::Id>, a1: City, b1: City, a2: City, b2: City,
    civ: int, sci: int, com: int, gld: int)
    requires
        score_inputs(a1) == score_inputs(a2),
        score_inputs(b1) == score_inputs(b2),
    ensures
        cat_fold(ids, a1, b1, civ, sci, com, gld) == cat_fold(ids, a2, b2, civ, sci, com, gld),
    decreases ids.len(),
{
    if ids.len() > 0 {
        lemma_pts_fold_inputs(building::spec_effects(ids[0]), a1, b1, a2, b2, 0);
        let p = pts_fold(building::spec_effects(ids[0]), a1, b1, 0);
        let k = building::spec_kind(ids[0]);
        lemma_cat_fold_inputs(
            ids.drop_first(),
            a1,
            b1,
            a2,
            b2,
            if k == building::Kind::Civilian {
                cap255(civ + p)
            } else {
                civ
            },
            if k == building::Kind::Scientific {
                cap255(sci + p)
            } else {
                sci
            },
            if k == building::Kind::Commercial {
                cap255(com + p)
            } else {
                com
            },
            if k == building::Kind::Guild {
                cap255(gld + p)
            } else {
                gld
            },
        );
    }
}

proof fn lemma_wonder_pts_inputs(ws: Seq<(wonder::Id, Option<building::Id>)>, a1: City,
    b1: City, a2: City, b2: City, acc: int)
    requires
        score_inputs(a1) == score_inputs(a2),
        score_inputs(b1) == score_inputs(b2),
    ensures
        wonder_pts_fold(ws, a1, b1, acc) == wonder_pts_fold(ws, a2, b2, acc),
    decreases ws.len(),
{
    if ws.len() > 0 {
        lemma_pts_fold_inputs(wonder::spec_effects(ws[0].0), a1, b1, a2, b2, 0);
        let a_next = if ws[0].1 is Some {
            cap255(acc + pts_fold(wonder::spec_effects(ws[0].0), a1, b1, 0))
        } else {
            acc
        };
        lemma_wonder_pts_inputs(ws.drop_first(), a1, b1, a2, b2, a_next);
    }
}

proof fn lemma_token_pts_inputs(ts: Seq<token::Id>, a1: City, b1: City, a2: City, b2: City,
    acc: int)
    requires
        score_inputs(a1) == score_inputs(a2),
        score_inputs(b1) == score_inputs(b2),
    ensures
        token_pts_fold(ts, a1, b1, acc) == token_pts_fold(ts, a2, b2, acc),
    decreases ts.len(),
{
    if ts.len() > 0 {
        lemma_pts_fold_inputs(token::spec_effects(ts[0]), a1, b1, a2, b2, 0);
        lemma_token_pts_inputs(
            ts.drop_first(),
            a1,
            b1,
            a2,
            b2,
            cap255(acc + pts_fold(token::spec_effects(ts[0]), a1, b1, 0)),
        );
    }
}

/// A score depends only on the cities' holdings, coins and conflict
/// positions, never on previously cached scores or prices.
pub proof fn lemma_score_inputs(me1: City, enemy1: City, me2: City, enemy2: City)
    requires
        score_inputs(me1) == score_inputs(me2),
        score_inputs(enemy1) == score_inputs(enemy2),
    ensures
        spec_score(me1, enemy1) == spec_score(me2, enemy2),
{
    lemma_cat_fold_inputs(me1.buildings@, me1, enemy1, me2, enemy2, 0, 0, 0, 0);
    lemma_wonder_pts_inputs(me1.wonders@, me1, enemy1, me2, enemy2, 0);
    lemma_token_pts_inputs(me1.tokens@, me1, enemy1, me2, enemy2, 0);
}

/// Scoring idempotence: recomputing both scores twice in a row, with no
/// action in between, yields the same snapshots the first pass produced.
pub proof fn lemma_scoring_idempotent(s0: State, s1: State, s2: State)
    requires
        refreshed(s0, s1),
        refreshed(s1, s2),
    ensures
        s2.me_city.score == s1.me_city.score,
        s2.enemy_city.score == s1.enemy_city.score,
{
    lemma_score_inputs(s1.me_city, s1.enemy_city, s0.me_city, s0.enemy_city);
    lemma_score_inputs(s1.enemy_city, s1.me_city, s0.enemy_city, s0.me_city);
}

/// Recompute both cities' cached prices and scores, from the state as it
/// stood at the call.
pub fn refresh_cities(s: &mut State)
    ensures
        refreshed(*old(s), *final(s)),
        *final(s) == (State {
            me_city: City {
                score: spec_score(old(s).me_city, old(s).enemy_city),
                bank: Bank {
                    building_price: final(s).me_city.bank.building_price,
                    wonder_price: final(s).me_city.bank.wonder_price,
                    ..old(s).me_city.bank
                },
                ..old(s).me_city
            },
            enemy_city: City {
                score: spec_score(old(s).enemy_city, old(s).me_city),
                bank: Bank {
                    building_price: final(s).enemy_city.bank.building_price,
                    wonder_price: final(s).enemy_city.bank.wonder_price,
                    ..old(s).enemy_city.bank
                },
                ..old(s).enemy_city
            },
            ..*old(s)
        }),
        final(s).me_city.bank.building_price@ == spec_buildings_price(
            old(s).buildings.playable@,
            old(s).me_city,
        ),
        final(s).me_city.bank.wonder_price@ == spec_wonders_price(
            old(s).me_city.wonders@,
            old(s).me_city,
        ),
        final(s).enemy_city.bank.building_price@ == spec_buildings_price(
            old(s).buildings.playable@,
            old(s).enemy_city,
        ),
        final(s).enemy_city.bank.wonder_price@ == spec_wonders_price(
            old(s).enemy_city.wonders@,
            old(s).enemy_city,
        ),
{
    let bp_me = buildings_price_for(&s.buildings.playable, &s.me_city);
    let wp_me = wonders_price_for(&s.me_city);
    let sc_me = score_of(&s.me_city, &s.enemy_city);
    let bp_en = buildings_price_for(&s.buildings.playable, &s.enemy_city);
    let wp_en = wonders_price_for(&s.enemy_city);
    let sc_en = score_of(&s.enemy_city, &s.me_city);
    s.me_city.bank.building_price = bp_me;
    s.me_city.bank.wonder_price = wp_me;
    s.me_city.score = sc_me;
    s.enemy_city.bank.building_price = bp_en;
    s.enemy_city.bank.wonder_price = wp_en;
    s.enemy_city.score = sc_en;
}

/// The winner by the current score snapshots: higher total, then higher
/// civilian score, then the player who started the game.
pub open spec fn spec_resolved_winner(s: State) -> Nickname {
    if s.me_city.score.total > s.enemy_city.score.total {
        s.players.me
    } else if s.me_city.score.total < s.enemy_city.score.total {
        s.players.enemy
    } else if s.me_city.score.civilian > s.enemy_city.score.civilian {
        s.players.me
    } else if s.me_city.score.civilian < s.enemy_city.score.civilian {
        s.players.enemy
    } else if s.players.me == s.players.starts {
        s.players.me
    } else {
        s.players.enemy
    }
}

/// Decide the civilian-victory winner from the current score snapshots.
pub fn resolve_winner(s: &State) -> (w: Nickname)
    ensures
        w == spec_resolved_winner(*s),
{
    if s.me_city.score.total > s.enemy_city.score.total {
        s.players.me
    } else if s.me_city.score.total < s.enemy_city.score.total {
        s.players.enemy
    } else if s.me_city.score.civilian > s.enemy_city.score.civilian {
        s.players.me
    } else if s.me_city.score.civilian < s.enemy_city.score.civilian {
        s.players.enemy
    } else if s.players.me == s.players.starts {
        s.players.me
    } else {
        s.players.enemy
    }
}

/// The blank pre-game state, pinned to its mathematical content: nothing
/// dealt, nobody acting, both cities freshly seeded.
pub open spec fn initial_state(s: State) -> bool {
    &&& s.age == Age::I
    &&& s.phase == Phase::Unstarted
    &&& s.players == (Players { starts: 0u64, me: 0u64, enemy: 0u64, fallback: None })
    &&& s.progress_tokens@.len() == 0
    &&& s.buildings.layout@.len() == 0
    &&& s.buildings.playable@.len() == 0
    &&& s.buildings.discarded@.len() == 0
    &&& s.interactive_units.wonders@.len() == 0
    &&& s.interactive_units.buildings@.len() == 0
    &&& s.interactive_units.tokens@.len() == 0
    &&& s.post_effects@.len() == 0
    &&& !s.play_again
    &&& s.finish is None
    &&& s.deck.graph@.len() == 0
    &&& s.deck.buildings@.len() == 0
    &&& s.deck.scheme@.len() == 0
    &&& s.deck.face_down@.len() == 0
    &&& s.random_units.buildings1@.len() == 0
    &&& s.random_units.buildings2@.len() == 0
    &&& s.random_units.buildings3@.len() == 0
    &&& s.random_units.tokens@.len() == 0
    &&& s.random_units.wonders@.len() == 0
    &&& city_initial(s.me_city)
    &&& city_initial(s.enemy_city)
}

impl Default for State {
    /// The blank pre-game state: nothing dealt, nobody acting.
    fn default() -> (s: Self)
        ensures
            s.age == Age::I,
            s.phase == Phase::Unstarted,
            s.players == (Players { starts: 0u64, me: 0u64, enemy: 0u64, fallback: None }),
            s.progress_tokens@.len() == 0,
            s.buildings.layout@.len() == 0,
            s.buildings.playable@.len() == 0,
            s.buildings.discarded@.len() == 0,
            s.interactive_units.wonders@.len() == 0,
            s.interactive_units.buildings@.len() == 0,
            s.interactive_units.tokens@.len() == 0,
            s.post_effects@.len() == 0,
            !s.play_again,
            (s.finish is None),
            s.deck.graph@.len() == 0,
            s.deck.buildings@.len() == 0,
            s.deck.scheme@.len() == 0,
            s.deck.face_down@.len() == 0,
            s.random_units.buildings1@.len() == 0,
            s.random_units.buildings2@.len() == 0,
            s.random_units.buildings3@.len() == 0,
            s.random_units.tokens@.len() == 0,
            s.random_units.wonders@.len() == 0,
            city_initial(s.me_city),
            city_initial(s.enemy_city),
            s.wf(),
            initial_state(s),
    {
        State {
            age: Age::I,
            phase: Phase::Unstarted,
            players: Players::default(),
            me_city: City::default(),
            enemy_city: City::default(),
            progress_tokens: Vec::new(),
            buildings: Buildings::empty(),
            interactive_units: Units::empty(),
            post_effects: Vec::new(),
            play_again: false,
            finish: None,
            deck: Deck::empty(),
            random_units: RandomUnits::empty(),
        }
    }
}

impl State {
    /// Advance the turn at the end of an action.  When an age just ran out
    /// of cards, enter the next-age selection: military parity keeps the
    /// current player; an opponent without military advantage is forced to
    /// take the turn; otherwise the current player keeps the choice.  In the
    /// normal flow an extra-turn flag is consumed once, else the turn
    /// alternates.
    fn resolve_next_turn(&mut self)
        ensures
            *final(self) == next_turn_resolved(*old(self)),
    {
        if self.deck.is_empty() && !self.age.is_last() {
            self.phase = Phase::WhoBeginsTheNextAgeSelection;
            self.play_again = false;

            if self.me_city.track.pos == self.enemy_city.track.pos {
                return;
            }
            if self.enemy_city.track.pos == 0 {
                self.next_turn();
            }
            return;
        }

        if self.play_again {
            self.play_again = false;
            return;
        }

        self.next_turn();
    }
}

fn copy_ids(v: &Vec<building::Id>) -> (r: Vec<building::Id>)
    ensures
        r@ == v@,
{
    let mut out: Vec<building::Id> = Vec::new();
    let mut i: usize = 0;
    while i < v.len()
        invariant
            i <= v@.len(),
            out@ =~= v@.take(i as int),
        decreases v@.len() - i,
    {
        out.push(v[i]);
        proof {
            assert(out@ =~= v@.take(i + 1));
        }
        i = i + 1;
    }
    proof {
        assert(v@.take(v@.len() as int) =~= v@);
    }
    out
}

/// The city of the named player, whichever seat they currently occupy.
pub open spec fn city_of(s: State, n: Nickname) -> City {
    if n == s.players.me {
        s.me_city
    } else {
        s.enemy_city
    }
}

/// What turn-boundary resolution may change about one city: only its score
/// snapshot and its two cached price lists.
pub open spec fn city_keeps(pre: City, post: City) -> bool {
    post == (City {
        score: post.score,
        bank: Bank {
            building_price: post.bank.building_price,
            wonder_price: post.bank.wonder_price,
            ..pre.bank
        },
        ..pre
    })
}

/// What turn advancement decides at the end of an action.  When the age
/// just ran out of cards, enter the next-age selection: military parity
/// keeps the current player, an opponent without military advantage is
/// forced to take the turn, otherwise the current player keeps the choice.
/// In the normal flow an extra-turn flag is consumed once, else the turn
/// alternates.
pub open spec fn next_turn_resolved(pre: State) -> State {
    let de = pre.deck.graph@.len() == 0;
    let last = pre.age == Age::III;
    if de && !last {
        let mid = State {
            phase: Phase::WhoBeginsTheNextAgeSelection,
            play_again: false,
            ..pre
        };
        if pre.me_city.track.pos == pre.enemy_city.track.pos {
            mid
        } else if pre.enemy_city.track.pos == 0 {
            swapped(mid)
        } else {
            mid
        }
    } else if pre.play_again {
        State { play_again: false, ..pre }
    } else {
        swapped(pre)
    }
}

/// A turn-boundary refresh of the whole board: the public layout and the
/// playable set are rebuilt from the deck, then both cities' scores and
/// price caches are recomputed against the new playable set.
pub open spec fn boards_refreshed(pre: State, post: State) -> bool {
    exists|mid: State| {
        &&& #[trigger] refreshed(mid, post)
        &&& mid == (State {
            buildings: (Buildings {
                layout: mid.buildings.layout,
                playable: mid.buildings.playable,
                discarded: pre.buildings.discarded,
            }),
            ..pre
        })
        &&& mid.buildings.playable@ == playable_of(pre.deck.graph@)
        &&& mid.buildings.layout@ == crate::deck::spec_public_layout(
            pre.deck.graph@,
            pre.deck.face_down@,
            pre.deck.buildings@,
        )
    }
}

/// When no cards are left and the age is not the last: the age advances and
/// the next age's hidden pool is dealt into its template.  Otherwise
/// nothing changes.  A queued post-effect postpones the roll.
pub open spec fn age_advanced(t: State, u: State, had_post: bool) -> bool {
    if !had_post && t.deck.graph@.len() == 0 && t.age != Age::III {
        let na = t.age.spec_next();
        &&& u == (State { age: na, deck: u.deck, ..t })
        &&& crate::deck::deck_dealt(
            u.deck,
            crate::deck::spec_layout(na),
            t.random_units.spec_for_age(na),
        )
    } else {
        u == t
    }
}

/// Pop the head of the post-effect queue and resolve it, first saving the
/// current turn as the fallback if none is saved yet.
pub open spec fn post_popped(v: State, w: State) -> bool {
    exists|m: State| {
        &&& #[trigger] crate::effect::post_effect_apply_spec(v.post_effects@[0], m, w)
        &&& m == (State {
            players: (Players {
                fallback: if v.players.fallback is None {
                    Some(v.players.me)
                } else {
                    v.players.fallback
                },
                ..v.players
            }),
            post_effects: m.post_effects,
            ..v
        })
        &&& m.post_effects@ == v.post_effects@.drop_first()
    }
}

/// Once the post-effect queue has drained, the saved turn is restored: the
/// phase returns to the normal turn and the recorded player acts, unless
/// the next-age selection intervened; the snapshot is cleared either way.
pub open spec fn fallback_restored(v: State, w: State) -> bool {
    if v.players.fallback is None {
        w == v
    } else if v.phase == Phase::WhoBeginsTheNextAgeSelection {
        w == (State { players: (Players { fallback: None, ..v.players }), ..v })
    } else {
        let t = with_turn(State { phase: Phase::Turn, ..v }, v.players.fallback->0);
        w == (State { players: (Players { fallback: None, ..t.players }), ..t })
    }
}

/// The queue step of turn resolution: resolve the head if one was queued at
/// entry, else restore the saved turn.
pub open spec fn post_stage(had_post: bool, v: State, w: State) -> bool {
    if had_post {
        post_popped(v, w)
    } else {
        fallback_restored(v, w)
    }
}

/// The closing check of turn resolution: when the last age has run out of
/// cards and play is back to a normal turn, the game ends as a civilian
/// victory for the player the score snapshots resolve.
pub open spec fn final_over_checked(w: State, post: State) -> bool {
    if w.deck.graph@.len() == 0 && w.age == Age::III && w.phase == Phase::Turn {
        post == spec_over(w, Finisher::Winner(spec_resolved_winner(w)), Victory::Civilian)
    } else {
        post == w
    }
}

/// Exactly what one turn-boundary resolution does.  A finished game is left
/// alone.  A last age that has run out of cards with nothing queued ends
/// the game at once, on the scores already cached.  Otherwise the turn is
/// advanced, the age rolls over and the next deck is dealt when due, the
/// layout, playable set, prices and scores are refreshed, one queued
/// post-effect is resolved (saving the turn to fall back to) or the saved
/// turn is restored, and a game left on its last empty-deck turn ends.
/// One run through the main path of turn resolution, staged by its three
/// intermediate states: `u` after the age roll, `v` after the board
/// refresh, `w` after the queue step.
pub open spec fn stage_witness(pre: State, u: State, v: State, w: State, post: State) -> bool {
    let hp = pre.post_effects@.len() > 0;
    &&& age_advanced(next_turn_resolved(pre), u, hp)
    &&& boards_refreshed(u, v)
    &&& post_stage(hp, v, w)
    &&& final_over_checked(w, post)
}

/// The main path of turn resolution: turn advancement, the age roll, the
/// board refresh, the queue step, and the closing check, in that order.
pub open spec fn after_stages(pre: State, post: State) -> bool {
    exists|u: State, v: State, w: State| #[trigger] stage_witness(pre, u, v, w, post)
}

pub open spec fn after_spec(pre: State, post: State) -> bool {
    if pre.phase == Phase::Over {
        post == pre
    } else if pre.age == Age::III && pre.phase == Phase::Turn && pre.deck.graph@.len() == 0
        && pre.post_effects@.len() == 0 {
        post == spec_over(pre, Finisher::Winner(spec_resolved_winner(pre)), Victory::Civilian)
    } else {
        after_stages(pre, post)
    }
}

/// Turn-boundary resolution, run once per completed action: detect the end
/// of the game, advance the turn or enter the next-age selection, roll the
/// age and deal the next deck when due, refresh the derived layout, prices
/// and scores, then either resolve one queued post-effect (saving the turn
/// to fall back to) or restore the saved turn.  Each player keeps their
/// city, whichever seat it ends in, with only its score and price caches
/// recomputed; the discard pile and the two identities survive as well.
#[verifier::rlimit(100)]
pub fn after(s: &mut State)
    requires
        old(s).wf(),
        old(s).phase != Phase::Unstarted,
    ensures
        after_spec(*old(s), *final(s)),
        final(s).wf(),
        final(s).phase != Phase::Unstarted,
        old(s).phase == Phase::Over ==> *final(s) == *old(s),
        final(s).phase == Phase::Over || final(s).buildings.playable@ == playable_of(
            final(s).deck.graph@,
        ),
        old(s).phase != Phase::Over && final(s).phase != Phase::Over ==> {
            &&& final(s).buildings.playable@ == playable_of(final(s).deck.graph@)
            &&& final(s).buildings.layout@ == crate::deck::spec_public_layout(
                final(s).deck.graph@,
                final(s).deck.face_down@,
                final(s).deck.buildings@,
            )
        },
        final(s).buildings.discarded == old(s).buildings.discarded,
        final(s).players.starts == old(s).players.starts,
        final(s).players.me == old(s).players.me || final(s).players.me == old(
            s,
        ).players.enemy,
        final(s).players.me == old(s).players.me ==> final(s).players.enemy == old(
            s,
        ).players.enemy && city_keeps(old(s).me_city, final(s).me_city) && city_keeps(
            old(s).enemy_city,
            final(s).enemy_city,
        ),
        final(s).players.me == old(s).players.enemy && old(s).players.me != old(
            s,
        ).players.enemy ==> final(s).players.enemy == old(s).players.me && city_keeps(
            old(s).me_city,
            final(s).enemy_city,
        ) && city_keeps(old(s).enemy_city, final(s).me_city),
{
    let ghost pre = *s;
    if s.phase == Phase::Over {
        return;
    }

    let has_post = s.post_effects.len() > 0;
    let is_over = s.age.is_last() && s.phase == Phase::Turn && s.deck.is_empty() && !has_post;

    if is_over {
        let w = resolve_winner(s);
        s.over(Finisher::Winner(w), Victory::Civilian);
        return;
    }

    s.resolve_next_turn();
    let ghost t_g = *s;

    if !has_post && s.deck.is_empty() && !s.age.is_last() {
        s.age.next();
        let pool = copy_ids(s.random_units.buildings_for_age(s.age));
        let layout = crate::deck::get_layout(s.age);
        s.deck = Deck::new(&layout, pool);
        proof {
            assert(*s == (State { age: t_g.age.spec_next(), deck: s.deck, ..t_g }));
        }
    }
    let ghost u_g = *s;
    proof {
        assert(age_advanced(t_g, u_g, has_post));
    }

    refresh_buildings(s);
    let ghost rb_g = *s;
    refresh_cities(s);
    let ghost v_g = *s;
    proof {
        assert(refreshed(rb_g, v_g));
        assert(boards_refreshed(u_g, v_g));
    }

    if has_post {
        if s.players.fallback.is_none() {
            s.players.fallback = Some(s.players.me);
        }
        let pe = s.post_effects.remove(0);
        let ghost m_g = *s;
        pe.apply(s);
        proof {
            assert(pe == v_g.post_effects@[0]);
            assert(m_g.post_effects@ =~= v_g.post_effects@.drop_first());
            assert(crate::effect::post_effect_apply_spec(pe, m_g, *s));
            assert(post_popped(v_g, *s));
        }
    } else if s.players.fallback.is_some() {
        let p = s.players.fallback.unwrap();
        if s.phase != Phase::WhoBeginsTheNextAgeSelection {
            s.phase = Phase::Turn;
            s.set_turn(p);
        }
        s.players.fallback = None;
    }
    let ghost w_g = *s;
    proof {
        assert(post_stage(has_post, v_g, w_g));
    }

    if s.deck.is_empty() && s.age.is_last() && s.phase == Phase::Turn {
        let w = resolve_winner(s);
        s.over(Finisher::Winner(w), Victory::Civilian);
    }
    proof {
        let hp = pre.post_effects@.len() > 0;
        let t = next_turn_resolved(pre);
        assert(hp == has_post);
        assert(t == t_g);
        assert(stage_witness(pre, u_g, v_g, w_g, *s)) by {
            assert(age_advanced(t, u_g, hp));
            assert(boards_refreshed(u_g, v_g));
            assert(post_stage(hp, v_g, w_g));
            assert(final_over_checked(w_g, *s));
        }
        assert(after_spec(pre, *s));
    }
}

/// End the game on behalf of a finisher; a later call changes nothing.
pub fn over(s: &mut State, finisher: Finisher, victory: Victory)
    ensures
        *final(s) == spec_over(*old(s), finisher, victory),
{
    s.over(finisher, victory);
}

pub(crate) fn contains_token(v: &Vec<token::Id>, id: token::Id) -> (b: bool)
    ensures
        b == v@.contains(id),
{
    let n = v.len();
    let mut i: usize = 0;
    while i < n
        invariant
            n == v@.len(),
            i <= n,
            forall|j: int| 0 <= j < i ==> v@[j] != id,
        decreases n - i,
    {
        if v[i] == id {
            return true;
        }
        i = i + 1;
    }
    false
}

} // verus!
