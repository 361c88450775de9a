//! Rules engine for a two-player card-drafting civilization game played over
//! three ages.  A caller supplies an already-shuffled `Setup`, then feeds a
//! serial log of `Action`s; the engine validates each action against the
//! current `State`, mutates it atomically, and resolves turns, ages and
//! victory.

use vstd::prelude::*;

pub mod action;
pub mod building;
pub mod deck;
pub mod economy;
pub mod effect;
pub mod military;
pub mod state;
pub mod token;
pub mod wonder;

verus! {

/// Player identity, chosen by the caller.
pub type Nickname = u64;

/// Coin amounts, victory points: both are small unsigned quantities.
pub type Coins = u8;

pub type Points = u8;

pub const DEFAULT_RESOURCE_PRICE: u8 = 2;

pub const DEFAULT_DISCARD_REWARD: u8 = 2;

pub const STARTING_CITY_COINS: u8 = 7;

pub const STARTING_TOKENS_COUNT: usize = 5;

pub const RANDOM_TOKENS_COUNT: usize = 5;

pub const WONDER_SELECTION_POOL_SIZE: u8 = 4;

pub const WONDER_TOTAL_POOL_SIZE: u8 = 8;

pub const WONDERS_CONSTRUCT_LIMIT: u8 = 7;

pub const DECK_LIMIT: u8 = 20;

pub const GUILDS_LIMIT: u8 = 3;

pub const COINS_PER_POINT: u8 = 3;

pub const FIXED_RESOURCE_PRICE: u8 = 1;

pub const SAME_SCIENTIFIC_SYMBOLS_FOR_TOKEN: u8 = 2;

pub const DIFFERENT_SCIENTIFIC_SYMBOLS_FOR_SUPREMACY: u8 = 6;

#[derive(Debug, Copy, Clone, PartialEq, Eq, Structural)]
pub enum Age {
    I,
    II,
    III,
}

impl Age {
    /// The age that follows this one; the last age has no successor.
    pub open spec fn spec_next(self) -> Age {
        match self {
            Age::I => Age::II,
            Age::II => Age::III,
            Age::III => Age::III,
        }
    }

    pub fn next(&mut self)
        ensures
            *final(self) == old(self).spec_next(),
    {
        *self = match *self {
            Age::I => Age::II,
            Age::II => Age::III,
            Age::III => Age::III,
        };
    }

    pub fn is_last(&self) -> (r: bool)
        ensures
            r == (*self == Age::III),
    {
        *self == Age::III
    }
}

#[derive(Debug, Copy, Clone, PartialEq, Eq, Structural)]
pub enum Phase {
    Unstarted,
    Over,
    WondersSelection,
    Turn,
    WhoBeginsTheNextAgeSelection,
    BoardTokenSelection,
    RandomTokenSelection,
    DestructBuildingSelection,
    DiscardedBuildingSelection,
    TopLineBuildingSelection,
    ReturnedBuildingSelection,
}

/// Categories a city can be rewarded for: used by coin bonuses and guilds.
#[derive(Debug, Copy, Clone, PartialEq, Eq, Structural)]
pub enum Bonus {
    Resources,
    RawMaterials,
    ManufacturedGoods,
    Military,
    Commercial,
    Civilian,
    Science,
    Wonder,
    Coin,
}

#[derive(Debug, Copy, Clone, PartialEq, Eq, Structural)]
pub enum ScientificSymbol {
    Astrology,
    Wheel,
    Sundial,
    Mortar,
    Compass,
    Writing,
    Law,
}

#[derive(Debug, Copy, Clone, PartialEq, Eq, Structural)]
pub enum Victory {
    Civilian,
    MilitarySupremacy,
    ScienceSupremacy,
    Resign,
    Timeout,
}

/// How a game ends: either a known winner, or a known loser whose opponent
/// wins.
#[derive(Debug, Copy, Clone, PartialEq, Eq, Structural)]
pub enum Finisher {
    Winner(Nickname),
    Loser(Nickname),
}

/// The only two recoverable failures: an action that the current state does
/// not offer, and a payment the acting city cannot afford.
#[derive(Debug, Copy, Clone, PartialEq, Eq, Structural)]
pub enum Error {
    ActionNotAllowed,
    NotEnoughCoins,
}

/// Caller-side switches for drawing a random wonder pool.
#[derive(Debug, Copy, Clone, PartialEq, Eq, Structural)]
pub struct Options {
    pub with_promo_wonders: bool,
}

impl Default for Options {
    fn default() -> (r: Self)
        ensures
            !r.with_promo_wonders,
    {
        Options { with_promo_wonders: false }
    }
}

} // verus!
