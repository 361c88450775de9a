use engine::action::{Action, Setup};
use engine::building::Id as B;
use engine::economy::Resource;
use engine::effect::Effect;
use engine::military::Track;
use engine::state::{get_score, State};
use engine::token::Id as T;
use engine::wonder::Id as W;
use engine::{Error, Options, Phase, Victory};

fn small_setup() -> Setup {
    Setup {
        p1: 1,
        p2: 2,
        wonders: vec![
            W::TheHangingGardens,
            W::TheTempleOfArtemis,
            W::TheColossus,
            W::Messe,
            W::ThePyramids,
            W::StatueOfLiberty,
            W::TheMausoleum,
            W::TheSphinx,
        ],
        board_tokens: vec![T::Economy, T::Agriculture, T::Philosophy, T::Theology, T::Law],
        random_tokens: vec![T::Urbanism, T::Strategy, T::Masonry],
        buildings1: vec![
            B::Palisade,
            B::Theater,
            B::Tavern,
            B::Stable,
            B::Altar,
            B::Workshop,
            B::ClayReserve,
            B::GlassWorks,
            B::LoggingCamp,
            B::LumberYard,
            B::Baths,
            B::Quarry,
            B::ClayPit,
            B::ClayPool,
            B::Scriptorium,
            B::Garrison,
            B::StonePit,
            B::WoodReserve,
            B::Pharmacist,
            B::StoneReserve,
        ],
        buildings2: vec![
            B::Dispensary,
            B::CustomHouse,
            B::CourtHouse,
            B::Caravansery,
            B::GlassBlower,
            B::BrickYard,
            B::School,
            B::Laboratory,
            B::Aqueduct,
            B::ArcheryRange,
            B::ParadeGround,
            B::Brewery,
            B::Statue,
            B::HorseBreeders,
            B::ShelfQuarry,
            B::Library,
            B::Walls,
            B::SawMill,
            B::Barracks,
            B::DryingRoom,
        ],
        buildings3: vec![
            B::Port,
            B::Academy,
            B::Obelisk,
            B::Observatory,
            B::Fortifications,
            B::Palace,
            B::Senate,
            B::Armory,
            B::MagistratesGuild,
            B::MerchantsGuild,
            B::SiegeWorkshop,
            B::ChamberOfCommerce,
            B::Arsenal,
            B::Pretorium,
            B::Arena,
            B::Lighthouse,
            B::Gardens,
            B::Pantheon,
            B::MoneyLendersGuild,
            B::TownHall,
        ],
    }
}

fn drafted_state() -> State {
    let actions = vec![
        Action::Prepare(small_setup()),
        Action::PickWonder(W::TheTempleOfArtemis),
        Action::PickWonder(W::TheHangingGardens),
        Action::PickWonder(W::TheColossus),
        Action::PickWonder(W::Messe),
        Action::PickWonder(W::TheSphinx),
        Action::PickWonder(W::StatueOfLiberty),
        Action::PickWonder(W::TheMausoleum),
        Action::PickWonder(W::ThePyramids),
    ];
    State::from(actions).expect("draft should be legal")
}

/// Snake draft: after the eight picks each player holds exactly four
/// wonders, assigned in the 1-2-2-1 / 2-1-1-2 order, and play begins.
#[test]
fn snake_draft_order_and_counts() {
    let s = drafted_state();
    assert_eq!(s.phase, Phase::Turn);

    // after the draft the first player acts first
    assert_eq!(s.players.me, 1);

    let p1_wonders: Vec<W> = s.me().wonders.iter().map(|(w, _)| *w).collect();
    let p2_wonders: Vec<W> = s.enemy().wonders.iter().map(|(w, _)| *w).collect();
    assert_eq!(p1_wonders.len(), 4);
    assert_eq!(p2_wonders.len(), 4);

    // picks 1, 4, 6, 7 belong to the first player; 2, 3, 5, 8 to the second
    assert_eq!(
        p1_wonders,
        vec![W::TheTempleOfArtemis, W::Messe, W::StatueOfLiberty, W::TheMausoleum],
    );
    assert_eq!(
        p2_wonders,
        vec![W::TheHangingGardens, W::TheColossus, W::TheSphinx, W::ThePyramids],
    );
}

/// A rejected action leaves the state byte-for-byte unchanged.
#[test]
fn rejected_action_changes_nothing() {
    let s0 = drafted_state();
    let mut s = s0.clone();

    // Press was never dealt, so it cannot be playable
    let r = Action::ConstructBuilding(B::Press).apply(&mut s);
    assert_eq!(r, Err(Error::ActionNotAllowed));
    assert_eq!(s, s0);

    // a pick in the wrong phase is rejected too
    let r = Action::PickWonder(W::TheColossus).apply(&mut s);
    assert_eq!(r, Err(Error::ActionNotAllowed));
    assert_eq!(s, s0);
}

/// Constructing a card outside the playable set fails and leaves the
/// playable set as it was.
#[test]
fn construct_unplayable_not_allowed() {
    let mut s = drafted_state();
    let playable_before = s.buildings.playable.clone();
    assert!(!playable_before.contains(&B::Palisade)); // top row: still covered

    let r = Action::ConstructBuilding(B::Palisade).apply(&mut s);
    assert_eq!(r, Err(Error::ActionNotAllowed));
    assert_eq!(s.buildings.playable, playable_before);
}

/// A payment shortfall reports the coin error and changes nothing.
#[test]
fn payment_shortfall_not_enough_coins() {
    let mut s = drafted_state();
    s.me_city.coins = 0;
    let s0 = s.clone();

    assert!(s.buildings.playable.contains(&B::StoneReserve));
    let r = Action::ConstructBuilding(B::StoneReserve).apply(&mut s);
    assert_eq!(r, Err(Error::NotEnoughCoins));
    assert_eq!(s, s0);
}

/// Replaying the same action log from the same setup reproduces the state.
#[test]
fn replay_is_deterministic() {
    let a = drafted_state();
    let b = drafted_state();
    assert_eq!(a, b);
}

/// Recomputing a score without an intervening action yields the same
/// snapshot.
#[test]
fn scoring_recompute_is_stable() {
    let s = drafted_state();
    assert_eq!(get_score(&s), get_score(&s));
    assert_eq!(get_score(&s), s.me().score);
}

/// The conflict pawn is zero-sum and zone fines fire once.
#[test]
fn conflict_pawn_zero_sum_and_fines() {
    let mut me = Track::default();
    let mut enemy = Track { pos: 2, max_zone: 1 };

    // power cancels the enemy position first
    let (fine, supremacy) = me.move_conflict_pawn(&mut enemy, 1);
    assert_eq!((me.pos, enemy.pos), (0, 1));
    assert_eq!((fine, supremacy), (0, false));

    // the remainder advances, entering zone two: a one-time fine of 2
    let (fine, supremacy) = me.move_conflict_pawn(&mut enemy, 4);
    assert_eq!((me.pos, enemy.pos), (3, 0));
    assert_eq!((fine, supremacy), (2, false));
    assert!(me.pos == 0 || enemy.pos == 0);

    // the same zone never fines twice
    let (fine, _) = me.move_conflict_pawn(&mut enemy, 1);
    assert_eq!(me.pos, 4);
    assert_eq!(fine, 0);

    // reaching the capital clamps and signals supremacy, after zone three's
    // one-time fine
    let (fine, supremacy) = me.move_conflict_pawn(&mut enemy, 9);
    assert_eq!(me.pos, 9);
    assert_eq!((fine, supremacy), (5, true));
}

/// Resigning ends the game at once; the opponent wins.
#[test]
fn resign_ends_game() {
    let mut s = drafted_state();
    let r = Action::Resign(1).apply(&mut s);
    assert_eq!(r, Ok(()));
    assert_eq!(s.phase, Phase::Over);
    let finish = s.finish.expect("resigned game has a result");
    assert_eq!(finish.winner, 2);
    assert_eq!(finish.victory, Victory::Resign);
}

/// A setup with both seats given to one player is rejected.
#[test]
fn prepare_rejects_aliased_players() {
    let mut setup = small_setup();
    setup.p2 = 1;
    let r = State::from(vec![Action::Prepare(setup)]);
    assert_eq!(r.err(), Some(Error::ActionNotAllowed));
}

/// The random draws hand back fresh pools of the documented sizes, not
/// their inputs.
#[test]
fn random_draws_have_documented_shapes() {
    let wonders = Setup::get_random_wonders(&Options { with_promo_wonders: false });
    assert_eq!(wonders.len(), 8);
    for (i, w) in wonders.iter().enumerate() {
        assert!(*w != W::Messe && *w != W::StatueOfLiberty);
        for other in wonders.iter().skip(i + 1) {
            assert!(w != other);
        }
    }

    let (board, hidden) = Setup::get_random_tokens();
    assert_eq!(board.len(), 5);
    assert_eq!(hidden.len(), 5);
    for t in board.iter() {
        assert!(!hidden.contains(t));
    }

    let setup = Setup::new(7, 9, Options::default());
    assert!((setup.p1, setup.p2) == (7, 9) || (setup.p1, setup.p2) == (9, 7));
    assert_eq!(setup.buildings1.len(), 20);
    assert_eq!(setup.buildings2.len(), 20);
    assert_eq!(setup.buildings3.len(), 20);
}

/// Each random deal holds twenty distinct cards of its own age; the last
/// age merges exactly three guilds into a tail behind seventeen ordinary
/// cards.
#[test]
fn random_deals_match_their_ages() {
    let (d1, d2, d3) = Setup::get_random_buildings();
    assert_eq!(d1.len(), 20);
    assert_eq!(d2.len(), 20);
    assert_eq!(d3.len(), 20);
    for deal in [&d1, &d2, &d3] {
        for (i, b) in deal.iter().enumerate() {
            for other in deal.iter().skip(i + 1) {
                assert!(b != other);
            }
        }
    }
    for b in d1.iter() {
        assert_eq!(engine::building::get(*b).age, engine::Age::I);
    }
    for b in d2.iter() {
        assert_eq!(engine::building::get(*b).age, engine::Age::II);
    }
    for (i, b) in d3.iter().enumerate() {
        let unit = engine::building::get(*b);
        assert_eq!(unit.age, engine::Age::III);
        if i < 17 {
            assert!(unit.kind != engine::building::Kind::Guild);
        } else {
            assert_eq!(unit.kind, engine::building::Kind::Guild);
        }
    }
}

/// Rolling a resource producer back clamps the stock at zero and re-derives
/// the opponent's floating price for that kind from the reduced stock.
#[test]
fn rollback_rederives_opponent_price() {
    let mut s = drafted_state();
    Effect::Resource(Resource::Wood, 2).apply(&mut s);
    assert_eq!(s.me_city.resources.get(Resource::Wood), 2);
    assert_eq!(s.enemy_city.bank.resource_price.get(Resource::Wood), 4);
    Effect::Resource(Resource::Wood, 2).rollback(&mut s);
    assert_eq!(s.me_city.resources.get(Resource::Wood), 0);
    assert_eq!(s.enemy_city.bank.resource_price.get(Resource::Wood), 2);
}

/// The discard reward starts at two coins and rises with the adjuster.
#[test]
fn discard_rewards_coins() {
    let mut s = drafted_state();
    let coins_before = s.me().coins;
    let r = Action::DiscardBuilding(B::Scriptorium).apply(&mut s);
    assert_eq!(r, Ok(()));
    // the discarding player handed the turn over; their city is now enemy
    assert_eq!(s.enemy().coins, coins_before + 2);
    assert!(s.buildings.discarded.contains(&B::Scriptorium));
}
