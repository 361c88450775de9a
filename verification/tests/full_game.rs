use engine::action::{Action, Setup};
use engine::building::Id as B;
use engine::state::{Score, State};
use engine::token::Id as T;
use engine::wonder::Id as W;
use engine::{Phase, Victory};

fn game_11_setup() -> Setup {
    Setup {
        p1: 1,
        p2: 2,
        wonders: vec![
            W::TheHangingGardens,
            W::TheTempleOfArtemis,
            W::TheColossus,
            W::Messe,
            W::ThePyramids,
            W::StatueOfLiberty,
            W::TheMausoleum,
            W::TheSphinx,
        ],
        board_tokens: vec![T::Economy, T::Agriculture, T::Philosophy, T::Theology, T::Law],
        random_tokens: vec![T::Urbanism, T::Strategy, T::Masonry],
        buildings1: vec![
            B::Palisade,
            B::Theater,
            B::Tavern,
            B::Stable,
            B::Altar,
            B::Workshop,
            B::ClayReserve,
            B::GlassWorks,
            B::LoggingCamp,
            B::LumberYard,
            B::Baths,
            B::Quarry,
            B::ClayPit,
            B::ClayPool,
            B::Scriptorium,
            B::Garrison,
            B::StonePit,
            B::WoodReserve,
            B::Pharmacist,
            B::StoneReserve,
        ],
        buildings2: vec![
            B::Dispensary,
            B::CustomHouse,
            B::CourtHouse,
            B::Caravansery,
            B::GlassBlower,
            B::BrickYard,
            B::School,
            B::Laboratory,
            B::Aqueduct,
            B::ArcheryRange,
            B::ParadeGround,
            B::Brewery,
            B::Statue,
            B::HorseBreeders,
            B::ShelfQuarry,
            B::Library,
            B::Walls,
            B::SawMill,
            B::Barracks,
            B::DryingRoom,
        ],
        buildings3: vec![
            B::Port,
            B::Academy,
            B::Obelisk,
            B::Observatory,
            B::Fortifications,
            B::Palace,
            B::Senate,
            B::Armory,
            B::MagistratesGuild,
            B::MerchantsGuild,
            B::SiegeWorkshop,
            B::ChamberOfCommerce,
            B::Arsenal,
            B::Pretorium,
            B::Arena,
            B::Lighthouse,
            B::Gardens,
            B::Pantheon,
            B::MoneyLendersGuild,
            B::TownHall,
        ],
    }
}

fn game_11_actions() -> Vec<Action> {
    vec![
        Action::Prepare(game_11_setup()),
        Action::PickWonder(W::TheTempleOfArtemis),
        Action::PickWonder(W::TheHangingGardens),
        Action::PickWonder(W::TheColossus),
        Action::PickWonder(W::Messe),
        Action::PickWonder(W::TheSphinx),
        Action::PickWonder(W::StatueOfLiberty),
        Action::PickWonder(W::TheMausoleum),
        Action::PickWonder(W::ThePyramids),
        Action::ConstructBuilding(B::WoodReserve),
        Action::ConstructBuilding(B::StoneReserve),
        Action::ConstructBuilding(B::Scriptorium),
        Action::ConstructBuilding(B::StonePit),
        Action::ConstructBuilding(B::Quarry),
        Action::DiscardBuilding(B::Garrison),
        Action::ConstructBuilding(B::Pharmacist),
        Action::ConstructBuilding(B::ClayPool),
        Action::ConstructBuilding(B::LumberYard),
        Action::ConstructBuilding(B::Baths),
        Action::DiscardBuilding(B::ClayPit),
        Action::ConstructBuilding(B::LoggingCamp),
        Action::ConstructBuilding(B::GlassWorks),
        Action::ConstructBuilding(B::Altar),
        Action::ConstructBuilding(B::Workshop),
        Action::DiscardBuilding(B::ClayReserve),
        Action::ConstructBuilding(B::Tavern),
        Action::ConstructBuilding(B::Stable),
        Action::ConstructBuilding(B::Theater),
        Action::ConstructBuilding(B::Palisade),
        Action::SelectWhoBeginsTheNextAge(1),
        Action::ConstructBuilding(B::DryingRoom),
        Action::ConstructBuilding(B::SawMill),
        Action::ConstructBuilding(B::ShelfQuarry),
        Action::DiscardBuilding(B::ParadeGround),
        Action::ConstructBuilding(B::BrickYard),
        Action::ConstructBuilding(B::Barracks),
        Action::ConstructBuilding(B::Library),
        Action::PickBoardToken(T::Theology),
        Action::ConstructBuilding(B::Walls),
        Action::ConstructBuilding(B::Brewery),
        Action::DiscardBuilding(B::HorseBreeders),
        Action::ConstructWonder(W::Messe, B::Statue),
        Action::PickTopLineBuilding(B::Dispensary),
        Action::PickBoardToken(T::Economy),
        Action::ConstructBuilding(B::Laboratory),
        Action::PickBoardToken(T::Agriculture),
        Action::ConstructBuilding(B::ArcheryRange),
        Action::ConstructBuilding(B::Aqueduct),
        Action::ConstructBuilding(B::GlassBlower),
        Action::ConstructBuilding(B::School),
        Action::DiscardBuilding(B::CourtHouse),
        Action::ConstructBuilding(B::Caravansery),
        Action::ConstructBuilding(B::CustomHouse),
        Action::SelectWhoBeginsTheNextAge(1),
        Action::ConstructWonder(W::TheMausoleum, B::MoneyLendersGuild),
        Action::PickDiscardedBuilding(B::ParadeGround),
        Action::ConstructBuilding(B::Lighthouse),
        Action::ConstructBuilding(B::ChamberOfCommerce),
        Action::ConstructBuilding(B::TownHall),
        Action::ConstructWonder(W::ThePyramids, B::Gardens),
        Action::ConstructBuilding(B::Arsenal),
        Action::DiscardBuilding(B::Pantheon),
        Action::DiscardBuilding(B::Pretorium),
        Action::ConstructBuilding(B::MerchantsGuild),
        Action::ConstructWonder(W::StatueOfLiberty, B::Senate),
        Action::PickReturnedBuildings(B::Study, B::Circus),
        Action::ConstructWonder(W::TheTempleOfArtemis, B::Palace),
        Action::ConstructBuilding(B::Obelisk),
        Action::ConstructBuilding(B::Arena),
        Action::ConstructBuilding(B::SiegeWorkshop),
        Action::ConstructBuilding(B::MagistratesGuild),
        Action::ConstructBuilding(B::Armory),
        Action::ConstructBuilding(B::Observatory),
        Action::ConstructBuilding(B::Fortifications),
        Action::ConstructBuilding(B::Port),
        Action::ConstructBuilding(B::Academy),
        Action::PickBoardToken(T::Philosophy),
    ]
}

#[test]
fn game_11() {
    let s = State::from(game_11_actions()).expect("its ok");

    // coins 33
    let expected1 = Score {
        civilian: 20,
        science: 13,
        commercial: 6,
        guilds: 0,
        wonders: 9,
        tokens: 11,
        coins: 11,
        military: 0,
        total: 70,
    };

    // coins 19
    let expected2 = Score {
        civilian: 6,
        science: 2,
        commercial: 9,
        guilds: 10,
        wonders: 9,
        tokens: 0,
        coins: 6,
        military: 0,
        total: 42,
    };

    let p1 = s.enemy();
    let p2 = s.me();

    assert_eq!(expected1, p1.score);
    assert_eq!(33, p1.coins);

    assert_eq!(expected2, p2.score);
    assert_eq!(19, p2.coins);
}

#[test]
fn game_11_terminates_by_civilian_victory() {
    let s = State::from(game_11_actions()).expect("its ok");
    assert_eq!(s.phase, Phase::Over);
    let finish = s.finish.expect("a finished game has a result");
    assert_eq!(finish.victory, Victory::Civilian);
    // the higher total (70 over 42) wins
    assert_eq!(finish.winner, 1);
}

#[test]
fn game_11_replay_is_deterministic() {
    let a = State::from(game_11_actions()).expect("its ok");
    let b = State::from(game_11_actions()).expect("its ok");
    assert_eq!(a, b);
}
