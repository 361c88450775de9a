use engine::building::Id;
use engine::deck::{get_layout, Deck, GraphNode};
use engine::Age;

fn node(d: &Deck, id: Id) -> GraphNode {
    *d.graph.iter().find(|n| n.id == id).expect("card should be in the graph")
}

fn children(d: &Deck, id: Id) -> (Option<Id>, Option<Id>) {
    let n = node(d, id);
    (n.children.left, n.children.right)
}

#[test]
fn check_new() {
    let d = Deck::new(
        &get_layout(Age::I),
        vec![
            Id::LumberYard,
            Id::LoggingCamp,
            Id::ClayPool,
            Id::ClayPit,
            Id::Quarry,
            Id::StonePit,
            Id::GlassWorks,
            Id::Press,
            Id::GuardTower,
            Id::Workshop,
            Id::Apothecary,
            Id::StoneReserve,
            Id::ClayReserve,
            Id::WoodReserve,
            Id::Stable,
            Id::Garrison,
            Id::Palisade,
            Id::Scriptorium,
            Id::Pharmacist,
            Id::Theater,
        ],
    );

    let expected_face_down = [
        Id::ClayPool,
        Id::ClayPit,
        Id::Quarry,
        Id::Workshop,
        Id::Apothecary,
        Id::StoneReserve,
        Id::ClayReserve,
        Id::WoodReserve,
    ];
    assert_eq!(d.face_down.len(), expected_face_down.len());
    for id in expected_face_down.iter() {
        assert!(d.face_down.contains(id));
    }

    let expected_graph = [
        (Id::LumberYard, (Some(Id::ClayPool), Some(Id::ClayPit))),
        (Id::LoggingCamp, (Some(Id::ClayPit), Some(Id::Quarry))),
        (Id::ClayPool, (Some(Id::StonePit), Some(Id::GlassWorks))),
        (Id::ClayPit, (Some(Id::GlassWorks), Some(Id::Press))),
        (Id::Quarry, (Some(Id::Press), Some(Id::GuardTower))),
        (Id::StonePit, (Some(Id::Workshop), Some(Id::Apothecary))),
        (Id::GlassWorks, (Some(Id::Apothecary), Some(Id::StoneReserve))),
        (Id::Press, (Some(Id::StoneReserve), Some(Id::ClayReserve))),
        (Id::GuardTower, (Some(Id::ClayReserve), Some(Id::WoodReserve))),
        (Id::Workshop, (Some(Id::Stable), Some(Id::Garrison))),
        (Id::Apothecary, (Some(Id::Garrison), Some(Id::Palisade))),
        (Id::StoneReserve, (Some(Id::Palisade), Some(Id::Scriptorium))),
        (Id::ClayReserve, (Some(Id::Scriptorium), Some(Id::Pharmacist))),
        (Id::WoodReserve, (Some(Id::Pharmacist), Some(Id::Theater))),
        (Id::Stable, (None, None)),
        (Id::Garrison, (None, None)),
        (Id::Palisade, (None, None)),
        (Id::Scriptorium, (None, None)),
        (Id::Pharmacist, (None, None)),
        (Id::Theater, (None, None)),
    ];
    assert_eq!(d.graph.len(), expected_graph.len());
    for (id, expected) in expected_graph.iter() {
        assert_eq!(children(&d, *id), *expected);
    }
}
