//! The current age's card pyramid: the dealt cards, their slot layout, the
//! support graph (each card rests on up to two cards of the row below), and
//! the face-down set.  A card is playable exactly when both its support slots
//! are empty; removing a card clears every reference to it and reveals cards
//! left without support.

use vstd::prelude::*;
use crate::Age;
use crate::building;

verus! {

/// Up to two cards in the row below that still support a card.
#[derive(Debug, Copy, Clone, PartialEq, Eq, Structural)]
pub struct Children {
    pub left: Option<building::Id>,
    pub right: Option<building::Id>,
}

/// One card of the pyramid together with its remaining supports.
#[derive(Debug, Copy, Clone, PartialEq, Eq, Structural)]
pub struct GraphNode {
    pub id: building::Id,
    pub children: Children,
}

/// What a board slot shows to the players.
#[derive(Debug, Copy, Clone, PartialEq, Eq, Structural)]
pub enum Slot {
    Empty,
    FaceDown,
    FaceDownGuild,
    FaceUp(building::Id),
}

pub type Layout = Vec<Slot>;

/// A card deal template: one row per pyramid line, each row listing the
/// column where a card starts.  Every card covers its column and the next.
pub open spec fn layout_ok(l: Seq<Vec<usize>>) -> bool {
    &&& l.len() >= 1
    &&& forall|i: int, j: int|
        0 <= i < l.len() && 0 <= j < l[i]@.len() ==> #[trigger] l[i]@[j] + 1 < 20
}

/// Total number of cards a template deals.
pub open spec fn slot_sum(l: Seq<Vec<usize>>) -> int
    decreases l.len(),
{
    if l.len() == 0 {
        0
    } else {
        l[0]@.len() + slot_sum(l.drop_first())
    }
}

/// The rows of a template as plain sequences.
pub open spec fn row_views(l: Seq<Vec<usize>>) -> Seq<Seq<usize>> {
    l.map_values(|v: Vec<usize>| v@)
}

/// The fixed pyramid template of each age, as the mathematical value the
/// executable builder returns.
pub open spec fn spec_layout(age: Age) -> Seq<Seq<usize>> {
    match age {
        Age::I => seq![
            seq![4usize, 6],
            seq![3usize, 5, 7],
            seq![2usize, 4, 6, 8],
            seq![1usize, 3, 5, 7, 9],
            seq![0usize, 2, 4, 6, 8, 10],
        ],
        Age::II => seq![
            seq![0usize, 2, 4, 6, 8, 10],
            seq![1usize, 3, 5, 7, 9],
            seq![2usize, 4, 6, 8],
            seq![3usize, 5, 7],
            seq![4usize, 6],
        ],
        Age::III => seq![
            seq![2usize, 4],
            seq![1usize, 3, 5],
            seq![0usize, 2, 4, 6],
            seq![1usize, 5],
            seq![0usize, 2, 4, 6],
            seq![1usize, 3, 5],
            seq![2usize, 4],
        ],
    }
}

/// The fixed pyramid template of an age.
pub fn get_layout(age: Age) -> (r: Vec<Vec<usize>>)
    ensures
        layout_ok(r@),
        slot_sum(r@) == 20,
        row_views(r@) == spec_layout(age),
{
    let r: Vec<Vec<usize>> = match age {
        Age::I => vec![
            vec![4usize, 6],
            vec![3usize, 5, 7],
            vec![2usize, 4, 6, 8],
            vec![1usize, 3, 5, 7, 9],
            vec![0usize, 2, 4, 6, 8, 10],
        ],
        Age::II => vec![
            vec![0usize, 2, 4, 6, 8, 10],
            vec![1usize, 3, 5, 7, 9],
            vec![2usize, 4, 6, 8],
            vec![3usize, 5, 7],
            vec![4usize, 6],
        ],
        Age::III => vec![
            vec![2usize, 4],
            vec![1usize, 3, 5],
            vec![0usize, 2, 4, 6],
            vec![1usize, 5],
            vec![0usize, 2, 4, 6],
            vec![1usize, 3, 5],
            vec![2usize, 4],
        ],
    };
    proof {
        reveal_with_fuel(slot_sum, 9);
        if age == Age::I {
            assert(slot_sum(r@) == 20);
            assert(row_views(r@) =~~= spec_layout(age));
        } else if age == Age::II {
            assert(slot_sum(r@) == 20);
            assert(row_views(r@) =~~= spec_layout(age));
        } else {
            assert(slot_sum(r@) == 20);
            assert(row_views(r@) =~~= spec_layout(age));
        }
    }
    r
}

/// A pyramid row before any card is dealt into it: twenty empty columns.
pub open spec fn blank_line() -> Seq<Option<building::Id>> {
    Seq::new(20, |i: int| None)
}

/// Deal the cards of one template row into a line: the card at list
/// position `pos + j` covers the row's `j`-th column and the next.
pub open spec fn fill_row(line: Seq<Option<building::Id>>, row: Seq<usize>,
    bs: Seq<building::Id>, pos: int) -> Seq<Option<building::Id>>
    decreases row.len(),
{
    if row.len() == 0 {
        line
    } else {
        let p = row[0] as int;
        let b = bs[pos];
        fill_row(line.update(p, Some(b)).update(p + 1, Some(b)), row.drop_first(), bs, pos + 1)
    }
}

/// The rows of the dealt scheme from `pos` on, consuming the deal in order.
pub open spec fn scheme_rows(layout: Seq<Seq<usize>>, bs: Seq<building::Id>, pos: int)
    -> Seq<Seq<Option<building::Id>>>
    decreases layout.len(),
{
    if layout.len() == 0 {
        Seq::empty()
    } else {
        seq![fill_row(blank_line(), layout[0], bs, pos)] + scheme_rows(
            layout.drop_first(),
            bs,
            pos + layout[0].len(),
        )
    }
}

/// The whole dealt scheme: the deal poured into the template row by row.
pub open spec fn spec_scheme(layout: Seq<Seq<usize>>, bs: Seq<building::Id>) -> Seq<Seq<
    Option<building::Id>>> {
    scheme_rows(layout, bs, 0)
}

/// The rows of a built scheme as plain sequences.
pub open spec fn scheme_views(s: Seq<Vec<Option<building::Id>>>) -> Seq<Seq<Option<
    building::Id>>> {
    s.map_values(|v: Vec<Option<building::Id>>| v@)
}

/// The support node a scheme slot induces: its children are whatever sits
/// in the horizontally adjacent columns of the row below.
pub open spec fn spec_node(scheme: Seq<Seq<Option<building::Id>>>, i: int, pos: int,
    id: building::Id) -> GraphNode {
    GraphNode {
        id,
        children: Children {
            left: if i + 1 < scheme.len() && pos > 0 {
                scheme[i + 1][pos - 1]
            } else {
                None
            },
            right: if i + 1 < scheme.len() && pos + 1 < 20 {
                scheme[i + 1][pos + 1]
            } else {
                None
            },
        },
    }
}

/// Insert a node: replace the first node of the same card, else append.
pub open spec fn insert_node(g: Seq<GraphNode>, n: GraphNode) -> Seq<GraphNode>
    decreases g.len(),
{
    if g.len() == 0 {
        seq![n]
    } else if g[0].id == n.id {
        seq![n] + g.drop_first()
    } else {
        seq![g[0]] + insert_node(g.drop_first(), n)
    }
}

/// The graph after walking one scheme row from column `pos` on.
pub open spec fn graph_row(g: Seq<GraphNode>, scheme: Seq<Seq<Option<building::Id>>>, i: int,
    pos: int) -> Seq<GraphNode>
    decreases 20 - pos,
{
    if pos < 0 || pos >= 20 {
        g
    } else {
        let g2 = match scheme[i][pos] {
            Some(id) => insert_node(g, spec_node(scheme, i, pos, id)),
            None => g,
        };
        graph_row(g2, scheme, i, pos + 1)
    }
}

/// The graph after walking the scheme rows from `i` on.
pub open spec fn graph_rows(g: Seq<GraphNode>, scheme: Seq<Seq<Option<building::Id>>>,
    i: int) -> Seq<GraphNode>
    decreases scheme.len() - i,
{
    if i < 0 || i >= scheme.len() {
        g
    } else {
        graph_rows(graph_row(g, scheme, i, 0), scheme, i + 1)
    }
}

/// The support graph a dealt scheme induces: every dealt card, each
/// supported by the horizontally adjacent cards of the row below.
pub open spec fn spec_graph_of(scheme: Seq<Seq<Option<building::Id>>>) -> Seq<GraphNode> {
    graph_rows(Seq::empty(), scheme, 0)
}

/// One scheme row's contribution to the face-down set, from column `j` on:
/// each card once, in column order.
pub open spec fn fd_row(acc: Seq<building::Id>, row: Seq<Option<building::Id>>, j: int)
    -> Seq<building::Id>
    decreases row.len() - j,
{
    if j < 0 || j >= row.len() {
        acc
    } else {
        let acc2 = match row[j] {
            Some(id) => if acc.contains(id) {
                acc
            } else {
                acc.push(id)
            },
            None => acc,
        };
        fd_row(acc2, row, j + 1)
    }
}

/// The face-down cards of the scheme rows from `i` on: every second row,
/// starting with the second.
pub open spec fn fd_rows(acc: Seq<building::Id>, scheme: Seq<Seq<Option<building::Id>>>,
    i: int) -> Seq<building::Id>
    decreases scheme.len() - i,
{
    if i < 0 || i >= scheme.len() {
        acc
    } else {
        let acc2 = if i % 2 == 1 {
            fd_row(acc, scheme[i], 0)
        } else {
            acc
        };
        fd_rows(acc2, scheme, i + 1)
    }
}

/// The face-down set a dealt scheme induces: the cards of every second row.
pub open spec fn spec_face_down(scheme: Seq<Seq<Option<building::Id>>>) -> Seq<building::Id> {
    fd_rows(Seq::empty(), scheme, 0)
}

/// A deck that is exactly the given deal poured into the given template:
/// the scheme, the support graph and the face-down set are all derived.
pub open spec fn deck_dealt(d: Deck, layout: Seq<Seq<usize>>, pool: Seq<building::Id>)
    -> bool {
    &&& d.buildings@ == pool
    &&& d.scheme@.len() == layout.len()
    &&& scheme_views(d.scheme@) == spec_scheme(layout, pool)
    &&& d.graph@ == spec_graph_of(spec_scheme(layout, pool))
    &&& d.face_down@ == spec_face_down(spec_scheme(layout, pool))
    &&& graph_unique(d.graph@)
}

pub open spec fn children_empty(n: GraphNode) -> bool {
    n.children.left is None && n.children.right is None
}

/// Clear any support slot of `n` that still points at `id`.
pub open spec fn clear_node(n: GraphNode, id: building::Id) -> GraphNode {
    GraphNode {
        id: n.id,
        children: Children {
            left: if n.children.left == Some(id) {
                None
            } else {
                n.children.left
            },
            right: if n.children.right == Some(id) {
                None
            } else {
                n.children.right
            },
        },
    }
}

/// The graph after removing a card: its own node goes away and every
/// reference to it is cleared.
pub open spec fn pull_graph(g: Seq<GraphNode>, id: building::Id) -> Seq<GraphNode>
    decreases g.len(),
{
    if g.len() == 0 {
        Seq::empty()
    } else {
        let rest = pull_graph(g.drop_first(), id);
        if g[0].id == id {
            rest
        } else {
            seq![clear_node(g[0], id)] + rest
        }
    }
}

pub open spec fn graph_has_empty(g: Seq<GraphNode>, id: building::Id) -> bool {
    exists|i: int| 0 <= i < g.len() && g[i].id == id && children_empty(#[trigger] g[i])
}

/// Face-down cards that remain hidden: those not left without support.
pub open spec fn still_hidden(fd: Seq<building::Id>, g: Seq<GraphNode>) -> Seq<building::Id>
    decreases fd.len(),
{
    if fd.len() == 0 {
        Seq::empty()
    } else {
        let rest = still_hidden(fd.drop_first(), g);
        if graph_has_empty(g, fd[0]) {
            rest
        } else {
            seq![fd[0]] + rest
        }
    }
}

/// The identifiers of the cards with no remaining support, in graph order.
pub open spec fn playable_of(g: Seq<GraphNode>) -> Seq<building::Id>
    decreases g.len(),
{
    if g.len() == 0 {
        Seq::empty()
    } else {
        let rest = playable_of(g.drop_first());
        if children_empty(g[0]) {
            seq![g[0].id] + rest
        } else {
            rest
        }
    }
}

/// Deck graph invariant: a card is playable exactly when it sits in the
/// graph with zero remaining supports, and only such cards are playable.
pub proof fn lemma_playable_iff(g: Seq<GraphNode>, id: building::Id)
    ensures
        playable_of(g).contains(id) <==> graph_has_empty(g, id),
    decreases g.len(),
{
    if g.len() > 0 {
        lemma_playable_iff(g.drop_first(), id);
        let rest = playable_of(g.drop_first());
        if children_empty(g[0]) && g[0].id == id {
            assert(playable_of(g)[0] == id);
        }
        if graph_has_empty(g, id) {
            let i = choose|i: int| 0 <= i < g.len() && g[i].id == id
                && children_empty(#[trigger] g[i]);
            if i > 0 {
                assert(g.drop_first()[i - 1] == g[i]);
                assert(graph_has_empty(g.drop_first(), id));
                if children_empty(g[0]) {
                    assert(playable_of(g) == seq![g[0].id] + rest);
                    assert(rest.contains(id));
                    let j = choose|j: int| 0 <= j < rest.len() && rest[j] == id;
                    assert(playable_of(g)[j + 1] == id);
                } else {
                    assert(playable_of(g) == rest);
                }
            }
        }
        if playable_of(g).contains(id) {
            let j = choose|j: int| 0 <= j < playable_of(g).len() && playable_of(g)[j] == id;
            if children_empty(g[0]) {
                if j > 0 {
                    assert(rest[j - 1] == id);
                    assert(rest.contains(id));
                    let i = choose|i: int| 0 <= i < g.drop_first().len()
                        && g.drop_first()[i].id == id
                        && children_empty(#[trigger] g.drop_first()[i]);
                    assert(g[i + 1] == g.drop_first()[i]);
                }
            } else {
                assert(rest[j] == id);
                assert(rest.contains(id));
                let i = choose|i: int| 0 <= i < g.drop_first().len()
                    && g.drop_first()[i].id == id
                    && children_empty(#[trigger] g.drop_first()[i]);
                assert(g[i + 1] == g.drop_first()[i]);
            }
        }
    }
}

/// No identifier appears on two graph nodes.
pub open spec fn graph_unique(g: Seq<GraphNode>) -> bool {
    forall|i: int, j: int| 0 <= i < g.len() && 0 <= j < g.len() && i != j
        ==> (#[trigger] g[i]).id != (#[trigger] g[j]).id
}

/// The current age's card pyramid.
#[derive(Debug, Clone, PartialEq, Eq)]
pub struct Deck {
    pub buildings: Vec<building::Id>,
    pub scheme: Vec<Vec<Option<building::Id>>>,
    pub graph: Vec<GraphNode>,
    pub face_down: Vec<building::Id>,
}

impl Deck {
    pub open spec fn wf(self) -> bool {
        graph_unique(self.graph@)
    }

    /// An empty pyramid: the state before any deal.
    pub fn empty() -> (d: Deck)
        ensures
            d.buildings@.len() == 0,
            d.scheme@.len() == 0,
            d.graph@.len() == 0,
            d.face_down@.len() == 0,
            d.wf(),
    {
        Deck { buildings: Vec::new(), scheme: Vec::new(), graph: Vec::new(), face_down: Vec::new() }
    }

    /// Deal `buildings` into the template: assign two adjacent slots per card
    /// row by row, derive the support graph by horizontal adjacency, and mark
    /// every second row (starting from the second) face-down.
    pub fn new(layout: &Vec<Vec<usize>>, buildings: Vec<building::Id>) -> (d: Deck)
        requires
            layout_ok(layout@),
            slot_sum(layout@) == buildings@.len(),
        ensures
            d.buildings == buildings,
            d.scheme@.len() == layout@.len(),
            d.scheme@.len() >= 1,
            d.wf(),
            deck_dealt(d, row_views(layout@), buildings@),
    {
        let ghost ss = spec_scheme(row_views(layout@), buildings@);
        let scheme = Self::build_scheme(layout, &buildings);
        let graph = Self::build_graph(&scheme);
        let ghost sv = scheme_views(scheme@);
        proof {
            assert(sv == ss);
        }

        let mut face_down: Vec<building::Id> = Vec::new();
        let mut i: usize = 0;
        while i < scheme.len()
            invariant
                i <= scheme@.len(),
                sv == scheme_views(scheme@),
                fd_rows(face_down@, sv, i as int) == spec_face_down(sv),
            decreases scheme@.len() - i,
        {
            if i % 2 == 1 {
                let row = &scheme[i];
                proof {
                    assert(row@ == sv[i as int]);
                }
                let mut j: usize = 0;
                while j < row.len()
                    invariant
                        j <= row@.len(),
                        0 <= i < sv.len(),
                        i % 2 == 1,
                        row@ == sv[i as int],
                        fd_rows(fd_row(face_down@, row@, j as int), sv, i + 1)
                            == spec_face_down(sv),
                    decreases row@.len() - j,
                {
                    if let Some(id) = row[j] {
                        if !contains_id(&face_down, id) {
                            face_down.push(id);
                        }
                    }
                    j = j + 1;
                }
            }
            i = i + 1;
        }

        Deck { buildings, scheme, graph, face_down }
    }

    fn build_scheme(layout: &Vec<Vec<usize>>, buildings: &Vec<building::Id>) -> (scheme: Vec<
        Vec<Option<building::Id>>>)
        requires
            layout_ok(layout@),
            slot_sum(layout@) == buildings@.len(),
        ensures
            scheme@.len() == layout@.len(),
            forall|i: int| 0 <= i < scheme@.len() ==> (#[trigger] scheme@[i])@.len() == 20,
            scheme_views(scheme@) == spec_scheme(row_views(layout@), buildings@),
    {
        let ghost lv = row_views(layout@);
        let mut scheme: Vec<Vec<Option<building::Id>>> = Vec::new();
        let mut pos: usize = 0;
        let mut i: usize = 0;
        proof {
            assert(layout@.skip(0) =~= layout@);
            assert(lv.skip(0) =~= lv);
            assert(scheme_views(scheme@) + scheme_rows(lv, buildings@, 0) =~= spec_scheme(
                lv,
                buildings@,
            ));
        }
        while i < layout.len()
            invariant
                layout_ok(layout@),
                lv == row_views(layout@),
                i <= layout@.len(),
                scheme@.len() == i,
                pos + slot_sum(layout@.skip(i as int)) == buildings@.len(),
                slot_sum(layout@.skip(i as int)) >= 0,
                forall|k: int| 0 <= k < scheme@.len() ==> (#[trigger] scheme@[k])@.len() == 20,
                scheme_views(scheme@) + scheme_rows(lv.skip(i as int), buildings@, pos as int)
                    == spec_scheme(lv, buildings@),
            decreases layout@.len() - i,
        {
            proof {
                assert(layout@.skip(i as int)[0] == layout@[i as int]);
                assert(layout@.skip(i as int).drop_first() =~= layout@.skip(i + 1));
                assert(lv.skip(i as int)[0] == lv[i as int]);
                assert(lv.skip(i as int).drop_first() =~= lv.skip(i + 1));
                slot_sum_nonneg(layout@.skip(i + 1));
            }
            let row = &layout[i];
            let ghost pos0 = pos as int;
            let mut line: Vec<Option<building::Id>> = Vec::new();
            let mut c: usize = 0;
            while c < 20
                invariant
                    line@.len() == c,
                    c <= 20,
                    forall|k: int| 0 <= k < c ==> line@[k] is None,
                decreases 20 - c,
            {
                line.push(None);
                c = c + 1;
            }
            proof {
                assert(line@ =~= blank_line());
                assert(row@.skip(0) =~= row@);
                assert(lv.len() == layout@.len());
                assert(row@ == lv[i as int]);
            }

            let mut j: usize = 0;
            while j < row.len()
                invariant
                    layout_ok(layout@),
                    0 <= i < layout@.len(),
                    row == &layout@[i as int],
                    row@ == lv[i as int],
                    j <= row@.len(),
                    pos == pos0 + j,
                    pos + (row@.len() - j) + slot_sum(layout@.skip(i + 1)) == buildings@.len(),
                    slot_sum(layout@.skip(i + 1)) >= 0,
                    line@.len() == 20,
                    fill_row(line@, row@.skip(j as int), buildings@, pos as int) == fill_row(
                        blank_line(),
                        row@,
                        buildings@,
                        pos0,
                    ),
                decreases row@.len() - j,
            {
                proof {
                    assert(row@.skip(j as int)[0] == row@[j as int]);
                    assert(row@.skip(j as int).drop_first() =~= row@.skip(j + 1));
                }
                let p = row[j];
                assert(p + 1 < 20);
                let total: usize = buildings.len();
                assert(pos < total);
                let b = buildings[pos];
                line[p] = Some(b);
                line[p + 1] = Some(b);
                pos = pos + 1;
                j = j + 1;
            }
            proof {
                assert(row@.skip(row@.len() as int) =~= Seq::<usize>::empty());
                assert(line@ == fill_row(blank_line(), lv[i as int], buildings@, pos0));
            }
            let ghost prev = scheme@;
            scheme.push(line);
            proof {
                assert(scheme_rows(lv.skip(i as int), buildings@, pos0) == seq![line@]
                    + scheme_rows(lv.skip(i + 1), buildings@, pos0 + lv[i as int].len()));
                assert(scheme_views(scheme@) =~= scheme_views(prev).push(line@));
                assert(scheme_views(prev).push(line@) + scheme_rows(lv.skip(i + 1), buildings@,
                    pos as int,
                ) =~= scheme_views(prev) + (seq![line@] + scheme_rows(lv.skip(i + 1),
                    buildings@,
                    pos as int,
                )));
            }
            i = i + 1;
        }
        proof {
            assert(lv.skip(lv.len() as int) =~= Seq::<Seq<usize>>::empty());
            assert(scheme_views(scheme@) + Seq::<Seq<Option<building::Id>>>::empty()
                =~= scheme_views(scheme@));
        }
        scheme
    }

    fn build_graph(scheme: &Vec<Vec<Option<building::Id>>>) -> (graph: Vec<GraphNode>)
        requires
            forall|i: int| 0 <= i < scheme@.len() ==> (#[trigger] scheme@[i])@.len() == 20,
        ensures
            graph_unique(graph@),
            graph@ == spec_graph_of(scheme_views(scheme@)),
    {
        let ghost sv = scheme_views(scheme@);
        let mut graph: Vec<GraphNode> = Vec::new();
        let mut i: usize = 0;
        while i < scheme.len()
            invariant
                forall|k: int| 0 <= k < scheme@.len() ==> (#[trigger] scheme@[k])@.len() == 20,
                sv == scheme_views(scheme@),
                i <= scheme@.len(),
                graph_unique(graph@),
                spec_graph_of(sv) == graph_rows(graph@, sv, i as int),
            decreases scheme@.len() - i,
        {
            let line = &scheme[i];
            proof {
                assert(line@ == sv[i as int]);
                assert(graph_rows(graph@, sv, i as int) == graph_rows(
                    graph_row(graph@, sv, i as int, 0),
                    sv,
                    i + 1,
                ));
            }
            let mut pos: usize = 0;
            while pos < 20
                invariant
                    forall|k: int| 0 <= k < scheme@.len() ==> (#[trigger] scheme@[k])@.len()
                        == 20,
                    sv == scheme_views(scheme@),
                    0 <= i < scheme@.len(),
                    line == &scheme@[i as int],
                    line@ == sv[i as int],
                    pos <= 20,
                    graph_unique(graph@),
                    spec_graph_of(sv) == graph_rows(
                        graph_row(graph@, sv, i as int, pos as int),
                        sv,
                        i + 1,
                    ),
                decreases 20 - pos,
            {
                let ghost g0 = graph@;
                if let Some(id) = line[pos] {
                    let mut nodes = Children { left: None, right: None };
                    let rows: usize = scheme.len();
                    assert(i < rows);
                    if i + 1 < rows {
                        let next = &scheme[i + 1];
                        proof {
                            assert(next@ == sv[i + 1]);
                        }
                        if pos > 0 {
                            if let Some(left) = next[pos - 1] {
                                nodes.left = Some(left);
                            }
                        }
                        if pos + 1 < 20 {
                            if let Some(right) = next[pos + 1] {
                                nodes.right = Some(right);
                            }
                        }
                    }
                    let node = GraphNode { id, children: nodes };
                    proof {
                        assert(node == spec_node(sv, i as int, pos as int, id));
                    }
                    graph_insert(&mut graph, node);
                }
                proof {
                    assert(graph_row(g0, sv, i as int, pos as int) == graph_row(
                        graph@,
                        sv,
                        i as int,
                        pos + 1,
                    ));
                }
                pos = pos + 1;
            }
            i = i + 1;
        }
        graph
    }

    pub fn is_empty(&self) -> (r: bool)
        ensures
            r == (self.graph@.len() == 0),
    {
        self.graph.len() == 0
    }

    /// The board as players see it: one slot per dealt card, in deal order.
    pub fn get_public_layout(&self) -> (r: Layout)
        ensures
            r@.len() == self.buildings@.len(),
            forall|i: int| 0 <= i < r@.len() ==> r@[i] == spec_slot_of(
                self.graph@,
                self.face_down@,
                self.buildings@[i],
            ),
    {
        let mut out: Vec<Slot> = Vec::new();
        let mut i: usize = 0;
        while i < self.buildings.len()
            invariant
                i <= self.buildings@.len(),
                out@.len() == i,
                forall|k: int| 0 <= k < i ==> out@[k] == spec_slot_of(
                    self.graph@,
                    self.face_down@,
                    self.buildings@[k],
                ),
            decreases self.buildings@.len() - i,
        {
            let id = self.buildings[i];
            if !graph_contains(&self.graph, id) {
                out.push(Slot::Empty);
            } else if contains_id(&self.face_down, id) {
                out.push(Slot::FaceDownGuild);
            } else {
                out.push(Slot::FaceUp(id));
            }
            i = i + 1;
        }
        out
    }

    /// The cards with no remaining support: exactly the playable ones.
    pub fn get_playable_buildings(&self) -> (r: Vec<building::Id>)
        ensures
            r@ =~= playable_of(self.graph@),
    {
        let mut out: Vec<building::Id> = Vec::new();
        let mut i: usize = 0;
        proof {
            assert(self.graph@.skip(0) =~= self.graph@);
        }
        while i < self.graph.len()
            invariant
                i <= self.graph@.len(),
                playable_of(self.graph@) =~= out@ + playable_of(self.graph@.skip(i as int)),
            decreases self.graph@.len() - i,
        {
            let n = self.graph[i];
            proof {
                assert(self.graph@.skip(i as int)[0] == n);
                assert(self.graph@.skip(i as int).drop_first() =~= self.graph@.skip(i + 1));
            }
            if n.children.left.is_none() && n.children.right.is_none() {
                out.push(n.id);
            }
            i = i + 1;
        }
        proof {
            assert(self.graph@.skip(self.graph@.len() as int) =~= Seq::<GraphNode>::empty());
            assert(out@ + Seq::<building::Id>::empty() =~= out@);
        }
        out
    }

    /// Cards of this deal's age that were left out of the deal: candidates
    /// for the returned-card pick.  An empty deal has no returned cards.
    pub fn get_returned_buildings(&self) -> (r: Vec<building::Id>)
        ensures
            self.buildings@.len() == 0 ==> r@.len() == 0,
            self.buildings@.len() > 0 ==> r@ =~= returned_of(
                building::all_ids(),
                building::spec_age(self.buildings@[0]),
                self.buildings@,
            ),
    {
        if self.buildings.len() == 0 {
            return Vec::new();
        }
        let age = building::get(self.buildings[0]).age;
        let all = building::get_all();
        let mut out: Vec<building::Id> = Vec::new();
        let mut i: usize = 0;
        proof {
            assert(all@.skip(0) =~= all@);
        }
        while i < all.len()
            invariant
                i <= all@.len(),
                age == building::spec_age(self.buildings@[0]),
                returned_of(all@, age, self.buildings@) =~= out@ + returned_of(
                    all@.skip(i as int),
                    age,
                    self.buildings@,
                ),
            decreases all@.len() - i,
        {
            let id = all[i];
            proof {
                assert(all@.skip(i as int)[0] == id);
                assert(all@.skip(i as int).drop_first() =~= all@.skip(i + 1));
            }
            if building::get(id).age == age && !contains_id(&self.buildings, id) {
                out.push(id);
            }
            i = i + 1;
        }
        proof {
            assert(all@.skip(all@.len() as int) =~= Seq::<building::Id>::empty());
            assert(out@ + Seq::<building::Id>::empty() =~= out@);
        }
        out
    }

    /// The face-up cards of the first pyramid row, in deal order.  An empty
    /// pyramid has none.
    pub fn get_top_line_buildings(&self) -> (r: Vec<building::Id>)
        ensures
            self.scheme@.len() == 0 ==> r@.len() == 0,
            self.scheme@.len() > 0 ==> r@ =~= face_up_prefix(
                spec_public_layout(self.graph@, self.face_down@, self.buildings@),
                occupied(self.scheme@[0]@) / 2,
            ),
    {
        if self.scheme.len() == 0 {
            return Vec::new();
        }
        let row = &self.scheme[0];
        let mut count: usize = 0;
        let mut j: usize = 0;
        proof {
            assert(row@.skip(0) =~= row@);
            occupied_nonneg(row@);
        }
        while j < row.len()
            invariant
                j <= row@.len(),
                count <= j,
                count + occupied(row@.skip(j as int)) == occupied(row@),
                occupied(row@.skip(j as int)) >= 0,
            decreases row@.len() - j,
        {
            proof {
                assert(row@.skip(j as int)[0] == row@[j as int]);
                assert(row@.skip(j as int).drop_first() =~= row@.skip(j + 1));
                occupied_nonneg(row@.skip(j + 1));
            }
            if row[j].is_some() {
                count = count + 1;
            }
            j = j + 1;
        }
        proof {
            assert(row@.skip(row@.len() as int) =~= Seq::<Option<building::Id>>::empty());
        }
        let take = count / 2;

        let layout = self.get_public_layout();
        let ghost glay = spec_public_layout(self.graph@, self.face_down@, self.buildings@);
        proof {
            assert(layout@ =~= glay);
        }
        let mut out: Vec<building::Id> = Vec::new();
        let mut i: usize = 0;
        proof {
            assert(glay.take(0) =~= Seq::<Slot>::empty());
        }
        while i < take && i < layout.len()
            invariant
                i <= layout@.len(),
                i <= take,
                layout@ =~= glay,
                out@ =~= face_up_prefix(glay, i as int),
            decreases layout@.len() + take - i,
        {
            proof {
                assert(glay.take(i + 1).drop_last() =~= glay.take(i as int));
                assert(glay.take(i + 1).last() == glay[i as int]);
            }
            if let Slot::FaceUp(id) = layout[i] {
                out.push(id);
            }
            i = i + 1;
        }
        proof {
            if take <= layout@.len() {
                assert(i == take || i == layout@.len());
            }
            face_up_prefix_clip(glay, take as int);
        }
        out
    }

    /// Remove a card: drop its node, clear every support slot that pointed
    /// at it, and reveal any face-down card left without support.
    pub fn pull_building(&mut self, id: building::Id)
        ensures
            final(self).buildings == old(self).buildings,
            final(self).scheme == old(self).scheme,
            final(self).graph@ == pull_graph(old(self).graph@, id),
            final(self).face_down@ == still_hidden(old(self).face_down@, final(self).graph@),
            old(self).wf() ==> final(self).wf(),
    {
        let ghost g0 = self.graph@;
        let mut out: Vec<GraphNode> = Vec::new();
        let mut i: usize = 0;
        proof {
            assert(g0.skip(0) =~= g0);
        }
        while i < self.graph.len()
            invariant
                i <= self.graph@.len(),
                self.graph@ == g0,
                pull_graph(g0, id) =~= out@ + pull_graph(g0.skip(i as int), id),
                forall|k: int| 0 <= k < out@.len() ==> exists|m: int| 0 <= m < i
                    && (#[trigger] out@[k]).id == g0[m].id,
                graph_unique(g0) ==> graph_unique(out@),
            decreases self.graph@.len() - i,
        {
            let n = self.graph[i];
            proof {
                assert(g0.skip(i as int)[0] == n);
                assert(g0.skip(i as int).drop_first() =~= g0.skip(i + 1));
            }
            if n.id != id {
                let mut c = n.children;
                if c.left == Some(id) {
                    c.left = None;
                }
                if c.right == Some(id) {
                    c.right = None;
                }
                let node = GraphNode { id: n.id, children: c };
                assert(node == clear_node(n, id));
                proof {
                    if graph_unique(g0) {
                        assert forall|k: int| 0 <= k < out@.len()
                            implies (#[trigger] out@[k]).id != n.id by {
                            let m = choose|m: int| 0 <= m < i && out@[k].id == g0[m].id;
                            assert(g0[m].id != g0[i as int].id);
                        }
                    }
                }
                out.push(node);
                proof {
                    let ghost k = out@.len() - 1;
                    assert(out@[k].id == g0[i as int].id);
                }
            }
            i = i + 1;
        }
        proof {
            assert(g0.skip(g0.len() as int) =~= Seq::<GraphNode>::empty());
            assert(out@ + Seq::<GraphNode>::empty() =~= out@);
        }
        self.graph = out;

        let ghost fd0 = self.face_down@;
        let mut fd: Vec<building::Id> = Vec::new();
        let mut i: usize = 0;
        proof {
            assert(fd0.skip(0) =~= fd0);
        }
        while i < self.face_down.len()
            invariant
                i <= self.face_down@.len(),
                self.face_down@ == fd0,
                self.graph@ == pull_graph(g0, id),
                still_hidden(fd0, self.graph@) =~= fd@ + still_hidden(
                    fd0.skip(i as int),
                    self.graph@,
                ),
            decreases self.face_down@.len() - i,
        {
            let x = self.face_down[i];
            proof {
                assert(fd0.skip(i as int)[0] == x);
                assert(fd0.skip(i as int).drop_first() =~= fd0.skip(i + 1));
            }
            if !has_empty_node(&self.graph, x) {
                fd.push(x);
            }
            i = i + 1;
        }
        proof {
            assert(fd0.skip(fd0.len() as int) =~= Seq::<building::Id>::empty());
            assert(fd@ + Seq::<building::Id>::empty() =~= fd@);
        }
        self.face_down = fd;
    }
}

/// The slot shown for a dealt card: gone, hidden, or face up.
pub open spec fn spec_slot_of(g: Seq<GraphNode>, fd: Seq<building::Id>, id: building::Id)
    -> Slot {
    if !graph_ids_contain(g, id) {
        Slot::Empty
    } else if fd.contains(id) {
        Slot::FaceDownGuild
    } else {
        Slot::FaceUp(id)
    }
}

pub open spec fn graph_ids_contain(g: Seq<GraphNode>, id: building::Id) -> bool {
    exists|i: int| 0 <= i < g.len() && (#[trigger] g[i]).id == id
}

pub open spec fn spec_public_layout(g: Seq<GraphNode>, fd: Seq<building::Id>,
    bs: Seq<building::Id>) -> Seq<Slot> {
    bs.map_values(|b: building::Id| spec_slot_of(g, fd, b))
}

/// Cards of the given age absent from the deal, drawn from `all` in order.
pub open spec fn returned_of(all: Seq<building::Id>, age: Age, dealt: Seq<building::Id>)
    -> Seq<building::Id>
    decreases all.len(),
{
    if all.len() == 0 {
        Seq::empty()
    } else {
        let rest = returned_of(all.drop_first(), age, dealt);
        if building::spec_age(all[0]) == age && !dealt.contains(all[0]) {
            seq![all[0]] + rest
        } else {
            rest
        }
    }
}

pub open spec fn occupied(row: Seq<Option<building::Id>>) -> int
    decreases row.len(),
{
    if row.len() == 0 {
        0
    } else {
        (if row[0] is Some {
            1int
        } else {
            0int
        }) + occupied(row.drop_first())
    }
}

proof fn occupied_nonneg(row: Seq<Option<building::Id>>)
    ensures
        occupied(row) >= 0,
    decreases row.len(),
{
    if row.len() > 0 {
        occupied_nonneg(row.drop_first());
    }
}

proof fn slot_sum_nonneg(l: Seq<Vec<usize>>)
    ensures
        slot_sum(l) >= 0,
    decreases l.len(),
{
    if l.len() > 0 {
        slot_sum_nonneg(l.drop_first());
    }
}

/// The face-up identifiers among the first `n` slots.
pub open spec fn face_up_prefix(lay: Seq<Slot>, n: int) -> Seq<building::Id>
    decreases n,
{
    if n <= 0 || lay.len() == 0 {
        Seq::empty()
    } else {
        let p = face_up_prefix(lay, n - 1);
        if n <= lay.len() {
            match lay[n - 1] {
                Slot::FaceUp(id) => p + seq![id],
                _ => p,
            }
        } else {
            p
        }
    }
}

proof fn face_up_prefix_clip(lay: Seq<Slot>, n: int)
    ensures
        n >= lay.len() ==> face_up_prefix(lay, n) == face_up_prefix(lay, lay.len() as int),
    decreases n,
{
    if n > lay.len() {
        face_up_prefix_clip(lay, n - 1);
    }
}

/// Whether `v` holds a node for `id`; replaces it if so, else appends.
fn graph_insert(v: &mut Vec<GraphNode>, node: GraphNode)
    ensures
        graph_unique(old(v)@) ==> graph_unique(final(v)@),
        final(v)@.len() >= old(v)@.len(),
        final(v)@ == insert_node(old(v)@, node),
    {
    let n = v.len();
    let mut i: usize = 0;
    while i < n
        invariant
            n == v@.len(),
            i <= n,
            v@ == old(v)@,
            forall|j: int| 0 <= j < i ==> (#[trigger] v@[j]).id != node.id,
        decreases n - i,
    {
        if v[i].id == node.id {
            v[i] = node;
            proof {
                lemma_insert_node_at(old(v)@, node, i as int);
                assert(final(v)@ =~= old(v)@.update(i as int, node));
            }
            return;
        }
        i = i + 1;
    }
    v.push(node);
    proof {
        lemma_insert_node_append(old(v)@, node);
        if graph_unique(old(v)@) {
            assert forall|a: int, b: int|
                0 <= a < v@.len() && 0 <= b < v@.len() && a != b
                implies (#[trigger] v@[a]).id != (#[trigger] v@[b]).id by {
                if a < v@.len() - 1 && b < v@.len() - 1 {
                    assert(old(v)@[a].id != old(v)@[b].id);
                }
            }
        }
    }
}

proof fn lemma_insert_node_at(g: Seq<GraphNode>, n: GraphNode, i: int)
    requires
        0 <= i < g.len(),
        g[i].id == n.id,
        forall|j: int| 0 <= j < i ==> (#[trigger] g[j]).id != n.id,
    ensures
        insert_node(g, n) =~= g.update(i, n),
    decreases i,
{
    if i == 0 {
        assert(insert_node(g, n) == seq![n] + g.drop_first());
        assert(seq![n] + g.drop_first() =~= g.update(0, n));
    } else {
        lemma_insert_node_at(g.drop_first(), n, i - 1);
        assert(g.drop_first().update(i - 1, n) =~= g.update(i, n).drop_first());
        assert(seq![g[0]] + g.update(i, n).drop_first() =~= g.update(i, n));
    }
}

proof fn lemma_insert_node_append(g: Seq<GraphNode>, n: GraphNode)
    requires
        forall|j: int| 0 <= j < g.len() ==> (#[trigger] g[j]).id != n.id,
    ensures
        insert_node(g, n) =~= g.push(n),
    decreases g.len(),
{
    if g.len() == 0 {
        assert(insert_node(g, n) =~= g.push(n));
    } else {
        lemma_insert_node_append(g.drop_first(), n);
        assert(seq![g[0]] + g.drop_first().push(n) =~= g.push(n));
    }
}

fn contains_id(v: &Vec<building::Id>, id: building::Id) -> (b: bool)
    ensures
        b == v@.contains(id),
{
    let n = v.len();
    let mut i: usize = 0;
    while i < n
        invariant
            n == v@.len(),
            i <= n,
            forall|j: int| 0 <= j < i ==> v@[j] != id,
        decreases n - i,
    {
        if v[i] == id {
            return true;
        }
        i = i + 1;
    }
    false
}

fn graph_contains(v: &Vec<GraphNode>, id: building::Id) -> (b: bool)
    ensures
        b == graph_ids_contain(v@, id),
{
    let n = v.len();
    let mut i: usize = 0;
    while i < n
        invariant
            n == v@.len(),
            i <= n,
            forall|j: int| 0 <= j < i ==> (#[trigger] v@[j]).id != id,
        decreases n - i,
    {
        if v[i].id == id {
            return true;
        }
        i = i + 1;
    }
    false
}

fn has_empty_node(v: &Vec<GraphNode>, id: building::Id) -> (b: bool)
    ensures
        b == graph_has_empty(v@, id),
{
    let n = v.len();
    let mut i: usize = 0;
    while i < n
        invariant
            n == v@.len(),
            i <= n,
            forall|j: int| 0 <= j < i ==> !((#[trigger] v@[j]).id == id && children_empty(v@[j])),
        decreases n - i,
    {
        if v[i].id == id && v[i].children.left.is_none() && v[i].children.right.is_none() {
            return true;
        }
        i = i + 1;
    }
    false
}

} // verus!
