//! Spatial index of entities by grid cell, for neighbourhood queries.
//!
//! Each entity (identified by a `u64`) sits in at most one cell; each cell
//! keeps the set of its entities, and cells without entities are dropped.
//! Converting world positions to cells is the caller's part; the index keeps
//! the two directions (entity to cell, cell to entities) in agreement and
//! answers which entities lie in a rectangle of cells.

use vstd::prelude::*;
use vstd::std_specs::iter::IteratorSpec;
use std::collections::{HashMap, HashSet};

verus! {

broadcast use vstd::std_specs::hash::group_hash_axioms;

/// Grid cell coordinates.
#[derive(Debug, Clone, Copy, PartialEq, Eq, Hash, Structural)]
pub struct GridCoord {
    pub x: i32,
    pub y: i32,
}

/// The key of a cell in the table of cells: the two coordinates' bit
/// patterns side by side.
pub open spec fn cell_key(c: GridCoord) -> u64 {
    ((c.x as u32 as u64) << 32u64) | (c.y as u32 as u64)
}

/// Distinct cells have distinct keys.
pub proof fn lemma_cell_key_injective(a: GridCoord, b: GridCoord)
    ensures
        cell_key(a) == cell_key(b) ==> a == b,
{
    let (ax, ay, bx, by) = (a.x, a.y, b.x, b.y);
    assert(((ax as u32 as u64) << 32u64) | (ay as u32 as u64) == ((bx as u32 as u64) << 32u64) | (
    by as u32 as u64) ==> ax == bx && ay == by) by (bit_vector);
}

fn key_of(c: GridCoord) -> (k: u64)
    ensures
        k == cell_key(c),
{
    ((c.x as u32 as u64) << 32u64) | (c.y as u32 as u64)
}

/// Whether cell `c` lies in the rectangle of cells from `min` to `max`,
/// both included.
pub open spec fn in_rect(c: GridCoord, min: GridCoord, max: GridCoord) -> bool {
    min.x <= c.x <= max.x && min.y <= c.y <= max.y
}

/// The entities whose cell lies in the rectangle from `min` to `max`.
pub open spec fn entities_in(
    positions: Map<u64, GridCoord>,
    min: GridCoord,
    max: GridCoord,
) -> Set<u64> {
    Set::new(|e: u64| positions.contains_key(e) && in_rect(positions[e], min, max))
}

/// Spatial grid for neighbour queries.
pub struct SpatialGrid {
    /// Entities of each occupied cell, by cell key.
    cells: HashMap<u64, HashSet<u64>>,
    /// The cell of each entity.
    entity_positions: HashMap<u64, GridCoord>,
}

impl View for SpatialGrid {
    type V = Map<u64, GridCoord>;

    /// The cell of each indexed entity.
    closed spec fn view(&self) -> Map<u64, GridCoord> {
        self.entity_positions@
    }
}

/// The entities whose cell lies in columns `x_lo..x_hi` and rows `y_lo..y_hi`
/// (upper bounds excluded).
pub open spec fn entities_between(
    positions: Map<u64, GridCoord>,
    x_lo: int,
    x_hi: int,
    y_lo: int,
    y_hi: int,
) -> Set<u64> {
    Set::new(
        |e: u64|
            positions.contains_key(e) && x_lo <= positions[e].x < x_hi && y_lo <= positions[e].y
                < y_hi,
    )
}

/// Appends the members of `cell` to `out`, each once.
fn append_cell(cell: &HashSet<u64>, out: &mut Vec<u64>)
    ensures
        exists|items: Seq<u64>|
            final(out)@ == old(out)@ + items && items.to_set() == cell@ && items.no_duplicates(),
{
    let ghost start = out@;
    let ghost items = cell.iter().remaining().unref();
    assert(items.to_set() == cell@);
    for x in it: cell.iter()
        invariant
            it.seq().unref() == items,
            out@ == start + items.take(it.index()),
    {
        out.push(*x);
        assert(items.take(it.index() + 1) == items.take(it.index()).push(*x));
    }
    assert(items.take(items.len() as int) == items);
    assert(items.no_duplicates());
}

impl SpatialGrid {
    /// The two directions of the index agree, and no cell is empty.
    pub closed spec fn wf(&self) -> bool {
        &&& forall|e: u64| #[trigger]
            self.entity_positions@.contains_key(e) ==> {
                &&& self.cells@.contains_key(cell_key(self.entity_positions@[e]))
                &&& self.cells@[cell_key(self.entity_positions@[e])]@.contains(e)
            }
        &&& forall|k: u64, e: u64|
            self.cells@.contains_key(k) && #[trigger] self.cells@[k]@.contains(e) ==> {
                &&& self.entity_positions@.contains_key(e)
                &&& cell_key(self.entity_positions@[e]) == k
            }
        &&& forall|k: u64| #[trigger]
            self.cells@.contains_key(k) ==> !self.cells@[k]@.is_empty()
    }

    /// An empty grid.
    pub fn new() -> (g: Self)
        ensures
            g.wf(),
            g@ == Map::<u64, GridCoord>::empty(),
    {
        SpatialGrid { cells: HashMap::new(), entity_positions: HashMap::new() }
    }

    /// Clears the grid.
    pub fn clear(&mut self)
        ensures
            final(self).wf(),
            final(self)@ == Map::<u64, GridCoord>::empty(),
    {
        self.cells.clear();
        self.entity_positions.clear();
    }

    /// The cell of an entity, if indexed.
    pub fn position_of(&self, entity: u64) -> (r: Option<GridCoord>)
        ensures
            r == (if self@.contains_key(entity) {
                Some(self@[entity])
            } else {
                None
            }),
    {
        match self.entity_positions.get(&entity) {
            Some(c) => Some(*c),
            None => None,
        }
    }

    /// Number of indexed entities.
    pub fn len(&self) -> (n: usize)
        ensures
            n == self@.len(),
    {
        self.entity_positions.len()
    }

    /// Takes `entity` out of the cell with key `k`, dropping the cell if it
    /// becomes empty.
    fn take_from_cell(&mut self, k: u64, entity: u64)
        ensures
            final(self).entity_positions == old(self).entity_positions,
            forall|j: u64|
                j != k ==> (#[trigger] final(self).cells@.contains_key(j) == old(
                    self,
                ).cells@.contains_key(j)),
            forall|j: u64|
                j != k && old(self).cells@.contains_key(j) ==> #[trigger] final(self).cells@[j]
                    == old(self).cells@[j],
            old(self).cells@.contains_key(k) && !old(self).cells@[k]@.remove(entity).is_empty()
                ==> final(self).cells@.contains_key(k) && final(self).cells@[k]@ == old(
                self,
            ).cells@[k]@.remove(entity),
            old(self).cells@.contains_key(k) && old(self).cells@[k]@.remove(entity).is_empty()
                ==> !final(self).cells@.contains_key(k),
            !old(self).cells@.contains_key(k) ==> !final(self).cells@.contains_key(k),
            final(self).cells@.contains_key(k) ==> !final(self).cells@[k]@.is_empty(),
    {
        match self.cells.remove(&k) {
            Some(mut cell) => {
                cell.remove(&entity);
                if !cell.is_empty() {
                    self.cells.insert(k, cell);
                }
            },
            None => {},
        }
    }

    /// Removes an entity from the grid.
    pub fn remove_entity(&mut self, entity: u64)
        requires
            old(self).wf(),
        ensures
            final(self).wf(),
            final(self)@ == old(self)@.remove(entity),
    {
        match self.entity_positions.remove(&entity) {
            Some(old_coord) => {
                let k = key_of(old_coord);
                self.take_from_cell(k, entity);
                proof {
                    assert forall|e: u64| #[trigger]
                        self.entity_positions@.contains_key(e) implies {
                        &&& self.cells@.contains_key(cell_key(self.entity_positions@[e]))
                        &&& self.cells@[cell_key(self.entity_positions@[e])]@.contains(e)
                    } by {
                        assert(old(self).entity_positions@.contains_key(e));
                        let ke = cell_key(self.entity_positions@[e]);
                        assert(old(self).cells@[ke]@.contains(e));
                        if ke == k {
                            assert(old(self).cells@[k]@.remove(entity).contains(e));
                        }
                    }
                    assert forall|j: u64, e: u64|
                        self.cells@.contains_key(j) && #[trigger] self.cells@[j]@.contains(
                            e,
                        ) implies {
                        &&& self.entity_positions@.contains_key(e)
                        &&& cell_key(self.entity_positions@[e]) == j
                    } by {
                        assert(old(self).cells@.contains_key(j));
                        assert(old(self).cells@[j]@.contains(e));
                    }
                }
            },
            None => {},
        }
    }

    /// Places an entity in cell `coord`, moving it out of its previous cell
    /// if it was elsewhere.
    pub fn update_entity(&mut self, entity: u64, coord: GridCoord)
        requires
            old(self).wf(),
        ensures
            final(self).wf(),
            final(self)@ == old(self)@.insert(entity, coord),
    {
        match self.entity_positions.get(&entity) {
            Some(old_coord) => {
                if *old_coord == coord {
                    assert(old(self)@.insert(entity, coord) =~= old(self)@);
                    return ;
                }
            },
            None => {},
        }
        self.remove_entity(entity);
        let ghost mid = *self;
        let k = key_of(coord);
        let mut cell = match self.cells.remove(&k) {
            Some(c) => c,
            None => HashSet::new(),
        };
        cell.insert(entity);
        self.cells.insert(k, cell);
        self.entity_positions.insert(entity, coord);
        proof {
            assert forall|e: u64| #[trigger]
                self.entity_positions@.contains_key(e) implies {
                &&& self.cells@.contains_key(cell_key(self.entity_positions@[e]))
                &&& self.cells@[cell_key(self.entity_positions@[e])]@.contains(e)
            } by {
                if e != entity {
                    assert(mid.entity_positions@.contains_key(e));
                    assert(mid.cells@[cell_key(mid.entity_positions@[e])]@.contains(e));
                }
            }
            assert forall|j: u64, e: u64|
                self.cells@.contains_key(j) && #[trigger] self.cells@[j]@.contains(e) implies {
                &&& self.entity_positions@.contains_key(e)
                &&& cell_key(self.entity_positions@[e]) == j
            } by {
                if e != entity {
                    assert(mid.cells@.contains_key(j));
                    assert(mid.cells@[j]@.contains(e));
                } else {
                    if j != k {
                        assert(mid.cells@.contains_key(j));
                        assert(mid.cells@[j]@.contains(entity));
                        assert(!mid.entity_positions@.contains_key(entity));
                    }
                }
            }
            assert forall|j: u64| #[trigger]
                self.cells@.contains_key(j) implies !self.cells@[j]@.is_empty() by {
                if j == k {
                    assert(self.cells@[j]@.contains(entity));
                }
            }
        }
    }
    /// The members of the cell at (`x`, `y`): the entities placed there.
    proof fn lemma_cell_members(&self, x: i32, y: i32)
        requires
            self.wf(),
        ensures
            ({
                let k = cell_key(GridCoord { x, y });
                let members = Set::new(
                    |e: u64| self@.contains_key(e) && self@[e] == GridCoord { x, y },
                );
                &&& self.cells@.contains_key(k) ==> self.cells@[k]@ == members
                &&& !self.cells@.contains_key(k) ==> members == Set::<u64>::empty()
            }),
    {
        let c = GridCoord { x, y };
        let k = cell_key(c);
        let members = Set::new(|e: u64| self@.contains_key(e) && self@[e] == c);
        if self.cells@.contains_key(k) {
            assert forall|e: u64| self.cells@[k]@.contains(e) <==> members.contains(e) by {
                if self.cells@[k]@.contains(e) {
                    lemma_cell_key_injective(self@[e], c);
                }
                if members.contains(e) {
                    assert(self.entity_positions@.contains_key(e));
                }
            }
            assert(self.cells@[k]@ =~= members);
        } else {
            assert forall|e: u64| !members.contains(e) by {
                if members.contains(e) {
                    assert(self.entity_positions@.contains_key(e));
                }
            }
            assert(members =~= Set::<u64>::empty());
        }
    }

    /// The entities in the rectangle of cells from `min` to `max` (both
    /// included), each once, in no particular order.
    pub fn query_cells(&self, min: GridCoord, max: GridCoord) -> (r: Vec<u64>)
        requires
            self.wf(),
        ensures
            r@.no_duplicates(),
            r@.to_set() == entities_in(self@, min, max),
    {
        let mut out: Vec<u64> = Vec::new();
        let mut x: i64 = min.x as i64;
        while x <= max.x as i64
            invariant
                self.wf(),
                min.x <= x <= max.x + 1 || (x == min.x && min.x > max.x),
                out@.no_duplicates(),
                out@.to_set() == entities_between(self@, min.x as int, x as int, min.y as int, max.y + 1),
            decreases max.x + 1 - x,
        {
            let mut y: i64 = min.y as i64;
            while y <= max.y as i64
                invariant
                    self.wf(),
                    min.x <= x <= max.x,
                    min.y <= y <= max.y + 1 || (y == min.y && min.y > max.y),
                    out@.no_duplicates(),
                    out@.to_set() == entities_between(self@, min.x as int, x as int, min.y as int, max.y + 1)
                        + entities_between(self@, x as int, x + 1, min.y as int, y as int),
                decreases max.y + 1 - y,
            {
                let c = GridCoord { x: x as i32, y: y as i32 };
                let k = key_of(c);
                let ghost before = out@;
                proof {
                    self.lemma_cell_members(x as i32, y as i32);
                }
                let ghost members = Set::new(|e: u64| self@.contains_key(e) && self@[e] == c);
                match self.cells.get(&k) {
                    Some(cell) => {
                        append_cell(cell, &mut out);
                        proof {
                            let items = choose|items: Seq<u64>|
                                out@ == before + items && items.to_set() == cell@
                                    && items.no_duplicates();
                            assert forall|i: int, j: int|
                                0 <= i < before.len() && 0 <= j < items.len() implies before[i]
                                != items[j] by {
                                assert(items.to_set().contains(items[j]));
                                assert(before.to_set().contains(before[i]));
                            }
                            vstd::seq_lib::lemma_no_dup_in_concat(before, items);
                            vstd::seq_lib::seq_to_set_distributes_over_add(before, items);
                        }
                    },
                    None => {},
                }
                assert(out@.to_set() =~= entities_between(self@, min.x as int, x as int, min.y as int, max.y + 1)
                    + entities_between(self@, x as int, x + 1, min.y as int, y + 1));
                y = y + 1;
            }
            assert(out@.to_set() =~= entities_between(self@, min.x as int, x + 1, min.y as int, max.y + 1));
            x = x + 1;
        }
        assert(out@.to_set() =~= entities_in(self@, min, max));
        out
    }
}


/// After an entity is placed in a cell, a query finds it exactly when the
/// queried rectangle contains that cell; other entities are found as before.
pub proof fn lemma_update_then_query(
    positions: Map<u64, GridCoord>,
    entity: u64,
    coord: GridCoord,
    min: GridCoord,
    max: GridCoord,
)
    ensures
        entities_in(positions.insert(entity, coord), min, max).contains(entity) <==> in_rect(
            coord,
            min,
            max,
        ),
        forall|e: u64|
            e != entity ==> (entities_in(positions.insert(entity, coord), min, max).contains(e)
                <==> entities_in(positions, min, max).contains(e)),
{
}

/// After an entity is removed, no query finds it; other entities are found as
/// before.
pub proof fn lemma_remove_then_query(
    positions: Map<u64, GridCoord>,
    entity: u64,
    min: GridCoord,
    max: GridCoord,
)
    ensures
        !entities_in(positions.remove(entity), min, max).contains(entity),
        forall|e: u64|
            e != entity ==> (entities_in(positions.remove(entity), min, max).contains(e)
                <==> entities_in(positions, min, max).contains(e)),
{
}

} // verus!
