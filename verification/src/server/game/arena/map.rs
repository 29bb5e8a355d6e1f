//! The ground of an arena and the cells on which its players start.

use vstd::prelude::*;
use vstd::arithmetic::div_mod::{lemma_fundamental_div_mod, lemma_mod_bound};
use crate::message::Terrain;
use crate::vec2::Vec2;

verus! {

/// The longest side that an arena may have. The square of it still counts
/// cells in a `usize` of 32 bits, and its coordinates fit an `i32`.
pub const MAX_MAP_SIZE: usize = 65_535;

/// The cell of spawn slot `index` where consecutive slots lie `stride` cells
/// apart, counted row by row from the top left corner of a square of side
/// `size`.
pub open spec fn spawn_cell(size: nat, stride: nat, index: nat) -> Vec2 {
    Vec2 {
        x: ((index * stride) % size) as i32,
        y: ((index * stride) / size) as i32,
    }
}

/// What a map is: the length of its side, its cells row by row, and the
/// number of spawn slots that were laid out on it.
pub struct MapView {
    pub size: nat,
    pub ground: Seq<Terrain>,
    pub spawn_slots: nat,
}

impl MapView {
    /// The number of cells.
    pub open spec fn cells(self) -> nat {
        self.size * self.size
    }

    /// How far apart consecutive spawn slots lie, in cells counted row by
    /// row: the slots are spread over the whole ground.
    pub open spec fn stride(self) -> nat {
        if self.spawn_slots == 0 {
            1
        } else {
            self.cells() / self.spawn_slots
        }
    }

    /// Whether `position` names a cell of the map.
    pub open spec fn contains(self, position: Vec2) -> bool {
        0 <= position.x < self.size && 0 <= position.y < self.size
    }

    /// The place in `ground` of the cell at `position`.
    pub open spec fn cell_index(self, position: Vec2) -> int {
        position.y * self.size + position.x
    }

    /// The cell on which the player of spawn slot `index` starts.
    pub open spec fn initial_position(self, index: nat) -> Vec2 {
        spawn_cell(self.size, self.stride(), index)
    }

    /// What every map holds: a side within bounds, one terrain for each cell,
    /// and no more spawn slots than cells.
    pub open spec fn wf(self) -> bool {
        &&& self.size <= MAX_MAP_SIZE
        &&& self.ground.len() == self.cells()
        &&& self.spawn_slots <= self.cells()
    }

    /// The map that [`ArenaMap::new`] builds: open floor everywhere, and as
    /// many spawn slots as there are players, or as there are cells if the
    /// players are more.
    pub open spec fn fresh(size: nat, players: nat) -> MapView {
        MapView {
            size,
            ground: Seq::new(size * size, |i: int| Terrain::Floor),
            spawn_slots: if players <= size * size { players } else { size * size },
        }
    }
}

/// The static geometry of an arena: a square of cells, and the spawn slots of
/// its players.
pub struct ArenaMap {
    size: usize,
    ground: Vec<Terrain>,
    spawn_slots: usize,
}

impl View for ArenaMap {
    type V = MapView;

    closed spec fn view(&self) -> MapView {
        MapView {
            size: self.size as nat,
            ground: self.ground@,
            spawn_slots: self.spawn_slots as nat,
        }
    }
}

/// A side within bounds has a number of cells that a `usize` holds.
pub proof fn lemma_cells_fit(size: nat)
    requires
        size <= MAX_MAP_SIZE,
    ensures
        size * size <= 4_294_836_225,
        size * size <= usize::MAX,
{
    assert(size * size <= 65_535 * 65_535) by (nonlinear_arith)
        requires
            size <= 65_535,
    ;
}

/// The spawn slots of a map lie on the map, and no two of them on the same
/// cell.
pub proof fn lemma_initial_positions_distinct(map: MapView, first: nat, second: nat)
    requires
        map.wf(),
        first < map.spawn_slots,
        second < map.spawn_slots,
        first != second,
    ensures
        map.contains(map.initial_position(first)),
        map.contains(map.initial_position(second)),
        map.initial_position(first) != map.initial_position(second),
{
    lemma_spawn_cell_on_map(map, first);
    lemma_spawn_cell_on_map(map, second);
    let size = map.size as int;
    let stride = map.stride() as int;
    let a = first * stride;
    let b = second * stride;
    assert(a != b) by (nonlinear_arith)
        requires
            a == first * stride,
            b == second * stride,
            first != second,
            stride >= 1,
    ;
    lemma_fundamental_div_mod(a, size);
    lemma_fundamental_div_mod(b, size);
}

/// A spawn slot of a map lies on the map: its cell is one of the map's cells.
pub proof fn lemma_spawn_cell_on_map(map: MapView, index: nat)
    requires
        map.wf(),
        index < map.spawn_slots,
    ensures
        map.stride() >= 1,
        index * map.stride() < map.cells(),
        map.size > 0,
        map.contains(map.initial_position(index)),
        map.initial_position(index).x == (index * map.stride()) % map.size,
        map.initial_position(index).y == (index * map.stride()) / map.size,
{
    let cells = map.cells() as int;
    let slots = map.spawn_slots as int;
    let stride = map.stride() as int;
    let size = map.size as int;
    lemma_cells_fit(map.size);
    assert(size > 0) by (nonlinear_arith)
        requires
            cells == size * size,
            cells > 0,
            size >= 0,
    ;
    lemma_fundamental_div_mod(cells, slots);
    lemma_mod_bound(cells, slots);
    assert(slots * stride <= cells);
    assert(stride >= 1) by (nonlinear_arith)
        requires
            cells == slots * stride + cells % slots,
            0 <= cells % slots < slots,
            slots <= cells,
            slots > 0,
    ;
    let cell = index * stride;
    assert(cell < cells) by (nonlinear_arith)
        requires
            cell == index * stride,
            0 <= index < slots,
            stride >= 1,
            slots * stride <= cells,
    ;
    assert(cell >= 0) by (nonlinear_arith)
        requires
            cell == index * stride,
            index >= 0,
            stride >= 1,
    ;
    lemma_fundamental_div_mod(cell, size);
    lemma_mod_bound(cell, size);
    assert(0 <= cell / size < size) by (nonlinear_arith)
        requires
            cell == size * (cell / size) + cell % size,
            0 <= cell % size < size,
            0 <= cell < size * size,
            size > 0,
    ;
}

impl ArenaMap {
    #[verifier::type_invariant]
    spec fn sound(self) -> bool {
        self@.wf()
    }

    /// Builds the ground of an arena with the given side, and lays out the
    /// spawn slots for `players` players.
    pub fn new(size: usize, players: usize) -> (map: ArenaMap)
        requires
            size <= MAX_MAP_SIZE,
        ensures
            map@ == MapView::fresh(size as nat, players as nat),
            map@.wf(),
    {
        proof {
            lemma_cells_fit(size as nat);
        }
        let cells: usize = size * size;
        let mut ground: Vec<Terrain> = Vec::new();
        let mut filled: usize = 0;
        while filled < cells
            invariant
                filled <= cells,
                ground@.len() == filled,
                forall|i: int| 0 <= i < filled ==> ground@[i] == Terrain::Floor,
            decreases cells - filled,
        {
            ground.push(Terrain::Floor);
            filled += 1;
        }
        let spawn_slots: usize = if players <= cells { players } else { cells };
        let map = ArenaMap { size, ground, spawn_slots };
        assert(map@.ground =~= MapView::fresh(size as nat, players as nat).ground);
        map
    }

    /// The length of a side of the map.
    pub fn size(&self) -> (size: usize)
        ensures
            size == self@.size,
            self@.wf(),
    {
        proof {
            use_type_invariant(self);
        }
        self.size
    }

    /// The number of players that can start on this map without sharing a
    /// cell.
    pub fn spawn_capacity(&self) -> (slots: usize)
        ensures
            slots == self@.spawn_slots,
    {
        self.spawn_slots
    }

    /// The terrain of the cell at `position`, which has to lie on the map.
    pub fn terrain(&self, position: Vec2) -> (terrain: Terrain)
        requires
            self@.contains(position),
        ensures
            terrain == self@.ground[self@.cell_index(position)],
    {
        proof {
            use_type_invariant(self);
            lemma_cells_fit(self@.size);
            let size = self.size as int;
            let x = position.x as int;
            let y = position.y as int;
            assert(0 <= y * size + x < size * size) by (nonlinear_arith)
                requires
                    0 <= x < size,
                    0 <= y < size,
            ;
            assert(0 <= y * size <= size * size) by (nonlinear_arith)
                requires
                    0 <= y < size,
            ;
        }
        let row: usize = position.y as usize;
        let column: usize = position.x as usize;
        self.ground[row * self.size + column]
    }

    /// The cell on which the player of spawn slot `index` starts. Slots of one
    /// map never share a cell, and the same side, number of players and slot
    /// always give the same cell.
    pub fn initial_position(&self, index: usize) -> (position: Vec2)
        requires
            index < self@.spawn_slots,
        ensures
            position == self@.initial_position(index as nat),
            self@.contains(position),
    {
        proof {
            use_type_invariant(self);
            lemma_cells_fit(self@.size);
            lemma_spawn_cell_on_map(self@, index as nat);
        }
        let cells: usize = self.size * self.size;
        let stride: usize = cells / self.spawn_slots;
        let cell: usize = index * stride;
        let position = Vec2 { x: (cell % self.size) as i32, y: (cell / self.size) as i32 };
        position
    }
}

} // verus!
