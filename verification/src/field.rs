use vstd::prelude::*;
use crate::moves::{Direction, Move};
use crate::unit::{GeneralUnit, PovUnit, Unit};
use crate::Player;

verus! {

/// A board: a `width` x `height` grid of optional units, stored row-major
/// (the cell at column `x`, row `y` sits at index `y * width + x`).
/// Dimensions are explicit configuration, fixed at construction.
#[derive(Debug)]
pub struct Field<T: Unit> {
    pub width: usize,
    pub height: usize,
    pub cells: Vec<Option<T>>,
}

impl<T: Unit> Field<T> {
    /// The grid invariant: both dimensions positive, and exactly one slot
    /// per cell.
    pub open spec fn wf(self) -> bool {
        &&& self.width >= 1
        &&& self.height >= 1
        &&& self.cells@.len() == self.width * self.height
    }

    pub open spec fn in_bounds(self, x: int, y: int) -> bool {
        &&& 0 <= x < self.width
        &&& 0 <= y < self.height
    }

    /// The row-major slot of cell (x, y).
    pub open spec fn idx(self, x: int, y: int) -> int {
        y * self.width + x
    }

    /// The occupant of cell (x, y).
    pub open spec fn cell(self, x: int, y: int) -> Option<T> {
        self.cells@[self.idx(x, y)]
    }

    /// How many cells hold a unit.
    pub open spec fn unit_count(self) -> nat {
        count_units(self.cells@)
    }

    pub proof fn lemma_idx_bounds(self, x: int, y: int)
        requires
            self.wf(),
            self.in_bounds(x, y),
        ensures
            0 <= self.idx(x, y) < self.cells@.len(),
    {
        assert(0 <= y * self.width + x < self.width * self.height) by (nonlinear_arith)
            requires
                0 <= x < self.width,
                0 <= y < self.height,
        ;
    }

    /// Distinct in-bounds cells occupy distinct slots.
    pub proof fn lemma_idx_injective(self, x1: int, y1: int, x2: int, y2: int)
        requires
            self.wf(),
            self.in_bounds(x1, y1),
            self.in_bounds(x2, y2),
            self.idx(x1, y1) == self.idx(x2, y2),
        ensures
            x1 == x2,
            y1 == y2,
    {
        assert(y1 == y2 && x1 == x2) by (nonlinear_arith)
            requires
                0 <= x1 < self.width,
                0 <= x2 < self.width,
                0 <= y1 < self.height,
                0 <= y2 < self.height,
                y1 * self.width + x1 == y2 * self.width + x2,
        ;
    }

    /// An empty board of the given dimensions.
    pub fn new(width: usize, height: usize) -> (f: Field<T>)
        requires
            1 <= width,
            1 <= height,
            width * height <= usize::MAX,
        ensures
            f.wf(),
            f.width == width,
            f.height == height,
            forall|i: int| 0 <= i < f.cells@.len() ==> f.cells@[i] is None,
            forall|x: int, y: int| f.in_bounds(x, y) ==> f.cell(x, y) is None,
            f.unit_count() == 0,
    {
        let n: usize = width * height;
        let mut cells: Vec<Option<T>> = Vec::new();
        let mut i: usize = 0;
        while i < n
            invariant
                0 <= i <= n,
                cells@.len() == i,
                forall|k: int| 0 <= k < i ==> cells@[k] is None,
            decreases n - i,
        {
            cells.push(None);
            i += 1;
        }
        let f = Field { width, height, cells };
        proof {
            assert forall|x: int, y: int| f.in_bounds(x, y) implies f.cell(x, y) is None by {
                f.lemma_idx_bounds(x, y);
            }
            lemma_count_units_none(f.cells@);
        }
        f
    }

    /// Read cell (x, y).
    pub fn get(&self, x: usize, y: usize) -> (r: Option<T>)
        requires
            self.wf(),
            self.in_bounds(x as int, y as int),
        ensures
            r == self.cell(x as int, y as int),
    {
        proof {
            self.lemma_idx_bounds(x as int, y as int);
        }
        let n: usize = self.cells.len();
        assert((y as int) * (self.width as int) + (x as int) < (n as int));
        self.cells[y * self.width + x]
    }

    /// Overwrite cell (x, y); every other cell keeps its occupant.
    pub fn set(&mut self, x: usize, y: usize, value: Option<T>)
        requires
            old(self).wf(),
            old(self).in_bounds(x as int, y as int),
        ensures
            final(self).wf(),
            final(self).width == old(self).width,
            final(self).height == old(self).height,
            final(self).cells@ == old(self).cells@.update(
                old(self).idx(x as int, y as int),
                value,
            ),
            final(self).cell(x as int, y as int) == value,
            forall|i: int, j: int|
                old(self).in_bounds(i, j) && (i != x as int || j != y as int) ==> final(self).cell(
                    i,
                    j,
                ) == old(self).cell(i, j),
    {
        proof {
            self.lemma_idx_bounds(x as int, y as int);
        }
        let n: usize = self.cells.len();
        assert((y as int) * (self.width as int) + (x as int) < (n as int));
        let slot: usize = y * self.width + x;
        self.cells[slot] = value;
        proof {
            assert forall|i: int, j: int|
                old(self).in_bounds(i, j) && (i != x as int || j != y as int) implies self.cell(
                i,
                j,
            ) == old(self).cell(i, j) by {
                old(self).lemma_idx_bounds(i, j);
                if old(self).idx(i, j) == old(self).idx(x as int, y as int) {
                    old(self).lemma_idx_injective(i, j, x as int, y as int);
                }
            }
        }
    }

    /// The candidate moves of the cell at flat slot `i`: one per direction
    /// of the fixed eight-direction set when the cell holds a unit of
    /// `player`, none otherwise. Neither board-boundary, occupancy, nor
    /// move-legality checks happen here: all are deferred to move
    /// validation.
    pub open spec fn cell_moves(self, player: Player, i: int) -> Seq<Move> {
        let x = i % (self.width as int);
        let y = i / (self.width as int);
        match self.cells@[i] {
            Some(u) => if u.owner_spec() == player {
                seq![
                    Move { from: (x as usize, y as usize), direction: Direction::Forward },
                    Move { from: (x as usize, y as usize), direction: Direction::Back },
                    Move { from: (x as usize, y as usize), direction: Direction::Left },
                    Move { from: (x as usize, y as usize), direction: Direction::Right },
                    Move { from: (x as usize, y as usize), direction: Direction::ForwardLeft },
                    Move { from: (x as usize, y as usize), direction: Direction::ForwardRight },
                    Move { from: (x as usize, y as usize), direction: Direction::BackLeft },
                    Move { from: (x as usize, y as usize), direction: Direction::BackRight },
                ]
            } else {
                Seq::empty()
            },
            None => Seq::empty(),
        }
    }

    /// The candidate moves of the first `n` slots, in slot order.
    pub open spec fn moves_upto(self, player: Player, n: int) -> Seq<Move>
        decreases n,
    {
        if n <= 0 {
            Seq::empty()
        } else {
            self.moves_upto(player, n - 1) + self.cell_moves(player, n - 1)
        }
    }

    /// All candidate moves of `player`: for every cell owned by `player`,
    /// one move per direction of the fixed eight-direction set, scanning
    /// cells row-major. Legality is not checked here; that is move
    /// validation's job.
    pub open spec fn possible_moves_spec(self, player: Player) -> Seq<Move> {
        self.moves_upto(player, self.cells@.len() as int)
    }

    /// The flat slot `i` names the cell (i % width, i / width).
    proof fn lemma_flat_coords(self, i: int)
        requires
            self.wf(),
            0 <= i < self.cells@.len(),
        ensures
            self.in_bounds(i % (self.width as int), i / (self.width as int)),
            self.idx(i % (self.width as int), i / (self.width as int)) == i,
    {
        let w = self.width as int;
        let h = self.height as int;
        vstd::arithmetic::div_mod::lemma_mod_bound(i, w);
        vstd::arithmetic::div_mod::lemma_fundamental_div_mod(i, w);
        assert(0 <= i / w < h && (i / w) * w + i % w == i) by (nonlinear_arith)
            requires
                i == w * (i / w) + i % w,
                0 <= i % w < w,
                0 <= i < w * h,
                w > 0,
        ;
    }

    /// The cell (x, y) sits at flat slot idx(x, y): dividing that slot by
    /// the width recovers the coordinates.
    proof fn lemma_coords_flat(self, x: int, y: int)
        requires
            self.wf(),
            self.in_bounds(x, y),
        ensures
            self.idx(x, y) % (self.width as int) == x,
            self.idx(x, y) / (self.width as int) == y,
    {
        let w = self.width as int;
        let i = self.idx(x, y);
        vstd::arithmetic::div_mod::lemma_mod_bound(i, w);
        vstd::arithmetic::div_mod::lemma_fundamental_div_mod(i, w);
        assert(i % w == x && i / w == y) by (nonlinear_arith)
            requires
                i == y * w + x,
                0 <= x < w,
                i == w * (i / w) + i % w,
                0 <= i % w < w,
                w > 0,
        ;
    }

    proof fn lemma_moves_upto_contains(self, player: Player, n: int, m: Move)
        requires
            self.wf(),
            0 <= n <= self.cells@.len(),
        ensures
            self.moves_upto(player, n).contains(m) <==> exists|i: int|
                0 <= i < n && #[trigger] self.cell_moves(player, i).contains(m),
        decreases n,
    {
        if n > 0 {
            self.lemma_moves_upto_contains(player, n - 1, m);
            let a = self.moves_upto(player, n - 1);
            let b = self.cell_moves(player, n - 1);
            if (a + b).contains(m) {
                let k = choose|k: int| 0 <= k < (a + b).len() && (a + b)[k] == m;
                if k < a.len() {
                    assert(a[k] == m);
                    assert(a.contains(m));
                } else {
                    assert(b[k - a.len()] == m);
                    assert(b.contains(m));
                }
            }
            if a.contains(m) {
                let k = choose|k: int| 0 <= k < a.len() && a[k] == m;
                assert((a + b)[k] == m);
                assert((a + b).contains(m));
            }
            if b.contains(m) {
                let k = choose|k: int| 0 <= k < b.len() && b[k] == m;
                assert((a + b)[a.len() + k] == m);
                assert((a + b).contains(m));
            }
        }
    }

    /// Enumeration is sound and complete: `possible_moves` lists a move if
    /// and only if its origin cell is on the board and holds a unit of
    /// `player` — one candidate per direction of the fixed set, with no
    /// boundary, occupancy or move-legality filtering. All of that is
    /// deferred to move validation.
    pub proof fn lemma_possible_moves_characterization(self, player: Player, m: Move)
        requires
            self.wf(),
        ensures
            self.possible_moves_spec(player).contains(m) <==> {
                &&& self.in_bounds(m.from.0 as int, m.from.1 as int)
                &&& self.cell(m.from.0 as int, m.from.1 as int) matches Some(u) && u.owner_spec()
                    == player
            },
    {
        let n = self.cells@.len() as int;
        let w = self.width as int;
        let fx = m.from.0 as int;
        let fy = m.from.1 as int;
        self.lemma_moves_upto_contains(player, n, m);
        if self.possible_moves_spec(player).contains(m) {
            let i = choose|i: int| 0 <= i < n && #[trigger] self.cell_moves(player, i).contains(m);
            self.lemma_flat_coords(i);
            let s = self.cell_moves(player, i);
            let k = choose|k: int| 0 <= k < s.len() && s[k] == m;
            assert(m.from.0 == (i % w) as usize && m.from.1 == (i / w) as usize);
            assert(self.cell(fx, fy) == self.cells@[i]);
        }
        if {
            &&& self.in_bounds(fx, fy)
            &&& self.cell(fx, fy) matches Some(u) && u.owner_spec() == player
        } {
            let i = self.idx(fx, fy);
            self.lemma_idx_bounds(fx, fy);
            self.lemma_coords_flat(fx, fy);
            let s = self.cell_moves(player, i);
            assert(s.len() == 8);
            match m.direction {
                Direction::Forward => assert(s[0] == m),
                Direction::Back => assert(s[1] == m),
                Direction::Left => assert(s[2] == m),
                Direction::Right => assert(s[3] == m),
                Direction::ForwardLeft => assert(s[4] == m),
                Direction::ForwardRight => assert(s[5] == m),
                Direction::BackLeft => assert(s[6] == m),
                Direction::BackRight => assert(s[7] == m),
            }
            assert(s.contains(m));
        }
    }

    pub fn possible_moves(&self, player: Player) -> (r: Vec<Move>)
        requires
            self.wf(),
        ensures
            r@ == self.possible_moves_spec(player),
    {
        let mut res: Vec<Move> = Vec::new();
        let n: usize = self.cells.len();
        let mut i: usize = 0;
        while i < n
            invariant
                self.wf(),
                n == self.cells@.len(),
                0 <= i <= n,
                res@ == self.moves_upto(player, i as int),
            decreases n - i,
        {
            let x: usize = i % self.width;
            let y: usize = i / self.width;
            if let Some(u) = self.cells[i] {
                if u.owner() == player {
                    res.push(Move::new(x, y, Direction::Forward));
                    res.push(Move::new(x, y, Direction::Back));
                    res.push(Move::new(x, y, Direction::Left));
                    res.push(Move::new(x, y, Direction::Right));
                    res.push(Move::new(x, y, Direction::ForwardLeft));
                    res.push(Move::new(x, y, Direction::ForwardRight));
                    res.push(Move::new(x, y, Direction::BackLeft));
                    res.push(Move::new(x, y, Direction::BackRight));
                }
            }
            assert(res@ == self.moves_upto(player, i + 1));
            i += 1;
        }
        res
    }
}

/// How many slots of `s` hold a unit.
pub open spec fn count_units<T>(s: Seq<Option<T>>) -> nat
    decreases s.len(),
{
    if s.len() == 0 {
        0
    } else {
        count_units(s.drop_last()) + (if s.last() is Some {
            1nat
        } else {
            0nat
        })
    }
}

pub proof fn lemma_count_units_none<T>(s: Seq<Option<T>>)
    requires
        forall|i: int| 0 <= i < s.len() ==> s[i] is None,
    ensures
        count_units(s) == 0,
    decreases s.len(),
{
    if s.len() > 0 {
        lemma_count_units_none(s.drop_last());
    }
}

/// Overwriting one slot changes the unit count by the difference of the two
/// occupancies: this is what conservation across moves rests on.
pub proof fn lemma_count_units_update<T>(s: Seq<Option<T>>, i: int, v: Option<T>)
    requires
        0 <= i < s.len(),
    ensures
        count_units(s.update(i, v)) == count_units(s) + (if v is Some {
            1int
        } else {
            0int
        }) - (if s[i] is Some {
            1int
        } else {
            0int
        }),
    decreases s.len(),
{
    let t = s.update(i, v);
    if i == s.len() - 1 {
        assert(t.drop_last() =~= s.drop_last());
    } else {
        lemma_count_units_update(s.drop_last(), i, v);
        assert(t.drop_last() =~= s.drop_last().update(i, v));
        assert(t.last() == s.last());
    }
}

/// What `viewer` is allowed to see of one cell: empty stays empty, an
/// occupant is projected unit-wise.
pub open spec fn pov_cell_spec(cell: Option<GeneralUnit>, viewer: Player) -> Option<PovUnit> {
    match cell {
        Some(u) => Some(PovUnit::project_spec(u, viewer)),
        None => None,
    }
}

/// A board as one player is allowed to see it: derived, read-only, and
/// recomputed on demand; never authoritative state.
#[derive(Debug)]
pub struct PovField {
    pub pov: Player,
    pub field: Field<PovUnit>,
}

impl PovField {
    /// Project the authoritative board for `viewer`: cell by cell, allies in
    /// full, enemies redacted unless revealed, empty cells empty.
    pub fn project(field: &Field<GeneralUnit>, viewer: Player) -> (r: PovField)
        requires
            field.wf(),
        ensures
            r.pov == viewer,
            r.field.wf(),
            r.field.width == field.width,
            r.field.height == field.height,
            r.field.cells@ == field.cells@.map_values(|c| pov_cell_spec(c, viewer)),
            forall|x: int, y: int|
                field.in_bounds(x, y) ==> r.field.cell(x, y) == pov_cell_spec(
                    field.cell(x, y),
                    viewer,
                ),
    {
        let n: usize = field.cells.len();
        let mut cells: Vec<Option<PovUnit>> = Vec::new();
        let mut i: usize = 0;
        while i < n
            invariant
                field.wf(),
                n == field.cells@.len(),
                0 <= i <= n,
                cells@ == field.cells@.take(i as int).map_values(|c| pov_cell_spec(c, viewer)),
            decreases n - i,
        {
            let projected: Option<PovUnit> = match field.cells[i] {
                Some(u) => Some(PovUnit::project(u, viewer)),
                None => None,
            };
            cells.push(projected);
            proof {
                assert(field.cells@.take(i + 1).drop_last() =~= field.cells@.take(i as int));
                assert(cells@ =~= field.cells@.take(i + 1).map_values(
                    |c| pov_cell_spec(c, viewer),
                ));
            }
            i += 1;
        }
        proof {
            assert(field.cells@.take(n as int) =~= field.cells@);
        }
        let r = PovField { pov: viewer, field: Field { width: field.width, height: field.height, cells } };
        proof {
            assert forall|x: int, y: int| field.in_bounds(x, y) implies r.field.cell(x, y)
                == pov_cell_spec(field.cell(x, y), viewer) by {
                field.lemma_idx_bounds(x, y);
            }
        }
        r
    }

    /// The candidate moves the viewing player can see for their own side.
    pub fn possible_moves(&self) -> (r: Vec<Move>)
        requires
            self.field.wf(),
        ensures
            r@ == self.field.possible_moves_spec(self.pov),
    {
        self.field.possible_moves(self.pov)
    }

    /// Fog-of-war non-leakage over a whole board: in the projection for
    /// `viewer`, an opponent unit's kind appears if and only if the unit's
    /// `visible` flag is true, and then it is the true kind; empty cells
    /// stay empty and no cell changes owner.
    pub proof fn lemma_fog_non_leakage(field: Field<GeneralUnit>, viewer: Player)
        ensures
            forall|x: int, y: int|
                field.in_bounds(x, y) ==> match field.cell(x, y) {
                    None => pov_cell_spec(field.cell(x, y), viewer) is None,
                    Some(u) => {
                        &&& pov_cell_spec(field.cell(x, y), viewer) matches Some(p)
                        &&& p.owner_spec() == u.owner
                        &&& u.owner != viewer ==> (p.rps_spec() is Some <==> u.visible)
                        &&& u.owner != viewer && u.visible ==> p.rps_spec() == Some(u.rps)
                        &&& u.owner == viewer ==> p.rps_spec() == Some(u.rps)
                    },
                },
    {
    }
}

} // verus!
