use vstd::prelude::*;

pub mod codec;
pub mod field;
pub mod move_conditions;
pub mod moves;
pub mod unit;
pub mod win_conditions;

use core::marker::PhantomData;
use crate::field::{lemma_count_units_update, pov_cell_spec, Field, PovField};
use crate::moves::{is_valid, is_valid_spec, Move};
use crate::unit::{GeneralUnit, Unit};
use crate::win_conditions::{cell_owned_by, WinCondition};

verus! {

/// One of the two sides of a match.
#[derive(Clone, Copy, Debug, PartialEq, Eq, Structural)]
pub enum Player {
    Red,
    Blue,
}

impl Player {
    /// The side that moves after this one: the two alternate strictly.
    pub open spec fn next_spec(self) -> Player {
        match self {
            Player::Red => Player::Blue,
            Player::Blue => Player::Red,
        }
    }

    pub fn next(&self) -> (p: Player)
        ensures
            p == self.next_spec(),
    {
        match *self {
            Player::Red => Player::Blue,
            Player::Blue => Player::Red,
        }
    }

    /// A fresh, not yet revealed unit of this side with the given kind.
    pub fn unit(&self, rps: RPS) -> (u: GeneralUnit)
        ensures
            u.rps == rps,
            u.owner == *self,
            !u.visible,
    {
        GeneralUnit::new(rps, *self)
    }

    /// A fresh unit of this side with a randomly drawn kind.
    pub fn random_unit(&self) -> (u: GeneralUnit)
        ensures
            u.owner == *self,
            !u.visible,
    {
        self.unit(random_kind())
    }
}

/// The kind of a unit: the three members of the type relation.
#[derive(Clone, Copy, Debug, PartialEq, Eq, Structural)]
pub enum RPS {
    Rock,
    Paper,
    Scissors,
}

/// The verdict of one combat, seen from the attacker's side.
#[derive(Clone, Copy, Debug, PartialEq, Eq, Structural)]
pub enum Outcome {
    Win,
    Lose,
    Draw,
}

impl RPS {
    /// The type relation: Paper beats Rock, Rock beats Scissors, Scissors
    /// beats Paper; equal kinds draw.
    pub open spec fn attack_spec(self, opponent: RPS) -> Outcome {
        match (self, opponent) {
            (RPS::Paper, RPS::Rock) => Outcome::Win,
            (RPS::Rock, RPS::Scissors) => Outcome::Win,
            (RPS::Scissors, RPS::Paper) => Outcome::Win,
            (RPS::Rock, RPS::Paper) => Outcome::Lose,
            (RPS::Scissors, RPS::Rock) => Outcome::Lose,
            (RPS::Paper, RPS::Scissors) => Outcome::Lose,
            _ => Outcome::Draw,
        }
    }

    pub fn attack(&self, opponent: RPS) -> (o: Outcome)
        ensures
            o == self.attack_spec(opponent),
    {
        match (*self, opponent) {
            (RPS::Paper, RPS::Rock) => Outcome::Win,
            (RPS::Rock, RPS::Scissors) => Outcome::Win,
            (RPS::Scissors, RPS::Paper) => Outcome::Win,
            (RPS::Rock, RPS::Paper) => Outcome::Lose,
            (RPS::Scissors, RPS::Rock) => Outcome::Lose,
            (RPS::Paper, RPS::Scissors) => Outcome::Lose,
            _ => Outcome::Draw,
        }
    }

    /// The type relation is consistent: the two sides of one combat see
    /// inverse verdicts, and only equal kinds draw.
    pub proof fn lemma_attack_consistent(a: RPS, b: RPS)
        ensures
            a.attack_spec(b) == Outcome::Win <==> b.attack_spec(a) == Outcome::Lose,
            a.attack_spec(b) == Outcome::Draw <==> a == b,
    {
    }

    /// The kind a drawn 32-bit value stands for: its residue modulo three
    /// picks one of the three kinds.
    pub open spec fn from_entropy_spec(entropy: u32) -> RPS {
        if entropy % 3 == 0 {
            RPS::Rock
        } else if entropy % 3 == 1 {
            RPS::Paper
        } else {
            RPS::Scissors
        }
    }

    pub fn from_entropy(entropy: u32) -> (r: RPS)
        ensures
            r == Self::from_entropy_spec(entropy),
    {
        match entropy % 3 {
            0 => RPS::Rock,
            1 => RPS::Paper,
            _ => RPS::Scissors,
        }
    }
}

/// Relies on rand::random: a 32-bit value drawn from the thread-local
/// generator. Nothing is promised of the result; callers treat every value
/// as possible.
#[verifier::external_body]
fn random_entropy() -> u32 {
    rand::random::<u32>()
}

/// A freshly drawn unit kind. The draw is random, so no ensures pins it.
fn random_kind() -> RPS {
    RPS::from_entropy(random_entropy())
}

/// Why a proposed move was refused, in the order the checks run.
#[derive(Clone, Copy, Debug, PartialEq, Eq, Structural)]
pub enum MoveError {
    GameAlreadyFinished,
    DeclinedByMoveCondition,
    PositionOutOfBounds,
    WrongOwner,
    NoUnitInPosition,
    SameOwner,
    UnexpextedError,
}

/// The configurable rule set of a match; today only the win condition is
/// pluggable.
#[derive(Debug)]
pub struct Rules<K: Unit, T: WinCondition<K>> {
    pub win_condition: T,
    pub phantom_data: PhantomData<K>,
}

impl<K: Unit, T: WinCondition<K>> Rules<K, T> {
    pub fn new(win_condition: T) -> (r: Rules<K, T>)
        ensures
            r.win_condition == win_condition,
    {
        Rules { win_condition, phantom_data: PhantomData }
    }
}

/// The side whose move it is when the turn counter stands at `turns`:
/// Red moves first, on the odd counts.
pub open spec fn turn_of_spec(turns: u32) -> Player {
    if turns % 2 == 1 {
        Player::Red
    } else {
        Player::Blue
    }
}

/// What one cell of a freshly set-up board must hold: `rows` full rows of
/// hidden Red units at the near edge, as many hidden Blue units at the far
/// edge, emptiness between.
pub open spec fn setup_cell_ok(
    cell: Option<GeneralUnit>,
    y: int,
    height: int,
    rows: int,
) -> bool {
    if y < rows {
        cell matches Some(u) && u.owner == Player::Red && !u.visible
    } else if y >= height - rows {
        cell matches Some(u) && u.owner == Player::Blue && !u.visible
    } else {
        cell is None
    }
}

/// Fill row `y` with fresh randomly-kinded units of `player`; no other cell
/// changes.
fn fill_random_row(board: &mut Field<GeneralUnit>, y: usize, player: Player)
    requires
        old(board).wf(),
        (y as int) < old(board).height,
    ensures
        final(board).wf(),
        final(board).width == old(board).width,
        final(board).height == old(board).height,
        forall|x: int|
            0 <= x < final(board).width ==> (#[trigger] final(board).cell(x, y as int)
                matches Some(u) && u.owner == player && !u.visible),
        forall|i: int, j: int|
            old(board).in_bounds(i, j) && j != y as int ==> final(board).cell(i, j) == old(
                board,
            ).cell(i, j),
{
    let w: usize = board.width;
    let mut x: usize = 0;
    while x < w
        invariant
            board.wf(),
            w == board.width,
            board.width == old(board).width,
            board.height == old(board).height,
            (y as int) < board.height,
            0 <= x <= w,
            forall|k: int|
                0 <= k < x ==> (#[trigger] board.cell(k, y as int) matches Some(u) && u.owner
                    == player && !u.visible),
            forall|i: int, j: int|
                old(board).in_bounds(i, j) && (j != y as int || i >= x) ==> board.cell(i, j)
                    == old(board).cell(i, j),
        decreases w - x,
    {
        let u = player.random_unit();
        board.set(x, y, Some(u));
        x += 1;
    }
}

/// One match: the authoritative board, the active rule set, turn and winner
/// bookkeeping. `make_move` is the single mutating entry point.
#[derive(Debug)]
pub struct Game<T: WinCondition<GeneralUnit>> {
    pub turns: u32,
    pub current_turn: Player,
    pub winner: Option<Player>,
    pub field: Field<GeneralUnit>,
    pub rules: Rules<GeneralUnit, T>,
}

impl<T: WinCondition<GeneralUnit>> Game<T> {
    /// The game invariant: a well-formed board, and the side to move bound
    /// to the parity of the turn counter.
    pub open spec fn wf(self) -> bool {
        &&& self.field.wf()
        &&& self.turns >= 1
        &&& self.current_turn == turn_of_spec(self.turns)
    }

    /// Turn alternation: after `n` successful moves the counter stands at
    /// `n + 1`, and the side to move is Red exactly when `n` is even.
    pub proof fn lemma_turn_alternation(self)
        requires
            self.wf(),
        ensures
            self.current_turn == (if (self.turns - 1) % 2 == 0 {
                Player::Red
            } else {
                Player::Blue
            }),
    {
    }

    /// The destination cell of `movement` for the side to move.
    pub open spec fn dest_spec(self, movement: Move) -> (int, int) {
        (
            movement.from.0 + movement.direction.dx_spec(),
            movement.from.1 + movement.direction.dy_spec(self.current_turn),
        )
    }

    /// The validation verdict on `movement`, checks in this order: finished
    /// game, move-legality rule, origin on the board, origin occupied,
    /// origin owned by the side to move, destination on the board,
    /// destination not owned by the side to move. `None` means the move is
    /// accepted and will mutate the board.
    pub open spec fn move_error_spec(self, movement: Move) -> Option<MoveError> {
        let fx = movement.from.0 as int;
        let fy = movement.from.1 as int;
        let to = self.dest_spec(movement);
        if self.winner is Some {
            Some(MoveError::GameAlreadyFinished)
        } else if !is_valid_spec(movement) {
            Some(MoveError::DeclinedByMoveCondition)
        } else if !self.field.in_bounds(fx, fy) {
            Some(MoveError::PositionOutOfBounds)
        } else if self.field.cell(fx, fy) is None {
            Some(MoveError::NoUnitInPosition)
        } else if self.field.cell(fx, fy)->Some_0.owner != self.current_turn {
            Some(MoveError::WrongOwner)
        } else if !self.field.in_bounds(to.0, to.1) {
            Some(MoveError::PositionOutOfBounds)
        } else if cell_owned_by(self.field.cell(to.0, to.1), self.current_turn) {
            Some(MoveError::SameOwner)
        } else {
            None
        }
    }

    /// The combat verdict an accepted move produces: `None` for a move onto
    /// an empty cell, otherwise the type relation of attacker vs defender.
    pub open spec fn outcome_spec(self, movement: Move) -> Option<Outcome> {
        let fx = movement.from.0 as int;
        let fy = movement.from.1 as int;
        let to = self.dest_spec(movement);
        let a = self.field.cell(fx, fy)->Some_0;
        match self.field.cell(to.0, to.1) {
            Some(d) => Some(a.rps.attack_spec(d.rps)),
            None => None,
        }
    }

    /// How the state after an accepted move relates to the state before it:
    /// the turn counter advances and the side to move flips; the winner is
    /// what the active win condition says of the new board; and the board
    /// changes only at origin and destination, by the rules of relocation
    /// and combat. The unit-count clauses state conservation: one unit falls
    /// on Win or Lose, none otherwise.
    pub open spec fn moved_state_ok(pre: Game<T>, post: Game<T>, movement: Move) -> bool {
        let fx = movement.from.0 as int;
        let fy = movement.from.1 as int;
        let to = pre.dest_spec(movement);
        let tx = to.0;
        let ty = to.1;
        let a = pre.field.cell(fx, fy)->Some_0;
        &&& post.turns == pre.turns + 1
        &&& post.current_turn == pre.current_turn.next_spec()
        &&& post.rules == pre.rules
        &&& post.field.width == pre.field.width
        &&& post.field.height == pre.field.height
        &&& post.winner == pre.rules.win_condition.winner_spec(post.field)
        &&& (forall|i: int, j: int|
            pre.field.in_bounds(i, j) && !(i == fx && j == fy) && !(i == tx && j == ty)
                ==> post.field.cell(i, j) == pre.field.cell(i, j))
        &&& match pre.outcome_spec(movement) {
            None => {
                &&& post.field.cell(tx, ty) == Some(a)
                &&& post.field.cell(fx, fy) is None
                &&& post.field.unit_count() == pre.field.unit_count()
            },
            Some(Outcome::Win) => {
                &&& post.field.cell(tx, ty) == Some(
                    GeneralUnit { rps: a.rps, owner: a.owner, visible: true },
                )
                &&& post.field.cell(fx, fy) is None
                &&& post.field.unit_count() + 1 == pre.field.unit_count()
            },
            Some(Outcome::Lose) => {
                let d = pre.field.cell(tx, ty)->Some_0;
                &&& post.field.cell(fx, fy) is None
                &&& post.field.cell(tx, ty) == Some(
                    GeneralUnit { rps: d.rps, owner: d.owner, visible: true },
                )
                &&& post.field.unit_count() + 1 == pre.field.unit_count()
            },
            Some(Outcome::Draw) => {
                let d = pre.field.cell(tx, ty)->Some_0;
                &&& if a.visible && d.visible {
                    &&& post.field.cell(fx, fy) matches Some(u1) && u1.owner == a.owner
                        && u1.visible
                    &&& post.field.cell(tx, ty) matches Some(u2) && u2.owner == d.owner
                        && u2.visible
                } else {
                    &&& post.field.cell(fx, fy) == Some(
                        GeneralUnit { rps: a.rps, owner: a.owner, visible: true },
                    )
                    &&& post.field.cell(tx, ty) == Some(
                        GeneralUnit { rps: d.rps, owner: d.owner, visible: true },
                    )
                }
                &&& post.field.unit_count() == pre.field.unit_count()
            },
        }
    }

    /// A fresh match on a `width` x `height` board: `rows` rows of hidden,
    /// randomly-kinded units for each side at its own edge, Red to move,
    /// turn counter at one, no winner.
    pub fn new(rules: Rules<GeneralUnit, T>, width: usize, height: usize, rows: usize) -> (g:
        Game<T>)
        requires
            1 <= width,
            1 <= height,
            width * height <= usize::MAX,
            rows * 2 <= height,
        ensures
            g.wf(),
            g.turns == 1,
            g.current_turn == Player::Red,
            g.winner is None,
            g.rules == rules,
            g.field.width == width,
            g.field.height == height,
            forall|x: int, y: int|
                g.field.in_bounds(x, y) ==> setup_cell_ok(
                    g.field.cell(x, y),
                    y,
                    height as int,
                    rows as int,
                ),
    {
        let mut board: Field<GeneralUnit> = Field::new(width, height);
        let mut i: usize = 0;
        while i < rows
            invariant
                board.wf(),
                board.width == width,
                board.height == height,
                rows * 2 <= height,
                0 <= i <= rows,
                forall|x: int, y: int|
                    board.in_bounds(x, y) && y < i ==> (#[trigger] board.cell(x, y)
                        matches Some(u) && u.owner == Player::Red && !u.visible),
                forall|x: int, y: int|
                    board.in_bounds(x, y) && y >= height - i ==> (#[trigger] board.cell(x, y)
                        matches Some(u) && u.owner == Player::Blue && !u.visible),
                forall|x: int, y: int|
                    board.in_bounds(x, y) && i <= y < height - i ==> #[trigger] board.cell(x, y)
                        is None,
            decreases rows - i,
        {
            fill_random_row(&mut board, i, Player::Red);
            fill_random_row(&mut board, height - 1 - i, Player::Blue);
            i += 1;
        }
        Game { turns: 1, current_turn: Player::Red, winner: None, field: board, rules }
    }

    pub fn turns(&self) -> (t: u32)
        ensures
            t == self.turns,
    {
        self.turns
    }

    pub fn current_turn(&self) -> (p: Player)
        ensures
            p == self.current_turn,
    {
        self.current_turn
    }

    pub fn winner(&self) -> (w: Option<Player>)
        ensures
            w == self.winner,
    {
        self.winner
    }

    pub fn field(&self) -> (f: &Field<GeneralUnit>)
        ensures
            *f == self.field,
    {
        &self.field
    }

    /// Declare `player` the winner, unless the game already has one: a set
    /// winner is frozen.
    pub fn force_win(&mut self, player: Player)
        ensures
            final(self).winner == (if old(self).winner is Some {
                old(self).winner
            } else {
                Some(player)
            }),
            final(self).turns == old(self).turns,
            final(self).current_turn == old(self).current_turn,
            final(self).field == old(self).field,
            final(self).rules == old(self).rules,
    {
        if !self.winner.is_some() {
            self.winner = Some(player);
        }
    }

    /// The board as `player` is allowed to see it; a pure read, recomputed
    /// on every call.
    pub fn perspective(&self, player: Player) -> (r: PovField)
        requires
            self.field.wf(),
        ensures
            r.pov == player,
            r.field.wf(),
            r.field.width == self.field.width,
            r.field.height == self.field.height,
            forall|x: int, y: int|
                self.field.in_bounds(x, y) ==> r.field.cell(x, y) == pov_cell_spec(
                    self.field.cell(x, y),
                    player,
                ),
    {
        PovField::project(&self.field, player)
    }

    /// Once a winner is set, every move is refused with GameAlreadyFinished,
    /// whatever the move proposes.
    pub proof fn lemma_finished_refuses_all_moves(self, movement: Move)
        requires
            self.winner is Some,
        ensures
            self.move_error_spec(movement) == Some(MoveError::GameAlreadyFinished),
    {
    }

    /// The single mutating operation: validate `movement` in the fixed
    /// order, then relocate or resolve combat, re-evaluate the win
    /// condition, advance the turn counter and flip the side to move.
    /// A refused move returns its error and leaves the game untouched.
    pub fn make_move(&mut self, movement: Move) -> (r: Result<Option<Outcome>, MoveError>)
        requires
            old(self).wf(),
            old(self).turns < u32::MAX,
        ensures
            final(self).wf(),
            (match old(self).move_error_spec(movement) {
                Some(e) => r == Err::<Option<Outcome>, MoveError>(e) && *final(self) == *old(
                    self,
                ),
                None => {
                    &&& r == Ok::<Option<Outcome>, MoveError>(old(self).outcome_spec(movement))
                    &&& Self::moved_state_ok(*old(self), *final(self), movement)
                },
            }),
    {
        if self.winner.is_some() {
            return Err(MoveError::GameAlreadyFinished);
        }
        if !is_valid(movement) {
            return Err(MoveError::DeclinedByMoveCondition);
        }
        let (from_x, from_y) = movement.from;
        if from_x >= self.field.width || from_y >= self.field.height {
            return Err(MoveError::PositionOutOfBounds);
        }
        let unit = match self.field.get(from_x, from_y) {
            None => { return Err(MoveError::NoUnitInPosition) },
            Some(u) => u,
        };
        if unit.owner != self.current_turn {
            return Err(MoveError::WrongOwner);
        }
        let dest = match movement.apply(self.current_turn) {
            None => { return Err(MoveError::PositionOutOfBounds) },
            Some(d) => d,
        };
        let (to_x, to_y) = dest;
        if to_x >= self.field.width || to_y >= self.field.height {
            return Err(MoveError::PositionOutOfBounds);
        }
        let defender_opt = self.field.get(to_x, to_y);
        let attack_outcome: Option<Outcome> = match defender_opt {
            Some(defender) => {
                if defender.owner == self.current_turn {
                    return Err(MoveError::SameOwner);
                }
                match unit.attack(&defender) {
                    Some(res) => Some(res),
                    None => { return Err(MoveError::UnexpextedError) },
                }
            },
            None => None,
        };
        proof {
            movement.direction.lemma_no_fixpoint(self.current_turn);
            assert(to_x != from_x || to_y != from_y);
        }
        let ghost pre_cells = self.field.cells@;
        match attack_outcome {
            Some(Outcome::Win) => {
                self.field.set(
                    to_x,
                    to_y,
                    Some(GeneralUnit { rps: unit.rps, owner: unit.owner, visible: true }),
                );
                self.field.set(from_x, from_y, None);
            },
            Some(Outcome::Lose) => {
                let d = match defender_opt {
                    Some(d) => d,
                    None => unreached(),
                };
                self.field.set(from_x, from_y, None);
                self.field.set(
                    to_x,
                    to_y,
                    Some(GeneralUnit { rps: d.rps, owner: d.owner, visible: true }),
                );
            },
            Some(Outcome::Draw) => {
                let d = match defender_opt {
                    Some(d) => d,
                    None => unreached(),
                };
                if unit.visible && d.visible {
                    let k1 = random_kind();
                    let k2 = random_kind();
                    self.field.set(
                        from_x,
                        from_y,
                        Some(GeneralUnit { rps: k1, owner: unit.owner, visible: unit.visible }),
                    );
                    self.field.set(
                        to_x,
                        to_y,
                        Some(GeneralUnit { rps: k2, owner: d.owner, visible: d.visible }),
                    );
                } else {
                    self.field.set(
                        from_x,
                        from_y,
                        Some(GeneralUnit { rps: unit.rps, owner: unit.owner, visible: true }),
                    );
                    self.field.set(
                        to_x,
                        to_y,
                        Some(GeneralUnit { rps: d.rps, owner: d.owner, visible: true }),
                    );
                }
            },
            None => {
                self.field.set(to_x, to_y, Some(unit));
                self.field.set(from_x, from_y, None);
            },
        }
        proof {
            let fi = old(self).field.idx(from_x as int, from_y as int);
            let ti = old(self).field.idx(to_x as int, to_y as int);
            old(self).field.lemma_idx_bounds(from_x as int, from_y as int);
            old(self).field.lemma_idx_bounds(to_x as int, to_y as int);
            if fi == ti {
                old(self).field.lemma_idx_injective(
                    from_x as int,
                    from_y as int,
                    to_x as int,
                    to_y as int,
                );
            }
            match attack_outcome {
                Some(Outcome::Win) => {
                    lemma_count_units_update(
                        pre_cells,
                        ti,
                        Some(GeneralUnit { rps: unit.rps, owner: unit.owner, visible: true }),
                    );
                    lemma_count_units_update(
                        pre_cells.update(
                            ti,
                            Some(GeneralUnit { rps: unit.rps, owner: unit.owner, visible: true }),
                        ),
                        fi,
                        None,
                    );
                },
                Some(Outcome::Lose) => {
                    let d = defender_opt->Some_0;
                    lemma_count_units_update(pre_cells, fi, None);
                    lemma_count_units_update(
                        pre_cells.update(fi, None),
                        ti,
                        Some(GeneralUnit { rps: d.rps, owner: d.owner, visible: true }),
                    );
                },
                Some(Outcome::Draw) => {
                    let v1 = self.field.cells@[fi];
                    let v2 = self.field.cells@[ti];
                    lemma_count_units_update(pre_cells, fi, pre_cells.update(fi, v1)[fi]);
                    assert(self.field.cells@ == pre_cells.update(fi, v1).update(ti, v2));
                    lemma_count_units_update(pre_cells.update(fi, v1), ti, v2);
                },
                None => {
                    lemma_count_units_update(pre_cells, ti, Some(unit));
                    lemma_count_units_update(pre_cells.update(ti, Some(unit)), fi, None);
                },
            }
        }
        self.winner = self.rules.win_condition.winner(&self.field);
        self.turns = self.turns + 1;
        self.current_turn = self.current_turn.next();
        Ok(attack_outcome)
    }
}

} // verus!
