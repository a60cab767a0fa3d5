use vstd::prelude::*;
use crate::field::Field;
use crate::unit::Unit;
use crate::Player;

verus! {

/// Whether one cell holds a unit of `player`.
pub open spec fn cell_owned_by<T: Unit>(cell: Option<T>, player: Player) -> bool {
    cell matches Some(u) && u.owner_spec() == player
}

/// Whether any of the slots of `s` holds a unit of `player`.
pub open spec fn has_unit_of<T: Unit>(s: Seq<Option<T>>, player: Player) -> bool {
    exists|k: int| 0 <= k < s.len() && #[trigger] cell_owned_by(s[k], player)
}

/// Whether row `y` of `field` holds a unit of `player`.
pub open spec fn row_has_unit_of<T: Unit>(field: Field<T>, y: int, player: Player) -> bool {
    exists|x: int| 0 <= x < field.width && #[trigger] cell_owned_by(field.cell(x, y), player)
}

pub proof fn lemma_has_unit_extend<T: Unit>(s: Seq<Option<T>>, player: Player, i: int)
    requires
        0 <= i < s.len(),
    ensures
        has_unit_of(s.take(i + 1), player) <==> (has_unit_of(s.take(i), player) || cell_owned_by(
            s[i],
            player,
        )),
{
    let t1 = s.take(i + 1);
    let t0 = s.take(i);
    if has_unit_of(t1, player) {
        let k = choose|k: int| 0 <= k < t1.len() && #[trigger] cell_owned_by(t1[k], player);
        if k < i {
            assert(cell_owned_by(t0[k], player));
        } else {
            assert(t1[k] == s[i]);
        }
    }
    if has_unit_of(t0, player) {
        let k = choose|k: int| 0 <= k < t0.len() && #[trigger] cell_owned_by(t0[k], player);
        assert(cell_owned_by(t1[k], player));
    }
    if cell_owned_by(s[i], player) {
        assert(cell_owned_by(t1[i], player));
    }
}

/// A pluggable way of deciding whether either player has won: a pure read of
/// the board, evaluated by the orchestrator once per successful move.
pub trait WinCondition<T: Unit> {
    spec fn winner_spec(&self, field: Field<T>) -> Option<Player>;

    fn winner(&self, field: &Field<T>) -> (r: Option<Player>)
        requires
            field.wf(),
        ensures
            r == self.winner_spec(*field),
    ;
}

/// Wins when the opponent has no unit left on the board: if units of exactly
/// one player remain, that player wins; if both or neither remain, nobody
/// has won yet.
#[derive(Clone, Copy, Debug)]
pub struct EliminateCondition;

impl<T: Unit> WinCondition<T> for EliminateCondition {
    open spec fn winner_spec(&self, field: Field<T>) -> Option<Player> {
        let red = has_unit_of(field.cells@, Player::Red);
        let blue = has_unit_of(field.cells@, Player::Blue);
        if red && !blue {
            Some(Player::Red)
        } else if !red && blue {
            Some(Player::Blue)
        } else {
            None
        }
    }

    fn winner(&self, field: &Field<T>) -> (r: Option<Player>) {
        let mut red_presented: bool = false;
        let mut blue_presented: bool = false;
        let n: usize = field.cells.len();
        let mut i: usize = 0;
        while i < n
            invariant
                n == field.cells@.len(),
                0 <= i <= n,
                red_presented == has_unit_of(field.cells@.take(i as int), Player::Red),
                blue_presented == has_unit_of(field.cells@.take(i as int), Player::Blue),
            decreases n - i,
        {
            if let Some(u) = field.cells[i] {
                match u.owner() {
                    Player::Red => { red_presented = true; },
                    Player::Blue => { blue_presented = true; },
                }
            }
            proof {
                lemma_has_unit_extend(field.cells@, Player::Red, i as int);
                lemma_has_unit_extend(field.cells@, Player::Blue, i as int);
            }
            i += 1;
        }
        proof {
            assert(field.cells@.take(n as int) =~= field.cells@);
        }
        match (red_presented, blue_presented) {
            (true, false) => Some(Player::Red),
            (false, true) => Some(Player::Blue),
            _ => None,
        }
    }
}

/// Wins when a unit reaches the far side: Red by standing in the last row,
/// Blue by standing in row zero, each the row its forward direction runs
/// toward. If both stand there at once, nobody has won.
#[derive(Clone, Copy, Debug)]
pub struct GetToLastRowCondition;

/// Whether row `y` holds a unit of `player`: the scan behind the far-row rule.
fn row_contains<T: Unit>(field: &Field<T>, y: usize, player: Player) -> (r: bool)
    requires
        field.wf(),
        0 <= (y as int) < field.height,
    ensures
        r == row_has_unit_of(*field, y as int, player),
{
    let mut found: bool = false;
    let mut x: usize = 0;
    let w: usize = field.width;
    while x < w
        invariant
            field.wf(),
            w == field.width,
            0 <= (y as int) < field.height,
            0 <= x <= w,
            found == exists|k: int|
                0 <= k < x && #[trigger] cell_owned_by(field.cell(k, y as int), player),
        decreases w - x,
    {
        if let Some(u) = field.get(x, y) {
            if u.owner() == player {
                proof {
                    assert(cell_owned_by(field.cell(x as int, y as int), player));
                }
                found = true;
            }
        }
        x += 1;
    }
    found
}

impl<T: Unit> WinCondition<T> for GetToLastRowCondition {
    open spec fn winner_spec(&self, field: Field<T>) -> Option<Player> {
        let red_at_last = row_has_unit_of(field, field.height - 1, Player::Red);
        let blue_at_first = row_has_unit_of(field, 0, Player::Blue);
        if red_at_last && !blue_at_first {
            Some(Player::Red)
        } else if !red_at_last && blue_at_first {
            Some(Player::Blue)
        } else {
            None
        }
    }

    fn winner(&self, field: &Field<T>) -> (r: Option<Player>) {
        let blue_at_first = row_contains(field, 0, Player::Blue);
        let red_at_last = row_contains(field, field.height - 1, Player::Red);
        match (red_at_last, blue_at_first) {
            (true, false) => Some(Player::Red),
            (false, true) => Some(Player::Blue),
            _ => None,
        }
    }
}

} // verus!
