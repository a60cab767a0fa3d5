use vstd::prelude::*;
use crate::Player;

verus! {

/// A compass of one-step moves, oriented by the moving player: "forward" for
/// Red is the opposite row direction of "forward" for Blue, so the two sides
/// advance toward each other.
#[derive(Clone, Copy, Debug, PartialEq, Eq, Structural)]
pub enum Direction {
    Forward,
    Back,
    Left,
    Right,
    ForwardLeft,
    ForwardRight,
    BackLeft,
    BackRight,
}

impl Direction {
    /// Column offset of one step in this direction: the same for both
    /// players, only the row direction is oriented per side.
    pub open spec fn dx_spec(self) -> int {
        match self {
            Direction::Forward => 0,
            Direction::Back => 0,
            Direction::Left => -1,
            Direction::Right => 1,
            Direction::ForwardLeft => -1,
            Direction::ForwardRight => 1,
            Direction::BackLeft => -1,
            Direction::BackRight => 1,
        }
    }

    /// Row offset of one step in this direction, as seen by `player`.
    pub open spec fn dy_spec(self, player: Player) -> int {
        let d: int = match player {
            Player::Red => 1,
            Player::Blue => -1,
        };
        match self {
            Direction::Forward => d,
            Direction::Back => -d,
            Direction::Left => 0,
            Direction::Right => 0,
            Direction::ForwardLeft => d,
            Direction::ForwardRight => d,
            Direction::BackLeft => -d,
            Direction::BackRight => -d,
        }
    }

    /// No direction leaves a cell where it is: every step changes a coordinate.
    pub proof fn lemma_no_fixpoint(self, player: Player)
        ensures
            self.dx_spec() != 0 || self.dy_spec(player) != 0,
    {
    }

    fn dx_step(&self) -> (d: i8)
        ensures
            d as int == self.dx_spec(),
    {
        match *self {
            Direction::Forward => 0,
            Direction::Back => 0,
            Direction::Left => -1,
            Direction::Right => 1,
            Direction::ForwardLeft => -1,
            Direction::ForwardRight => 1,
            Direction::BackLeft => -1,
            Direction::BackRight => 1,
        }
    }

    fn dy_step(&self, player: Player) -> (d: i8)
        ensures
            d as int == self.dy_spec(player),
    {
        let s: i8 = match player {
            Player::Red => 1,
            Player::Blue => -1,
        };
        match *self {
            Direction::Forward => s,
            Direction::Back => -s,
            Direction::Left => 0,
            Direction::Right => 0,
            Direction::ForwardLeft => s,
            Direction::ForwardRight => s,
            Direction::BackLeft => -s,
            Direction::BackRight => -s,
        }
    }

    /// One step from `from` in this direction, as seen by `player`: `None`
    /// when the destination coordinate would leave the representable range.
    /// Whether it sits on the board is the caller's check.
    pub fn apply(&self, player: Player, from: (usize, usize)) -> (r: Option<(usize, usize)>)
        ensures
            (match r {
                Some(to) => {
                    &&& to.0 as int == from.0 as int + self.dx_spec()
                    &&& to.1 as int == from.1 as int + self.dy_spec(player)
                },
                None => {
                    ||| !coord_step_ok(from.0 as int, self.dx_spec())
                    ||| !coord_step_ok(from.1 as int, self.dy_spec(player))
                },
            }),
    {
        let (x, y) = from;
        let tx = step(x, self.dx_step());
        let ty = step(y, self.dy_step(player));
        match (tx, ty) {
            (Some(a), Some(b)) => Some((a, b)),
            _ => None,
        }
    }
}

/// Whether one step of offset `d` keeps coordinate `v` representable.
pub open spec fn coord_step_ok(v: int, d: int) -> bool {
    0 <= v + d <= usize::MAX
}

fn step(v: usize, d: i8) -> (r: Option<usize>)
    requires
        -1 <= d as int <= 1,
    ensures
        (match r {
            Some(w) => w as int == v as int + d as int,
            None => !coord_step_ok(v as int, d as int),
        }),
{
    if d < 0 {
        if v == 0 {
            None
        } else {
            Some(v - 1)
        }
    } else if d > 0 {
        if v == usize::MAX {
            None
        } else {
            Some(v + 1)
        }
    } else {
        Some(v)
    }
}

/// An origin cell together with the direction of one step away from it.
#[derive(Clone, Copy, Debug, PartialEq, Eq)]
pub struct Move {
    pub from: (usize, usize),
    pub direction: Direction,
}

impl Move {
    pub fn new(x: usize, y: usize, direction: Direction) -> (m: Move)
        ensures
            m.from.0 == x,
            m.from.1 == y,
            m.direction == direction,
    {
        Move { from: (x, y), direction }
    }

    /// The destination cell of this move for `player`, if representable.
    pub fn apply(&self, player: Player) -> (r: Option<(usize, usize)>)
        ensures
            (match r {
                Some(to) => {
                    &&& to.0 as int == self.from.0 as int + self.direction.dx_spec()
                    &&& to.1 as int == self.from.1 as int + self.direction.dy_spec(player)
                },
                None => {
                    ||| !coord_step_ok(self.from.0 as int, self.direction.dx_spec())
                    ||| !coord_step_ok(self.from.1 as int, self.direction.dy_spec(player))
                },
            }),
    {
        self.direction.apply(player, self.from)
    }
}

/// The move-legality rule of the base game: only the three forward-going
/// directions may be played.
pub open spec fn is_valid_spec(movement: Move) -> bool {
    ||| movement.direction == Direction::Forward
    ||| movement.direction == Direction::ForwardLeft
    ||| movement.direction == Direction::ForwardRight
}

pub fn is_valid(movement: Move) -> (r: bool)
    ensures
        r == is_valid_spec(movement),
{
    movement.direction == Direction::Forward || movement.direction == Direction::ForwardLeft
        || movement.direction == Direction::ForwardRight
}

} // verus!
