use vstd::prelude::*;
use crate::moves::{Direction, Move};

verus! {

/// A pluggable move-legality rule: a pure predicate on a proposed move,
/// for rule variants that restrict the playable directions further.
pub trait MoveCondition {
    spec fn is_valid_spec(&self, movement: Move) -> bool;

    fn is_valid(&self, movement: Move) -> (r: bool)
        ensures
            r == self.is_valid_spec(movement),
    ;
}

/// The strictest variant: only a straight forward step is legal.
#[derive(Clone, Copy, Debug)]
pub struct OnlyForwardMove;

impl MoveCondition for OnlyForwardMove {
    open spec fn is_valid_spec(&self, movement: Move) -> bool {
        movement.direction == Direction::Forward
    }

    fn is_valid(&self, movement: Move) -> bool {
        movement.direction == Direction::Forward
    }
}

} // verus!
