use vstd::prelude::*;
use crate::{Outcome, Player, RPS};

verus! {

/// The combat verdict between two occupants, where either side may have an
/// unknown kind (a redacted enemy): combat resolves only when both kinds are
/// known.
pub open spec fn attack_outcome_spec(attacker: Option<RPS>, defender: Option<RPS>) -> Option<
    Outcome,
> {
    match (attacker, defender) {
        (Some(a), Some(d)) => Some(a.attack_spec(d)),
        _ => None,
    }
}

/// An occupant of a board cell: it has one owner and, as far as the holder
/// of this value may know it, a kind.
pub trait Unit: Copy {
    spec fn owner_spec(&self) -> Player;

    spec fn rps_spec(&self) -> Option<RPS>;

    fn owner(&self) -> (p: Player)
        ensures
            p == self.owner_spec(),
    ;

    fn rps(&self) -> (r: Option<RPS>)
        ensures
            r == self.rps_spec(),
    ;

    /// The type-relation verdict of this unit attacking `opponent`: a pure
    /// read, neither unit changes.
    fn attack(&self, opponent: &Self) -> (o: Option<Outcome>)
        ensures
            o == attack_outcome_spec(self.rps_spec(), opponent.rps_spec()),
    {
        match (self.rps(), opponent.rps()) {
            (Some(attacker), Some(defender)) => Some(attacker.attack(defender)),
            _ => None,
        }
    }
}

/// The authoritative unit as the engine holds it: true kind, owner, and
/// whether combat has revealed the kind to the opponent.
#[derive(Clone, Copy, Debug, PartialEq, Eq, Structural)]
pub struct GeneralUnit {
    pub rps: RPS,
    pub owner: Player,
    pub visible: bool,
}

impl GeneralUnit {
    /// A freshly placed unit: not yet revealed.
    pub fn new(rps: RPS, owner: Player) -> (u: GeneralUnit)
        ensures
            u.rps == rps,
            u.owner == owner,
            !u.visible,
    {
        GeneralUnit { rps, owner, visible: false }
    }
}

impl Unit for GeneralUnit {
    open spec fn owner_spec(&self) -> Player {
        self.owner
    }

    open spec fn rps_spec(&self) -> Option<RPS> {
        Some(self.rps)
    }

    fn owner(&self) -> Player {
        self.owner
    }

    fn rps(&self) -> Option<RPS> {
        Some(self.rps)
    }
}

/// A unit as one player is allowed to see it: own units in full, enemy units
/// with the kind redacted until it was revealed.
#[derive(Clone, Copy, Debug, PartialEq, Eq, Structural)]
pub struct PovUnit {
    pub owner: Player,
    pub part: Part,
}

/// The two facets a projected unit can show.
#[derive(Clone, Copy, Debug, PartialEq, Eq, Structural)]
pub enum Part {
    Ally(AllyUnit),
    Enemy(EnemyUnit),
}

/// The viewer's own unit: full information.
#[derive(Clone, Copy, Debug, PartialEq, Eq, Structural)]
pub struct AllyUnit {
    pub rps: RPS,
    pub visible: bool,
}

/// An opponent unit: the kind only if it was revealed by combat.
#[derive(Clone, Copy, Debug, PartialEq, Eq, Structural)]
pub struct EnemyUnit {
    pub rps: Option<RPS>,
}

impl PovUnit {
    /// What `viewer` is allowed to see of `unit`: an ally in full, an enemy
    /// with the kind only where `visible` already holds.
    pub open spec fn project_spec(unit: GeneralUnit, viewer: Player) -> PovUnit {
        if unit.owner == viewer {
            PovUnit {
                owner: unit.owner,
                part: Part::Ally(AllyUnit { rps: unit.rps, visible: unit.visible }),
            }
        } else {
            PovUnit {
                owner: unit.owner,
                part: Part::Enemy(
                    EnemyUnit {
                        rps: if unit.visible {
                            Some(unit.rps)
                        } else {
                            None
                        },
                    },
                ),
            }
        }
    }

    pub fn project(unit: GeneralUnit, viewer: Player) -> (r: PovUnit)
        ensures
            r == Self::project_spec(unit, viewer),
    {
        if unit.owner == viewer {
            PovUnit {
                owner: unit.owner,
                part: Part::Ally(AllyUnit { rps: unit.rps, visible: unit.visible }),
            }
        } else {
            let shown: Option<RPS> = if unit.visible {
                Some(unit.rps)
            } else {
                None
            };
            PovUnit { owner: unit.owner, part: Part::Enemy(EnemyUnit { rps: shown }) }
        }
    }

    /// Fog-of-war non-leakage at the level of one unit: an opponent unit's
    /// kind appears in the projection if and only if its `visible` flag is
    /// true, and then it is the true kind; nothing else of the unit is shown.
    pub proof fn lemma_fog_non_leakage(unit: GeneralUnit, viewer: Player)
        requires
            unit.owner != viewer,
        ensures
            PovUnit::project_spec(unit, viewer).rps_spec() is Some <==> unit.visible,
            unit.visible ==> PovUnit::project_spec(unit, viewer).rps_spec() == Some(unit.rps),
            PovUnit::project_spec(unit, viewer).owner_spec() == unit.owner,
            PovUnit::project_spec(unit, viewer).part is Enemy,
    {
    }
}

impl Unit for PovUnit {
    open spec fn owner_spec(&self) -> Player {
        self.owner
    }

    open spec fn rps_spec(&self) -> Option<RPS> {
        match self.part {
            Part::Ally(unit) => Some(unit.rps),
            Part::Enemy(unit) => unit.rps,
        }
    }

    fn owner(&self) -> Player {
        self.owner
    }

    fn rps(&self) -> Option<RPS> {
        match self.part {
            Part::Ally(unit) => Some(unit.rps),
            Part::Enemy(unit) => unit.rps,
        }
    }
}

} // verus!
