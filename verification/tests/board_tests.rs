use rps_tactics::field::{Field, PovField};
use rps_tactics::move_conditions::{MoveCondition, OnlyForwardMove};
use rps_tactics::moves::{is_valid, Direction, Move};
use rps_tactics::unit::{AllyUnit, EnemyUnit, GeneralUnit, Part, PovUnit, Unit};
use rps_tactics::win_conditions::{EliminateCondition, GetToLastRowCondition, WinCondition};
use rps_tactics::{Outcome, Player, RPS};

fn unit(rps: RPS, owner: Player, visible: bool) -> GeneralUnit {
    GeneralUnit { rps, owner, visible }
}

#[test]
fn possible_moves_test() {
    let mut field: Field<GeneralUnit> = Field::new(3, 3);
    field.set(0, 0, Some(unit(RPS::Rock, Player::Blue, false)));
    field.set(1, 0, Some(unit(RPS::Rock, Player::Red, false)));
    field.set(0, 1, Some(unit(RPS::Rock, Player::Red, false)));
    let moves = vec![
        Move { from: (1, 0), direction: Direction::Forward },
        Move { from: (1, 0), direction: Direction::Back },
        Move { from: (1, 0), direction: Direction::Left },
        Move { from: (1, 0), direction: Direction::Right },
        Move { from: (1, 0), direction: Direction::ForwardLeft },
        Move { from: (1, 0), direction: Direction::ForwardRight },
        Move { from: (1, 0), direction: Direction::BackLeft },
        Move { from: (1, 0), direction: Direction::BackRight },
        Move { from: (0, 1), direction: Direction::Forward },
        Move { from: (0, 1), direction: Direction::Back },
        Move { from: (0, 1), direction: Direction::Left },
        Move { from: (0, 1), direction: Direction::Right },
        Move { from: (0, 1), direction: Direction::ForwardLeft },
        Move { from: (0, 1), direction: Direction::ForwardRight },
        Move { from: (0, 1), direction: Direction::BackLeft },
        Move { from: (0, 1), direction: Direction::BackRight },
    ];
    assert_eq!(field.possible_moves(Player::Red), moves);
}

#[test]
fn attack_table() {
    assert_eq!(RPS::Rock.attack(RPS::Scissors), Outcome::Win);
    assert_eq!(RPS::Paper.attack(RPS::Rock), Outcome::Win);
    assert_eq!(RPS::Scissors.attack(RPS::Paper), Outcome::Win);
    assert_eq!(RPS::Scissors.attack(RPS::Rock), Outcome::Lose);
    assert_eq!(RPS::Rock.attack(RPS::Paper), Outcome::Lose);
    assert_eq!(RPS::Paper.attack(RPS::Scissors), Outcome::Lose);
    assert_eq!(RPS::Rock.attack(RPS::Rock), Outcome::Draw);
    assert_eq!(RPS::Paper.attack(RPS::Paper), Outcome::Draw);
    assert_eq!(RPS::Scissors.attack(RPS::Scissors), Outcome::Draw);
}

#[test]
fn unit_attack_through_trait() {
    let a = unit(RPS::Rock, Player::Red, false);
    let d = unit(RPS::Scissors, Player::Blue, false);
    assert_eq!(a.attack(&d), Some(Outcome::Win));
    assert_eq!(d.attack(&a), Some(Outcome::Lose));
}

#[test]
fn player_next_alternates() {
    assert_eq!(Player::Red.next(), Player::Blue);
    assert_eq!(Player::Blue.next(), Player::Red);
    assert_eq!(Player::Red.next().next(), Player::Red);
}

#[test]
fn player_builds_units() {
    let u = Player::Red.unit(RPS::Paper);
    assert_eq!(u, unit(RPS::Paper, Player::Red, false));
    let r = Player::Blue.random_unit();
    assert_eq!(r.owner, Player::Blue);
    assert!(!r.visible);
}

#[test]
fn kind_from_entropy() {
    assert_eq!(RPS::from_entropy(0), RPS::Rock);
    assert_eq!(RPS::from_entropy(1), RPS::Paper);
    assert_eq!(RPS::from_entropy(2), RPS::Scissors);
    assert_eq!(RPS::from_entropy(3), RPS::Rock);
    assert_eq!(RPS::from_entropy(4294967295), RPS::Rock);
}

#[test]
fn direction_apply_arithmetic() {
    // Red advances toward growing rows, Blue toward row zero.
    assert_eq!(Direction::Forward.apply(Player::Red, (0, 0)), Some((0, 1)));
    assert_eq!(Direction::Forward.apply(Player::Blue, (0, 2)), Some((0, 1)));
    // Stepping off the low edge has no destination.
    assert_eq!(Direction::Forward.apply(Player::Blue, (0, 0)), None);
    assert_eq!(Direction::ForwardLeft.apply(Player::Red, (0, 0)), None);
    assert_eq!(Direction::ForwardLeft.apply(Player::Blue, (0, 1)), None);
    // Column offsets are the same for both sides; only rows are oriented.
    assert_eq!(Direction::ForwardLeft.apply(Player::Red, (1, 1)), Some((0, 2)));
    assert_eq!(Direction::ForwardLeft.apply(Player::Blue, (1, 1)), Some((0, 0)));
    assert_eq!(Direction::ForwardRight.apply(Player::Blue, (1, 1)), Some((2, 0)));
    assert_eq!(Direction::BackRight.apply(Player::Red, (1, 1)), Some((2, 0)));
    assert_eq!(Direction::BackLeft.apply(Player::Blue, (1, 1)), Some((0, 2)));
    assert_eq!(Direction::Back.apply(Player::Blue, (1, 1)), Some((1, 2)));
    assert_eq!(Direction::Left.apply(Player::Red, (1, 1)), Some((0, 1)));
    assert_eq!(Direction::Left.apply(Player::Blue, (1, 1)), Some((0, 1)));
    assert_eq!(Direction::Right.apply(Player::Blue, (1, 1)), Some((2, 1)));
}

#[test]
fn move_validity_rule() {
    assert!(is_valid(Move::new(0, 0, Direction::Forward)));
    assert!(is_valid(Move::new(0, 0, Direction::ForwardLeft)));
    assert!(is_valid(Move::new(0, 0, Direction::ForwardRight)));
    assert!(!is_valid(Move::new(0, 0, Direction::Back)));
    assert!(!is_valid(Move::new(0, 0, Direction::Left)));
    assert!(!is_valid(Move::new(0, 0, Direction::Right)));
    assert!(!is_valid(Move::new(0, 0, Direction::BackLeft)));
    assert!(!is_valid(Move::new(0, 0, Direction::BackRight)));
}

#[test]
fn only_forward_move_condition() {
    let rule = OnlyForwardMove;
    assert!(rule.is_valid(Move::new(1, 1, Direction::Forward)));
    assert!(!rule.is_valid(Move::new(1, 1, Direction::ForwardLeft)));
    assert!(!rule.is_valid(Move::new(1, 1, Direction::Back)));
}

#[test]
fn eliminate_condition_verdicts() {
    let mut field: Field<GeneralUnit> = Field::new(3, 3);
    assert_eq!(EliminateCondition.winner(&field), None);

    field.set(0, 0, Some(unit(RPS::Rock, Player::Red, false)));
    assert_eq!(EliminateCondition.winner(&field), Some(Player::Red));

    field.set(2, 2, Some(unit(RPS::Paper, Player::Blue, false)));
    assert_eq!(EliminateCondition.winner(&field), None);

    field.set(0, 0, None);
    assert_eq!(EliminateCondition.winner(&field), Some(Player::Blue));
}

#[test]
fn far_row_condition_verdicts() {
    let mut field: Field<GeneralUnit> = Field::new(3, 3);
    assert_eq!(GetToLastRowCondition.winner(&field), None);

    field.set(1, 2, Some(unit(RPS::Rock, Player::Red, false)));
    assert_eq!(GetToLastRowCondition.winner(&field), Some(Player::Red));

    field.set(1, 0, Some(unit(RPS::Paper, Player::Blue, false)));
    assert_eq!(GetToLastRowCondition.winner(&field), None);

    field.set(1, 2, None);
    assert_eq!(GetToLastRowCondition.winner(&field), Some(Player::Blue));
}

#[test]
fn projection_hides_unrevealed_enemies() {
    let mut field: Field<GeneralUnit> = Field::new(3, 3);
    field.set(0, 0, Some(unit(RPS::Rock, Player::Red, false)));
    field.set(1, 1, Some(unit(RPS::Paper, Player::Blue, true)));
    field.set(2, 2, Some(unit(RPS::Scissors, Player::Blue, false)));

    let view = PovField::project(&field, Player::Red);
    assert_eq!(view.pov, Player::Red);
    // Own unit: full information.
    assert_eq!(
        view.field.get(0, 0),
        Some(PovUnit {
            owner: Player::Red,
            part: Part::Ally(AllyUnit { rps: RPS::Rock, visible: false }),
        })
    );
    // Revealed enemy: kind shown.
    assert_eq!(
        view.field.get(1, 1),
        Some(PovUnit {
            owner: Player::Blue,
            part: Part::Enemy(EnemyUnit { rps: Some(RPS::Paper) }),
        })
    );
    // Hidden enemy: kind redacted.
    assert_eq!(
        view.field.get(2, 2),
        Some(PovUnit { owner: Player::Blue, part: Part::Enemy(EnemyUnit { rps: None }) })
    );
    // Empty cells stay empty.
    assert_eq!(view.field.get(1, 0), None);

    // The same board seen by Blue: the hidden red unit is redacted.
    let view = PovField::project(&field, Player::Blue);
    assert_eq!(
        view.field.get(0, 0),
        Some(PovUnit { owner: Player::Red, part: Part::Enemy(EnemyUnit { rps: None }) })
    );
    assert_eq!(
        view.field.get(1, 1),
        Some(PovUnit {
            owner: Player::Blue,
            part: Part::Ally(AllyUnit { rps: RPS::Paper, visible: true }),
        })
    );
}

#[test]
fn pov_field_lists_own_moves() {
    let mut field: Field<GeneralUnit> = Field::new(3, 3);
    field.set(1, 1, Some(unit(RPS::Rock, Player::Blue, false)));
    field.set(0, 0, Some(unit(RPS::Paper, Player::Red, false)));
    let view = PovField::project(&field, Player::Blue);
    let moves = view.possible_moves();
    assert_eq!(
        moves,
        vec![
            Move { from: (1, 1), direction: Direction::Forward },
            Move { from: (1, 1), direction: Direction::Back },
            Move { from: (1, 1), direction: Direction::Left },
            Move { from: (1, 1), direction: Direction::Right },
            Move { from: (1, 1), direction: Direction::ForwardLeft },
            Move { from: (1, 1), direction: Direction::ForwardRight },
            Move { from: (1, 1), direction: Direction::BackLeft },
            Move { from: (1, 1), direction: Direction::BackRight },
        ]
    );
}

#[test]
fn pov_unit_trait_facets() {
    let ally = PovUnit {
        owner: Player::Red,
        part: Part::Ally(AllyUnit { rps: RPS::Rock, visible: false }),
    };
    assert_eq!(ally.owner(), Player::Red);
    assert_eq!(ally.rps(), Some(RPS::Rock));

    let hidden = PovUnit { owner: Player::Blue, part: Part::Enemy(EnemyUnit { rps: None }) };
    assert_eq!(hidden.owner(), Player::Blue);
    assert_eq!(hidden.rps(), None);
    // Combat over a redacted kind cannot resolve.
    assert_eq!(ally.attack(&hidden), None);
}

#[test]
fn field_get_set_roundtrip() {
    let mut field: Field<GeneralUnit> = Field::new(2, 2);
    assert_eq!(field.get(1, 1), None);
    field.set(1, 1, Some(unit(RPS::Scissors, Player::Blue, true)));
    assert_eq!(field.get(1, 1), Some(unit(RPS::Scissors, Player::Blue, true)));
    assert_eq!(field.get(0, 0), None);
    field.set(1, 1, None);
    assert_eq!(field.get(1, 1), None);
}
