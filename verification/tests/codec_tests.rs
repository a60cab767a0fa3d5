use rps_tactics::field::Field;
use rps_tactics::unit::GeneralUnit;
use rps_tactics::{Player, RPS};

fn unit(rps: RPS, owner: Player, visible: bool) -> GeneralUnit {
    GeneralUnit { rps, owner, visible }
}

#[test]
fn encode_bytes_are_exact() {
    let mut field: Field<GeneralUnit> = Field::new(2, 2);
    field.set(0, 0, Some(unit(RPS::Rock, Player::Red, false)));
    field.set(1, 0, Some(unit(RPS::Paper, Player::Blue, true)));
    field.set(0, 1, Some(unit(RPS::Scissors, Player::Red, true)));
    // Cell byte: 0 for empty, else 1 + kind * 4 + owner * 2 + visible.
    assert_eq!(field.encode(), vec![1, 8, 10, 0]);
}

#[test]
fn round_trip_restores_every_cell() {
    let mut field: Field<GeneralUnit> = Field::new(3, 2);
    field.set(0, 0, Some(unit(RPS::Rock, Player::Red, false)));
    field.set(2, 0, Some(unit(RPS::Paper, Player::Blue, true)));
    field.set(1, 1, Some(unit(RPS::Scissors, Player::Blue, false)));

    let bytes = field.encode();
    let back = Field::decode(3, 2, &bytes).unwrap();
    assert_eq!(back.width, 3);
    assert_eq!(back.height, 2);
    for y in 0..2 {
        for x in 0..3 {
            assert_eq!(back.get(x, y), field.get(x, y));
        }
    }
}

#[test]
fn round_trip_of_empty_board() {
    let field: Field<GeneralUnit> = Field::new(4, 1);
    let bytes = field.encode();
    assert_eq!(bytes, vec![0, 0, 0, 0]);
    let back = Field::decode(4, 1, &bytes).unwrap();
    for x in 0..4 {
        assert_eq!(back.get(x, 0), None);
    }
}

#[test]
fn decode_rejects_bad_input() {
    // Wrong amount of bytes for the dimensions.
    assert!(Field::decode(2, 2, &vec![0, 0, 0]).is_none());
    // Zero-sized boards do not exist.
    assert!(Field::decode(0, 2, &vec![]).is_none());
    assert!(Field::decode(2, 0, &vec![]).is_none());
    // A malformed cell byte: occupied cells encode into 1..=12.
    assert!(Field::decode(2, 1, &vec![0, 13]).is_none());
    assert!(Field::decode(1, 1, &vec![255]).is_none());
}

#[test]
fn decode_reads_cell_bytes() {
    let board = Field::decode(2, 1, &vec![12, 5]).unwrap();
    // 12 = 1 + Scissors * 4 + Blue * 2 + visible.
    assert_eq!(board.get(0, 0), Some(unit(RPS::Scissors, Player::Blue, true)));
    // 5 = 1 + Paper * 4 + Red * 2 + hidden.
    assert_eq!(board.get(1, 0), Some(unit(RPS::Paper, Player::Red, false)));
}
