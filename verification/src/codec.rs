use vstd::prelude::*;
use crate::field::Field;
use crate::unit::GeneralUnit;
use crate::{Player, RPS};

verus! {

// A board is persisted as one byte per cell, row-major: 0 for an empty
// cell, otherwise 1 + kind * 4 + owner * 2 + visible, so every occupied
// cell encodes into 1..=12 and every byte above 12 is malformed.

pub open spec fn kind_code(k: RPS) -> int {
    match k {
        RPS::Rock => 0,
        RPS::Paper => 1,
        RPS::Scissors => 2,
    }
}

pub open spec fn kind_of_code(c: int) -> RPS {
    if c == 0 {
        RPS::Rock
    } else if c == 1 {
        RPS::Paper
    } else {
        RPS::Scissors
    }
}

pub open spec fn owner_code(p: Player) -> int {
    match p {
        Player::Red => 0,
        Player::Blue => 1,
    }
}

pub open spec fn owner_of_code(c: int) -> Player {
    if c == 0 {
        Player::Red
    } else {
        Player::Blue
    }
}

/// The byte one cell persists as.
pub open spec fn encode_cell_spec(cell: Option<GeneralUnit>) -> u8 {
    match cell {
        None => 0,
        Some(u) => (1 + kind_code(u.rps) * 4 + owner_code(u.owner) * 2 + (if u.visible {
            1int
        } else {
            0int
        })) as u8,
    }
}

/// The cell one byte stands for; `None` when the byte is malformed.
pub open spec fn decode_cell_spec(b: u8) -> Option<Option<GeneralUnit>> {
    if b == 0 {
        Some(None)
    } else if b <= 12 {
        let v = b - 1;
        Some(
            Some(
                GeneralUnit {
                    rps: kind_of_code(v / 4),
                    owner: owner_of_code((v / 2) % 2),
                    visible: v % 2 == 1,
                },
            ),
        )
    } else {
        None
    }
}

pub proof fn lemma_cell_round_trip(cell: Option<GeneralUnit>)
    ensures
        decode_cell_spec(encode_cell_spec(cell)) == Some(cell),
{
}

/// The persisted form of a whole grid: its cells' bytes in slot order.
pub open spec fn encode_board_spec(cells: Seq<Option<GeneralUnit>>) -> Seq<u8> {
    cells.map_values(|c: Option<GeneralUnit>| encode_cell_spec(c))
}

/// The grid a byte string stands for; `None` as soon as one byte is
/// malformed.
pub open spec fn decode_board_spec(bytes: Seq<u8>) -> Option<Seq<Option<GeneralUnit>>> {
    if forall|i: int| 0 <= i < bytes.len() ==> decode_cell_spec(#[trigger] bytes[i]) is Some {
        Some(Seq::new(bytes.len(), |i: int| decode_cell_spec(bytes[i])->Some_0))
    } else {
        None
    }
}

/// Round trip: decoding what was encoded yields the same grid, cell by
/// cell, for every grid.
pub proof fn lemma_board_round_trip(cells: Seq<Option<GeneralUnit>>)
    ensures
        decode_board_spec(encode_board_spec(cells)) == Some(cells),
{
    let enc = encode_board_spec(cells);
    assert forall|i: int| 0 <= i < enc.len() implies decode_cell_spec(
        #[trigger] enc[i],
    ) is Some by {
        lemma_cell_round_trip(cells[i]);
    }
    let dec = Seq::new(enc.len(), |i: int| decode_cell_spec(enc[i])->Some_0);
    assert forall|i: int| 0 <= i < dec.len() implies dec[i] == cells[i] by {
        lemma_cell_round_trip(cells[i]);
    }
    assert(dec =~= cells);
}

impl Field<GeneralUnit> {
    /// Persist this board: one byte per cell, row-major.
    pub fn encode(&self) -> (r: Vec<u8>)
        ensures
            r@ == encode_board_spec(self.cells@),
    {
        let mut out: Vec<u8> = Vec::new();
        let n: usize = self.cells.len();
        let mut i: usize = 0;
        while i < n
            invariant
                n == self.cells@.len(),
                0 <= i <= n,
                out@ == encode_board_spec(self.cells@.take(i as int)),
            decreases n - i,
        {
            let b: u8 = match self.cells[i] {
                None => 0,
                Some(u) => {
                    let k: u8 = match u.rps {
                        RPS::Rock => 0,
                        RPS::Paper => 1,
                        RPS::Scissors => 2,
                    };
                    let o: u8 = match u.owner {
                        Player::Red => 0,
                        Player::Blue => 1,
                    };
                    let v: u8 = if u.visible {
                        1
                    } else {
                        0
                    };
                    1 + k * 4 + o * 2 + v
                },
            };
            out.push(b);
            proof {
                assert(self.cells@.take(i + 1).drop_last() =~= self.cells@.take(i as int));
                assert(out@ =~= encode_board_spec(self.cells@.take(i + 1)));
            }
            i += 1;
        }
        proof {
            assert(self.cells@.take(n as int) =~= self.cells@);
        }
        out
    }

    /// Rebuild a board of the given dimensions from its persisted form.
    /// Succeeds exactly when the dimensions are positive, the byte string
    /// has one byte per cell, and no byte is malformed; the grid then
    /// equals the one that was persisted, cell by cell.
    pub fn decode(width: usize, height: usize, bytes: &Vec<u8>) -> (r: Option<
        Field<GeneralUnit>,
    >)
        ensures
            (match r {
                Some(f) => {
                    &&& f.wf()
                    &&& f.width == width
                    &&& f.height == height
                    &&& width >= 1
                    &&& height >= 1
                    &&& (width as int) * (height as int) == bytes@.len()
                    &&& decode_board_spec(bytes@) == Some(f.cells@)
                },
                None => {
                    ||| width == 0
                    ||| height == 0
                    ||| (width as int) * (height as int) != bytes@.len()
                    ||| decode_board_spec(bytes@) is None
                },
            }),
    {
        if width == 0 || height == 0 {
            return None;
        }
        let blen: usize = bytes.len();
        let n: usize = match width.checked_mul(height) {
            Some(n) => n,
            None => { return None },
        };
        if n != blen {
            return None;
        }
        let mut cells: Vec<Option<GeneralUnit>> = Vec::new();
        let mut i: usize = 0;
        while i < n
            invariant
                n == bytes@.len(),
                0 <= i <= n,
                cells@.len() == i,
                forall|k: int| 0 <= k < i ==> decode_cell_spec(#[trigger] bytes@[k]) is Some,
                forall|k: int|
                    0 <= k < i ==> cells@[k] == decode_cell_spec(#[trigger] bytes@[k])->Some_0,
            decreases n - i,
        {
            let b: u8 = bytes[i];
            if b == 0 {
                cells.push(None);
            } else if b <= 12 {
                let v: u8 = b - 1;
                let kind: RPS = match v / 4 {
                    0 => RPS::Rock,
                    1 => RPS::Paper,
                    _ => RPS::Scissors,
                };
                let owner: Player = if (v / 2) % 2 == 0 {
                    Player::Red
                } else {
                    Player::Blue
                };
                let unit = GeneralUnit { rps: kind, owner, visible: v % 2 == 1 };
                cells.push(Some(unit));
            } else {
                proof {
                    assert(decode_cell_spec(bytes@[i as int]) is None);
                }
                return None;
            }
            i += 1;
        }
        let f = Field { width, height, cells };
        proof {
            let dec = Seq::new(bytes@.len(), |k: int| decode_cell_spec(bytes@[k])->Some_0);
            assert(f.cells@ =~= dec);
        }
        Some(f)
    }
}

} // verus!
