//! The random board generator: fills a fresh board from an externally seeded
//! random source, one draw per cell. The seed and reset semantics of the
//! source are owned by the caller; the engine only consumes draws.

use vstd::prelude::*;

use crate::board::board_full;
use crate::board::Connect4;
use crate::board::Tile;
use rand::Rng;

verus! {

/// Declares rand's `StdRng` so that boards can be generated from a random
/// source the caller seeds and owns. The value is opaque here.
#[verifier::external_type_specification]
#[verifier::external_body]
pub struct ExStdRng(rand::rngs::StdRng);

/// Relies on rand's `Rng::gen::<bool>`: one random draw. Nothing is promised
/// of the outcome; callers must hold for either answer.
#[verifier::external_body]
fn draw(rng: &mut rand::rngs::StdRng) -> bool {
    rng.gen()
}

impl Connect4 {
    /// A board with every cell drawn at random from the two marks, by direct
    /// placement: gravity and turn rules do not apply here.
    pub fn random(rng: &mut rand::rngs::StdRng) -> (board: Connect4)
        ensures
            board@.len() == 16,
            board_full(board@),
            forall|q: int|
                0 <= q < 16 ==> (board@[q] == Tile::Cookie || board@[q] == Tile::Milk),
    {
        let mut board = Connect4::empty();
        let mut col: usize = 0;
        while col < 4
            invariant
                col <= 4,
                board@.len() == 16,
                forall|q: int|
                    0 <= q < col * 4 ==> (board@[q] == Tile::Cookie || board@[q] == Tile::Milk),
            decreases 4 - col,
        {
            let mut row: usize = 0;
            while row < 4
                invariant
                    col < 4,
                    row <= 4,
                    board@.len() == 16,
                    forall|q: int|
                        0 <= q < col * 4 + row ==> (board@[q] == Tile::Cookie || board@[q]
                            == Tile::Milk),
                decreases 4 - row,
            {
                let tile = if draw(rng) {
                    Tile::Cookie
                } else {
                    Tile::Milk
                };
                board.set_cell(col, row, tile);
                row = row + 1;
            }
            col = col + 1;
        }
        board
    }
}

} // verus!
