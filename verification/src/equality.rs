//! Equality of games.

use crate::board::GameState;
use vstd::prelude::*;

verus! {

impl PartialEq for GameState {
    /// Two games are equal when they agree on every cell, on the status and
    /// on the player to move.
    fn eq(&self, other: &GameState) -> (equal: bool) {
        let mut same: bool = self.status == other.status && self.to_play == other.to_play;
        let mut r: usize = 0;
        while r < 3
            invariant
                r <= 3,
                same == (self.status == other.status && self.to_play == other.to_play
                    && forall|i: int, j: int|
                    0 <= i < r && 0 <= j < 3 ==> self.board[i][j] == other.board[i][j]),
            decreases 3 - r,
        {
            let mut c: usize = 0;
            while c < 3
                invariant
                    r < 3,
                    c <= 3,
                    same == (self.status == other.status && self.to_play == other.to_play && (
                    forall|i: int, j: int|
                        0 <= i < r && 0 <= j < 3 ==> self.board[i][j] == other.board[i][j]) && (
                    forall|j: int|
                        0 <= j < c ==> self.board[r as int][j] == other.board[r as int][j])),
                decreases 3 - c,
            {
                same = same && self.board[r][c] == other.board[r][c];
                c += 1;
            }
            r += 1;
        }
        proof {
            if same {
                assert forall|i: int| 0 <= i < 3 implies self.board[i] == other.board[i] by {
                    assert(self.board[i] =~= other.board[i]);
                }
                assert(self.board =~= other.board);
            }
        }
        same
    }
}

impl Eq for GameState {

}

impl vstd::std_specs::cmp::PartialEqSpecImpl for GameState {
    open spec fn obeys_eq_spec() -> bool {
        true
    }

    open spec fn eq_spec(&self, other: &GameState) -> bool {
        *self == *other
    }
}

} // verus!
