//! The board model: players, cells, and the spec-level description of a
//! 3x3 board as a sequence of nine cells, with win and fullness queries.

use vstd::prelude::*;

verus! {

/// The symbol identity of one of the two players.
#[derive(Clone, Copy, PartialEq, Eq, Structural, Debug)]
pub enum Player {
    X,
    O,
}

/// One of the nine board positions: free, or occupied by a player.
#[derive(Clone, Copy, PartialEq, Eq, Structural, Debug)]
pub enum CellState {
    Occupied(Player),
    Free,
}

impl Player {
    /// The opponent of `self`.
    pub open spec fn spec_other(self) -> Player {
        match self {
            Player::X => Player::O,
            Player::O => Player::X,
        }
    }

    /// Returns the opponent of `self`.
    pub fn other(self) -> (p: Player)
        ensures
            p == self.spec_other(),
    {
        match self {
            Player::X => Player::O,
            Player::O => Player::X,
        }
    }
}

/// The board is full: none of the nine cells is free.
pub open spec fn board_full(b: Seq<CellState>) -> bool {
    forall|i: int| 0 <= i < 9 ==> b[i] != CellState::Free
}

/// The three cell indices of winning line `k`, for `0 <= k < 8`:
/// three rows, three columns, two diagonals.
pub open spec fn line_cells(k: int) -> (int, int, int) {
    if k == 0 {
        (0, 1, 2)
    } else if k == 1 {
        (3, 4, 5)
    } else if k == 2 {
        (6, 7, 8)
    } else if k == 3 {
        (0, 3, 6)
    } else if k == 4 {
        (1, 4, 7)
    } else if k == 5 {
        (2, 5, 8)
    } else if k == 6 {
        (0, 4, 8)
    } else {
        (2, 4, 6)
    }
}

/// All three cells of winning line `k` are occupied by player `p`.
pub open spec fn line_owned(b: Seq<CellState>, p: Player, k: int) -> bool {
    &&& b[line_cells(k).0] == CellState::Occupied(p)
    &&& b[line_cells(k).1] == CellState::Occupied(p)
    &&& b[line_cells(k).2] == CellState::Occupied(p)
}

/// Player `p` has won: some winning line is fully occupied by `p`.
pub open spec fn won_by(b: Seq<CellState>, p: Player) -> bool {
    exists|k: int| 0 <= k < 8 && line_owned(b, p, k)
}

/// If one winning line is fully occupied by `p` and no other winning line
/// is fully occupied by either player, then `p` has won and the opponent
/// has not.
pub proof fn lemma_line_win(b: Seq<CellState>, p: Player, k: int)
    requires
        b.len() == 9,
        0 <= k < 8,
        line_owned(b, p, k),
        forall|j: int| 0 <= j < 8 && j != k ==> !(#[trigger] line_owned(b, p, j)),
        forall|j: int| 0 <= j < 8 && j != k ==> !(#[trigger] line_owned(b, p.spec_other(), j)),
    ensures
        won_by(b, p),
        !won_by(b, p.spec_other()),
{
    assert(won_by(b, p)) by {
        assert(line_owned(b, p, k));
    }
    let q = p.spec_other();
    assert(q != p);
    assert(!line_owned(b, q, k)) by {
        assert(b[line_cells(k).0] == CellState::Occupied(p));
    }
    assert forall|j: int| 0 <= j < 8 implies !line_owned(b, q, j) by {
        if j != k {
            assert(!line_owned(b, q, j));
        }
    }
}

} // verus!
