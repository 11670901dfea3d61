//! The game state machine: the match status, the pending-click latch, and
//! the per-tick transition that consumes a latched click, applies a legal
//! move and evaluates the terminal conditions.

use vstd::prelude::*;

use crate::board::CellState;
use crate::board::Player;
use crate::board::board_full;
use crate::board::line_owned;
use crate::board::won_by;
use crate::coords::CELL_SIZE;
use crate::coords::PADDING;
use crate::coords::cell_from_coord;

verus! {

/// The match status: still running, won by a player, or tied.
#[derive(Clone, Copy, PartialEq, Eq, Structural, Debug)]
pub enum GameState {
    Tie,
    Win(Player),
    Continue,
}

/// The pending-click latch: whether the mouse button is currently held,
/// and the board cell under the initial press position, if any.
#[derive(Clone, Copy, PartialEq, Eq, Structural, Debug)]
pub struct ClickLatch {
    pub active: bool,
    pub cell: Option<usize>,
}

/// The whole game core: the nine-cell board, the match status, the player
/// who moved last, and the pending-click latch.
pub struct Morpion {
    pub board: [CellState; 9],
    pub state: GameState,
    pub last_play: Player,
    pub clicked: ClickLatch,
}

impl Morpion {
    /// Well-formedness: a latched cell index is always a valid board index.
    pub open spec fn wf(self) -> bool {
        match self.clicked.cell {
            Option::Some(i) => i < 9,
            Option::None => true,
        }
    }

    /// While the match is running, the last mover has not won and the
    /// board is not full: the status is never behind the board.
    pub open spec fn consistent(self) -> bool {
        self.state == GameState::Continue ==> !won_by(self.board@, self.last_play)
            && !board_full(self.board@)
    }

    /// The cell at which a move will be applied by the next tick:
    /// `Some(i)` when the match is running, a click on cell `i` is
    /// latched, and cell `i` is free; `None` otherwise.
    pub open spec fn move_index(self) -> Option<usize> {
        if self.state == GameState::Continue && self.clicked.active {
            match self.clicked.cell {
                Option::Some(i) => if self.board@[i as int] == CellState::Free {
                    Option::Some(i)
                } else {
                    Option::None
                },
                Option::None => Option::None,
            }
        } else {
            Option::None
        }
    }

    /// The board after one tick: unchanged, or with the opponent of the
    /// last mover placed at the latched free cell.
    pub open spec fn board_after_tick(self) -> Seq<CellState> {
        match self.move_index() {
            Option::Some(i) => self.board@.update(
                i as int,
                CellState::Occupied(self.last_play.spec_other()),
            ),
            Option::None => self.board@,
        }
    }

    /// The last mover after one tick: flipped exactly when a move applies.
    pub open spec fn last_play_after_tick(self) -> Player {
        match self.move_index() {
            Option::Some(_) => self.last_play.spec_other(),
            Option::None => self.last_play,
        }
    }

    /// The match status after one tick: terminal states are permanent;
    /// while running, a win of the last mover is detected first, then a
    /// full board turns into a tie, otherwise the match goes on.
    pub open spec fn state_after_tick(self) -> GameState {
        if self.state != GameState::Continue {
            self.state
        } else if won_by(self.board_after_tick(), self.last_play_after_tick()) {
            GameState::Win(self.last_play_after_tick())
        } else if board_full(self.board_after_tick()) {
            GameState::Tie
        } else {
            GameState::Continue
        }
    }

    /// Returns the initial game core: all nine cells free, the match
    /// running, `X` recorded as the last mover (so the first placed
    /// symbol is `O`), and no click latched.
    pub fn new() -> (m: Morpion)
        ensures
            m.wf(),
            m.consistent(),
            forall|i: int| 0 <= i < 9 ==> m.board@[i] == CellState::Free,
            m.state == GameState::Continue,
            m.last_play == Player::X,
            !m.clicked.active,
            m.clicked.cell is None,
    {
        let m = Morpion {
            board: [CellState::Free; 9],
            state: GameState::Continue,
            last_play: Player::X,
            clicked: ClickLatch { active: false, cell: Option::None },
        };
        proof {
            assert forall|k: int| 0 <= k < 8 implies !line_owned(
                m.board@,
                m.last_play,
                k,
            ) by {
                assert(m.board@[crate::board::line_cells(k).0] == CellState::Free);
            }
        }
        m
    }

    /// Whether cell `index` is free.
    pub fn is_free(&self, index: usize) -> (r: bool)
        requires
            index < 9,
        ensures
            r == (self.board@[index as int] == CellState::Free),
    {
        self.board[index] == CellState::Free
    }

    /// Sets the free cell `index` to occupied by `player`; nothing else
    /// changes. An occupied cell never reverts to free.
    pub fn occupy(&mut self, index: usize, player: Player)
        requires
            index < 9,
            old(self).board@[index as int] == CellState::Free,
        ensures
            final(self).board@ == old(self).board@.update(
                index as int,
                CellState::Occupied(player),
            ),
            final(self).state == old(self).state,
            final(self).last_play == old(self).last_play,
            final(self).clicked == old(self).clicked,
    {
        self.board[index] = CellState::Occupied(player);
    }

    /// The board is fully occupied: no cell is free.
    pub fn all_occupied(&self) -> (r: bool)
        ensures
            r == board_full(self.board@),
    {
        let mut b = true;
        let mut i: usize = 0;
        while i < 9
            invariant
                i <= 9,
                b == (forall|j: int| 0 <= j < i ==> self.board@[j] != CellState::Free),
            decreases 9 - i,
        {
            if self.board[i] == CellState::Free {
                b = false;
            }
            i += 1;
        }
        b
    }

    /// Player `player` owns a full winning line: three rows, three
    /// columns, or two diagonals.
    pub fn is_won_by(&self, player: Player) -> (r: bool)
        ensures
            r == won_by(self.board@, player),
    {
        let p = CellState::Occupied(player);
        let r = (self.board[0] == p && self.board[1] == p && self.board[2] == p)
            || (self.board[3] == p && self.board[4] == p && self.board[5] == p)
            || (self.board[6] == p && self.board[7] == p && self.board[8] == p)
            || (self.board[0] == p && self.board[3] == p && self.board[6] == p)
            || (self.board[1] == p && self.board[4] == p && self.board[7] == p)
            || (self.board[2] == p && self.board[5] == p && self.board[8] == p)
            || (self.board[0] == p && self.board[4] == p && self.board[8] == p)
            || (self.board[2] == p && self.board[4] == p && self.board[6] == p);
        proof {
            let bb = self.board@;
            assert(line_owned(bb, player, 0) <==> (bb[0] == p && bb[1] == p && bb[2] == p));
            assert(line_owned(bb, player, 1) <==> (bb[3] == p && bb[4] == p && bb[5] == p));
            assert(line_owned(bb, player, 2) <==> (bb[6] == p && bb[7] == p && bb[8] == p));
            assert(line_owned(bb, player, 3) <==> (bb[0] == p && bb[3] == p && bb[6] == p));
            assert(line_owned(bb, player, 4) <==> (bb[1] == p && bb[4] == p && bb[7] == p));
            assert(line_owned(bb, player, 5) <==> (bb[2] == p && bb[5] == p && bb[8] == p));
            assert(line_owned(bb, player, 6) <==> (bb[0] == p && bb[4] == p && bb[8] == p));
            assert(line_owned(bb, player, 7) <==> (bb[2] == p && bb[4] == p && bb[6] == p));
            if !r {
                assert forall|k: int| 0 <= k < 8 implies !line_owned(bb, player, k) by {
                    assert(k == 0 || k == 1 || k == 2 || k == 3 || k == 4 || k == 5 || k == 6
                        || k == 7);
                }
            }
        }
        r
    }

    /// The last mover owns a full winning line.
    pub fn is_won(&self) -> (r: bool)
        ensures
            r == won_by(self.board@, self.last_play),
    {
        self.is_won_by(self.last_play)
    }

    /// Latches a mouse press at pixel position `(x, y)`: the latch
    /// becomes active and records the cell under the press position, or
    /// no cell when the press lies outside the grid. The board, the match
    /// status and the last mover are untouched.
    pub fn press(&mut self, x: u32, y: u32)
        ensures
            final(self).wf(),
            final(self).clicked.active,
            final(self).clicked.cell == crate::coords::cell_at(
                x as int,
                y as int,
                PADDING as int,
                PADDING as int,
                CELL_SIZE as int,
            ),
            final(self).board == old(self).board,
            final(self).state == old(self).state,
            final(self).last_play == old(self).last_play,
    {
        self.clicked = ClickLatch {
            active: true,
            cell: cell_from_coord(x, y, (PADDING, PADDING), CELL_SIZE),
        };
    }

    /// Clears the latch on mouse release. The board, the match status and
    /// the last mover are untouched.
    pub fn release(&mut self)
        ensures
            final(self).wf(),
            !final(self).clicked.active,
            final(self).clicked.cell is None,
            final(self).board == old(self).board,
            final(self).state == old(self).state,
            final(self).last_play == old(self).last_play,
    {
        self.clicked = ClickLatch { active: false, cell: Option::None };
    }

    /// One fixed-rate logic tick. While the match is running, a latched
    /// click on a free cell places the opponent of the last mover there
    /// and records that symbol as the last mover; a click on an occupied
    /// cell, or none at all, changes nothing. Then a win of the last
    /// mover, or a full board, ends the match. Terminal states are
    /// permanent, and the latch itself is never consumed here.
    pub fn tick(&mut self)
        requires
            old(self).wf(),
        ensures
            final(self).wf(),
            final(self).consistent(),
            final(self).board@ == old(self).board_after_tick(),
            final(self).last_play == old(self).last_play_after_tick(),
            final(self).state == old(self).state_after_tick(),
            final(self).clicked == old(self).clicked,
    {
        match self.state {
            GameState::Continue => {
                if self.clicked.active {
                    if let Option::Some(index) = self.clicked.cell {
                        if self.board[index] == CellState::Free {
                            match self.last_play {
                                Player::X => {
                                    self.board[index] = CellState::Occupied(Player::O);
                                    self.last_play = Player::O;
                                },
                                Player::O => {
                                    self.board[index] = CellState::Occupied(Player::X);
                                    self.last_play = Player::X;
                                },
                            }
                        }
                    }
                }
                if self.is_won() {
                    self.state = GameState::Win(self.last_play);
                } else if self.all_occupied() {
                    self.state = GameState::Tie;
                }
            },
            _ => {},
        }
    }
}

/// Invariants of the tick transition: an occupied cell never reverts to
/// free, and a terminal match status never reverts to a running one.
pub proof fn lemma_tick_invariants(m: Morpion)
    requires
        m.wf(),
    ensures
        forall|i: int|
            0 <= i < 9 && m.board@[i] != CellState::Free ==> m.board_after_tick()[i]
                == m.board@[i],
        m.state != GameState::Continue ==> m.state_after_tick() == m.state,
{
}

/// A latched click on an already-occupied cell is a no-op: a tick changes
/// neither the board, nor the last mover, nor the match status.
pub proof fn lemma_click_occupied_is_noop(m: Morpion, i: usize)
    requires
        m.wf(),
        m.consistent(),
        m.clicked.active,
        m.clicked.cell == Option::Some(i),
        m.board@[i as int] != CellState::Free,
    ensures
        m.board_after_tick() == m.board@,
        m.last_play_after_tick() == m.last_play,
        m.state_after_tick() == m.state,
{
}

/// Turn alternation, one step: a legal move places the opponent of the
/// last mover at the clicked cell, records that symbol as the last mover,
/// and leaves every other cell unchanged.
pub proof fn lemma_turn_alternation(m: Morpion, i: usize)
    requires
        m.wf(),
        m.state == GameState::Continue,
        m.clicked.active,
        m.clicked.cell == Option::Some(i),
        m.board@[i as int] == CellState::Free,
    ensures
        m.board_after_tick()[i as int] == CellState::Occupied(m.last_play.spec_other()),
        m.last_play_after_tick() == m.last_play.spec_other(),
        forall|j: int| 0 <= j < 9 && j != i ==> m.board_after_tick()[j] == m.board@[j],
{
}

/// Turn alternation over the first two moves: with `X` recorded as the
/// last mover, the first legal move places `O`; the next legal move, on a
/// cell still free, places `X`. Here `m1` carries the board, last mover
/// and status that one tick of `m0` produces, and `m2` those that one
/// tick of `m1` produces, exactly as `tick` ensures them.
pub proof fn lemma_first_moves_alternate(m0: Morpion, m1: Morpion, m2: Morpion, i: usize, j: usize)
    requires
        m0.wf(),
        m1.wf(),
        m0.state == GameState::Continue,
        m0.last_play == Player::X,
        m0.clicked.active,
        m0.clicked.cell == Option::Some(i),
        m0.board@[i as int] == CellState::Free,
        m1.board@ == m0.board_after_tick(),
        m1.last_play == m0.last_play_after_tick(),
        m1.state == m0.state_after_tick(),
        m1.state == GameState::Continue,
        m1.clicked.active,
        m1.clicked.cell == Option::Some(j),
        m1.board@[j as int] == CellState::Free,
        m2.board@ == m1.board_after_tick(),
        m2.last_play == m1.last_play_after_tick(),
    ensures
        m1.board@[i as int] == CellState::Occupied(Player::O),
        m1.last_play == Player::O,
        i != j,
        m2.board@[j as int] == CellState::Occupied(Player::X),
        m2.board@[i as int] == CellState::Occupied(Player::O),
        m2.last_play == Player::X,
{
}

} // verus!
