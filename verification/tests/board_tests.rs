use morpion::board::CellState;
use morpion::board::Player;
use morpion::game::Morpion;

const LINES: [[usize; 3]; 8] = [
    [0, 1, 2],
    [3, 4, 5],
    [6, 7, 8],
    [0, 3, 6],
    [1, 4, 7],
    [2, 5, 8],
    [0, 4, 8],
    [2, 4, 6],
];

#[test]
fn test_each_line_wins_for_its_owner_only() {
    for line in LINES {
        for player in [Player::X, Player::O] {
            let mut m = Morpion::new();
            for cell in line {
                m.occupy(cell, player);
            }
            assert!(m.is_won_by(player));
            assert!(!m.is_won_by(player.other()));
        }
    }
}

#[test]
fn test_all_occupied_iff_every_cell_occupied() {
    for mask in 0u32..512 {
        let mut m = Morpion::new();
        for cell in 0..9 {
            if mask & (1 << cell) != 0 {
                m.occupy(cell, Player::X);
            }
        }
        assert_eq!(m.all_occupied(), mask == 511);
    }
}

#[test]
fn test_new_board_all_free() {
    let m = Morpion::new();
    for cell in 0..9 {
        assert!(m.is_free(cell));
        assert_eq!(m.board[cell], CellState::Free);
    }
    assert!(!m.all_occupied());
    assert!(!m.is_won_by(Player::X));
    assert!(!m.is_won_by(Player::O));
    assert!(!m.is_won());
}

#[test]
fn test_occupy_sets_one_cell() {
    let mut m = Morpion::new();
    m.occupy(4, Player::O);
    assert!(!m.is_free(4));
    assert_eq!(m.board[4], CellState::Occupied(Player::O));
    for cell in 0..9 {
        if cell != 4 {
            assert!(m.is_free(cell));
        }
    }
}

#[test]
fn test_other_player() {
    assert_eq!(Player::X.other(), Player::O);
    assert_eq!(Player::O.other(), Player::X);
}
