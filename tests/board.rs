use tictactoe::board::Mark::{Empty as E, O, X};
use tictactoe::board::{Board, Mark};
use tictactoe::game::{Game, PlayerType};

fn board_from(cells: [[Mark; 3]; 3]) -> Board {
    // cells[row][col]
    let mut b = Board::new();
    for row in 0..3 {
        for col in 0..3 {
            if cells[row][col] != Mark::Empty {
                assert!(b.set(col, row, cells[row][col]));
            }
        }
    }
    b
}

#[test]
fn set_then_get_on_every_cell() {
    for &m in &[Mark::X, Mark::O] {
        let mut b = Board::new();
        for row in 0..3 {
            for col in 0..3 {
                assert_eq!(b.get(col, row), Mark::Empty);
                assert!(b.set(col, row, m));
                assert_eq!(b.get(col, row), m);
                assert!(!b.set(col, row, Mark::X));
                assert!(!b.set(col, row, Mark::O));
                assert_eq!(b.get(col, row), m);
            }
        }
    }
}

#[test]
fn set_touches_one_cell_only() {
    let mut b = Board::new();
    assert!(b.set(1, 2, Mark::O));
    for row in 0..3 {
        for col in 0..3 {
            let expected = if (col, row) == (1, 2) { Mark::O } else { Mark::Empty };
            assert_eq!(b.get(col, row), expected);
        }
    }
}

#[test]
fn every_line_wins() {
    let lines: [[(usize, usize); 3]; 8] = [
        [(0, 0), (1, 0), (2, 0)],
        [(0, 1), (1, 1), (2, 1)],
        [(0, 2), (1, 2), (2, 2)],
        [(0, 0), (0, 1), (0, 2)],
        [(1, 0), (1, 1), (1, 2)],
        [(2, 0), (2, 1), (2, 2)],
        [(0, 0), (1, 1), (2, 2)],
        [(0, 2), (1, 1), (2, 0)],
    ];
    for &m in &[Mark::X, Mark::O] {
        for line in lines.iter() {
            let mut b = Board::new();
            for &(c, r) in line.iter() {
                assert!(!b.is_won());
                assert!(b.set(c, r, m));
            }
            assert!(b.is_won());
        }
    }
}

#[test]
fn empty_board_is_not_won() {
    let b = Board::new();
    assert!(!b.is_won());
    assert!(!b.is_full());
}

#[test]
fn mixed_line_is_not_won() {
    let b = board_from([[X, O, X], [E, X, E], [O, E, O]]);
    assert!(!b.is_won());
    assert!(!b.is_full());
}

#[test]
fn full_board_without_line_is_draw() {
    let b = board_from([[X, O, X], [X, O, O], [O, X, X]]);
    assert!(!b.is_won());
    assert!(b.is_full());
}

#[test]
fn full_board_with_line_is_full() {
    let b = board_from([[X, X, X], [O, O, X], [X, O, O]]);
    assert!(b.is_won());
    assert!(b.is_full());
}

#[test]
fn one_empty_cell_is_not_full() {
    let b = board_from([[X, O, X], [X, O, O], [O, X, E]]);
    assert!(!b.is_full());
}

#[test]
fn bottom_row_of_x_wins() {
    let mut g = Game::new(PlayerType::Easy, PlayerType::Easy);
    assert!(g.set_mark(0, 0, Mark::X));
    assert!(g.set_mark(1, 0, Mark::X));
    assert!(g.set_mark(2, 0, Mark::X));
    assert!(g.won());
    assert!(!g.is_draw());
}

#[test]
fn alternating_full_board_is_drawn() {
    let mut g = Game::new(PlayerType::Easy, PlayerType::Easy);
    let cells = [
        (0, 0, Mark::X), (1, 0, Mark::O), (2, 0, Mark::X),
        (0, 1, Mark::X), (1, 1, Mark::O), (2, 1, Mark::O),
        (0, 2, Mark::O), (1, 2, Mark::X), (2, 2, Mark::X),
    ];
    for &(c, r, m) in cells.iter() {
        assert!(!g.is_draw());
        assert!(g.set_mark(c, r, m));
    }
    assert!(!g.won());
    assert!(g.is_draw());
}
