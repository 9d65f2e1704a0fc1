use tictactoe::board::Mark;
use tictactoe::game::{Game, Outcome, Player, PlayerType, TurnError};

fn filled(g: &Game) -> usize {
    let mut n = 0;
    for row in 0..3 {
        for col in 0..3 {
            if g.get_mark(col, row) != Mark::Empty {
                n += 1;
            }
        }
    }
    n
}

fn marks(g: &Game) -> Vec<Mark> {
    let mut v = Vec::new();
    for row in 0..3 {
        for col in 0..3 {
            v.push(g.get_mark(col, row));
        }
    }
    v
}

#[test]
fn new_game_binds_x_to_first_choice() {
    let g = Game::new(PlayerType::Medium, PlayerType::Hard);
    assert_eq!(g.currentplayer, Player { ptype: PlayerType::Medium, mark: Mark::X });
    assert_eq!(g.nextplayer, Player { ptype: PlayerType::Hard, mark: Mark::O });
    assert_eq!(filled(&g), 0);
    assert_eq!(g.outcome(), Outcome::InProgress);
}

#[test]
fn swap_exchanges_roles_and_twice_restores_them() {
    let mut g = Game::new(PlayerType::Human, PlayerType::Easy);
    let (cur, next) = (g.currentplayer, g.nextplayer);
    g.swap_turn();
    assert_eq!(g.currentplayer, next);
    assert_eq!(g.nextplayer, cur);
    g.swap_turn();
    assert_eq!(g.currentplayer, cur);
    assert_eq!(g.nextplayer, next);
}

#[test]
fn easy_turn_fills_one_empty_cell() {
    for _ in 0..50 {
        let mut g = Game::new(PlayerType::Easy, PlayerType::Easy);
        assert!(g.set_mark(1, 1, Mark::O));
        let before = marks(&g);
        g.easy_turn();
        let after = marks(&g);
        let changed: Vec<usize> = (0..9).filter(|&i| before[i] != after[i]).collect();
        assert_eq!(changed.len(), 1);
        assert_eq!(before[changed[0]], Mark::Empty);
        assert_eq!(after[changed[0]], Mark::X);
    }
}

#[test]
fn easy_turn_finds_the_last_empty_cell() {
    let mut g = Game::new(PlayerType::Easy, PlayerType::Easy);
    for i in 0..8 {
        let m = if i % 2 == 0 { Mark::O } else { Mark::X };
        assert!(g.set_mark(i % 3, i / 3, m));
    }
    g.easy_turn();
    assert_eq!(g.get_mark(2, 2), Mark::X);
    assert!(g.is_draw());
}

#[test]
fn take_turn_with_easy_player_places_its_mark() {
    let mut g = Game::new(PlayerType::Hard, PlayerType::Easy);
    g.swap_turn();
    assert_eq!(g.take_turn(), Ok(()));
    assert_eq!(filled(&g), 1);
    assert!(marks(&g).contains(&Mark::O));
}

#[test]
fn unimplemented_strategies_report_an_error() {
    for &t in &[PlayerType::Human, PlayerType::Medium, PlayerType::Hard] {
        let mut g = Game::new(t, PlayerType::Easy);
        assert_eq!(g.take_turn(), Err(TurnError::Unsupported(t)));
        assert_eq!(filled(&g), 0);
        assert_eq!(g.currentplayer.ptype, t);
    }
    let g = Game::new(PlayerType::Easy, PlayerType::Easy);
    assert_eq!(g.human_turn(), Err(TurnError::Unsupported(PlayerType::Human)));
    assert_eq!(g.med_turn(), Err(TurnError::Unsupported(PlayerType::Medium)));
    assert_eq!(g.hard_turn(), Err(TurnError::Unsupported(PlayerType::Hard)));
}

#[test]
fn advance_moves_then_swaps() {
    let mut g = Game::new(PlayerType::Easy, PlayerType::Easy);
    assert_eq!(g.advance(), Ok(Outcome::InProgress));
    assert_eq!(g.currentplayer.mark, Mark::O);
    assert_eq!(g.nextplayer.mark, Mark::X);
    assert_eq!(filled(&g), 1);
    assert!(marks(&g).contains(&Mark::X));
}

#[test]
fn two_easy_players_finish_within_nine_moves() {
    for _ in 0..200 {
        let mut g = Game::new(PlayerType::Easy, PlayerType::Easy);
        let n = g.play_out().unwrap();
        assert!(n <= 9);
        assert!(n >= 5);
        assert_eq!(filled(&g), n);
        assert!(g.won() || g.is_draw());
        match g.outcome() {
            Outcome::Won(m) => {
                assert!(g.won());
                assert_eq!(m, g.nextplayer.mark);
            }
            Outcome::Drawn => assert!(g.is_draw() && !g.won()),
            Outcome::InProgress => panic!("game left unfinished"),
        }
    }
}

#[test]
fn play_out_stops_at_an_unimplemented_strategy() {
    let mut g = Game::new(PlayerType::Easy, PlayerType::Medium);
    assert_eq!(g.play_out(), Err(TurnError::Unsupported(PlayerType::Medium)));
    assert_eq!(filled(&g), 1);
    assert_eq!(g.currentplayer.ptype, PlayerType::Medium);
}

#[test]
fn win_is_credited_to_the_last_mover() {
    let mut g = Game::new(PlayerType::Easy, PlayerType::Easy);
    assert!(g.set_mark(0, 0, Mark::X));
    assert!(g.set_mark(1, 1, Mark::X));
    assert!(g.set_mark(2, 2, Mark::X));
    g.swap_turn();
    assert_eq!(g.outcome(), Outcome::Won(Mark::X));
}

#[test]
fn win_on_full_board_is_reported_before_draw() {
    let mut g = Game::new(PlayerType::Easy, PlayerType::Easy);
    let cells = [
        (0, 0, Mark::X), (1, 0, Mark::X), (2, 0, Mark::X),
        (0, 1, Mark::O), (1, 1, Mark::O), (2, 1, Mark::X),
        (0, 2, Mark::X), (1, 2, Mark::O), (2, 2, Mark::O),
    ];
    for &(c, r, m) in cells.iter() {
        assert!(g.set_mark(c, r, m));
    }
    g.swap_turn();
    assert!(g.is_draw());
    assert_eq!(g.outcome(), Outcome::Won(Mark::X));
}

#[test]
fn full_board_without_line_is_reported_drawn() {
    let mut g = Game::new(PlayerType::Easy, PlayerType::Easy);
    let cells = [
        (0, 0, Mark::X), (1, 0, Mark::O), (2, 0, Mark::X),
        (0, 1, Mark::X), (1, 1, Mark::O), (2, 1, Mark::O),
        (0, 2, Mark::O), (1, 2, Mark::X), (2, 2, Mark::X),
    ];
    for &(c, r, m) in cells.iter() {
        assert!(g.set_mark(c, r, m));
    }
    assert_eq!(g.outcome(), Outcome::Drawn);
}

#[test]
fn print_mark_shows_each_mark() {
    let mut g = Game::new(PlayerType::Easy, PlayerType::Easy);
    assert!(g.set_mark(0, 0, Mark::X));
    assert!(g.set_mark(1, 0, Mark::O));
    assert_eq!(g.print_mark(0, 0), 'X');
    assert_eq!(g.print_mark(1, 0), 'O');
    assert_eq!(g.print_mark(2, 0), ' ');
}

#[test]
fn render_grid_puts_top_row_first() {
    let mut g = Game::new(PlayerType::Easy, PlayerType::Easy);
    assert!(g.set_mark(0, 0, Mark::X));
    assert!(g.set_mark(2, 2, Mark::O));
    assert!(g.set_mark(1, 1, Mark::X));
    let text: String = g.render_grid().into_iter().collect();
    let expected = "+-+-+-+\n| | |O|\n+-+-+-+\n| |X| |\n+-+-+-+\n|X| | |\n+-+-+-+\n";
    assert_eq!(text, expected);
}
