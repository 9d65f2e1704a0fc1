use vstd::prelude::*;
use crate::board::{
    Board, Mark, all_filled, cell_index, filled, has_winning_line, in_bounds, placed_once,
    lemma_count_bound, lemma_placed_once_fills_one,
};
use rand::Rng;

verus! {

/// Who decides a player's moves.
#[derive(PartialEq, Eq, Structural, Clone, Copy, Debug)]
pub enum PlayerType {
    Human,
    Easy,
    Medium,
    Hard,
}

/// A seat at the table: how it plays and which mark it places.
#[derive(PartialEq, Eq, Structural, Clone, Copy, Debug)]
pub struct Player {
    pub ptype: PlayerType,
    pub mark: Mark,
}

/// A strategy that exists as a choice but has no implementation yet.
#[derive(PartialEq, Eq, Structural, Clone, Copy, Debug)]
pub enum TurnError {
    Unsupported(PlayerType),
}

/// Where a game stands.
#[derive(PartialEq, Eq, Structural, Clone, Copy, Debug)]
pub enum Outcome {
    InProgress,
    /// Won by the player holding this mark.
    Won(Mark),
    Drawn,
}

/// The abstract state of a game: the cells and the two roles.
pub ghost struct GameView {
    pub board: Seq<Mark>,
    pub current: Player,
    pub next: Player,
}

impl GameView {
    /// The same game with the two roles exchanged.
    pub open spec fn swapped(self) -> GameView {
        GameView { board: self.board, current: self.next, next: self.current }
    }

    /// Win first, then draw. After a move the roles have already been
    /// exchanged, so the player who moved last is the one now waiting.
    pub open spec fn outcome(self) -> Outcome {
        if has_winning_line(self.board) {
            Outcome::Won(self.next.mark)
        } else if all_filled(self.board) {
            Outcome::Drawn
        } else {
            Outcome::InProgress
        }
    }
}

/// One session: a board and the players in their current roles.
pub struct Game {
    pub grid: Board,
    pub currentplayer: Player,
    pub nextplayer: Player,
}

impl View for Game {
    type V = GameView;

    open spec fn view(&self) -> GameView {
        GameView { board: self.grid@, current: self.currentplayer, next: self.nextplayer }
    }
}

/// The character that shows a mark on screen.
pub open spec fn mark_char(m: Mark) -> char {
    match m {
        Mark::X => 'X',
        Mark::O => 'O',
        Mark::Empty => ' ',
    }
}

/// Relies on rand::thread_rng and rand::Rng::gen_range(low, high): a value
/// drawn from [low, high), which panics only when low >= high.
#[verifier::external_body]
fn random_below(n: usize) -> (r: usize)
    requires
        n > 0,
    ensures
        r < n,
{
    rand::thread_rng().gen_range(0, n)
}

/// A separator line of the rendered grid.
pub open spec fn border_text() -> Seq<char> {
    seq!['+', '-', '+', '-', '+', '-', '+', '\n']
}

/// The rendered line of row `row`, columns left to right.
pub open spec fn row_text(b: Seq<Mark>, row: int) -> Seq<char> {
    seq![
        '|',
        mark_char(b[cell_index(0, row)]),
        '|',
        mark_char(b[cell_index(1, row)]),
        '|',
        mark_char(b[cell_index(2, row)]),
        '|',
        '\n',
    ]
}

/// The rendered grid: the top row (row 2) first, each row between separators.
pub open spec fn grid_text(b: Seq<Mark>) -> Seq<char> {
    border_text() + row_text(b, 2) + border_text() + row_text(b, 1) + border_text() + row_text(b, 0)
        + border_text()
}

fn push_border(out: &mut Vec<char>)
    ensures
        final(out)@ == old(out)@ + border_text(),
{
    out.push('+');
    out.push('-');
    out.push('+');
    out.push('-');
    out.push('+');
    out.push('-');
    out.push('+');
    out.push('\n');
    assert(final(out)@ =~= old(out)@ + border_text());
}

impl Game {
    /// Nine cells, and the two players hold the two distinct marks.
    pub open spec fn wf(&self) -> bool {
        &&& self.grid.wf()
        &&& self.currentplayer.mark != Mark::Empty
        &&& self.nextplayer.mark != Mark::Empty
        &&& self.currentplayer.mark != self.nextplayer.mark
    }

    /// A fresh game: empty board, `first` plays X and moves first, `second` plays O.
    pub fn new(first: PlayerType, second: PlayerType) -> (r: Game)
        ensures
            r.wf(),
            r@.board == Seq::new(9, |i: int| Mark::Empty),
            r.currentplayer == (Player { ptype: first, mark: Mark::X }),
            r.nextplayer == (Player { ptype: second, mark: Mark::O }),
    {
        Game {
            grid: Board::new(),
            currentplayer: Player { ptype: first, mark: Mark::X },
            nextplayer: Player { ptype: second, mark: Mark::O },
        }
    }

    /// The mark at column `x`, row `y`.
    pub fn get_mark(&self, x: usize, y: usize) -> (r: Mark)
        requires
            self.wf(),
            in_bounds(x as int, y as int),
        ensures
            r == self@.board[cell_index(x as int, y as int)],
    {
        self.grid.get(x, y)
    }

    /// Places `mark` at column `x`, row `y` if that cell is empty; tells whether it did.
    pub fn set_mark(&mut self, x: usize, y: usize, mark: Mark) -> (r: bool)
        requires
            old(self).grid.wf(),
            in_bounds(x as int, y as int),
        ensures
            final(self).grid.wf(),
            final(self).currentplayer == old(self).currentplayer,
            final(self).nextplayer == old(self).nextplayer,
            r == (old(self)@.board[cell_index(x as int, y as int)] == Mark::Empty),
            r ==> final(self)@.board == old(self)@.board.update(cell_index(x as int, y as int), mark),
            !r ==> final(self)@.board == old(self)@.board,
    {
        self.grid.set(x, y, mark)
    }

    /// Whether either side has three in a row.
    pub fn won(&self) -> (r: bool)
        requires
            self.wf(),
        ensures
            r == has_winning_line(self@.board),
    {
        self.grid.is_won()
    }

    /// Whether every cell is taken.
    pub fn is_draw(&self) -> (r: bool)
        requires
            self.wf(),
        ensures
            r == all_filled(self@.board),
    {
        self.grid.is_full()
    }

    /// Exchanges the current and the next player.
    pub fn swap_turn(&mut self)
        ensures
            final(self)@ == old(self)@.swapped(),
    {
        let held = self.currentplayer;
        self.currentplayer = self.nextplayer;
        self.nextplayer = held;
    }

    /// The interactive strategy, which has no implementation yet.
    pub fn human_turn(&self) -> (r: Result<(), TurnError>)
        ensures
            r == Err::<(), TurnError>(TurnError::Unsupported(PlayerType::Human)),
    {
        Err(TurnError::Unsupported(PlayerType::Human))
    }

    /// The medium strategy, which has no implementation yet.
    pub fn med_turn(&self) -> (r: Result<(), TurnError>)
        ensures
            r == Err::<(), TurnError>(TurnError::Unsupported(PlayerType::Medium)),
    {
        Err(TurnError::Unsupported(PlayerType::Medium))
    }

    /// The hard strategy, which has no implementation yet.
    pub fn hard_turn(&self) -> (r: Result<(), TurnError>)
        ensures
            r == Err::<(), TurnError>(TurnError::Unsupported(PlayerType::Hard)),
    {
        Err(TurnError::Unsupported(PlayerType::Hard))
    }

    /// The character shown for the cell at column `x`, row `y`.
    pub fn print_mark(&self, x: usize, y: usize) -> (r: char)
        requires
            self.wf(),
            in_bounds(x as int, y as int),
        ensures
            r == mark_char(self@.board[cell_index(x as int, y as int)]),
    {
        match self.get_mark(x, y) {
            Mark::X => 'X',
            Mark::O => 'O',
            Mark::Empty => ' ',
        }
    }

    /// The easy strategy: draws cells uniformly at random until one is empty,
    /// then places the current player's mark there.
    ///
    /// The number of draws is capped so that the loop provably ends; a board
    /// with an empty cell makes each draw succeed with probability at least
    /// one in nine, so the cap is never met in practice. Past it the first
    /// empty cell is taken.
    pub fn easy_turn(&mut self)
        requires
            old(self).wf(),
            !all_filled(old(self)@.board),
        ensures
            final(self).wf(),
            final(self).currentplayer == old(self).currentplayer,
            final(self).nextplayer == old(self).nextplayer,
            placed_once(old(self)@.board, final(self)@.board, old(self).currentplayer.mark),
    {
        let mark = self.currentplayer.mark;
        let mut draws: u64 = 0;
        while draws < u64::MAX
            invariant
                self.wf(),
                self@ == old(self)@,
                mark == self.currentplayer.mark,
            decreases u64::MAX - draws,
        {
            let x = random_below(3);
            let y = random_below(3);
            if self.set_mark(x, y, mark) {
                assert(old(self)@.board[cell_index(x as int, y as int)] == Mark::Empty);
                return;
            }
            draws += 1;
        }
        let mut i: usize = 0;
        while i < 9
            invariant
                i <= 9,
                self.wf(),
                self@ == old(self)@,
                mark == self.currentplayer.mark,
                forall|j: int| 0 <= j < i ==> self@.board[j] != Mark::Empty,
            decreases 9 - i,
        {
            assert(cell_index((i % 3) as int, (i / 3) as int) == i);
            if self.set_mark(i % 3, i / 3, mark) {
                assert(old(self)@.board[i as int] == Mark::Empty);
                return;
            }
            i += 1;
        }
    }

    /// Lets the current player's strategy place one mark.
    pub fn take_turn(&mut self) -> (r: Result<(), TurnError>)
        requires
            old(self).wf(),
            !all_filled(old(self)@.board),
        ensures
            final(self).wf(),
            final(self).currentplayer == old(self).currentplayer,
            final(self).nextplayer == old(self).nextplayer,
            old(self).currentplayer.ptype == PlayerType::Easy ==> {
                &&& r == Ok::<(), TurnError>(())
                &&& placed_once(old(self)@.board, final(self)@.board, old(self).currentplayer.mark)
            },
            old(self).currentplayer.ptype != PlayerType::Easy ==> {
                &&& r == Err::<(), TurnError>(TurnError::Unsupported(old(self).currentplayer.ptype))
                &&& final(self)@ == old(self)@
            },
    {
        match self.currentplayer.ptype {
            PlayerType::Human => self.human_turn(),
            PlayerType::Easy => {
                self.easy_turn();
                Ok(())
            },
            PlayerType::Medium => self.med_turn(),
            PlayerType::Hard => self.hard_turn(),
        }
    }

    /// One step of a game in progress: the current player moves, then the
    /// roles are exchanged. Returns where the game then stands.
    pub fn advance(&mut self) -> (r: Result<Outcome, TurnError>)
        requires
            old(self).wf(),
            old(self)@.outcome() == Outcome::InProgress,
        ensures
            final(self).wf(),
            old(self).currentplayer.ptype == PlayerType::Easy ==> {
                &&& r == Ok::<Outcome, TurnError>(final(self)@.outcome())
                &&& final(self).currentplayer == old(self).nextplayer
                &&& final(self).nextplayer == old(self).currentplayer
                &&& placed_once(old(self)@.board, final(self)@.board, old(self).currentplayer.mark)
            },
            old(self).currentplayer.ptype != PlayerType::Easy ==> {
                &&& r == Err::<Outcome, TurnError>(TurnError::Unsupported(old(self).currentplayer.ptype))
                &&& final(self)@ == old(self)@
            },
    {
        match self.take_turn() {
            Ok(()) => {
                self.swap_turn();
                Ok(self.outcome())
            },
            Err(e) => Err(e),
        }
    }

    /// Plays turns until the game is won or drawn and returns the number of
    /// moves made. Two easy players always finish, within nine moves.
    pub fn play_out(&mut self) -> (r: Result<usize, TurnError>)
        requires
            old(self).wf(),
        ensures
            final(self).wf(),
            match r {
                Ok(n) => {
                    &&& final(self)@.outcome() != Outcome::InProgress
                    &&& n <= 9
                    &&& filled(final(self)@.board) == filled(old(self)@.board) + n
                },
                Err(e) => {
                    &&& final(self).currentplayer.ptype != PlayerType::Easy
                    &&& e == TurnError::Unsupported(final(self).currentplayer.ptype)
                },
            },
            old(self).currentplayer.ptype == PlayerType::Easy
                && old(self).nextplayer.ptype == PlayerType::Easy ==> r is Ok,
    {
        let mut moves: usize = 0;
        proof {
            lemma_count_bound(self@.board, 9);
        }
        while self.outcome() == Outcome::InProgress
            invariant
                self.wf(),
                moves <= 9,
                filled(self@.board) == filled(old(self)@.board) + moves,
                filled(self@.board) <= 9,
                (self.currentplayer == old(self).currentplayer && self.nextplayer == old(self).nextplayer)
                    || (self.currentplayer == old(self).nextplayer && self.nextplayer == old(self).currentplayer),
            decreases 9 - filled(self@.board),
        {
            let ghost before = self@;
            match self.advance() {
                Ok(_) => {
                    proof {
                        lemma_placed_once_fills_one(before.board, self@.board, before.current.mark);
                        lemma_count_bound(self@.board, 9);
                    }
                    moves += 1;
                },
                Err(e) => {
                    return Err(e);
                },
            }
        }
        Ok(moves)
    }

    /// Appends the rendered line of row `y`.
    fn push_row(&self, y: usize, out: &mut Vec<char>)
        requires
            self.wf(),
            y <= 2,
        ensures
            final(out)@ == old(out)@ + row_text(self@.board, y as int),
    {
        out.push('|');
        out.push(self.print_mark(0, y));
        out.push('|');
        out.push(self.print_mark(1, y));
        out.push('|');
        out.push(self.print_mark(2, y));
        out.push('|');
        out.push('\n');
        assert(final(out)@ =~= old(out)@ + row_text(self@.board, y as int));
    }

    /// The board as text, one line per row, the top row first.
    pub fn render_grid(&self) -> (r: Vec<char>)
        requires
            self.wf(),
        ensures
            r@ == grid_text(self@.board),
    {
        let mut out: Vec<char> = Vec::new();
        push_border(&mut out);
        self.push_row(2, &mut out);
        push_border(&mut out);
        self.push_row(1, &mut out);
        push_border(&mut out);
        self.push_row(0, &mut out);
        push_border(&mut out);
        assert(out@ =~= grid_text(self@.board));
        out
    }

    /// Where the game stands; a win is reported before a full board.
    pub fn outcome(&self) -> (r: Outcome)
        requires
            self.wf(),
        ensures
            r == self@.outcome(),
    {
        if self.won() {
            Outcome::Won(self.nextplayer.mark)
        } else if self.is_draw() {
            Outcome::Drawn
        } else {
            Outcome::InProgress
        }
    }
}

/// Exchanging the roles twice gives back the original roles.
pub proof fn lemma_swap_twice(g: GameView)
    ensures
        g.swapped().swapped() == g,
{
}

} // verus!
