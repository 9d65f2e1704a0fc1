use vstd::prelude::*;
use vstd::string::StrSliceExecFns;
use crate::game::PlayerType;

verus! {

/// A command typed at the menu.
#[derive(PartialEq, Eq, Structural, Clone, Copy, Debug)]
pub enum Command {
    /// Show the usage line.
    Help,
    /// Leave the program.
    Quit,
    /// Start a game: the first player plays X and moves first.
    Start(PlayerType, PlayerType),
    /// Anything else; the menu asks again.
    Invalid,
}

/// What `str::to_lowercase` makes of a string.
pub uninterp spec fn lower_of(s: Seq<char>) -> Seq<char>;

/// Whether `char::is_whitespace` holds of a character.
pub uninterp spec fn space_of(c: char) -> bool;

/// Relies on str::to_lowercase: the result depends on the characters alone.
#[verifier::external_body]
fn lowercase(s: &str) -> (r: String)
    ensures
        r@ == lower_of(s@),
{
    s.to_lowercase()
}

/// Relies on char::is_whitespace: the result depends on the character alone.
#[verifier::external_body]
fn is_space(c: char) -> (r: bool)
    ensures
        r == space_of(c),
{
    c.is_whitespace()
}

/// The maximal runs of non-whitespace characters of `s`, in order.
pub open spec fn words(s: Seq<char>) -> Seq<Seq<char>>
    decreases s.len(),
{
    if s.len() == 0 {
        seq![]
    } else {
        let w = words(s.drop_last());
        let c = s.last();
        if space_of(c) {
            w
        } else if s.len() >= 2 && !space_of(s[s.len() - 2]) {
            w.update(w.len() - 1, w.last().push(c))
        } else {
            w.push(seq![c])
        }
    }
}

/// The player type a word names, if any.
pub open spec fn player_of(w: Seq<char>) -> Option<PlayerType> {
    if w == "human"@ || w == "player"@ || w == "user"@ {
        Some(PlayerType::Human)
    } else if w == "easy"@ {
        Some(PlayerType::Easy)
    } else if w == "medium"@ {
        Some(PlayerType::Medium)
    } else if w == "hard"@ {
        Some(PlayerType::Hard)
    } else {
        None
    }
}

/// The command that a line, already in lower case, stands for. Words after
/// the ones a command reads are ignored.
pub open spec fn command_of(s: Seq<char>) -> Command {
    let w = words(s);
    if w.len() == 0 {
        Command::Invalid
    } else if w[0] == "help"@ || w[0] == "menu"@ || w[0] == "?"@ {
        Command::Help
    } else if w[0] == "exit"@ || w[0] == "quit"@ || w[0] == "stop"@ {
        Command::Quit
    } else if w[0] == "start"@ && w.len() >= 3 && player_of(w[1]) is Some && player_of(w[2]) is Some {
        Command::Start(player_of(w[1])->Some_0, player_of(w[2])->Some_0)
    } else {
        Command::Invalid
    }
}

pub open spec fn views_of(ws: Seq<Vec<char>>) -> Seq<Seq<char>> {
    ws.map_values(|w: Vec<char>| w@)
}

/// Whether the word spells `lit`.
fn word_is(w: &Vec<char>, lit: &str) -> (r: bool)
    ensures
        r == (w@ == lit@),
{
    let n = lit.unicode_len();
    if w.len() != n {
        return false;
    }
    let mut i: usize = 0;
    while i < n
        invariant
            n == lit@.len(),
            w@.len() == n,
            i <= n,
            forall|j: int| 0 <= j < i ==> w@[j] == lit@[j],
        decreases n - i,
    {
        if w[i] != lit.get_char(i) {
            return false;
        }
        i += 1;
    }
    assert(w@ =~= lit@);
    true
}

/// Splits `s` into its words.
fn split_words(s: &str) -> (r: Vec<Vec<char>>)
    ensures
        views_of(r@) == words(s@),
{
    let n = s.unicode_len();
    let mut toks: Vec<Vec<char>> = Vec::new();
    let mut cur: Vec<char> = Vec::new();
    let mut i: usize = 0;
    while i < n
        invariant
            n == s@.len(),
            i <= n,
            cur@.len() == 0 ==> words(s@.subrange(0, i as int)) == views_of(toks@),
            cur@.len() > 0 ==> words(s@.subrange(0, i as int)) == views_of(toks@).push(cur@),
            cur@.len() == 0 <==> (i == 0 || space_of(s@[i - 1])),
        decreases n - i,
    {
        let c = s.get_char(i);
        let ghost pre = s@.subrange(0, i as int);
        let ghost next = s@.subrange(0, i + 1);
        assert(next.drop_last() =~= pre);
        assert(next.last() == c);
        if is_space(c) {
            if cur.len() > 0 {
                let ghost old_toks = toks@;
                let ghost word = cur@;
                toks.push(cur);
                cur = Vec::new();
                assert(views_of(toks@) =~= views_of(old_toks).push(word));
            }
        } else {
            let ghost old_cur = cur@;
            let in_word = cur.len() > 0;
            cur.push(c);
            if i > 0 {
                assert(next[next.len() - 2] == s@[i - 1]);
            }
            if in_word {
                assert(views_of(toks@).push(cur@) =~= views_of(toks@).push(old_cur).update(
                    views_of(toks@).len() as int,
                    old_cur.push(c),
                ));
            } else {
                assert(cur@ =~= seq![c]);
            }
        }
        i += 1;
    }
    assert(s@.subrange(0, n as int) =~= s@);
    if cur.len() > 0 {
        let ghost old_toks = toks@;
        toks.push(cur);
        assert(views_of(toks@) =~= views_of(old_toks).push(cur@));
    }
    toks
}

/// The player type a word names, if any.
fn player_of_word(w: &Vec<char>) -> (r: Option<PlayerType>)
    ensures
        r == player_of(w@),
{
    if word_is(w, "human") || word_is(w, "player") || word_is(w, "user") {
        Some(PlayerType::Human)
    } else if word_is(w, "easy") {
        Some(PlayerType::Easy)
    } else if word_is(w, "medium") {
        Some(PlayerType::Medium)
    } else if word_is(w, "hard") {
        Some(PlayerType::Hard)
    } else {
        None
    }
}

/// Reads a line that is already in lower case as a menu command.
pub fn parse_words(line: &str) -> (r: Command)
    ensures
        r == command_of(line@),
{
    let w = split_words(line);
    assert(w@.len() == words(line@).len());
    if w.len() == 0 {
        return Command::Invalid;
    }
    assert(w@[0]@ == words(line@)[0]);
    if word_is(&w[0], "help") || word_is(&w[0], "menu") || word_is(&w[0], "?") {
        Command::Help
    } else if word_is(&w[0], "exit") || word_is(&w[0], "quit") || word_is(&w[0], "stop") {
        Command::Quit
    } else if word_is(&w[0], "start") && w.len() >= 3 {
        assert(w@[1]@ == words(line@)[1]);
        assert(w@[2]@ == words(line@)[2]);
        match (player_of_word(&w[1]), player_of_word(&w[2])) {
            (Some(p1), Some(p2)) => Command::Start(p1, p2),
            _ => Command::Invalid,
        }
    } else {
        Command::Invalid
    }
}

/// Reads a menu line; keywords and player names are matched without regard
/// to case.
pub fn parse_command(line: &str) -> (r: Command)
    ensures
        r == command_of(lower_of(line@)),
{
    let lower = lowercase(line);
    parse_words(lower.as_str())
}

} // verus!
