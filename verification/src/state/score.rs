//! The two goal counters.

use vstd::prelude::*;

verus! {

/// The character that stands for a digit from 0 to 9.
pub open spec fn digit(d: int) -> char
    recommends
        0 <= d < 10,
{
    if d == 0 {
        '0'
    } else if d == 1 {
        '1'
    } else if d == 2 {
        '2'
    } else if d == 3 {
        '3'
    } else if d == 4 {
        '4'
    } else if d == 5 {
        '5'
    } else if d == 6 {
        '6'
    } else if d == 7 {
        '7'
    } else if d == 8 {
        '8'
    } else {
        '9'
    }
}

/// The decimal numeral of a natural number, without leading zeros.
pub open spec fn decimal(n: nat) -> Seq<char>
    decreases n,
{
    if n < 10 {
        seq![digit(n as int)]
    } else {
        decimal(n / 10).push(digit((n % 10) as int))
    }
}

/// The decimal numeral of an integer: a minus sign goes before that of a
/// negative one.
pub open spec fn numeral(n: int) -> Seq<char> {
    if n < 0 {
        seq!['-'] + decimal((-n) as nat)
    } else {
        decimal(n as nat)
    }
}

/// The text of the scoreboard: the two numerals with a colon between
/// spaces.
pub open spec fn score_text(player1: int, player2: int) -> Seq<char> {
    numeral(player1) + seq![' ', ':', ' '] + numeral(player2)
}

/// The numeral of one digit.
fn digit_str(d: u32) -> (r: &'static str)
    requires
        d < 10,
    ensures
        r@ == seq![digit(d as int)],
{
    proof {
        reveal_strlit("0");
        reveal_strlit("1");
        reveal_strlit("2");
        reveal_strlit("3");
        reveal_strlit("4");
        reveal_strlit("5");
        reveal_strlit("6");
        reveal_strlit("7");
        reveal_strlit("8");
        reveal_strlit("9");
    }
    if d == 0 {
        "0"
    } else if d == 1 {
        "1"
    } else if d == 2 {
        "2"
    } else if d == 3 {
        "3"
    } else if d == 4 {
        "4"
    } else if d == 5 {
        "5"
    } else if d == 6 {
        "6"
    } else if d == 7 {
        "7"
    } else if d == 8 {
        "8"
    } else {
        "9"
    }
}

/// Writes the decimal numeral of `n` at the end of `text`.
fn push_decimal(text: &mut String, n: u32)
    ensures
        final(text)@ == old(text)@ + decimal(n as nat),
    decreases n,
{
    if n >= 10 {
        push_decimal(text, n / 10);
    }
    text.append(digit_str(n % 10));
}

/// Writes the decimal numeral of `n` at the end of `text`.
fn push_numeral(text: &mut String, n: i32)
    ensures
        final(text)@ == old(text)@ + numeral(n as int),
{
    if n < 0 {
        proof {
            reveal_strlit("-");
        }
        text.append("-");
        push_decimal(text, (-(n as i64)) as u32);
    } else {
        push_decimal(text, n as u32);
    }
}

/// How many goals each player has made in the running match.
#[derive(Clone, Copy, Debug, PartialEq, Eq, Structural)]
pub struct Score {
    pub player1: i32,
    pub player2: i32,
}

/// What a [`Score`] stands for: a pair of integers.
pub struct TallyView {
    pub player1: int,
    pub player2: int,
}

impl TallyView {
    /// The score after one more goal of player 1.
    pub open spec fn goal_player_1(self) -> TallyView {
        TallyView { player1: self.player1 + 1, ..self }
    }

    /// The score after one more goal of player 2.
    pub open spec fn goal_player_2(self) -> TallyView {
        TallyView { player2: self.player2 + 1, ..self }
    }

    /// The score at the start of a match.
    pub open spec fn zero() -> TallyView {
        TallyView { player1: 0, player2: 0 }
    }

    /// Whether a player has as many goals as `threshold`, or more.
    pub open spec fn reached(self, threshold: int) -> bool {
        self.player1 >= threshold || self.player2 >= threshold
    }
}

impl View for Score {
    type V = TallyView;

    open spec fn view(&self) -> TallyView {
        TallyView { player1: self.player1 as int, player2: self.player2 as int }
    }
}

impl Score {
    /// A score with the given counters.
    pub fn new(player1: i32, player2: i32) -> (r: Score)
        ensures
            r.player1 == player1,
            r.player2 == player2,
    {
        Score { player1, player2 }
    }

    /// The text of a scoreboard that shows `a` for player 1 and `b` for
    /// player 2.
    pub fn format(a: i32, b: i32) -> (r: String)
        ensures
            r@ == score_text(a as int, b as int),
    {
        let mut text = String::new();
        push_numeral(&mut text, a);
        proof {
            reveal_strlit(" : ");
        }
        text.append(" : ");
        push_numeral(&mut text, b);
        text
    }

    /// Counts a goal for player 1.
    pub fn goal_player_1(&mut self)
        requires
            old(self).player1 < i32::MAX,
        ensures
            final(self)@ == old(self)@.goal_player_1(),
    {
        self.player1 += 1;
    }

    /// Counts a goal for player 2.
    pub fn goal_player_2(&mut self)
        requires
            old(self).player2 < i32::MAX,
        ensures
            final(self)@ == old(self)@.goal_player_2(),
    {
        self.player2 += 1;
    }

    /// Starts a new match: both counters go back to zero.
    pub fn reset_score(&mut self)
        ensures
            final(self)@ == TallyView::zero(),
    {
        self.player1 = 0;
        self.player2 = 0;
    }
}

} // verus!
