//! The outcome of a finished game.

use crate::color::Color;
use vstd::prelude::*;

verus! {

/// The result of a game after it has finished.
#[derive(Clone, Copy, Debug, PartialEq, Eq, Structural)]
pub enum GameResult {
    WhiteWin,
    BlackWin,
    Draw,
}

impl GameResult {
    /// The result in which `color` has won.
    pub open spec fn won_by(color: Color) -> GameResult {
        match color {
            Color::White => GameResult::WhiteWin,
            Color::Black => GameResult::BlackWin,
        }
    }

    /// The same game with the players' roles exchanged: a win passes to the
    /// other player, a draw stays a draw.
    pub open spec fn flipped(self) -> GameResult {
        match self {
            GameResult::WhiteWin => GameResult::BlackWin,
            GameResult::BlackWin => GameResult::WhiteWin,
            GameResult::Draw => GameResult::Draw,
        }
    }

    /// The player who has won, if any.
    pub open spec fn winner(self) -> Option<Color> {
        match self {
            GameResult::WhiteWin => Some(Color::White),
            GameResult::BlackWin => Some(Color::Black),
            GameResult::Draw => None,
        }
    }

    /// Returns `WhiteWin` for white, `BlackWin` for black.
    #[inline]
    pub fn win_by(color: Color) -> (result: GameResult)
        ensures
            result == GameResult::won_by(color),
    {
        match color {
            Color::White => GameResult::WhiteWin,
            Color::Black => GameResult::BlackWin,
        }
    }
}

impl core::ops::Not for GameResult {
    type Output = GameResult;

    /// Returns the result with the players' roles exchanged.
    #[inline]
    fn not(self) -> (other: GameResult)
        ensures
            other == self.flipped(),
    {
        match self {
            GameResult::WhiteWin => GameResult::BlackWin,
            GameResult::BlackWin => GameResult::WhiteWin,
            GameResult::Draw => GameResult::Draw,
        }
    }
}

impl vstd::std_specs::ops::NotSpecImpl for GameResult {
    open spec fn obeys_not_spec() -> bool {
        true
    }

    open spec fn not_req(self) -> bool {
        true
    }

    open spec fn not_spec(self) -> GameResult {
        self.flipped()
    }
}

/// Exchanging the roles twice gives the result back; it exchanges the two
/// wins and leaves a draw alone.
pub proof fn lemma_flipped_is_involution(r: GameResult)
    ensures
        r.flipped().flipped() == r,
        r.flipped() == r <==> r == GameResult::Draw,
        r.flipped().winner() == match r.winner() {
            Some(c) => Some(c.opposite()),
            None => None,
        },
{
}

/// A win by `c` is a win whose winner is `c`, never a draw, and with the roles
/// exchanged it is a win by the other player.
pub proof fn lemma_won_by(c: Color)
    ensures
        GameResult::won_by(c).winner() == Some(c),
        GameResult::won_by(c) != GameResult::Draw,
        GameResult::won_by(c).flipped() == GameResult::won_by(c.opposite()),
{
}

} // verus!
