//! The two players of a game.

use vstd::prelude::*;

verus! {

/// One of the two players. `White` is the first player, `Black` the second.
#[derive(Clone, Copy, Debug, PartialEq, Eq, Hash, Structural)]
pub enum Color {
    White,
    Black,
}

impl Color {
    /// The other player.
    pub open spec fn opposite(self) -> Color {
        match self {
            Color::White => Color::Black,
            Color::Black => Color::White,
        }
    }

    /// The player's place in a table with one entry per player: 0 for the
    /// first player, 1 for the second.
    pub open spec fn index(self) -> int {
        match self {
            Color::White => 0,
            Color::Black => 1,
        }
    }

    /// The factor that turns a score seen by the first player into the score
    /// seen by this player: 1 for the first player, -1 for the second.
    pub open spec fn sign(self) -> int {
        match self {
            Color::White => 1,
            Color::Black => -1,
        }
    }

    /// The player's name as text.
    pub open spec fn name(self) -> Seq<char> {
        match self {
            Color::White => "White"@,
            Color::Black => "Black"@,
        }
    }

    /// Returns the color's discriminant: 0 for white, 1 for black.
    #[inline]
    pub fn disc(self) -> (d: usize)
        ensures
            d == self.index(),
    {
        match self {
            Color::White => 0,
            Color::Black => 1,
        }
    }

    /// Returns the color's multiplier: 1 for white, -1 for black.
    #[inline]
    pub fn multiplier(self) -> (m: isize)
        ensures
            m == self.sign(),
    {
        match self {
            Color::White => 1,
            Color::Black => -1,
        }
    }

    /// Returns the color's name, "White" or "Black".
    pub fn to_string(&self) -> (s: String)
        ensures
            s@ == self.name(),
    {
        match self {
            Color::White => "White".to_owned(),
            Color::Black => "Black".to_owned(),
        }
    }
}

impl core::ops::Not for Color {
    type Output = Color;

    /// Returns the other color.
    #[inline]
    fn not(self) -> (other: Color)
        ensures
            other == self.opposite(),
    {
        match self {
            Color::White => Color::Black,
            Color::Black => Color::White,
        }
    }
}

impl vstd::std_specs::ops::NotSpecImpl for Color {
    open spec fn obeys_not_spec() -> bool {
        true
    }

    open spec fn not_req(self) -> bool {
        true
    }

    open spec fn not_spec(self) -> Color {
        self.opposite()
    }
}

/// Taking the other player twice gives the first one back, and the other
/// player is never the same player.
pub proof fn lemma_opposite_is_involution(c: Color)
    ensures
        c.opposite().opposite() == c,
        c.opposite() != c,
{
}

/// The two players have the indices 0 and 1, and the signs 1 and -1: the sign
/// is `1 - 2 * index`, and both flip with the player.
pub proof fn lemma_index_and_sign(c: Color)
    ensures
        0 <= c.index() <= 1,
        c.sign() == 1 - 2 * c.index(),
        c.opposite().index() == 1 - c.index(),
        c.opposite().sign() == -c.sign(),
{
}

} // verus!
