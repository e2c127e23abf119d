//! Positions that can be compared and copied.

use crate::position::Position;
use vstd::prelude::*;

verus! {

/// A game position that algorithms can compare with `==` and copy with
/// `clone`, as those do that search with a heuristic static evaluation:
/// they keep positions in tables and hand copies to their workers.
///
/// The evaluation itself is a floating-point number and is declared beside
/// this crate; here stands what such algorithms need of the position: that
/// `==` and `clone` agree with the position's model.
pub trait EvalPosition: Position + PartialEq + Clone {
    /// Law: `==` on two positions tells whether they are the same position.
    proof fn law_equality_is_same(&self, other: &Self, equal: bool)
        requires
            self.inv(),
            other.inv(),
            call_ensures(<Self as PartialEq>::eq, (self, other), equal),
        ensures
            equal == self.same(other),
    ;

    /// Law: a clone of a position is the same position.
    proof fn law_clone_is_same(&self, copy: Self)
        requires
            self.inv(),
            call_ensures(<Self as Clone>::clone, (self,), copy),
        ensures
            copy.inv(),
            copy.same(self),
    ;
}

/// Round trip under `==`: when a legal move has been played and taken back,
/// comparing what is left with a copy of the position that the move was
/// played in, made before the move, gives `true`.
///
/// `copy` stands for what `clone` returns on `pos`, `played` and `rev` for
/// what `do_move` leaves and returns on `pos` with `mv`, `restored` for what
/// `reverse_move` then leaves, and `equal` for what `==` returns on `restored`
/// and `copy`.
pub proof fn lemma_round_trip_compares_equal<P: EvalPosition>(
    pos: P,
    copy: P,
    mv: P::Move,
    played: P,
    rev: P::ReverseMove,
    restored: P,
    equal: bool,
)
    requires
        pos.inv(),
        pos.legal_moves().contains(mv),
        call_ensures(<P as Clone>::clone, (&pos,), copy),
        played.inv(),
        played.same(&pos.after_move(mv)),
        played.can_reverse(rev),
        played.before_move(rev).same(&pos),
        restored.inv(),
        restored.same(&played.before_move(rev)),
        call_ensures(<P as PartialEq>::eq, (&restored, &copy), equal),
    ensures
        equal,
{
    pos.law_clone_is_same(copy);
    copy.law_same_symmetric(&pos);
    let back = played.before_move(rev);
    restored.law_same_transitive(&back, &pos);
    restored.law_same_transitive(&pos, &copy);
    restored.law_equality_is_same(&copy, equal);
}

/// The start compares equal: two positions that `start_position` gives are
/// equal under `==`, and so is one of them with what
/// `start_position_with_settings` gives for the settings that
/// `Settings::default()` returns.
///
/// `first` and `second` stand for what two calls of `start_position` return,
/// `settings` for what `Settings::default()` returns, `with_settings` for what
/// `start_position_with_settings` returns on `settings`, and the two flags
/// for what `==` returns on `first` and `second`, and on `first` and
/// `with_settings`.
pub proof fn lemma_starts_compare_equal<P: EvalPosition>(
    first: P,
    second: P,
    settings: P::Settings,
    with_settings: P,
    equal_to_second: bool,
    equal_to_with_settings: bool,
)
    requires
        first.inv(),
        first.same(&P::start(P::default_settings())),
        second.inv(),
        second.same(&P::start(P::default_settings())),
        call_ensures(<P::Settings as Default>::default, (), settings),
        with_settings.inv(),
        with_settings.same(&P::start(settings)),
        call_ensures(<P as PartialEq>::eq, (&first, &second), equal_to_second),
        call_ensures(<P as PartialEq>::eq, (&first, &with_settings), equal_to_with_settings),
    ensures
        equal_to_second,
        equal_to_with_settings,
{
    crate::position::lemma_start_position_is_fixed(first, second, settings, with_settings);
    first.law_equality_is_same(&second, equal_to_second);
    first.law_equality_is_same(&with_settings, equal_to_with_settings);
}

/// Round trip from the start: when a legal move has been played in the
/// starting position and taken back, comparing what is left with a fresh
/// starting position gives `true`.
///
/// `pos` stands for what `start_position` returns, `played` and `rev` for
/// what `do_move` leaves and returns on `pos` with `mv`, `restored` for what
/// `reverse_move` then leaves, `fresh` for what a further call of
/// `start_position` returns, and `equal` for what `==` returns on `restored`
/// and `fresh`.
pub proof fn lemma_start_round_trip_compares_equal<P: EvalPosition>(
    pos: P,
    mv: P::Move,
    played: P,
    rev: P::ReverseMove,
    restored: P,
    fresh: P,
    equal: bool,
)
    requires
        pos.inv(),
        pos.same(&P::start(P::default_settings())),
        pos.legal_moves().contains(mv),
        played.inv(),
        played.same(&pos.after_move(mv)),
        played.can_reverse(rev),
        played.before_move(rev).same(&pos),
        restored.inv(),
        restored.same(&played.before_move(rev)),
        fresh.inv(),
        fresh.same(&P::start(P::default_settings())),
        call_ensures(<P as PartialEq>::eq, (&restored, &fresh), equal),
    ensures
        equal,
{
    crate::position::lemma_move_round_trip(pos, mv, played, rev, restored);
    crate::position::lemma_start_is_deterministic(P::default_settings(), pos, fresh);
    restored.law_same_transitive(&pos, &fresh);
    restored.law_equality_is_same(&fresh, equal);
}

} // verus!
