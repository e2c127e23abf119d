//! The contract of a position with the extras that efficient search needs.

use crate::eval_position::EvalPosition;
use crate::position::appended;
use crate::position::is_legal_line;
use crate::position::line_end;
use vstd::prelude::*;

verus! {

/// An extended game representation, which includes many additional methods to
/// help game-playing algorithms search more effectively.
pub trait ExtendedPosition: EvalPosition {
    /// The type for a reverse null move: what `do_null_move` hands out so that
    /// the null move can be taken back.
    type ReverseNullMove;

    /// A representation of the position that can be hashed, for use as the key
    /// of a transposition table.
    type HashPosition: core::hash::Hash + Eq;

    /// An estimate for the average branch factor of the game.
    /// Helps search algorithms guide pruning and time management; nothing
    /// depends on it for correctness.
    const BRANCH_FACTOR: u64 = 20;

    /// The key under which the position is stored.
    spec fn hash_view(&self) -> Self::HashPosition;

    /// The legal moves that change the evaluation of the position radically,
    /// such as captures: those that a quiescence search follows.
    spec fn active(&self) -> Set<Self::Move>;

    /// A bound on the number of active moves that can be played in a row from
    /// this position.
    spec fn quiet_within(&self) -> nat;

    /// A bound for the whole game on the number of active moves that can be
    /// played in a row, whatever the position they start from.
    spec fn quiescence_bound() -> nat;

    /// Whether the player to move may pass.
    spec fn null_move_available(&self) -> bool;

    /// The position after the player to move has passed.
    spec fn after_null_move(&self) -> Self;

    /// Whether `rev` was handed out for a null move that led to this position,
    /// so that it may be reversed here.
    spec fn can_reverse_null(&self, rev: Self::ReverseNullMove) -> bool;

    /// The position that reversing the null move `rev` leads back to.
    spec fn before_null_move(&self, rev: Self::ReverseNullMove) -> Self;

    /// Law: `==` on keys tells whether they are the same key.
    proof fn law_keys_compare_by_value()
        ensures
            vstd::laws_eq::obeys_concrete_eq::<Self::HashPosition>(),
    ;

    /// Law: the same position has the same key, the same active moves, the
    /// same bound on them and the same answer on passing.
    proof fn law_same_extended_observations(&self, other: &Self)
        requires
            self.same(other),
        ensures
            self.hash_view() == other.hash_view(),
            self.active() == other.active(),
            self.quiet_within() == other.quiet_within(),
            self.null_move_available() == other.null_move_available(),
    ;

    /// Law: a key may leave out what does not matter to a search, but never
    /// stands for two positions that differ in the player to move or in the
    /// legal moves.
    proof fn law_key_keeps_moves_and_side(&self, other: &Self)
        requires
            self.inv(),
            other.inv(),
            self.hash_view() == other.hash_view(),
        ensures
            self.side() == other.side(),
            self.legal_moves() == other.legal_moves(),
    ;

    /// Law: every active move is a legal move.
    proof fn law_active_moves_are_legal(&self)
        requires
            self.inv(),
        ensures
            self.active().subset_of(self.legal_moves()),
    ;

    /// Law: an active move leads to a position with a smaller bound, so that
    /// following active moves only comes to an end.
    proof fn law_active_move_calms(&self, mv: Self::Move)
        requires
            self.inv(),
            self.active().contains(mv),
        ensures
            self.after_move(mv).quiet_within() < self.quiet_within(),
    ;

    /// Law: the bound of no position is above the bound of the game.
    proof fn law_quiet_within_the_bound(&self)
        requires
            self.inv(),
        ensures
            self.quiet_within() <= Self::quiescence_bound(),
    ;

    /// Law: passing leads to a position in which the other player is to move.
    proof fn law_null_move_passes_turn(&self)
        requires
            self.inv(),
            self.null_move_available(),
        ensures
            self.after_null_move().inv(),
            self.after_null_move().side() == self.side().opposite(),
    ;

    /// Law: passing leads from the same position to the same position.
    proof fn law_same_after_null_move(&self, other: &Self)
        requires
            self.inv(),
            other.inv(),
            self.same(other),
            self.null_move_available(),
        ensures
            self.after_null_move().same(&other.after_null_move()),
    ;

    /// Law: a null move that can be reversed in a position can be reversed in
    /// every value that is the same position, and leads back to the same
    /// position.
    proof fn law_same_before_null_move(&self, other: &Self, rev: Self::ReverseNullMove)
        requires
            self.inv(),
            other.inv(),
            self.same(other),
            self.can_reverse_null(rev),
        ensures
            other.can_reverse_null(rev),
            self.before_null_move(rev).same(&other.before_null_move(rev)),
    ;

    /// Law: reversing a null move leads back to a position.
    proof fn law_reverse_null_leads_to_position(&self, rev: Self::ReverseNullMove)
        requires
            self.inv(),
            self.can_reverse_null(rev),
        ensures
            self.before_null_move(rev).inv(),
    ;

    /// Returns the key of the position for a transposition table.
    fn hash_position(&self) -> (key: Self::HashPosition)
        requires
            self.inv(),
        ensures
            key == self.hash_view(),
    ;

    /// Generates only the "active" moves in a position, and appends them to
    /// the provided vector. These are moves that radically change the static
    /// evaluation of a position, e.g. captures or promotions in chess.
    /// Search algorithms may recursively search all active moves, so
    /// eventually, no moves will be appended.
    /// Required for search algorithms to use quiescence search.
    fn active_moves(&self, moves: &mut Vec<Self::Move>)
        requires
            self.inv(),
        ensures
            old(moves)@.is_prefix_of(final(moves)@),
            appended(old(moves)@, final(moves)@).to_set() == self.active(),
    ;

    /// Tells whether a null move can be played in the position.
    fn null_move_is_available(&self) -> (available: bool)
        requires
            self.inv(),
        ensures
            available == self.null_move_available(),
    ;

    /// Does a passing "null move".
    /// A null move is an empty move which just transfers the turn to the other
    /// player. Enables the null move reduction heuristic.
    fn do_null_move(&mut self) -> (rev: Self::ReverseNullMove)
        requires
            old(self).inv(),
            old(self).null_move_available(),
        ensures
            final(self).inv(),
            final(self).same(&old(self).after_null_move()),
            final(self).side() == old(self).side().opposite(),
            final(self).can_reverse_null(rev),
            final(self).before_null_move(rev).same(old(self)),
    ;

    /// Reverses a passing "null move".
    fn reverse_null_move(&mut self, rev: Self::ReverseNullMove)
        requires
            old(self).inv(),
            old(self).can_reverse_null(rev),
        ensures
            final(self).inv(),
            final(self).same(&old(self).before_null_move(rev)),
    ;
}

/// Null-move round trip: a null move passes the turn to the other player, and
/// taken back it leaves the position that it was played in, with the same
/// player to move, the same legal moves and the same result.
///
/// `passed` and `rev` stand for what `do_null_move` leaves and returns when it
/// is called on `pos`, `restored` for what `reverse_null_move` then leaves:
/// the premises on them are the promises of the two operations.
pub proof fn lemma_null_move_round_trip<P: ExtendedPosition>(
    pos: P,
    passed: P,
    rev: P::ReverseNullMove,
    restored: P,
)
    requires
        pos.inv(),
        pos.null_move_available(),
        passed.inv(),
        passed.same(&pos.after_null_move()),
        passed.can_reverse_null(rev),
        passed.before_null_move(rev).same(&pos),
        restored.inv(),
        restored.same(&passed.before_null_move(rev)),
    ensures
        passed.side() == pos.side().opposite(),
        restored.same(&pos),
        restored.side() == pos.side(),
        restored.legal_moves() == pos.legal_moves(),
        restored.result() == pos.result(),
        restored.null_move_available(),
{
    let after = pos.after_null_move();
    pos.law_null_move_passes_turn();
    passed.law_same_observations(&after);
    let back = passed.before_null_move(rev);
    restored.law_same_transitive(&back, &pos);
    restored.law_same_observations(&pos);
    restored.law_same_extended_observations(&pos);
}

/// Whether `line` is a run of active moves from `pos`: its first move is
/// active in `pos`, the next one in the position that the first leads to, and
/// so on.
pub open spec fn is_active_line<P: ExtendedPosition>(pos: P, line: Seq<P::Move>) -> bool
    decreases line.len(),
{
    if line.len() == 0 {
        true
    } else {
        pos.active().contains(line[0]) && is_active_line(
            pos.after_move(line[0]),
            line.drop_first(),
        )
    }
}

/// Quiescence ends: along a run of active moves every move is legal where it
/// is played, and the bound falls by at least one with each move. So no run
/// is longer than the bound of the position that it starts from, none is
/// longer than the bound of the game, and a run as long as the bound of its
/// first position ends in a position without active moves.
pub proof fn lemma_active_lines_are_bounded<P: ExtendedPosition>(pos: P, line: Seq<P::Move>)
    requires
        pos.inv(),
        is_active_line(pos, line),
    ensures
        is_legal_line(pos, line),
        line_end(pos, line).inv(),
        line.len() + line_end(pos, line).quiet_within() <= pos.quiet_within(),
        line.len() <= pos.quiet_within(),
        line.len() <= P::quiescence_bound(),
        line.len() == pos.quiet_within() ==> line_end(pos, line).active() == Set::<
            P::Move,
        >::empty(),
    decreases line.len(),
{
    pos.law_quiet_within_the_bound();
    if line.len() > 0 {
        let mv = line[0];
        pos.law_active_moves_are_legal();
        pos.law_move_leads_to_position(mv);
        pos.law_active_move_calms(mv);
        lemma_active_lines_are_bounded(pos.after_move(mv), line.drop_first());
    }
    if line.len() == pos.quiet_within() {
        lemma_quiet_position_has_no_active_move(line_end(pos, line));
    }
}

/// Quiescence reaches a quiet position: from any position a run of active
/// moves, no longer than the bound of the game, leads to a position without
/// active moves. The run that is returned takes an active move as long as
/// there is one; by `lemma_active_lines_are_bounded` every other run is as
/// short.
pub proof fn lemma_quiet_position_is_reached<P: ExtendedPosition>(pos: P) -> (line: Seq<P::Move>)
    requires
        pos.inv(),
    ensures
        is_active_line(pos, line),
        is_legal_line(pos, line),
        line.len() <= P::quiescence_bound(),
        line_end(pos, line).inv(),
        line_end(pos, line).active() == Set::<P::Move>::empty(),
    decreases pos.quiet_within(),
{
    if pos.active() =~= Set::<P::Move>::empty() {
        let line = Seq::<P::Move>::empty();
        lemma_active_lines_are_bounded(pos, line);
        line
    } else {
        let mv = choose|mv: P::Move| pos.active().contains(mv);
        pos.law_active_moves_are_legal();
        pos.law_move_leads_to_position(mv);
        pos.law_active_move_calms(mv);
        let rest = lemma_quiet_position_is_reached(pos.after_move(mv));
        let line = seq![mv] + rest;
        assert(line[0] == mv);
        assert(line.drop_first() =~= rest);
        lemma_active_lines_are_bounded(pos, line);
        line
    }
}

/// A position whose bound is zero has no active move.
pub proof fn lemma_quiet_position_has_no_active_move<P: ExtendedPosition>(pos: P)
    requires
        pos.inv(),
        pos.quiet_within() == 0,
    ensures
        pos.active() == Set::<P::Move>::empty(),
{
    assert forall|mv: P::Move| !pos.active().contains(mv) by {
        if pos.active().contains(mv) {
            pos.law_active_move_calms(mv);
        }
    }
    assert(pos.active() =~= Set::<P::Move>::empty());
}

} // verus!
