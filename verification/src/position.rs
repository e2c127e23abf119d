//! The contract of a game position.
//!
//! A game is described by one type that implements [`Position`]. Beside the
//! operations that search algorithms call, an implementation supplies a model
//! of itself: spec functions that say which values are positions, when two
//! values stand for the same position, what can be observed of a position,
//! and where each move leads. The contracts of the operations are stated over
//! that model, and so are the laws that the model has to obey. What follows
//! from them for every game stands below the trait.

use crate::color::Color;
use crate::game_result::GameResult;
use vstd::prelude::*;

verus! {

/// The items that `after` holds behind those of `before`, where `after` is
/// `before` with items added at its end.
pub open spec fn appended<M>(before: Seq<M>, after: Seq<M>) -> Seq<M> {
    after.skip(before.len() as int)
}

/// The simplest abstract representation of a game position. Together, the
/// provided methods encode all the rules of the game.
pub trait Position: Sized {
    /// The type for moves in the game.
    type Move: Eq + Clone + core::fmt::Debug;

    /// The type for a reverse move in the game: what `do_move` hands out so
    /// that the move can be taken back.
    type ReverseMove;

    /// Optional settings when initializing the position.
    type Settings: Default;

    /// Whether the value is a position of the game. Every operation asks for
    /// it and keeps it.
    spec fn inv(&self) -> bool;

    /// Whether two values stand for the same position. Everything that the
    /// contract lets one observe of a position depends on the position only,
    /// not on the value that holds it.
    spec fn same(&self, other: &Self) -> bool;

    /// The player whose turn it is.
    spec fn side(&self) -> Color;

    /// The moves that the rules allow in this position.
    spec fn legal_moves(&self) -> Set<Self::Move>;

    /// The outcome once the game is decided, `None` while it goes on.
    spec fn result(&self) -> Option<GameResult>;

    /// The settings that a game starts with when none are given.
    spec fn default_settings() -> Self::Settings;

    /// The position that a game with the given settings starts from.
    spec fn start(settings: Self::Settings) -> Self;

    /// The position that `mv` leads to.
    spec fn after_move(&self, mv: Self::Move) -> Self;

    /// Whether `rev` was handed out for a move that led to this position, so
    /// that it may be reversed here.
    spec fn can_reverse(&self, rev: Self::ReverseMove) -> bool;

    /// The position that reversing `rev` leads back to.
    spec fn before_move(&self, rev: Self::ReverseMove) -> Self;

    /// Law: `==` on moves tells whether they are the same move.
    proof fn law_moves_compare_by_value()
        ensures
            vstd::laws_eq::obeys_concrete_eq::<Self::Move>(),
    ;

    /// Law: a clone of a move is the same move.
    proof fn law_moves_clone_by_value(mv: &Self::Move, copy: Self::Move)
        requires
            call_ensures(<Self::Move as Clone>::clone, (mv,), copy),
        ensures
            copy == *mv,
    ;

    /// Law: `Settings::default()` always gives the default settings.
    proof fn law_default_settings_are_fixed(settings: Self::Settings)
        requires
            call_ensures(<Self::Settings as Default>::default, (), settings),
        ensures
            settings == Self::default_settings(),
    ;

    /// Law: a position is the same as itself.
    proof fn law_same_reflexive(&self)
        requires
            self.inv(),
        ensures
            self.same(self),
    ;

    /// Law: being the same position does not depend on the order of the two.
    proof fn law_same_symmetric(&self, other: &Self)
        requires
            self.same(other),
        ensures
            other.same(self),
    ;

    /// Law: two values that are the same position as a third are the same
    /// position.
    proof fn law_same_transitive(&self, middle: &Self, other: &Self)
        requires
            self.same(middle),
            middle.same(other),
        ensures
            self.same(other),
    ;

    /// Law: the same position has the same player to move, the same legal
    /// moves and the same result.
    proof fn law_same_observations(&self, other: &Self)
        requires
            self.same(other),
        ensures
            self.side() == other.side(),
            self.legal_moves() == other.legal_moves(),
            self.result() == other.result(),
    ;

    /// Law: a legal move leads from the same position to the same position.
    proof fn law_same_after_move(&self, other: &Self, mv: Self::Move)
        requires
            self.inv(),
            other.inv(),
            self.same(other),
            self.legal_moves().contains(mv),
        ensures
            self.after_move(mv).same(&other.after_move(mv)),
    ;

    /// Law: what can be reversed in a position can be reversed in every value
    /// that is the same position, and leads back to the same position.
    proof fn law_same_before_move(&self, other: &Self, rev: Self::ReverseMove)
        requires
            self.inv(),
            other.inv(),
            self.same(other),
            self.can_reverse(rev),
        ensures
            other.can_reverse(rev),
            self.before_move(rev).same(&other.before_move(rev)),
    ;

    /// Law: every settings value has a starting position.
    proof fn law_start_is_position(settings: Self::Settings)
        ensures
            Self::start(settings).inv(),
    ;

    /// Law: a legal move leads to a position.
    proof fn law_move_leads_to_position(&self, mv: Self::Move)
        requires
            self.inv(),
            self.legal_moves().contains(mv),
        ensures
            self.after_move(mv).inv(),
    ;

    /// Law: reversing leads back to a position.
    proof fn law_reverse_leads_to_position(&self, rev: Self::ReverseMove)
        requires
            self.inv(),
            self.can_reverse(rev),
        ensures
            self.before_move(rev).inv(),
    ;

    /// Law: a decided game has no legal move; the only way on is to take the
    /// last move back.
    proof fn law_decided_is_final(&self)
        requires
            self.inv(),
            self.result().is_some(),
        ensures
            self.legal_moves() == Set::<Self::Move>::empty(),
    ;

    /// Returns the starting position for the game: the one that
    /// `start_position_with_settings` gives for the default settings. This
    /// function always produces identical values.
    #[inline]
    fn start_position() -> (pos: Self)
        ensures
            pos.inv(),
            pos.same(&Self::start(Self::default_settings())),
    {
        let settings = <Self::Settings as Default>::default();
        proof {
            Self::law_default_settings_are_fixed(settings);
        }
        Self::start_position_with_settings(&settings)
    }

    /// Returns the starting position for the game with the given settings.
    fn start_position_with_settings(settings: &Self::Settings) -> (pos: Self)
        ensures
            pos.inv(),
            pos.same(&Self::start(*settings)),
    ;

    /// Returns the side to move for the current position.
    fn side_to_move(&self) -> (side: Color)
        requires
            self.inv(),
        ensures
            side == self.side(),
    ;

    /// Generates all legal moves for the side to move, and appends them to
    /// the provided vector, in no particular order.
    fn generate_moves(&self, moves: &mut Vec<Self::Move>)
        requires
            self.inv(),
        ensures
            old(moves)@.is_prefix_of(final(moves)@),
            appended(old(moves)@, final(moves)@).to_set() == self.legal_moves(),
    ;

    /// Checks if a move is legal in the current position.
    /// Enables minimax algorithms to use the killer-move heuristic in their
    /// search.
    fn move_is_legal(&self, mv: Self::Move) -> (legal: bool)
        requires
            self.inv(),
        ensures
            legal == self.legal_moves().contains(mv),
    {
        let mut moves: Vec<Self::Move> = Vec::new();
        self.generate_moves(&mut moves);
        proof {
            Self::law_moves_compare_by_value();
            assert(appended(Seq::<Self::Move>::empty(), moves@) =~= moves@);
        }
        let mut i: usize = 0;
        while i < moves.len()
            invariant
                i <= moves.len(),
                moves@.to_set() == self.legal_moves(),
                forall|j: int| 0 <= j < i ==> moves@[j] != mv,
                vstd::laws_eq::obeys_concrete_eq::<Self::Move>(),
            decreases moves.len() - i,
        {
            proof {
                reveal(vstd::laws_eq::obeys_concrete_eq);
            }
            if moves[i] == mv {
                return true;
            }
            i += 1;
        }
        assert(!moves@.contains(mv));
        false
    }

    /// Plays a move in the position. Also returns a `ReverseMove` to take the
    /// move back.
    ///
    /// Doing and then undoing a move always restores the position to exactly
    /// the same state.
    fn do_move(&mut self, mv: Self::Move) -> (rev: Self::ReverseMove)
        requires
            old(self).inv(),
            old(self).legal_moves().contains(mv),
        ensures
            final(self).inv(),
            final(self).same(&old(self).after_move(mv)),
            final(self).can_reverse(rev),
            final(self).before_move(rev).same(old(self)),
    ;

    /// Reverses a move made by `do_move`. Moves are taken back in the reverse
    /// of the order in which they were played.
    ///
    /// Doing and then undoing a move always restores the position to exactly
    /// the same state.
    fn reverse_move(&mut self, rev: Self::ReverseMove)
        requires
            old(self).inv(),
            old(self).can_reverse(rev),
        ensures
            final(self).inv(),
            final(self).same(&old(self).before_move(rev)),
    ;

    /// Returns the result if the game is decided, otherwise returns `None`.
    /// If the winning player always plays the last move (as in chess),
    /// implementations are allowed to only return a win when the losing
    /// player is to move.
    fn game_result(&self) -> (result: Option<GameResult>)
        requires
            self.inv(),
        ensures
            result == self.result(),
    ;
}

/// Round trip: a legal move, played and then taken back, leaves the position
/// that it was played in, with the same player to move, the same legal moves
/// and the same result.
///
/// `played` and `rev` stand for what `do_move` leaves and returns when it is
/// called on `pos` with `mv`, `restored` for what `reverse_move` then leaves:
/// the premises on them are the promises of the two operations.
pub proof fn lemma_move_round_trip<P: Position>(
    pos: P,
    mv: P::Move,
    played: P,
    rev: P::ReverseMove,
    restored: P,
)
    requires
        pos.inv(),
        pos.legal_moves().contains(mv),
        played.inv(),
        played.same(&pos.after_move(mv)),
        played.can_reverse(rev),
        played.before_move(rev).same(&pos),
        restored.inv(),
        restored.same(&played.before_move(rev)),
    ensures
        restored.same(&pos),
        restored.side() == pos.side(),
        restored.legal_moves() == pos.legal_moves(),
        restored.result() == pos.result(),
{
    let back = played.before_move(rev);
    restored.law_same_transitive(&back, &pos);
    restored.law_same_observations(&pos);
}

/// Whether `line` is a run of legal moves from `pos`: its first move is legal
/// in `pos`, the next one in the position that the first leads to, and so on.
pub open spec fn is_legal_line<P: Position>(pos: P, line: Seq<P::Move>) -> bool
    decreases line.len(),
{
    if line.len() == 0 {
        true
    } else {
        pos.legal_moves().contains(line[0]) && is_legal_line(
            pos.after_move(line[0]),
            line.drop_first(),
        )
    }
}

/// The position that playing the moves of `line` one after another leads to
/// from `pos`.
pub open spec fn line_end<P: Position>(pos: P, line: Seq<P::Move>) -> P
    decreases line.len(),
{
    if line.len() == 0 {
        pos
    } else {
        line_end(pos.after_move(line[0]), line.drop_first())
    }
}

/// The position in which the move at `i` of a line is played: the start for
/// the first move, else what the move before it left.
pub open spec fn position_before<P>(start: P, played: Seq<P>, i: int) -> P {
    if i == 0 {
        start
    } else {
        played[i - 1]
    }
}

/// The position in which the token at `i` of a line is reversed when the
/// moves are taken back last first: what the last move left for the last
/// token, else what reversing the token after it left.
pub open spec fn position_reversed_from<P>(played: Seq<P>, restored: Seq<P>, i: int) -> P {
    if i == played.len() - 1 {
        played[i]
    } else {
        restored[i + 1]
    }
}

/// Whether `played` and `tokens` hold what `do_move` leaves and returns when
/// `moves` are played one after another from `start`, each move legal where
/// it is played.
pub open spec fn is_played_line<P: Position>(
    start: P,
    moves: Seq<P::Move>,
    played: Seq<P>,
    tokens: Seq<P::ReverseMove>,
) -> bool {
    &&& played.len() == moves.len()
    &&& tokens.len() == moves.len()
    &&& forall|i: int|
        0 <= i < moves.len() ==> {
            let before = position_before(start, played, i);
            &&& before.legal_moves().contains(#[trigger] moves[i])
            &&& played[i].inv()
            &&& played[i].same(&before.after_move(moves[i]))
            &&& played[i].can_reverse(tokens[i])
            &&& played[i].before_move(tokens[i]).same(&before)
        }
}

/// Whether `restored` holds what `reverse_move` leaves when `tokens` are
/// reversed last first, starting in the last of `played`: `restored[i]` is
/// what reversing `tokens[i]` leaves, wherever that call is allowed.
pub open spec fn is_reversed_line<P: Position>(
    played: Seq<P>,
    tokens: Seq<P::ReverseMove>,
    restored: Seq<P>,
) -> bool {
    &&& restored.len() == played.len()
    &&& tokens.len() == played.len()
    &&& forall|i: int|
        0 <= i < played.len() ==> {
            let from = position_reversed_from(played, restored, i);
            from.inv() && from.can_reverse(#[trigger] tokens[i]) ==> {
                &&& restored[i].inv()
                &&& restored[i].same(&from.before_move(tokens[i]))
            }
        }
}

/// Stack discipline: after a line of legal moves, the moves can be taken back
/// last first. Each `reverse_move` on the way is allowed, and leaves the
/// position in which the move that it reverses was played; the last one
/// leaves the position that the line started from.
pub proof fn lemma_moves_reverse_in_stack_order<P: Position>(
    start: P,
    moves: Seq<P::Move>,
    played: Seq<P>,
    tokens: Seq<P::ReverseMove>,
    restored: Seq<P>,
    i: int,
)
    requires
        start.inv(),
        is_played_line(start, moves, played, tokens),
        is_reversed_line(played, tokens, restored),
        0 <= i < moves.len(),
    ensures
        position_reversed_from(played, restored, i).inv(),
        position_reversed_from(played, restored, i).can_reverse(tokens[i]),
        restored[i].inv(),
        restored[i].same(&position_before(start, played, i)),
    decreases moves.len() - i,
{
    let from = position_reversed_from(played, restored, i);
    let before = position_before(start, played, i);
    let rev = tokens[i];
    assert(before.legal_moves().contains(moves[i]));
    if i == moves.len() - 1 {
        played[i].law_same_reflexive();
    } else {
        lemma_moves_reverse_in_stack_order(start, moves, played, tokens, restored, i + 1);
        from.law_same_symmetric(&played[i]);
    }
    played[i].law_same_before_move(&from, rev);
    let back = from.before_move(rev);
    let meant = played[i].before_move(rev);
    meant.law_same_symmetric(&back);
    restored[i].law_same_transitive(&back, &meant);
    restored[i].law_same_transitive(&meant, &before);
}

/// Determinism of the start: two positions that
/// `start_position_with_settings` gives for the same settings are the same
/// position.
pub proof fn lemma_start_is_deterministic<P: Position>(settings: P::Settings, first: P, second: P)
    requires
        first.same(&P::start(settings)),
        second.same(&P::start(settings)),
    ensures
        first.same(&second),
        first.side() == second.side(),
        first.legal_moves() == second.legal_moves(),
        first.result() == second.result(),
{
    let start = P::start(settings);
    second.law_same_symmetric(&start);
    first.law_same_transitive(&start, &second);
    first.law_same_observations(&second);
}

/// Determinism of the start without settings: two positions that
/// `start_position` gives are the same position, and the same as the one that
/// `start_position_with_settings` gives for what `Settings::default()`
/// returns.
///
/// `first` and `second` stand for what two calls of `start_position` return,
/// `settings` for what `Settings::default()` returns, and `with_settings` for
/// what `start_position_with_settings` returns on `settings`.
pub proof fn lemma_start_position_is_fixed<P: Position>(
    first: P,
    second: P,
    settings: P::Settings,
    with_settings: P,
)
    requires
        first.same(&P::start(P::default_settings())),
        second.same(&P::start(P::default_settings())),
        call_ensures(<P::Settings as Default>::default, (), settings),
        with_settings.same(&P::start(settings)),
    ensures
        first.same(&second),
        first.same(&with_settings),
        first.side() == second.side(),
        first.legal_moves() == second.legal_moves(),
        first.result() == second.result(),
{
    P::law_default_settings_are_fixed(settings);
    lemma_start_is_deterministic(P::default_settings(), first, second);
    lemma_start_is_deterministic(P::default_settings(), first, with_settings);
}

/// Determinism of move generation: what `generate_moves` appends on two calls
/// in one position is the same set of moves, whatever the vectors held before.
pub proof fn lemma_generation_is_repeatable<P: Position>(
    pos: P,
    before_first: Seq<P::Move>,
    after_first: Seq<P::Move>,
    before_second: Seq<P::Move>,
    after_second: Seq<P::Move>,
)
    requires
        appended(before_first, after_first).to_set() == pos.legal_moves(),
        appended(before_second, after_second).to_set() == pos.legal_moves(),
    ensures
        appended(before_first, after_first).to_set() == appended(
            before_second,
            after_second,
        ).to_set(),
        pos.legal_moves().finite(),
{
    vstd::seq_lib::seq_to_set_is_finite(appended(before_first, after_first));
}

/// Legality is membership: the answer of `move_is_legal` on a move tells
/// whether the move is among those that `generate_moves` appends in the same
/// position.
pub proof fn lemma_legality_is_membership<P: Position>(
    pos: P,
    mv: P::Move,
    legal: bool,
    before: Seq<P::Move>,
    after: Seq<P::Move>,
)
    requires
        legal == pos.legal_moves().contains(mv),
        appended(before, after).to_set() == pos.legal_moves(),
    ensures
        legal == appended(before, after).contains(mv),
{
}

} // verus!
