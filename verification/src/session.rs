//! Whole games: what holds of every run of moves, whatever the player does
//! and whatever the generator yields.

use crate::actuators::{first_on, lemma_first_on_lit, lit};
use crate::animation::lit_on_loss;
use crate::config::IDLE_MS;
use crate::engine::{DirectiveView, GameState, Phase};
use crate::generator::{
    drawn, drawn_index, drawn_state, lemma_drawn_extends, lemma_drawn_index_in_range,
    small_rng_seeded, state_after,
};
use vstd::prelude::*;

verus! {

/// One thing that happens in a session.
pub enum Move {
    /// The engine advances: it starts, or draws an entry and shows.
    Advance,
    /// The player makes a choice.
    Press(usize),
}

/// A game together with the generator that feeds it.
pub struct Session {
    pub game: GameState,
    pub rng: Seq<u8>,
}

impl Session {
    /// A session before its first move, with a generator fresh from `seed`.
    pub open spec fn opening(actuators: nat, max_len: nat, seed: Seq<u8>) -> Session {
        Session { game: GameState::initial(actuators, max_len), rng: small_rng_seeded(seed) }
    }

    /// The session after one move.
    pub open spec fn step(self, m: Move) -> Session {
        match m {
            Move::Advance => Session {
                game: self.game.advance(drawn_index(self.rng, self.game.actuators)),
                rng: if self.game.phase == Phase::Showing {
                    drawn_state(self.rng)
                } else {
                    self.rng
                },
            },
            Move::Press(selection) => Session { game: self.game.press(selection), rng: self.rng },
        }
    }

    /// The session after a run of moves.
    pub open spec fn run(self, moves: Seq<Move>) -> Session
        decreases moves.len(),
    {
        if moves.len() == 0 {
            self
        } else {
            self.run(moves.drop_last()).step(moves.last())
        }
    }
}

/// The game after `rounds` rounds in which entry `k` is `draws[k]` and the
/// player repeats every sequence without a fault.
pub open spec fn faultless_game(
    actuators: nat,
    max_len: nat,
    draws: Seq<usize>,
    rounds: nat,
) -> GameState
    decreases rounds,
{
    if rounds == 0 {
        GameState::initial(actuators, max_len).start()
    } else {
        let shown = faultless_game(actuators, max_len, draws, (rounds - 1) as nat).extend(
            draws[rounds - 1],
        );
        shown.presses(shown.sequence)
    }
}

/// Every move keeps a game well formed and keeps what was generated: the
/// sequence only grows, at its end, and never beyond the length that wins.
pub proof fn lemma_step_keeps_sequence(s: Session, m: Move)
    requires
        s.game.wf(),
    ensures
        s.step(m).game.wf(),
        s.step(m).game.actuators == s.game.actuators,
        s.step(m).game.max_len == s.game.max_len,
        s.game.sequence.is_prefix_of(s.step(m).game.sequence),
        s.step(m).game.sequence.len() <= s.game.max_len,
        s.game.round <= s.step(m).game.round,
{
    lemma_drawn_index_in_range(s.rng, s.game.actuators);
}

/// What holds of one move holds of every run of moves: the game stays well
/// formed, the sequence only grows, and never beyond the length that wins.
pub proof fn lemma_run_keeps_sequence(s: Session, moves: Seq<Move>)
    requires
        s.game.wf(),
    ensures
        s.run(moves).game.wf(),
        s.run(moves).game.actuators == s.game.actuators,
        s.run(moves).game.max_len == s.game.max_len,
        s.game.sequence.is_prefix_of(s.run(moves).game.sequence),
        s.run(moves).game.sequence.len() <= s.game.max_len,
        s.game.round <= s.run(moves).game.round,
    decreases moves.len(),
{
    if moves.len() > 0 {
        lemma_run_keeps_sequence(s, moves.drop_last());
        lemma_step_keeps_sequence(s.run(moves.drop_last()), moves.last());
    }
}

/// A lost or won game is final: no move changes it, and none draws from the
/// generator.
pub proof fn lemma_ended_game_stays(s: Session, moves: Seq<Move>)
    requires
        s.game.phase == Phase::Lost || s.game.phase == Phase::Won,
    ensures
        s.run(moves) == s,
    decreases moves.len(),
{
    if moves.len() > 0 {
        lemma_ended_game_stays(s, moves.drop_last());
    }
}

/// The sequence of a session is the generator's doing alone: whatever the
/// moves, its entries are the first indices that a generator fresh from the
/// seed yields, as many as there are entries, and the generator has made
/// that many draws.
pub proof fn lemma_sequence_follows_seed(
    actuators: nat,
    max_len: nat,
    seed: Seq<u8>,
    moves: Seq<Move>,
)
    ensures
        ({
            let end = Session::opening(actuators, max_len, seed).run(moves);
            &&& end.game.sequence == drawn(
                small_rng_seeded(seed),
                actuators,
                end.game.sequence.len(),
            )
            &&& end.rng == state_after(small_rng_seeded(seed), end.game.sequence.len())
            &&& end.game.actuators == actuators
        }),
    decreases moves.len(),
{
    if moves.len() > 0 {
        lemma_sequence_follows_seed(actuators, max_len, seed, moves.drop_last());
    }
}

/// The same seed gives the same sequence: of two sessions that start from
/// equal seed bytes, whatever their players do, the shorter sequence is the
/// start of the longer one. Sessions that have generated equally many
/// entries have generated the same entries.
pub proof fn lemma_same_seed_same_sequence(
    actuators: nat,
    max_len: nat,
    seed: Seq<u8>,
    first: Seq<Move>,
    second: Seq<Move>,
)
    ensures
        ({
            let a = Session::opening(actuators, max_len, seed).run(first).game.sequence;
            let b = Session::opening(actuators, max_len, seed).run(second).game.sequence;
            a.len() <= b.len() ==> a == b.take(a.len() as int)
        }),
{
    lemma_sequence_follows_seed(actuators, max_len, seed, first);
    lemma_sequence_follows_seed(actuators, max_len, seed, second);
    let a = Session::opening(actuators, max_len, seed).run(first).game.sequence;
    let b = Session::opening(actuators, max_len, seed).run(second).game.sequence;
    if a.len() <= b.len() {
        lemma_drawn_extends(small_rng_seeded(seed), actuators, a.len(), b.len());
    }
}

/// While the player repeats the sequence entry by entry, the game listens
/// on: after `count` right choices, short of the last, nothing has changed
/// but the number of entries matched.
pub proof fn lemma_right_choices_listen_on(g: GameState, count: nat)
    requires
        g.wf(),
        g.phase == Phase::Listening,
        g.cursor == 0,
        count <= g.round,
    ensures
        g.presses(g.sequence.take(count as int)) == (GameState { cursor: count, ..g }),
    decreases count,
{
    if count > 0 {
        let before = (count - 1) as nat;
        lemma_right_choices_listen_on(g, before);
        assert(g.sequence.take(count as int).drop_last() =~= g.sequence.take(before as int));
    }
}

/// A round that the player repeats in full is completed without a loss on
/// the way, and wins the game exactly when it is the last round.
pub proof fn lemma_faultless_round(g: GameState)
    requires
        g.wf(),
        g.phase == Phase::Listening,
        g.cursor == 0,
    ensures
        forall|count: nat| count <= g.round ==> (#[trigger] g.presses(
            g.sequence.take(count as int),
        )).phase == Phase::Listening,
        g.presses(g.sequence) == (GameState {
            round: g.round + 1,
            cursor: 0,
            phase: if g.round + 1 == g.max_len {
                Phase::Won
            } else {
                Phase::Showing
            },
            ..g
        }),
{
    assert forall|count: nat| count <= g.round implies (#[trigger] g.presses(
        g.sequence.take(count as int),
    )).phase == Phase::Listening by {
        lemma_right_choices_listen_on(g, count);
    }
    lemma_right_choices_listen_on(g, g.round);
}

/// A game that is played without a fault is won exactly when its last
/// round is completed, and is never lost: after `rounds` rounds it has those
/// rounds completed and their entries generated, and is showing the next
/// round unless there is none.
pub proof fn lemma_faultless_game(actuators: nat, max_len: nat, draws: Seq<usize>, rounds: nat)
    requires
        actuators > 0,
        rounds <= max_len,
        rounds <= draws.len(),
        forall|k: int| 0 <= k < draws.len() ==> draws[k] < actuators,
    ensures
        faultless_game(actuators, max_len, draws, rounds) == (GameState {
            actuators,
            max_len,
            sequence: draws.take(rounds as int),
            round: rounds,
            cursor: 0,
            phase: if rounds == max_len {
                Phase::Won
            } else {
                Phase::Showing
            },
        }),
        faultless_game(actuators, max_len, draws, rounds).wf(),
    decreases rounds,
{
    if rounds == 0 {
        assert(draws.take(0) =~= Seq::<usize>::empty());
    } else {
        let before = (rounds - 1) as nat;
        lemma_faultless_game(actuators, max_len, draws, before);
        let shown = faultless_game(actuators, max_len, draws, before).extend(draws[before as int]);
        assert(shown.sequence =~= draws.take(rounds as int));
        lemma_faultless_round(shown);
    }
}

/// A wrong choice loses the game on the spot. The rounds completed stay as
/// they were, and so does everything else but the phase; what the player
/// chooses afterwards changes nothing.
pub proof fn lemma_wrong_choice_loses(g: GameState, selection: usize, later: Seq<usize>)
    requires
        g.wf(),
        g.phase == Phase::Listening,
        selection != g.sequence[g.cursor as int],
    ensures
        g.press(selection) == (GameState { phase: Phase::Lost, ..g }),
        g.press(selection).presses(later) == g.press(selection),
    decreases later.len(),
{
    if later.len() > 0 {
        lemma_wrong_choice_loses(g, selection, later.drop_last());
    }
}

/// With fewer rounds completed than the game has, the share of the row
/// that shows a loss needs no cutting down: it is `round * count / max_len`,
/// rounded down, and less than the row.
pub proof fn lemma_loss_lights_share(round: nat, max_len: nat, count: nat)
    requires
        round < max_len,
    ensures
        lit_on_loss(round, max_len, count) == (round * count) / max_len,
        lit_on_loss(round, max_len, count) <= count,
        count > 0 ==> lit_on_loss(round, max_len, count) < count,
{
    assert((round * count) / max_len <= count && (count > 0 ==> (round * count) / max_len < count))
        by (nonlinear_arith)
        requires
            round < max_len,
    ;
}

/// The lights of a lost game show how far the player came. With `round` of
/// `max_len` rounds completed, the first `round * actuators / max_len`
/// lights are on, rounded down, and no others: that many lights in all, and
/// never the whole row.
pub proof fn lemma_lost_game_lights(g: GameState, index: usize)
    requires
        g.wf(),
        g.phase == Phase::Lost,
    ensures
        g.directive(index) == (DirectiveView::Halt {
            pattern: first_on(g.actuators, ((g.round * g.actuators) / g.max_len) as int),
            idle_ms: IDLE_MS,
        }),
        lit(first_on(g.actuators, ((g.round * g.actuators) / g.max_len) as int)) == (g.round
            * g.actuators) / g.max_len,
        (g.round * g.actuators) / g.max_len < g.actuators,
{
    lemma_loss_lights_share(g.round, g.max_len, g.actuators);
    lemma_first_on_lit(g.actuators, (g.round * g.actuators) / g.max_len);
}

} // verus!
