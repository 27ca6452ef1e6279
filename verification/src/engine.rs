//! The game itself: rounds, the growing sequence, and how a game ends.
//!
//! A game starts with the start-up display and then goes round by round.
//! In each round the engine first shows: it adds one entry to the sequence
//! and replays all of it. Then it listens: the player repeats the sequence,
//! one choice per entry. The first wrong choice loses the game at once. A
//! round that is repeated in full counts as completed, and the game is won
//! when as many rounds are completed as the sequence may hold entries.
//! A lost or won game stays as it is until the machine is reset.

use crate::actuators::first_on;
use crate::animation::{
    lit_on_loss, loss_pattern, playback, playback_script, script, startup_animation,
    startup_script, Step,
};
use crate::config::{IDLE_MS, PLAYBACK_MS, SETTLE_MS, STARTUP_FRAME_MS};
use crate::generator::{drawn_index, drawn_state, SequenceGenerator};
use vstd::prelude::*;

verus! {

/// Where a game stands.
#[derive(Clone, Copy, Debug, PartialEq, Eq, Structural)]
pub enum Phase {
    /// Before the first round: the start-up display is due.
    Startup,
    /// The next entry is due, and the replay of the sequence.
    Showing,
    /// The player is repeating the sequence.
    Listening,
    /// The player chose wrongly.
    Lost,
    /// The player repeated a sequence of the full length.
    Won,
}

/// How a game has ended, if it has.
#[derive(Clone, Copy, Debug, PartialEq, Eq, Structural)]
pub enum GameOutcome {
    InProgress,
    Lost,
    Won,
}

/// A game as contracts see it.
pub struct GameState {
    /// The number of lights.
    pub actuators: nat,
    /// The length of the sequence that wins the game.
    pub max_len: nat,
    /// The entries generated so far.
    pub sequence: Seq<usize>,
    /// The number of rounds completed.
    pub round: nat,
    /// The number of entries matched in the round that is being listened to.
    pub cursor: nat,
    /// Where the game stands.
    pub phase: Phase,
}

impl GameState {
    /// What holds of every game: each entry names a light, no more rounds
    /// are completed than the game has, and the sequence is as long as the
    /// phase says. While the engine shows, and once the game is won, there
    /// is one entry per completed round; while it listens, and once the
    /// game is lost, there is one more, for the round in hand.
    pub open spec fn wf(self) -> bool {
        &&& self.actuators > 0
        &&& forall|j: int| 0 <= j < self.sequence.len() ==> self.sequence[j] < self.actuators
        &&& match self.phase {
            Phase::Startup => self.round == 0 && self.sequence.len() == 0 && self.cursor == 0,
            Phase::Showing => self.round < self.max_len && self.sequence.len() == self.round
                && self.cursor == 0,
            Phase::Listening | Phase::Lost => self.round < self.max_len && self.sequence.len()
                == self.round + 1 && self.cursor <= self.round,
            Phase::Won => self.round == self.max_len && self.sequence.len() == self.round
                && self.cursor == 0,
        }
    }

    /// A game before its first round.
    pub open spec fn initial(actuators: nat, max_len: nat) -> GameState {
        GameState {
            actuators,
            max_len,
            sequence: Seq::empty(),
            round: 0,
            cursor: 0,
            phase: Phase::Startup,
        }
    }

    /// How the game has ended, if it has.
    pub open spec fn outcome(self) -> GameOutcome {
        match self.phase {
            Phase::Lost => GameOutcome::Lost,
            Phase::Won => GameOutcome::Won,
            _ => GameOutcome::InProgress,
        }
    }

    /// The game after the start-up display: the first round begins, unless
    /// the game has no rounds, and is won with none played.
    pub open spec fn start(self) -> GameState {
        if self.phase != Phase::Startup {
            self
        } else if self.max_len == 0 {
            GameState { phase: Phase::Won, ..self }
        } else {
            GameState { phase: Phase::Showing, ..self }
        }
    }

    /// The game after `index` joins the sequence. Only a game that is
    /// showing takes an entry.
    pub open spec fn extend(self, index: usize) -> GameState {
        if self.phase != Phase::Showing {
            self
        } else {
            GameState { sequence: self.sequence.push(index), phase: Phase::Listening, ..self }
        }
    }

    /// The game after the player chooses `selection`. Only a game that is
    /// listening takes a choice. A choice that differs from the entry in
    /// turn loses the game, with the rounds completed left as they are. The
    /// choice that matches the last entry completes the round.
    pub open spec fn press(self, selection: usize) -> GameState {
        if self.phase != Phase::Listening {
            self
        } else if selection != self.sequence[self.cursor as int] {
            GameState { phase: Phase::Lost, ..self }
        } else if self.cursor < self.round {
            GameState { cursor: self.cursor + 1, ..self }
        } else if self.round + 1 == self.max_len {
            GameState { round: self.round + 1, cursor: 0, phase: Phase::Won, ..self }
        } else {
            GameState { round: self.round + 1, cursor: 0, phase: Phase::Showing, ..self }
        }
    }

    /// The game after the player makes these choices, one after another.
    pub open spec fn presses(self, selections: Seq<usize>) -> GameState
        decreases selections.len(),
    {
        if selections.len() == 0 {
            self
        } else {
            self.presses(selections.drop_last()).press(selections.last())
        }
    }

    /// The game after the engine has done what it can without the player:
    /// the start, or one entry more, which is `index`.
    pub open spec fn advance(self, index: usize) -> GameState {
        match self.phase {
            Phase::Startup => self.start(),
            Phase::Showing => self.extend(index),
            _ => self,
        }
    }

    /// What the engine asks of its caller when it advances, where the entry
    /// that a showing game would take is `index`.
    pub open spec fn directive(self, index: usize) -> DirectiveView {
        match self.phase {
            Phase::Startup => DirectiveView::Play(startup_script(self.actuators, STARTUP_FRAME_MS)),
            Phase::Showing => DirectiveView::Play(
                playback_script(self.sequence.push(index), self.actuators, PLAYBACK_MS),
            ),
            Phase::Listening => DirectiveView::Listen { settle_ms: SETTLE_MS },
            Phase::Lost => DirectiveView::Halt {
                pattern: first_on(
                    self.actuators,
                    lit_on_loss(self.round, self.max_len, self.actuators) as int,
                ),
                idle_ms: IDLE_MS,
            },
            Phase::Won => DirectiveView::Celebrate(
                startup_script(self.actuators, STARTUP_FRAME_MS),
            ),
        }
    }
}

/// What the engine asks of its caller.
pub enum Directive {
    /// Show these steps, then let the engine advance again.
    Play(Vec<Step>),
    /// Wait for the player's choice, let `settle_ms` pass, hand the choice
    /// to the engine, then let it advance again.
    Listen { settle_ms: u32 },
    /// The game is lost. Show `pattern` and do nothing more, in waits of
    /// `idle_ms`.
    Halt { pattern: Vec<bool>, idle_ms: u32 },
    /// The game is won. Show these steps over and over.
    Celebrate(Vec<Step>),
}

/// A directive as contracts see it.
pub enum DirectiveView {
    Play(Seq<(Seq<bool>, u32)>),
    Listen { settle_ms: u32 },
    Halt { pattern: Seq<bool>, idle_ms: u32 },
    Celebrate(Seq<(Seq<bool>, u32)>),
}

impl View for Directive {
    type V = DirectiveView;

    open spec fn view(&self) -> DirectiveView {
        match *self {
            Directive::Play(steps) => DirectiveView::Play(script(steps@)),
            Directive::Listen { settle_ms } => DirectiveView::Listen { settle_ms },
            Directive::Halt { pattern, idle_ms } => DirectiveView::Halt {
                pattern: pattern@,
                idle_ms,
            },
            Directive::Celebrate(steps) => DirectiveView::Celebrate(script(steps@)),
        }
    }
}

/// One game, from the start-up display to its end.
pub struct GameEngine {
    actuators: usize,
    max_len: usize,
    sequence: Vec<usize>,
    round: usize,
    cursor: usize,
    phase: Phase,
}

impl View for GameEngine {
    type V = GameState;

    closed spec fn view(&self) -> GameState {
        GameState {
            actuators: self.actuators as nat,
            max_len: self.max_len as nat,
            sequence: self.sequence@,
            round: self.round as nat,
            cursor: self.cursor as nat,
            phase: self.phase,
        }
    }
}

impl GameEngine {
    /// A game for `actuators` lights that is won after `max_len` rounds.
    pub fn new(actuators: usize, max_len: usize) -> (engine: Self)
        requires
            actuators > 0,
        ensures
            engine@ == GameState::initial(actuators as nat, max_len as nat),
            engine@.wf(),
    {
        GameEngine {
            actuators,
            max_len,
            sequence: Vec::new(),
            round: 0,
            cursor: 0,
            phase: Phase::Startup,
        }
    }

    /// Ends the start-up. A game that has started stays as it is.
    pub fn start(&mut self)
        requires
            old(self)@.wf(),
        ensures
            final(self)@ == old(self)@.start(),
            final(self)@.wf(),
    {
        match self.phase {
            Phase::Startup => {
                if self.max_len == 0 {
                    self.phase = Phase::Won;
                } else {
                    self.phase = Phase::Showing;
                }
            },
            _ => {},
        }
    }

    /// Adds `index` to the sequence of a game that is showing, which then
    /// listens. Any other game stays as it is.
    pub fn extend(&mut self, index: usize)
        requires
            old(self)@.wf(),
            index < old(self)@.actuators,
        ensures
            final(self)@ == old(self)@.extend(index),
            final(self)@.wf(),
    {
        match self.phase {
            Phase::Showing => {
                self.sequence.push(index);
                self.phase = Phase::Listening;
            },
            _ => {},
        }
    }

    /// Takes the player's choice in a game that is listening, and says how
    /// the game stands after it. Any other game stays as it is.
    pub fn press(&mut self, selection: usize) -> (outcome: GameOutcome)
        requires
            old(self)@.wf(),
        ensures
            final(self)@ == old(self)@.press(selection),
            final(self)@.wf(),
            outcome == final(self)@.outcome(),
    {
        match self.phase {
            Phase::Listening => {
                if selection != self.sequence[self.cursor] {
                    self.phase = Phase::Lost;
                } else if self.cursor < self.round {
                    self.cursor += 1;
                } else {
                    self.round += 1;
                    self.cursor = 0;
                    if self.round == self.max_len {
                        self.phase = Phase::Won;
                    } else {
                        self.phase = Phase::Showing;
                    }
                }
            },
            _ => {},
        }
        self.outcome()
    }

    /// The replay of the sequence as it stands.
    pub fn replay(&self) -> (steps: Vec<Step>)
        requires
            self@.wf(),
        ensures
            script(steps@) == playback_script(self@.sequence, self@.actuators, PLAYBACK_MS),
    {
        playback(self.sequence.as_slice(), self.actuators, PLAYBACK_MS)
    }

    /// Does what the engine can do without the player, and says what the
    /// caller is to do next. A game that is showing draws its next entry
    /// from `generator`; no other game touches the generator.
    pub fn advance(&mut self, generator: &mut SequenceGenerator) -> (directive: Directive)
        requires
            old(self)@.wf(),
        ensures
            final(self)@ == old(self)@.advance(
                drawn_index(old(generator)@, old(self)@.actuators),
            ),
            final(self)@.wf(),
            directive@ == old(self)@.directive(
                drawn_index(old(generator)@, old(self)@.actuators),
            ),
            final(generator)@ == (if old(self)@.phase == Phase::Showing {
                drawn_state(old(generator)@)
            } else {
                old(generator)@
            }),
    {
        match self.phase {
            Phase::Startup => {
                self.start();
                Directive::Play(startup_animation(self.actuators, STARTUP_FRAME_MS))
            },
            Phase::Showing => {
                let index: usize = generator.next_index(self.actuators);
                self.extend(index);
                Directive::Play(self.replay())
            },
            Phase::Listening => Directive::Listen { settle_ms: SETTLE_MS },
            Phase::Lost => Directive::Halt {
                pattern: loss_pattern(self.round, self.max_len, self.actuators),
                idle_ms: IDLE_MS,
            },
            Phase::Won => Directive::Celebrate(startup_animation(self.actuators, STARTUP_FRAME_MS)),
        }
    }

    /// Where the game stands.
    pub fn phase(&self) -> (phase: Phase)
        ensures
            phase == self@.phase,
    {
        self.phase
    }

    /// How the game has ended, if it has.
    pub fn outcome(&self) -> (outcome: GameOutcome)
        ensures
            outcome == self@.outcome(),
    {
        match self.phase {
            Phase::Lost => GameOutcome::Lost,
            Phase::Won => GameOutcome::Won,
            _ => GameOutcome::InProgress,
        }
    }

    /// The number of rounds completed.
    pub fn round(&self) -> (round: usize)
        ensures
            round == self@.round,
    {
        self.round
    }

    /// The number of entries matched in the round in hand.
    pub fn cursor(&self) -> (cursor: usize)
        ensures
            cursor == self@.cursor,
    {
        self.cursor
    }

    /// The entries generated so far.
    pub fn sequence(&self) -> (entries: &[usize])
        ensures
            entries@ == self@.sequence,
    {
        self.sequence.as_slice()
    }

    /// The number of lights.
    pub fn actuators(&self) -> (count: usize)
        ensures
            count == self@.actuators,
    {
        self.actuators
    }

    /// The length of the sequence that wins the game.
    pub fn max_len(&self) -> (length: usize)
        ensures
            length == self@.max_len,
    {
        self.max_len
    }
}

} // verus!
