//! What the lights show, and for how long: the start-up display, the replay
//! of a sequence and the picture of a lost game.
//!
//! Each display is a list of steps. To play one, show each step's pattern,
//! wait for as long as the step says, and go on to the next.

use crate::actuators::{bright, dark, first_on, only, ActuatorArray};
use vstd::prelude::*;

verus! {

/// One picture on the lights and the time it stays, in milliseconds.
pub struct Step {
    pub pattern: Vec<bool>,
    pub hold_ms: u32,
}

impl View for Step {
    type V = (Seq<bool>, u32);

    open spec fn view(&self) -> (Seq<bool>, u32) {
        (self.pattern@, self.hold_ms)
    }
}

/// The pictures and waits that a list of steps amounts to.
pub open spec fn script(steps: Seq<Step>) -> Seq<(Seq<bool>, u32)> {
    Seq::new(steps.len(), |k: int| steps[k]@)
}

/// One light at a time, from the first output to the last.
pub open spec fn sweep_up(count: nat, frame_ms: u32) -> Seq<(Seq<bool>, u32)> {
    Seq::new(count, |k: int| (only(count, k), frame_ms))
}

/// One light at a time, from the last output but one back to the first.
pub open spec fn sweep_down(count: nat, frame_ms: u32) -> Seq<(Seq<bool>, u32)> {
    Seq::new((count - 1) as nat, |k: int| (only(count, count - 2 - k), frame_ms))
}

/// The whole row off, on, off and on, one frame each, and then off for good.
pub open spec fn flashes(count: nat, frame_ms: u32) -> Seq<(Seq<bool>, u32)> {
    seq![
        (dark(count), frame_ms),
        (bright(count), frame_ms),
        (dark(count), frame_ms),
        (bright(count), frame_ms),
        (dark(count), 0u32),
    ]
}

/// The start-up display: a sweep up, a sweep back and two flashes.
pub open spec fn startup_script(count: nat, frame_ms: u32) -> Seq<(Seq<bool>, u32)> {
    sweep_up(count, frame_ms) + sweep_down(count, frame_ms) + flashes(count, frame_ms)
}

/// The replay of `sequence`: the row dark, then each entry's light on for
/// one wait and the row dark for one wait.
pub open spec fn playback_script(sequence: Seq<usize>, count: nat, speed_ms: u32) -> Seq<
    (Seq<bool>, u32),
> {
    Seq::new(
        2 * sequence.len() + 1,
        |k: int|
            if k % 2 == 1 {
                (only(count, sequence[(k - 1) / 2] as int), speed_ms)
            } else {
                (dark(count), speed_ms)
            },
    )
}

/// How many lights show a loss after `round` completed rounds: the share
/// `round / max_len` of the row, rounded down, and never more than the row.
pub open spec fn lit_on_loss(round: nat, max_len: nat, count: nat) -> nat {
    let share = (round * count) / max_len;
    if share > count {
        count
    } else {
        share
    }
}

/// Builds the start-up display for a row of `actuators` lights.
pub fn startup_animation(actuators: usize, frame_ms: u32) -> (steps: Vec<Step>)
    requires
        actuators > 0,
    ensures
        script(steps@) == startup_script(actuators as nat, frame_ms),
{
    let ghost count = actuators as nat;
    let mut leds = ActuatorArray::new(actuators);
    let mut steps: Vec<Step> = Vec::new();
    let mut last: usize = 0;
    let mut i: usize = 0;
    while i < actuators
        invariant
            i <= actuators,
            count == actuators,
            leds@.len() == count,
            last < actuators,
            leds@ == (if i == 0 { dark(count) } else { only(count, last as int) }),
            steps@.len() == i,
            forall|k: int| 0 <= k < i ==> (#[trigger] steps@[k])@ == (only(count, k), frame_ms),
        decreases actuators - i,
    {
        leds.clear(last);
        leds.set(i);
        last = i;
        steps.push(Step { pattern: leds.pattern(), hold_ms: frame_ms });
        i += 1;
    }
    let mut i: usize = actuators - 1;
    while i > 0
        invariant
            i < actuators,
            count == actuators,
            last < actuators,
            leds@ == only(count, last as int),
            steps@.len() == 2 * count - 1 - i,
            forall|k: int| 0 <= k < count ==> (#[trigger] steps@[k])@ == (only(count, k), frame_ms),
            forall|k: int|
                count <= k < 2 * count - 1 - i ==> (#[trigger] steps@[k])@ == (
                    only(count, 2 * count - 2 - k),
                    frame_ms,
                ),
        decreases i,
    {
        i -= 1;
        leds.clear(last);
        leds.set(i);
        last = i;
        steps.push(Step { pattern: leds.pattern(), hold_ms: frame_ms });
    }
    leds.all_off();
    steps.push(Step { pattern: leds.pattern(), hold_ms: frame_ms });
    leds.all_on();
    steps.push(Step { pattern: leds.pattern(), hold_ms: frame_ms });
    leds.all_off();
    steps.push(Step { pattern: leds.pattern(), hold_ms: frame_ms });
    leds.all_on();
    steps.push(Step { pattern: leds.pattern(), hold_ms: frame_ms });
    leds.all_off();
    steps.push(Step { pattern: leds.pattern(), hold_ms: 0 });
    steps
}

/// Builds the replay of `sequence` on a row of `actuators` lights.
pub fn playback(sequence: &[usize], actuators: usize, speed_ms: u32) -> (steps: Vec<Step>)
    requires
        forall|j: int| 0 <= j < sequence@.len() ==> sequence@[j] < actuators,
    ensures
        script(steps@) == playback_script(sequence@, actuators as nat, speed_ms),
{
    let ghost count = actuators as nat;
    let mut leds = ActuatorArray::new(actuators);
    let mut steps: Vec<Step> = Vec::new();
    leds.all_off();
    steps.push(Step { pattern: leds.pattern(), hold_ms: speed_ms });
    let mut j: usize = 0;
    while j < sequence.len()
        invariant
            j <= sequence@.len(),
            count == actuators,
            leds@ == dark(count),
            forall|k: int| 0 <= k < sequence@.len() ==> sequence@[k] < actuators,
            steps@.len() == 2 * j + 1,
            forall|k: int|
                0 <= k < 2 * j + 1 ==> (#[trigger] steps@[k])@ == playback_script(
                    sequence@,
                    count,
                    speed_ms,
                )[k],
        decreases sequence@.len() - j,
    {
        let pos: usize = sequence[j];
        leds.set(pos);
        steps.push(Step { pattern: leds.pattern(), hold_ms: speed_ms });
        leds.clear(pos);
        steps.push(Step { pattern: leds.pattern(), hold_ms: speed_ms });
        j += 1;
    }
    steps
}

/// Counts the lights that show a loss after `round` completed rounds.
pub fn loss_count(round: usize, max_len: usize, actuators: usize) -> (lit: usize)
    requires
        max_len > 0,
    ensures
        lit == lit_on_loss(round as nat, max_len as nat, actuators as nat),
        lit <= actuators,
{
    assert(round * actuators <= 0xffff_ffff_ffff_ffff * 0xffff_ffff_ffff_ffff) by (nonlinear_arith)
        requires
            round <= 0xffff_ffff_ffff_ffff,
            actuators <= 0xffff_ffff_ffff_ffff,
    ;
    let share: u128 = (round as u128 * actuators as u128) / (max_len as u128);
    if share > actuators as u128 {
        actuators
    } else {
        share as usize
    }
}

/// Builds the picture of a lost game: the first lights on, as many as
/// [`lit_on_loss`] says, and the rest off.
pub fn loss_pattern(round: usize, max_len: usize, actuators: usize) -> (pattern: Vec<bool>)
    requires
        max_len > 0,
    ensures
        pattern@ == first_on(
            actuators as nat,
            lit_on_loss(round as nat, max_len as nat, actuators as nat) as int,
        ),
{
    let mut leds = ActuatorArray::new(actuators);
    leds.all_off();
    leds.set_range_on(loss_count(round, max_len, actuators));
    leds.pattern()
}

} // verus!
