//! The buttons: how one press is told from a row of polled inputs.
//!
//! The inputs are read one at a time, lowest position first, round and round
//! until one is found active. That one is the player's choice. Its light
//! stays on for as long as the input stays active, and the choice is made
//! once the input is released. Nothing filters the readings: a press counts
//! by its level alone, so the caller lets a short settle time pass before it
//! asks for the next choice.
//!
//! Reading an input is the caller's part. A [`SelectionScan`] says which
//! input to read next and what each reading means.

use vstd::prelude::*;

verus! {

/// What a reading means for the caller.
#[derive(Clone, Copy, Debug, PartialEq, Eq, Structural)]
pub enum ScanAction {
    /// The input is idle and nothing is chosen yet: read the next input.
    Advance,
    /// The input at this position is active: turn its light on and read the
    /// same input again.
    Hold(usize),
    /// The input at this position was released: turn its light off. It is
    /// the player's choice.
    Selected(usize),
}

/// A scan as contracts see it.
pub struct ScanState {
    /// The number of inputs.
    pub sensors: nat,
    /// The position of the input to read next.
    pub cursor: nat,
    /// Whether that input has been seen active.
    pub held: bool,
}

impl ScanState {
    /// The input to read next exists.
    pub open spec fn wf(self) -> bool {
        self.cursor < self.sensors
    }

    /// A scan that is about to read the first input.
    pub open spec fn fresh(sensors: nat) -> ScanState {
        ScanState { sensors, cursor: 0, held: false }
    }

    /// What a reading of the current input means.
    pub open spec fn action(self, active: bool) -> ScanAction {
        if active {
            ScanAction::Hold(self.cursor as usize)
        } else if self.held {
            ScanAction::Selected(self.cursor as usize)
        } else {
            ScanAction::Advance
        }
    }

    /// The scan after a reading of the current input. An active input is
    /// read again; a released one ends the scan, which starts afresh; an
    /// idle one passes the turn to its neighbour, and the last to the first.
    pub open spec fn observe(self, active: bool) -> ScanState {
        if active {
            ScanState { held: true, ..self }
        } else if self.held {
            ScanState::fresh(self.sensors)
        } else {
            ScanState { cursor: (self.cursor + 1) % self.sensors, ..self }
        }
    }

    /// The scan after a run of readings, each of the input whose turn it was.
    pub open spec fn after(self, readings: Seq<bool>) -> ScanState
        decreases readings.len(),
    {
        if readings.len() == 0 {
            self
        } else {
            self.after(readings.drop_last()).observe(readings.last())
        }
    }
}

/// The scan of a row of inputs for one press.
pub struct SelectionScan {
    sensors: usize,
    cursor: usize,
    held: bool,
}

impl View for SelectionScan {
    type V = ScanState;

    closed spec fn view(&self) -> ScanState {
        ScanState { sensors: self.sensors as nat, cursor: self.cursor as nat, held: self.held }
    }
}

impl SelectionScan {
    /// A scan of `sensors` inputs that is about to read the first. The
    /// caller turns all lights off before the first reading.
    pub fn new(sensors: usize) -> (scan: Self)
        requires
            sensors > 0,
        ensures
            scan@ == ScanState::fresh(sensors as nat),
            scan@.wf(),
    {
        SelectionScan { sensors, cursor: 0, held: false }
    }

    /// The position of the input to read next.
    pub fn sensor(&self) -> (index: usize)
        ensures
            index == self@.cursor,
    {
        self.cursor
    }

    /// Takes a reading of the input whose turn it is.
    pub fn observe(&mut self, active: bool) -> (action: ScanAction)
        requires
            old(self)@.wf(),
        ensures
            action == old(self)@.action(active),
            final(self)@ == old(self)@.observe(active),
            final(self)@.wf(),
    {
        if active {
            self.held = true;
            ScanAction::Hold(self.cursor)
        } else if self.held {
            let chosen: usize = self.cursor;
            self.cursor = 0;
            self.held = false;
            ScanAction::Selected(chosen)
        } else {
            let next: usize = self.cursor + 1;
            assert(next % self.sensors == (if next == self.sensors { 0 } else { next as int }))
                by (nonlinear_arith)
                requires
                    0 < next <= self.sensors,
            ;
            self.cursor = if next == self.sensors {
                0
            } else {
                next
            };
            ScanAction::Advance
        }
    }
}

/// Readings of a scan in which inputs are idle `idle` times, and then one is
/// active `active` times.
pub open spec fn press_readings(idle: nat, active: nat) -> Seq<bool> {
    Seq::new(idle + active, |k: int| k >= idle)
}

/// Idle readings pass the turn along the row, round and round.
pub proof fn lemma_idle_readings_cycle(sensors: nat, idle: nat)
    requires
        sensors > 0,
    ensures
        ScanState::fresh(sensors).after(press_readings(idle, 0)) == (ScanState {
            sensors,
            cursor: idle % sensors,
            held: false,
        }),
    decreases idle,
{
    let start = ScanState::fresh(sensors);
    if idle > 0 {
        let before = (idle - 1) as nat;
        lemma_idle_readings_cycle(sensors, before);
        assert(press_readings(idle, 0).drop_last() =~= press_readings(before, 0));
        assert((before % sensors + 1) % sensors == idle % sensors) by (nonlinear_arith)
            requires
                sensors > 0,
                idle == before + 1,
        ;
    } else {
        assert(0nat % sensors == 0) by (nonlinear_arith)
            requires
                sensors > 0,
        ;
    }
}

/// The first input found active wins: after `idle` idle readings, the input
/// whose turn it is when a reading comes back active is held for as long as
/// it stays active, and chosen when it is released.
pub proof fn lemma_first_active_wins(sensors: nat, idle: nat, active: nat)
    requires
        sensors > 0,
        active > 0,
    ensures
        ScanState::fresh(sensors).after(press_readings(idle, active)) == (ScanState {
            sensors,
            cursor: idle % sensors,
            held: true,
        }),
        ScanState::fresh(sensors).after(press_readings(idle, active)).action(false)
            == ScanAction::Selected((idle % sensors) as usize),
        ScanState::fresh(sensors).after(press_readings(idle, active)).observe(false)
            == ScanState::fresh(sensors),
    decreases active,
{
    let before = (active - 1) as nat;
    assert(press_readings(idle, active).drop_last() =~= press_readings(idle, before));
    if before == 0 {
        lemma_idle_readings_cycle(sensors, idle);
    } else {
        lemma_first_active_wins(sensors, idle, before);
    }
}

} // verus!
