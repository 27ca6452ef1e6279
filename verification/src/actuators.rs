//! The lights: a row of outputs, each on or off.
//!
//! An [`ActuatorArray`] holds what the row shows. The program around the
//! engine copies a pattern to its pins; a pin that cannot be driven is that
//! program's fault to handle, not a state of the row.

use vstd::prelude::*;

verus! {

/// A row of `count` outputs, all off.
pub open spec fn dark(count: nat) -> Seq<bool> {
    Seq::new(count, |i: int| false)
}

/// A row of `count` outputs, all on.
pub open spec fn bright(count: nat) -> Seq<bool> {
    Seq::new(count, |i: int| true)
}

/// A row of `count` outputs in which `index` alone is on.
pub open spec fn only(count: nat, index: int) -> Seq<bool> {
    Seq::new(count, |i: int| i == index)
}

/// A row of `count` outputs in which the first `lit` are on.
pub open spec fn first_on(count: nat, lit: int) -> Seq<bool> {
    Seq::new(count, |i: int| i < lit)
}

/// `row` with its first `lit` outputs turned on.
pub open spec fn with_first_on(row: Seq<bool>, lit: int) -> Seq<bool> {
    Seq::new(row.len(), |i: int| i < lit || row[i])
}

/// The number of outputs of `row` that are on.
pub open spec fn lit(row: Seq<bool>) -> nat
    decreases row.len(),
{
    if row.len() == 0 {
        0
    } else if row.last() {
        lit(row.drop_last()) + 1
    } else {
        lit(row.drop_last())
    }
}

/// A row with its first outputs on, and no more of them than it has, shows
/// that many lights.
pub proof fn lemma_first_on_lit(count: nat, on: nat)
    requires
        on <= count,
    ensures
        lit(first_on(count, on as int)) == on,
    decreases count,
{
    if count > 0 {
        let rest = (count - 1) as nat;
        if on == count {
            lemma_first_on_lit(rest, rest);
            assert(first_on(count, on as int).drop_last() =~= first_on(rest, rest as int));
        } else {
            lemma_first_on_lit(rest, on);
            assert(first_on(count, on as int).drop_last() =~= first_on(rest, on as int));
        }
    }
}

/// A fixed row of binary outputs, addressed by position.
pub struct ActuatorArray {
    lit: Vec<bool>,
}

impl View for ActuatorArray {
    type V = Seq<bool>;

    /// What each output shows, in order.
    closed spec fn view(&self) -> Seq<bool> {
        self.lit@
    }
}

impl ActuatorArray {
    /// A row of `count` outputs, all off.
    pub fn new(count: usize) -> (row: Self)
        ensures
            row@ == dark(count as nat),
    {
        let mut lit: Vec<bool> = Vec::new();
        let mut i: usize = 0;
        while i < count
            invariant
                i <= count,
                lit@ == dark(i as nat),
            decreases count - i,
        {
            lit.push(false);
            i += 1;
        }
        ActuatorArray { lit }
    }

    /// The number of outputs.
    pub fn len(&self) -> (count: usize)
        ensures
            count == self@.len(),
    {
        self.lit.len()
    }

    /// Whether output `index` is on.
    pub fn is_lit(&self, index: usize) -> (on: bool)
        requires
            index < self@.len(),
        ensures
            on == self@[index as int],
    {
        self.lit[index]
    }

    /// Turns every output off.
    pub fn all_off(&mut self)
        ensures
            final(self)@ == dark(old(self)@.len()),
    {
        self.fill(false);
    }

    /// Turns every output on.
    pub fn all_on(&mut self)
        ensures
            final(self)@ == bright(old(self)@.len()),
    {
        self.fill(true);
    }

    /// Turns output `index` on and leaves the others as they are. That one
    /// output alone is lit is up to the caller, who clears the row first.
    pub fn set(&mut self, index: usize)
        requires
            index < old(self)@.len(),
        ensures
            final(self)@ == old(self)@.update(index as int, true),
    {
        self.lit[index] = true;
    }

    /// Turns output `index` off and leaves the others as they are.
    pub fn clear(&mut self, index: usize)
        requires
            index < old(self)@.len(),
        ensures
            final(self)@ == old(self)@.update(index as int, false),
    {
        self.lit[index] = false;
    }

    /// Turns the first `count` outputs on, all of them where `count` exceeds
    /// the row, and leaves the others as they are.
    pub fn set_range_on(&mut self, count: usize)
        ensures
            final(self)@ == with_first_on(old(self)@, count as int),
    {
        let n: usize = self.lit.len();
        let mut i: usize = 0;
        while i < n && i < count
            invariant
                i <= n,
                i <= count,
                n == self.lit@.len(),
                self.lit@ == with_first_on(old(self).lit@, i as int),
            decreases n - i,
        {
            self.lit[i] = true;
            i += 1;
        }
    }

    /// A copy of what the row shows.
    pub fn pattern(&self) -> (pattern: Vec<bool>)
        ensures
            pattern@ == self@,
    {
        self.lit.clone()
    }

    /// Sets every output to `on`.
    fn fill(&mut self, on: bool)
        ensures
            final(self)@.len() == old(self)@.len(),
            forall|i: int| 0 <= i < final(self)@.len() ==> final(self)@[i] == on,
    {
        let n: usize = self.lit.len();
        let mut i: usize = 0;
        while i < n
            invariant
                i <= n,
                n == self.lit@.len(),
                forall|j: int| 0 <= j < i ==> self.lit@[j] == on,
            decreases n - i,
        {
            self.lit[i] = on;
            i += 1;
        }
    }
}

} // verus!
