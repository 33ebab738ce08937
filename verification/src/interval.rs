//! The current timer interval: a two-state work/break toggle with a fixed
//! duration and a display label for each state.

use vstd::prelude::*;

verus! {

/// Length of a work interval, in seconds.
pub const WORK_SECONDS: u32 = 1500;

/// Length of a break interval, in seconds.
pub const BREAK_SECONDS: u32 = 300;

/// Enum indicating the current interval.
#[derive(PartialEq, Eq, Structural, Clone, Copy, Debug)]
pub enum Interval {
    /// Work interval
    Work,
    /// Break interval
    Break,
}

impl Interval {
    /// The opposite interval.
    pub open spec fn spec_toggled(self) -> Interval {
        match self {
            Interval::Work => Interval::Break,
            Interval::Break => Interval::Work,
        }
    }

    /// Duration of this interval, in seconds.
    pub open spec fn spec_duration(self) -> u32 {
        match self {
            Interval::Work => WORK_SECONDS,
            Interval::Break => BREAK_SECONDS,
        }
    }

    /// Display label of this interval.
    pub open spec fn spec_label(self) -> Seq<char> {
        match self {
            Interval::Work => "Work Interval"@,
            Interval::Break => "Break Interval"@,
        }
    }

    /// Swap in place from a work to a break interval, or vice versa.
    pub fn switch(&mut self)
        ensures
            *final(self) == old(self).spec_toggled(),
    {
        match self {
            Interval::Work => {
                *self = Interval::Break;
            },
            Interval::Break => {
                *self = Interval::Work;
            },
        }
    }

    /// Duration of this interval, in seconds.
    pub fn duration_seconds(&self) -> (r: u32)
        ensures
            r == self.spec_duration(),
    {
        match self {
            Interval::Work => WORK_SECONDS,
            Interval::Break => BREAK_SECONDS,
        }
    }

    /// Display label of this interval.
    pub fn label(&self) -> (r: &'static str)
        ensures
            r@ == self.spec_label(),
    {
        match self {
            Interval::Work => "Work Interval",
            Interval::Break => "Break Interval",
        }
    }
}

/// Toggling an interval is its own inverse: toggling twice restores the
/// starting variant (and with it that variant's duration and label), and an
/// interval never equals its own toggle.
pub proof fn lemma_toggle_involutive(iv: Interval)
    ensures
        iv.spec_toggled().spec_toggled() == iv,
        iv.spec_toggled() != iv,
        iv.spec_toggled().spec_toggled().spec_duration() == iv.spec_duration(),
{
}

} // verus!
