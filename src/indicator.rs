//! The lifecycle of the progress indicator shown while a request is
//! outstanding, and the decision its background ticker makes on each wake-up.
use vstd::prelude::*;

verus! {

#[derive(Clone, Copy, PartialEq, Eq, Structural, Debug)]
pub enum IndicatorPhase {
    /// Not started yet.
    Idle,
    /// Ticking in the background.
    Running,
    /// Signalled to stop and cleared.
    Stopped,
}

/// What the background ticker does when it wakes.
#[derive(Clone, Copy, PartialEq, Eq, Structural, Debug)]
pub enum TickAction {
    /// Advance the visual frame and wait for the next tick.
    Draw,
    /// Leave the ticking loop for good.
    Finish,
}

/// The ticker draws only while no stop signal has been observed.
pub open spec fn tick_spec(cancelled: bool) -> TickAction {
    if cancelled {
        TickAction::Finish
    } else {
        TickAction::Draw
    }
}

/// The ticker's decision on a wake-up, given whether the stop signal has
/// been observed.
pub fn tick_action(cancelled: bool) -> (r: TickAction)
    ensures
        r == tick_spec(cancelled),
{
    if cancelled {
        TickAction::Finish
    } else {
        TickAction::Draw
    }
}

pub struct Indicator {
    phase: IndicatorPhase,
}

impl Indicator {
    pub closed spec fn phase(&self) -> IndicatorPhase {
        self.phase
    }

    /// Whether the stop signal has been sent, which is what the ticker observes.
    pub open spec fn cancelled(&self) -> bool {
        self.phase() == IndicatorPhase::Stopped
    }

    pub fn new() -> (r: Self)
        ensures
            r.phase() == IndicatorPhase::Idle,
    {
        Indicator { phase: IndicatorPhase::Idle }
    }

    pub fn phase_of(&self) -> (r: IndicatorPhase)
        ensures
            r == self.phase(),
    {
        self.phase
    }

    /// Starts the ticker; an indicator runs at most once.
    pub fn start(&mut self)
        requires
            old(self).phase() == IndicatorPhase::Idle,
        ensures
            final(self).phase() == IndicatorPhase::Running,
    {
        self.phase = IndicatorPhase::Running;
    }

    /// Sends the stop signal and clears the display.
    pub fn stop(&mut self)
        requires
            old(self).phase() == IndicatorPhase::Running,
        ensures
            final(self).phase() == IndicatorPhase::Stopped,
    {
        self.phase = IndicatorPhase::Stopped;
    }
}

/// Once an indicator is stopped, its ticker draws no further frame: every
/// wake-up after the stop signal ends the ticking loop.
pub proof fn law_no_tick_after_stop(ind: Indicator)
    requires
        ind.phase() == IndicatorPhase::Stopped,
    ensures
        tick_spec(ind.cancelled()) == TickAction::Finish,
{
}

} // verus!
