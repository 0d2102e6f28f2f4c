//! The pace of the physics loop.
//!
//! The loop advances the world by one fixed step, looks at how long that
//! took, and sleeps for what is left of the step's time. A step that took
//! longer than its time is followed by the next one at once. The time that
//! was lost is not made up for later: under load the simulation runs slower
//! than the clock, it never runs ahead to catch up.
//!
//! Times are whole nanoseconds.
//!
//! The frames of the main loop have a cap of their own, in frames per
//! second, that the user may lift.

use vstd::prelude::*;

verus! {

/// Whether the loop goes on.
#[derive(Clone, Copy, PartialEq, Eq, Structural, Debug)]
pub enum TickerState {
    Running,
    Stopped,
}

/// What the loop does after a step.
#[derive(Clone, Copy, PartialEq, Eq, Structural, Debug)]
pub enum TickAction {
    /// Sleep for so many nanoseconds, then take the next step.
    Sleep(u64),
    /// Leave the loop.
    Stop,
}

/// The sleep after a step that took `elapsed` of a time of `step`: what is
/// left of the time, and nothing where the step overran it.
pub open spec fn sleep_after(step: u64, elapsed: u64) -> u64 {
    if elapsed >= step {
        0
    } else {
        (step - elapsed) as u64
    }
}

/// The time from the start of one step to the start of the next.
pub open spec fn cycle(step: u64, elapsed: u64) -> int {
    elapsed + sleep_after(step, elapsed)
}

/// The time that a run of steps takes, given how long each step took.
pub open spec fn run_time(step: u64, elapsed: Seq<u64>) -> int
    decreases elapsed.len(),
{
    if elapsed.len() == 0 {
        0
    } else {
        run_time(step, elapsed.drop_last()) + cycle(step, elapsed.last())
    }
}

/// The pacing of the physics loop.
#[derive(Clone, Copy, PartialEq, Eq, Structural, Debug)]
pub struct Ticker {
    /// The time of one step.
    pub step: u64,
    pub state: TickerState,
}

/// The state after a step: stopped once shutdown is asked for, and as
/// before otherwise.
pub open spec fn state_after_step(state: TickerState, shutdown: bool) -> TickerState {
    if shutdown {
        TickerState::Stopped
    } else {
        state
    }
}

/// What the loop does after a step that took `elapsed`: a ticker that is
/// still running sleeps for the rest of the step's time, any other stops.
pub open spec fn action_after_step(ticker: Ticker, elapsed: u64, shutdown: bool) -> TickAction {
    if state_after_step(ticker.state, shutdown) == TickerState::Running {
        TickAction::Sleep(sleep_after(ticker.step, elapsed))
    } else {
        TickAction::Stop
    }
}

impl Ticker {
    /// A running ticker with the given time per step.
    pub fn new(step: u64) -> (ticker: Ticker)
        ensures
            ticker == (Ticker { step, state: TickerState::Running }),
    {
        Ticker { step, state: TickerState::Running }
    }

    /// Whether the loop goes on.
    pub fn is_running(&self) -> (running: bool)
        ensures
            running == (self.state == TickerState::Running),
    {
        self.state == TickerState::Running
    }

    /// How long to sleep after a step that took `elapsed`.
    pub fn sleep_for(&self, elapsed: u64) -> (sleep: u64)
        ensures
            sleep == sleep_after(self.step, elapsed),
    {
        if elapsed >= self.step {
            0
        } else {
            self.step - elapsed
        }
    }

    /// What to do after a step that took `elapsed`, given whether shutdown
    /// was asked for. A running ticker that is not asked to stop sleeps for
    /// the rest of the step's time; once asked, it stops and stays stopped.
    pub fn after_step(&mut self, elapsed: u64, shutdown: bool) -> (action: TickAction)
        ensures
            final(self).step == old(self).step,
            final(self).state == state_after_step(old(self).state, shutdown),
            action == action_after_step(*old(self), elapsed, shutdown),
    {
        if shutdown {
            self.state = TickerState::Stopped;
        }
        match self.state {
            TickerState::Running => TickAction::Sleep(self.sleep_for(elapsed)),
            TickerState::Stopped => TickAction::Stop,
        }
    }
}

/// The highest frame rate that counts as a cap. Asking for more lifts the
/// cap.
pub const HIGHEST_FRAME_CAP: u64 = 180;

/// A cap on the frame rate.
#[derive(Clone, Copy, PartialEq, Eq, Structural, Debug)]
pub enum FrameCap {
    /// As many frames as the machine draws.
    Unlimited,
    /// At most so many frames per second.
    Capped(u64),
}

/// The cap on the frame rate that a request stands for: the rate asked for,
/// or no cap where more than the highest rate was asked for.
pub open spec fn cap_for(asked: u64) -> FrameCap {
    if asked > HIGHEST_FRAME_CAP {
        FrameCap::Unlimited
    } else {
        FrameCap::Capped(asked)
    }
}

/// The cap on the frame rate that a request stands for.
pub fn frame_cap(asked: u64) -> (cap: FrameCap)
    ensures
        cap == cap_for(asked),
{
    if asked > HIGHEST_FRAME_CAP {
        FrameCap::Unlimited
    } else {
        FrameCap::Capped(asked)
    }
}

/// From one step to the next it takes the step's time, or as long as the
/// step itself took where that was longer.
pub proof fn lemma_cycle_is_the_longer_of_both(step: u64, elapsed: u64)
    ensures
        cycle(step, elapsed) == if elapsed >= step {
            elapsed as int
        } else {
            step as int
        },
        cycle(step, elapsed) >= step,
        sleep_after(step, elapsed) <= step,
{
}

/// Lost time is not made up for: a run of steps never takes less than the
/// step's time for each step, whatever the steps before took, and the sleep
/// after a step is the same whatever came before it.
pub proof fn lemma_no_catching_up(step: u64, elapsed: Seq<u64>)
    ensures
        run_time(step, elapsed) >= elapsed.len() * step,
    decreases elapsed.len(),
{
    if elapsed.len() > 0 {
        lemma_no_catching_up(step, elapsed.drop_last());
        assert(elapsed.len() * step == (elapsed.len() - 1) * step + step) by (nonlinear_arith);
    }
}

/// A stopped ticker stays stopped and never sleeps again, whether or not
/// shutdown is asked for once more.
pub proof fn lemma_stopped_is_final(ticker: Ticker, elapsed: u64, shutdown: bool)
    requires
        ticker.state == TickerState::Stopped,
    ensures
        state_after_step(ticker.state, shutdown) == TickerState::Stopped,
        action_after_step(ticker, elapsed, shutdown) == TickAction::Stop,
{
}

} // verus!
