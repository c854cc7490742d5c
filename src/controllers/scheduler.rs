//! The pacing of the periodic tasks: each runs its work, then sleeps what is
//! left of its period; a tick that overran is reported and the next one
//! starts at once.
use vstd::prelude::*;

verus! {

/// A periodic task of the controller.
#[derive(Clone, Copy, Debug, PartialEq, Eq, Structural)]
pub enum PeriodicTask {
    /// Samples the position sensor.
    PositionInput,
    /// Shows the target LED color.
    LedOutput,
    /// Applies the target motor power.
    MotorOutput,
    /// Logs the shared state.
    Logging,
    /// Answers one request of the script.
    ApiPoll,
}

/// The period of a task, in microseconds; for the API task, the pause after
/// each request.
pub open spec fn period_of(t: PeriodicTask) -> u64 {
    match t {
        PeriodicTask::PositionInput => 1_000,
        PeriodicTask::LedOutput => 10_000,
        PeriodicTask::MotorOutput => 10_000,
        PeriodicTask::Logging => 100_000,
        PeriodicTask::ApiPoll => 5_000,
    }
}

/// The name of a task, as the log shows it.
pub open spec fn name_of(t: PeriodicTask) -> Seq<char> {
    match t {
        PeriodicTask::PositionInput => "Position Input Task"@,
        PeriodicTask::LedOutput => "LED Task"@,
        PeriodicTask::MotorOutput => "Motion Output Task"@,
        PeriodicTask::Logging => "Logging Task"@,
        PeriodicTask::ApiPoll => "API Task"@,
    }
}

impl PeriodicTask {
    /// The period of the task, in microseconds.
    pub fn period_us(&self) -> (p: u64)
        ensures
            p == period_of(*self),
    {
        match self {
            PeriodicTask::PositionInput => 1_000,
            PeriodicTask::LedOutput => 10_000,
            PeriodicTask::MotorOutput => 10_000,
            PeriodicTask::Logging => 100_000,
            PeriodicTask::ApiPoll => 5_000,
        }
    }

    /// The name of the task, for the log.
    pub fn name(&self) -> (n: &'static str)
        ensures
            n@ == name_of(*self),
    {
        match self {
            PeriodicTask::PositionInput => "Position Input Task",
            PeriodicTask::LedOutput => "LED Task",
            PeriodicTask::MotorOutput => "Motion Output Task",
            PeriodicTask::Logging => "Logging Task",
            PeriodicTask::ApiPoll => "API Task",
        }
    }
}

/// What follows one tick: whether it overran its period, and how long to
/// sleep before the next one.
#[derive(Clone, Copy, Debug, PartialEq, Eq, Structural)]
pub struct TickPace {
    pub overran: bool,
    pub sleep_us: u64,
}

/// Paces a tick of `period_us` that took `elapsed_us`: it overran where it
/// took longer than its period, and the sleep is what is left of the period,
/// none where nothing is left. A tick is never skipped.
pub fn pace_tick(period_us: u64, elapsed_us: u64) -> (p: TickPace)
    ensures
        p.overran == (elapsed_us > period_us),
        elapsed_us >= period_us ==> p.sleep_us == 0,
        elapsed_us < period_us ==> p.sleep_us == period_us - elapsed_us,
{
    if elapsed_us >= period_us {
        TickPace { overran: elapsed_us > period_us, sleep_us: 0 }
    } else {
        TickPace { overran: false, sleep_us: period_us - elapsed_us }
    }
}

} // verus!
