//! The hardware capabilities that the controller consumes: GPIO, PWM and
//! UART, each behind a trait with a real and a simulated implementation.
use vstd::prelude::*;

pub mod gpio;
pub mod pwm;
pub mod sim;
pub mod uart;

verus! {

/// Failures of a driver's set-up.
#[derive(Clone, Copy, Debug, PartialEq, Eq, Structural)]
pub enum IOError {
    Unknown,
    Reinitialization,
    Uninitialized,
}

/// A driver with a set-up step.
pub trait IODriver {
    /// Called once, when the driver is set up.
    fn init(&mut self) -> Result<(), IOError>;
}

/// The calls that a driver makes of `plan`, in order, are the entries of
/// `log` with their outcomes: the first `log.len()` calls of the plan, all
/// but the last of them successful, and the last failed where the plan was
/// cut short.
pub open spec fn performed<T>(plan: Seq<T>, log: Seq<(T, bool)>) -> bool {
    &&& log.len() <= plan.len()
    &&& forall|i: int| 0 <= i < log.len() ==> (#[trigger] log[i]).0 == plan[i]
    &&& forall|i: int| 0 <= i < log.len() - 1 ==> (#[trigger] log[i]).1
    &&& log.len() < plan.len() ==> log.len() > 0 && !log[log.len() - 1].1
}

/// Every call of `plan` was made and succeeded.
pub open spec fn completed<T>(plan: Seq<T>, log: Seq<(T, bool)>) -> bool {
    log.len() == plan.len() && (log.len() > 0 ==> log[log.len() - 1].1)
}

/// A driver whose record of calls was `before` and is `after` has carried out
/// `plan`, stopping at the first failure, and `ok` says whether all of it
/// succeeded.
pub open spec fn runs_plan<T>(
    before: Seq<(T, bool)>,
    after: Seq<(T, bool)>,
    plan: Seq<T>,
    ok: bool,
) -> bool {
    &&& before.len() <= after.len()
    &&& after.subrange(0, before.len() as int) == before
    &&& performed(plan, after.subrange(before.len() as int, after.len() as int))
    &&& ok == completed(plan, after.subrange(before.len() as int, after.len() as int))
}

} // verus!
