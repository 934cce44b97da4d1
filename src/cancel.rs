use vstd::prelude::*;

verus! {

/// Exit status of a process stopped by a second interrupt.
pub const SECOND_INTERRUPT_EXIT_CODE: i32 = 130;

/// What an external interrupt does to a run.
#[derive(Debug, Clone, Copy, PartialEq, Eq, Structural)]
pub enum InterruptAction {
    /// Stop issuing requests; in-flight ones complete and are recorded, and
    /// the run is still reported.
    Drain,
    /// Terminate the process at once with this status, with no report.
    Exit(i32),
}

/// The cancellation rule: the first interrupt arms the token and drains the
/// run; an interrupt that finds the token already armed terminates the
/// process.
pub fn on_interrupt(already_armed: bool) -> (r: InterruptAction)
    ensures
        !already_armed ==> r == InterruptAction::Drain,
        already_armed ==> r == InterruptAction::Exit(SECOND_INTERRUPT_EXIT_CODE),
{
    if already_armed {
        InterruptAction::Exit(SECOND_INTERRUPT_EXIT_CODE)
    } else {
        InterruptAction::Drain
    }
}

} // verus!
