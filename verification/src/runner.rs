//! The course of one request, from the script file to the result.
//!
//! The caller owns the file and the process. It performs the action that the
//! current phase asks for, reports what it observed as an event, and is told
//! either the next phase or the final result. Nothing is ever tried twice: each
//! phase is entered at most once, and a run ends after at most five events.

use vstd::prelude::*;
use vstd::utf8::*;
use crate::fault::Fault;
use crate::outcome::{classify, spec_classify, text_of};

verus! {

/// How far a run has come.
#[derive(Clone, Copy, Debug, PartialEq, Eq, Hash, Structural)]
pub enum Phase {
    /// Nothing has been done yet.
    Created,
    /// The script file holds the source text; nothing has been started.
    Materialized,
    /// The interpreter is running and has not been given its input.
    Spawned,
    /// The input was written in full and the pipe closed.
    InputWritten,
    /// Writing the input failed; the pipe is closed. The run will end with the
    /// text of that failure once the interpreter has been waited for.
    InputWriteFailed,
    /// The interpreter exited within its deadline after taking its input.
    Exited,
}

/// What the caller does next.
#[derive(Clone, Copy, Debug, PartialEq, Eq, Hash, Structural)]
pub enum Action {
    /// Write the source text to the script file in the temporary directory,
    /// replacing what the file held.
    Materialize,
    /// Start the executable with the script path as its last argument and a
    /// pipe on each of standard input, output and error.
    Spawn,
    /// Write the input text to the standard input pipe, then close it.
    WriteInput,
    /// Wait for the interpreter to exit, no longer than the deadline.
    Wait,
    /// Read standard output and standard error to their end and take the exit
    /// code.
    Collect,
}

/// What the caller observed when it performed an action.
#[derive(Debug, PartialEq, Eq)]
pub enum Event {
    MaterializeFailed,
    Materialized,
    SpawnFailed,
    Spawned,
    InputWritten,
    InputWriteFailed,
    Exited,
    TimedOut,
    WaitFailed,
    CollectFailed,
    /// The exit code, absent where a signal ended the process, and all bytes
    /// of the two output streams.
    Collected { code: Option<i32>, stdout: Vec<u8>, stderr: Vec<u8> },
}

/// The answer to an event.
#[derive(Debug, PartialEq, Eq)]
pub enum Step {
    /// The run goes on in the given phase.
    Continue(Phase),
    /// The run is over, with the result for the caller of the service.
    Finish(Result<String, String>),
}

/// A `Step` with its texts as sequences of characters.
pub enum StepModel {
    Continue(Phase),
    Finish(Result<Seq<char>, Seq<char>>),
}

impl View for Step {
    type V = StepModel;

    open spec fn view(&self) -> StepModel {
        match *self {
            Step::Continue(phase) => StepModel::Continue(phase),
            Step::Finish(result) => StepModel::Finish(text_of(result)),
        }
    }
}

/// The final step that reports `fault`.
pub open spec fn spec_fail(fault: Fault) -> StepModel {
    StepModel::Finish(Err(fault.spec_message()))
}

impl Phase {
    /// The action that a run in this phase is waiting for.
    pub open spec fn spec_action(self) -> Action {
        match self {
            Phase::Created => Action::Materialize,
            Phase::Materialized => Action::Spawn,
            Phase::Spawned => Action::WriteInput,
            Phase::InputWritten => Action::Wait,
            Phase::InputWriteFailed => Action::Wait,
            Phase::Exited => Action::Collect,
        }
    }

    /// Position of the phase in the course of a run.
    pub open spec fn spec_rank(self) -> nat {
        match self {
            Phase::Created => 0,
            Phase::Materialized => 1,
            Phase::Spawned => 2,
            Phase::InputWritten => 3,
            Phase::InputWriteFailed => 3,
            Phase::Exited => 4,
        }
    }

    /// The action to perform in this phase.
    pub fn action(self) -> (action: Action)
        ensures
            action == self.spec_action(),
    {
        match self {
            Phase::Created => Action::Materialize,
            Phase::Materialized => Action::Spawn,
            Phase::Spawned => Action::WriteInput,
            Phase::InputWritten => Action::Wait,
            Phase::InputWriteFailed => Action::Wait,
            Phase::Exited => Action::Collect,
        }
    }
}

/// The answer to `event` in `phase`, or `None` where the action of that phase
/// cannot have that event.
///
/// A script file that cannot be written, or an interpreter that cannot be
/// started, ends the run at once. A failed write of the input decides the
/// result but does not end the run: the interpreter is still waited for, so
/// that it is reaped where it exits within its deadline, and the failed write
/// is reported whatever the wait gives. After a write that succeeded, a
/// deadline that passes or a wait that fails ends the run with a text of its
/// own. Only an interpreter that took all of its input and exited has its
/// output collected and classified.
pub open spec fn spec_step(phase: Phase, event: Event) -> Option<StepModel> {
    match phase {
        Phase::Created => match event {
            Event::Materialized => Some(StepModel::Continue(Phase::Materialized)),
            Event::MaterializeFailed => Some(spec_fail(Fault::TempFile)),
            _ => None,
        },
        Phase::Materialized => match event {
            Event::Spawned => Some(StepModel::Continue(Phase::Spawned)),
            Event::SpawnFailed => Some(spec_fail(Fault::Spawn)),
            _ => None,
        },
        Phase::Spawned => match event {
            Event::InputWritten => Some(StepModel::Continue(Phase::InputWritten)),
            Event::InputWriteFailed => Some(StepModel::Continue(Phase::InputWriteFailed)),
            _ => None,
        },
        Phase::InputWritten => match event {
            Event::Exited => Some(StepModel::Continue(Phase::Exited)),
            Event::TimedOut => Some(spec_fail(Fault::Timeout)),
            Event::WaitFailed => Some(spec_fail(Fault::Wait)),
            _ => None,
        },
        Phase::InputWriteFailed => match event {
            Event::Exited => Some(spec_fail(Fault::InputWrite)),
            Event::TimedOut => Some(spec_fail(Fault::InputWrite)),
            Event::WaitFailed => Some(spec_fail(Fault::InputWrite)),
            _ => None,
        },
        Phase::Exited => match event {
            Event::Collected { code, stdout, stderr } => Some(
                StepModel::Finish(spec_classify(code, stdout@, stderr@)),
            ),
            Event::CollectFailed => Some(spec_fail(Fault::Output)),
            _ => None,
        },
    }
}

/// The step that ends a run with the text of `fault`.
fn fail(fault: Fault) -> (step: Option<Step>)
    ensures
        step is Some,
        step->Some_0@ == spec_fail(fault),
{
    Some(Step::Finish(Err(fault.message())))
}

/// Answers `event`, observed while performing the action of `phase`.
pub fn step(phase: Phase, event: Event) -> (next: Option<Step>)
    ensures
        next is Some <==> spec_step(phase, event) is Some,
        next matches Some(s) ==> Some(s@) == spec_step(phase, event),
{
    match phase {
        Phase::Created => match event {
            Event::Materialized => Some(Step::Continue(Phase::Materialized)),
            Event::MaterializeFailed => fail(Fault::TempFile),
            _ => None,
        },
        Phase::Materialized => match event {
            Event::Spawned => Some(Step::Continue(Phase::Spawned)),
            Event::SpawnFailed => fail(Fault::Spawn),
            _ => None,
        },
        Phase::Spawned => match event {
            Event::InputWritten => Some(Step::Continue(Phase::InputWritten)),
            Event::InputWriteFailed => Some(Step::Continue(Phase::InputWriteFailed)),
            _ => None,
        },
        Phase::InputWritten => match event {
            Event::Exited => Some(Step::Continue(Phase::Exited)),
            Event::TimedOut => fail(Fault::Timeout),
            Event::WaitFailed => fail(Fault::Wait),
            _ => None,
        },
        Phase::InputWriteFailed => match event {
            Event::Exited => fail(Fault::InputWrite),
            Event::TimedOut => fail(Fault::InputWrite),
            Event::WaitFailed => fail(Fault::InputWrite),
            _ => None,
        },
        Phase::Exited => match event {
            Event::Collected { code, stdout, stderr } => Some(
                Step::Finish(classify(code, stdout, stderr)),
            ),
            Event::CollectFailed => fail(Fault::Output),
            _ => None,
        },
    }
}

/// A run never returns to a phase it has left: every step that does not end
/// the run leads to a later phase. So nothing is retried, the script file is
/// written before the interpreter starts, the input is written before the
/// wait, the wait comes before the output is read, and a run ends after at most
/// five events.
pub proof fn step_advances(phase: Phase, event: Event)
    ensures
        spec_step(phase, event) matches Some(StepModel::Continue(next)) ==> next.spec_rank()
            > phase.spec_rank(),
        phase.spec_rank() <= 4,
{
}

/// A run succeeds only with the standard output of an interpreter that was
/// given all of its input and exited with code zero within its deadline. Every
/// other run fails, with the text of a fault or with the standard error of an
/// interpreter that exited with another code.
pub proof fn results_are_accounted_for(phase: Phase, event: Event)
    ensures
        spec_step(phase, event) matches Some(StepModel::Finish(Ok(output))) ==> {
            &&& phase == Phase::Exited
            &&& event matches Event::Collected { code, stdout, stderr }
            &&& code == Some(0i32)
            &&& valid_utf8(stdout@)
            &&& output == decode_utf8(stdout@)
        },
        spec_step(phase, event) matches Some(StepModel::Finish(Err(diagnostic))) ==> {
            ||| exists|fault: Fault| diagnostic == #[trigger] fault.spec_message()
            ||| {
                &&& phase == Phase::Exited
                &&& event matches Event::Collected { code, stdout, stderr }
                &&& code != Some(0i32)
                &&& valid_utf8(stderr@)
                &&& diagnostic == decode_utf8(stderr@)
            }
        },
{
}

/// Once the interpreter is being waited for, a deadline that passes always
/// ends the run: with the timeout text where the interpreter had been given
/// all of its input, with the text of the failed write otherwise.
pub proof fn deadline_ends_run(phase: Phase)
    requires
        phase.spec_action() == Action::Wait,
    ensures
        phase == Phase::InputWritten ==> spec_step(phase, Event::TimedOut) == Some(
            spec_fail(Fault::Timeout),
        ),
        phase != Phase::InputWritten ==> spec_step(phase, Event::TimedOut) == Some(
            spec_fail(Fault::InputWrite),
        ),
{
}

/// A failed write of the input is never retried and never forgotten: the run
/// goes on to the wait, and whatever the wait gives, the run then ends with
/// the text of the failed write.
pub proof fn failed_write_is_reported(event: Event)
    ensures
        spec_step(Phase::Spawned, Event::InputWriteFailed) == Some(
            StepModel::Continue(Phase::InputWriteFailed),
        ),
        Phase::InputWriteFailed.spec_action() == Action::Wait,
        spec_step(Phase::InputWriteFailed, event) is Some ==> spec_step(
            Phase::InputWriteFailed,
            event,
        ) == Some(spec_fail(Fault::InputWrite)),
        (event is Exited || event is TimedOut || event is WaitFailed) ==> spec_step(
            Phase::InputWriteFailed,
            event,
        ) is Some,
{
}

} // verus!
