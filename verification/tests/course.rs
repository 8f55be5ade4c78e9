use script_runner::language::CommandType;
use script_runner::request::{plan, ExecutionRequest};
use script_runner::runner::{step, Action, Event, Phase, Step};

const PHASES: [Phase; 6] = [
    Phase::Created,
    Phase::Materialized,
    Phase::Spawned,
    Phase::InputWritten,
    Phase::InputWriteFailed,
    Phase::Exited,
];

fn failure(text: &str) -> Option<Step> {
    Some(Step::Finish(Err(String::from(text))))
}

fn collected(code: Option<i32>, stdout: &[u8], stderr: &[u8]) -> Event {
    Event::Collected { code, stdout: stdout.to_vec(), stderr: stderr.to_vec() }
}

fn every_event() -> Vec<Event> {
    vec![
        Event::MaterializeFailed,
        Event::Materialized,
        Event::SpawnFailed,
        Event::Spawned,
        Event::InputWritten,
        Event::InputWriteFailed,
        Event::Exited,
        Event::TimedOut,
        Event::WaitFailed,
        Event::CollectFailed,
        collected(Some(0), b"out", b"err"),
    ]
}

fn rank(phase: Phase) -> u32 {
    match phase {
        Phase::Created => 0,
        Phase::Materialized => 1,
        Phase::Spawned => 2,
        Phase::InputWritten => 3,
        Phase::InputWriteFailed => 3,
        Phase::Exited => 4,
    }
}

fn drive(events: Vec<Event>) -> Result<String, String> {
    let mut phase = Phase::Created;
    let mut events = events.into_iter();
    loop {
        let event = events.next().expect("the run asked for more events than were given");
        match step(phase, event) {
            Some(Step::Continue(next)) => phase = next,
            Some(Step::Finish(result)) => {
                assert!(events.next().is_none());
                return result;
            }
            None => panic!("event does not belong to the phase"),
        }
    }
}

#[test]
fn action_per_phase() {
    assert_eq!(Phase::Created.action(), Action::Materialize);
    assert_eq!(Phase::Materialized.action(), Action::Spawn);
    assert_eq!(Phase::Spawned.action(), Action::WriteInput);
    assert_eq!(Phase::InputWritten.action(), Action::Wait);
    assert_eq!(Phase::InputWriteFailed.action(), Action::Wait);
    assert_eq!(Phase::Exited.action(), Action::Collect);
}

#[test]
fn steps_of_a_good_run() {
    assert_eq!(step(Phase::Created, Event::Materialized), Some(Step::Continue(Phase::Materialized)));
    assert_eq!(step(Phase::Materialized, Event::Spawned), Some(Step::Continue(Phase::Spawned)));
    assert_eq!(step(Phase::Spawned, Event::InputWritten), Some(Step::Continue(Phase::InputWritten)));
    assert_eq!(step(Phase::InputWritten, Event::Exited), Some(Step::Continue(Phase::Exited)));
    assert_eq!(
        step(Phase::Exited, collected(Some(0), b"ping", b"")),
        Some(Step::Finish(Ok(String::from("ping"))))
    );
}

#[test]
fn script_file_failure_ends_the_run() {
    assert_eq!(step(Phase::Created, Event::MaterializeFailed), failure("Couldn't create temp file"));
    assert_eq!(drive(vec![Event::MaterializeFailed]), Err(String::from("Couldn't create temp file")));
}

#[test]
fn spawn_failure_ends_the_run() {
    assert_eq!(step(Phase::Materialized, Event::SpawnFailed), failure("Couldn't spawn command."));
    assert_eq!(
        drive(vec![Event::Materialized, Event::SpawnFailed]),
        Err(String::from("Couldn't spawn command."))
    );
}

#[test]
fn failed_input_write_still_waits() {
    assert_eq!(
        step(Phase::Spawned, Event::InputWriteFailed),
        Some(Step::Continue(Phase::InputWriteFailed))
    );
    assert_eq!(Phase::InputWriteFailed.action(), Action::Wait);
}

#[test]
fn failed_input_write_is_reported_after_exit() {
    assert_eq!(step(Phase::InputWriteFailed, Event::Exited), failure("Couldn't write input in"));
    assert_eq!(
        drive(vec![Event::Materialized, Event::Spawned, Event::InputWriteFailed, Event::Exited]),
        Err(String::from("Couldn't write input in"))
    );
}

#[test]
fn failed_input_write_is_reported_after_passed_deadline() {
    assert_eq!(step(Phase::InputWriteFailed, Event::TimedOut), failure("Couldn't write input in"));
    assert_eq!(
        drive(vec![Event::Materialized, Event::Spawned, Event::InputWriteFailed, Event::TimedOut]),
        Err(String::from("Couldn't write input in"))
    );
}

#[test]
fn failed_input_write_is_reported_after_failed_wait() {
    assert_eq!(
        step(Phase::InputWriteFailed, Event::WaitFailed),
        failure("Couldn't write input in")
    );
    assert_eq!(
        drive(vec![Event::Materialized, Event::Spawned, Event::InputWriteFailed, Event::WaitFailed]),
        Err(String::from("Couldn't write input in"))
    );
}

#[test]
fn timeout_is_reported_after_written_input() {
    assert_eq!(step(Phase::InputWritten, Event::TimedOut), failure("Execution Timeout..."));
    assert_eq!(
        drive(vec![Event::Materialized, Event::Spawned, Event::InputWritten, Event::TimedOut]),
        Err(String::from("Execution Timeout..."))
    );
}

#[test]
fn failed_wait_is_reported_after_written_input() {
    let text = "Something unexpected happened during execution.";
    assert_eq!(step(Phase::InputWritten, Event::WaitFailed), failure(text));
    assert_eq!(
        drive(vec![Event::Materialized, Event::Spawned, Event::InputWritten, Event::WaitFailed]),
        Err(String::from(text))
    );
}

#[test]
fn failed_collection_is_reported() {
    assert_eq!(
        step(Phase::Exited, Event::CollectFailed),
        failure("Something unexpected happened during output")
    );
}

#[test]
fn collected_output_is_classified() {
    assert_eq!(
        step(Phase::Exited, collected(Some(1), b"ignored", b"boom")),
        failure("boom")
    );
    assert_eq!(step(Phase::Exited, collected(None, b"ignored", b"")), failure(""));
    assert_eq!(
        step(Phase::Exited, collected(Some(0), &[0xff], b"")),
        failure("Something unexpected happened with script-runner. Error: unexpected stdout output")
    );
    assert_eq!(
        step(Phase::Exited, collected(Some(1), b"", &[0xff])),
        failure("Something unexpected happened with script-runner. Error: unexpected stderr output")
    );
}

#[test]
fn events_of_other_phases_are_refused() {
    let mut accepted = 0;
    for phase in PHASES {
        for event in every_event() {
            let expected = match (phase, &event) {
                (Phase::Created, Event::Materialized | Event::MaterializeFailed) => true,
                (Phase::Materialized, Event::Spawned | Event::SpawnFailed) => true,
                (Phase::Spawned, Event::InputWritten | Event::InputWriteFailed) => true,
                (
                    Phase::InputWritten | Phase::InputWriteFailed,
                    Event::Exited | Event::TimedOut | Event::WaitFailed,
                ) => true,
                (Phase::Exited, Event::Collected { .. } | Event::CollectFailed) => true,
                _ => false,
            };
            assert_eq!(step(phase, event).is_some(), expected);
            if expected {
                accepted += 1;
            }
        }
    }
    assert_eq!(accepted, 14);
}

#[test]
fn every_continuing_step_moves_forward() {
    for phase in PHASES {
        for event in every_event() {
            if let Some(Step::Continue(next)) = step(phase, event) {
                assert!(rank(next) > rank(phase));
            }
        }
    }
}

#[test]
fn node_echo_scenario() {
    let request = ExecutionRequest {
        language: CommandType::Node,
        code: String::from("process.stdout.write(require('fs').readFileSync(0,'utf8'))"),
        input: String::from("ping"),
    };
    let invocation = plan(&request);
    let echoed = invocation.input.clone();
    let result = drive(vec![
        Event::Materialized,
        Event::Spawned,
        Event::InputWritten,
        Event::Exited,
        Event::Collected { code: Some(0), stdout: echoed, stderr: Vec::new() },
    ]);
    assert_eq!(result, Ok(String::from("ping")));
}

#[test]
fn python_exit_one_scenario() {
    let request = ExecutionRequest {
        language: CommandType::Python,
        code: String::from("import sys; sys.exit(1)"),
        input: String::new(),
    };
    let invocation = plan(&request);
    assert!(invocation.input.is_empty());
    let result = drive(vec![
        Event::Materialized,
        Event::Spawned,
        Event::InputWritten,
        Event::Exited,
        Event::Collected { code: Some(1), stdout: Vec::new(), stderr: Vec::new() },
    ]);
    assert_eq!(result, Err(String::new()));
}

#[test]
fn echo_round_trip_for_every_language() {
    for language in [CommandType::Node, CommandType::Python, CommandType::Deno] {
        for input in ["", "ping", "héllo ✓ 日本語 🚀"] {
            let invocation = plan(&ExecutionRequest {
                language,
                code: String::from("echo"),
                input: String::from(input),
            });
            let result = drive(vec![
                Event::Materialized,
                Event::Spawned,
                Event::InputWritten,
                Event::Exited,
                Event::Collected { code: Some(0), stdout: invocation.input, stderr: Vec::new() },
            ]);
            assert_eq!(result, Ok(String::from(input)));
        }
    }
}

#[test]
fn only_a_collected_exit_zero_succeeds() {
    let mut successes = 0;
    for phase in PHASES {
        for event in every_event() {
            let zero = matches!(event, Event::Collected { code: Some(0), .. });
            if let Some(Step::Finish(Ok(output))) = step(phase, event) {
                assert_eq!(phase, Phase::Exited);
                assert!(zero);
                assert_eq!(output, "out");
                successes += 1;
            }
        }
    }
    assert_eq!(successes, 1);
}

#[test]
fn every_failure_text_is_a_fault_or_the_standard_error() {
    let faults = [
        "Couldn't create temp file",
        "Couldn't spawn command.",
        "Couldn't write input in",
        "Something unexpected happened during execution.",
        "Execution Timeout...",
        "Something unexpected happened during output",
    ];
    for phase in PHASES {
        for event in every_event() {
            if let Some(Step::Finish(Err(text))) = step(phase, event) {
                assert!(faults.contains(&text.as_str()));
            }
        }
    }
    assert_eq!(step(Phase::Exited, collected(Some(9), b"out", b"err")), failure("err"));
}
