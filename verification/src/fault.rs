//! The ways in which a request can fail before the script's own output is
//! returned, and the fixed text that reports each of them.

use vstd::prelude::*;

verus! {

/// A failure of the service itself, as opposed to a script that ran and
/// reported an error of its own.
#[derive(Clone, Copy, Debug, PartialEq, Eq, Hash, Structural)]
pub enum Fault {
    /// The script file could not be created or written.
    TempFile,
    /// The interpreter could not be started.
    Spawn,
    /// The input text could not be written to the interpreter.
    InputWrite,
    /// Waiting for the interpreter failed.
    Wait,
    /// The interpreter ran past its deadline.
    Timeout,
    /// The interpreter's output could not be collected.
    Output,
    /// The interpreter succeeded, but its standard output is not valid text.
    StdoutDecode,
    /// The interpreter failed, and its standard error is not valid text.
    StderrDecode,
}

impl Fault {
    /// The text handed to the caller for this fault.
    pub open spec fn spec_message(self) -> Seq<char> {
        match self {
            Fault::TempFile => "Couldn't create temp file"@,
            Fault::Spawn => "Couldn't spawn command."@,
            Fault::InputWrite => "Couldn't write input in"@,
            Fault::Wait => "Something unexpected happened during execution."@,
            Fault::Timeout => "Execution Timeout..."@,
            Fault::Output => "Something unexpected happened during output"@,
            Fault::StdoutDecode =>
                "Something unexpected happened with script-runner. Error: unexpected stdout output"@,
            Fault::StderrDecode =>
                "Something unexpected happened with script-runner. Error: unexpected stderr output"@,
        }
    }

    /// The text for this fault, as an owned string.
    pub fn message(self) -> (text: String)
        ensures
            text@ == self.spec_message(),
    {
        match self {
            Fault::TempFile => String::from_str("Couldn't create temp file"),
            Fault::Spawn => String::from_str("Couldn't spawn command."),
            Fault::InputWrite => String::from_str("Couldn't write input in"),
            Fault::Wait => String::from_str("Something unexpected happened during execution."),
            Fault::Timeout => String::from_str("Execution Timeout..."),
            Fault::Output => String::from_str("Something unexpected happened during output"),
            Fault::StdoutDecode => String::from_str(
                "Something unexpected happened with script-runner. Error: unexpected stdout output",
            ),
            Fault::StderrDecode => String::from_str(
                "Something unexpected happened with script-runner. Error: unexpected stderr output",
            ),
        }
    }
}

/// Different faults are reported with different texts, so a caller can tell
/// from the text alone which fault occurred.
pub proof fn messages_distinct(a: Fault, b: Fault)
    requires
        a != b,
    ensures
        a.spec_message() != b.spec_message(),
{
    reveal_strlit("Couldn't create temp file");
    reveal_strlit("Couldn't spawn command.");
    reveal_strlit("Couldn't write input in");
    reveal_strlit("Something unexpected happened during execution.");
    reveal_strlit("Execution Timeout...");
    reveal_strlit("Something unexpected happened during output");
    reveal_strlit(
        "Something unexpected happened with script-runner. Error: unexpected stdout output",
    );
    reveal_strlit(
        "Something unexpected happened with script-runner. Error: unexpected stderr output",
    );
    assert("Couldn't create temp file"@.len() == 25);
    assert("Couldn't spawn command."@.len() == 23);
    assert("Couldn't write input in"@.len() == 23);
    assert("Something unexpected happened during execution."@.len() == 47);
    assert("Execution Timeout..."@.len() == 20);
    assert("Something unexpected happened during output"@.len() == 43);
    assert("Something unexpected happened with script-runner. Error: unexpected stdout output"@.len()
        == 81);
    assert("Something unexpected happened with script-runner. Error: unexpected stderr output"@.len()
        == 81);
    assert("Couldn't spawn command."@[9] == 's');
    assert("Couldn't write input in"@[9] == 'w');
    assert("Something unexpected happened with script-runner. Error: unexpected stdout output"@[71]
        == 'o');
    assert("Something unexpected happened with script-runner. Error: unexpected stderr output"@[71]
        == 'e');
}

} // verus!
