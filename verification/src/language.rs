//! The supported interpreters and their fixed configuration.

use vstd::prelude::*;

verus! {

/// The interpreter that a request selects.
#[derive(Clone, Copy, Debug, PartialEq, Eq, Hash, Structural)]
pub enum CommandType {
    Node,
    Python,
    Deno,
}

impl CommandType {
    /// Name of the file, inside the temporary directory, that holds the source
    /// text of a request for this interpreter.
    pub open spec fn spec_file_name(self) -> Seq<char> {
        match self {
            CommandType::Node => "script-runner-code.js"@,
            CommandType::Python => "script-runner-code.py"@,
            CommandType::Deno => "script-runner-code.ts"@,
        }
    }

    /// Name of the executable, resolved through the search path.
    pub open spec fn spec_executable(self) -> Seq<char> {
        match self {
            CommandType::Node => "node"@,
            CommandType::Python => "python"@,
            CommandType::Deno => "deno"@,
        }
    }

    /// Arguments that stand between the executable and the script path.
    pub open spec fn spec_extra_args(self) -> Seq<Seq<char>> {
        match self {
            CommandType::Node => seq![],
            CommandType::Python => seq![],
            CommandType::Deno => seq!["run"@],
        }
    }

    /// Seconds the interpreter may run before the request is given up.
    pub open spec fn spec_timeout_secs(self) -> nat {
        match self {
            CommandType::Node => 7,
            CommandType::Python => 10,
            CommandType::Deno => 10,
        }
    }

    /// The name of this interpreter's script file.
    pub fn file_name(self) -> (name: &'static str)
        ensures
            name@ == self.spec_file_name(),
    {
        match self {
            CommandType::Node => "script-runner-code.js",
            CommandType::Python => "script-runner-code.py",
            CommandType::Deno => "script-runner-code.ts",
        }
    }

    /// The name of this interpreter's executable.
    pub fn executable(self) -> (name: &'static str)
        ensures
            name@ == self.spec_executable(),
    {
        match self {
            CommandType::Node => "node",
            CommandType::Python => "python",
            CommandType::Deno => "deno",
        }
    }

    /// The arguments that this interpreter takes before the script path.
    pub fn extra_args(self) -> (args: Vec<&'static str>)
        ensures
            args@.len() == self.spec_extra_args().len(),
            forall|i: int|
                0 <= i < args@.len() ==> (#[trigger] args@[i])@ == self.spec_extra_args()[i],
    {
        match self {
            CommandType::Node => Vec::new(),
            CommandType::Python => Vec::new(),
            CommandType::Deno => {
                let mut args: Vec<&'static str> = Vec::new();
                args.push("run");
                args
            },
        }
    }

    /// The deadline of this interpreter, in seconds.
    pub fn timeout_secs(self) -> (secs: u64)
        ensures
            secs == self.spec_timeout_secs(),
    {
        match self {
            CommandType::Node => 7,
            CommandType::Python => 10,
            CommandType::Deno => 10,
        }
    }
}

/// Two different interpreters never share a script file, so requests for
/// different interpreters cannot overwrite each other's source.
pub proof fn file_names_distinct(a: CommandType, b: CommandType)
    requires
        a != b,
    ensures
        a.spec_file_name() != b.spec_file_name(),
{
    reveal_strlit("script-runner-code.js");
    reveal_strlit("script-runner-code.py");
    reveal_strlit("script-runner-code.ts");
    assert("script-runner-code.js"@[19] == 'j');
    assert("script-runner-code.py"@[19] == 'p');
    assert("script-runner-code.ts"@[19] == 't');
}

} // verus!
