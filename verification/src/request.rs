//! A request, and everything about its execution that is fixed before any
//! process is started.

use vstd::prelude::*;
use vstd::utf8::*;
use crate::language::{file_names_distinct, CommandType};
use crate::outcome::echo_round_trip;
use crate::runner::{spec_step, Event, Phase, StepModel};
use crate::text::{encode, text_round_trip};

verus! {

/// One call of the service: the interpreter, the source text it is to run and
/// the text it finds on its standard input.
#[derive(Debug)]
pub struct ExecutionRequest {
    pub language: CommandType,
    pub code: String,
    pub input: String,
}

/// What the caller of the library has to do for a request.
#[derive(Debug)]
pub struct Invocation {
    /// Name of the script file inside the temporary directory.
    pub file_name: &'static str,
    /// The bytes of the script file; they replace whatever the file held.
    pub script: Vec<u8>,
    /// The executable to start.
    pub executable: &'static str,
    /// The arguments before the path of the script file, which comes last.
    pub extra_args: Vec<&'static str>,
    /// The bytes to write to the interpreter's standard input.
    pub input: Vec<u8>,
    /// The deadline for the interpreter, in seconds.
    pub timeout_secs: u64,
}

/// An `Invocation` over plain sequences.
pub struct InvocationModel {
    pub file_name: Seq<char>,
    pub script: Seq<u8>,
    pub executable: Seq<char>,
    pub extra_args: Seq<Seq<char>>,
    pub input: Seq<u8>,
    pub timeout_secs: nat,
}

impl View for Invocation {
    type V = InvocationModel;

    open spec fn view(&self) -> InvocationModel {
        InvocationModel {
            file_name: self.file_name@,
            script: self.script@,
            executable: self.executable@,
            extra_args: Seq::new(self.extra_args@.len(), |i: int| self.extra_args@[i]@),
            input: self.input@,
            timeout_secs: self.timeout_secs as nat,
        }
    }
}

/// The invocation for a request: file name, executable, arguments and deadline
/// come from the interpreter alone; script and input are the two texts as
/// bytes.
pub open spec fn spec_plan(language: CommandType, code: Seq<char>, input: Seq<char>)
    -> InvocationModel {
    InvocationModel {
        file_name: language.spec_file_name(),
        script: encode_utf8(code),
        executable: language.spec_executable(),
        extra_args: language.spec_extra_args(),
        input: encode_utf8(input),
        timeout_secs: language.spec_timeout_secs(),
    }
}

/// Works out the invocation for `request`.
pub fn plan(request: &ExecutionRequest) -> (invocation: Invocation)
    ensures
        invocation@ == spec_plan(request.language, request.code@, request.input@),
{
    let invocation = Invocation {
        file_name: request.language.file_name(),
        script: encode(request.code.as_str()),
        executable: request.language.executable(),
        extra_args: request.language.extra_args(),
        input: encode(request.input.as_str()),
        timeout_secs: request.language.timeout_secs(),
    };
    assert(invocation@.extra_args =~= request.language.spec_extra_args());
    invocation
}

/// Requests for different interpreters keep their scripts in different files.
pub proof fn languages_keep_apart(
    a: CommandType,
    a_code: Seq<char>,
    a_input: Seq<char>,
    b: CommandType,
    b_code: Seq<char>,
    b_input: Seq<char>,
)
    requires
        a != b,
    ensures
        spec_plan(a, a_code, a_input).file_name != spec_plan(b, b_code, b_input).file_name,
{
    file_names_distinct(a, b);
}

/// Requests for one interpreter keep their scripts in one and the same file,
/// whatever their source texts. Two such requests in flight at once can
/// therefore run each other's script; the library does not prevent that.
pub proof fn language_shares_file(
    language: CommandType,
    a_code: Seq<char>,
    a_input: Seq<char>,
    b_code: Seq<char>,
    b_input: Seq<char>,
)
    ensures
        spec_plan(language, a_code, a_input).file_name == spec_plan(
            language,
            b_code,
            b_input,
        ).file_name,
{
}

/// The script file holds the source text unchanged, whatever characters the
/// text is made of: its bytes are valid text and decode to the source.
pub proof fn script_survives(language: CommandType, code: Seq<char>, input: Seq<char>)
    ensures
        valid_utf8(spec_plan(language, code, input).script),
        decode_utf8(spec_plan(language, code, input).script) == code,
{
    text_round_trip(code);
}

/// For every interpreter and every input: a script that exits with code zero
/// after writing to its standard output exactly the bytes it was given on its
/// standard input makes the request succeed with the input text.
pub proof fn echo_returns_input(
    language: CommandType,
    code: Seq<char>,
    input: Seq<char>,
    stdout: Vec<u8>,
    stderr: Vec<u8>,
)
    requires
        stdout@ == spec_plan(language, code, input).input,
    ensures
        spec_step(Phase::Exited, Event::Collected { code: Some(0i32), stdout, stderr }) == Some(
            StepModel::Finish(Ok(input)),
        ),
{
    echo_round_trip(input, stderr@);
}

} // verus!
