//! From what an interpreter left behind to the result the caller sees.

use vstd::prelude::*;
use vstd::utf8::*;
use crate::fault::Fault;
use crate::text::{decode, text_round_trip};

verus! {

/// The result of a request over plain sequences of characters.
pub open spec fn text_of(result: Result<String, String>) -> Result<Seq<char>, Seq<char>> {
    match result {
        Ok(output) => Ok(output@),
        Err(diagnostic) => Err(diagnostic@),
    }
}

/// Whether an exit code reports success. A process that a signal ended has no
/// code and did not succeed.
pub open spec fn spec_succeeded(code: Option<i32>) -> bool {
    code == Some(0i32)
}

/// The result for an interpreter that exited with `code`, having written
/// `stdout` and `stderr`. Exactly one of the two streams is the payload: the
/// standard output after exit code zero, the standard error otherwise. A
/// payload that is not valid text is reported as a fault of its own.
pub open spec fn spec_classify(code: Option<i32>, stdout: Seq<u8>, stderr: Seq<u8>) -> Result<
    Seq<char>,
    Seq<char>,
> {
    if spec_succeeded(code) {
        if valid_utf8(stdout) {
            Ok(decode_utf8(stdout))
        } else {
            Err(Fault::StdoutDecode.spec_message())
        }
    } else {
        if valid_utf8(stderr) {
            Err(decode_utf8(stderr))
        } else {
            Err(Fault::StderrDecode.spec_message())
        }
    }
}

/// Whether `code` is the exit code zero.
pub fn succeeded(code: Option<i32>) -> (yes: bool)
    ensures
        yes == spec_succeeded(code),
{
    match code {
        Some(value) => value == 0,
        None => false,
    }
}

/// Turns the exit code and the captured streams of an interpreter that has
/// exited into the result of the request.
pub fn classify(code: Option<i32>, stdout: Vec<u8>, stderr: Vec<u8>) -> (result: Result<
    String,
    String,
>)
    ensures
        text_of(result) == spec_classify(code, stdout@, stderr@),
{
    if succeeded(code) {
        match decode(stdout) {
            Some(output) => Ok(output),
            None => Err(Fault::StdoutDecode.message()),
        }
    } else {
        match decode(stderr) {
            Some(diagnostic) => Err(diagnostic),
            None => Err(Fault::StderrDecode.message()),
        }
    }
}

/// Exactly one stream is the payload: after exit code zero the result does
/// not depend on the standard error, and after any other exit it does not
/// depend on the standard output.
pub proof fn one_stream_is_payload(
    code: Option<i32>,
    stdout: Seq<u8>,
    stderr: Seq<u8>,
    other: Seq<u8>,
)
    ensures
        spec_succeeded(code) ==> spec_classify(code, stdout, stderr) == spec_classify(
            code,
            stdout,
            other,
        ),
        !spec_succeeded(code) ==> spec_classify(code, stdout, stderr) == spec_classify(
            code,
            other,
            stderr,
        ),
{
}

/// An interpreter that copies its input to its standard output and exits with
/// code zero gives back the input, whatever it wrote to its standard error.
pub proof fn echo_round_trip(input: Seq<char>, stderr: Seq<u8>)
    ensures
        spec_classify(Some(0i32), encode_utf8(input), stderr) == Ok::<Seq<char>, Seq<char>>(input),
{
    text_round_trip(input);
}

/// An interpreter that exits with a code other than zero, or with none, fails
/// with exactly the text it wrote to its standard error, whatever it wrote to
/// its standard output.
pub proof fn failure_carries_stderr(code: Option<i32>, stdout: Seq<u8>, message: Seq<char>)
    requires
        code != Some(0i32),
    ensures
        spec_classify(code, stdout, encode_utf8(message)) == Err::<Seq<char>, Seq<char>>(message),
{
    text_round_trip(message);
}

} // verus!
