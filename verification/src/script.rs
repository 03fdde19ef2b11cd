//! Scripted fallback.
//!
//! A scripting shim of the operating system can do the copy-and-restore dance
//! by itself when it is run as a subprocess. Its exit status and the bytes it
//! wrote to its standard output are all that comes back. The orchestrator does
//! not use it.

use crate::orchestrator::FailureReason;
use vstd::prelude::*;
use vstd::utf8::{decode_utf8, valid_utf8};

verus! {

/// What the script's run stands for: the text it printed, if it succeeded
/// and printed well-formed UTF-8.
pub open spec fn script_text(succeeded: bool, stdout: Seq<u8>) -> Result<Seq<char>, FailureReason> {
    if succeeded && valid_utf8(stdout) {
        Ok(decode_utf8(stdout))
    } else {
        Err(FailureReason::SubprocessFailure)
    }
}

/// Calls `String::from_utf8` and drops the error's detail. Trusted: the
/// standard library documents that the bytes are taken over as they are when
/// they are valid UTF-8, and that the call fails otherwise.
#[verifier::external_body]
fn decode(bytes: Vec<u8>) -> (text: Option<String>)
    ensures
        text is Some <==> valid_utf8(bytes@),
        text matches Some(decoded) ==> decoded@ == decode_utf8(bytes@),
{
    String::from_utf8(bytes).ok()
}

/// Turns what came back from the script into its text. A run that failed and
/// output that is not UTF-8 are the same failure; the text is handed on as it
/// was printed.
pub fn script_output(succeeded: bool, stdout: Vec<u8>) -> (output: Result<String, FailureReason>)
    ensures
        match script_text(succeeded, stdout@) {
            Ok(text) => output matches Ok(printed) && printed@ == text,
            Err(reason) => output == Err::<String, FailureReason>(reason),
        },
{
    if succeeded {
        match decode(stdout) {
            Some(text) => Ok(text),
            None => Err(FailureReason::SubprocessFailure),
        }
    } else {
        Err(FailureReason::SubprocessFailure)
    }
}

} // verus!
