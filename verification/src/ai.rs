//! The decision half of the text-completion service call: given what the
//! service process wrote to its two output streams, decide whether the call
//! failed. The process invocation itself is outside the library.

use vstd::prelude::*;

verus! {

use crate::text::{contains_seq, contains_str};

/// A failed text-completion call: the service's diagnostic stream carried an
/// error marker.
#[derive(Debug, Clone, PartialEq)]
pub struct AiError {
    pub stderr: String,
}

/// Classifies a finished text-completion call: a diagnostic stream bearing
/// `Error` or `error` anywhere is a hard failure, and otherwise the output
/// stream is the response, verbatim.
pub fn gemini_outcome(stdout: String, stderr: &str) -> (r: Result<String, AiError>)
    ensures
        r is Err <==> (contains_seq(stderr@, "Error"@) || contains_seq(stderr@, "error"@)),
        r matches Ok(s) ==> s == stdout,
        r matches Err(e) ==> e.stderr@ == stderr@,
{
    if contains_str(stderr, "Error") || contains_str(stderr, "error") {
        Err(AiError { stderr: stderr.to_owned() })
    } else {
        Ok(stdout)
    }
}

} // verus!
