//! Why the analysis of a file failed.

use vstd::prelude::*;
use vstd::string::StringExecFns;

verus! {

/// A failed analysis. Neither kind ends the session: each becomes a
/// notification.
#[derive(Debug)]
pub enum ExtractionError {
    /// The path names nothing that exists.
    PathNotFound,
    /// The probing tool could not be started; the text says why.
    ProbeInvocationFailure(String),
}

/// The words in which `error` is reported to the user.
pub open spec fn description_of(error: ExtractionError) -> Seq<char> {
    match error {
        ExtractionError::PathNotFound => "File does not exist"@,
        ExtractionError::ProbeInvocationFailure(reason) => "Error analyzing file: "@ + reason@,
    }
}

impl ExtractionError {
    /// The words in which this error is reported to the user.
    pub fn description(&self) -> (text: String)
        ensures
            text@ == description_of(*self),
    {
        match self {
            ExtractionError::PathNotFound => String::from_str("File does not exist"),
            ExtractionError::ProbeInvocationFailure(reason) => {
                let mut text = String::from_str("Error analyzing file: ");
                text.append(reason.as_str());
                text
            },
        }
    }
}

} // verus!
