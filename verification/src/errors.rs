//! The error taxonomy of the crate: transport failures, decode failures,
//! and the "no bugs" condition are surfaced as one reportable type.

use vstd::prelude::*;
use vstd::string::StringExecFns;

verus! {

/// All errors that might occur in this crate.
///
/// * `NoBugs`: a syntactically valid response carried an empty bug list
///   although the request was non-empty.
/// * `Transport`: the network transport failed; the transport's own report
///   is passed through unchanged.
/// * `Decode`: the response body does not match the expected shape.
#[derive(Debug)]
pub enum BugzillaQueryError {
    NoBugs,
    Transport(String),
    Decode,
}

impl BugzillaQueryError {
    /// A short report of the error. For a transport failure, the
    /// transport's own report follows the fixed prefix unchanged.
    pub fn message(&self) -> (r: String)
        ensures
            match *self {
                BugzillaQueryError::NoBugs => r@ == "The Bugzilla query returned no bugs."@,
                BugzillaQueryError::Transport(t) => r@ == "Error in the Bugzilla REST API: "@
                    + t@,
                BugzillaQueryError::Decode => r@
                    == "The Bugzilla response does not match the expected shape."@,
            },
    {
        match self {
            BugzillaQueryError::NoBugs => String::from_str("The Bugzilla query returned no bugs."),
            BugzillaQueryError::Transport(t) => {
                proof {
                    reveal_strlit("Error in the Bugzilla REST API: ");
                }
                let mut s = String::from_str("Error in the Bugzilla REST API: ");
                s.append(t.as_str());
                s
            },
            BugzillaQueryError::Decode => String::from_str(
                "The Bugzilla response does not match the expected shape.",
            ),
        }
    }
}

} // verus!
