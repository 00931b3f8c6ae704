//! The line that reports a failed step to the user.

use vstd::prelude::*;

verus! {

/// The report of an error: `Error: ` followed by the error.
pub open spec fn error_report_spec(err: Seq<char>) -> Seq<char> {
    "Error: "@ + err
}

/// The line logged when detection or the mod check fails with `err`.
pub fn error_report(err: &str) -> (line: String)
    ensures
        line@ == error_report_spec(err@),
{
    String::from_str("Error: ").concat(err)
}

} // verus!
