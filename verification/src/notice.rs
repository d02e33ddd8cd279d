//! The line that reports a submission.

use vstd::prelude::*;

use crate::model::notice_text;

verus! {

/// Builds the line that reports a submission of `new_ip`. Printing it is the
/// caller's business.
pub fn submission_notice(new_ip: &str) -> (line: String)
    ensures
        line@ == notice_text(new_ip@),
{
    let mut line = String::from_str("New IP Submitted: ");
    line.append(new_ip);
    line
}

} // verus!
