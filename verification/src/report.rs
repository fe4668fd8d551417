//! The text of a report: one line per scored file.

use vstd::prelude::*;
use vstd::string::*;

verus! {

/// The line that reports the score of one file: the file's name as it is,
/// then `  score = ` and the score as the caller has written it out.
pub fn report_line(file_name: &str, score: &str) -> (line: String)
    ensures
        line@ == file_name@ + "  score = "@ + score@,
{
    let mut line = String::from_str(file_name);
    line.append("  score = ");
    line.append(score);
    line
}

} // verus!
