//! The two diagnostics the tool can print, built character-exactly.

use vstd::prelude::*;
use vstd::string::StringExecFns;

verus! {

/// The diagnostic owed when no URLs are given: the invoked program's name,
/// then the fixed complaint.
pub fn usage_message(program: &str) -> (m: String)
    ensures
        m@ == program@ + ": no URLs given\n"@,
{
    let mut m = String::from_str(program);
    m.append(": no URLs given\n");
    m
}

/// The diagnostic owed on a transport-level failure: names the failing URL
/// and carries the underlying error's rendering.
pub fn transport_failure_message(url: &str, error: &str) -> (m: String)
    ensures
        m@ == "failed to send request to `"@ + url@ + "`: "@ + error@,
{
    let mut m = String::from_str("failed to send request to `");
    m.append(url);
    m.append("`: ");
    m.append(error);
    m
}

} // verus!
