//! Launch at login: what the answers of the registry tool mean.
use vstd::prelude::*;
use crate::text::{trimmed, trim_text, has_substring, ascii_lowercase, ascii_lowercase_chars, chars_of, contains_chars};

verus! {

/// The registry tool's error output says the value to delete is not there.
pub open spec fn reports_missing_value(stderr: Seq<char>) -> bool {
    has_substring(ascii_lowercase(trimmed(stderr)), "unable to find"@)
}

/// The outcome of writing the launch-at-login value: success, or the
/// tool's error output without surrounding white space.
pub fn run_value_write_outcome(succeeded: bool, stderr: &str) -> (outcome: Result<(), String>)
    ensures
        succeeded ==> outcome is Ok,
        !succeeded ==> (outcome matches Err(e) && e@ == trimmed(stderr@)),
{
    if succeeded {
        Ok(())
    } else {
        Err(String::from_str(trim_text(stderr)))
    }
}

/// The outcome of deleting the launch-at-login value: success when the
/// tool succeeded or reports that the value is not there (in any letter
/// case), else the tool's error output without surrounding white space.
pub fn run_value_delete_outcome(succeeded: bool, stderr: &str) -> (outcome: Result<(), String>)
    ensures
        succeeded || reports_missing_value(stderr@) ==> outcome is Ok,
        !succeeded && !reports_missing_value(stderr@) ==> (outcome matches Err(e) && e@
            == trimmed(stderr@)),
{
    if succeeded {
        return Ok(());
    }
    let message = trim_text(stderr);
    let lower = ascii_lowercase_chars(message);
    let needle = chars_of("unable to find");
    if contains_chars(&lower, &needle) {
        Ok(())
    } else {
        Err(String::from_str(message))
    }
}

} // verus!
