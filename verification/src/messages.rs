//! The texts that failures are reported with.

use vstd::prelude::*;
use vstd::string::StringExecFns;

verus! {

/// The text reported when the critical section `name` could not be entered.
pub open spec fn lock_error_text(name: Seq<char>) -> Seq<char> {
    "failed to lock "@ + name
}

/// The text reported when the step described by `message` failed with `detail`.
pub open spec fn failure_text(message: Seq<char>, detail: Seq<char>) -> Seq<char> {
    message + ": "@ + detail
}

/// `std::io::Error`, carried through as an opaque value.
#[verifier::external_type_specification]
#[verifier::external_body]
pub struct ExIoError(std::io::Error);

/// Describes a failure to enter the critical section called `name`.
pub fn lock_error(name: &str) -> (message: String)
    ensures
        message@ == lock_error_text(name@),
{
    let mut message = "failed to lock ".to_owned();
    message.append(name);
    message
}

/// Joins the description of a failed step and the detail of the failure.
pub fn describe_failure(message: &str, detail: &str) -> (text: String)
    ensures
        text@ == failure_text(message@, detail@),
{
    let mut text = message.to_owned();
    text.append(": ");
    text.append(detail);
    text
}

/// Describes a failed I/O step: `message`, a colon, and what `error` displays as.
pub fn io_error(message: &str, error: std::io::Error) -> (text: String)
    ensures
        exists|detail: String|
            vstd::string::to_string_from_display_ensures::<std::io::Error>(&error, detail)
                && text@ == failure_text(message@, detail@),
{
    let detail = error.to_string();
    describe_failure(message, detail.as_str())
}

} // verus!
