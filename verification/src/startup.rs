//! What the manager asks of the platform before it starts.

use vstd::prelude::*;
use vstd::string::StringExecFns;
use crate::text::same_text;

verus! {

/// The text reported on a platform that is not supported.
pub open spec fn unsupported_platform_text(os: Seq<char>) -> Seq<char> {
    "OpenSpace currently supports Linux only. Detected platform: "@ + os + "."@
}

/// Accepts the platform named `os` if it is Linux, and says why not otherwise.
pub fn ensure_linux_runtime(os: &str) -> (accepted: Result<(), String>)
    ensures
        os@ == "linux"@ ==> accepted is Ok,
        os@ != "linux"@ ==> accepted is Err && accepted->Err_0@ == unsupported_platform_text(os@),
{
    if same_text(os, "linux") {
        Ok(())
    } else {
        let mut text = "OpenSpace currently supports Linux only. Detected platform: ".to_owned();
        text.append(os);
        text.append(".");
        Err(text)
    }
}

} // verus!
