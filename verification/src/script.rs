//! Interpretation of the native script-name lookup.
//!
//! The native table answers a name for every script code; the name
//! `Unknown` is its way of saying the code maps to no script, and callers
//! should see no name at all in that case.

use vstd::prelude::*;

verus! {

/// Turns the raw answer of the native script-name lookup into the caller's
/// view: the reserved name `Unknown` means there is no such script.
pub fn script_name_of(raw: String) -> (r: Option<String>)
    ensures
        raw@ == "Unknown"@ ==> r is None,
        raw@ != "Unknown"@ ==> (r matches Some(s) && s@ == raw@),
{
    let unknown = String::from_str("Unknown");
    if raw == unknown {
        None
    } else {
        Some(raw)
    }
}

} // verus!
