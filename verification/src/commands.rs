//! Replies of the remaining UI-facing operations: the ones whose whole
//! behaviour is a decision over plain values. The host performs the window
//! reveal and the pass-through to the settings store and the backend; the
//! replies, and when each is an error, are fixed here.

use vstd::prelude::*;
use crate::text::{append, concat_str};

verus! {

/// Reply of the settings-window request: the host reveals and focuses the
/// main window when it exists; when it does not, the request fails with a
/// resource-unavailable error.
pub fn show_settings(window_exists: bool) -> (r: Result<String, String>)
    ensures
        window_exists <==> r is Ok,
        window_exists ==> (r matches Ok(m) && m@ == "Settings shown"@),
        !window_exists ==> (r matches Err(m) && m@ == "Settings window not found"@),
{
    if window_exists {
        Ok("Settings shown".to_owned())
    } else {
        Err("Settings window not found".to_owned())
    }
}

/// Acknowledgement of the cursor request; the operation has no other effect.
pub fn set_custom_cursor() -> (r: Result<String, String>)
    ensures
        r matches Ok(m) && m@ == "Cursor set"@,
{
    Ok("Cursor set".to_owned())
}

/// Acknowledgement of a query hand-off to the backend, echoing the query
/// and the mode it runs under.
pub fn process_query(query: &str, mode: &str) -> (r: Result<String, String>)
    ensures
        r matches Ok(m) && m@ == "Processing query: "@ + query@ + " in mode: "@ + mode@,
{
    let mut s: String = concat_str("Processing query: ", query);
    append(&mut s, " in mode: ");
    append(&mut s, mode);
    Ok(s)
}

/// Acknowledgement of a settings save; the blob itself goes to the external
/// store untouched.
pub fn save_settings() -> (r: Result<String, String>)
    ensures
        r matches Ok(m) && m@ == "Settings saved"@,
{
    Ok("Settings saved".to_owned())
}

} // verus!
