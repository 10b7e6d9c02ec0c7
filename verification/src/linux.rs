//! The desktop-open adapter: the default handler on desktop Unix-like
//! systems is reached through the desktop-integration opener `xdg-open`.

use vstd::prelude::*;

use crate::path_or_uri::display_view;
use crate::CommandSpec;
use crate::Error;
use crate::PathOrURI;

verus! {

/// Build the command that opens `target` in the default handler: the
/// desktop opener invoked on the target's display string. The opener is
/// existence-checked first; when it is missing, the error names it.
pub fn open(target: &PathOrURI) -> (r: Result<CommandSpec, Error>)
    ensures
        r matches Ok(c) ==> c.program@ == "xdg-open"@ && c.args@.len() == 1 && c.args@[0]@
            == display_view(target@),
        r matches Err(e) ==> e matches Error::NotFound { exe, error } && exe@ == "xdg-open"@,
{
    crate::open_with_command("xdg-open", target)
}

} // verus!
