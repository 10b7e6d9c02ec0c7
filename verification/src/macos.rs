//! The native-open adapter: the default handler on macOS is reached through
//! the system's built-in `open` command.

use vstd::prelude::*;

use crate::path_or_uri::display_view;
use crate::CommandSpec;
use crate::Error;
use crate::PathOrURI;

verus! {

/// Build the command that opens `target` in the default handler: the
/// built-in opener invoked on the target's display string. The opener is
/// existence-checked first, keeping error handling uniform with the other
/// adapters; when it is missing, the error names it.
pub fn open(target: &PathOrURI) -> (r: Result<CommandSpec, Error>)
    ensures
        r matches Ok(c) ==> c.program@ == "open"@ && c.args@.len() == 1 && c.args@[0]@
            == display_view(target@),
        r matches Err(e) ==> e matches Error::NotFound { exe, error } && exe@ == "open"@,
{
    crate::open_with_command("open", target)
}

} // verus!
