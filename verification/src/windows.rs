//! The shell-start adapter: the default handler on Windows is reached
//! through the command shell's `start` verb, run without waiting. The
//! target is passed in its URI form, not its display string: the shell
//! built-in behaves more predictably with URI-shaped arguments than with
//! raw paths.
//!
//! Path handling throughout this crate models Unix-family path syntax
//! (`/`-rooted absolutes); a build for a real Windows host would also have
//! to model drive-letter absolutes, which this one does not.

use vstd::prelude::*;

use crate::path_or_uri::to_uri_view;
use crate::CommandSpec;
use crate::Error;
use crate::PathOrURI;

verus! {

/// Build the command that opens `target` in the default handler: the shell
/// invoked with its run-and-don't-wait flags and the target's URI form,
/// converted against the working directory `cwd`. The shell is
/// existence-checked first; a target whose URI conversion fails is
/// reported as [`Error::FileToURI`], carrying the offending path, with no
/// raw-path fallback.
pub fn open(target: &PathOrURI, cwd: &str) -> (r: Result<CommandSpec, Error>)
    ensures
        r matches Ok(c) ==> to_uri_view(target@, cwd@) matches Ok(u) && c.program@ == "cmd"@
            && c.args@.len() == 3 && c.args@[0]@ == "/c"@ && c.args@[1]@ == "start"@ && c.args@[2]@
            == u.serialized,
        r matches Err(e) ==> (e matches Error::NotFound { exe, error } && exe@ == "cmd"@) || (
        e matches Error::FileToURI(p) && to_uri_view(target@, cwd@) matches Err(q) && p@ == q),
{
    match crate::ensure_command("cmd") {
        Ok(()) => {},
        Err(e) => {
            return Err(e);
        },
    }
    let uri = match target.uri(cwd) {
        Ok(u) => u,
        Err(e) => {
            return Err(e);
        },
    };
    let mut args: Vec<String> = Vec::new();
    args.push("/c".to_owned());
    args.push("start".to_owned());
    args.push(uri.as_str().to_owned());
    Ok(CommandSpec { program: "cmd".to_owned(), args })
}

} // verus!
