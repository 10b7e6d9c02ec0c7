//! Build commands that open a path or URI in the system's default handler,
//! or in a handler the caller chose through an override value.

use vstd::prelude::*;

pub mod linux;
pub mod macos;
pub mod path_or_uri;
pub mod windows;

pub use path_or_uri::PathOrURI;
pub use path_or_uri::Uri;

use path_or_uri::display_view;

verus! {

/// Why an executable lookup on the search path failed. The variants mirror
/// the error cases of the which crate's lookup.
#[derive(Debug, Clone, Copy, PartialEq, Eq, Structural)]
pub enum LookupError {
    /// No executable of that name was found.
    CannotFindBinaryPath,
    /// There was nowhere to search and the name was not an absolute path.
    CannotGetCurrentDirAndPathListEmpty,
    /// The path that was found could not be canonicalized.
    CannotCanonicalize,
}

/// Errors that may occur while resolving a command.
#[derive(Debug)]
pub enum Error {
    /// A file path could not be converted to a URI. Carries the offending
    /// path.
    FileToURI(String),
    /// An I/O error occurred while looking up the working directory.
    IO(std::io::Error),
    /// A required executable was not found on the search path.
    NotFound {
        /// The program that could not be found.
        exe: String,
        /// The error returned by the lookup.
        error: LookupError,
    },
}

/// The error type of `std::io`, carried opaquely inside [`Error::IO`].
#[verifier::external_type_specification]
#[verifier::external_body]
pub struct ExIoError(std::io::Error);

/// A command descriptor: a program name and its ordered argument list.
/// It is pure data; the caller decides whether and how to run it.
#[derive(Debug)]
pub struct CommandSpec {
    /// The program to invoke.
    pub program: String,
    /// The arguments, in order.
    pub args: Vec<String>,
}

impl CommandSpec {
    /// A descriptor for `program` invoked with the single argument `arg`.
    pub fn single_arg(program: String, arg: String) -> (r: CommandSpec)
        ensures
            r.program@ == program@,
            r.args@.len() == 1,
            r.args@[0]@ == arg@,
    {
        let mut args: Vec<String> = Vec::new();
        args.push(arg);
        CommandSpec { program, args }
    }
}

/// Relies on `which::which`: looks the name up on the search path and on the
/// other places that crate documents. The outcome depends on the machine's
/// state, so nothing is promised of it; the error cases are mapped to
/// [`LookupError`], one arm each.
#[verifier::external_body]
fn which_lookup(cmd: &str) -> Result<(), LookupError> {
    match which::which(cmd) {
        Ok(_) => Ok(()),
        Err(which::Error::CannotFindBinaryPath) => Err(LookupError::CannotFindBinaryPath),
        Err(which::Error::CannotGetCurrentDirAndPathListEmpty) => Err(
            LookupError::CannotGetCurrentDirAndPathListEmpty,
        ),
        Err(which::Error::CannotCanonicalize) => Err(LookupError::CannotCanonicalize),
    }
}

/// Check that an executable named `cmd` is resolvable on the search path.
/// Whether the check passes depends on the machine; when it fails, the
/// error names exactly the program that was looked up.
fn ensure_command(cmd: &str) -> (r: Result<(), Error>)
    ensures
        r matches Err(e) ==> e matches Error::NotFound { exe, error } && exe@ == cmd@,
{
    match which_lookup(cmd) {
        Ok(()) => Ok(()),
        Err(error) => Err(Error::NotFound { exe: cmd.to_owned(), error }),
    }
}

/// Build the command `cmd` with the target's display string as its single
/// argument, after checking that `cmd` exists on the search path. Whatever
/// the existence check decides, the program named in the outcome is `cmd`:
/// on success the descriptor runs `cmd` on the target's display string, on
/// failure the error names `cmd`.
fn open_with_command(cmd: &str, target: &PathOrURI) -> (r: Result<CommandSpec, Error>)
    ensures
        r matches Ok(c) ==> c.program@ == cmd@ && c.args@.len() == 1 && c.args@[0]@
            == display_view(target@),
        r matches Err(e) ==> e matches Error::NotFound { exe, error } && exe@ == cmd@,
{
    match ensure_command(cmd) {
        Ok(()) => Ok(CommandSpec::single_arg(cmd.to_owned(), target.to_display_string())),
        Err(e) => Err(e),
    }
}

/// The program that a resolution will name: the override value when one is
/// given and non-empty, the desktop opener bound into this build otherwise.
pub open spec fn resolved_program(override_cmd: Option<&String>) -> Seq<char> {
    match override_cmd {
        Some(cmd) => if cmd@.len() > 0 {
            cmd@
        } else {
            "xdg-open"@
        },
        None => "xdg-open"@,
    }
}

/// Resolve a target and an optional override value into a command
/// descriptor.
///
/// `override_cmd` is the value of the caller's override environment
/// variable, or `None` when that variable is unset or was not consulted.
/// Only a non-empty value is an override: an empty one does not name an
/// executable and counts as unset. With an override, the command is built
/// from it directly; it is never silently replaced by the platform default,
/// so a missing override executable fails with [`Error::NotFound`] naming
/// the override. Without one, resolution delegates to the platform adapter
/// bound into this build, the desktop opener, which makes the same
/// existence check for its own program.
pub fn resolve(target: &PathOrURI, override_cmd: Option<&String>) -> (r: Result<
    CommandSpec,
    Error,
>)
    ensures
        r matches Ok(c) ==> c.program@ == resolved_program(override_cmd) && c.args@.len() == 1
            && c.args@[0]@ == display_view(target@),
        r matches Err(e) ==> e matches Error::NotFound { exe, error } && exe@ == resolved_program(
            override_cmd,
        ),
{
    match override_cmd {
        Some(cmd) => {
            if cmd.as_str().is_empty() {
                linux::open(target)
            } else {
                open_with_command(cmd.as_str(), target)
            }
        },
        None => linux::open(target),
    }
}

/// Open the target in the default system handler of this build's platform,
/// the desktop opener. No override value is consulted; for that, use
/// [`open_browser`] or [`open_editor`].
pub fn open(target: &PathOrURI) -> (r: Result<CommandSpec, Error>)
    ensures
        r matches Ok(c) ==> c.program@ == "xdg-open"@ && c.args@.len() == 1 && c.args@[0]@
            == display_view(target@),
        r matches Err(e) ==> e matches Error::NotFound { exe, error } && exe@ == "xdg-open"@,
{
    linux::open(target)
}

/// Open the target in the caller's preferred web browser, or in the default
/// system handler when no preference is set.
///
/// `browser` is the value of the browser override variable, conventionally
/// `BROWSER`, read by the caller; `None` stands for an unset variable, and
/// an empty value counts as unset too.
pub fn open_browser(target: &PathOrURI, browser: Option<&String>) -> (r: Result<
    CommandSpec,
    Error,
>)
    ensures
        r matches Ok(c) ==> c.program@ == resolved_program(browser) && c.args@.len() == 1
            && c.args@[0]@ == display_view(target@),
        r matches Err(e) ==> e matches Error::NotFound { exe, error } && exe@ == resolved_program(
            browser,
        ),
{
    resolve(target, browser)
}

/// Open the target in the caller's preferred text editor, or in the default
/// system handler when no preference is set.
///
/// `editor` is the value of the editor override variable, conventionally
/// `EDITOR`, read by the caller; `None` stands for an unset variable, and
/// an empty value counts as unset too.
pub fn open_editor(target: &PathOrURI, editor: Option<&String>) -> (r: Result<
    CommandSpec,
    Error,
>)
    ensures
        r matches Ok(c) ==> c.program@ == resolved_program(editor) && c.args@.len() == 1
            && c.args@[0]@ == display_view(target@),
        r matches Err(e) ==> e matches Error::NotFound { exe, error } && exe@ == resolved_program(
            editor,
        ),
{
    resolve(target, editor)
}

} // verus!
