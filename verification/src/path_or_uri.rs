//! The target model: a local file path or a remote URI, normalized from
//! raw strings, path values or parsed URIs.

use vstd::prelude::*;
use vstd::string::StrSliceExecFns;
use vstd::string::StringExecFns;

use crate::Error;

verus! {

// ---------------------------------------------------------------------------
// Names for what the url and path-clean crates compute.
//
// URI parsing, URI serialization and lexical path cleaning are functions of
// their argument alone, but their exact value would take pages to state, so
// each is given a name here and the trusted wrappers below relate the real
// calls to these names.
// ---------------------------------------------------------------------------

/// Whether `url::Url::parse` accepts `s` as an absolute URI.
pub uninterp spec fn uri_parses(s: Seq<char>) -> bool;

/// The scheme that `url::Url::scheme` reports for the parse of `s`.
pub uninterp spec fn uri_scheme(s: Seq<char>) -> Seq<char>;

/// The path component that `url::Url::path` reports for the parse of `s`.
pub uninterp spec fn uri_path(s: Seq<char>) -> Seq<char>;

/// The serialization that `url::Url::as_str` reports for the parse of `s`.
pub uninterp spec fn uri_string(s: Seq<char>) -> Seq<char>;

/// The result of `path_clean::clean` on `s`: `.` and `..` elements and
/// redundant separators collapsed, lexically.
pub uninterp spec fn cleaned(s: Seq<char>) -> Seq<char>;

/// Whether `url::Url::from_file_path` accepts `s` (on this family of
/// systems: whether `s` is an absolute path).
pub uninterp spec fn file_uri_ok(s: Seq<char>) -> bool;

/// The path component of the `file:` URI that `url::Url::from_file_path`
/// builds from `s`.
pub uninterp spec fn file_uri_path(s: Seq<char>) -> Seq<char>;

/// The serialization of the `file:` URI that `url::Url::from_file_path`
/// builds from `s`.
pub uninterp spec fn file_uri_str(s: Seq<char>) -> Seq<char>;

// ---------------------------------------------------------------------------
// Views.
// ---------------------------------------------------------------------------

/// The mathematical content of a parsed URI: its scheme, its path component
/// and its full serialization, as character sequences.
pub struct UriView {
    /// The scheme, without the trailing `:`.
    pub scheme: Seq<char>,
    /// The path component.
    pub path: Seq<char>,
    /// The whole serialized URI.
    pub serialized: Seq<char>,
}

/// A well-formed URI view: the serialization is what the url crate produced,
/// so it parses back to the same scheme, path and serialization.
pub open spec fn uri_view_wf(u: UriView) -> bool {
    &&& uri_parses(u.serialized)
    &&& uri_scheme(u.serialized) == u.scheme
    &&& uri_path(u.serialized) == u.path
    &&& uri_string(u.serialized) == u.serialized
}

/// The mathematical content of a target: a path or a URI.
pub enum TargetView {
    /// A local file path.
    Path(Seq<char>),
    /// A remote URI.
    Uri(UriView),
}

// ---------------------------------------------------------------------------
// A parsed URI, as plain values.
// ---------------------------------------------------------------------------

/// A parsed URI, holding the parts of a `url::Url` that this library reads:
/// the scheme, the path component and the serialization.
///
/// Values are only created by the url crate, through [`Uri::parse`] or
/// through path-to-URI conversion, so every `Uri` is well formed in the
/// sense of [`uri_view_wf`].
#[derive(Debug)]
pub struct Uri {
    scheme: String,
    path: String,
    serialized: String,
}

impl View for Uri {
    type V = UriView;

    closed spec fn view(&self) -> UriView {
        UriView { scheme: self.scheme@, path: self.path@, serialized: self.serialized@ }
    }
}

impl Uri {
    /// Well-formedness: the stored parts agree with re-parsing the stored
    /// serialization. This is the url crate's documented normalization
    /// guarantee: a `Url`'s serialization parses back to an equal `Url`.
    /// The two trusted constructors below are trusted to establish it.
    #[verifier::type_invariant]
    spec fn wf(self) -> bool {
        uri_view_wf(self@)
    }

    /// Parse `s` as an absolute URI, through `url::Url::parse`.
    pub fn parse(s: &str) -> (r: Option<Uri>)
        ensures
            r is Some <==> uri_parses(s@),
            r matches Some(u) ==> u@ == (UriView {
                scheme: uri_scheme(s@),
                path: uri_path(s@),
                serialized: uri_string(s@),
            }),
    {
        parse_uri_raw(s)
    }

    /// The scheme, without the trailing `:`.
    pub fn scheme(&self) -> (r: &String)
        ensures
            r@ == self@.scheme,
    {
        &self.scheme
    }

    /// The path component.
    pub fn path(&self) -> (r: &String)
        ensures
            r@ == self@.path,
    {
        &self.path
    }

    /// The serialization.
    pub fn as_str(&self) -> (r: &str)
        ensures
            r@ == self@.serialized,
    {
        self.serialized.as_str()
    }
}

impl Clone for Uri {
    fn clone(&self) -> (r: Self)
        ensures
            r@ == self@,
    {
        proof {
            use_type_invariant(self);
        }
        Uri {
            scheme: self.scheme.clone(),
            path: self.path.clone(),
            serialized: self.serialized.clone(),
        }
    }
}

impl PartialEq for Uri {
    fn eq(&self, other: &Self) -> (r: bool) {
        self.scheme == other.scheme && self.path == other.path
            && self.serialized == other.serialized
    }
}

impl vstd::std_specs::cmp::PartialEqSpecImpl for Uri {
    open spec fn obeys_eq_spec() -> bool {
        true
    }

    open spec fn eq_spec(&self, other: &Self) -> bool {
        self@ == other@
    }
}

// ---------------------------------------------------------------------------
// Trusted wrappers around the url and path-clean crates.
// ---------------------------------------------------------------------------

/// Relies on `url::Url::parse`, and on `Url::scheme`, `Url::path` and
/// `Url::as_str` for the parts of the parsed value. Parsing depends on the
/// input alone; the result's parts are recorded under the names above, and
/// the stored serialization satisfies [`uri_view_wf`] by the url crate's
/// normalization guarantee.
#[verifier::external_body]
fn parse_uri_raw(s: &str) -> (r: Option<Uri>)
    ensures
        r is Some <==> uri_parses(s@),
        r matches Some(u) ==> u@ == (UriView {
            scheme: uri_scheme(s@),
            path: uri_path(s@),
            serialized: uri_string(s@),
        }),
{
    match url::Url::parse(s) {
        Ok(u) => Some(Uri {
            scheme: u.scheme().to_string(),
            path: u.path().to_string(),
            serialized: String::from(u),
        }),
        Err(_) => None,
    }
}

/// Relies on `path_clean::clean`: a lexical transform of the path string
/// alone, with no filesystem access. Cleaning is idempotent — the result
/// has no collapsible `.`, `..` or doubled-separator elements left, so
/// cleaning it again changes nothing — which the second clause records.
#[verifier::external_body]
fn clean_path(s: &String) -> (r: String)
    ensures
        r@ == cleaned(s@),
        cleaned(r@) == r@,
{
    path_clean::clean(s.as_str()).to_string_lossy().into_owned()
}

/// Relies on `url::Url::from_file_path`: succeeds exactly on paths it can
/// represent (absolute paths, on this family of systems), and then yields a
/// URI with scheme `file`. Only an already cleaned path may be handed in:
/// `from_file_path` copies path segments literally, so a `.` or `..`
/// segment would survive into the serialization and be collapsed again on
/// re-parsing, and only for a cleaned path does the result satisfy
/// [`uri_view_wf`], the url crate's normalization guarantee.
#[verifier::external_body]
fn file_uri_raw(path: &String) -> (r: Option<Uri>)
    requires
        cleaned(path@) == path@,
    ensures
        r is Some <==> file_uri_ok(path@),
        r matches Some(u) ==> u@ == (UriView {
            scheme: "file"@,
            path: file_uri_path(path@),
            serialized: file_uri_str(path@),
        }),
{
    match url::Url::from_file_path(path.as_str()) {
        Ok(u) => Some(Uri {
            scheme: u.scheme().to_string(),
            path: u.path().to_string(),
            serialized: String::from(u),
        }),
        Err(()) => None,
    }
}

// ---------------------------------------------------------------------------
// The target model.
// ---------------------------------------------------------------------------

/// A local file path or a remote URI.
///
/// A `URI` value never has scheme `file`: construction from a URI collapses
/// a `file:` URI into its path component.
#[derive(Debug)]
pub enum PathOrURI {
    /// A local file path: possibly relative, possibly uncleaned.
    Path(String),
    /// A URI whose scheme is not `file`.
    URI(Uri),
}

impl View for PathOrURI {
    type V = TargetView;

    open spec fn view(&self) -> TargetView {
        match self {
            PathOrURI::Path(p) => TargetView::Path(p@),
            PathOrURI::URI(u) => TargetView::Uri(u@),
        }
    }
}

/// What construction from a URI yields: the `file:` collapse rule.
pub open spec fn from_uri_view(u: UriView) -> TargetView {
    if u.scheme == "file"@ {
        TargetView::Path(u.path)
    } else {
        TargetView::Uri(u)
    }
}

/// What construction from a raw string yields: the string's parse as a URI
/// when it has one, with the `file:` collapse applied, and the whole string
/// as a path otherwise.
pub open spec fn parse_view(s: Seq<char>) -> TargetView {
    if uri_parses(s) {
        from_uri_view(
            UriView { scheme: uri_scheme(s), path: uri_path(s), serialized: uri_string(s) },
        )
    } else {
        TargetView::Path(s)
    }
}

/// The display string of a target: the path itself, or the URI's
/// serialization.
pub open spec fn display_view(t: TargetView) -> Seq<char> {
    match t {
        TargetView::Path(p) => p,
        TargetView::Uri(u) => u.serialized,
    }
}

/// Joining a possibly relative path onto a working directory, as
/// `std::path::PathBuf::join` does: an absolute path stands alone, a
/// relative one is appended behind a single separator.
pub open spec fn joined_with(cwd: Seq<char>, p: Seq<char>) -> Seq<char> {
    if p.len() > 0 && p[0] == '/' {
        p
    } else if cwd.len() == 0 {
        p
    } else if cwd[cwd.len() - 1] == '/' {
        cwd + p
    } else {
        cwd + "/"@ + p
    }
}

/// The URI form of a target, given the working directory: a held URI stands
/// unchanged; a path is joined onto the working directory, cleaned, and
/// turned into a `file:` URI. `Err` carries the original, unjoined path
/// when that conversion is impossible.
pub open spec fn to_uri_view(t: TargetView, cwd: Seq<char>) -> Result<UriView, Seq<char>> {
    match t {
        TargetView::Uri(u) => Ok(u),
        TargetView::Path(p) => {
            let cl = cleaned(joined_with(cwd, p));
            if file_uri_ok(cl) {
                Ok(
                    UriView {
                        scheme: "file"@,
                        path: file_uri_path(cl),
                        serialized: file_uri_str(cl),
                    },
                )
            } else {
                Err(p)
            }
        },
    }
}

/// A remote URI survives a display/parse round trip: parsing the serialized
/// form of a well-formed URI whose scheme is not `file` yields the same
/// remote URI again.
pub proof fn lemma_remote_display_reparse(u: UriView)
    requires
        uri_view_wf(u),
        u.scheme != "file"@,
    ensures
        parse_view(u.serialized) == TargetView::Uri(u),
{
    assert(UriView {
        scheme: uri_scheme(u.serialized),
        path: uri_path(u.serialized),
        serialized: uri_string(u.serialized),
    } == u);
}

impl PathOrURI {
    /// Normalize a raw string: its URI parse when it has one (with the
    /// `file:` collapse), the whole string as a path otherwise. Total: every
    /// string yields a target.
    pub fn parse(s: &str) -> (r: PathOrURI)
        ensures
            r@ == parse_view(s@),
            !uri_parses(s@) ==> r@ == TargetView::Path(s@),
    {
        match parse_uri_raw(s) {
            Some(u) => PathOrURI::from_uri(u),
            None => PathOrURI::Path(s.to_owned()),
        }
    }

    /// Normalize a path value: always a `Path` target.
    pub fn from_path(p: String) -> (r: PathOrURI)
        ensures
            r@ == TargetView::Path(p@),
    {
        PathOrURI::Path(p)
    }

    /// Normalize a parsed URI: a `file:` URI collapses into its path
    /// component, any other URI is held unchanged.
    pub fn from_uri(u: Uri) -> (r: PathOrURI)
        ensures
            r@ == from_uri_view(u@),
            u@.scheme == "file"@ ==> r@ == TargetView::Path(u@.path),
            u@.scheme != "file"@ ==> r@ == TargetView::Uri(u@),
            r@ is Uri ==> parse_view(display_view(r@)) == r@,
    {
        let file: String = "file".to_owned();
        if u.scheme == file {
            let Uri { path, .. } = u;
            PathOrURI::Path(path)
        } else {
            proof {
                use_type_invariant(&u);
                lemma_remote_display_reparse(u@);
            }
            PathOrURI::URI(u)
        }
    }

    /// Whether this target is a local path.
    pub fn is_path(&self) -> (r: bool)
        ensures
            r == (self@ is Path),
    {
        match self {
            PathOrURI::Path(_) => true,
            PathOrURI::URI(_) => false,
        }
    }

    /// Whether this target is a remote URI. Construction collapses `file:`
    /// URIs into paths, so this is false for them.
    pub fn is_uri(&self) -> (r: bool)
        ensures
            r == (self@ is Uri),
    {
        match self {
            PathOrURI::Path(_) => false,
            PathOrURI::URI(_) => true,
        }
    }

    /// The target as one human- and shell-readable string: the path itself,
    /// or the URI's serialization.
    pub fn to_display_string(&self) -> (r: String)
        ensures
            r@ == display_view(self@),
    {
        match self {
            PathOrURI::Path(p) => p.clone(),
            PathOrURI::URI(u) => u.serialized.clone(),
        }
    }

    /// The target as a URI, given the current working directory `cwd`: a
    /// held URI is returned unchanged; a path is joined onto `cwd` when
    /// relative, lexically cleaned, and converted to a `file:` URI. Fails
    /// with [`Error::FileToURI`], carrying the original path, when the
    /// cleaned result cannot be represented as a URI.
    pub fn uri(&self, cwd: &str) -> (r: Result<Uri, Error>)
        ensures
            match to_uri_view(self@, cwd@) {
                Ok(u) => r matches Ok(x) && x@ == u,
                Err(p) => r matches Err(e) && e matches Error::FileToURI(q) && q@ == p,
            },
    {
        match self {
            PathOrURI::URI(u) => Ok(u.clone()),
            PathOrURI::Path(p) => {
                let joined = join_path(cwd, p);
                let cl = clean_path(&joined);
                match file_uri_raw(&cl) {
                    Some(u) => Ok(u),
                    None => Err(Error::FileToURI(p.clone())),
                }
            },
        }
    }
}

impl Clone for PathOrURI {
    fn clone(&self) -> (r: Self)
        ensures
            r@ == self@,
    {
        match self {
            PathOrURI::Path(p) => PathOrURI::Path(p.clone()),
            PathOrURI::URI(u) => PathOrURI::URI(u.clone()),
        }
    }
}

impl PartialEq for PathOrURI {
    fn eq(&self, other: &Self) -> (r: bool) {
        match (self, other) {
            (PathOrURI::Path(a), PathOrURI::Path(b)) => *a == *b,
            (PathOrURI::URI(a), PathOrURI::URI(b)) => *a == *b,
            _ => false,
        }
    }
}

impl vstd::std_specs::cmp::PartialEqSpecImpl for PathOrURI {
    open spec fn obeys_eq_spec() -> bool {
        true
    }

    open spec fn eq_spec(&self, other: &Self) -> bool {
        self@ == other@
    }
}

/// Join a possibly relative path onto the working directory, as
/// `std::path::PathBuf::join` does.
fn join_path(cwd: &str, p: &String) -> (r: String)
    ensures
        r@ == joined_with(cwd@, p@),
{
    let plen = p.as_str().unicode_len();
    if plen > 0 && p.as_str().get_char(0) == '/' {
        p.clone()
    } else {
        let clen = cwd.unicode_len();
        if clen == 0 {
            p.clone()
        } else {
            let mut joined = cwd.to_owned();
            if cwd.get_char(clen - 1) != '/' {
                joined.append("/");
            }
            joined.append(p.as_str());
            joined
        }
    }
}

} // verus!
