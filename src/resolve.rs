//! From a user-supplied path or `file:` URL to the canonical path of an existing file.
use vstd::prelude::*;

use crate::error::{ErrorView, MarkdownViewerError};

verus! {

/// The scheme of `input` read as an absolute URL, lower-cased; `None` when it
/// does not parse as one.
pub uninterp spec fn url_scheme_of(input: Seq<char>) -> Option<Seq<char>>;

/// The local path that `input`, read as a URL, names; `None` when it does not
/// parse or names no local path (on Unix, a host other than `localhost`; on
/// Windows a host gives a `\\host` path instead).
pub uninterp spec fn url_file_path_of(input: Seq<char>) -> Option<Seq<char>>;

/// The path part of `input` read as an absolute URL; `None` when it does not
/// parse as one.
pub uninterp spec fn url_path_of(input: Seq<char>) -> Option<Seq<char>>;

/// Relies on `url::Url::parse` and `Url::path`.
#[verifier::external_body]
fn parse_url_path(input: &str) -> (r: Option<String>)
    ensures
        match r {
            Some(p) => url_path_of(input@) == Some(p@),
            None => url_path_of(input@) is None,
        },
{
    url::Url::parse(input).ok().map(|u| u.path().to_string())
}

pub open spec fn is_ascii_letter(c: char) -> bool {
    ('a' <= c && c <= 'z') || ('A' <= c && c <= 'Z')
}

/// A URL path that is a drive and nothing more: `/C:`, `/C|` or `/C%3A`.
/// On Windows such a URL would name the relative path `C:`.
pub open spec fn is_bare_drive(path: Seq<char>) -> bool {
    &&& path.len() >= 3
    &&& path[0] == '/'
    &&& is_ascii_letter(path[1])
    &&& {
        ||| path.len() == 3 && (path[2] == ':' || path[2] == '|')
        ||| path.len() == 5 && path[2] == '%' && path[3] == '3' && (path[4] == 'a' || path[4]
            == 'A')
    }
}

/// Whether a URL path is a drive and nothing more.
fn is_bare_drive_text(path: &str) -> (r: bool)
    ensures
        r == is_bare_drive(path@),
{
    let n = path.unicode_len();
    if n != 3 && n != 5 {
        return false;
    }
    let c1 = path.get_char(1);
    if path.get_char(0) != '/' || !(('a' <= c1 && c1 <= 'z') || ('A' <= c1 && c1 <= 'Z')) {
        return false;
    }
    let c2 = path.get_char(2);
    if n == 3 {
        c2 == ':' || c2 == '|'
    } else {
        let c4 = path.get_char(4);
        c2 == '%' && path.get_char(3) == '3' && (c4 == 'a' || c4 == 'A')
    }
}

/// Relies on `url::Url::parse` and `Url::scheme`. An input that starts with
/// `/` never parses: the parser wants an ASCII letter first.
#[verifier::external_body]
fn parse_url_scheme(input: &str) -> (r: Option<String>)
    ensures
        match r {
            Some(s) => url_scheme_of(input@) == Some(s@),
            None => url_scheme_of(input@) is None,
        },
        input@.len() > 0 && input@[0] == '/' ==> r is None,
{
    url::Url::parse(input).ok().map(|u| u.scheme().to_string())
}

/// Relies on `url::Url::parse` and `Url::to_file_path`, whose path is read
/// back as text (`to_string_lossy`). The path it gives is never a `file:` URL
/// itself: on Unix it begins with `/` (a `/` is pushed before each segment),
/// which no URL scheme does; on Windows it begins with a drive letter and `:`,
/// a one-letter scheme, or with `\\`, which no URL scheme does.
/// A bare drive (`file:///C:`) is kept away: on Windows its path comes out
/// relative, which a debug assertion of the crate refuses.
#[verifier::external_body]
fn url_to_file_path(input: &str) -> (r: Option<String>)
    requires
        url_path_of(input@) matches Some(p) ==> !is_bare_drive(p),
    ensures
        match r {
            Some(p) => url_file_path_of(input@) == Some(p@),
            None => url_file_path_of(input@) is None,
        },
        r matches Some(p) ==> url_scheme_of(p@) != Some("file"@),
{
    url::Url::parse(input).ok().and_then(|u| u.to_file_path().ok()).map(
        |p| p.to_string_lossy().into_owned(),
    )
}

pub open spec fn is_file_url(input: Seq<char>) -> bool {
    url_scheme_of(input) == Some("file"@)
}

/// Whether `input` is a URL with the `file` scheme.
pub fn is_file_url_text(input: &str) -> (r: bool)
    ensures
        r == is_file_url(input@),
{
    match parse_url_scheme(input) {
        Some(s) => s == String::from_str("file"),
        None => false,
    }
}

/// The filesystem path an input stands for: the path of a `file:` URL, or the
/// input itself; `None` for a `file:` URL that names no local path or only a
/// drive.
pub open spec fn path_of_input(input: Seq<char>) -> Option<Seq<char>> {
    if is_file_url(input) {
        if url_path_of(input) matches Some(p) && is_bare_drive(p) {
            None
        } else {
            url_file_path_of(input)
        }
    } else {
        Some(input)
    }
}

/// The filesystem path that `path_input` stands for; a `file:` URL without a
/// local path, or naming only a drive, is a file that cannot be found.
pub fn path_from_input(path_input: &str) -> (r: Result<String, MarkdownViewerError>)
    ensures
        match path_of_input(path_input@) {
            Some(p) => r matches Ok(s) && s@ == p,
            None => r matches Err(e) && e@ == ErrorView::FileNotFound(path_input@),
        },
        is_file_url(path_input@) ==> (r matches Ok(s) ==> !is_file_url(s@)),
{
    if is_file_url_text(path_input) {
        let bare_drive = match parse_url_path(path_input) {
            Some(path) => is_bare_drive_text(path.as_str()),
            None => false,
        };
        if bare_drive {
            return Err(MarkdownViewerError::FileNotFound(path_input.to_owned()));
        }
        match url_to_file_path(path_input) {
            Some(p) => Ok(p),
            None => Err(MarkdownViewerError::FileNotFound(path_input.to_owned())),
        }
    } else {
        Ok(path_input.to_owned())
    }
}

/// What the filesystem reported when asked to canonicalize a path.
#[derive(Debug, Clone)]
pub enum CanonicalProbe {
    /// The path resolved; `is_file` tells whether it names a regular file.
    Resolved { canonical: String, is_file: bool },
    /// Nothing exists at the path.
    NotFound,
    /// Any other failure, with the system's reason.
    Failed { reason: String },
}

/// The outcome `canonicalize_existing_path` gives for `path` and a probe.
pub open spec fn existing_path_outcome(path: Seq<char>, probe: CanonicalProbe) -> Result<
    Seq<char>,
    ErrorView,
> {
    match probe {
        CanonicalProbe::Resolved { canonical, is_file } => if is_file {
            Ok(canonical@)
        } else {
            Err(ErrorView::FileNotFound(path))
        },
        CanonicalProbe::NotFound => Err(ErrorView::FileNotFound(path)),
        CanonicalProbe::Failed { reason } => Err(ErrorView::ReadFile { path, reason: reason@ }),
    }
}

pub open spec fn result_view(r: Result<String, MarkdownViewerError>) -> Result<
    Seq<char>,
    ErrorView,
> {
    match r {
        Ok(s) => Ok(s@),
        Err(e) => Err(e@),
    }
}

/// The canonical path of an existing regular file, decided from what the
/// filesystem reported for `path`: a missing path or one that is not a regular
/// file (a directory) is not found; any other failure keeps its reason.
pub fn canonicalize_existing_path(path: &str, probe: CanonicalProbe) -> (r: Result<
    String,
    MarkdownViewerError,
>)
    ensures
        result_view(r) == existing_path_outcome(path@, probe),
{
    match probe {
        CanonicalProbe::Resolved { canonical, is_file } => {
            if is_file {
                Ok(canonical)
            } else {
                Err(MarkdownViewerError::FileNotFound(path.to_owned()))
            }
        },
        CanonicalProbe::NotFound => Err(MarkdownViewerError::FileNotFound(path.to_owned())),
        CanonicalProbe::Failed { reason } => Err(
            MarkdownViewerError::ReadFile { path: path.to_owned(), reason },
        ),
    }
}

/// The outcome of resolving `input` when the filesystem answers `probe` for
/// the path it stands for.
pub open spec fn resolve_outcome(input: Seq<char>, probe: CanonicalProbe) -> Result<
    Seq<char>,
    ErrorView,
> {
    match path_of_input(input) {
        Some(p) => existing_path_outcome(p, probe),
        None => Err(ErrorView::FileNotFound(input)),
    }
}

/// Resolves a plain path or `file:` URL to the canonical path of an existing
/// regular file. `probe` asks the filesystem about the path the input stands
/// for; it is called at most once, and not at all for a `file:` URL without a
/// local path.
pub fn resolve_path_input<F: Fn(&str) -> CanonicalProbe>(path_input: &str, probe: &F) -> (r: Result<
    String,
    MarkdownViewerError,
>)
    requires
        forall|p: &str| #[trigger] probe.requires((p,)),
    ensures
        path_of_input(path_input@) is None ==> result_view(r) == resolve_outcome(
            path_input@,
            CanonicalProbe::NotFound,
        ),
        path_of_input(path_input@) is Some ==> exists|p: &str, answer: CanonicalProbe|
            p@ == path_of_input(path_input@)->Some_0 && #[trigger] probe.ensures((p,), answer)
                && result_view(r) == resolve_outcome(path_input@, answer),
{
    match path_from_input(path_input) {
        Err(e) => Err(e),
        Ok(path) => {
            let p = path.as_str();
            let answer = probe(p);
            let ghost answered = answer;
            let r = canonicalize_existing_path(p, answer);
            assert(probe.ensures((p,), answered));
            r
        },
    }
}

/// Resolving a `file:` URL and resolving the plain path it names hand the
/// same path to the filesystem, so one filesystem answer gives both the same
/// outcome. `path_from_input` ensures the path a `file:` URL names is plain.
pub proof fn lemma_file_url_resolves_like_its_path(
    uri: Seq<char>,
    path: Seq<char>,
    probe: CanonicalProbe,
)
    requires
        is_file_url(uri),
        path_of_input(uri) == Some(path),
        !is_file_url(path),
    ensures
        path_of_input(uri) == path_of_input(path),
        resolve_outcome(uri, probe) == resolve_outcome(path, probe),
{
}

} // verus!
