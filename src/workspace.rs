//! The workspace manifest that lies beside each document and names the
//! module it belongs to.
use tower_lsp::lsp_types::Url;
use vstd::prelude::*;

verus! {

/// A document URI as the editor sends it; opaque here.
#[verifier::external_type_specification]
#[verifier::external_body]
pub struct ExUrl(Url);

/// The file name of the manifest, looked up in the directory of the document.
pub const MANIFEST_FILE_NAME: &'static str = ".hms.toml";

/// What the manifest states of the document's module.
#[derive(Clone, Debug)]
pub struct HomescriptMetadata {
    pub id: String,
    pub is_driver: bool,
}

/// Why the workspace context of a document could not be resolved.
#[derive(Clone, Debug)]
pub enum ContextError {
    /// The document is not a local file.
    InvalidPath,
    /// The manifest could not be read; the text says why, for the log.
    ManifestMissing(String),
    /// The manifest could not be parsed or lacks a required field; the text
    /// says why, for the log.
    ManifestInvalid(String),
}

/// The length of the directory part of a path: everything up to and
/// including its last '/', or nothing when it has none.
pub open spec fn dir_prefix_len(s: Seq<char>) -> int
    decreases s.len(),
{
    if s.len() == 0 {
        0
    } else if s.last() == '/' {
        s.len() as int
    } else {
        dir_prefix_len(s.drop_last())
    }
}

/// The length of a path without its trailing '/' characters.
pub open spec fn trimmed_len(s: Seq<char>) -> int
    decreases s.len(),
{
    if s.len() == 0 {
        0
    } else if s.last() == '/' {
        trimmed_len(s.drop_last())
    } else {
        s.len() as int
    }
}

/// The manifest path for a document. Trailing '/' characters are ignored and
/// the last component is replaced by the manifest's file name; a path made of
/// '/' alone, or an empty one, gets the name appended.
pub open spec fn manifest_path_of(s: Seq<char>) -> Seq<char> {
    let t = s.subrange(0, trimmed_len(s));
    if t.len() == 0 {
        s + MANIFEST_FILE_NAME@
    } else {
        t.subrange(0, dir_prefix_len(t)) + MANIFEST_FILE_NAME@
    }
}

/// The path of the manifest that belongs to the document at `document_path`:
/// the document's file name replaced by the manifest's.
pub fn manifest_path(document_path: &str) -> (r: String)
    ensures
        r@ == manifest_path_of(document_path@),
{
    let n = document_path.unicode_len();
    let ghost s = document_path@;
    let mut j: usize = n;
    assert(s.subrange(0, n as int) =~= s);
    while j > 0
        invariant
            j <= n,
            n == s.len(),
            s == document_path@,
            trimmed_len(s) == trimmed_len(s.subrange(0, j as int)),
        ensures
            j == 0 || s[j - 1] != '/',
            trimmed_len(s) == trimmed_len(s.subrange(0, j as int)),
        decreases j,
    {
        if document_path.get_char(j - 1) != '/' {
            assert(s.subrange(0, j as int).last() != '/');
            break;
        }
        assert(s.subrange(0, j as int).drop_last() =~= s.subrange(0, j - 1));
        j = j - 1;
    }
    proof {
        if j == 0 {
            assert(s.subrange(0, 0).len() == 0);
        } else {
            assert(s.subrange(0, j as int).last() == s[j - 1]);
        }
        assert(trimmed_len(s) == j);
    }
    if j == 0 {
        let mut r = String::from_str(document_path);
        r.append(MANIFEST_FILE_NAME);
        return r;
    }
    let ghost t = s.subrange(0, j as int);
    let mut i: usize = j;
    assert(t.subrange(0, j as int) =~= t);
    while i > 0
        invariant
            i <= j,
            j <= n,
            n == s.len(),
            s == document_path@,
            t == s.subrange(0, j as int),
            dir_prefix_len(t) == dir_prefix_len(t.subrange(0, i as int)),
        ensures
            i == 0 || t[i - 1] == '/',
            dir_prefix_len(t) == dir_prefix_len(t.subrange(0, i as int)),
        decreases i,
    {
        if document_path.get_char(i - 1) == '/' {
            assert(t.subrange(0, i as int).last() == '/');
            break;
        }
        assert(t.subrange(0, i as int).drop_last() =~= t.subrange(0, i - 1));
        i = i - 1;
    }
    proof {
        if i == 0 {
            assert(t.subrange(0, 0).len() == 0);
        } else {
            assert(t.subrange(0, i as int).last() == t[i - 1]);
        }
        assert(dir_prefix_len(t) == i);
        assert(t.subrange(0, i as int) =~= s.subrange(0, i as int));
    }
    let mut r = String::from_str(document_path.substring_char(0, i));
    r.append(MANIFEST_FILE_NAME);
    r
}

/// The message that an unresolved workspace context is reported with; the
/// cause that a failure carries is not part of it.
pub open spec fn context_message(e: ContextError) -> Seq<char> {
    match e {
        ContextError::InvalidPath => "index workspace: invalid document file path"@,
        ContextError::ManifestMissing(_) => "index workspace: read .hms.toml"@,
        ContextError::ManifestInvalid(_) => "index workspace: invalid workspace file .hms.toml"@,
    }
}

impl ContextError {
    /// The message that this failure is reported with.
    pub fn message(&self) -> (r: String)
        ensures
            r@ == context_message(*self),
    {
        match self {
            ContextError::InvalidPath => String::from_str(
                "index workspace: invalid document file path",
            ),
            ContextError::ManifestMissing(_) => String::from_str("index workspace: read .hms.toml"),
            ContextError::ManifestInvalid(_) => String::from_str(
                "index workspace: invalid workspace file .hms.toml",
            ),
        }
    }
}

/// Relies on url's `Url::to_file_path`, re-exported by tower-lsp: the file
/// path of the URI, absent when it has no path segments or a host other than
/// `localhost` (its scheme is not checked). A path that is not UTF-8 cannot be
/// held as a `String` and is absent too.
#[verifier::external_body]
fn document_file_path(uri: &Url) -> Option<String> {
    match uri.to_file_path() {
        Ok(path) => path.to_str().map(String::from),
        Err(()) => None,
    }
}

/// The manifest for a document whose local file path is `document_path`:
/// an invalid path when there is none.
pub fn manifest_location_of(document_path: Option<String>) -> (r: Result<String, ContextError>)
    ensures
        match document_path {
            None => r matches Err(ContextError::InvalidPath),
            Some(p) => r matches Ok(m) && m@ == manifest_path_of(p@),
        },
{
    match document_path {
        None => Err(ContextError::InvalidPath),
        Some(p) => Ok(manifest_path(p.as_str())),
    }
}

/// The manifest for the document at `uri`: the manifest path beside the
/// document's local file, or an invalid path when the URI names no local file.
pub fn manifest_location(uri: &Url) -> (r: Result<String, ContextError>)
    ensures
        r matches Err(e) ==> e is InvalidPath,
        r matches Ok(m) ==> exists|p: Seq<char>| m@ == manifest_path_of(p),
{
    manifest_location_of(document_file_path(uri))
}

} // verus!
