//! Remote files: normalization of viewer links and derivation of file names.
use vstd::prelude::*;
use crate::text::{after_last, before_first, prefix_before, starts_with, suffix_after};

verus! {

/// The origin that relative links on the site are resolved against.
pub const SITE_ORIGIN: &'static str = "https://soyjak.st";

/// The start of a link to the site's in-page image viewer.
pub const VIEWER_PREFIX: &'static str = "https://soyjak.st/player.php?v=";

/// Why a download could not be carried out.
#[derive(Debug)]
pub enum FileError {
    /// The request or the reading of the response failed.
    NetworkError(String),
    /// The destination file could not be created or written.
    IOError(String),
    /// The response declared no content length.
    MissingContentLength,
    /// The link does not parse as an absolute URL.
    InvalidUrl,
    /// The link's path ends in no file name.
    NoFileName,
}

/// A remote resource to download.
#[derive(Debug)]
pub struct File {
    pub url: String,
}

/// The direct link for `u`: a viewer link becomes the site origin followed by
/// its `v=` value up to the first `&`; any other link is kept as it is.
pub open spec fn normalize_url(u: Seq<char>) -> Seq<char> {
    if VIEWER_PREFIX@.is_prefix_of(u) {
        SITE_ORIGIN@ + before_first(u.skip(VIEWER_PREFIX@.len() as int), '&')
    } else {
        u
    }
}

/// The file name that a URL path ends in: the text after its last `/`, or
/// nothing where the path does not start with `/`.
pub open spec fn file_name_of_path(p: Seq<char>) -> Seq<char> {
    if p.len() > 0 && p[0] == '/' {
        after_last(p, '/')
    } else {
        Seq::empty()
    }
}

/// Whether `r` is the outcome owed for a URL whose path is `path`: the file
/// name where there is one, `NoFileName` where it is empty.
pub open spec fn is_file_name_outcome(r: Result<String, FileError>, path: Seq<char>) -> bool {
    if file_name_of_path(path).len() == 0 {
        r matches Err(FileError::NoFileName)
    } else {
        r matches Ok(s) && s@ == file_name_of_path(path)
    }
}

/// Whether `r` is the outcome owed for the URL `url`.
pub open spec fn is_url_file_name_outcome(r: Result<String, FileError>, url: Seq<char>) -> bool {
    match parsed_url_path(url) {
        None => r matches Err(FileError::InvalidUrl),
        Some(p) => is_file_name_outcome(r, p),
    }
}

/// The path of the absolute URL that `s` parses to, or `None` where it does not parse.
pub uninterp spec fn parsed_url_path(s: Seq<char>) -> Option<Seq<char>>;

#[verifier::external_type_specification]
#[verifier::external_body]
pub struct ExParseError(url::ParseError);

/// Relies on url::Url::parse, whose outcome depends on the text alone, and on
/// url::Url::path for the path of the parsed URL.
#[verifier::external_body]
fn parse_url_path(s: &str) -> (r: Result<String, url::ParseError>)
    ensures
        r matches Ok(p) ==> parsed_url_path(s@) == Some(p@),
        r is Err ==> parsed_url_path(s@) is None,
{
    url::Url::parse(s).map(|u| u.path().to_string())
}

/// A viewer link whose `v=` value `v` is followed by `&` and further parameters
/// `w` is rewritten to the site origin followed by `v`; a link that does not
/// start like a viewer link is kept unchanged.
pub proof fn lemma_viewer_link_normalized(v: Seq<char>, w: Seq<char>, other: Seq<char>)
    requires
        forall|j: int| 0 <= j < v.len() ==> v[j] != '&',
        !VIEWER_PREFIX@.is_prefix_of(other),
    ensures
        normalize_url(VIEWER_PREFIX@ + v + "&"@ + w) == SITE_ORIGIN@ + v,
        normalize_url(other) == other,
{
    reveal_strlit("&");
    let u = VIEWER_PREFIX@ + v + "&"@ + w;
    let rest = u.skip(VIEWER_PREFIX@.len() as int);
    assert(VIEWER_PREFIX@.is_prefix_of(u)) by {
        assert(VIEWER_PREFIX@ =~= u.subrange(0, VIEWER_PREFIX@.len() as int));
    }
    assert(rest =~= v + "&"@ + w);
    crate::text::lemma_before_first_take(rest, '&', v.len() as int);
    assert(rest.take(v.len() as int) =~= v);
}

impl File {
    /// A file for `url`, with viewer links rewritten to the direct resource.
    pub fn new(url: String) -> (r: File)
        ensures
            r.url@ == normalize_url(url@),
    {
        if starts_with(url.as_str(), VIEWER_PREFIX) {
            let n = url.as_str().unicode_len();
            let m = VIEWER_PREFIX.unicode_len();
            let rest = url.as_str().substring_char(m, n);
            assert(rest@ =~= url@.skip(VIEWER_PREFIX@.len() as int));
            let value = prefix_before(rest, '&');
            File { url: String::from_str(SITE_ORIGIN).concat(value) }
        } else {
            File { url }
        }
    }

    /// The file name for a URL path, or `NoFileName` where it is empty.
    pub fn file_name_from_path(path: &str) -> (r: Result<String, FileError>)
        ensures
            is_file_name_outcome(r, path@),
    {
        if path.unicode_len() > 0 && path.get_char(0) == '/' {
            let name = suffix_after(path, '/');
            if name.unicode_len() == 0 {
                Err(FileError::NoFileName)
            } else {
                Ok(String::from_str(name))
            }
        } else {
            Err(FileError::NoFileName)
        }
    }

    /// The file name that a URL ends in: the last segment of its path.
    pub fn url_to_filename(url: &String) -> (r: Result<String, FileError>)
        ensures
            is_url_file_name_outcome(r, url@),
    {
        match parse_url_path(url.as_str()) {
            Ok(path) => File::file_name_from_path(path.as_str()),
            Err(_) => Err(FileError::InvalidUrl),
        }
    }

    /// The file name that this file is saved under.
    pub fn file_name(&self) -> (r: Result<String, FileError>)
        ensures
            is_url_file_name_outcome(r, self.url@),
    {
        File::url_to_filename(&self.url)
    }
}

} // verus!
