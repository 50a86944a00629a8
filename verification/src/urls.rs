use vstd::prelude::*;

use crate::strs::str_eq;

verus! {

#[verifier::external_type_specification]
#[verifier::external_body]
pub struct ExUrl(url::Url);

/// Whether `url::Url::parse` accepts this string as an absolute URL.
pub uninterp spec fn url_parse_ok(s: Seq<char>) -> bool;

/// The serialization (`Url::as_str`) of the URL that `url::Url::parse`
/// returns for this string.
pub uninterp spec fn url_str_of(s: Seq<char>) -> Seq<char>;

/// The scheme (`Url::scheme`) of the URL whose serialization is the argument.
pub uninterp spec fn scheme_of(url_text: Seq<char>) -> Seq<char>;

/// Whether `Url::to_file_path` succeeds on the URL whose serialization is the
/// argument, i.e. whether the URL resolves to a local filesystem path.  On
/// the Unix-like desktop sessions this bridge runs on, that is a function of
/// the URL text alone.
pub uninterp spec fn local_path_ok(url_text: Seq<char>) -> bool;

/// Whether `url::Url::from_file_path` succeeds on this path.  On the
/// Unix-like desktop sessions this bridge runs on it succeeds exactly on
/// absolute paths, a function of the path text alone.
pub uninterp spec fn file_path_url_ok(path: Seq<char>) -> bool;

/// The serialization of the URL that `url::Url::from_file_path` returns for
/// this path.
pub uninterp spec fn file_url_of(path: Seq<char>) -> Seq<char>;

/// A URL from the url crate together with the text of its serialization.  A
/// `url::Url` is a wrapper around its serialization string, so the crate's
/// accessors are functions of that text; the two constructors below pin the
/// text down, and only they build a `UrlVal`.
pub struct UrlVal {
    u: url::Url,
    text: String,
}

impl UrlVal {
    /// The serialization text of the held URL.
    pub closed spec fn text(&self) -> Seq<char> {
        self.text@
    }

    /// The serialization text of the held URL, as an owned string.
    fn text_string(&self) -> (r: String)
        ensures
            r@ == self.text(),
    {
        self.text.clone()
    }
}

/// Relies on `url::Url::parse`: it accepts exactly the absolute-URL strings of
/// the WHATWG URL standard, and the returned value serializes to a normalized
/// form that depends on the input string alone.
#[verifier::external_body]
fn url_parse(s: &str) -> (r: Option<UrlVal>)
    ensures
        r is Some <==> url_parse_ok(s@),
        r matches Some(p) ==> p.text() == url_str_of(s@),
{
    match url::Url::parse(s) {
        Ok(u) => {
            let text = u.as_str().to_string();
            Some(UrlVal { u, text })
        },
        Err(_) => None,
    }
}

/// Relies on `url::Url::from_file_path`: on Unix-like platforms it succeeds
/// exactly on absolute paths, and the returned `file` URL depends on the path
/// alone.
#[verifier::external_body]
fn url_from_file_path(path: &str) -> (r: Option<UrlVal>)
    ensures
        r is Some <==> file_path_url_ok(path@),
        r matches Some(p) ==> p.text() == file_url_of(path@),
{
    match url::Url::from_file_path(path) {
        Ok(u) => {
            let text = u.as_str().to_string();
            Some(UrlVal { u, text })
        },
        Err(()) => None,
    }
}

/// Relies on `url::Url::scheme`: the scheme is a function of the URL's
/// serialization (its leading part up to the first `:`).
#[verifier::external_body]
fn url_scheme<'a>(p: &'a UrlVal) -> (r: &'a str)
    ensures
        r@ == scheme_of(p.text()),
{
    p.u.scheme()
}

/// Relies on `url::Url::to_file_path`: on Unix-like platforms, whether it
/// succeeds is a function of the URL's serialization.
#[verifier::external_body]
fn url_local_path_ok(p: &UrlVal) -> (r: bool)
    ensures
        r == local_path_ok(p.text()),
{
    p.u.to_file_path().is_ok()
}

/// A candidate line of the copied-files payload is used when it parses as a
/// URL whose scheme is `file` and which resolves to a local filesystem path.
pub open spec fn spec_valid_file_url(l: Seq<char>) -> bool {
    &&& url_parse_ok(l)
    &&& scheme_of(url_str_of(l)) == "file"@
    &&& local_path_ok(url_str_of(l))
}

/// Parse one candidate line of a copied-files payload: the normalized URL
/// text when the line is a valid local-file URL, and nothing otherwise.
pub fn try_file_url(line: &str) -> (r: Option<String>)
    ensures
        r is Some <==> spec_valid_file_url(line@),
        r matches Some(u) ==> u@ == url_str_of(line@),
{
    match url_parse(line) {
        None => None,
        Some(p) => {
            if !str_eq(url_scheme(&p), "file") {
                None
            } else if !url_local_path_ok(&p) {
                None
            } else {
                Some(p.text_string())
            }
        },
    }
}

/// The `file://` URL for a local path, as text; nothing when the path is not
/// absolute.
pub fn file_url_for_path(path: &str) -> (r: Option<String>)
    ensures
        r is Some <==> file_path_url_ok(path@),
        r matches Some(u) ==> u@ == file_url_of(path@),
{
    match url_from_file_path(path) {
        None => None,
        Some(p) => Some(p.text_string()),
    }
}

} // verus!
