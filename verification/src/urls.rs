//! URI and URL handling: the outside views the library relies on (validity
//! and path extraction per RFC 3986 from the `iri-string` crate, absolute-URL
//! parsing and relative resolution from the `url` crate), and a verified
//! helper for protocol-relative references.
use vstd::prelude::*;
use vstd::string::StringExecFns;

verus! {

/// Try to make an input a https url: a protocol-relative `//` reference
/// gets the `https:` scheme, anything else is returned as it came.
pub fn make_https(url: &str) -> (r: String)
    ensures
        r@ == if crate::strutil::starts_with(url@, "//"@) {
            "https:"@ + url@
        } else {
            url@
        },
{
    if crate::strutil::str_starts_with(url, "//") {
        "https:".to_owned().concat(url)
    } else {
        url.to_owned()
    }
}

/// Whether `s` matches the RFC 3986 `URI-reference` grammar.
pub uninterp spec fn uri_reference_valid(s: Seq<char>) -> bool;

/// The path component of the URI reference `s`.
pub uninterp spec fn uri_path(s: Seq<char>) -> Seq<char>;

/// What `url`'s parser makes of the text `s`: the normalized form of an
/// absolute URL, or nothing.
pub uninterp spec fn url_parse(s: Seq<char>) -> Option<Seq<char>>;

/// The resolution of the reference `rel` against the absolute URL `base`,
/// or nothing where the resolution fails.
pub uninterp spec fn url_join(base: Seq<char>, rel: Seq<char>) -> Option<Seq<char>>;

/// Relies on iri_string's `UriReferenceStr::new`, which accepts exactly the
/// RFC 3986 `URI-reference` grammar.
#[verifier::external_body]
pub(crate) fn check_uri_reference(s: &str) -> (r: bool)
    ensures
        r == uri_reference_valid(s@),
{
    iri_string::types::UriReferenceStr::new(s).is_ok()
}

/// Relies on iri_string's `UriReferenceStr::path_str`: the path component of
/// a valid URI reference, a pure function of the text.
#[verifier::external_body]
pub(crate) fn uri_path_str(s: &str) -> (r: String)
    requires
        uri_reference_valid(s@),
    ensures
        r@ == uri_path(s@),
{
    match iri_string::types::UriReferenceStr::new(s) {
        Ok(u) => u.path_str().to_owned(),
        Err(_) => String::new(),
    }
}

/// Relies on url's `Url::parse`: the normalized text of the absolute URL
/// that `s` names, a pure function of the text.
#[verifier::external_body]
pub(crate) fn parse_url(s: &str) -> (r: Option<String>)
    ensures
        r is Some <==> url_parse(s@) is Some,
        r matches Some(u) ==> url_parse(s@) == Some(u@),
{
    match url::Url::parse(s) {
        Ok(u) => Some(u.as_str().to_owned()),
        Err(_) => None,
    }
}

/// Relies on url's `Url::join` (with `Url::parse` converting the base):
/// standard relative-URL resolution, a pure function of the two texts.
#[verifier::external_body]
pub(crate) fn join_url(base: &str, rel: &str) -> (r: Option<String>)
    ensures
        r is Some <==> url_join(base@, rel@) is Some,
        r matches Some(u) ==> url_join(base@, rel@) == Some(u@),
{
    match url::Url::parse(base) {
        Ok(b) => match b.join(rel) {
            Ok(u) => Some(u.as_str().to_owned()),
            Err(_) => None,
        },
        Err(_) => None,
    }
}

} // verus!
