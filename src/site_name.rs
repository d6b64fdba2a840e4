//! The target site: an absolute URL whose path stands for the status code
//! that a check of the site reports.

use vstd::prelude::*;

use crate::request::RequestError;

verus! {

/// The error of `url::Url::parse`: opaque here, and mapped at once to a
/// site-name error.
#[verifier::external_type_specification]
#[verifier::external_body]
pub struct ExParseError(url::ParseError);

/// What `url::Url::parse` makes of a text: the URL's serialization, its
/// path and its host, or `None` where the text is no absolute URL.
pub uninterp spec fn parsed_url(s: Seq<char>) -> Option<(Seq<char>, Seq<char>, Option<Seq<char>>)>;

/// The plain parts of a parsed URL that the library reads.
pub struct UrlParts {
    pub serialization: String,
    pub path: String,
    pub host: Option<String>,
}

/// The view of an optional string.
pub open spec fn opt_view(o: Option<String>) -> Option<Seq<char>> {
    match o {
        Some(h) => Some(h@),
        None => None,
    }
}

impl View for UrlParts {
    type V = (Seq<char>, Seq<char>, Option<Seq<char>>);

    open spec fn view(&self) -> (Seq<char>, Seq<char>, Option<Seq<char>>) {
        (self.serialization@, self.path@, opt_view(self.host))
    }
}

/// Relies on `url::Url::parse`, read through `Url::as_str` (the
/// serialization, which is also what `Display` writes), `Url::path` and
/// the `Display` of `Url::host`: parsing depends on the text alone.
#[verifier::external_body]
fn parse_url(s: &str) -> (r: Result<UrlParts, url::ParseError>)
    ensures
        r is Ok <==> parsed_url(s@) is Some,
        r is Ok ==> parsed_url(s@) == Some(r->Ok_0@),
{
    match url::Url::parse(s) {
        Ok(u) => Ok(UrlParts {
            serialization: u.as_str().to_string(),
            path: u.path().to_string(),
            host: u.host().map(|h| h.to_string()),
        }),
        Err(e) => Err(e),
    }
}

/// The status code that a URL path stands for: empty (success) for the
/// path `/200` and for an empty path, else the path without its first
/// character, the leading `/`.
pub open spec fn status_code_of(path: Seq<char>) -> Seq<char> {
    if path == seq!['/', '2', '0', '0'] || path.len() == 0 {
        Seq::empty()
    } else {
        path.subrange(1, path.len() as int)
    }
}

/// A site given by an absolute URL.
pub struct SiteName {
    value: UrlParts,
}

impl View for SiteName {
    type V = (Seq<char>, Seq<char>, Option<Seq<char>>);

    /// The URL's serialization, path and host.
    closed spec fn view(&self) -> (Seq<char>, Seq<char>, Option<Seq<char>>) {
        self.value@
    }
}

impl SiteName {
    /// Parses `value` as an absolute URL; fails with a site-name error where
    /// it is none.
    pub fn try_from(value: String) -> (r: Result<SiteName, RequestError>)
        ensures
            r is Ok <==> parsed_url(value@) is Some,
            r is Ok ==> parsed_url(value@) == Some(r->Ok_0@),
            r is Err ==> r->Err_0 == RequestError::SiteNameError,
    {
        match parse_url(value.as_str()) {
            Ok(parts) => Ok(SiteName { value: parts }),
            Err(_) => Err(RequestError::SiteNameError),
        }
    }

    /// The simulated status code, decoded from the URL's path: empty for
    /// success.
    pub fn get_error_code(&self) -> (r: String)
        ensures
            r@ == status_code_of(self@.1),
    {
        let path = self.value.path.as_str();
        let n = path.unicode_len();
        if n == 0 {
            return String::new();
        }
        if n == 4 && path.get_char(0) == '/' && path.get_char(1) == '2' && path.get_char(2) == '0'
            && path.get_char(3) == '0' {
            assert(path@ =~= seq!['/', '2', '0', '0']);
            return String::new();
        }
        assert(path@ != seq!['/', '2', '0', '0']);
        String::from_str(path.substring_char(1, n))
    }

    /// Whether the URL has a host.
    pub fn has_host(&self) -> (r: bool)
        ensures
            r == (self@.2 is Some),
    {
        self.value.host.is_some()
    }

    /// The URL's host name.
    pub fn get_host_name(&self) -> (r: String)
        requires
            self@.2 is Some,
        ensures
            r@ == self@.2->0,
    {
        self.value.host.as_ref().unwrap().clone()
    }

    /// The full URL, as displayed.
    pub fn to_string(&self) -> (r: String)
        ensures
            r@ == self@.0,
    {
        self.value.serialization.clone()
    }
}

} // verus!
