use vstd::prelude::*;
use vstd::string::*;

use crate::error::Error;

verus! {

/// The host serving the CDX index.
pub const CDX_HOST: &'static str = "index.commoncrawl.org";

/// The host serving the WARC archive segments.
pub const WARC_HOST: &'static str = "commoncrawl.s3.amazonaws.com";

/// What parsing a URL string yields: `None` when it does not parse, else
/// the host (if the URL has one) and the path.
pub uninterp spec fn url_parts(s: Seq<char>) -> Option<(Option<Seq<char>>, Seq<char>)>;

pub open spec fn opt_view(h: Option<String>) -> Option<Seq<char>> {
    match h {
        Some(x) => Some(x@),
        None => None,
    }
}

/// Relies on `reqwest::Url::parse` (the `url` crate's parser) to decide
/// whether `s` is a URL, and on `host_str` and `path` of the parsed value;
/// all three depend on the string alone.
#[verifier::external_body]
fn parse_url(s: &str) -> (r: Option<(Option<String>, String)>)
    ensures
        match r {
            None => url_parts(s@).is_none(),
            Some((h, p)) => url_parts(s@) == Some((opt_view(h), p@)),
        },
{
    match reqwest::Url::parse(s) {
        Ok(u) => Some((u.host_str().map(String::from), String::from(u.path()))),
        Err(_) => None,
    }
}

/// Whether `h` is one of the two hosts a locator may name.
pub open spec fn is_known_host(h: Seq<char>) -> bool {
    h == CDX_HOST@ || h == WARC_HOST@
}

/// A path with one leading `/` removed, if it has one.
pub open spec fn strip_slash(p: Seq<char>) -> Seq<char> {
    if p.len() > 0 && p[0] == '/' {
        p.drop_first()
    } else {
        p
    }
}

/// The locator, as (host, path), that a host and a parsed path give.
pub open spec fn locate(h: Seq<char>, p: Seq<char>) -> Result<(Seq<char>, Seq<char>), Error> {
    if is_known_host(h) {
        Ok((h, strip_slash(p)))
    } else {
        Err(Error::InvalidDomain)
    }
}

/// The locator, as (host, path), that a string gives.
pub open spec fn locate_str(s: Seq<char>) -> Result<(Seq<char>, Seq<char>), Error> {
    match url_parts(s) {
        Some((Some(h), p)) => locate(h, p),
        _ => Err(Error::InvalidDomain),
    }
}

/// The URL string of a locator given as (host, path).
pub open spec fn render(v: (Seq<char>, Seq<char>)) -> Seq<char> {
    "https://"@ + v.0 + "/"@ + v.1
}

/// A resource on one of the two CommonCrawl hosts; the path is held
/// without its leading `/`.
#[derive(Clone, Debug, PartialEq, Eq)]
pub enum Url {
    CDX { path: String },
    WARC { path: String },
}

impl View for Url {
    type V = (Seq<char>, Seq<char>);

    open spec fn view(&self) -> (Seq<char>, Seq<char>) {
        match self {
            Url::CDX { path } => (CDX_HOST@, path@),
            Url::WARC { path } => (WARC_HOST@, path@),
        }
    }
}

pub open spec fn view_result(r: Result<Url, Error>) -> Result<(Seq<char>, Seq<char>), Error> {
    match r {
        Ok(u) => Ok(u@),
        Err(e) => Err(e),
    }
}

pub(crate) fn copy_without_slash(p: &str) -> (r: String)
    ensures
        r@ == strip_slash(p@),
{
    let n = p.unicode_len();
    if n > 0 && p.get_char(0) == '/' {
        String::from_str(p.substring_char(1, n))
    } else {
        String::from_str(p)
    }
}

impl Url {
    /// Renders `https://<host>/<path>`.
    pub fn to_string(&self) -> (r: String)
        ensures
            r@ == render(self@),
    {
        let mut r = String::from_str("https://");
        match self {
            Url::CDX { path } => {
                r.append(CDX_HOST);
                r.append("/");
                r.append(path.as_str());
            },
            Url::WARC { path } => {
                r.append(WARC_HOST);
                r.append("/");
                r.append(path.as_str());
            },
        }
        r
    }

    /// Builds a locator from a parsed host and path: the CDX locator for
    /// the CDX host, the WARC locator for the archive host, and
    /// `InvalidDomain` for any other host.
    pub fn from_host_path(host: &str, path: &str) -> (r: Result<Url, Error>)
        ensures
            view_result(r) == locate(host@, path@),
    {
        if crate::text::str_eq(host, CDX_HOST) {
            Ok(Url::CDX { path: copy_without_slash(path) })
        } else if crate::text::str_eq(host, WARC_HOST) {
            Ok(Url::WARC { path: copy_without_slash(path) })
        } else {
            Err(Error::InvalidDomain)
        }
    }

    /// Parses a URL string into a locator; a string that is not a URL, or
    /// whose host is neither known host, gives `InvalidDomain`.
    pub fn from_string(s: &str) -> (r: Result<Url, Error>)
        ensures
            view_result(r) == locate_str(s@),
    {
        match parse_url(s) {
            Some((Some(h), p)) => Url::from_host_path(h.as_str(), p.as_str()),
            _ => Err(Error::InvalidDomain),
        }
    }
}

impl Default for Url {
    fn default() -> (r: Url)
        ensures
            r@ == (CDX_HOST@, Seq::<char>::empty()),
    {
        Url::CDX { path: String::new() }
    }
}

/// A string whose host is a known one gives a locator on that host whose
/// path is the parsed path without its leading `/`; rendering it gives
/// back that host and path.
pub proof fn lemma_locator_keeps_host_and_path(s: Seq<char>, h: Seq<char>, p: Seq<char>)
    requires
        url_parts(s) == Some((Some(h), p)),
        is_known_host(h),
    ensures
        locate_str(s) == Ok::<(Seq<char>, Seq<char>), Error>((h, strip_slash(p))),
        render((h, strip_slash(p))) == "https://"@ + h + "/"@ + strip_slash(p),
        p.len() > 0 && p[0] == '/' ==> render((h, strip_slash(p))) =~= "https://"@ + h + p,
{
    if p.len() > 0 && p[0] == '/' {
        reveal_strlit("/");
        assert("/"@ + p.drop_first() =~= p);
        assert("https://"@ + h + "/"@ + p.drop_first() =~= "https://"@ + h + ("/"@ + p.drop_first()));
    }
}

/// A string that does not parse, or whose host is neither known host, is
/// refused with `InvalidDomain`.
pub proof fn lemma_unknown_host_refused(s: Seq<char>)
    requires
        !(url_parts(s) matches Some((Some(h), _)) && is_known_host(h)),
    ensures
        locate_str(s) == Err::<(Seq<char>, Seq<char>), Error>(Error::InvalidDomain),
{
}

} // verus!
