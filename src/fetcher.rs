use vstd::prelude::*;

use crate::content::{Charset, ContentType};
use crate::error::Error;
use crate::locator::{copy_without_slash, strip_slash, Url, CDX_HOST, WARC_HOST};

verus! {

/// The status code of a successful response.
pub const STATUS_OK: u16 = 200;

/// One GET request: the resource to fetch and the `Accept` header to send.
/// The transport that performs it hands its answer to `response_body`.
#[derive(Clone, Debug, PartialEq, Eq)]
pub struct Fetcher {
    pub url: Url,
    pub content_type: ContentType,
}

impl Fetcher {
    /// A JSON request for the root of the CDX host.
    pub fn new() -> (r: Fetcher)
        ensures
            r.url@ == (CDX_HOST@, Seq::<char>::empty()),
            r.content_type == ContentType::JSON,
    {
        Fetcher { url: Url::default(), content_type: ContentType::default() }
    }

    /// A request for `url` that asks for JSON.
    pub fn json_fetcher(url: Url) -> (r: Fetcher)
        ensures
            r.url == url,
            r.content_type == ContentType::JSON,
    {
        Fetcher { url, content_type: ContentType::default() }
    }

    /// A request for `url` that asks for plain text in `charset`.
    pub fn text_fetcher(url: Url, charset: Charset) -> (r: Fetcher)
        ensures
            r.url == url,
            r.content_type == (ContentType::TEXT { charset }),
    {
        Fetcher { url, content_type: ContentType::TEXT { charset } }
    }

    /// A request for an archive segment on the WARC host, asking for JSON;
    /// one leading `/` of `path` is dropped.
    pub fn archive_segment(path: &str) -> (r: Fetcher)
        ensures
            r.url@ == (WARC_HOST@, strip_slash(path@)),
            r.content_type == ContentType::JSON,
    {
        Fetcher::json_fetcher(Url::WARC { path: copy_without_slash(path) })
    }

    /// The URL string the request goes to.
    pub fn target(&self) -> (r: String)
        ensures
            r@ == crate::locator::render(self.url@),
    {
        self.url.to_string()
    }

    /// The value of the `Accept` header.
    pub fn accept(&self) -> (r: String)
        ensures
            r@ == self.content_type.text(),
    {
        self.content_type.to_string()
    }

    /// Takes the transport's answer: the body when the status is 200,
    /// else `UnexpectedStatus` with the status received.
    pub fn response_body(status: u16, body: Vec<u8>) -> (r: Result<Vec<u8>, Error>)
        ensures
            status == STATUS_OK ==> r == Ok::<Vec<u8>, Error>(body),
            status != STATUS_OK ==> r == Err::<Vec<u8>, Error>(Error::UnexpectedStatus(status)),
    {
        if status == STATUS_OK {
            Ok(body)
        } else {
            Err(Error::UnexpectedStatus(status))
        }
    }
}

impl Default for Fetcher {
    fn default() -> (r: Fetcher)
        ensures
            r.url@ == (CDX_HOST@, Seq::<char>::empty()),
            r.content_type == ContentType::JSON,
    {
        Fetcher::new()
    }
}

} // verus!
