use vstd::prelude::*;

use crate::wm_url::Url;

verus! {

/// What can go wrong while discovering, checking, sending or storing webmentions.
///
/// Transport failures carry the URL they happened on and the transport's own
/// description of the failure.
#[derive(Debug)]
pub enum WebmentionError {
    /// No endpoint was discovered for the URL.
    NoEndpointDiscovered(Url),
    /// The GET of a target page during endpoint discovery failed.
    DiscoveryRequestFailed { url: Url, source: Box<WebmentionError> },
    /// The POST of a webmention could not be sent.
    SendingRequestFailed { url: Url, reason: String },
    /// The body of a GET response could not be read.
    RequestFailedRecv { url: Url, reason: String },
    /// The form of a webmention could not be encoded.
    UnserializableForm { reason: String },
    /// The endpoint answered a POST with a status other than 200, 201 or 202.
    NotAccepted { endpoint: String, status_code: u16 },
    /// A GET could not be sent.
    RequestFailed { url: Url, reason: String },
    /// The storage backend failed.
    StorageError { source: Box<WebmentionError> },
    /// A `Link` header value does not follow the header grammar.
    InvalidLinkHeader(String),
    /// More redirects than the transport follows.
    TooManyRedirects { url: Url },
    /// A string that does not give a URL, on its own or against its base.
    UnparseableUrl { input: String },
    /// A document that could not be parsed.
    UnparseableDocument,
    /// The document holds no link to the URL looked for.
    NoDocumentLinks,
}

} // verus!
