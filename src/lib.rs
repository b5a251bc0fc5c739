//! Sending and receiving webmentions: notifications that one page (the source)
//! links to another (the target).
//!
//! The library holds the logic of the protocol: the `Link` header grammar, the
//! extraction of links and endpoint candidates from HTML, endpoint discovery, the
//! redirect rule of the transport, and the send and receive flows. Each flow is a
//! function from what was fetched to what to do next, so that the caller performs
//! the network requests and the library decides.

pub mod checking;
pub mod endpoint_discovery;
pub mod error;
pub mod html;
pub mod http_client;
pub mod link_header;
pub mod receiving;
pub mod sending;
pub mod storage;
pub mod text;
pub mod webmention;
pub mod wm_url;

pub use crate::error::WebmentionError;
pub use crate::receiving::receive_webmention;
pub use crate::webmention::Webmention;
pub use crate::wm_url::Url;
