//! The question that is put to a feed.

use vstd::prelude::*;
use crate::mode::{feed_of, RefreshMode};

verus! {

/// The header that carries the client's version.
pub const VERSION_HEADER: &'static str = "client-version";

/// The version that the client reports.
pub const CLIENT_VERSION: &'static str = "0.1.0";

/// The header that carries the device identifier.
pub const DEVICE_HEADER: &'static str = "client-device-uuid";

/// A header's name and value.
#[derive(Debug, PartialEq, Eq)]
pub struct Header {
    pub name: String,
    pub value: String,
}

/// A GET request: the address and the headers, in the order in which they
/// are set.
#[derive(Debug, PartialEq, Eq)]
pub struct FeedRequest {
    pub url: String,
    pub headers: Vec<Header>,
}

/// The question to the feed of `mode` on behalf of the device `device`:
/// the feed's address, the client's version and the device identifier.
/// `Off` has no feed and so no question.
pub fn feed_request(mode: RefreshMode, device: &str) -> (request: Option<FeedRequest>)
    ensures
        request is Some <==> mode != RefreshMode::Off,
        request matches Some(question) ==> {
            &&& feed_of(mode) == Some(question.url@)
            &&& question.headers@.len() == 2
            &&& question.headers@[0].name@ == VERSION_HEADER@
            &&& question.headers@[0].value@ == CLIENT_VERSION@
            &&& question.headers@[1].name@ == DEVICE_HEADER@
            &&& question.headers@[1].value@ == device@
        },
{
    match mode.feed_url() {
        None => None,
        Some(url) => {
            let mut headers: Vec<Header> = Vec::new();
            headers.push(
                Header {
                    name: String::from_str(VERSION_HEADER),
                    value: String::from_str(CLIENT_VERSION),
                },
            );
            headers.push(
                Header { name: String::from_str(DEVICE_HEADER), value: String::from_str(device) },
            );
            Some(FeedRequest { url: String::from_str(url), headers })
        },
    }
}

} // verus!
