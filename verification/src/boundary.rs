//! The boundary entry points' verifiable half: validate the buffers the
//! host hands over and seed the navigation state. A missing buffer (a
//! null pointer at the process boundary) or one that is not valid UTF-8
//! is an immediate failure: nothing is started, nothing is seeded.

use vstd::prelude::*;
use vstd::utf8::{decode_utf8, valid_utf8};
use crate::nav::{init_model, NavigationState};

verus! {

/// The sentinel location a view started from literal content reports.
pub open spec fn localhost_url() -> Seq<char> {
    "http://localhost/"@
}

/// Seed a session from literal content, with the location fixed to the
/// sentinel. `None` stands for a null buffer at the process boundary;
/// it fails, as does content that is not valid UTF-8, and only then.
pub fn prepare_static_session(content: Option<Vec<u8>>) -> (r: Option<NavigationState>)
    ensures
        r is Some <==> (content matches Some(bytes) && valid_utf8(bytes@)),
        r matches Some(state) ==> (content matches Some(bytes) && state@ == init_model(
            decode_utf8(bytes@),
            localhost_url(),
        )),
{
    match content {
        None => None,
        Some(bytes) => match core::str::from_utf8(bytes.as_slice()) {
            Ok(html) => Some(NavigationState::new(html.to_owned(), "http://localhost/".to_owned())),
            Err(_) => None,
        },
    }
}

/// Seed a session already positioned at a given location. Either buffer
/// missing (null at the process boundary) or undecodable is an immediate
/// failure, and nothing else is.
pub fn prepare_navigate_session(content: Option<Vec<u8>>, location: Option<Vec<u8>>) -> (r:
    Option<NavigationState>)
    ensures
        r is Some <==> (content matches Some(html_bytes) && valid_utf8(html_bytes@) && (
        location matches Some(url_bytes) && valid_utf8(url_bytes@))),
        r matches Some(state) ==> (content matches Some(html_bytes)
            && location matches Some(url_bytes) && state@ == init_model(
            decode_utf8(html_bytes@),
            decode_utf8(url_bytes@),
        )),
{
    let content_bytes = match content {
        Some(bytes) => bytes,
        None => {
            return None;
        },
    };
    let location_bytes = match location {
        Some(bytes) => bytes,
        None => {
            return None;
        },
    };
    let html = match core::str::from_utf8(content_bytes.as_slice()) {
        Ok(html) => html,
        Err(_) => {
            return None;
        },
    };
    let url = match core::str::from_utf8(location_bytes.as_slice()) {
        Ok(url) => url,
        Err(_) => {
            return None;
        },
    };
    Some(NavigationState::new(html.to_owned(), url.to_owned()))
}

} // verus!
