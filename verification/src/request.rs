//! A request as plain values, for a transport to send.

use vstd::prelude::*;

verus! {

/// A name with its value, both as sequences of characters.
pub type Pair = (Seq<char>, Seq<char>);

/// A GET request: the address, the query parameters and the headers, each
/// list in the order in which it is to be sent.
#[derive(Debug, PartialEq, Eq)]
pub struct Request {
    pub url: String,
    pub query: Vec<(&'static str, String)>,
    pub headers: Vec<(&'static str, String)>,
}

/// What a [`Request`] stands for.
pub struct RequestView {
    pub url: Seq<char>,
    pub query: Seq<Pair>,
    pub headers: Seq<Pair>,
}

impl View for Request {
    type V = RequestView;

    open spec fn view(&self) -> RequestView {
        RequestView {
            url: self.url@,
            query: self.query.deep_view(),
            headers: self.headers.deep_view(),
        }
    }
}

} // verus!
