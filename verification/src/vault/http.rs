//! Requests and replies as plain values.
//!
//! The keeper says what is to be sent and judges what came back.  Sending,
//! and reading the JSON of a reply into values, is the driver's part.

use crate::vault::json::json_members;
use vstd::prelude::*;

verus! {

/// A POST request with a JSON object as its body.
#[derive(Debug)]
pub struct HttpRequest {
    pub url: String,
    /// Header names and values, in the order in which they are set.
    pub headers: Vec<(String, String)>,
    /// The JSON object that is sent.
    pub body: serde_json::Map<String, serde_json::Value>,
}

/// An [`HttpRequest`] as sequences of characters.
pub struct HttpRequestView {
    pub url: Seq<char>,
    pub headers: Seq<(Seq<char>, Seq<char>)>,
    /// The members of the body, as [`json_members`] gives them.
    pub body: Map<Seq<char>, Option<Seq<char>>>,
}

/// A list of pairs of texts, as sequences of characters.
pub open spec fn pairs_view(pairs: Seq<(String, String)>) -> Seq<(Seq<char>, Seq<char>)> {
    pairs.map_values(|p: (String, String)| (p.0@, p.1@))
}

impl View for HttpRequest {
    type V = HttpRequestView;

    open spec fn view(&self) -> HttpRequestView {
        HttpRequestView {
            url: self.url@,
            headers: pairs_view(self.headers@),
            body: json_members(self.body),
        }
    }
}

/// What became of a request.
#[derive(Debug)]
pub enum HttpReply<T> {
    /// No answer came; `reason` says why.
    Unsent { reason: String },
    /// An answer came, with its status code, its status line in words, its
    /// body as text, and the body read as a `T` or the reason why that failed.
    Answered { code: u16, status: String, body: String, decoded: Result<T, String> },
}

/// Whether a status code reports success: one of the two hundreds.
pub open spec fn is_success(code: u16) -> bool {
    200 <= code < 300
}

/// Whether a status code reports success.
pub fn status_is_success(code: u16) -> (yes: bool)
    ensures
        yes == is_success(code),
{
    200 <= code && code < 300
}

/// Adds a pair of texts to a list.
pub fn push_pair(pairs: &mut Vec<(String, String)>, name: &str, value: &str)
    ensures
        pairs_view(final(pairs)@) == pairs_view(old(pairs)@).push((name@, value@)),
{
    let ghost before = pairs@;
    pairs.push((name.to_owned(), value.to_owned()));
    assert(pairs_view(pairs@) =~= pairs_view(before).push((name@, value@)));
}

} // verus!
