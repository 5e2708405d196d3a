//! HTTP exchanges as plain values.
use vstd::prelude::*;
use crate::json::{Json, JsonView};

verus! {

/// A request to be posted as JSON.
pub struct PlayerCall {
    /// Where it goes.
    pub url: &'static str,
    /// Header names and values, in order.
    pub headers: Vec<(&'static str, &'static str)>,
    /// The body.
    pub body: Json,
}

/// What a [`PlayerCall`] says.
pub struct PlayerCallView {
    /// Where it goes.
    pub url: Seq<char>,
    /// Header names and values, in order.
    pub headers: Seq<(Seq<char>, Seq<char>)>,
    /// The body.
    pub body: JsonView,
}

/// What a list of headers says.
pub open spec fn headers_view(headers: Seq<(&'static str, &'static str)>) -> Seq<
    (Seq<char>, Seq<char>),
> {
    headers.map_values(|h: (&'static str, &'static str)| (h.0@, h.1@))
}

impl View for PlayerCall {
    type V = PlayerCallView;

    open spec fn view(&self) -> PlayerCallView {
        PlayerCallView {
            url: self.url@,
            headers: headers_view(self.headers@),
            body: self.body@,
        }
    }
}

/// An empty list of headers.
pub open spec fn no_headers_view() -> Seq<(Seq<char>, Seq<char>)> {
    Seq::empty()
}

/// An empty list of headers.
pub fn no_headers() -> (headers: Vec<(&'static str, &'static str)>)
    ensures
        headers_view(headers@) == no_headers_view(),
{
    let headers: Vec<(&'static str, &'static str)> = Vec::new();
    assert(headers_view(headers@) =~= no_headers_view());
    headers
}

/// Adds a header to the end of a list of headers.
pub fn put_header(
    headers: &mut Vec<(&'static str, &'static str)>,
    name: &'static str,
    value: &'static str,
)
    ensures
        headers_view(final(headers)@) == headers_view(old(headers)@).push((name@, value@)),
{
    headers.push((name, value));
    assert(headers_view(headers@) =~= headers_view(old(headers)@).push((name@, value@)));
}

/// How a posted request ended.
pub enum Reply {
    /// No answer came; the text says why.
    Failed(String),
    /// An answer came with a status outside 200 to 299; the text is the status.
    Refused(String),
    /// An answer came with a status of 200 to 299 and this body.
    Body(Vec<u8>),
}

/// Whether an HTTP status reports success.
pub fn is_success(status: u16) -> (res: bool)
    ensures
        res == (200 <= status <= 299),
{
    200 <= status && status < 300
}

} // verus!
