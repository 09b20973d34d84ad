use vstd::prelude::*;

use crate::error::Error;

verus! {

/// A list of name/value pairs, as text.
pub type PairsView = Seq<(Seq<char>, Seq<char>)>;

/// The text of each pair in `v`.
pub open spec fn pairs_view(v: Seq<(String, String)>) -> PairsView {
    v.map_values(|p: (String, String)| (p.0@, p.1@))
}

/// The HTTP methods this client uses.
#[derive(Clone, Copy, Debug, PartialEq, Eq, Structural)]
pub enum Method {
    Get,
    Post,
}

/// An outbound request, described as data: the caller's transport carries it
/// out, with the timeout if one is given.
#[derive(Debug)]
pub struct HttpRequest {
    pub method: Method,
    pub url: String,
    pub headers: Vec<(String, String)>,
    /// Form-encoded body fields; empty when the request has no body.
    pub form: Vec<(String, String)>,
    pub timeout_ms: Option<u64>,
}

/// What a request is, as text.
pub struct RequestView {
    pub method: Method,
    pub url: Seq<char>,
    pub headers: PairsView,
    pub form: PairsView,
    pub timeout_ms: Option<u64>,
}

impl View for HttpRequest {
    type V = RequestView;

    open spec fn view(&self) -> RequestView {
        RequestView {
            method: self.method,
            url: self.url@,
            headers: pairs_view(self.headers@),
            form: pairs_view(self.form@),
            timeout_ms: self.timeout_ms,
        }
    }
}

/// A response as received: its status code and its body text.
#[derive(Debug)]
pub struct HttpResponse {
    pub status: u16,
    pub body: String,
}

/// Whether `status` reports success.
pub open spec fn is_success(status: u16) -> bool {
    200 <= status <= 299
}

/// Classifies a response: one with a success status is handed back as it
/// came; any other becomes `RequestFailed` with its status and body.
pub fn check_response(resp: HttpResponse) -> (r: Result<HttpResponse, Error>)
    ensures
        is_success(resp.status) ==> r == Ok::<HttpResponse, Error>(resp),
        !is_success(resp.status) ==> r == Err::<HttpResponse, Error>(
            Error::RequestFailed { status: resp.status, body: resp.body },
        ),
{
    if 200 <= resp.status && resp.status <= 299 {
        Ok(resp)
    } else {
        Err(Error::RequestFailed { status: resp.status, body: resp.body })
    }
}

/// A name/value pair holding copies of the given texts.
pub fn pair(name: &str, value: &str) -> (r: (String, String))
    ensures
        r.0@ == name@,
        r.1@ == value@,
{
    (name.to_owned(), value.to_owned())
}

} // verus!
