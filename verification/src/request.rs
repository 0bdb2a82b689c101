//! A request that the client has decided on, ready to be sent.
use vstd::prelude::*;

verus! {

/// The HTTP method of a request.
#[derive(Debug, Clone, Copy, PartialEq, Eq, Structural)]
pub enum Method {
    Get,
    Post,
    Delete,
}

/// Everything a transport needs to send one API call: the method, the full
/// URL, the query parameters in order, and the JSON body if there is one.
#[derive(Debug, Clone)]
pub struct Request {
    pub method: Method,
    pub url: String,
    pub query: Vec<(String, String)>,
    pub body: Option<String>,
}

/// The query parameters of a request, as text pairs.
pub type QueryView = Seq<(Seq<char>, Seq<char>)>;

impl Request {
    /// A request with no body.
    pub fn without_body(method: Method, url: String, query: Vec<(String, String)>) -> (r: Request)
        ensures
            r.method == method,
            r.url@ == url@,
            r.query.deep_view() == query.deep_view(),
            r.body is None,
    {
        Request { method, url, query, body: None }
    }
}

/// A single query pair made of two texts.
pub(crate) fn pair(name: &str, value: String) -> (p: (String, String))
    ensures
        p.0@ == name@,
        p.1@ == value@,
{
    (String::from_str(name), value)
}

} // verus!
