//! The HTTP client that requests go through, with the User-Agent it was built with.
use vstd::prelude::*;

verus! {

/// `reqwest`'s asynchronous HTTP client, carried unopened.
#[verifier::external_type_specification]
#[verifier::external_body]
pub struct ExHttpClient(reqwest::Client);

/// `reqwest`'s builder of HTTP clients, carried unopened.
#[verifier::external_type_specification]
#[verifier::external_body]
pub struct ExHttpClientBuilder(reqwest::ClientBuilder);

/// `Clone` of `reqwest::Client`; the copy shares the connection pool of the
/// client it was made from. Nothing is claimed of the copy.
pub assume_specification[ <reqwest::Client as Clone>::clone ](client: &reqwest::Client) -> reqwest::Client;

/// Whether a character may stand in an HTTP header value: a tab, or any
/// character from the space on except DEL (characters past ASCII are written
/// as bytes of 128 and above, which are all allowed).
pub open spec fn header_char_allowed(c: char) -> bool {
    c == '\t' || (c as u32 >= 32 && c as u32 != 127)
}

/// Whether a text is a valid HTTP header value.
pub open spec fn header_value_allowed(s: Seq<char>) -> bool {
    forall|i: int| 0 <= i < s.len() ==> header_char_allowed(#[trigger] s[i])
}

/// Checks that a text is a valid HTTP header value, as `http::HeaderValue`'s
/// conversion from a `String` does byte by byte.
pub fn is_header_value(s: &str) -> (r: bool)
    ensures
        r == header_value_allowed(s@),
{
    let n: usize = s.unicode_len();
    let mut i: usize = 0;
    while i < n
        invariant
            n == s@.len(),
            i <= n,
            forall|j: int| 0 <= j < i ==> header_char_allowed(#[trigger] s@[j]),
        decreases n - i,
    {
        let c = s.get_char(i);
        let code: u32 = c as u32;
        if !(c == '\t' || (code >= 32 && code != 127)) {
            return false;
        }
        i = i + 1;
    }
    true
}

/// A `reqwest::ClientBuilder` together with the `User-Agent` it has been
/// given (`None`: reqwest's default).
pub struct HttpClientBuilder {
    inner: reqwest::ClientBuilder,
    user_agent: Ghost<Option<Seq<char>>>,
}

impl HttpClientBuilder {
    /// The `User-Agent` given to the builder, if any.
    pub closed spec fn user_agent_view(&self) -> Option<Seq<char>> {
        self.user_agent@
    }

    /// Calls `reqwest::Client::builder`. Claimed: the builder holds no custom
    /// `User-Agent`.
    #[verifier::external_body]
    pub(crate) fn new() -> (b: Self)
        ensures
            b.user_agent_view() is None,
    {
        HttpClientBuilder { inner: reqwest::Client::builder(), user_agent: Ghost(None) }
    }

    /// Calls `reqwest::ClientBuilder::user_agent`, which puts the text in the
    /// builder's default headers under `User-Agent`. Claimed for a valid header
    /// value (for another, reqwest records an error instead, which this
    /// `requires` leaves out): the builder now holds that `User-Agent`.
    #[verifier::external_body]
    pub(crate) fn user_agent(self, user_agent: String) -> (b: Self)
        requires
            header_value_allowed(user_agent@),
        ensures
            b.user_agent_view() == Some(user_agent@),
    {
        let ghost ua = user_agent@;
        HttpClientBuilder { inner: self.inner.user_agent(user_agent), user_agent: Ghost(Some(ua)) }
    }

    /// Calls `reqwest::ClientBuilder::build`, keeping the error's message.
    /// Claimed: a client that comes out sends the builder's default headers,
    /// so it was built with the builder's `User-Agent`. Whether it comes out
    /// depends on the machine (the TLS backend, the resolver), so no outcome
    /// is promised.
    #[verifier::external_body]
    pub(crate) fn build(self) -> (r: Result<HttpClient, String>)
        ensures
            r matches Ok(c) ==> c.built_with_view() == Some(self.user_agent_view()),
    {
        let ghost ua = self.user_agent@;
        match self.inner.build() {
            Ok(client) => Ok(HttpClient { inner: client, built_with: Ghost(Some(ua)) }),
            Err(e) => Err(e.to_string()),
        }
    }
}

/// An HTTP client, with how it came to be: handed in by the caller, or built
/// here with a given `User-Agent`.
#[derive(Clone)]
pub struct HttpClient {
    inner: reqwest::Client,
    built_with: Ghost<Option<Option<Seq<char>>>>,
}

impl HttpClient {
    /// The `reqwest` client.
    pub closed spec fn client_view(&self) -> reqwest::Client {
        self.inner
    }

    /// `None` when the client was handed in; `Some(ua)` when it was built
    /// here with the custom `User-Agent` `ua` (`None`: reqwest's default).
    pub closed spec fn built_with_view(&self) -> Option<Option<Seq<char>>> {
        self.built_with@
    }

    /// A client handed in by the caller, used as it is.
    pub(crate) fn given(client: reqwest::Client) -> (c: Self)
        ensures
            c.client_view() == client,
            c.built_with_view() is None,
    {
        HttpClient { inner: client, built_with: Ghost(None) }
    }

    /// The `reqwest` client.
    pub fn client(&self) -> (c: &reqwest::Client)
        ensures
            *c == self.client_view(),
    {
        &self.inner
    }
}

} // verus!
