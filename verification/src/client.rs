//! The client: where the API is, under which key, and over which HTTP client.
use vstd::prelude::*;

use crate::endpoints::Endpoints;
use crate::error::Error;
use crate::http::{header_value_allowed, is_header_value, HttpClient, HttpClientBuilder};
use crate::json::{generate_body, generate_fields, json_object_text};
use crate::model::{ClipItem, MediaItem};
use crate::request::{pair, Method, QueryView, Request};
use crate::text::{decimal, decimal_string};

verus! {

const DEFAULT_BASE_URL: &'static str = "https://api.klipy.com";

/// The base URL that a client uses unless told otherwise.
pub open spec fn default_base_url() -> Seq<char> {
    "https://api.klipy.com"@
}

/// The URL of an API path: `{base}/api/v1/{app_key}/{path}`.
pub open spec fn api_url(base: Seq<char>, app_key: Seq<char>, path: Seq<char>) -> Seq<char> {
    base + "/api/v1/"@ + app_key + "/"@ + path
}

/// The `User-Agent` that a client is built with: the one given, when it is a
/// valid header value; otherwise none (reqwest's default).
pub open spec fn effective_user_agent(user_agent: Option<Seq<char>>) -> Option<Seq<char>> {
    match user_agent {
        Some(ua) => if header_value_allowed(ua) {
            Some(ua)
        } else {
            None
        },
        None => None,
    }
}

/// The KLIPY API client.
#[derive(Clone)]
pub struct Klipy {
    http: HttpClient,
    base_url: String,
    app_key: String,
}

impl Klipy {
    /// The base URL of the API.
    pub closed spec fn base_url_view(&self) -> Seq<char> {
        self.base_url@
    }

    /// The application key.
    pub closed spec fn app_key_view(&self) -> Seq<char> {
        self.app_key@
    }

    /// The HTTP client that requests go through.
    pub closed spec fn http_view(&self) -> reqwest::Client {
        self.http.client_view()
    }

    /// `None` when the HTTP client was handed in; `Some(ua)` when it was
    /// built here with the custom `User-Agent` `ua` (`None`: reqwest's default).
    pub closed spec fn built_with_view(&self) -> Option<Option<Seq<char>>> {
        self.http.built_with_view()
    }

    /// Create a client with default options: the default base URL and an
    /// HTTP client built without a custom `User-Agent`. Fails, with
    /// `Error::Http`, only when the HTTP client cannot be built on this
    /// machine (no TLS backend, no resolver configuration).
    pub fn new(app_key: &str) -> (r: Result<Klipy, Error>)
        ensures
            r matches Ok(k) ==> {
                &&& k.base_url_view() == default_base_url()
                &&& k.app_key_view() == app_key@
                &&& k.built_with_view() == Some(None::<Seq<char>>)
            },
            r matches Err(e) ==> e is Http,
    {
        Self::builder(app_key).build()
    }

    /// Build a client with custom options.
    pub fn builder(app_key: &str) -> (b: KlipyBuilder)
        ensures
            b.app_key_view() == app_key@,
            b.http_view() is None,
            b.base_url_view() is None,
            b.user_agent_view() is None,
    {
        KlipyBuilder { app_key: String::from_str(app_key), http: None, base_url: None, user_agent: None }
    }

    /// GIF endpoints.
    pub fn gifs(&self) -> (e: Endpoints<'_, MediaItem>)
        ensures
            e.client_view() == *self,
            e.kind_view() == "gifs"@,
    {
        Endpoints::new(self, "gifs")
    }

    /// Sticker endpoints.
    pub fn stickers(&self) -> (e: Endpoints<'_, MediaItem>)
        ensures
            e.client_view() == *self,
            e.kind_view() == "stickers"@,
    {
        Endpoints::new(self, "stickers")
    }

    /// Clip endpoints. Note: the clips library is not yet fully MPA-rated.
    pub fn clips(&self) -> (e: Endpoints<'_, ClipItem>)
        ensures
            e.client_view() == *self,
            e.kind_view() == "clips"@,
    {
        Endpoints::new(self, "clips")
    }

    /// Meme endpoints.
    pub fn memes(&self) -> (e: Endpoints<'_, MediaItem>)
        ensures
            e.client_view() == *self,
            e.kind_view() == "static-memes"@,
    {
        Endpoints::new(self, "static-memes")
    }

    /// AI Emoji endpoints.
    pub fn emojis(&self) -> (e: Endpoints<'_, MediaItem>)
        ensures
            e.client_view() == *self,
            e.kind_view() == "emojis"@,
    {
        Endpoints::new(self, "emojis")
    }

    /// The request that generates an AI Emoji from a text `prompt` (max 300
    /// chars): a POST to `emojis/generate` whose body holds the prompt and,
    /// when given, the `callback_url` that receives the result.
    pub fn generate_emoji_request(&self, prompt: &str, callback_url: Option<String>) -> (r: Request)
        ensures
            r.method == Method::Post,
            r.url@ == api_url(self.base_url_view(), self.app_key_view(), "emojis/generate"@),
            r.query.deep_view() == Seq::<(Seq<char>, Seq<char>)>::empty(),
            r.body.deep_view() == Some(json_object_text(generate_fields(prompt@, callback_url.deep_view()))),
    {
        let body = generate_body(prompt, callback_url);
        Request { method: Method::Post, url: self.url("emojis/generate"), query: Vec::new(), body: Some(body) }
    }

    /// The request that checks the status of an AI Emoji generation: a GET of
    /// `emojis/generated/{id}`.
    pub fn emoji_status_request(&self, id: &str) -> (r: Request)
        ensures
            r.method == Method::Get,
            r.url@ == api_url(self.base_url_view(), self.app_key_view(), "emojis/generated/"@ + id@),
            r.query.deep_view() == Seq::<(Seq<char>, Seq<char>)>::empty(),
            r.body is None,
    {
        let path = String::from_str("emojis/generated/").concat(id);
        Request::without_body(Method::Get, self.url(path.as_str()), Vec::new())
    }

    /// The request for related search terms for a query: a GET of
    /// `search-suggestions/{q}` with `limit` (1-50, default 10) in the query.
    pub fn search_suggestions_request(&self, q: &str, limit: u32) -> (r: Request)
        ensures
            r.method == Method::Get,
            r.url@ == api_url(self.base_url_view(), self.app_key_view(), "search-suggestions/"@ + q@),
            r.query.deep_view() == seq![("limit"@, decimal(limit as nat))],
            r.body is None,
    {
        let path = String::from_str("search-suggestions/").concat(q);
        let mut query: Vec<(String, String)> = Vec::new();
        query.push(pair("limit", decimal_string(limit)));
        proof {
            assert(query.deep_view() =~= seq![("limit"@, decimal(limit as nat))]);
        }
        Request::without_body(Method::Get, self.url(path.as_str()), query)
    }

    /// The request for completed search terms for a partial query: a GET of
    /// `autocomplete/{q}` with `limit` (1-50, default 10) in the query.
    pub fn autocomplete_request(&self, q: &str, limit: u32) -> (r: Request)
        ensures
            r.method == Method::Get,
            r.url@ == api_url(self.base_url_view(), self.app_key_view(), "autocomplete/"@ + q@),
            r.query.deep_view() == seq![("limit"@, decimal(limit as nat))],
            r.body is None,
    {
        let path = String::from_str("autocomplete/").concat(q);
        let mut query: Vec<(String, String)> = Vec::new();
        query.push(pair("limit", decimal_string(limit)));
        proof {
            assert(query.deep_view() =~= seq![("limit"@, decimal(limit as nat))]);
        }
        Request::without_body(Method::Get, self.url(path.as_str()), query)
    }

    /// The HTTP client that requests go through.
    pub fn http(&self) -> (h: &reqwest::Client)
        ensures
            *h == self.http_view(),
    {
        self.http.client()
    }

    /// The full URL of an API path: `{base_url}/api/v1/{app_key}/{path}`.
    pub fn url(&self, path: &str) -> (u: String)
        ensures
            u@ == api_url(self.base_url_view(), self.app_key_view(), path@),
    {
        let mut u = self.base_url.clone();
        u.append("/api/v1/");
        u.append(self.app_key.as_str());
        u.append("/");
        u.append(path);
        u
    }
}

/// Builder for [`Klipy`].
#[derive(Debug)]
pub struct KlipyBuilder {
    app_key: String,
    http: Option<reqwest::Client>,
    base_url: Option<String>,
    user_agent: Option<String>,
}

impl KlipyBuilder {
    /// The application key.
    pub closed spec fn app_key_view(&self) -> Seq<char> {
        self.app_key@
    }

    /// The HTTP client given, if any.
    pub closed spec fn http_view(&self) -> Option<reqwest::Client> {
        self.http
    }

    /// The base URL override, if any.
    pub closed spec fn base_url_view(&self) -> Option<Seq<char>> {
        self.base_url.deep_view()
    }

    /// The `User-Agent` given, if any.
    pub closed spec fn user_agent_view(&self) -> Option<Seq<char>> {
        self.user_agent.deep_view()
    }

    /// Set a default `User-Agent` for all requests. Required for ad delivery.
    pub fn user_agent(self, ua: &str) -> (b: Self)
        ensures
            b.user_agent_view() == Some(ua@),
            b.app_key_view() == self.app_key_view(),
            b.http_view() == self.http_view(),
            b.base_url_view() == self.base_url_view(),
    {
        KlipyBuilder { user_agent: Some(String::from_str(ua)), ..self }
    }

    /// Use a pre-configured [`reqwest::Client`]. Takes precedence over
    /// [`user_agent`](Self::user_agent).
    pub fn http_client(self, client: reqwest::Client) -> (b: Self)
        ensures
            b.http_view() == Some(client),
            b.app_key_view() == self.app_key_view(),
            b.user_agent_view() == self.user_agent_view(),
            b.base_url_view() == self.base_url_view(),
    {
        KlipyBuilder { http: Some(client), ..self }
    }

    /// Override the default base URL.
    pub fn base_url(self, base_url: &str) -> (b: Self)
        ensures
            b.base_url_view() == Some(base_url@),
            b.app_key_view() == self.app_key_view(),
            b.http_view() == self.http_view(),
            b.user_agent_view() == self.user_agent_view(),
    {
        KlipyBuilder { base_url: Some(String::from_str(base_url)), ..self }
    }

    /// Builds the client. A given HTTP client is used as it is, and the
    /// `User-Agent` is then ignored. Otherwise one is built with the
    /// `User-Agent`, when one is given and is a valid header value; an
    /// invalid one is left out, so the client gets reqwest's default. The base
    /// URL is the override or the default. Fails, with `Error::Http`, only when
    /// no HTTP client was given and none can be built on this machine (no TLS
    /// backend, no resolver configuration).
    pub fn build(self) -> (r: Result<Klipy, Error>)
        ensures
            self.http_view() is Some ==> r is Ok,
            r matches Ok(k) ==> {
                &&& k.app_key_view() == self.app_key_view()
                &&& k.base_url_view() == (match self.base_url_view() {
                    Some(u) => u,
                    None => default_base_url(),
                })
                &&& (self.http_view() matches Some(c) ==> k.http_view() == c && k.built_with_view() is None)
                &&& (self.http_view() is None ==> k.built_with_view() == Some(effective_user_agent(self.user_agent_view())))
                &&& (self.http_view() is None && self.user_agent_view() is None ==> k.built_with_view() == Some(
                    None::<Seq<char>>,
                ))
                &&& (self.http_view() is None ==> (self.user_agent_view() matches Some(ua) ==> ((forall|i: int|
                    0 <= i < ua.len() ==> (ua[i] == '\t' || (ua[i] as u32 >= 32 && ua[i] as u32 != 127)))
                    ==> k.built_with_view() == Some(Some(ua)))))
            },
            r matches Err(e) ==> e is Http,
    {
        let http = match self.http {
            Some(client) => HttpClient::given(client),
            None => {
                let mut b = HttpClientBuilder::new();
                match self.user_agent {
                    Some(ua) => {
                        if is_header_value(ua.as_str()) {
                            b = b.user_agent(ua);
                        }
                    },
                    None => {},
                }
                match b.build() {
                    Ok(client) => client,
                    Err(message) => {
                        return Err(Error::Http(message));
                    },
                }
            },
        };
        let base_url = match self.base_url {
            Some(u) => u,
            None => String::from_str(DEFAULT_BASE_URL),
        };
        Ok(Klipy { http, base_url, app_key: self.app_key })
    }
}

} // verus!
