//! Endpoint builders: which path, query and body each API call uses.
use vstd::prelude::*;
use core::marker::PhantomData;

use crate::client::{api_url, Klipy};
use crate::json::{json_object_text, report_body, report_fields, share_body, share_fields};
use crate::params::{ContentFilter, Format, ReportReason};
use crate::request::{pair, Method, QueryView, Request};
use crate::text::{decimal, decimal_string, join_strings, joined};

verus! {

/// Unified endpoint builders for different content kinds.
pub struct Endpoints<'a, T> {
    client: &'a Klipy,
    kind: &'static str,
    _item: PhantomData<T>,
}

impl<'a, T> Clone for Endpoints<'a, T> {
    fn clone(&self) -> (e: Self)
        ensures
            e == *self,
    {
        Endpoints { client: self.client, kind: self.kind, _item: PhantomData }
    }
}

impl<'a, T> Copy for Endpoints<'a, T> {}

impl<'a, T> Endpoints<'a, T> {
    /// The client that the endpoints belong to.
    pub closed spec fn client_view(&self) -> Klipy {
        *self.client
    }

    /// The content kind, the first segment of every endpoint path.
    pub closed spec fn kind_view(&self) -> Seq<char> {
        self.kind@
    }

    pub(crate) fn new(client: &'a Klipy, kind: &'static str) -> (e: Self)
        ensures
            e.client_view() == *client,
            e.kind_view() == kind@,
    {
        Endpoints { client, kind, _item: PhantomData }
    }

    /// The client that the endpoints belong to.
    pub fn client(&self) -> (c: &'a Klipy)
        ensures
            *c == self.client_view(),
    {
        self.client
    }

    fn kind_path(&self, suffix: &str) -> (p: String)
        ensures
            p@ == self.kind_view() + suffix@,
    {
        String::from_str(self.kind).concat(suffix)
    }

    /// Trending items, updated throughout the day and localized by language
    /// and region.
    pub fn trending(&self) -> (b: ListBuilder<'a, T>)
        ensures
            b.client_view() == self.client_view(),
            b.path_view() == self.kind_view() + "/trending"@,
            b.query_view() == Seq::<(Seq<char>, Seq<char>)>::empty(),
    {
        ListBuilder::new(self.client, self.kind_path("/trending"))
    }

    /// Search by keyword. Results are ranked by relevance, popularity, and
    /// language context with fuzzy matching support.
    pub fn search(&self, q: &str) -> (b: ListBuilder<'a, T>)
        ensures
            b.client_view() == self.client_view(),
            b.path_view() == self.kind_view() + "/search"@,
            b.query_view() == seq![("q"@, q@)],
    {
        let mut b = ListBuilder::new(self.client, self.kind_path("/search"));
        b.query.push(pair("q", String::from_str(q)));
        proof {
            assert(b.query_view() =~= seq![("q"@, q@)]);
        }
        b
    }

    /// Items recently used by a specific user. Pass a stable `customer_id`
    /// to fetch per-user history.
    pub fn recent(&self, customer_id: &str) -> (b: ListBuilder<'a, T>)
        ensures
            b.client_view() == self.client_view(),
            b.path_view() == self.kind_view() + "/recent/"@ + customer_id@,
            b.query_view() == Seq::<(Seq<char>, Seq<char>)>::empty(),
    {
        ListBuilder::new(self.client, self.kind_path("/recent/").concat(customer_id))
    }

    /// The request that fetches specific items by slug: a GET of
    /// `{kind}/items` with the slugs joined by commas.
    pub fn items_request(&self, slugs: &Vec<String>) -> (r: Request)
        ensures
            r.method == Method::Get,
            r.url@ == api_url(self.client_view().base_url_view(), self.client_view().app_key_view(),
                self.kind_view() + "/items"@),
            r.query.deep_view() == seq![("slugs"@, joined(slugs.deep_view(), ","@))],
            r.body is None,
    {
        let joined_slugs = join_strings(slugs, ",");
        let mut query: Vec<(String, String)> = Vec::new();
        query.push(pair("slugs", joined_slugs));
        proof {
            assert(query.deep_view() =~= seq![("slugs"@, joined(slugs.deep_view(), ","@))]);
        }
        let path = self.kind_path("/items");
        Request::without_body(Method::Get, self.client.url(path.as_str()), query)
    }

    /// The request that removes an item from a user's Recent list: a DELETE of
    /// `{kind}/recent/{customer_id}` with the slug in the query.
    pub fn hide_recent_request(&self, customer_id: &str, slug: &str) -> (r: Request)
        ensures
            r.method == Method::Delete,
            r.url@ == api_url(self.client_view().base_url_view(), self.client_view().app_key_view(),
                self.kind_view() + "/recent/"@ + customer_id@),
            r.query.deep_view() == seq![("slug"@, slug@)],
            r.body is None,
    {
        let mut query: Vec<(String, String)> = Vec::new();
        query.push(pair("slug", String::from_str(slug)));
        proof {
            assert(query.deep_view() =~= seq![("slug"@, slug@)]);
        }
        let path = self.kind_path("/recent/").concat(customer_id);
        Request::without_body(Method::Delete, self.client.url(path.as_str()), query)
    }

    /// Log a share event for analytics and personalization.
    pub fn share(&self, slug: &str) -> (b: ShareBuilder<'a>)
        ensures
            b.client_view() == self.client_view(),
            b.url_view() == api_url(self.client_view().base_url_view(), self.client_view().app_key_view(),
                self.kind_view() + "/share/"@ + slug@),
            b.customer_id_view() is None,
            b.q_view() is None,
    {
        let path = self.kind_path("/share/").concat(slug);
        ShareBuilder { client: self.client, url: self.client.url(path.as_str()), customer_id: None, q: None }
    }

    /// Report an item flagged by a user.
    pub fn report(&self, slug: &str, reason: ReportReason) -> (b: ReportBuilder<'a>)
        ensures
            b.client_view() == self.client_view(),
            b.url_view() == api_url(self.client_view().base_url_view(), self.client_view().app_key_view(),
                self.kind_view() + "/report/"@ + slug@),
            b.customer_id_view() is None,
            b.reason_view() == reason,
    {
        let path = self.kind_path("/report/").concat(slug);
        ReportBuilder { client: self.client, url: self.client.url(path.as_str()), customer_id: None, reason }
    }

    /// The request for the curated categories of this content kind: a GET of
    /// `{kind}/categories` with the locale (`xx_YY`, e.g. `"en_US"`) in the query.
    pub fn categories_request(&self, locale: &str) -> (r: Request)
        ensures
            r.method == Method::Get,
            r.url@ == api_url(self.client_view().base_url_view(), self.client_view().app_key_view(),
                self.kind_view() + "/categories"@),
            r.query.deep_view() == seq![("locale"@, locale@)],
            r.body is None,
    {
        let mut query: Vec<(String, String)> = Vec::new();
        query.push(pair("locale", String::from_str(locale)));
        proof {
            assert(query.deep_view() =~= seq![("locale"@, locale@)]);
        }
        let path = self.kind_path("/categories");
        Request::without_body(Method::Get, self.client.url(path.as_str()), query)
    }
}

/// The names of the formats, in order.
pub open spec fn format_names(formats: Seq<Format>) -> Seq<Seq<char>> {
    formats.map_values(|f: Format| f.wire_name())
}

/// Builder for paginated list endpoints.
pub struct ListBuilder<'a, T> {
    client: &'a Klipy,
    path: String,
    query: Vec<(String, String)>,
    _item: PhantomData<T>,
}

impl<'a, T> ListBuilder<'a, T> {
    /// The client that the list belongs to.
    pub closed spec fn client_view(&self) -> Klipy {
        *self.client
    }

    /// The API path of the list.
    pub closed spec fn path_view(&self) -> Seq<char> {
        self.path@
    }

    /// The query parameters gathered so far, in the order they were given.
    pub closed spec fn query_view(&self) -> QueryView {
        self.query.deep_view()
    }

    fn new(client: &'a Klipy, path: String) -> (b: Self)
        ensures
            b.client_view() == *client,
            b.path_view() == path@,
            b.query_view() == Seq::<(Seq<char>, Seq<char>)>::empty(),
    {
        let b = ListBuilder { client, path, query: Vec::new(), _item: PhantomData };
        proof {
            assert(b.query_view() =~= Seq::<(Seq<char>, Seq<char>)>::empty());
        }
        b
    }

    fn with_param(self, name: &str, value: String) -> (b: Self)
        ensures
            b.client_view() == self.client_view(),
            b.path_view() == self.path_view(),
            b.query_view() == self.query_view().push((name@, value@)),
    {
        let mut b = self;
        let ghost before = b.query_view();
        b.query.push(pair(name, value));
        proof {
            assert(b.query_view() =~= before.push((name@, value@)));
        }
        b
    }

    /// The client that the list belongs to.
    pub fn client(&self) -> (c: &'a Klipy)
        ensures
            *c == self.client_view(),
    {
        self.client
    }

    /// Page number (min 1, default 1).
    pub fn page(self, page: u32) -> (b: Self)
        ensures
            b.client_view() == self.client_view(),
            b.path_view() == self.path_view(),
            b.query_view() == self.query_view().push(("page"@, decimal(page as nat))),
    {
        self.with_param("page", decimal_string(page))
    }

    /// Items per page.
    pub fn per_page(self, per_page: u32) -> (b: Self)
        ensures
            b.client_view() == self.client_view(),
            b.path_view() == self.path_view(),
            b.query_view() == self.query_view().push(("per_page"@, decimal(per_page as nat))),
    {
        self.with_param("per_page", decimal_string(per_page))
    }

    /// Stable user identifier for personalization.
    pub fn customer_id(self, customer_id: &str) -> (b: Self)
        ensures
            b.client_view() == self.client_view(),
            b.path_view() == self.path_view(),
            b.query_view() == self.query_view().push(("customer_id"@, customer_id@)),
    {
        self.with_param("customer_id", String::from_str(customer_id))
    }

    /// ISO 3166 Alpha-2 country/language code (e.g. `"us"`, `"ru"`).
    pub fn locale(self, locale: &str) -> (b: Self)
        ensures
            b.client_view() == self.client_view(),
            b.path_view() == self.path_view(),
            b.query_view() == self.query_view().push(("locale"@, locale@)),
    {
        self.with_param("locale", String::from_str(locale))
    }

    /// Content safety filter level.
    pub fn content_filter(self, filter: ContentFilter) -> (b: Self)
        ensures
            b.client_view() == self.client_view(),
            b.path_view() == self.path_view(),
            b.query_view() == self.query_view().push(("content_filter"@, filter.wire_name())),
    {
        self.with_param("content_filter", String::from_str(filter.as_str()))
    }

    /// Restrict results to specific formats only.
    pub fn format_filter(self, formats: Vec<Format>) -> (b: Self)
        ensures
            b.client_view() == self.client_view(),
            b.path_view() == self.path_view(),
            b.query_view() == self.query_view().push(
                ("format_filter"@, joined(format_names(formats@), ","@)),
            ),
    {
        let mut names: Vec<String> = Vec::new();
        let n: usize = formats.len();
        let mut i: usize = 0;
        while i < n
            invariant
                n == formats@.len(),
                i <= n,
                names.deep_view() == format_names(formats@.take(i as int)),
            decreases n - i,
        {
            let ghost before = names.deep_view();
            let name = String::from_str(formats[i].as_str());
            names.push(name);
            proof {
                assert(formats@.take(i + 1) =~= formats@.take(i as int).push(formats@[i as int]));
                assert(format_names(formats@.take(i + 1)) =~= before.push(formats@[i as int].wire_name()));
                assert(names.deep_view() =~= before.push(name@));
            }
            i = i + 1;
        }
        proof {
            assert(formats@.take(n as int) =~= formats@);
        }
        self.with_param("format_filter", join_strings(&names, ","))
    }

    /// Attach ad request parameters. Requires a browser-like
    /// `User-Agent` set via [`KlipyBuilder::user_agent`](crate::KlipyBuilder::user_agent).
    pub fn ad_params(self, params: AdParams) -> (b: Self)
        ensures
            b.client_view() == self.client_view(),
            b.path_view() == self.path_view(),
            b.query_view() == self.query_view() + ad_query(params),
    {
        let mut b = self;
        let ghost before = b.query_view();
        let mut extra = params.into_query();
        b.query.append(&mut extra);
        proof {
            assert(b.query_view() =~= before + ad_query(params));
        }
        b
    }

    /// The request that fetches the list: a GET of the list's path with the
    /// gathered query parameters, in order.
    pub fn request(self) -> (r: Request)
        ensures
            r.method == Method::Get,
            r.url@ == api_url(self.client_view().base_url_view(), self.client_view().app_key_view(), self.path_view()),
            r.query.deep_view() == self.query_view(),
            r.body is None,
    {
        let url = self.client.url(self.path.as_str());
        Request::without_body(Method::Get, url, self.query)
    }
}

/// Builder for the share-trigger endpoint.
pub struct ShareBuilder<'a> {
    client: &'a Klipy,
    url: String,
    customer_id: Option<String>,
    q: Option<String>,
}

impl<'a> ShareBuilder<'a> {
    /// The client that the share goes through.
    pub closed spec fn client_view(&self) -> Klipy {
        *self.client
    }

    /// The full URL of the share endpoint.
    pub closed spec fn url_view(&self) -> Seq<char> {
        self.url@
    }

    /// The user identifier, if set.
    pub closed spec fn customer_id_view(&self) -> Option<Seq<char>> {
        self.customer_id.deep_view()
    }

    /// The search query, if set.
    pub closed spec fn q_view(&self) -> Option<Seq<char>> {
        self.q.deep_view()
    }

    /// The client that the share goes through.
    pub fn client(&self) -> (c: &'a Klipy)
        ensures
            *c == self.client_view(),
    {
        self.client
    }

    /// Stable user identifier.
    pub fn customer_id(self, customer_id: &str) -> (b: Self)
        ensures
            b.client_view() == self.client_view(),
            b.url_view() == self.url_view(),
            b.customer_id_view() == Some(customer_id@),
            b.q_view() == self.q_view(),
    {
        ShareBuilder { customer_id: Some(String::from_str(customer_id)), ..self }
    }

    /// The search query that led to this share. Required for Search API shares.
    pub fn query(self, q: &str) -> (b: Self)
        ensures
            b.client_view() == self.client_view(),
            b.url_view() == self.url_view(),
            b.customer_id_view() == self.customer_id_view(),
            b.q_view() == Some(q@),
    {
        ShareBuilder { q: Some(String::from_str(q)), ..self }
    }

    /// The request that logs the share: a POST to the share URL whose body
    /// holds `customer_id` and `q`, each empty when not set.
    pub fn request(self) -> (r: Request)
        ensures
            r.method == Method::Post,
            r.url@ == self.url_view(),
            r.query.deep_view() == Seq::<(Seq<char>, Seq<char>)>::empty(),
            r.body.deep_view() == Some(json_object_text(share_fields(self.customer_id_view(), self.q_view()))),
    {
        let body = share_body(self.customer_id, self.q);
        Request { method: Method::Post, url: self.url, query: Vec::new(), body: Some(body) }
    }
}

/// Builder for the report endpoint.
pub struct ReportBuilder<'a> {
    client: &'a Klipy,
    url: String,
    customer_id: Option<String>,
    reason: ReportReason,
}

impl<'a> ReportBuilder<'a> {
    /// The client that the report goes through.
    pub closed spec fn client_view(&self) -> Klipy {
        *self.client
    }

    /// The full URL of the report endpoint.
    pub closed spec fn url_view(&self) -> Seq<char> {
        self.url@
    }

    /// The user identifier, if set.
    pub closed spec fn customer_id_view(&self) -> Option<Seq<char>> {
        self.customer_id.deep_view()
    }

    /// The reason of the report.
    pub closed spec fn reason_view(&self) -> ReportReason {
        self.reason
    }

    /// The client that the report goes through.
    pub fn client(&self) -> (c: &'a Klipy)
        ensures
            *c == self.client_view(),
    {
        self.client
    }

    /// Stable user identifier.
    pub fn customer_id(self, customer_id: &str) -> (b: Self)
        ensures
            b.client_view() == self.client_view(),
            b.url_view() == self.url_view(),
            b.customer_id_view() == Some(customer_id@),
            b.reason_view() == self.reason_view(),
    {
        ReportBuilder { customer_id: Some(String::from_str(customer_id)), ..self }
    }

    /// The request that files the report: a POST to the report URL whose body
    /// holds `customer_id` (empty when not set) and the reason's snake_case name.
    pub fn request(self) -> (r: Request)
        ensures
            r.method == Method::Post,
            r.url@ == self.url_view(),
            r.query.deep_view() == Seq::<(Seq<char>, Seq<char>)>::empty(),
            r.body.deep_view() == Some(
                json_object_text(report_fields(self.customer_id_view(), self.reason_view().wire_name())),
            ),
    {
        let body = report_body(self.customer_id, self.reason.as_str());
        Request { method: Method::Post, url: self.url, query: Vec::new(), body: Some(body) }
    }
}

/// Ad request parameters for list endpoints.
/// Required options: `customer_id`, `min_width`, `max_width`, `min_height`, `max_height`.
#[derive(Debug, Default, Clone)]
pub struct AdParams {
    /// Unique user ID (required).
    pub customer_id: Option<String>,
    /// Minimum ad width in pixels (recommended: 50).
    pub min_width: Option<u32>,
    /// Maximum ad width in pixels (recommended: device width).
    pub max_width: Option<u32>,
    /// Minimum ad height in pixels (recommended: 50).
    pub min_height: Option<u32>,
    /// Maximum ad height in pixels (recommended: 250).
    pub max_height: Option<u32>,
    /// Ad position in the response array (0-based). Defaults to client setting
    /// or a random value between 0 and 2.
    pub position: Option<u32>,
    /// `true` to receive an iframe URL instead of HTML content.
    pub iframe: Option<bool>,
    /// App version (e.g. `"10.9.3"`).
    pub app_version: Option<String>,
    /// OS name
    pub os: Option<String>,
    /// OS version (e.g. `"18.0"`).
    pub os_version: Option<String>,
    /// Hardware version (e.g. `"15"`).
    pub hardware_version: Option<String>,
    /// Device make
    pub make: Option<String>,
    /// Device model
    pub model: Option<String>,
    /// Advertiser ID: IDFA (iOS), GPID (Android), unhashed.
    pub ifa: Option<String>,
    /// Physical screen height in pixels.
    pub device_h: Option<u32>,
    /// Physical screen width in pixels.
    pub device_w: Option<u32>,
    /// Pixels per inch.
    pub ppi: Option<u32>,
    /// Physical-to-device-independent pixel ratio, as the decimal text that
    /// is sent (e.g. `"2.5"`).
    pub px_ratio: Option<String>,
    /// Language, ISO-639-1-alpha-2 (e.g. `"EN"`).
    pub language: Option<String>,
    /// Carrier or ISP.
    pub carrier: Option<String>,
    /// MCC-MNC code (e.g. `"310-005"`).
    pub mcc_mnc: Option<String>,
    /// Connection type: 0=unknown, 1=ethernet, 2=WiFi, 3=cellular(unknown),
    /// 4=2G, 5=3G, 6=4G, 7=5G.
    pub connection_type: Option<u32>,
    /// IMEI hashed via SHA1.
    pub did_sha1: Option<String>,
    /// IMEI hashed via MD5.
    pub did_md5: Option<String>,
    /// Platform device ID hashed via SHA1.
    pub dpid_sha1: Option<String>,
    /// Platform device ID hashed via MD5.
    pub dpid_md5: Option<String>,
    /// MAC address hashed via SHA1.
    pub mac_sha1: Option<String>,
    /// MAC address hashed via MD5.
    pub mac_md5: Option<String>,
    /// User year of birth (4-digit).
    pub year_of_birth: Option<u32>,
    /// User gender: `"M"`, `"F"`, or `"O"`.
    pub gender: Option<String>,
}

/// One query pair for a text option, none when it is not set.
pub open spec fn text_param(name: Seq<char>, value: Option<Seq<char>>) -> QueryView {
    match value {
        Some(v) => seq![(name, v)],
        None => Seq::empty(),
    }
}

/// One query pair for a number option (in decimal), none when it is not set.
pub open spec fn number_param(name: Seq<char>, value: Option<u32>) -> QueryView {
    match value {
        Some(v) => seq![(name, decimal(v as nat))],
        None => Seq::empty(),
    }
}

/// One query pair for a yes/no option (`"1"` or `"0"`), none when it is not set.
pub open spec fn flag_param(name: Seq<char>, value: Option<bool>) -> QueryView {
    match value {
        Some(v) => seq![(name, if v { "1"@ } else { "0"@ })],
        None => Seq::empty(),
    }
}

/// The query parameters of a set of ad options: one pair per option that is
/// set, in this fixed order, under the API's `ad-` names.
pub open spec fn ad_query(p: AdParams) -> QueryView {
    text_param("customer_id"@, p.customer_id.deep_view())
        + number_param("ad-min-width"@, p.min_width)
        + number_param("ad-max-width"@, p.max_width)
        + number_param("ad-min-height"@, p.min_height)
        + number_param("ad-max-height"@, p.max_height)
        + number_param("ad-position"@, p.position)
        + flag_param("ad-iframe"@, p.iframe)
        + text_param("ad-app-version"@, p.app_version.deep_view())
        + text_param("ad-os"@, p.os.deep_view())
        + text_param("ad-osv"@, p.os_version.deep_view())
        + text_param("ad-hwv"@, p.hardware_version.deep_view())
        + text_param("ad-make"@, p.make.deep_view())
        + text_param("ad-model"@, p.model.deep_view())
        + text_param("ad-ifa"@, p.ifa.deep_view())
        + number_param("ad-device-h"@, p.device_h)
        + number_param("ad-device-w"@, p.device_w)
        + number_param("ad-ppi"@, p.ppi)
        + text_param("ad-pxratio"@, p.px_ratio.deep_view())
        + text_param("ad-language"@, p.language.deep_view())
        + text_param("ad-carrier"@, p.carrier.deep_view())
        + text_param("ad-mccmnc"@, p.mcc_mnc.deep_view())
        + number_param("ad-connection-type"@, p.connection_type)
        + text_param("ad-didsha1"@, p.did_sha1.deep_view())
        + text_param("ad-didmd5"@, p.did_md5.deep_view())
        + text_param("ad-dpidsha1"@, p.dpid_sha1.deep_view())
        + text_param("ad-dpidmd5"@, p.dpid_md5.deep_view())
        + text_param("ad-macsha1"@, p.mac_sha1.deep_view())
        + text_param("ad-macmd5"@, p.mac_md5.deep_view())
        + number_param("ad-yob"@, p.year_of_birth)
        + text_param("ad-gender"@, p.gender.deep_view())
}

fn push_text(q: &mut Vec<(String, String)>, name: &str, value: Option<String>)
    ensures
        final(q).deep_view() == old(q).deep_view() + text_param(name@, value.deep_view()),
{
    let ghost before = q.deep_view();
    match value {
        Some(v) => {
            q.push(pair(name, v));
        },
        None => {},
    }
    proof {
        assert(q.deep_view() =~= before + text_param(name@, value.deep_view()));
    }
}

fn push_number(q: &mut Vec<(String, String)>, name: &str, value: Option<u32>)
    ensures
        final(q).deep_view() == old(q).deep_view() + number_param(name@, value),
{
    let ghost before = q.deep_view();
    match value {
        Some(v) => {
            q.push(pair(name, decimal_string(v)));
        },
        None => {},
    }
    proof {
        assert(q.deep_view() =~= before + number_param(name@, value));
    }
}

fn push_flag(q: &mut Vec<(String, String)>, name: &str, value: Option<bool>)
    ensures
        final(q).deep_view() == old(q).deep_view() + flag_param(name@, value),
{
    let ghost before = q.deep_view();
    match value {
        Some(v) => {
            q.push(pair(name, String::from_str(if v { "1" } else { "0" })));
        },
        None => {},
    }
    proof {
        assert(q.deep_view() =~= before + flag_param(name@, value));
    }
}

impl AdParams {
    /// The query parameters of these ad options: one pair per option that is
    /// set, in a fixed order, under the API's `ad-` names.
    pub fn into_query(self) -> (q: Vec<(String, String)>)
        ensures
            q.deep_view() == ad_query(self),
    {
        let ghost p = self;
        let mut q: Vec<(String, String)> = Vec::new();
        push_text(&mut q, "customer_id", self.customer_id);
        proof {
            assert(q.deep_view() =~= text_param("customer_id"@, p.customer_id.deep_view()));
        }
        push_number(&mut q, "ad-min-width", self.min_width);
        push_number(&mut q, "ad-max-width", self.max_width);
        push_number(&mut q, "ad-min-height", self.min_height);
        push_number(&mut q, "ad-max-height", self.max_height);
        push_number(&mut q, "ad-position", self.position);
        push_flag(&mut q, "ad-iframe", self.iframe);
        push_text(&mut q, "ad-app-version", self.app_version);
        push_text(&mut q, "ad-os", self.os);
        push_text(&mut q, "ad-osv", self.os_version);
        push_text(&mut q, "ad-hwv", self.hardware_version);
        push_text(&mut q, "ad-make", self.make);
        push_text(&mut q, "ad-model", self.model);
        push_text(&mut q, "ad-ifa", self.ifa);
        push_number(&mut q, "ad-device-h", self.device_h);
        push_number(&mut q, "ad-device-w", self.device_w);
        push_number(&mut q, "ad-ppi", self.ppi);
        push_text(&mut q, "ad-pxratio", self.px_ratio);
        push_text(&mut q, "ad-language", self.language);
        push_text(&mut q, "ad-carrier", self.carrier);
        push_text(&mut q, "ad-mccmnc", self.mcc_mnc);
        push_number(&mut q, "ad-connection-type", self.connection_type);
        push_text(&mut q, "ad-didsha1", self.did_sha1);
        push_text(&mut q, "ad-didmd5", self.did_md5);
        push_text(&mut q, "ad-dpidsha1", self.dpid_sha1);
        push_text(&mut q, "ad-dpidmd5", self.dpid_md5);
        push_text(&mut q, "ad-macsha1", self.mac_sha1);
        push_text(&mut q, "ad-macmd5", self.mac_md5);
        push_number(&mut q, "ad-yob", self.year_of_birth);
        push_text(&mut q, "ad-gender", self.gender);
        q
    }
}

} // verus!
