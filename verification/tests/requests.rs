use klipy::http::is_header_value;
use klipy::{AdParams, ContentFilter, Format, Klipy, Method, ReportReason};

const KEY: &str = "YOUR_APP_KEY";

fn query(pairs: &[(&str, &str)]) -> Vec<(String, String)> {
    pairs.iter().map(|(k, v)| (k.to_string(), v.to_string())).collect()
}

#[test]
fn default_client_url() {
    let klipy = Klipy::new(KEY).unwrap();
    assert_eq!(klipy.url("gifs/trending"), "https://api.klipy.com/api/v1/YOUR_APP_KEY/gifs/trending");
}

#[test]
fn custom_base_url() {
    let klipy = Klipy::builder(KEY)
        .user_agent("Mozilla/5.0 (iPhone; CPU iPhone OS 17_0 like Mac OS X)")
        .base_url("http://localhost:8080")
        .build().unwrap();
    assert_eq!(klipy.url("emojis/search"), "http://localhost:8080/api/v1/YOUR_APP_KEY/emojis/search");
}

#[test]
fn own_http_client() {
    let http = reqwest::Client::new();
    let klipy = Klipy::builder(KEY).http_client(http).user_agent("ignored").build().unwrap();
    assert_eq!(klipy.url("x"), "https://api.klipy.com/api/v1/YOUR_APP_KEY/x");
}

#[test]
fn invalid_user_agent_still_builds() {
    let klipy = Klipy::builder(KEY).user_agent("bad\nagent").build().unwrap();
    assert_eq!(klipy.url("memes"), "https://api.klipy.com/api/v1/YOUR_APP_KEY/memes");
}

#[test]
fn trending_per_kind() {
    let klipy = Klipy::new(KEY).unwrap();
    let base = "https://api.klipy.com/api/v1/YOUR_APP_KEY/";
    assert_eq!(klipy.gifs().trending().request().url, format!("{}gifs/trending", base));
    assert_eq!(klipy.stickers().trending().request().url, format!("{}stickers/trending", base));
    assert_eq!(klipy.clips().trending().request().url, format!("{}clips/trending", base));
    assert_eq!(klipy.memes().trending().request().url, format!("{}static-memes/trending", base));
    assert_eq!(klipy.emojis().trending().request().url, format!("{}emojis/trending", base));
    let r = klipy.gifs().trending().request();
    assert_eq!(r.method, Method::Get);
    assert!(r.query.is_empty());
    assert!(r.body.is_none());
}

#[test]
fn trending_with_per_page_and_filter() {
    let klipy = Klipy::new(KEY).unwrap();
    let r = klipy
        .gifs()
        .trending()
        .per_page(20)
        .content_filter(ContentFilter::Medium)
        .request();
    assert_eq!(r.query, query(&[("per_page", "20"), ("content_filter", "medium")]));
}

#[test]
fn numbers_are_sent_in_decimal() {
    let klipy = Klipy::new(KEY).unwrap();
    let r = klipy.gifs().trending().page(0).page(7).page(10).per_page(4294967295).request();
    assert_eq!(r.query, query(&[("page", "0"), ("page", "7"), ("page", "10"), ("per_page", "4294967295")]));
}

#[test]
fn search_keeps_parameters_in_call_order() {
    let klipy = Klipy::new(KEY).unwrap();
    let r = klipy
        .stickers()
        .search("happy")
        .content_filter(ContentFilter::Medium)
        .customer_id("user-uuid")
        .locale("us")
        .page(2)
        .request();
    assert_eq!(r.url, "https://api.klipy.com/api/v1/YOUR_APP_KEY/stickers/search");
    assert_eq!(
        r.query,
        query(&[
            ("q", "happy"),
            ("content_filter", "medium"),
            ("customer_id", "user-uuid"),
            ("locale", "us"),
            ("page", "2"),
        ])
    );
}

#[test]
fn format_filter_joins_with_commas() {
    let klipy = Klipy::new(KEY).unwrap();
    let r = klipy.gifs().trending().format_filter(vec![Format::Gif, Format::Webp, Format::Mp4]).request();
    assert_eq!(r.query, query(&[("format_filter", "gif,webp,mp4")]));
    let r = klipy.gifs().trending().format_filter(vec![]).request();
    assert_eq!(r.query, query(&[("format_filter", "")]));
}

#[test]
fn recent_path() {
    let klipy = Klipy::new(KEY).unwrap();
    let r = klipy.emojis().recent("test-user-1").request();
    assert_eq!(r.url, "https://api.klipy.com/api/v1/YOUR_APP_KEY/emojis/recent/test-user-1");
}

#[test]
fn ad_params_in_fixed_order() {
    let klipy = Klipy::new(KEY).unwrap();
    let params = AdParams {
        customer_id: Some("user-uuid".into()),
        min_width: Some(50),
        max_width: Some(400),
        min_height: Some(50),
        max_height: Some(250),
        os: Some("ios".into()),
        iframe: Some(true),
        px_ratio: Some("2.5".into()),
        year_of_birth: Some(1990),
        gender: Some("F".into()),
        ..Default::default()
    };
    let r = klipy.gifs().trending().per_page(10).ad_params(params).request();
    assert_eq!(
        r.query,
        query(&[
            ("per_page", "10"),
            ("customer_id", "user-uuid"),
            ("ad-min-width", "50"),
            ("ad-max-width", "400"),
            ("ad-min-height", "50"),
            ("ad-max-height", "250"),
            ("ad-iframe", "1"),
            ("ad-os", "ios"),
            ("ad-pxratio", "2.5"),
            ("ad-yob", "1990"),
            ("ad-gender", "F"),
        ])
    );
}

#[test]
fn ad_params_all_fields() {
    let params = AdParams {
        customer_id: Some("c".into()),
        min_width: Some(1),
        max_width: Some(2),
        min_height: Some(3),
        max_height: Some(4),
        position: Some(0),
        iframe: Some(false),
        app_version: Some("10.9.3".into()),
        os: Some("android".into()),
        os_version: Some("18.0".into()),
        hardware_version: Some("15".into()),
        make: Some("make".into()),
        model: Some("model".into()),
        ifa: Some("ifa".into()),
        device_h: Some(2400),
        device_w: Some(1080),
        ppi: Some(420),
        px_ratio: Some("3".into()),
        language: Some("EN".into()),
        carrier: Some("carrier".into()),
        mcc_mnc: Some("310-005".into()),
        connection_type: Some(2),
        did_sha1: Some("a".into()),
        did_md5: Some("b".into()),
        dpid_sha1: Some("c1".into()),
        dpid_md5: Some("d".into()),
        mac_sha1: Some("e".into()),
        mac_md5: Some("f".into()),
        year_of_birth: Some(2000),
        gender: Some("O".into()),
    };
    assert_eq!(
        params.into_query(),
        query(&[
            ("customer_id", "c"),
            ("ad-min-width", "1"),
            ("ad-max-width", "2"),
            ("ad-min-height", "3"),
            ("ad-max-height", "4"),
            ("ad-position", "0"),
            ("ad-iframe", "0"),
            ("ad-app-version", "10.9.3"),
            ("ad-os", "android"),
            ("ad-osv", "18.0"),
            ("ad-hwv", "15"),
            ("ad-make", "make"),
            ("ad-model", "model"),
            ("ad-ifa", "ifa"),
            ("ad-device-h", "2400"),
            ("ad-device-w", "1080"),
            ("ad-ppi", "420"),
            ("ad-pxratio", "3"),
            ("ad-language", "EN"),
            ("ad-carrier", "carrier"),
            ("ad-mccmnc", "310-005"),
            ("ad-connection-type", "2"),
            ("ad-didsha1", "a"),
            ("ad-didmd5", "b"),
            ("ad-dpidsha1", "c1"),
            ("ad-dpidmd5", "d"),
            ("ad-macsha1", "e"),
            ("ad-macmd5", "f"),
            ("ad-yob", "2000"),
            ("ad-gender", "O"),
        ])
    );
}

#[test]
fn no_ad_options_no_parameters() {
    assert!(AdParams::default().into_query().is_empty());
}

#[test]
fn items_by_slug() {
    let klipy = Klipy::new(KEY).unwrap();
    let r = klipy.clips().items_request(&vec!["they-love-me-spider-man".to_string()]);
    assert_eq!(r.method, Method::Get);
    assert_eq!(r.url, "https://api.klipy.com/api/v1/YOUR_APP_KEY/clips/items");
    assert_eq!(r.query, query(&[("slugs", "they-love-me-spider-man")]));
    let r = klipy.gifs().items_request(&vec!["a".to_string(), "b".to_string(), "c".to_string()]);
    assert_eq!(r.query, query(&[("slugs", "a,b,c")]));
}

#[test]
fn hide_recent_request() {
    let klipy = Klipy::new(KEY).unwrap();
    let r = klipy.stickers().hide_recent_request("test-user-1", "hello-hi-662");
    assert_eq!(r.method, Method::Delete);
    assert_eq!(r.url, "https://api.klipy.com/api/v1/YOUR_APP_KEY/stickers/recent/test-user-1");
    assert_eq!(r.query, query(&[("slug", "hello-hi-662")]));
    assert!(r.body.is_none());
}

#[test]
fn categories_request() {
    let klipy = Klipy::new(KEY).unwrap();
    let r = klipy.emojis().categories_request("en_US");
    assert_eq!(r.url, "https://api.klipy.com/api/v1/YOUR_APP_KEY/emojis/categories");
    assert_eq!(r.query, query(&[("locale", "en_US")]));
}

#[test]
fn share_body_defaults_to_empty_strings() {
    let klipy = Klipy::new(KEY).unwrap();
    let r = klipy.gifs().share("hello-hi-662").customer_id("user-uuid").request();
    assert_eq!(r.method, Method::Post);
    assert_eq!(r.url, "https://api.klipy.com/api/v1/YOUR_APP_KEY/gifs/share/hello-hi-662");
    assert!(r.query.is_empty());
    assert_eq!(r.body.unwrap(), r#"{"customer_id":"user-uuid","q":""}"#);
    let r = klipy.gifs().share("s").query("cats \"quoted\"").request();
    assert_eq!(r.body.unwrap(), r#"{"customer_id":"","q":"cats \"quoted\""}"#);
}

#[test]
fn report_body_holds_reason() {
    let klipy = Klipy::new(KEY).unwrap();
    let r = klipy.memes().report("meme-1", ReportReason::HateSpeech).request();
    assert_eq!(r.method, Method::Post);
    assert_eq!(r.url, "https://api.klipy.com/api/v1/YOUR_APP_KEY/static-memes/report/meme-1");
    assert_eq!(r.body.unwrap(), r#"{"customer_id":"","reason":"hate_speech"}"#);
    let r = klipy.memes().report("meme-1", ReportReason::Spam).customer_id("u").request();
    assert_eq!(r.body.unwrap(), r#"{"customer_id":"u","reason":"spam"}"#);
}

#[test]
fn generate_emoji_request() {
    let klipy = Klipy::new(KEY).unwrap();
    let r = klipy.generate_emoji_request("a happy cat", None);
    assert_eq!(r.method, Method::Post);
    assert_eq!(r.url, "https://api.klipy.com/api/v1/YOUR_APP_KEY/emojis/generate");
    assert_eq!(r.body.unwrap(), r#"{"prompt":"a happy cat"}"#);
    let r = klipy.generate_emoji_request("a happy cat", Some("https://example.com/hook".to_string()));
    assert_eq!(r.body.unwrap(), r#"{"prompt":"a happy cat","callback_url":"https://example.com/hook"}"#);
}

#[test]
fn emoji_status_request() {
    let klipy = Klipy::new(KEY).unwrap();
    let r = klipy.emoji_status_request("gen-42");
    assert_eq!(r.method, Method::Get);
    assert_eq!(r.url, "https://api.klipy.com/api/v1/YOUR_APP_KEY/emojis/generated/gen-42");
    assert!(r.query.is_empty());
}

#[test]
fn suggestions_and_autocomplete_requests() {
    let klipy = Klipy::new(KEY).unwrap();
    let r = klipy.search_suggestions_request("hello", 10);
    assert_eq!(r.url, "https://api.klipy.com/api/v1/YOUR_APP_KEY/search-suggestions/hello");
    assert_eq!(r.query, query(&[("limit", "10")]));
    let r = klipy.autocomplete_request("he", 50);
    assert_eq!(r.url, "https://api.klipy.com/api/v1/YOUR_APP_KEY/autocomplete/he");
    assert_eq!(r.query, query(&[("limit", "50")]));
}

#[test]
fn readme_sticker_search() {
    let klipy = Klipy::new(KEY).unwrap();
    let r = klipy.stickers().search("happy").content_filter(ContentFilter::Medium).request();
    assert_eq!(r.url, "https://api.klipy.com/api/v1/YOUR_APP_KEY/stickers/search");
    assert_eq!(r.query, query(&[("q", "happy"), ("content_filter", "medium")]));
}

#[test]
fn readme_search_suggestions() {
    let klipy = Klipy::new(KEY).unwrap();
    let r = klipy.search_suggestions_request("hel", 10);
    assert_eq!(r.method, Method::Get);
    assert_eq!(r.url, "https://api.klipy.com/api/v1/YOUR_APP_KEY/search-suggestions/hel");
    assert_eq!(r.query, query(&[("limit", "10")]));
}

#[test]
fn readme_custom_client() {
    let klipy = Klipy::builder(KEY).user_agent("...").base_url("https://api.klipy.com").build().unwrap();
    assert_eq!(klipy.url("gifs/trending"), Klipy::new(KEY).unwrap().url("gifs/trending"));
}

#[test]
fn readme_ads() {
    let klipy = Klipy::builder(KEY)
        .user_agent("Mozilla/5.0 (iPhone; CPU iPhone OS 17_0 like Mac OS X) AppleWebKit/605.1.15 (KHTML, like Gecko) Mobile/15E148")
        .build().unwrap();
    let r = klipy
        .gifs()
        .trending()
        .ad_params(AdParams {
            customer_id: Some("user-uuid".into()),
            min_width: Some(50),
            max_width: Some(400),
            min_height: Some(50),
            max_height: Some(250),
            os: Some("ios".into()),
            ..Default::default()
        })
        .request();
    assert_eq!(
        r.query,
        query(&[
            ("customer_id", "user-uuid"),
            ("ad-min-width", "50"),
            ("ad-max-width", "400"),
            ("ad-min-height", "50"),
            ("ad-max-height", "250"),
            ("ad-os", "ios"),
        ])
    );
}

#[test]
fn distinct_paths_give_distinct_urls() {
    let klipy = Klipy::new(KEY).unwrap();
    assert_ne!(klipy.url("gifs/trending"), klipy.url("gifs/trendin"));
    assert_ne!(klipy.gifs().recent("a").request().url, klipy.gifs().recent("b").request().url);
}

#[test]
fn joined_slugs_split_back() {
    let klipy = Klipy::new(KEY).unwrap();
    let slugs = vec!["hello-hi-662".to_string(), "they-love-me-spider-man".to_string(), "x".to_string()];
    let r = klipy.gifs().items_request(&slugs);
    let sent = &r.query[0].1;
    let back: Vec<String> = sent.split(',').map(|s| s.to_string()).collect();
    assert_eq!(back, slugs);
}

#[test]
fn header_values() {
    assert!(is_header_value("Mozilla/5.0 (iPhone; CPU iPhone OS 17_0 like Mac OS X)"));
    assert!(is_header_value("tab\tand ünïcode"));
    assert!(is_header_value(""));
    assert!(!is_header_value("bad\nagent"));
    assert!(!is_header_value("del\u{7f}"));
}

#[test]
fn bodies_escape_strings() {
    let klipy = Klipy::new(KEY).unwrap();
    let r = klipy.generate_emoji_request("say \"hi\"\n", None);
    assert_eq!(r.body.unwrap(), r#"{"prompt":"say \"hi\"\n"}"#);
}
