//! Properties that hold across the library's functions, proved once for all inputs.
use vstd::prelude::*;

use crate::client::{api_url, effective_user_agent};
use crate::endpoints::{ad_query, flag_param, format_names, number_param, text_param, AdParams};
use crate::json::{generate_fields, report_fields, share_fields};
use crate::model::{ads_of, contents_of, AdItem, Item};
use crate::params::{ContentFilter, Format, ReportReason};
use crate::text::{decimal, digit_char, joined};

verus! {

/// The number that a decimal digit character stands for.
pub open spec fn digit_value(c: char) -> nat {
    if c == '1' {
        1
    } else if c == '2' {
        2
    } else if c == '3' {
        3
    } else if c == '4' {
        4
    } else if c == '5' {
        5
    } else if c == '6' {
        6
    } else if c == '7' {
        7
    } else if c == '8' {
        8
    } else if c == '9' {
        9
    } else {
        0
    }
}

/// The number that a text of decimal digits stands for, as a server reads it.
pub open spec fn decimal_value(s: Seq<char>) -> nat
    decreases s.len(),
{
    if s.len() == 0 {
        0
    } else {
        decimal_value(s.drop_last()) * 10 + digit_value(s.last())
    }
}

/// Every list entry is counted once: the content items and the advertisements
/// of a page together are as many as its entries.
pub proof fn law_entries_split_into_content_and_ads<T>(items: Seq<Item<T>>)
    ensures
        contents_of(items).len() + ads_of(items).len() == items.len(),
    decreases items.len(),
{
    if items.len() > 0 {
        law_entries_split_into_content_and_ads(items.drop_last());
    }
}

/// Filtering keeps order: the content items (and the advertisements) of two
/// runs of entries, one after the other, are those of each run, one after the other.
pub proof fn law_filtering_keeps_order<T>(a: Seq<Item<T>>, b: Seq<Item<T>>)
    ensures
        contents_of(a + b) == contents_of(a) + contents_of(b),
        ads_of(a + b) == ads_of(a) + ads_of(b),
    decreases b.len(),
{
    if b.len() == 0 {
        assert(a + b =~= a);
        assert(contents_of(a) + contents_of(b) =~= contents_of(a));
        assert(ads_of(a) + ads_of(b) =~= ads_of(a));
    } else {
        law_filtering_keeps_order(a, b.drop_last());
        assert((a + b).drop_last() =~= a + b.drop_last());
        assert((a + b).last() == b.last());
        assert(contents_of(a + b) =~= contents_of(a) + contents_of(b));
        assert(ads_of(a + b) =~= ads_of(a) + ads_of(b));
    }
}

/// Which entries are content (`true`) and which advertisements (`false`).
pub open spec fn kinds_of<T>(items: Seq<Item<T>>) -> Seq<bool> {
    items.map_values(|i: Item<T>| i is Content)
}

/// Puts content items and advertisements back by position: each `true` in
/// `kinds` takes the next content item, each `false` the next advertisement.
pub open spec fn merge_by_kind<T>(kinds: Seq<bool>, contents: Seq<T>, ads: Seq<AdItem>) -> Seq<Item<T>>
    decreases kinds.len(),
{
    if kinds.len() == 0 {
        Seq::empty()
    } else if kinds.last() {
        merge_by_kind(kinds.drop_last(), contents.drop_last(), ads).push(Item::Content(contents.last()))
    } else {
        merge_by_kind(kinds.drop_last(), contents, ads.drop_last()).push(Item::Ad(ads.last()))
    }
}

/// The content items and the advertisements partition a page's entries:
/// merged back by position, they give the entries.
pub proof fn law_content_and_ads_partition_entries<T>(items: Seq<Item<T>>)
    ensures
        merge_by_kind(kinds_of(items), contents_of(items), ads_of(items)) == items,
    decreases items.len(),
{
    if items.len() > 0 {
        let init = items.drop_last();
        law_content_and_ads_partition_entries(init);
        assert(kinds_of(items).drop_last() =~= kinds_of(init));
        assert(kinds_of(items).last() == (items.last() is Content));
        match items.last() {
            Item::Content(c) => {
                assert(contents_of(items).drop_last() =~= contents_of(init));
            },
            Item::Ad(a) => {
                assert(ads_of(items).drop_last() =~= ads_of(init));
            },
        }
        assert(init.push(items.last()) =~= items);
    } else {
        assert(items =~= Seq::<Item<T>>::empty());
    }
}

/// A number sent in a query reads back as the same number, and is written
/// without leading zeros.
pub proof fn law_decimal_reads_back(n: nat)
    ensures
        decimal_value(decimal(n)) == n,
        decimal(n).len() > 0,
        decimal(n)[0] == '0' ==> n == 0,
    decreases n,
{
    if n >= 10 {
        law_decimal_reads_back(n / 10);
        let s = decimal(n);
        assert(s.drop_last() =~= decimal(n / 10));
        assert(s.last() == digit_char(n % 10));
        assert(digit_value(digit_char(n % 10)) == n % 10);
        assert(s[0] == decimal(n / 10)[0]);
        assert(decimal_value(s) == decimal_value(decimal(n / 10)) * 10 + digit_value(s.last()));
        assert((n / 10) * 10 + n % 10 == n);
    } else {
        assert(decimal(n).drop_last() =~= Seq::<char>::empty());
        assert(digit_value(digit_char(n)) == n);
        assert(decimal_value(decimal(n)) == decimal_value(Seq::<char>::empty()) * 10 + digit_value(digit_char(n)));
    }
}

/// The pieces of `s` between occurrences of `sep`, as a server splits a
/// comma-separated list: always at least one piece, possibly empty.
pub open spec fn split_at(s: Seq<char>, sep: char) -> Seq<Seq<char>>
    decreases s.len(),
{
    if s.len() == 0 {
        seq![Seq::empty()]
    } else {
        let pieces = split_at(s.drop_last(), sep);
        if s.last() == sep {
            pieces.push(Seq::empty())
        } else {
            pieces.update(pieces.len() - 1, pieces.last().push(s.last()))
        }
    }
}

proof fn lemma_split_at_nonempty(s: Seq<char>, sep: char)
    ensures
        split_at(s, sep).len() >= 1,
    decreases s.len(),
{
    if s.len() > 0 {
        lemma_split_at_nonempty(s.drop_last(), sep);
    }
}

/// Splitting after a separator: the pieces of `a`, then `b` whole when `b`
/// holds no separator.
proof fn lemma_split_after_sep(a: Seq<char>, sep: char, b: Seq<char>)
    requires
        !b.contains(sep),
    ensures
        split_at(a + seq![sep] + b, sep) == split_at(a, sep).push(b),
    decreases b.len(),
{
    if b.len() == 0 {
        assert(b =~= Seq::<char>::empty());
        assert(a + seq![sep] + b =~= a.push(sep));
        assert((a + seq![sep] + b).drop_last() =~= a);
        assert((a + seq![sep] + b).last() == sep);
    } else {
        let init = b.drop_last();
        assert(!init.contains(sep)) by {
            if init.contains(sep) {
                let k = choose|k: int| 0 <= k < init.len() && init[k] == sep;
                assert(b[k] == sep);
            }
        }
        lemma_split_after_sep(a, sep, init);
        let whole = a + seq![sep] + b;
        assert(whole.drop_last() =~= a + seq![sep] + init);
        assert(whole.last() == b.last());
        assert(b.last() != sep) by {
            assert(b[b.len() - 1] == b.last());
        }
        lemma_split_at_nonempty(a, sep);
        let pieces = split_at(a, sep).push(init);
        assert(split_at(whole.drop_last(), sep) == pieces);
        assert(split_at(whole, sep) == pieces.update(pieces.len() - 1, pieces.last().push(whole.last())));
        assert(pieces.update(pieces.len() - 1, pieces.last().push(b.last())) =~= split_at(a, sep).push(b)) by {
            assert(init.push(b.last()) =~= b);
        }
    }
}

/// A text without a separator is one piece.
proof fn lemma_split_whole(b: Seq<char>, sep: char)
    requires
        !b.contains(sep),
    ensures
        split_at(b, sep) == seq![b],
    decreases b.len(),
{
    if b.len() > 0 {
        let init = b.drop_last();
        assert(!init.contains(sep)) by {
            if init.contains(sep) {
                let k = choose|k: int| 0 <= k < init.len() && init[k] == sep;
                assert(b[k] == sep);
            }
        }
        lemma_split_whole(init, sep);
        assert(b.last() != sep) by {
            assert(b[b.len() - 1] == b.last());
        }
        assert(seq![init].update(0, init.push(b.last())) =~= seq![b]) by {
            assert(init.push(b.last()) =~= b);
        }
    } else {
        assert(b =~= Seq::<char>::empty());
    }
}

/// A list sent joined by a separator (the slugs of `items`, the formats of
/// `format_filter`) splits back into the same list, provided the list is not
/// empty and no entry holds the separator.
pub proof fn law_joined_list_splits_back(parts: Seq<Seq<char>>, sep: char)
    requires
        parts.len() >= 1,
        forall|i: int| 0 <= i < parts.len() ==> !(#[trigger] parts[i]).contains(sep),
    ensures
        split_at(joined(parts, seq![sep]), sep) == parts,
    decreases parts.len(),
{
    if parts.len() == 1 {
        lemma_split_whole(parts[0], sep);
        assert(seq![parts[0]] =~= parts);
    } else {
        let init = parts.drop_last();
        assert forall|i: int| 0 <= i < init.len() implies !(#[trigger] init[i]).contains(sep) by {
            assert(init[i] == parts[i]);
        }
        law_joined_list_splits_back(init, sep);
        assert(!parts.last().contains(sep)) by {
            assert(parts[parts.len() - 1] == parts.last());
        }
        lemma_split_after_sep(joined(init, seq![sep]), sep, parts.last());
        assert(init.push(parts.last()) =~= parts);
    }
}

/// Each content filter level is sent as its own name in lowercase.
pub proof fn law_content_filter_words(x: ContentFilter)
    ensures
        x == ContentFilter::Off ==> x.wire_name() == "off"@,
        x == ContentFilter::Low ==> x.wire_name() == "low"@,
        x == ContentFilter::Medium ==> x.wire_name() == "medium"@,
        x == ContentFilter::High ==> x.wire_name() == "high"@,
{
}

/// Each format is sent as its own name in lowercase.
pub proof fn law_format_words(x: Format)
    ensures
        x == Format::Gif ==> x.wire_name() == "gif"@,
        x == Format::Webp ==> x.wire_name() == "webp"@,
        x == Format::Jpg ==> x.wire_name() == "jpg"@,
        x == Format::Mp4 ==> x.wire_name() == "mp4"@,
        x == Format::Webm ==> x.wire_name() == "webm"@,
        x == Format::Png ==> x.wire_name() == "png"@,
{
}

/// Each report reason is sent as its own name in snake_case.
pub proof fn law_report_reason_words(x: ReportReason)
    ensures
        x == ReportReason::Nudity ==> x.wire_name() == "nudity"@,
        x == ReportReason::Violence ==> x.wire_name() == "violence"@,
        x == ReportReason::HateSpeech ==> x.wire_name() == "hate_speech"@,
        x == ReportReason::Harassment ==> x.wire_name() == "harassment"@,
        x == ReportReason::Spam ==> x.wire_name() == "spam"@,
        x == ReportReason::Misinformation ==> x.wire_name() == "misinformation"@,
        x == ReportReason::Copyright ==> x.wire_name() == "copyright"@,
        x == ReportReason::Offensive ==> x.wire_name() == "offensive"@,
        x == ReportReason::Illegal ==> x.wire_name() == "illegal"@,
        x == ReportReason::Broken ==> x.wire_name() == "broken"@,
        x == ReportReason::LowQuality ==> x.wire_name() == "low_quality"@,
        x == ReportReason::NotRelevant ==> x.wire_name() == "not_relevant"@,
        x == ReportReason::Impersonation ==> x.wire_name() == "impersonation"@,
        x == ReportReason::Other ==> x.wire_name() == "other"@,
{
}

/// Different content filter levels are sent as different words.
pub proof fn law_content_filter_names_distinct(a: ContentFilter, b: ContentFilter)
    requires
        a != b,
    ensures
        a.wire_name() != b.wire_name(),
{
    reveal_strlit("off");
    reveal_strlit("low");
    reveal_strlit("medium");
    reveal_strlit("high");
    if a.wire_name() == b.wire_name() {
        assert(a.wire_name().len() == b.wire_name().len());
        assert(a.wire_name()[0] == b.wire_name()[0]);
    }
}

/// Different formats are sent as different words.
pub proof fn law_format_names_distinct(a: Format, b: Format)
    requires
        a != b,
    ensures
        a.wire_name() != b.wire_name(),
{
    reveal_strlit("gif");
    reveal_strlit("webp");
    reveal_strlit("jpg");
    reveal_strlit("mp4");
    reveal_strlit("webm");
    reveal_strlit("png");
    if a.wire_name() == b.wire_name() {
        assert(a.wire_name().len() == b.wire_name().len());
        assert(a.wire_name()[0] == b.wire_name()[0]);
        assert(a.wire_name()[1] == b.wire_name()[1]);
        assert(a.wire_name()[2] == b.wire_name()[2]);
        if a.wire_name().len() == 4 {
            assert(a.wire_name()[3] == b.wire_name()[3]);
        }
    }
}

/// Different report reasons are sent as different words.
pub proof fn law_report_reason_names_distinct(a: ReportReason, b: ReportReason)
    requires
        a != b,
    ensures
        a.wire_name() != b.wire_name(),
{
    reveal_strlit("nudity");
    reveal_strlit("violence");
    reveal_strlit("hate_speech");
    reveal_strlit("harassment");
    reveal_strlit("spam");
    reveal_strlit("misinformation");
    reveal_strlit("copyright");
    reveal_strlit("offensive");
    reveal_strlit("illegal");
    reveal_strlit("broken");
    reveal_strlit("low_quality");
    reveal_strlit("not_relevant");
    reveal_strlit("impersonation");
    reveal_strlit("other");
    if a.wire_name() == b.wire_name() {
        assert(a.wire_name().len() == b.wire_name().len());
        assert(a.wire_name()[0] == b.wire_name()[0]);
    }
}

/// Requests for different API paths go to different URLs.
pub proof fn law_distinct_paths_distinct_urls(base: Seq<char>, app_key: Seq<char>, p: Seq<char>, q: Seq<char>)
    requires
        p != q,
    ensures
        api_url(base, app_key, p) != api_url(base, app_key, q),
{
    let prefix = base + "/api/v1/"@ + app_key + "/"@;
    assert(api_url(base, app_key, p) =~= prefix + p);
    assert(api_url(base, app_key, q) =~= prefix + q);
    if prefix + p == prefix + q {
        assert(p =~= (prefix + p).subrange(prefix.len() as int, (prefix + p).len() as int));
        assert(q =~= (prefix + q).subrange(prefix.len() as int, (prefix + q).len() as int));
    }
}

/// A client built from a `User-Agent` made only of characters allowed in a
/// header value (a tab, or anything from the space on except DEL) is built
/// with exactly that `User-Agent`; without one, with none.
pub proof fn law_valid_user_agent_is_kept(ua: Seq<char>)
    requires
        forall|i: int| 0 <= i < ua.len() ==> (ua[i] == '\t' || (ua[i] as u32 >= 32 && ua[i] as u32 != 127)),
    ensures
        effective_user_agent(Some(ua)) == Some(ua),
        effective_user_agent(None) == None::<Seq<char>>,
{
}

/// A `User-Agent` holding a character that no header value may hold (a
/// control character other than tab, or DEL) is left out.
pub proof fn law_invalid_user_agent_is_left_out(ua: Seq<char>, i: int)
    requires
        0 <= i < ua.len(),
        !(ua[i] == '\t' || (ua[i] as u32 >= 32 && ua[i] as u32 != 127)),
    ensures
        effective_user_agent(Some(ua)) == None::<Seq<char>>,
{
}

/// The format filter names each format by its own wire word, one per format,
/// in the order given.
pub proof fn law_format_filter_names_each_format(formats: Seq<Format>)
    ensures
        format_names(formats).len() == formats.len(),
        forall|i: int| 0 <= i < formats.len() ==> #[trigger] format_names(formats)[i] == formats[i].wire_name(),
{
}

/// A non-empty format filter, as sent, splits at its commas back into the
/// wire words of the formats, in order.
pub proof fn law_format_filter_splits_back(formats: Seq<Format>)
    requires
        formats.len() >= 1,
    ensures
        split_at(joined(format_names(formats), seq![',']), ',') == formats.map_values(|f: Format| f.wire_name()),
{
    reveal_strlit("gif");
    reveal_strlit("webp");
    reveal_strlit("jpg");
    reveal_strlit("mp4");
    reveal_strlit("webm");
    reveal_strlit("png");
    let names = format_names(formats);
    assert forall|i: int| 0 <= i < names.len() implies !(#[trigger] names[i]).contains(',') by {
        let w = formats[i].wire_name();
        assert(names[i] == w);
        if w.contains(',') {
            let k = choose|k: int| 0 <= k < w.len() && w[k] == ',';
            assert(w[k] != ',');
        }
    }
    law_joined_list_splits_back(names, ',');
    assert(names =~= formats.map_values(|f: Format| f.wire_name()));
}

/// The share body holds `customer_id` then `q`; each is the text set on the
/// builder, or empty when none was set, whatever the other one is.
pub proof fn law_share_body_members(customer_id: Option<Seq<char>>, q: Option<Seq<char>>)
    ensures
        share_fields(customer_id, q).len() == 2,
        share_fields(customer_id, q)[0].0 == "customer_id"@,
        share_fields(customer_id, q)[1].0 == "q"@,
        customer_id matches Some(c) ==> share_fields(customer_id, q)[0].1 == c,
        customer_id is None ==> share_fields(customer_id, q)[0].1 == Seq::<char>::empty(),
        q matches Some(t) ==> share_fields(customer_id, q)[1].1 == t,
        q is None ==> share_fields(customer_id, q)[1].1 == Seq::<char>::empty(),
{
}

/// The report body holds `customer_id` (empty when none was set) then
/// `reason`, which is exactly the reason text given, whatever it is.
pub proof fn law_report_body_members(customer_id: Option<Seq<char>>, reason: Seq<char>)
    ensures
        report_fields(customer_id, reason).len() == 2,
        report_fields(customer_id, reason)[0].0 == "customer_id"@,
        customer_id matches Some(c) ==> report_fields(customer_id, reason)[0].1 == c,
        customer_id is None ==> report_fields(customer_id, reason)[0].1 == Seq::<char>::empty(),
        report_fields(customer_id, reason)[1] == ("reason"@, reason),
{
}

/// Reports with different reasons have different bodies.
pub proof fn law_distinct_reasons_distinct_reports(customer_id: Option<Seq<char>>, a: ReportReason, b: ReportReason)
    requires
        a != b,
    ensures
        report_fields(customer_id, a.wire_name()) != report_fields(customer_id, b.wire_name()),
{
    law_report_reason_names_distinct(a, b);
    law_report_body_members(customer_id, a.wire_name());
    law_report_body_members(customer_id, b.wire_name());
    if report_fields(customer_id, a.wire_name()) == report_fields(customer_id, b.wire_name()) {
        assert(report_fields(customer_id, a.wire_name())[1] == report_fields(customer_id, b.wire_name())[1]);
    }
}

/// The emoji generation body always holds the prompt first, and holds the
/// callback URL, exactly as given, when and only when one is given.
pub proof fn law_generate_body_members(prompt: Seq<char>, callback_url: Option<Seq<char>>)
    ensures
        generate_fields(prompt, callback_url)[0] == ("prompt"@, prompt),
        callback_url is None ==> generate_fields(prompt, callback_url).len() == 1,
        callback_url matches Some(u) ==> {
            &&& generate_fields(prompt, callback_url).len() == 2
            &&& generate_fields(prompt, callback_url)[1] == ("callback_url"@, u)
        },
{
}

/// One for an option that is set, zero for one that is not.
#[verifier::opaque]
pub open spec fn set_count<A>(option: Option<A>) -> nat {
    if option is Some {
        1
    } else {
        0
    }
}

/// How many of the ad options are set.
pub open spec fn ad_options_set(p: AdParams) -> nat {
    set_count(p.customer_id)
        + set_count(p.min_width)
        + set_count(p.max_width)
        + set_count(p.min_height)
        + set_count(p.max_height)
        + set_count(p.position)
        + set_count(p.iframe)
        + set_count(p.app_version)
        + set_count(p.os)
        + set_count(p.os_version)
        + set_count(p.hardware_version)
        + set_count(p.make)
        + set_count(p.model)
        + set_count(p.ifa)
        + set_count(p.device_h)
        + set_count(p.device_w)
        + set_count(p.ppi)
        + set_count(p.px_ratio)
        + set_count(p.language)
        + set_count(p.carrier)
        + set_count(p.mcc_mnc)
        + set_count(p.connection_type)
        + set_count(p.did_sha1)
        + set_count(p.did_md5)
        + set_count(p.dpid_sha1)
        + set_count(p.dpid_md5)
        + set_count(p.mac_sha1)
        + set_count(p.mac_md5)
        + set_count(p.year_of_birth)
        + set_count(p.gender)
}

/// Every ad option that is set gives one query pair, and one that is not set
/// gives none: none is dropped or doubled.
proof fn lemma_text_param_len(name: Seq<char>, value: Option<String>)
    ensures
        text_param(name, value.deep_view()).len() == set_count(value),
{
    reveal(set_count);
}

proof fn lemma_number_param_len(name: Seq<char>, value: Option<u32>)
    ensures
        number_param(name, value).len() == set_count(value),
{
    reveal(set_count);
}

proof fn lemma_flag_param_len(name: Seq<char>, value: Option<bool>)
    ensures
        flag_param(name, value).len() == set_count(value),
{
    reveal(set_count);
}

pub proof fn law_ad_query_one_pair_per_set_option(p: AdParams)
    ensures
        ad_query(p).len() == ad_options_set(p),
{
    lemma_text_param_len("customer_id"@, p.customer_id);
    let s0 = text_param("customer_id"@, p.customer_id.deep_view());
    let c0: nat = set_count(p.customer_id);
    assert(s0.len() == c0);
    lemma_number_param_len("ad-min-width"@, p.min_width);
    let s1 = s0 + number_param("ad-min-width"@, p.min_width);
    let c1: nat = c0 + set_count(p.min_width);
    assert(s1.len() == c1);
    lemma_number_param_len("ad-max-width"@, p.max_width);
    let s2 = s1 + number_param("ad-max-width"@, p.max_width);
    let c2: nat = c1 + set_count(p.max_width);
    assert(s2.len() == c2);
    lemma_number_param_len("ad-min-height"@, p.min_height);
    let s3 = s2 + number_param("ad-min-height"@, p.min_height);
    let c3: nat = c2 + set_count(p.min_height);
    assert(s3.len() == c3);
    lemma_number_param_len("ad-max-height"@, p.max_height);
    let s4 = s3 + number_param("ad-max-height"@, p.max_height);
    let c4: nat = c3 + set_count(p.max_height);
    assert(s4.len() == c4);
    lemma_number_param_len("ad-position"@, p.position);
    let s5 = s4 + number_param("ad-position"@, p.position);
    let c5: nat = c4 + set_count(p.position);
    assert(s5.len() == c5);
    lemma_flag_param_len("ad-iframe"@, p.iframe);
    let s6 = s5 + flag_param("ad-iframe"@, p.iframe);
    let c6: nat = c5 + set_count(p.iframe);
    assert(s6.len() == c6);
    lemma_text_param_len("ad-app-version"@, p.app_version);
    let s7 = s6 + text_param("ad-app-version"@, p.app_version.deep_view());
    let c7: nat = c6 + set_count(p.app_version);
    assert(s7.len() == c7);
    lemma_text_param_len("ad-os"@, p.os);
    let s8 = s7 + text_param("ad-os"@, p.os.deep_view());
    let c8: nat = c7 + set_count(p.os);
    assert(s8.len() == c8);
    lemma_text_param_len("ad-osv"@, p.os_version);
    let s9 = s8 + text_param("ad-osv"@, p.os_version.deep_view());
    let c9: nat = c8 + set_count(p.os_version);
    assert(s9.len() == c9);
    lemma_text_param_len("ad-hwv"@, p.hardware_version);
    let s10 = s9 + text_param("ad-hwv"@, p.hardware_version.deep_view());
    let c10: nat = c9 + set_count(p.hardware_version);
    assert(s10.len() == c10);
    lemma_text_param_len("ad-make"@, p.make);
    let s11 = s10 + text_param("ad-make"@, p.make.deep_view());
    let c11: nat = c10 + set_count(p.make);
    assert(s11.len() == c11);
    lemma_text_param_len("ad-model"@, p.model);
    let s12 = s11 + text_param("ad-model"@, p.model.deep_view());
    let c12: nat = c11 + set_count(p.model);
    assert(s12.len() == c12);
    lemma_text_param_len("ad-ifa"@, p.ifa);
    let s13 = s12 + text_param("ad-ifa"@, p.ifa.deep_view());
    let c13: nat = c12 + set_count(p.ifa);
    assert(s13.len() == c13);
    lemma_number_param_len("ad-device-h"@, p.device_h);
    let s14 = s13 + number_param("ad-device-h"@, p.device_h);
    let c14: nat = c13 + set_count(p.device_h);
    assert(s14.len() == c14);
    lemma_number_param_len("ad-device-w"@, p.device_w);
    let s15 = s14 + number_param("ad-device-w"@, p.device_w);
    let c15: nat = c14 + set_count(p.device_w);
    assert(s15.len() == c15);
    lemma_number_param_len("ad-ppi"@, p.ppi);
    let s16 = s15 + number_param("ad-ppi"@, p.ppi);
    let c16: nat = c15 + set_count(p.ppi);
    assert(s16.len() == c16);
    lemma_text_param_len("ad-pxratio"@, p.px_ratio);
    let s17 = s16 + text_param("ad-pxratio"@, p.px_ratio.deep_view());
    let c17: nat = c16 + set_count(p.px_ratio);
    assert(s17.len() == c17);
    lemma_text_param_len("ad-language"@, p.language);
    let s18 = s17 + text_param("ad-language"@, p.language.deep_view());
    let c18: nat = c17 + set_count(p.language);
    assert(s18.len() == c18);
    lemma_text_param_len("ad-carrier"@, p.carrier);
    let s19 = s18 + text_param("ad-carrier"@, p.carrier.deep_view());
    let c19: nat = c18 + set_count(p.carrier);
    assert(s19.len() == c19);
    lemma_text_param_len("ad-mccmnc"@, p.mcc_mnc);
    let s20 = s19 + text_param("ad-mccmnc"@, p.mcc_mnc.deep_view());
    let c20: nat = c19 + set_count(p.mcc_mnc);
    assert(s20.len() == c20);
    lemma_number_param_len("ad-connection-type"@, p.connection_type);
    let s21 = s20 + number_param("ad-connection-type"@, p.connection_type);
    let c21: nat = c20 + set_count(p.connection_type);
    assert(s21.len() == c21);
    lemma_text_param_len("ad-didsha1"@, p.did_sha1);
    let s22 = s21 + text_param("ad-didsha1"@, p.did_sha1.deep_view());
    let c22: nat = c21 + set_count(p.did_sha1);
    assert(s22.len() == c22);
    lemma_text_param_len("ad-didmd5"@, p.did_md5);
    let s23 = s22 + text_param("ad-didmd5"@, p.did_md5.deep_view());
    let c23: nat = c22 + set_count(p.did_md5);
    assert(s23.len() == c23);
    lemma_text_param_len("ad-dpidsha1"@, p.dpid_sha1);
    let s24 = s23 + text_param("ad-dpidsha1"@, p.dpid_sha1.deep_view());
    let c24: nat = c23 + set_count(p.dpid_sha1);
    assert(s24.len() == c24);
    lemma_text_param_len("ad-dpidmd5"@, p.dpid_md5);
    let s25 = s24 + text_param("ad-dpidmd5"@, p.dpid_md5.deep_view());
    let c25: nat = c24 + set_count(p.dpid_md5);
    assert(s25.len() == c25);
    lemma_text_param_len("ad-macsha1"@, p.mac_sha1);
    let s26 = s25 + text_param("ad-macsha1"@, p.mac_sha1.deep_view());
    let c26: nat = c25 + set_count(p.mac_sha1);
    assert(s26.len() == c26);
    lemma_text_param_len("ad-macmd5"@, p.mac_md5);
    let s27 = s26 + text_param("ad-macmd5"@, p.mac_md5.deep_view());
    let c27: nat = c26 + set_count(p.mac_md5);
    assert(s27.len() == c27);
    lemma_number_param_len("ad-yob"@, p.year_of_birth);
    let s28 = s27 + number_param("ad-yob"@, p.year_of_birth);
    let c28: nat = c27 + set_count(p.year_of_birth);
    assert(s28.len() == c28);
    lemma_text_param_len("ad-gender"@, p.gender);
    let s29 = s28 + text_param("ad-gender"@, p.gender.deep_view());
    let c29: nat = c28 + set_count(p.gender);
    assert(s29.len() == c29);
    assert(ad_query(p) == s29);
    assert(ad_options_set(p) == c29);
}

/// How one ad option is sent: a text as it is, a number in decimal, a yes/no
/// as `"1"`/`"0"`, each under its name; an option not set sends nothing.
pub proof fn law_ad_option_encoding(name: Seq<char>, text: Seq<char>, number: u32, flag: bool)
    ensures
        text_param(name, Some(text)) == seq![(name, text)],
        number_param(name, Some(number)) == seq![(name, decimal(number as nat))],
        flag_param(name, Some(true)) == seq![(name, "1"@)],
        flag_param(name, Some(false)) == seq![(name, "0"@)],
        text_param(name, None).len() == 0,
        number_param(name, None).len() == 0,
        flag_param(name, None).len() == 0,
{
}

/// The URL of a path is the base URL, `/api/v1/`, the key, `/`, then the path.
pub proof fn law_url_shape(base: Seq<char>, app_key: Seq<char>, path: Seq<char>)
    ensures
        api_url(base, app_key, path) == base + "/api/v1/"@ + app_key + "/"@ + path,
        api_url(base, app_key, path).subrange(0, base.len() as int) == base,
        api_url(base, app_key, path).subrange(
            api_url(base, app_key, path).len() - path.len(),
            api_url(base, app_key, path).len() as int,
        ) == path,
{
    let u = api_url(base, app_key, path);
    assert(u.subrange(0, base.len() as int) =~= base);
    assert(u.subrange(u.len() - path.len(), u.len() as int) =~= path);
}

} // verus!
