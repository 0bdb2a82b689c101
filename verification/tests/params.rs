use klipy::{ContentFilter, Format, ReportReason};

#[test]
fn content_filter_words() {
    assert_eq!(ContentFilter::Off.as_str(), "off");
    assert_eq!(ContentFilter::Low.as_str(), "low");
    assert_eq!(ContentFilter::Medium.as_str(), "medium");
    assert_eq!(ContentFilter::High.as_str(), "high");
}

#[test]
fn format_words() {
    assert_eq!(Format::Gif.as_str(), "gif");
    assert_eq!(Format::Webp.as_str(), "webp");
    assert_eq!(Format::Jpg.as_str(), "jpg");
    assert_eq!(Format::Mp4.as_str(), "mp4");
    assert_eq!(Format::Webm.as_str(), "webm");
    assert_eq!(Format::Png.as_str(), "png");
}

#[test]
fn report_reason_words_are_snake_case() {
    assert_eq!(ReportReason::Nudity.as_str(), "nudity");
    assert_eq!(ReportReason::Violence.as_str(), "violence");
    assert_eq!(ReportReason::HateSpeech.as_str(), "hate_speech");
    assert_eq!(ReportReason::Harassment.as_str(), "harassment");
    assert_eq!(ReportReason::Spam.as_str(), "spam");
    assert_eq!(ReportReason::Misinformation.as_str(), "misinformation");
    assert_eq!(ReportReason::Copyright.as_str(), "copyright");
    assert_eq!(ReportReason::Offensive.as_str(), "offensive");
    assert_eq!(ReportReason::Illegal.as_str(), "illegal");
    assert_eq!(ReportReason::Broken.as_str(), "broken");
    assert_eq!(ReportReason::LowQuality.as_str(), "low_quality");
    assert_eq!(ReportReason::NotRelevant.as_str(), "not_relevant");
    assert_eq!(ReportReason::Impersonation.as_str(), "impersonation");
    assert_eq!(ReportReason::Other.as_str(), "other");
}

#[test]
fn distinct_levels_and_formats_have_distinct_words() {
    let filters = [ContentFilter::Off, ContentFilter::Low, ContentFilter::Medium, ContentFilter::High];
    for a in filters.iter() {
        for b in filters.iter() {
            assert_eq!(a == b, a.as_str() == b.as_str());
        }
    }
    let formats = [Format::Gif, Format::Webp, Format::Jpg, Format::Mp4, Format::Webm, Format::Png];
    for a in formats.iter() {
        for b in formats.iter() {
            assert_eq!(a == b, a.as_str() == b.as_str());
        }
    }
}

#[test]
fn distinct_report_reasons_have_distinct_words() {
    let reasons = [
        ReportReason::Nudity,
        ReportReason::Violence,
        ReportReason::HateSpeech,
        ReportReason::Harassment,
        ReportReason::Spam,
        ReportReason::Misinformation,
        ReportReason::Copyright,
        ReportReason::Offensive,
        ReportReason::Illegal,
        ReportReason::Broken,
        ReportReason::LowQuality,
        ReportReason::NotRelevant,
        ReportReason::Impersonation,
        ReportReason::Other,
    ];
    for a in reasons.iter() {
        for b in reasons.iter() {
            assert_eq!(a == b, a.as_str() == b.as_str());
        }
    }
}
