//! Request parameters with a fixed set of values, and the words that name them on the wire.
use vstd::prelude::*;

verus! {

/// Specify the content safety filter level.
#[derive(Debug, Clone, Copy, PartialEq, Eq, Structural)]
pub enum ContentFilter {
    Off,
    Low,
    Medium,
    High,
}

impl ContentFilter {
    /// The lowercase word that names the level in a request.
    pub open spec fn wire_name(self) -> Seq<char> {
        match self {
            ContentFilter::Off => "off"@,
            ContentFilter::Low => "low"@,
            ContentFilter::Medium => "medium"@,
            ContentFilter::High => "high"@,
        }
    }

    /// The lowercase word that names the level in a request.
    pub fn as_str(self) -> (s: &'static str)
        ensures
            s@ == self.wire_name(),
    {
        match self {
            ContentFilter::Off => "off",
            ContentFilter::Low => "low",
            ContentFilter::Medium => "medium",
            ContentFilter::High => "high",
        }
    }
}

/// A desired format. Possible values: gif, webp, jpg, mp4, webm (stickers also
/// use png).
#[derive(Debug, Clone, Copy, PartialEq, Eq, Structural)]
pub enum Format {
    Gif,
    Webp,
    Jpg,
    Mp4,
    Webm,
    Png,
}

impl Format {
    /// The lowercase word that names the format in a request.
    pub open spec fn wire_name(self) -> Seq<char> {
        match self {
            Format::Gif => "gif"@,
            Format::Webp => "webp"@,
            Format::Jpg => "jpg"@,
            Format::Mp4 => "mp4"@,
            Format::Webm => "webm"@,
            Format::Png => "png"@,
        }
    }

    /// The lowercase word that names the format in a request.
    pub fn as_str(self) -> (s: &'static str)
        ensures
            s@ == self.wire_name(),
    {
        match self {
            Format::Gif => "gif",
            Format::Webp => "webp",
            Format::Jpg => "jpg",
            Format::Mp4 => "mp4",
            Format::Webm => "webm",
            Format::Png => "png",
        }
    }
}

/// The reason for reporting the content, providing context for KLIPY's review
/// process.
#[derive(Debug, Clone, Copy, PartialEq, Eq, Structural)]
pub enum ReportReason {
    /// Nudity or sexually explicit content.
    Nudity,
    /// Graphic violence or violent behavior.
    Violence,
    /// Racist, homophobic, or hateful content.
    HateSpeech,
    /// Bullying, personal attacks, or targeted harassment.
    Harassment,
    /// Repetitive, irrelevant, or misleading content.
    Spam,
    /// False claims, misleading text, or manipulated media.
    Misinformation,
    /// Content believed to infringe on intellectual property rights.
    Copyright,
    /// Generally offensive or culturally inappropriate material.
    Offensive,
    /// Content that promotes or depicts illegal activity.
    Illegal,
    /// Content doesn't load, is corrupted, or is unplayable.
    Broken,
    /// Extremely low resolution or unreadable content.
    LowQuality,
    /// Content doesn't match the tag/query or is miscategorized.
    NotRelevant,
    /// Fake identity, misleading branding, or impersonation.
    Impersonation,
    /// Other issues not listed above. Free-text description recommended.
    Other,
}

impl ReportReason {
    /// The snake_case word that names the reason in a report body.
    pub open spec fn wire_name(self) -> Seq<char> {
        match self {
            ReportReason::Nudity => "nudity"@,
            ReportReason::Violence => "violence"@,
            ReportReason::HateSpeech => "hate_speech"@,
            ReportReason::Harassment => "harassment"@,
            ReportReason::Spam => "spam"@,
            ReportReason::Misinformation => "misinformation"@,
            ReportReason::Copyright => "copyright"@,
            ReportReason::Offensive => "offensive"@,
            ReportReason::Illegal => "illegal"@,
            ReportReason::Broken => "broken"@,
            ReportReason::LowQuality => "low_quality"@,
            ReportReason::NotRelevant => "not_relevant"@,
            ReportReason::Impersonation => "impersonation"@,
            ReportReason::Other => "other"@,
        }
    }

    /// The snake_case word that names the reason in a report body.
    pub fn as_str(self) -> (s: &'static str)
        ensures
            s@ == self.wire_name(),
    {
        match self {
            ReportReason::Nudity => "nudity",
            ReportReason::Violence => "violence",
            ReportReason::HateSpeech => "hate_speech",
            ReportReason::Harassment => "harassment",
            ReportReason::Spam => "spam",
            ReportReason::Misinformation => "misinformation",
            ReportReason::Copyright => "copyright",
            ReportReason::Offensive => "offensive",
            ReportReason::Illegal => "illegal",
            ReportReason::Broken => "broken",
            ReportReason::LowQuality => "low_quality",
            ReportReason::NotRelevant => "not_relevant",
            ReportReason::Impersonation => "impersonation",
            ReportReason::Other => "other",
        }
    }
}

} // verus!
