//! The values that the API answers with.
use vstd::prelude::*;
use std::collections::BTreeMap;

use crate::error::Error;

verus! {

/// Generic envelope wrapping every response.
#[derive(Debug)]
pub struct Envelope<T> {
    pub result: bool,
    pub data: Option<T>,
}

impl<T> Envelope<T> {
    /// The payload of a successful envelope: the data when the API reported
    /// `result: true` and sent data, `Error::Unsuccessful` otherwise.
    pub fn into_data(self) -> (r: Result<T, Error>)
        ensures
            self.result && self.data is Some ==> r == Ok::<T, Error>(self.data->0),
            !(self.result && self.data is Some) ==> r == Err::<T, Error>(Error::Unsuccessful),
    {
        match (self.result, self.data) {
            (true, Some(data)) => Ok(data),
            _ => Err(Error::Unsuccessful),
        }
    }
}

/// A single concrete media file.
#[derive(Debug, Clone)]
pub struct File {
    pub url: String,
    pub width: u32,
    pub height: u32,
    pub size: u64,
}

/// The set of formats available at a given size.
#[derive(Debug, Clone, Default)]
pub struct Formats {
    pub gif: Option<File>,
    pub webp: Option<File>,
    pub jpg: Option<File>,
    pub mp4: Option<File>,
    pub webm: Option<File>,
    pub png: Option<File>,
}

/// Renditions of a media item across its available sizes.
#[derive(Debug, Clone, Default)]
pub struct Sizes {
    pub hd: Option<Formats>,
    pub md: Option<Formats>,
    pub sm: Option<Formats>,
    pub xs: Option<Formats>,
}

/// A GIF, sticker, meme, or emoji item.
#[derive(Debug, Clone)]
pub struct MediaItem {
    pub id: i64,
    pub slug: String,
    pub title: String,
    pub file: Sizes,
    pub tags: Vec<String>,
    /// The `type` field of the item.
    pub kind: String,
    pub blur_preview: Option<String>,
}

/// Width/height pair for a clip rendition.
#[derive(Debug, Clone, Copy)]
pub struct Dimensions {
    pub width: u32,
    pub height: u32,
}

/// Direct URLs for a clip's renditions.
#[derive(Debug, Clone, Default)]
pub struct ClipFiles {
    pub mp4: Option<String>,
    pub gif: Option<String>,
    pub webp: Option<String>,
}

/// A movie/video clip item.
#[derive(Debug, Clone)]
pub struct ClipItem {
    pub url: String,
    pub title: String,
    pub slug: String,
    pub file: ClipFiles,
    pub file_meta: BTreeMap<String, Dimensions>,
    pub tags: Vec<String>,
    /// The `type` field of the item.
    pub kind: String,
    pub blur_preview: Option<String>,
}

/// An advertisement object. If ads are enabled for your app, some API
/// responses may include an advertisement object alongside content objects.
/// When `type` is `"ad"`, the object is an advertisement.
#[derive(Debug, Clone)]
pub struct AdItem {
    /// HTML content to display (webview for mobile apps).
    pub content: String,
    pub width: u32,
    pub height: u32,
    /// The `type` field of the item.
    pub kind: String,
}

/// The generated emoji data.
#[derive(Debug, Clone)]
pub struct GeneratedEmoji {
    pub base64_encoded: String,
    pub mime_type: String,
}

/// Status of an AI Emoji generation request.
#[derive(Debug, Clone, PartialEq, Eq, Structural)]
pub enum GenerationStatus {
    Processing,
    Success,
    Failed,
}

/// Status and result of an AI Emoji generation request.
#[derive(Debug, Clone)]
pub struct EmojiStatus {
    pub id: String,
    pub status: GenerationStatus,
    pub result: Option<GeneratedEmoji>,
}

/// A list entry: either content of type `T` or an advertisement.
#[derive(Debug, Clone)]
pub enum Item<T> {
    Content(T),
    Ad(AdItem),
}

impl<T> Item<T> {
    /// Returns the content item, or `None` if this entry is an advertisement.
    pub fn content(&self) -> (r: Option<&T>)
        ensures
            r is Some <==> self is Content,
            r is Some ==> *r->0 == self->Content_0,
    {
        match self {
            Item::Content(c) => Some(c),
            Item::Ad(_) => None,
        }
    }

    /// Returns the advertisement, or `None` if this entry is content.
    pub fn ad(&self) -> (r: Option<&AdItem>)
        ensures
            r is Some <==> self is Ad,
            r is Some ==> *r->0 == self->Ad_0,
    {
        match self {
            Item::Content(_) => None,
            Item::Ad(a) => Some(a),
        }
    }
}

/// The content entries of `items`, in their order, with the advertisements left out.
pub open spec fn contents_of<T>(items: Seq<Item<T>>) -> Seq<T>
    decreases items.len(),
{
    if items.len() == 0 {
        Seq::empty()
    } else {
        let rest = contents_of(items.drop_last());
        match items.last() {
            Item::Content(c) => rest.push(c),
            Item::Ad(_) => rest,
        }
    }
}

/// The advertisements of `items`, in their order, with the content entries left out.
pub open spec fn ads_of<T>(items: Seq<Item<T>>) -> Seq<AdItem>
    decreases items.len(),
{
    if items.len() == 0 {
        Seq::empty()
    } else {
        let rest = ads_of(items.drop_last());
        match items.last() {
            Item::Content(_) => rest,
            Item::Ad(a) => rest.push(a),
        }
    }
}

/// Metadata returned alongside AI Emoji list responses.
#[derive(Debug, Clone)]
pub struct EmojiMeta {
    /// Minimum display width for each emoji item, in pixels.
    pub item_min_width: Option<u32>,
    /// Maximum percentage by which an ad may be resized.
    pub ad_max_resize_percent: Option<u32>,
}

/// A paginated list of items. Pagination fields are absent for the
/// `items` endpoint. The `meta` field is present only on
/// AI Emoji list responses.
#[derive(Debug, Clone)]
pub struct Page<T> {
    pub data: Vec<Item<T>>,
    pub current_page: Option<u32>,
    pub per_page: Option<u32>,
    pub has_next: bool,
    pub meta: Option<EmojiMeta>,
}

impl<T> Page<T> {
    /// The content items only, in order, skipping any advertisements.
    pub fn content_items(&self) -> (r: Vec<&T>)
        ensures
            r@.map_values(|x: &T| *x) == contents_of(self.data@),
    {
        let mut r: Vec<&T> = Vec::new();
        let n: usize = self.data.len();
        let mut i: usize = 0;
        while i < n
            invariant
                n == self.data@.len(),
                i <= n,
                r@.map_values(|x: &T| *x) == contents_of(self.data@.take(i as int)),
            decreases n - i,
        {
            assert(self.data@.take(i + 1).drop_last() =~= self.data@.take(i as int));
            match &self.data[i] {
                Item::Content(c) => {
                    r.push(c);
                },
                Item::Ad(_) => {},
            }
            assert(r@.map_values(|x: &T| *x) =~= contents_of(self.data@.take(i + 1)));
            i = i + 1;
        }
        assert(self.data@.take(n as int) =~= self.data@);
        r
    }

    /// The advertisements only, in order, skipping any content items.
    pub fn ad_items(&self) -> (r: Vec<&AdItem>)
        ensures
            r@.map_values(|x: &AdItem| *x) == ads_of(self.data@),
    {
        let mut r: Vec<&AdItem> = Vec::new();
        let n: usize = self.data.len();
        let mut i: usize = 0;
        while i < n
            invariant
                n == self.data@.len(),
                i <= n,
                r@.map_values(|x: &AdItem| *x) == ads_of(self.data@.take(i as int)),
            decreases n - i,
        {
            assert(self.data@.take(i + 1).drop_last() =~= self.data@.take(i as int));
            match &self.data[i] {
                Item::Content(_) => {},
                Item::Ad(a) => {
                    r.push(a);
                },
            }
            assert(r@.map_values(|x: &AdItem| *x) =~= ads_of(self.data@.take(i + 1)));
            i = i + 1;
        }
        assert(self.data@.take(n as int) =~= self.data@);
        r
    }
}

/// A curated content category.
#[derive(Debug, Clone)]
pub struct Category {
    pub category: String,
    pub query: String,
    pub preview_url: Option<String>,
}

/// The payload returned by a `categories` request.
#[derive(Debug, Clone)]
pub struct Categories {
    pub locale: String,
    pub categories: Vec<Category>,
}

} // verus!
