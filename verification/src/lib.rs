//! Client for the KLIPY API: the requests it makes and what it makes of the
//! answers, with the transport left to the caller.

pub mod client;
pub mod endpoints;
pub mod error;
pub mod http;
pub mod json;
pub mod laws;
pub mod model;
pub mod params;
pub mod request;
pub mod response;
pub mod text;

pub use client::{Klipy, KlipyBuilder};
pub use endpoints::{AdParams, Endpoints, ListBuilder, ReportBuilder, ShareBuilder};
pub use error::{Error, Result};
pub use model::{
    AdItem, Categories, Category, ClipFiles, ClipItem, Dimensions, EmojiMeta, EmojiStatus, Envelope,
    File, Formats, GeneratedEmoji, GenerationStatus, Item, MediaItem, Page, Sizes,
};
pub use params::{ContentFilter, Format, ReportReason};
pub use request::{Method, Request};
pub use response::{ack_result, check_status, status_succeeded};
