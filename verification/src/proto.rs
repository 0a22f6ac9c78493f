//! The parts of the MANGA Plus protobuf messages that the client inspects.
//!
//! Every view keeps its whole wire encoding as bytes, for the caller to
//! decode against its own schema; the few fields the client checks are
//! decoded beside it.

pub mod response;
pub mod success_result;

use vstd::prelude::*;

verus! {

/// Top-level envelope of every API answer.
#[derive(Debug)]
pub struct Response {
    pub result: Option<response::Result>,
}

/// A successful answer; `data` carries the endpoint's payload.
#[derive(Debug)]
pub struct SuccessResult {
    pub data: Option<success_result::Data>,
}

/// A localized popup attached to a server error.
#[derive(Debug)]
pub struct ErrorPopup {
    pub subject: String,
    pub body: String,
}

/// A failed answer.
#[derive(Debug)]
pub struct ErrorResult {
    pub action: i32,
    pub english_popup: Option<ErrorPopup>,
    pub debug_info: String,
}

/// A title, as far as the client reads it.
#[derive(Debug)]
pub struct Title {
    /// The `Title.language` wire enum.
    pub language: i32,
}

/// The detail page of a title (with its chapter list).
#[derive(Debug)]
pub struct TitleDetailView {
    /// The title, as far as the client reads it.
    pub title: Option<Title>,
    /// The whole view in wire encoding.
    pub encoded: Vec<u8>,
}

/// The page list of a chapter.
#[derive(Debug)]
pub struct MangaViewer {
    /// Three-letter content-language code of the chapter.
    pub title_language: String,
    /// The whole viewer (pages included) in wire encoding.
    pub encoded: Vec<u8>,
}

/// The answer to a device registration.
#[derive(Debug)]
pub struct RegisterationData {
    pub device_secret: String,
}

/// The account's profile settings, in wire encoding.
#[derive(Debug)]
pub struct ProfileSettingsView {
    pub encoded: Vec<u8>,
}

/// The bookmarked titles, in wire encoding.
#[derive(Debug)]
pub struct SubscribedTitlesView {
    pub encoded: Vec<u8>,
}

/// The search catalog (or one all-titles bucket), in wire encoding.
#[derive(Debug)]
pub struct SearchView {
    pub encoded: Vec<u8>,
}

/// The subscription state, in wire encoding.
#[derive(Debug)]
pub struct SubscriptionView {
    pub encoded: Vec<u8>,
}

/// The favorite titles, in wire encoding.
#[derive(Debug)]
pub struct FavoriteTitlesView {
    pub encoded: Vec<u8>,
}

impl Default for Title {
    fn default() -> (r: Self)
        ensures
            r.language == 0,
    {
        Title { language: 0 }
    }
}

impl Default for TitleDetailView {
    fn default() -> (r: Self)
        ensures
            r.title is None,
            r.encoded@ == Seq::<u8>::empty(),
    {
        TitleDetailView { title: None, encoded: Vec::new() }
    }
}

impl Default for MangaViewer {
    fn default() -> (r: Self)
        ensures
            r.title_language@ == Seq::<char>::empty(),
            r.encoded@ == Seq::<u8>::empty(),
    {
        MangaViewer { title_language: String::new(), encoded: Vec::new() }
    }
}

} // verus!
