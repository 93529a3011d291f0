//! The settings' enumerations, the posts that a board returns, and the
//! candidates picked from them.

use vstd::prelude::*;

verus! {

/// The imageboard that posts are searched on.
#[derive(Clone, Copy, Debug, PartialEq, Eq, Structural)]
pub enum BWImageboard {
    Danbooru,
    Gelbooru,
    Rule34,
    Safebooru,
}

impl Default for BWImageboard {
    fn default() -> (r: Self)
        ensures
            r == BWImageboard::Safebooru,
    {
        BWImageboard::Safebooru
    }
}

/// The backend that puts the picture on the desktop.
#[derive(Clone, Copy, Debug, PartialEq, Eq, Structural)]
pub enum BWWallpaperSetter {
    Wallpaper,
    Awww,
}

impl Default for BWWallpaperSetter {
    fn default() -> (r: Self)
        ensures
            r == BWWallpaperSetter::Wallpaper,
    {
        BWWallpaperSetter::Wallpaper
    }
}

/// The safety rating that posts are filtered by.
#[derive(Clone, Copy, Debug, PartialEq, Eq, Structural)]
pub enum BWRating {
    Safe,
    Questionable,
    Explicit,
}

impl Default for BWRating {
    fn default() -> (r: Self)
        ensures
            r == BWRating::Safe,
    {
        BWRating::Safe
    }
}

/// The order in which a board returns posts.
#[derive(Clone, Copy, Debug, PartialEq, Eq, Structural)]
pub enum BWSortBy {
    Random,
    Id,
    Score,
    Rating,
    User,
    Height,
    Width,
    Source,
    Updated,
}

impl Default for BWSortBy {
    fn default() -> (r: Self)
        ensures
            r == BWSortBy::Random,
    {
        BWSortBy::Random
    }
}

/// The board searched when the settings name none.
pub const DEFAULT_IMAGEBOARD: BWImageboard = BWImageboard::Safebooru;

/// The backend used when the settings name none.
pub const DEFAULT_WALLPAPER_SETTER: BWWallpaperSetter = BWWallpaperSetter::Wallpaper;

/// The `Referer` header value sent when downloading from `imageboard`.
pub open spec fn referer_spec(imageboard: BWImageboard) -> Seq<char> {
    match imageboard {
        BWImageboard::Gelbooru => "https://gelbooru.com/"@,
        BWImageboard::Rule34 => "https://rule34.xxx/"@,
        BWImageboard::Safebooru => "https://safebooru.org/"@,
        BWImageboard::Danbooru => "https://danbooru.donmai.us/"@,
    }
}

/// The site address that downloads from `imageboard` name as their referer.
pub fn referer_for_imageboard(imageboard: &BWImageboard) -> (r: &'static str)
    ensures
        r@ == referer_spec(*imageboard),
{
    match imageboard {
        BWImageboard::Gelbooru => "https://gelbooru.com/",
        BWImageboard::Rule34 => "https://rule34.xxx/",
        BWImageboard::Safebooru => "https://safebooru.org/",
        BWImageboard::Danbooru => "https://danbooru.donmai.us/",
    }
}

/// Why a post could not be used.
#[derive(Clone, Copy, Debug, PartialEq, Eq, Structural)]
pub enum PostError {
    /// The post names no file to download.
    NoFileUrl,
}

/// A post whose download address can be asked for.
pub trait TryGetUrl {
    /// The address that the post offers for download, if any.
    spec fn url_spec(&self) -> Option<Seq<char>>;

    fn try_get_url(&self) -> (r: Result<&str, PostError>)
        ensures
            match r {
                Ok(url) => self.url_spec() == Some(url@),
                Err(e) => self.url_spec() is None && e == PostError::NoFileUrl,
            },
    ;
}

/// A post whose picture size can be asked for.
pub trait TryGetDimensions {
    /// The width and height that the post records, if any.
    spec fn dimensions_spec(&self) -> Option<(u32, u32)>;

    fn try_get_dimensions(&self) -> (r: Result<(u32, u32), PostError>)
        ensures
            match r {
                Ok(d) => self.dimensions_spec() == Some(d),
                Err(_) => self.dimensions_spec() is None,
            },
    ;
}

/// What the library reads of a Danbooru post.
pub struct DanbooruPost {
    pub large_file_url: Option<String>,
    pub file_url: Option<String>,
    pub preview_file_url: Option<String>,
    pub image_width: u32,
    pub image_height: u32,
}

/// What the library reads of a Gelbooru post.
pub struct GelbooruPost {
    pub file_url: String,
    pub width: u32,
    pub height: u32,
}

/// What the library reads of a Rule34 post.
pub struct Rule34Post {
    pub file_url: String,
    pub width: u32,
    pub height: u32,
}

/// What the library reads of a Safebooru post.
pub struct SafebooruPost {
    pub file_url: String,
    pub width: u32,
    pub height: u32,
}

/// The characters of an optional string.
pub open spec fn opt_view(s: Option<String>) -> Option<Seq<char>> {
    match s {
        Some(v) => Some(v@),
        None => None,
    }
}

impl TryGetUrl for DanbooruPost {
    /// The large file first, then the full-size file, then the preview.
    open spec fn url_spec(&self) -> Option<Seq<char>> {
        if self.large_file_url is Some {
            opt_view(self.large_file_url)
        } else if self.file_url is Some {
            opt_view(self.file_url)
        } else {
            opt_view(self.preview_file_url)
        }
    }

    fn try_get_url(&self) -> (r: Result<&str, PostError>) {
        if let Some(url) = &self.large_file_url {
            return Ok(url.as_str());
        }
        if let Some(url) = &self.file_url {
            return Ok(url.as_str());
        }
        if let Some(url) = &self.preview_file_url {
            return Ok(url.as_str());
        }
        Err(PostError::NoFileUrl)
    }
}

impl TryGetDimensions for DanbooruPost {
    open spec fn dimensions_spec(&self) -> Option<(u32, u32)> {
        Some((self.image_width, self.image_height))
    }

    fn try_get_dimensions(&self) -> (r: Result<(u32, u32), PostError>) {
        Ok((self.image_width, self.image_height))
    }
}

impl TryGetUrl for GelbooruPost {
    open spec fn url_spec(&self) -> Option<Seq<char>> {
        Some(self.file_url@)
    }

    fn try_get_url(&self) -> (r: Result<&str, PostError>) {
        Ok(self.file_url.as_str())
    }
}

impl TryGetDimensions for GelbooruPost {
    open spec fn dimensions_spec(&self) -> Option<(u32, u32)> {
        Some((self.width, self.height))
    }

    fn try_get_dimensions(&self) -> (r: Result<(u32, u32), PostError>) {
        Ok((self.width, self.height))
    }
}

impl TryGetUrl for Rule34Post {
    open spec fn url_spec(&self) -> Option<Seq<char>> {
        Some(self.file_url@)
    }

    fn try_get_url(&self) -> (r: Result<&str, PostError>) {
        Ok(self.file_url.as_str())
    }
}

impl TryGetDimensions for Rule34Post {
    open spec fn dimensions_spec(&self) -> Option<(u32, u32)> {
        Some((self.width, self.height))
    }

    fn try_get_dimensions(&self) -> (r: Result<(u32, u32), PostError>) {
        Ok((self.width, self.height))
    }
}

impl TryGetUrl for SafebooruPost {
    open spec fn url_spec(&self) -> Option<Seq<char>> {
        Some(self.file_url@)
    }

    fn try_get_url(&self) -> (r: Result<&str, PostError>) {
        Ok(self.file_url.as_str())
    }
}

impl TryGetDimensions for SafebooruPost {
    open spec fn dimensions_spec(&self) -> Option<(u32, u32)> {
        Some((self.width, self.height))
    }

    fn try_get_dimensions(&self) -> (r: Result<(u32, u32), PostError>) {
        Ok((self.width, self.height))
    }
}

/// A post picked for download: its address and, where the post records
/// them, its width and height.
#[derive(Clone, Debug, PartialEq)]
pub struct WallpaperCandidate {
    pub url: String,
    pub width: Option<u32>,
    pub height: Option<u32>,
}

} // verus!
