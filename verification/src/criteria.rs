//! Whether a picture's size and shape make it a wallpaper.

use vstd::prelude::*;
use crate::config::{BWConfig, ConfigView};
use crate::types::WallpaperCandidate;
use crate::text::{
    parse_u32_chars, parse_u32_spec, split_once_chars, split_once_spec, str_equal,
    string_from_chars, trim, trimmed_chars, IntErrorKind,
};

verus! {

/// At least the minimum width and height, with the aspect ratio in range.
/// The aspect-ratio verdict is the floating-point comparison
/// `min <= width as f32 / height as f32 <= max`, made by the caller.
pub open spec fn dimensions_match_spec(
    width: u32,
    height: u32,
    min_width: u32,
    min_height: u32,
    aspect_ratio_in_range: bool,
) -> bool {
    width >= min_width && height >= min_height && aspect_ratio_in_range
}

/// Whether a picture is large enough and, by the caller's verdict, of the
/// right shape.
pub fn dimensions_match(
    width: u32,
    height: u32,
    min_width: u32,
    min_height: u32,
    aspect_ratio_in_range: bool,
) -> (r: bool)
    ensures
        r == dimensions_match_spec(width, height, min_width, min_height, aspect_ratio_in_range),
{
    width >= min_width && height >= min_height && aspect_ratio_in_range
}

/// A picture turned on its side is large enough; no shape check applies.
pub open spec fn rotated_match_spec(rotated_width: u32, rotated_height: u32, min_width: u32, min_height: u32) -> bool {
    rotated_width >= min_width && rotated_height >= min_height
}

/// Whether a picture, measured after turning it on its side, is large enough.
pub fn rotated_portrait_dimensions_match(
    rotated_width: u32,
    rotated_height: u32,
    min_width: u32,
    min_height: u32,
) -> (r: bool)
    ensures
        r == rotated_match_spec(rotated_width, rotated_height, min_width, min_height),
{
    rotated_width >= min_width && rotated_height >= min_height
}

/// A picture is accepted when the size checks are off, when it matches as it
/// stands, or, with portrait rotation on, when it is taller than wide and
/// matches the minimum size once turned.
pub open spec fn wallpaper_match_spec(width: u32, height: u32, aspect_ratio_in_range: bool, config: ConfigView) -> bool {
    ||| config.resolution_filter_disabled()
    ||| dimensions_match_spec(width, height, config.min_width(), config.min_height(), aspect_ratio_in_range)
    ||| (config.rotates_portrait() && width < height && rotated_match_spec(
        height,
        width,
        config.min_width(),
        config.min_height(),
    ))
}

/// Whether a picture of this size suits as a wallpaper under `config`; the
/// caller gives the aspect-ratio verdict for the configured bounds.
pub fn wallpaper_dimensions_match(width: u32, height: u32, aspect_ratio_in_range: bool, config: &BWConfig) -> (r: bool)
    ensures
        r == wallpaper_match_spec(width, height, aspect_ratio_in_range, config@),
{
    if config.resolution_filter_disabled() {
        return true;
    }
    let min_width = config.effective_min_width();
    let min_height = config.effective_min_height();
    dimensions_match(width, height, min_width, min_height, aspect_ratio_in_range) || (
    config.rotates_portrait() && width < height && rotated_portrait_dimensions_match(
        height,
        width,
        min_width,
        min_height,
    ))
}

/// Portrait rotation is on and the post's recorded size is taller than wide.
pub open spec fn rotate_spec(metadata_dimensions: Option<(u32, u32)>, config: ConfigView) -> bool {
    config.rotates_portrait() && (metadata_dimensions matches Some(d) && d.0 < d.1)
}

/// Whether the downloaded picture is to be turned clockwise before use.
pub fn should_rotate_portrait(metadata_dimensions: Option<(u32, u32)>, config: &BWConfig) -> (r: bool)
    ensures
        r == rotate_spec(metadata_dimensions, config@),
{
    config.rotates_portrait() && match metadata_dimensions {
        Some((width, height)) => width < height,
        None => false,
    }
}

/// The width and height that a candidate's post recorded, when it recorded both.
pub fn metadata_dimensions(candidate: &WallpaperCandidate) -> (r: Option<(u32, u32)>)
    ensures
        r == match (candidate.width, candidate.height) {
            (Some(w), Some(h)) => Some((w, h)),
            _ => None,
        },
{
    match (candidate.width, candidate.height) {
        (Some(w), Some(h)) => Some((w, h)),
        _ => None,
    }
}

/// A picture is turned only when rotation is on and its recorded size is
/// taller than wide; turned, it is judged by size alone.
pub proof fn lemma_rotation_only_for_portrait(metadata_dimensions: Option<(u32, u32)>, config: ConfigView)
    ensures
        rotate_spec(metadata_dimensions, config) ==> (config.rotates_portrait()
            && (metadata_dimensions matches Some(d) && d.0 < d.1)),
        rotate_spec(metadata_dimensions, config) ==> (metadata_dimensions matches Some(d) && (
            rotated_match_spec(d.1, d.0, config.min_width(), config.min_height())
                ==> forall|v: bool| #[trigger] wallpaper_match_spec(d.0, d.1, v, config))),
{
}

/// The local size check does not depend on the board: Danbooru candidates,
/// which get no size tags, are still checked after download.
pub proof fn lemma_check_independent_of_board(
    width: u32,
    height: u32,
    aspect_ratio_in_range: bool,
    config: ConfigView,
    imageboard: Option<crate::types::BWImageboard>,
)
    ensures
        wallpaper_match_spec(width, height, aspect_ratio_in_range, ConfigView { imageboard, ..config })
            == wallpaper_match_spec(width, height, aspect_ratio_in_range, config),
{
}

/// With the resolution filter on, a picture that is accepted without being
/// turned is at least as wide and as high as configured (1600 by 900 pixels
/// where nothing is configured) and of the right shape; one that is accepted
/// only by turning it is a portrait whose turned size meets those minimums.
/// Conversely, a picture that meets them as it stands is accepted.
pub proof fn lemma_accepted_pictures_meet_the_minimums(
    width: u32,
    height: u32,
    aspect_ratio_in_range: bool,
    config: ConfigView,
    min_width: u32,
    min_height: u32,
)
    requires
        config.disable_resolution_filter != Some(true),
        min_width == (match config.wallpaper_min_width {
            Some(m) => m,
            None => 1600u32,
        }),
        min_height == (match config.wallpaper_min_height {
            Some(m) => m,
            None => 900u32,
        }),
    ensures
        wallpaper_match_spec(width, height, aspect_ratio_in_range, config) && !(config.rotate_portrait == Some(true)
            && width < height) ==> width >= min_width && height >= min_height && aspect_ratio_in_range,
        wallpaper_match_spec(width, height, aspect_ratio_in_range, config) ==> (width >= min_width && height
            >= min_height && aspect_ratio_in_range) || (config.rotate_portrait == Some(true) && width < height
            && height >= min_width && width >= min_height),
        width >= min_width && height >= min_height && aspect_ratio_in_range ==> wallpaper_match_spec(
            width,
            height,
            aspect_ratio_in_range,
            config,
        ),
        height < min_height && width < min_height ==> !wallpaper_match_spec(width, height, aspect_ratio_in_range, config),
        config.rotate_portrait == Some(true) && width < height && height >= min_width && width >= min_height
            ==> wallpaper_match_spec(width, height, aspect_ratio_in_range, config),
{
}

/// With the resolution filter off, every picture is accepted.
pub proof fn lemma_filter_off_accepts_all(width: u32, height: u32, aspect_ratio_in_range: bool, config: ConfigView)
    requires
        config.disable_resolution_filter == Some(true),
    ensures
        wallpaper_match_spec(width, height, aspect_ratio_in_range, config),
{
}

/// The content types that are videos.
pub open spec fn is_video_spec(content_type: Option<Seq<char>>) -> bool {
    content_type matches Some(t) && (t == "video/mp4"@ || t == "video/webm"@)
}

/// Whether the downloaded file is an MP4 or WebM video.
pub fn is_video_content_type(content_type: Option<&str>) -> (r: bool)
    ensures
        r == is_video_spec(match content_type { Some(t) => Some(t@), None => None }),
{
    match content_type {
        Some(t) => str_equal(t, "video/mp4") || str_equal(t, "video/webm"),
        None => false,
    }
}

/// Where a candidate's size is learnt, if it is checked at all.
#[derive(Clone, Copy, Debug, PartialEq, Eq, Structural)]
pub enum DimensionSource {
    /// Size checks are off.
    Skip,
    /// The post recorded its width and height.
    Metadata(u32, u32),
    /// The downloaded video is measured with `ffprobe`.
    VideoProbe,
    /// The downloaded picture's header is read.
    ImageHeader,
}

/// Checks are skipped when off; recorded sizes are used where present;
/// otherwise videos are probed and pictures read.
pub open spec fn dimension_source_spec(
    content_type: Option<Seq<char>>,
    metadata_dimensions: Option<(u32, u32)>,
    config: ConfigView,
) -> DimensionSource {
    if config.resolution_filter_disabled() {
        DimensionSource::Skip
    } else {
        match metadata_dimensions {
            Some(d) => DimensionSource::Metadata(d.0, d.1),
            None => if is_video_spec(content_type) {
                DimensionSource::VideoProbe
            } else {
                DimensionSource::ImageHeader
            },
        }
    }
}

/// Decides how a candidate's size is found before it is validated.
pub fn dimension_source(
    content_type: Option<&str>,
    metadata_dimensions: Option<(u32, u32)>,
    config: &BWConfig,
) -> (r: DimensionSource)
    ensures
        r == dimension_source_spec(
            match content_type { Some(t) => Some(t@), None => None },
            metadata_dimensions,
            config@,
        ),
{
    if config.resolution_filter_disabled() {
        return DimensionSource::Skip;
    }
    match metadata_dimensions {
        Some((width, height)) => DimensionSource::Metadata(width, height),
        None => if is_video_content_type(content_type) {
            DimensionSource::VideoProbe
        } else {
            DimensionSource::ImageHeader
        },
    }
}

/// Why a candidate was refused.
#[derive(Clone, Copy, Debug, PartialEq, Eq, Structural)]
pub enum CriteriaError {
    /// The picture's size or shape does not suit.
    DimensionsMismatch { width: u32, height: u32 },
}

/// Accepts a candidate of this size when it suits under `config`, else
/// refuses it with its size.
pub fn validate_wallpaper_candidate(
    width: u32,
    height: u32,
    aspect_ratio_in_range: bool,
    config: &BWConfig,
) -> (r: Result<(), CriteriaError>)
    ensures
        r is Ok <==> wallpaper_match_spec(width, height, aspect_ratio_in_range, config@),
        r matches Err(e) ==> e == (CriteriaError::DimensionsMismatch { width, height }),
{
    if !wallpaper_dimensions_match(width, height, aspect_ratio_in_range, config) {
        return Err(CriteriaError::DimensionsMismatch { width, height });
    }
    Ok(())
}

/// Why `ffprobe`'s answer could not be read.
#[derive(Debug)]
pub enum ProbeError {
    /// The trimmed output has no `x` between width and height.
    UnexpectedFormat(String),
    /// Width or height is not a number.
    InvalidNumber(IntErrorKind),
}

/// What `WIDTHxHEIGHT` output gives: the trimmed text is split at its first
/// `x`, then width and height are read as `u32` in that order.
pub open spec fn probe_dimensions_spec(output: Seq<char>) -> Result<(u32, u32), IntErrorKind> {
    let parts = split_once_spec(trim(output), 'x').unwrap();
    match parse_u32_spec(parts.0) {
        Err(k) => Err(k),
        Ok(w) => match parse_u32_spec(parts.1) {
            Err(k) => Err(k),
            Ok(h) => Ok((w, h)),
        },
    }
}

/// Reads the width and height that `ffprobe -of csv=s=x:p=0` prints.
pub fn parse_probe_dimensions(output: &str) -> (r: Result<(u32, u32), ProbeError>)
    ensures
        split_once_spec(trim(output@), 'x') is None <==> r matches Err(ProbeError::UnexpectedFormat(_)),
        r matches Err(ProbeError::UnexpectedFormat(d)) ==> d@ == trim(output@),
        split_once_spec(trim(output@), 'x') is Some ==> match probe_dimensions_spec(output@) {
            Ok(d) => r matches Ok(v) && v == d,
            Err(k) => r matches Err(ProbeError::InvalidNumber(e)) && e == k,
        },
{
    let dims = trimmed_chars(output);
    match split_once_chars(&dims, 'x') {
        None => Err(ProbeError::UnexpectedFormat(string_from_chars(&dims))),
        Some((width, height)) => {
            let w = match parse_u32_chars(&width) {
                Ok(v) => v,
                Err(k) => return Err(ProbeError::InvalidNumber(k)),
            };
            let h = match parse_u32_chars(&height) {
                Ok(v) => v,
                Err(k) => return Err(ProbeError::InvalidNumber(k)),
            };
            Ok((w, h))
        },
    }
}

} // verus!
