//! Which downloads can be shown, how each is prepared for the chosen backend,
//! and the file names and `ffmpeg` arguments that preparation uses.

use vstd::prelude::*;
use crate::config::{BWConfig, ConfigView};
use crate::criteria::{is_video_content_type, is_video_spec};
use crate::text::{
    after_last, after_last_chars, before_first, before_first_chars, chars_equal, chars_of, decimal,
    has_prefix, is_last_index, push_decimal, push_str, starts_with, str_equal, string_from_chars,
};
use crate::types::BWWallpaperSetter;

verus! {

/// Pictures of any kind, and MP4 and WebM videos.
pub open spec fn supported_spec(content_type: Seq<char>) -> bool {
    ||| has_prefix(content_type, "image/"@)
    ||| content_type == "video/mp4"@
    ||| content_type == "video/webm"@
}

/// Whether a download of this content type can be shown; both backends take
/// the same types, videos being converted first.
pub fn is_supported_content_type(wallpaper_setter: &BWWallpaperSetter, content_type: &str) -> (r: bool)
    ensures
        r == supported_spec(content_type@),
{
    if starts_with(content_type, "image/") {
        return true;
    }
    match wallpaper_setter {
        BWWallpaperSetter::Wallpaper | BWWallpaperSetter::Awww => {
            str_equal(content_type, "video/mp4") || str_equal(content_type, "video/webm")
        },
    }
}

/// Why a download was refused before being saved.
#[derive(Debug)]
pub enum ContentError {
    /// The server announced a content type that the backend cannot show.
    UnsupportedContentType { wallpaper_setter: BWWallpaperSetter, content_type: String },
}

/// Accepts a download whose announced content type can be shown, or that
/// announces none; refuses any other with the backend and the type.
pub fn check_content_type(wallpaper_setter: &BWWallpaperSetter, content_type: Option<&str>) -> (r: Result<(), ContentError>)
    ensures
        match content_type {
            None => r is Ok,
            Some(t) => if supported_spec(t@) {
                r is Ok
            } else {
                r matches Err(ContentError::UnsupportedContentType { wallpaper_setter: s, content_type: c })
                    && s == *wallpaper_setter && c@ == t@
            },
        },
{
    match content_type {
        None => Ok(()),
        Some(t) => if is_supported_content_type(wallpaper_setter, t) {
            Ok(())
        } else {
            Err(ContentError::UnsupportedContentType { wallpaper_setter: *wallpaper_setter, content_type: owned(t) })
        },
    }
}

/// Every picture type can be shown by either backend, and a picture that is
/// not to be turned is shown as downloaded.
pub proof fn lemma_pictures_pass_through(wallpaper_setter: BWWallpaperSetter, content_type: Seq<char>)
    requires
        has_prefix(content_type, "image/"@),
    ensures
        supported_spec(content_type),
        preparation_spec(wallpaper_setter, Some(content_type), false) == Preparation::UseDownloaded,
{
    reveal_strlit("image/");
    reveal_strlit("video/mp4");
    reveal_strlit("video/webm");
    assert(content_type.take(6)[0] == content_type[0]);
    assert(content_type[0] == 'i');
    if content_type == "video/mp4"@ {
        assert(content_type[0] == 'v');
    }
    if content_type == "video/webm"@ {
        assert(content_type[0] == 'v');
    }
}

/// MP4 and WebM videos are shown by either backend: `awww` gets a GIF
/// conversion, `wallpaper` a still frame.
pub proof fn lemma_videos_prepared_per_backend(content_type: Seq<char>, rotate_portrait: bool)
    requires
        content_type == "video/mp4"@ || content_type == "video/webm"@,
    ensures
        supported_spec(content_type),
        preparation_spec(BWWallpaperSetter::Awww, Some(content_type), rotate_portrait)
            == (Preparation::ConvertVideoToGif { rotate: rotate_portrait }),
        preparation_spec(BWWallpaperSetter::Wallpaper, Some(content_type), rotate_portrait)
            == (Preparation::ExtractStaticFrame { rotate: rotate_portrait }),
{
}

/// What is done to a download before it is shown.
#[derive(Clone, Copy, Debug, PartialEq, Eq, Structural)]
pub enum Preparation {
    /// The downloaded file is shown as it is.
    UseDownloaded,
    /// One frame of the video is saved as PNG, turned clockwise first when `rotate`.
    ExtractStaticFrame { rotate: bool },
    /// The video is converted to a looping GIF, turned clockwise first when `rotate`.
    ConvertVideoToGif { rotate: bool },
    /// The picture is turned clockwise and saved as PNG.
    RotateImage,
    /// The GIF animation is turned clockwise.
    RotateGif,
}

/// The `wallpaper` backend shows a still frame of a video; `awww` shows an
/// animation, and turns GIFs without flattening them. Pictures are turned
/// only when asked, and otherwise shown as downloaded.
pub open spec fn preparation_spec(
    wallpaper_setter: BWWallpaperSetter,
    content_type: Option<Seq<char>>,
    rotate_portrait: bool,
) -> Preparation {
    match wallpaper_setter {
        BWWallpaperSetter::Wallpaper => if is_video_spec(content_type) {
            Preparation::ExtractStaticFrame { rotate: rotate_portrait }
        } else if rotate_portrait {
            Preparation::RotateImage
        } else {
            Preparation::UseDownloaded
        },
        BWWallpaperSetter::Awww => if is_video_spec(content_type) {
            Preparation::ConvertVideoToGif { rotate: rotate_portrait }
        } else if content_type == Some("image/gif"@) && rotate_portrait {
            Preparation::RotateGif
        } else if rotate_portrait {
            Preparation::RotateImage
        } else {
            Preparation::UseDownloaded
        },
    }
}

/// Decides how a download is prepared for `wallpaper_setter`.
pub fn wallpaper_preparation(
    wallpaper_setter: &BWWallpaperSetter,
    content_type: Option<&str>,
    rotate_portrait: bool,
) -> (r: Preparation)
    ensures
        r == preparation_spec(
            *wallpaper_setter,
            match content_type { Some(t) => Some(t@), None => None },
            rotate_portrait,
        ),
{
    let video = is_video_content_type(content_type);
    match wallpaper_setter {
        BWWallpaperSetter::Wallpaper => if video {
            Preparation::ExtractStaticFrame { rotate: rotate_portrait }
        } else if rotate_portrait {
            Preparation::RotateImage
        } else {
            Preparation::UseDownloaded
        },
        BWWallpaperSetter::Awww => {
            let gif = match content_type {
                Some(t) => str_equal(t, "image/gif"),
                None => false,
            };
            if video {
                Preparation::ConvertVideoToGif { rotate: rotate_portrait }
            } else if gif && rotate_portrait {
                Preparation::RotateGif
            } else if rotate_portrait {
                Preparation::RotateImage
            } else {
                Preparation::UseDownloaded
            }
        },
    }
}

/// The clockwise-turn filter that leads a chain when the picture is turned.
pub open spec fn rotation_prefix(rotate_portrait: bool) -> Seq<char> {
    if rotate_portrait {
        "transpose=1,"@
    } else {
        Seq::<char>::empty()
    }
}

/// `ffmpeg` filters for an animation: an optional clockwise turn, then the
/// frame rate and a width-preserving scale.
pub open spec fn animated_filter_spec(config: ConfigView, rotate_portrait: bool) -> Seq<char> {
    rotation_prefix(rotate_portrait) + "fps="@ + decimal(config.animation_fps() as nat) + ",scale="@
        + decimal(config.animation_width() as nat) + ":-2:flags=lanczos"@
}

/// `ffmpeg` filters for a still frame: an optional clockwise turn, then a
/// width-preserving scale.
pub open spec fn static_filter_spec(config: ConfigView, rotate_portrait: bool) -> Seq<char> {
    rotation_prefix(rotate_portrait) + "scale="@ + decimal(config.animation_width() as nat)
        + ":-2:flags=lanczos"@
}

/// `s` ends with `suffix`.
pub open spec fn ends_with(s: Seq<char>, suffix: Seq<char>) -> bool {
    suffix.len() <= s.len() && s.skip(s.len() - suffix.len()) == suffix
}

/// Animations and still frames are scaled to the same width: the configured
/// animation width, or 1280 pixels where none is set; animations run at the
/// configured frame rate, or 10 frames a second. Turning the picture only
/// puts the clockwise turn in front.
pub proof fn lemma_filters_use_configured_width(config: ConfigView, rotate_portrait: bool, width: u32, fps: u32)
    requires
        width == (match config.animated_width {
            Some(w) => w,
            None => 1280u32,
        }),
        fps == (match config.animated_fps {
            Some(f) => f,
            None => 10u32,
        }),
    ensures
        ends_with(
            animated_filter_spec(config, rotate_portrait),
            "fps="@ + decimal(fps as nat) + ",scale="@ + decimal(width as nat) + ":-2:flags=lanczos"@,
        ),
        ends_with(static_filter_spec(config, rotate_portrait), "scale="@ + decimal(width as nat) + ":-2:flags=lanczos"@),
        animated_filter_spec(config, rotate_portrait) == rotation_prefix(rotate_portrait) + "fps="@ + decimal(
            fps as nat,
        ) + ","@ + static_filter_spec(config, false),
{
    reveal_strlit(",scale=");
    reveal_strlit(",");
    reveal_strlit("scale=");
    let a = "fps="@ + decimal(fps as nat) + ",scale="@ + decimal(width as nat) + ":-2:flags=lanczos"@;
    let b = "scale="@ + decimal(width as nat) + ":-2:flags=lanczos"@;
    let p = rotation_prefix(rotate_portrait);
    assert(animated_filter_spec(config, rotate_portrait) =~= p + a);
    assert((p + a).skip(p.len() as int) =~= a);
    assert(static_filter_spec(config, rotate_portrait) =~= p + b);
    assert((p + b).skip(p.len() as int) =~= b);
    assert(static_filter_spec(config, false) =~= b);
    assert(",scale="@ =~= ","@ + "scale="@);
    assert(animated_filter_spec(config, rotate_portrait) =~= p + "fps="@ + decimal(fps as nat) + ","@ + b);
}

fn push_rotation(s: &mut String, rotate_portrait: bool)
    ensures
        final(s)@ == old(s)@ + rotation_prefix(rotate_portrait),
{
    if rotate_portrait {
        push_str(s, "transpose=1,");
    } else {
        assert(old(s)@ + Seq::<char>::empty() == old(s)@);
    }
}

/// The filter chain for turning a video into an animation.
pub fn animated_video_filter(config: &BWConfig, rotate_portrait: bool) -> (r: String)
    ensures
        r@ == animated_filter_spec(config@, rotate_portrait),
{
    let mut s = String::new();
    push_rotation(&mut s, rotate_portrait);
    push_str(&mut s, "fps=");
    push_decimal(&mut s, config.effective_animated_fps() as u128);
    push_str(&mut s, ",scale=");
    push_decimal(&mut s, config.effective_animated_width() as u128);
    push_str(&mut s, ":-2:flags=lanczos");
    s
}

/// The filter chain for taking one frame of a video.
pub fn static_frame_filter(config: &BWConfig, rotate_portrait: bool) -> (r: String)
    ensures
        r@ == static_filter_spec(config@, rotate_portrait),
{
    let mut s = String::new();
    push_rotation(&mut s, rotate_portrait);
    push_str(&mut s, "scale=");
    push_decimal(&mut s, config.effective_animated_width() as u128);
    push_str(&mut s, ":-2:flags=lanczos");
    s
}

/// An owned copy of `s`.
pub fn owned(s: &str) -> (r: String)
    ensures
        r@ == s@,
{
    let mut r = String::new();
    push_str(&mut r, s);
    r
}

/// Arguments for `ffmpeg` to turn the video `input` into the looping GIF
/// `output`, cut to the configured length, without sound.
pub fn convert_video_args(input: &str, output: &str, config: &BWConfig, rotate_portrait: bool) -> (r: Vec<String>)
    ensures
        r.deep_view() == seq![
            "-y"@, "-t"@, decimal(config@.animation_seconds() as nat), "-i"@, input@, "-an"@, "-vf"@,
            animated_filter_spec(config@, rotate_portrait), "-loop"@, "0"@, output@,
        ],
{
    let mut duration = String::new();
    push_decimal(&mut duration, config.effective_animated_max_duration_seconds() as u128);
    let mut v: Vec<String> = Vec::new();
    v.push(owned("-y"));
    v.push(owned("-t"));
    v.push(duration);
    v.push(owned("-i"));
    v.push(owned(input));
    v.push(owned("-an"));
    v.push(owned("-vf"));
    v.push(animated_video_filter(config, rotate_portrait));
    v.push(owned("-loop"));
    v.push(owned("0"));
    v.push(owned(output));
    assert(v.deep_view() =~= seq![
        "-y"@, "-t"@, decimal(config@.animation_seconds() as nat), "-i"@, input@, "-an"@, "-vf"@,
        animated_filter_spec(config@, rotate_portrait), "-loop"@, "0"@, output@,
    ]);
    v
}

/// Arguments for `ffmpeg` to save the first frame of the video `input` as `output`.
pub fn static_frame_args(input: &str, output: &str, config: &BWConfig, rotate_portrait: bool) -> (r: Vec<String>)
    ensures
        r.deep_view() == seq![
            "-y"@, "-i"@, input@, "-frames:v"@, "1"@, "-vf"@, static_filter_spec(config@, rotate_portrait),
            output@,
        ],
{
    let mut v: Vec<String> = Vec::new();
    v.push(owned("-y"));
    v.push(owned("-i"));
    v.push(owned(input));
    v.push(owned("-frames:v"));
    v.push(owned("1"));
    v.push(owned("-vf"));
    v.push(static_frame_filter(config, rotate_portrait));
    v.push(owned(output));
    assert(v.deep_view() =~= seq![
        "-y"@, "-i"@, input@, "-frames:v"@, "1"@, "-vf"@, static_filter_spec(config@, rotate_portrait),
        output@,
    ]);
    v
}

/// Arguments for `ffmpeg` to turn the GIF `input` clockwise into `output`.
pub fn rotate_gif_args(input: &str, output: &str) -> (r: Vec<String>)
    ensures
        r.deep_view() == seq!["-y"@, "-i"@, input@, "-vf"@, "transpose=1"@, output@],
{
    let mut v: Vec<String> = Vec::new();
    v.push(owned("-y"));
    v.push(owned("-i"));
    v.push(owned(input));
    v.push(owned("-vf"));
    v.push(owned("transpose=1"));
    v.push(owned(output));
    assert(v.deep_view() =~= seq!["-y"@, "-i"@, input@, "-vf"@, "transpose=1"@, output@]);
    v
}

/// Arguments for `ffprobe` to print the first video stream's size as `WIDTHxHEIGHT`.
pub fn probe_dimensions_args(input: &str) -> (r: Vec<String>)
    ensures
        r.deep_view() == seq![
            "-v"@, "error"@, "-select_streams"@, "v:0"@, "-show_entries"@, "stream=width,height"@,
            "-of"@, "csv=s=x:p=0"@, input@,
        ],
{
    let mut v: Vec<String> = Vec::new();
    v.push(owned("-v"));
    v.push(owned("error"));
    v.push(owned("-select_streams"));
    v.push(owned("v:0"));
    v.push(owned("-show_entries"));
    v.push(owned("stream=width,height"));
    v.push(owned("-of"));
    v.push(owned("csv=s=x:p=0"));
    v.push(owned(input));
    assert(v.deep_view() =~= seq![
        "-v"@, "error"@, "-select_streams"@, "v:0"@, "-show_entries"@, "stream=width,height"@,
        "-of"@, "csv=s=x:p=0"@, input@,
    ]);
    v
}

/// Arguments for `awww` to show the file at `path`.
pub fn awww_args(path: &str) -> (r: Vec<String>)
    ensures
        r.deep_view() == seq!["img"@, path@],
{
    let mut v: Vec<String> = Vec::new();
    v.push(owned("img"));
    v.push(owned(path));
    assert(v.deep_view() =~= seq!["img"@, path@]);
    v
}

/// The name that a download is saved under: the last part of the address's
/// path, cut at the first `?`, or `wallpaper.png` where that is empty.
pub open spec fn file_name_spec(url: Seq<char>) -> Seq<char> {
    let segment = after_last(url, '/');
    let name = before_first(segment, '?');
    if segment.len() > 0 && name.len() > 0 {
        name
    } else {
        "wallpaper.png"@
    }
}

/// The file name that the download from `url` is saved under.
pub fn file_name_from_url(url: &str) -> (r: String)
    ensures
        r@ == file_name_spec(url@),
{
    let cs = chars_of(url);
    let segment = after_last_chars(&cs, '/');
    if segment.len() > 0 {
        let name = before_first_chars(&segment, '?');
        if name.len() > 0 {
            return string_from_chars(&name);
        }
    }
    owned("wallpaper.png")
}

/// The stem of a file name as `Path::file_stem` gives it: none for `..`,
/// which names no file; otherwise the part before the last dot, unless there
/// is no dot or the only dot leads the name, in which cases the whole name.
pub open spec fn file_stem_spec(name: Seq<char>) -> Option<Seq<char>> {
    if name == seq!['.', '.'] {
        None
    } else if exists|i: int| is_last_index(name, '.', i) {
        let i = choose|i: int| is_last_index(name, '.', i);
        if i == 0 {
            Some(name)
        } else {
            Some(name.take(i))
        }
    } else {
        Some(name)
    }
}

/// The stem of the file name `name`, if it has one.
pub fn file_stem(name: &Vec<char>) -> (r: Option<Vec<char>>)
    ensures
        match file_stem_spec(name@) {
            Some(stem) => r matches Some(v) && v@ == stem,
            None => r is None,
        },
{
    if name.len() == 2 && name[0] == '.' && name[1] == '.' {
        assert(name@ =~= seq!['.', '.']);
        return None;
    }
    assert(name@ != seq!['.', '.']) by {
        if name@.len() == 2 {
            assert(name@[0] != seq!['.', '.'][0] || name@[1] != seq!['.', '.'][1]);
        }
    }
    let n = name.len();
    let mut i: usize = n;
    while i > 0
        invariant
            n == name@.len(),
            i <= n,
            name@ != seq!['.', '.'],
            forall|j: int| i <= j < n ==> name@[j] != '.',
        decreases i,
    {
        if name[i - 1] == '.' {
            assert(is_last_index(name@, '.', i - 1));
            let ghost k = choose|k: int| is_last_index(name@, '.', k);
            assert(k == i - 1);
            if i == 1 {
                return Some(name.clone());
            }
            let mut r: Vec<char> = Vec::new();
            let mut j: usize = 0;
            while j < i - 1
                invariant
                    n == name@.len(),
                    1 < i <= n,
                    j <= i - 1,
                    r@ == name@.take(j as int),
                decreases i - 1 - j,
            {
                r.push(name[j]);
                assert(name@.take(j + 1) == name@.take(j as int).push(name@[j as int]));
                j = j + 1;
            }
            return Some(r);
        }
        i = i - 1;
    }
    Some(name.clone())
}

/// `name` with its extension replaced by `extension`, as `Path::set_extension`
/// changes the last part of a path: a name without a stem (`..`) is left as
/// it is, and an empty extension drops the old one with its dot.
pub open spec fn with_extension_spec(name: Seq<char>, extension: Seq<char>) -> Seq<char> {
    match file_stem_spec(name) {
        None => name,
        Some(stem) => if extension.len() == 0 {
            stem
        } else {
            stem + "."@ + extension
        },
    }
}

/// The file name `name` with its extension replaced by `extension`.
pub fn with_extension(name: &str, extension: &str) -> (r: String)
    ensures
        r@ == with_extension_spec(name@, extension@),
{
    match file_stem(&chars_of(name)) {
        None => owned(name),
        Some(stem) => {
            let mut r = string_from_chars(&stem);
            if !extension.is_empty() {
                push_str(&mut r, ".");
                push_str(&mut r, extension);
            }
            r
        },
    }
}

/// The file saved as `name`, renamed to its stem, a dot and `suffix`, as
/// `Path::with_file_name` renames it. A name without a stem (`..`) takes the
/// stem `wallpaper`, and since `..` is no file name the new name is put
/// under it rather than in its place.
pub open spec fn with_suffix_spec(name: Seq<char>, suffix: Seq<char>) -> Seq<char> {
    match file_stem_spec(name) {
        Some(stem) => stem + "."@ + suffix,
        None => name + "/"@ + "wallpaper"@ + "."@ + suffix,
    }
}

/// The name of the file made from the one saved as `name`, relative to the
/// directory `name` is in.
pub fn with_suffix(name: &str, suffix: &str) -> (r: String)
    ensures
        r@ == with_suffix_spec(name@, suffix@),
{
    let mut r = match file_stem(&chars_of(name)) {
        Some(stem) => string_from_chars(&stem),
        None => {
            let mut r = owned(name);
            push_str(&mut r, "/");
            push_str(&mut r, "wallpaper");
            r
        },
    };
    push_str(&mut r, ".");
    push_str(&mut r, suffix);
    r
}

/// The GIF made from the video saved as `name`.
pub fn gif_output_path(name: &str) -> (r: String)
    ensures
        r@ == with_extension_spec(name@, "gif"@),
{
    with_extension(name, "gif")
}

/// The still frame taken from the video saved as `name`.
pub fn png_output_path(name: &str) -> (r: String)
    ensures
        r@ == with_extension_spec(name@, "png"@),
{
    with_extension(name, "png")
}

} // verus!
