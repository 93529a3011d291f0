//! The settings, how command-line values override those of the config file,
//! and the values that stand where a setting is absent.

use vstd::prelude::*;
use crate::text::{
    chars_of, eq_ignore_ascii_case, equals_ignore_ascii_case, is_last_index, split_on, split_on_char,
    split_on_spaces, split_spaces,
};
use crate::types::{BWImageboard, BWRating, BWSortBy, BWWallpaperSetter};

verus! {

/// Retries after the first failed attempt.
pub const DEFAULT_MAX_RETRIES: u32 = 3;

/// Seconds between two attempts.
pub const DEFAULT_RETRY_INTERVAL_SECONDS: u64 = 2;

/// Posts fetched per attempt.
pub const DEFAULT_BATCH_SIZE: u32 = 100;

/// Narrowest accepted picture.
pub const DEFAULT_WALLPAPER_MIN_WIDTH: u32 = 1600;

/// Lowest accepted picture.
pub const DEFAULT_WALLPAPER_MIN_HEIGHT: u32 = 900;

/// Smallest accepted width-to-height ratio, 1.6, as the bits of an IEEE-754
/// single-precision number.
pub const DEFAULT_WALLPAPER_ASPECT_RATIO_MIN_BITS: u32 = 0x3FCC_CCCD;

/// Largest accepted width-to-height ratio, 2.1, as the bits of an IEEE-754
/// single-precision number.
pub const DEFAULT_WALLPAPER_ASPECT_RATIO_MAX_BITS: u32 = 0x4006_6666;

/// Longest stretch of a video that is turned into an animation, in seconds.
pub const DEFAULT_ANIMATED_MAX_DURATION_SECONDS: u32 = 12;

/// Frame rate of an animation made from a video.
pub const DEFAULT_ANIMATED_FPS: u32 = 10;

/// Width of an animation or still frame made from a video.
pub const DEFAULT_ANIMATED_WIDTH: u32 = 1280;

/// The settings, each optional. The two aspect-ratio bounds are single-precision
/// numbers held as their IEEE-754 bits: the library carries them and never
/// computes with them.
#[derive(Clone, Debug)]
pub struct BWConfig {
    pub tags: Option<Vec<String>>,
    pub blacklist_tags: Option<Vec<String>>,
    pub rating: Option<BWRating>,
    pub imageboard: Option<BWImageboard>,
    pub min_score: Option<u32>,
    pub cycle_interval_seconds: Option<u64>,
    pub api_key: Option<String>,
    pub user_id: Option<String>,
    pub sort_by: Option<BWSortBy>,
    pub disable_resolution_filter: Option<bool>,
    pub wallpaper_setter: Option<BWWallpaperSetter>,
    pub max_retries: Option<u32>,
    pub retry_interval_seconds: Option<u64>,
    pub batch_size: Option<u32>,
    pub wallpaper_min_width: Option<u32>,
    pub wallpaper_min_height: Option<u32>,
    pub wallpaper_aspect_ratio_min_bits: Option<u32>,
    pub wallpaper_aspect_ratio_max_bits: Option<u32>,
    pub animated_max_duration_seconds: Option<u32>,
    pub animated_fps: Option<u32>,
    pub animated_width: Option<u32>,
    pub rotate_portrait: Option<bool>,
}

/// The settings as mathematical values.
pub struct ConfigView {
    pub tags: Option<Seq<Seq<char>>>,
    pub blacklist_tags: Option<Seq<Seq<char>>>,
    pub rating: Option<BWRating>,
    pub imageboard: Option<BWImageboard>,
    pub min_score: Option<u32>,
    pub cycle_interval_seconds: Option<u64>,
    pub api_key: Option<Seq<char>>,
    pub user_id: Option<Seq<char>>,
    pub sort_by: Option<BWSortBy>,
    pub disable_resolution_filter: Option<bool>,
    pub wallpaper_setter: Option<BWWallpaperSetter>,
    pub max_retries: Option<u32>,
    pub retry_interval_seconds: Option<u64>,
    pub batch_size: Option<u32>,
    pub wallpaper_min_width: Option<u32>,
    pub wallpaper_min_height: Option<u32>,
    pub wallpaper_aspect_ratio_min_bits: Option<u32>,
    pub wallpaper_aspect_ratio_max_bits: Option<u32>,
    pub animated_max_duration_seconds: Option<u32>,
    pub animated_fps: Option<u32>,
    pub animated_width: Option<u32>,
    pub rotate_portrait: Option<bool>,
}

/// The characters of an optional string.
pub open spec fn string_view(s: Option<String>) -> Option<Seq<char>> {
    match s {
        Some(v) => Some(v@),
        None => None,
    }
}

/// The characters of each string of an optional list.
pub open spec fn strings_view(s: Option<Vec<String>>) -> Option<Seq<Seq<char>>> {
    match s {
        Some(v) => Some(v.deep_view()),
        None => None,
    }
}

/// `first` where it is given, else `second`.
pub open spec fn or_else<T>(first: Option<T>, second: Option<T>) -> Option<T> {
    match first {
        Some(v) => Some(v),
        None => second,
    }
}

impl View for BWConfig {
    type V = ConfigView;

    open spec fn view(&self) -> ConfigView {
        ConfigView {
            tags: strings_view(self.tags),
            blacklist_tags: strings_view(self.blacklist_tags),
            rating: self.rating,
            imageboard: self.imageboard,
            min_score: self.min_score,
            cycle_interval_seconds: self.cycle_interval_seconds,
            api_key: string_view(self.api_key),
            user_id: string_view(self.user_id),
            sort_by: self.sort_by,
            disable_resolution_filter: self.disable_resolution_filter,
            wallpaper_setter: self.wallpaper_setter,
            max_retries: self.max_retries,
            retry_interval_seconds: self.retry_interval_seconds,
            batch_size: self.batch_size,
            wallpaper_min_width: self.wallpaper_min_width,
            wallpaper_min_height: self.wallpaper_min_height,
            wallpaper_aspect_ratio_min_bits: self.wallpaper_aspect_ratio_min_bits,
            wallpaper_aspect_ratio_max_bits: self.wallpaper_aspect_ratio_max_bits,
            animated_max_duration_seconds: self.animated_max_duration_seconds,
            animated_fps: self.animated_fps,
            animated_width: self.animated_width,
            rotate_portrait: self.rotate_portrait,
        }
    }
}

/// The values given on the command line, each optional. The aspect-ratio
/// bounds are IEEE-754 single-precision bits, as in [`BWConfig`].
#[derive(Clone, Debug)]
pub struct CliArgs {
    pub imageboard: Option<BWImageboard>,
    pub min_score: Option<u32>,
    pub tags: Option<String>,
    pub blacklist_tags: Option<String>,
    pub rating: Option<BWRating>,
    pub cycle_interval_seconds: Option<u64>,
    pub api_key: Option<String>,
    pub user_id: Option<String>,
    pub sort_by: Option<BWSortBy>,
    pub config: Option<String>,
    pub disable_resolution_filter: bool,
    pub wallpaper_setter: Option<BWWallpaperSetter>,
    pub max_retries: Option<u32>,
    pub retry_interval_seconds: Option<u64>,
    pub batch_size: Option<u32>,
    pub wallpaper_min_width: Option<u32>,
    pub wallpaper_min_height: Option<u32>,
    pub wallpaper_aspect_ratio_min_bits: Option<u32>,
    pub wallpaper_aspect_ratio_max_bits: Option<u32>,
    pub animated_max_duration_seconds: Option<u32>,
    pub animated_fps: Option<u32>,
    pub animated_width: Option<u32>,
    pub dry_run: bool,
}

/// A tag list given on the command line: the words between single spaces.
pub open spec fn cli_tags(given: Option<String>, configured: Option<Seq<Seq<char>>>) -> Option<Seq<Seq<char>>> {
    match given {
        Some(t) => Some(split_spaces(t@)),
        None => configured,
    }
}

/// The settings of `config` with every value that `args` gives put in place
/// of the configured one. The resolution-filter switch can only be turned on
/// from the command line. The portrait-rotation switch has no command-line
/// counterpart.
pub open spec fn merge_spec(config: ConfigView, args: CliArgs) -> ConfigView {
    ConfigView {
        tags: cli_tags(args.tags, config.tags),
        blacklist_tags: cli_tags(args.blacklist_tags, config.blacklist_tags),
        rating: or_else(args.rating, config.rating),
        imageboard: or_else(args.imageboard, config.imageboard),
        min_score: or_else(args.min_score, config.min_score),
        cycle_interval_seconds: or_else(args.cycle_interval_seconds, config.cycle_interval_seconds),
        api_key: or_else(string_view(args.api_key), config.api_key),
        user_id: or_else(string_view(args.user_id), config.user_id),
        sort_by: or_else(args.sort_by, config.sort_by),
        disable_resolution_filter: if args.disable_resolution_filter {
            Some(true)
        } else {
            config.disable_resolution_filter
        },
        wallpaper_setter: or_else(args.wallpaper_setter, config.wallpaper_setter),
        max_retries: or_else(args.max_retries, config.max_retries),
        retry_interval_seconds: or_else(args.retry_interval_seconds, config.retry_interval_seconds),
        batch_size: or_else(args.batch_size, config.batch_size),
        wallpaper_min_width: or_else(args.wallpaper_min_width, config.wallpaper_min_width),
        wallpaper_min_height: or_else(args.wallpaper_min_height, config.wallpaper_min_height),
        wallpaper_aspect_ratio_min_bits: or_else(
            args.wallpaper_aspect_ratio_min_bits,
            config.wallpaper_aspect_ratio_min_bits,
        ),
        wallpaper_aspect_ratio_max_bits: or_else(
            args.wallpaper_aspect_ratio_max_bits,
            config.wallpaper_aspect_ratio_max_bits,
        ),
        animated_max_duration_seconds: or_else(
            args.animated_max_duration_seconds,
            config.animated_max_duration_seconds,
        ),
        animated_fps: or_else(args.animated_fps, config.animated_fps),
        animated_width: or_else(args.animated_width, config.animated_width),
        rotate_portrait: config.rotate_portrait,
    }
}

/// `args` overrides no setting: every value is absent and no switch is on.
pub open spec fn gives_no_settings(args: CliArgs) -> bool {
    &&& args.imageboard is None
    &&& args.min_score is None
    &&& args.tags is None
    &&& args.blacklist_tags is None
    &&& args.rating is None
    &&& args.cycle_interval_seconds is None
    &&& args.api_key is None
    &&& args.user_id is None
    &&& args.sort_by is None
    &&& !args.disable_resolution_filter
    &&& args.wallpaper_setter is None
    &&& args.max_retries is None
    &&& args.retry_interval_seconds is None
    &&& args.batch_size is None
    &&& args.wallpaper_min_width is None
    &&& args.wallpaper_min_height is None
    &&& args.wallpaper_aspect_ratio_min_bits is None
    &&& args.wallpaper_aspect_ratio_max_bits is None
    &&& args.animated_max_duration_seconds is None
    &&& args.animated_fps is None
    &&& args.animated_width is None
}

/// Command-line arguments that give no value leave the settings as they are.
pub proof fn lemma_merge_without_overrides(config: ConfigView, args: CliArgs)
    requires
        gives_no_settings(args),
    ensures
        merge_spec(config, args) == config,
{
}

/// Applying the same command-line arguments twice gives what applying them
/// once gives.
pub proof fn lemma_merge_idempotent(config: ConfigView, args: CliArgs)
    ensures
        merge_spec(merge_spec(config, args), args) == merge_spec(config, args),
{
}

/// A setting given on the command line is the one that holds, whatever the
/// config file says; a setting not given there is the config file's. This
/// holds of every setting: tag lists are read from the command line as the
/// words between single spaces, the resolution-filter switch can only be
/// turned on there, and portrait rotation is always the file's.
pub proof fn lemma_command_line_wins(c1: ConfigView, c2: ConfigView, args: CliArgs)
    ensures
        args.tags is Some ==> merge_spec(c1, args).tags == merge_spec(c2, args).tags,
        args.tags matches Some(t) ==> merge_spec(c1, args).tags == Some(split_spaces(t@)),
        args.tags is None ==> merge_spec(c1, args).tags == c1.tags,
        args.blacklist_tags matches Some(t) ==> merge_spec(c1, args).blacklist_tags == Some(split_spaces(t@)),
        args.blacklist_tags is None ==> merge_spec(c1, args).blacklist_tags == c1.blacklist_tags,
        args.rating is Some ==> merge_spec(c1, args).rating == args.rating,
        args.rating is None ==> merge_spec(c1, args).rating == c1.rating,
        args.imageboard is Some ==> merge_spec(c1, args).imageboard == args.imageboard,
        args.imageboard is None ==> merge_spec(c1, args).imageboard == c1.imageboard,
        args.min_score is Some ==> merge_spec(c1, args).min_score == args.min_score,
        args.min_score is None ==> merge_spec(c1, args).min_score == c1.min_score,
        args.cycle_interval_seconds is Some ==> merge_spec(c1, args).cycle_interval_seconds
            == args.cycle_interval_seconds,
        args.cycle_interval_seconds is None ==> merge_spec(c1, args).cycle_interval_seconds
            == c1.cycle_interval_seconds,
        args.api_key matches Some(k) ==> merge_spec(c1, args).api_key == Some(k@),
        args.api_key is None ==> merge_spec(c1, args).api_key == c1.api_key,
        args.user_id matches Some(u) ==> merge_spec(c1, args).user_id == Some(u@),
        args.user_id is None ==> merge_spec(c1, args).user_id == c1.user_id,
        args.sort_by is Some ==> merge_spec(c1, args).sort_by == args.sort_by,
        args.sort_by is None ==> merge_spec(c1, args).sort_by == c1.sort_by,
        args.disable_resolution_filter ==> merge_spec(c1, args).disable_resolution_filter == Some(true),
        !args.disable_resolution_filter ==> merge_spec(c1, args).disable_resolution_filter
            == c1.disable_resolution_filter,
        args.wallpaper_setter is Some ==> merge_spec(c1, args).wallpaper_setter == args.wallpaper_setter,
        args.wallpaper_setter is None ==> merge_spec(c1, args).wallpaper_setter == c1.wallpaper_setter,
        args.batch_size is Some ==> merge_spec(c1, args).batch_size == args.batch_size,
        args.batch_size is None ==> merge_spec(c1, args).batch_size == c1.batch_size,
        args.max_retries is Some ==> merge_spec(c1, args).max_retries == args.max_retries,
        args.max_retries is None ==> merge_spec(c1, args).max_retries == c1.max_retries,
        args.retry_interval_seconds is Some ==> merge_spec(c1, args).retry_interval_seconds
            == args.retry_interval_seconds,
        args.retry_interval_seconds is None ==> merge_spec(c1, args).retry_interval_seconds
            == c1.retry_interval_seconds,
        args.wallpaper_min_width is Some ==> merge_spec(c1, args).wallpaper_min_width == args.wallpaper_min_width,
        args.wallpaper_min_width is None ==> merge_spec(c1, args).wallpaper_min_width == c1.wallpaper_min_width,
        args.wallpaper_min_height is Some ==> merge_spec(c1, args).wallpaper_min_height
            == args.wallpaper_min_height,
        args.wallpaper_min_height is None ==> merge_spec(c1, args).wallpaper_min_height == c1.wallpaper_min_height,
        args.wallpaper_aspect_ratio_min_bits is Some ==> merge_spec(c1, args).wallpaper_aspect_ratio_min_bits
            == args.wallpaper_aspect_ratio_min_bits,
        args.wallpaper_aspect_ratio_min_bits is None ==> merge_spec(c1, args).wallpaper_aspect_ratio_min_bits
            == c1.wallpaper_aspect_ratio_min_bits,
        args.wallpaper_aspect_ratio_max_bits is Some ==> merge_spec(c1, args).wallpaper_aspect_ratio_max_bits
            == args.wallpaper_aspect_ratio_max_bits,
        args.wallpaper_aspect_ratio_max_bits is None ==> merge_spec(c1, args).wallpaper_aspect_ratio_max_bits
            == c1.wallpaper_aspect_ratio_max_bits,
        args.animated_max_duration_seconds is Some ==> merge_spec(c1, args).animated_max_duration_seconds
            == args.animated_max_duration_seconds,
        args.animated_max_duration_seconds is None ==> merge_spec(c1, args).animated_max_duration_seconds
            == c1.animated_max_duration_seconds,
        args.animated_fps is Some ==> merge_spec(c1, args).animated_fps == args.animated_fps,
        args.animated_fps is None ==> merge_spec(c1, args).animated_fps == c1.animated_fps,
        args.animated_width is Some ==> merge_spec(c1, args).animated_width == args.animated_width,
        args.animated_width is None ==> merge_spec(c1, args).animated_width == c1.animated_width,
        merge_spec(c1, args).rotate_portrait == c1.rotate_portrait,
{
}

fn clone_string(s: &Option<String>) -> (r: Option<String>)
    ensures
        string_view(r) == string_view(*s),
{
    match s {
        Some(v) => Some(v.clone()),
        None => None,
    }
}

fn clone_strings(s: &Option<Vec<String>>) -> (r: Option<Vec<String>>)
    ensures
        strings_view(r) == strings_view(*s),
{
    match s {
        Some(v) => {
            let mut out: Vec<String> = Vec::new();
            let n = v.len();
            for i in 0..n
                invariant
                    n == v@.len(),
                    out.deep_view() == v.deep_view().take(i as int),
            {
                let ghost before = out.deep_view();
                out.push(v[i].clone());
                assert(out.deep_view() == before.push(v[i as int]@));
                assert(v.deep_view().take(i + 1) == v.deep_view().take(i as int).push(v[i as int]@));
            }
            assert(v.deep_view().take(n as int) == v.deep_view());
            Some(out)
        },
        None => None,
    }
}

fn cli_tag_list(given: &Option<String>, configured: &Option<Vec<String>>) -> (r: Option<Vec<String>>)
    ensures
        strings_view(r) == cli_tags(*given, strings_view(*configured)),
{
    match given {
        Some(t) => Some(split_on_spaces(t.as_str())),
        None => clone_strings(configured),
    }
}

impl Default for BWConfig {
    fn default() -> (r: Self)
        ensures
            r@ == BWConfig::empty_view(),
    {
        BWConfig {
            tags: None,
            blacklist_tags: None,
            rating: None,
            imageboard: None,
            min_score: None,
            cycle_interval_seconds: None,
            api_key: None,
            user_id: None,
            sort_by: None,
            disable_resolution_filter: None,
            wallpaper_setter: None,
            max_retries: None,
            retry_interval_seconds: None,
            batch_size: None,
            wallpaper_min_width: None,
            wallpaper_min_height: None,
            wallpaper_aspect_ratio_min_bits: None,
            wallpaper_aspect_ratio_max_bits: None,
            animated_max_duration_seconds: None,
            animated_fps: None,
            animated_width: None,
            rotate_portrait: None,
        }
    }
}

impl BWConfig {
    /// Settings in which nothing is set.
    pub open spec fn empty_view() -> ConfigView {
        ConfigView {
            tags: None,
            blacklist_tags: None,
            rating: None,
            imageboard: None,
            min_score: None,
            cycle_interval_seconds: None,
            api_key: None,
            user_id: None,
            sort_by: None,
            disable_resolution_filter: None,
            wallpaper_setter: None,
            max_retries: None,
            retry_interval_seconds: None,
            batch_size: None,
            wallpaper_min_width: None,
            wallpaper_min_height: None,
            wallpaper_aspect_ratio_min_bits: None,
            wallpaper_aspect_ratio_max_bits: None,
            animated_max_duration_seconds: None,
            animated_fps: None,
            animated_width: None,
            rotate_portrait: None,
        }
    }

    /// These settings with the values given on the command line put in place.
    pub fn with_cli_args(&self, args: &CliArgs) -> (r: Self)
        ensures
            r@ == merge_spec(self@, *args),
    {
        BWConfig {
            tags: cli_tag_list(&args.tags, &self.tags),
            blacklist_tags: cli_tag_list(&args.blacklist_tags, &self.blacklist_tags),
            rating: match args.rating {
                Some(v) => Some(v),
                None => self.rating,
            },
            imageboard: match args.imageboard {
                Some(v) => Some(v),
                None => self.imageboard,
            },
            min_score: match args.min_score {
                Some(v) => Some(v),
                None => self.min_score,
            },
            cycle_interval_seconds: match args.cycle_interval_seconds {
                Some(v) => Some(v),
                None => self.cycle_interval_seconds,
            },
            api_key: match &args.api_key {
                Some(v) => Some(v.clone()),
                None => clone_string(&self.api_key),
            },
            user_id: match &args.user_id {
                Some(v) => Some(v.clone()),
                None => clone_string(&self.user_id),
            },
            sort_by: match args.sort_by {
                Some(v) => Some(v),
                None => self.sort_by,
            },
            disable_resolution_filter: if args.disable_resolution_filter {
                Some(true)
            } else {
                self.disable_resolution_filter
            },
            wallpaper_setter: match args.wallpaper_setter {
                Some(v) => Some(v),
                None => self.wallpaper_setter,
            },
            max_retries: match args.max_retries {
                Some(v) => Some(v),
                None => self.max_retries,
            },
            retry_interval_seconds: match args.retry_interval_seconds {
                Some(v) => Some(v),
                None => self.retry_interval_seconds,
            },
            batch_size: match args.batch_size {
                Some(v) => Some(v),
                None => self.batch_size,
            },
            wallpaper_min_width: match args.wallpaper_min_width {
                Some(v) => Some(v),
                None => self.wallpaper_min_width,
            },
            wallpaper_min_height: match args.wallpaper_min_height {
                Some(v) => Some(v),
                None => self.wallpaper_min_height,
            },
            wallpaper_aspect_ratio_min_bits: match args.wallpaper_aspect_ratio_min_bits {
                Some(v) => Some(v),
                None => self.wallpaper_aspect_ratio_min_bits,
            },
            wallpaper_aspect_ratio_max_bits: match args.wallpaper_aspect_ratio_max_bits {
                Some(v) => Some(v),
                None => self.wallpaper_aspect_ratio_max_bits,
            },
            animated_max_duration_seconds: match args.animated_max_duration_seconds {
                Some(v) => Some(v),
                None => self.animated_max_duration_seconds,
            },
            animated_fps: match args.animated_fps {
                Some(v) => Some(v),
                None => self.animated_fps,
            },
            animated_width: match args.animated_width {
                Some(v) => Some(v),
                None => self.animated_width,
            },
            rotate_portrait: self.rotate_portrait,
        }
    }
}


impl ConfigView {
    /// The board searched: the configured one, else Safebooru.
    pub open spec fn board(self) -> BWImageboard {
        match self.imageboard {
            Some(b) => b,
            None => BWImageboard::Safebooru,
        }
    }

    /// The backend used: the configured one, else `wallpaper`.
    pub open spec fn setter(self) -> BWWallpaperSetter {
        match self.wallpaper_setter {
            Some(s) => s,
            None => BWWallpaperSetter::Wallpaper,
        }
    }

    pub open spec fn resolution_filter_disabled(self) -> bool {
        match self.disable_resolution_filter {
            Some(d) => d,
            None => false,
        }
    }

    pub open spec fn rotates_portrait(self) -> bool {
        match self.rotate_portrait {
            Some(r) => r,
            None => false,
        }
    }

    pub open spec fn retries(self) -> u32 {
        match self.max_retries {
            Some(v) => v,
            None => DEFAULT_MAX_RETRIES,
        }
    }

    pub open spec fn retry_interval(self) -> u64 {
        match self.retry_interval_seconds {
            Some(v) => v,
            None => DEFAULT_RETRY_INTERVAL_SECONDS,
        }
    }

    pub open spec fn batch(self) -> u32 {
        match self.batch_size {
            Some(v) => v,
            None => DEFAULT_BATCH_SIZE,
        }
    }

    pub open spec fn min_width(self) -> u32 {
        match self.wallpaper_min_width {
            Some(v) => v,
            None => DEFAULT_WALLPAPER_MIN_WIDTH,
        }
    }

    pub open spec fn min_height(self) -> u32 {
        match self.wallpaper_min_height {
            Some(v) => v,
            None => DEFAULT_WALLPAPER_MIN_HEIGHT,
        }
    }

    pub open spec fn aspect_ratio_min_bits(self) -> u32 {
        match self.wallpaper_aspect_ratio_min_bits {
            Some(v) => v,
            None => DEFAULT_WALLPAPER_ASPECT_RATIO_MIN_BITS,
        }
    }

    pub open spec fn aspect_ratio_max_bits(self) -> u32 {
        match self.wallpaper_aspect_ratio_max_bits {
            Some(v) => v,
            None => DEFAULT_WALLPAPER_ASPECT_RATIO_MAX_BITS,
        }
    }

    pub open spec fn animation_seconds(self) -> u32 {
        match self.animated_max_duration_seconds {
            Some(v) => v,
            None => DEFAULT_ANIMATED_MAX_DURATION_SECONDS,
        }
    }

    pub open spec fn animation_fps(self) -> u32 {
        match self.animated_fps {
            Some(v) => v,
            None => DEFAULT_ANIMATED_FPS,
        }
    }

    pub open spec fn animation_width(self) -> u32 {
        match self.animated_width {
            Some(v) => v,
            None => DEFAULT_ANIMATED_WIDTH,
        }
    }
}

/// Each setting in effect is the configured value where one is set, and
/// otherwise the default: Safebooru, the `wallpaper` backend, the resolution
/// filter on, no portrait rotation, 3 retries 2 seconds apart, batches of
/// 100 posts, pictures of at least 1600 by 900 pixels, and animations of at
/// most 12 seconds at 10 frames a second and 1280 pixels wide.
pub proof fn lemma_settings_in_effect(config: ConfigView)
    ensures
        config.board() == (match config.imageboard {
            Some(b) => b,
            None => BWImageboard::Safebooru,
        }),
        config.setter() == (match config.wallpaper_setter {
            Some(w) => w,
            None => BWWallpaperSetter::Wallpaper,
        }),
        config.resolution_filter_disabled() == (config.disable_resolution_filter == Some(true)),
        config.rotates_portrait() == (config.rotate_portrait == Some(true)),
        config.retries() == (match config.max_retries {
            Some(v) => v,
            None => 3u32,
        }),
        config.retry_interval() == (match config.retry_interval_seconds {
            Some(v) => v,
            None => 2u64,
        }),
        config.batch() == (match config.batch_size {
            Some(v) => v,
            None => 100u32,
        }),
        config.min_width() == (match config.wallpaper_min_width {
            Some(v) => v,
            None => 1600u32,
        }),
        config.min_height() == (match config.wallpaper_min_height {
            Some(v) => v,
            None => 900u32,
        }),
        config.animation_seconds() == (match config.animated_max_duration_seconds {
            Some(v) => v,
            None => 12u32,
        }),
        config.animation_fps() == (match config.animated_fps {
            Some(v) => v,
            None => 10u32,
        }),
        config.animation_width() == (match config.animated_width {
            Some(v) => v,
            None => 1280u32,
        }),
{
}

impl BWConfig {
    /// The board searched: the configured one, else Safebooru.
    pub fn effective_imageboard(&self) -> (r: BWImageboard)
        ensures
            r == self@.board(),
    {
        match self.imageboard {
            Some(b) => b,
            None => BWImageboard::Safebooru,
        }
    }

    /// The backend used: the configured one, else `wallpaper`.
    pub fn effective_wallpaper_setter(&self) -> (r: BWWallpaperSetter)
        ensures
            r == self@.setter(),
    {
        match self.wallpaper_setter {
            Some(s) => s,
            None => BWWallpaperSetter::Wallpaper,
        }
    }

    /// Whether size and shape checks are off; they are on unless set.
    pub fn resolution_filter_disabled(&self) -> (r: bool)
        ensures
            r == self@.resolution_filter_disabled(),
    {
        match self.disable_resolution_filter {
            Some(d) => d,
            None => false,
        }
    }

    /// Whether portrait pictures may be turned on their side; off unless set.
    pub fn rotates_portrait(&self) -> (r: bool)
        ensures
            r == self@.rotates_portrait(),
    {
        match self.rotate_portrait {
            Some(v) => v,
            None => false,
        }
    }

    /// Seconds to wait before the next attempt; 2 unless set.
    pub fn effective_retry_interval_seconds(&self) -> (r: u64)
        ensures
            r == self@.retry_interval(),
    {
        match self.retry_interval_seconds {
            Some(v) => v,
            None => DEFAULT_RETRY_INTERVAL_SECONDS,
        }
    }

    /// Posts fetched per attempt; 100 unless set.
    pub fn effective_batch_size(&self) -> (r: u32)
        ensures
            r == self@.batch(),
    {
        match self.batch_size {
            Some(v) => v,
            None => DEFAULT_BATCH_SIZE,
        }
    }

    /// Narrowest accepted picture; 1600 unless set.
    pub fn effective_min_width(&self) -> (r: u32)
        ensures
            r == self@.min_width(),
    {
        match self.wallpaper_min_width {
            Some(v) => v,
            None => DEFAULT_WALLPAPER_MIN_WIDTH,
        }
    }

    /// Lowest accepted picture; 900 unless set.
    pub fn effective_min_height(&self) -> (r: u32)
        ensures
            r == self@.min_height(),
    {
        match self.wallpaper_min_height {
            Some(v) => v,
            None => DEFAULT_WALLPAPER_MIN_HEIGHT,
        }
    }

    /// Bits of the smallest accepted aspect ratio; those of 1.6 unless set.
    pub fn effective_aspect_ratio_min_bits(&self) -> (r: u32)
        ensures
            r == self@.aspect_ratio_min_bits(),
    {
        match self.wallpaper_aspect_ratio_min_bits {
            Some(v) => v,
            None => DEFAULT_WALLPAPER_ASPECT_RATIO_MIN_BITS,
        }
    }

    /// Bits of the largest accepted aspect ratio; those of 2.1 unless set.
    pub fn effective_aspect_ratio_max_bits(&self) -> (r: u32)
        ensures
            r == self@.aspect_ratio_max_bits(),
    {
        match self.wallpaper_aspect_ratio_max_bits {
            Some(v) => v,
            None => DEFAULT_WALLPAPER_ASPECT_RATIO_MAX_BITS,
        }
    }

    /// Longest stretch of video made into an animation; 12 seconds unless set.
    pub fn effective_animated_max_duration_seconds(&self) -> (r: u32)
        ensures
            r == self@.animation_seconds(),
    {
        match self.animated_max_duration_seconds {
            Some(v) => v,
            None => DEFAULT_ANIMATED_MAX_DURATION_SECONDS,
        }
    }

    /// Frame rate of animations made from video; 10 unless set.
    pub fn effective_animated_fps(&self) -> (r: u32)
        ensures
            r == self@.animation_fps(),
    {
        match self.animated_fps {
            Some(v) => v,
            None => DEFAULT_ANIMATED_FPS,
        }
    }

    /// Width of animations and frames made from video; 1280 unless set.
    pub fn effective_animated_width(&self) -> (r: u32)
        ensures
            r == self@.animation_width(),
    {
        match self.animated_width {
            Some(v) => v,
            None => DEFAULT_ANIMATED_WIDTH,
        }
    }
}

/// Where the settings come from.
#[derive(Debug, PartialEq, Eq)]
pub enum ConfigSource {
    /// No file: every setting starts out absent.
    Builtin,
    /// The config file in the platform's application config directory.
    DefaultFile,
    /// The file at this path.
    File(String),
}

/// Decides where the settings are read from, given the positional argument:
/// none, an empty one or `none` in any letter case give no file; `default` in
/// any letter case names the platform's config file; anything else is a path.
/// Letter case is compared as `str::to_lowercase` compares it against these
/// two all-ASCII words: no character outside ASCII lowers to one of their letters.
pub fn config_source(arg: &Option<String>) -> (r: ConfigSource)
    ensures
        match *arg {
            None => r == ConfigSource::Builtin,
            Some(path) => if path@.len() == 0 || eq_ignore_ascii_case(path@, "none"@) {
                r == ConfigSource::Builtin
            } else if eq_ignore_ascii_case(path@, "default"@) {
                r == ConfigSource::DefaultFile
            } else {
                r matches ConfigSource::File(p) && p@ == path@
            },
        },
{
    match arg {
        None => ConfigSource::Builtin,
        Some(path) => {
            proof {
                reveal_strlit("none");
                reveal_strlit("default");
            }
            if path.as_str().is_empty() || equals_ignore_ascii_case(path.as_str(), "none") {
                ConfigSource::Builtin
            } else if equals_ignore_ascii_case(path.as_str(), "default") {
                ConfigSource::DefaultFile
            } else {
                ConfigSource::File(path.clone())
            }
        },
    }
}

/// The last of the pieces of a path between slashes that is neither empty
/// nor `.`, which is the path's file name unless it is `..`: the Unix rule of
/// `Path::file_name`.
pub open spec fn file_name_of(pieces: Seq<Seq<char>>) -> Option<Seq<char>>
    decreases pieces.len(),
{
    if pieces.len() == 0 {
        None
    } else {
        let last = pieces.last();
        if last.len() == 0 || last == seq!['.'] {
            file_name_of(pieces.drop_last())
        } else if last == seq!['.', '.'] {
            None
        } else {
            Some(last)
        }
    }
}

/// The file name of a path, as `Path::file_name` gives it on Unix.
pub open spec fn path_file_name(path: Seq<char>) -> Option<Seq<char>> {
    file_name_of(split_on(path, '/'))
}

/// The extension of a file name, as `Path::extension` gives it: what follows
/// the last `.`, where that dot is not the name's first character.
pub open spec fn extension_of(name: Seq<char>) -> Option<Seq<char>> {
    if exists|i: int| is_last_index(name, '.', i) {
        let i = choose|i: int| is_last_index(name, '.', i);
        if i == 0 {
            None
        } else {
            Some(name.skip(i + 1))
        }
    } else {
        None
    }
}

/// The path names a file whose extension is exactly `toml`.
pub open spec fn has_toml_extension_spec(path: Seq<char>) -> bool {
    match path_file_name(path) {
        Some(name) => extension_of(name) == Some(seq!['t', 'o', 'm', 'l']),
        None => false,
    }
}

fn extension_is_toml(cs: &Vec<char>) -> (r: bool)
    ensures
        r == (extension_of(cs@) == Some(seq!['t', 'o', 'm', 'l'])),
{
    let n = cs.len();
    let mut i: usize = n;
    while i > 0
        invariant
            n == cs@.len(),
            i <= n,
            forall|j: int| i <= j < n ==> cs@[j] != '.',
        decreases i,
    {
        if cs[i - 1] == '.' {
            assert(is_last_index(cs@, '.', i - 1));
            let ghost k = choose|k: int| is_last_index(cs@, '.', k);
            assert(k == i - 1);
            if i == 1 {
                return false;
            }
            let ghost toml = seq!['t', 'o', 'm', 'l'];
            let ghost ext = cs@.skip(i as int);
            if n - i != 4 {
                assert(ext.len() != toml.len());
                return false;
            }
            let r = cs[i] == 't' && cs[i + 1] == 'o' && cs[i + 2] == 'm' && cs[i + 3] == 'l';
            proof {
                if r {
                    assert(ext =~= toml);
                } else {
                    assert(ext[0] != 't' || ext[1] != 'o' || ext[2] != 'm' || ext[3] != 'l');
                }
            }
            return r;
        }
        i = i - 1;
    }
    assert(!exists|k: int| is_last_index(cs@, '.', k));
    false
}

/// Whether a config file path names a `.toml` file, the only kind of config
/// file that is read: its file name (Unix rules) has the extension `toml`,
/// in that letter case.
pub fn has_toml_extension(path: &str) -> (r: bool)
    ensures
        r == has_toml_extension_spec(path@),
{
    let pieces = split_on_char(path, '/');
    let ghost pv = pieces.deep_view();
    let mut i: usize = pieces.len();
    assert(pv.take(i as int) == pv);
    while i > 0
        invariant
            pv == pieces.deep_view(),
            pv == split_on(path@, '/'),
            i <= pv.len(),
            file_name_of(pv) == file_name_of(pv.take(i as int)),
        decreases i,
    {
        let cs = chars_of(pieces[i - 1].as_str());
        let ghost front = pv.take(i as int);
        assert(front.last() == pv[i - 1]);
        assert(pv[i - 1] == pieces@[i - 1]@);
        assert(front.drop_last() == pv.take(i - 1));
        if cs.len() == 0 || (cs.len() == 1 && cs[0] == '.') {
            proof {
                if cs@.len() == 1 {
                    assert(cs@ =~= seq!['.']);
                }
            }
            i = i - 1;
        } else if cs.len() == 2 && cs[0] == '.' && cs[1] == '.' {
            assert(cs@ =~= seq!['.', '.']);
            return false;
        } else {
            assert(cs@ != seq!['.']) by {
                if cs@.len() == 1 {
                    assert(cs@[0] != seq!['.'][0]);
                }
            }
            assert(cs@ != seq!['.', '.']) by {
                if cs@.len() == 2 {
                    assert(cs@[0] != seq!['.', '.'][0] || cs@[1] != seq!['.', '.'][1]);
                }
            }
            return extension_is_toml(&cs);
        }
    }
    false
}

/// Why the settings cannot be used.
#[derive(Clone, Copy, Debug, PartialEq, Eq, Structural)]
pub enum ConfigError {
    /// No tags to search for.
    NoTags,
}

/// The settings name at least one tag to search for.
pub open spec fn has_tags(config: ConfigView) -> bool {
    config.tags matches Some(t) && t.len() > 0
}

/// Accepts settings that name a tag, else refuses them with `NoTags`.
pub fn require_tags(config: &BWConfig) -> (r: Result<(), ConfigError>)
    ensures
        r is Ok <==> has_tags(config@),
        r matches Err(e) ==> e == ConfigError::NoTags,
{
    match &config.tags {
        None => Err(ConfigError::NoTags),
        Some(t) => if t.len() == 0 {
            Err(ConfigError::NoTags)
        } else {
            Ok(())
        },
    }
}

} // verus!
