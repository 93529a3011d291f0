use booru_wallpaper::config::{
    config_source, require_tags, BWConfig, CliArgs, ConfigError, ConfigSource,
    DEFAULT_WALLPAPER_ASPECT_RATIO_MAX_BITS, DEFAULT_WALLPAPER_ASPECT_RATIO_MIN_BITS,
};
use booru_wallpaper::types::{BWImageboard, BWRating, BWSortBy, BWWallpaperSetter};

fn no_args() -> CliArgs {
    CliArgs {
        imageboard: None,
        min_score: None,
        tags: None,
        blacklist_tags: None,
        rating: None,
        cycle_interval_seconds: None,
        api_key: None,
        user_id: None,
        sort_by: None,
        config: None,
        disable_resolution_filter: false,
        wallpaper_setter: None,
        max_retries: None,
        retry_interval_seconds: None,
        batch_size: None,
        wallpaper_min_width: None,
        wallpaper_min_height: None,
        wallpaper_aspect_ratio_min_bits: None,
        wallpaper_aspect_ratio_max_bits: None,
        animated_max_duration_seconds: None,
        animated_fps: None,
        animated_width: None,
        dry_run: false,
    }
}

fn file_config() -> BWConfig {
    let mut c = BWConfig::default();
    c.tags = Some(vec!["wallpaper".to_string()]);
    c.blacklist_tags = Some(vec!["text".to_string()]);
    c.rating = Some(BWRating::Safe);
    c.imageboard = Some(BWImageboard::Gelbooru);
    c.api_key = Some("key".to_string());
    c.max_retries = Some(5);
    c.rotate_portrait = Some(true);
    c.disable_resolution_filter = Some(false);
    c
}

fn same(a: &BWConfig, b: &BWConfig) {
    assert_eq!(a.tags, b.tags);
    assert_eq!(a.blacklist_tags, b.blacklist_tags);
    assert_eq!(a.rating, b.rating);
    assert_eq!(a.imageboard, b.imageboard);
    assert_eq!(a.min_score, b.min_score);
    assert_eq!(a.api_key, b.api_key);
    assert_eq!(a.user_id, b.user_id);
    assert_eq!(a.sort_by, b.sort_by);
    assert_eq!(a.disable_resolution_filter, b.disable_resolution_filter);
    assert_eq!(a.wallpaper_setter, b.wallpaper_setter);
    assert_eq!(a.max_retries, b.max_retries);
    assert_eq!(a.batch_size, b.batch_size);
    assert_eq!(a.wallpaper_aspect_ratio_min_bits, b.wallpaper_aspect_ratio_min_bits);
    assert_eq!(a.rotate_portrait, b.rotate_portrait);
}

#[test]
fn default_config_sets_nothing() {
    let c = BWConfig::default();
    assert!(c.tags.is_none() && c.imageboard.is_none() && c.max_retries.is_none());
    assert_eq!(c.effective_imageboard(), BWImageboard::Safebooru);
    assert_eq!(c.effective_wallpaper_setter(), BWWallpaperSetter::Wallpaper);
    assert_eq!(c.effective_batch_size(), 100);
    assert_eq!(c.effective_min_width(), 1600);
    assert_eq!(c.effective_min_height(), 900);
    assert_eq!(c.effective_retry_interval_seconds(), 2);
    assert_eq!(c.effective_animated_max_duration_seconds(), 12);
    assert_eq!(c.effective_animated_fps(), 10);
    assert_eq!(c.effective_animated_width(), 1280);
    assert!(!c.resolution_filter_disabled());
    assert!(!c.rotates_portrait());
}

#[test]
fn default_aspect_ratio_bits_are_the_documented_bounds() {
    assert_eq!(f32::from_bits(DEFAULT_WALLPAPER_ASPECT_RATIO_MIN_BITS), 1.6f32);
    assert_eq!(f32::from_bits(DEFAULT_WALLPAPER_ASPECT_RATIO_MAX_BITS), 2.1f32);
    let c = BWConfig::default();
    assert_eq!(c.effective_aspect_ratio_min_bits(), 1.6f32.to_bits());
    assert_eq!(c.effective_aspect_ratio_max_bits(), 2.1f32.to_bits());
}

#[test]
fn enum_defaults() {
    assert_eq!(BWImageboard::default(), BWImageboard::Safebooru);
    assert_eq!(BWWallpaperSetter::default(), BWWallpaperSetter::Wallpaper);
    assert_eq!(BWRating::default(), BWRating::Safe);
    assert_eq!(BWSortBy::default(), BWSortBy::Random);
}

#[test]
fn empty_command_line_keeps_the_file_settings() {
    let c = file_config();
    same(&c.with_cli_args(&no_args()), &c);
}

#[test]
fn command_line_values_override() {
    let mut a = no_args();
    a.tags = Some("wallpaper landscape".to_string());
    a.imageboard = Some(BWImageboard::Danbooru);
    a.batch_size = Some(20);
    a.wallpaper_aspect_ratio_min_bits = Some(1.5f32.to_bits());
    a.disable_resolution_filter = true;
    let m = file_config().with_cli_args(&a);
    assert_eq!(m.tags, Some(vec!["wallpaper".to_string(), "landscape".to_string()]));
    assert_eq!(m.blacklist_tags, Some(vec!["text".to_string()]));
    assert_eq!(m.imageboard, Some(BWImageboard::Danbooru));
    assert_eq!(m.batch_size, Some(20));
    assert_eq!(m.max_retries, Some(5));
    assert_eq!(m.api_key, Some("key".to_string()));
    assert_eq!(m.wallpaper_aspect_ratio_min_bits, Some(1.5f32.to_bits()));
    assert_eq!(m.disable_resolution_filter, Some(true));
    assert_eq!(m.rotate_portrait, Some(true));
}

#[test]
fn unset_switch_does_not_turn_filter_back_on() {
    let mut c = BWConfig::default();
    c.disable_resolution_filter = Some(true);
    assert_eq!(c.with_cli_args(&no_args()).disable_resolution_filter, Some(true));
}

#[test]
fn applying_arguments_twice_is_applying_them_once() {
    let mut a = no_args();
    a.tags = Some("x y".to_string());
    a.min_score = Some(3);
    let once = file_config().with_cli_args(&a);
    let twice = once.with_cli_args(&a);
    same(&once, &twice);
}

#[test]
fn config_source_choice() {
    assert_eq!(config_source(&None), ConfigSource::Builtin);
    assert_eq!(config_source(&Some(String::new())), ConfigSource::Builtin);
    assert_eq!(config_source(&Some("NONE".to_string())), ConfigSource::Builtin);
    assert_eq!(config_source(&Some("Default".to_string())), ConfigSource::DefaultFile);
    assert_eq!(
        config_source(&Some("/tmp/c.toml".to_string())),
        ConfigSource::File("/tmp/c.toml".to_string())
    );
}

#[test]
fn tags_are_required() {
    let mut c = BWConfig::default();
    assert_eq!(require_tags(&c), Err(ConfigError::NoTags));
    c.tags = Some(vec![]);
    assert_eq!(require_tags(&c), Err(ConfigError::NoTags));
    c.tags = Some(vec!["a".to_string()]);
    assert_eq!(require_tags(&c), Ok(()));
}
