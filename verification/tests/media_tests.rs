use booru_wallpaper::config::BWConfig;
use booru_wallpaper::criteria::{
    dimension_source, dimensions_match, is_video_content_type, metadata_dimensions,
    parse_probe_dimensions, rotated_portrait_dimensions_match, should_rotate_portrait,
    validate_wallpaper_candidate, wallpaper_dimensions_match, CriteriaError, DimensionSource,
    ProbeError,
};
use booru_wallpaper::media::{
    animated_video_filter, awww_args, check_content_type, convert_video_args, file_name_from_url,
    gif_output_path, is_supported_content_type, png_output_path, probe_dimensions_args,
    rotate_gif_args, static_frame_args, static_frame_filter, wallpaper_preparation, with_extension,
    with_suffix, ContentError, Preparation,
};
use booru_wallpaper::text::IntErrorKind;
use booru_wallpaper::types::{BWWallpaperSetter, WallpaperCandidate};

#[test]
fn supported_content_types() {
    for setter in [BWWallpaperSetter::Wallpaper, BWWallpaperSetter::Awww] {
        assert!(is_supported_content_type(&setter, "image/png"));
        assert!(is_supported_content_type(&setter, "image/gif"));
        assert!(is_supported_content_type(&setter, "video/mp4"));
        assert!(is_supported_content_type(&setter, "video/webm"));
        assert!(!is_supported_content_type(&setter, "video/quicktime"));
        assert!(!is_supported_content_type(&setter, "text/html"));
    }
}

#[test]
fn content_type_check() {
    let w = BWWallpaperSetter::Awww;
    assert!(check_content_type(&w, None).is_ok());
    assert!(check_content_type(&w, Some("image/jpeg")).is_ok());
    match check_content_type(&w, Some("text/html")) {
        Err(ContentError::UnsupportedContentType { wallpaper_setter, content_type }) => {
            assert_eq!(wallpaper_setter, w);
            assert_eq!(content_type, "text/html");
        }
        other => panic!("{other:?}"),
    }
}

#[test]
fn preparation_per_backend() {
    assert_eq!(wallpaper_preparation(&BWWallpaperSetter::Wallpaper, Some("video/mp4"), false), Preparation::ExtractStaticFrame { rotate: false });
    assert_eq!(wallpaper_preparation(&BWWallpaperSetter::Wallpaper, Some("image/png"), true), Preparation::RotateImage);
    assert_eq!(wallpaper_preparation(&BWWallpaperSetter::Wallpaper, Some("image/gif"), true), Preparation::RotateImage);
    assert_eq!(wallpaper_preparation(&BWWallpaperSetter::Wallpaper, None, false), Preparation::UseDownloaded);
    assert_eq!(wallpaper_preparation(&BWWallpaperSetter::Awww, Some("video/webm"), true), Preparation::ConvertVideoToGif { rotate: true });
    assert_eq!(wallpaper_preparation(&BWWallpaperSetter::Awww, Some("image/gif"), true), Preparation::RotateGif);
    assert_eq!(wallpaper_preparation(&BWWallpaperSetter::Awww, Some("image/gif"), false), Preparation::UseDownloaded);
    assert_eq!(wallpaper_preparation(&BWWallpaperSetter::Awww, Some("image/png"), true), Preparation::RotateImage);
}

#[test]
fn filters() {
    let c = BWConfig::default();
    assert_eq!(animated_video_filter(&c, false), "fps=10,scale=1280:-2:flags=lanczos");
    assert_eq!(animated_video_filter(&c, true), "transpose=1,fps=10,scale=1280:-2:flags=lanczos");
    let mut c = BWConfig::default();
    c.animated_width = Some(640);
    assert_eq!(static_frame_filter(&c, false), "scale=640:-2:flags=lanczos");
    assert_eq!(static_frame_filter(&c, true), "transpose=1,scale=640:-2:flags=lanczos");
}

#[test]
fn command_arguments() {
    let c = BWConfig::default();
    assert_eq!(
        convert_video_args("/t/a.mp4", "/t/a.gif", &c, false),
        vec!["-y", "-t", "12", "-i", "/t/a.mp4", "-an", "-vf", "fps=10,scale=1280:-2:flags=lanczos", "-loop", "0", "/t/a.gif"]
    );
    assert_eq!(
        static_frame_args("/t/a.mp4", "/t/a.png", &c, true),
        vec!["-y", "-i", "/t/a.mp4", "-frames:v", "1", "-vf", "transpose=1,scale=1280:-2:flags=lanczos", "/t/a.png"]
    );
    assert_eq!(rotate_gif_args("a.gif", "a.rotated.gif"), vec!["-y", "-i", "a.gif", "-vf", "transpose=1", "a.rotated.gif"]);
    assert_eq!(
        probe_dimensions_args("v.webm"),
        vec!["-v", "error", "-select_streams", "v:0", "-show_entries", "stream=width,height", "-of", "csv=s=x:p=0", "v.webm"]
    );
    assert_eq!(awww_args("/p.png"), vec!["img", "/p.png"]);
}

#[test]
fn file_names_from_urls() {
    assert_eq!(file_name_from_url("https://x.org/images/abc.jpg?123"), "abc.jpg");
    assert_eq!(file_name_from_url("https://x.org/images/abc.jpg"), "abc.jpg");
    assert_eq!(file_name_from_url("https://x.org/images/"), "wallpaper.png");
    assert_eq!(file_name_from_url("https://x.org/images/?q"), "wallpaper.png");
    assert_eq!(file_name_from_url("plain"), "plain");
}

#[test]
fn output_names_follow_path_rules() {
    for (name, ext) in [("a.mp4", "gif"), ("a.b.webm", "png"), (".hidden", "png"), ("noext", "gif"), ("a.", "png"), ("..", "gif"), ("..", "")] {
        let expected = std::path::Path::new(name).with_extension(ext);
        assert_eq!(with_extension(name, ext), expected.to_str().unwrap(), "{name}");
    }
    assert_eq!(gif_output_path("v.mp4"), "v.gif");
    assert_eq!(png_output_path("v.webm"), "v.png");
    assert_eq!(with_suffix("pic.jpg", "rotated.png"), "pic.rotated.png");
    assert_eq!(with_suffix(".dot", "rotated.gif"), ".dot.rotated.gif");
}

#[test]
fn dot_dot_has_no_stem() {
    let dir = std::path::Path::new("/cache/dir");
    assert_eq!(with_extension("..", "gif"), "..");
    assert_eq!(gif_output_path(".."), "..");
    assert_eq!(png_output_path(".."), "..");
    assert_eq!(with_suffix("..", "rotated.png"), "../wallpaper.rotated.png");
    // What `Path::file_stem` and `Path::with_file_name` make of the saved path.
    let saved = dir.join("..");
    assert!(saved.file_stem().is_none());
    assert_eq!(saved.with_file_name("wallpaper.rotated.png"), dir.join(with_suffix("..", "rotated.png")));
    assert_eq!(dir.join("pic.jpg").with_file_name("pic.rotated.png"), dir.join(with_suffix("pic.jpg", "rotated.png")));
}

#[test]
fn size_checks() {
    assert!(dimensions_match(1920, 1080, 1600, 900, true));
    assert!(!dimensions_match(1920, 1080, 1600, 900, false));
    assert!(!dimensions_match(1500, 1080, 1600, 900, true));
    assert!(rotated_portrait_dimensions_match(1920, 1080, 1600, 900));
    assert!(!rotated_portrait_dimensions_match(1080, 1920, 1600, 900));
}

#[test]
fn portrait_rotation() {
    let mut c = BWConfig::default();
    assert!(!wallpaper_dimensions_match(1080, 1920, false, &c));
    assert!(!should_rotate_portrait(Some((1080, 1920)), &c));
    c.rotate_portrait = Some(true);
    assert!(wallpaper_dimensions_match(1080, 1920, false, &c));
    assert!(should_rotate_portrait(Some((1080, 1920)), &c));
    assert!(!should_rotate_portrait(Some((1920, 1080)), &c));
    assert!(!should_rotate_portrait(None, &c));
    assert!(!wallpaper_dimensions_match(800, 1000, false, &c));
}

#[test]
fn validation() {
    let mut c = BWConfig::default();
    assert_eq!(validate_wallpaper_candidate(1920, 1080, true, &c), Ok(()));
    assert_eq!(
        validate_wallpaper_candidate(640, 480, true, &c),
        Err(CriteriaError::DimensionsMismatch { width: 640, height: 480 })
    );
    c.disable_resolution_filter = Some(true);
    assert_eq!(validate_wallpaper_candidate(640, 480, false, &c), Ok(()));
}

#[test]
fn where_sizes_come_from() {
    let mut c = BWConfig::default();
    assert_eq!(dimension_source(Some("image/png"), Some((1, 2)), &c), DimensionSource::Metadata(1, 2));
    assert_eq!(dimension_source(Some("video/mp4"), None, &c), DimensionSource::VideoProbe);
    assert_eq!(dimension_source(Some("image/png"), None, &c), DimensionSource::ImageHeader);
    assert_eq!(dimension_source(None, None, &c), DimensionSource::ImageHeader);
    c.disable_resolution_filter = Some(true);
    assert_eq!(dimension_source(Some("video/mp4"), None, &c), DimensionSource::Skip);
    assert!(is_video_content_type(Some("video/webm")));
    assert!(!is_video_content_type(Some("image/webp")));
    assert!(!is_video_content_type(None));
}

#[test]
fn candidate_metadata() {
    let full = WallpaperCandidate { url: "u".to_string(), width: Some(3), height: Some(4) };
    let half = WallpaperCandidate { url: "u".to_string(), width: Some(3), height: None };
    assert_eq!(metadata_dimensions(&full), Some((3, 4)));
    assert_eq!(metadata_dimensions(&half), None);
}

#[test]
fn probe_output() {
    assert!(matches!(parse_probe_dimensions("1920x1080\n"), Ok((1920, 1080))));
    match parse_probe_dimensions("  garbage \n") {
        Err(ProbeError::UnexpectedFormat(d)) => assert_eq!(d, "garbage"),
        other => panic!("{other:?}"),
    }
    assert!(matches!(parse_probe_dimensions("12ax3"), Err(ProbeError::InvalidNumber(IntErrorKind::InvalidDigit))));
    assert!(matches!(parse_probe_dimensions("x3"), Err(ProbeError::InvalidNumber(IntErrorKind::Empty))));
    assert!(matches!(parse_probe_dimensions("5x99999999999"), Err(ProbeError::InvalidNumber(IntErrorKind::PosOverflow))));
}

#[test]
fn danbooru_candidates_are_still_checked_locally() {
    let mut c = BWConfig::default();
    c.imageboard = Some(booru_wallpaper::types::BWImageboard::Danbooru);
    assert_eq!(
        validate_wallpaper_candidate(800, 600, true, &c),
        Err(CriteriaError::DimensionsMismatch { width: 800, height: 600 })
    );
    assert_eq!(validate_wallpaper_candidate(1920, 1080, true, &c), Ok(()));
}
