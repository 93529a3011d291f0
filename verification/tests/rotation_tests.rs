use booru_wallpaper::config::{has_toml_extension, BWConfig};
use booru_wallpaper::pixels::rotate_clockwise;
use booru_wallpaper::run::{after_run, CycleStep};
use image::{ImageBuffer, Rgb, Rgba};
use std::path::Path;

fn std_says_toml(p: &str) -> bool {
    Path::new(p).extension().map(|e| e == "toml").unwrap_or(false)
}

#[test]
fn toml_extension_follows_path_rules() {
    let cases = [
        ("config.toml", true),
        ("/home/u/.config/booru/config.toml", true),
        ("dir/c.toml/", true),
        ("dir/c.toml/.", true),
        ("dir/c.toml//", true),
        ("./c.toml", true),
        ("a.b.toml", true),
        (".toml", false),
        ("dir/.toml", false),
        ("a/..", false),
        ("c.toml/..", false),
        ("..", false),
        (".", false),
        ("/", false),
        ("", false),
        ("config.TOML", false),
        ("config.toml.bak", false),
        ("config", false),
        ("config.", false),
        ("toml", false),
        ("a.toml/b", false),
    ];
    for (path, expected) in cases {
        assert_eq!(has_toml_extension(path), expected, "{}", path);
        assert_eq!(std_says_toml(path), expected, "{}", path);
    }
}

#[test]
fn without_interval_the_program_runs_once() {
    let config = BWConfig::default();
    assert_eq!(after_run(&config, true), CycleStep::Stop);
    assert_eq!(after_run(&config, false), CycleStep::Stop);
}

#[test]
fn with_interval_failed_runs_still_rotate() {
    let mut config = BWConfig::default();
    config.cycle_interval_seconds = Some(300);
    assert_eq!(after_run(&config, true), CycleStep::SleepThenRun { seconds: 300 });
    assert_eq!(after_run(&config, false), CycleStep::SleepThenRun { seconds: 300 });
}

#[test]
fn rotation_of_a_small_rgb_picture() {
    // 3 wide, 2 high, one sample per pixel for readability.
    let src = vec![1u8, 2, 3, 4, 5, 6];
    let out = rotate_clockwise(3, 2, 1, &src);
    // 2 wide, 3 high: first row is the left column read bottom to top.
    assert_eq!(out, vec![4u8, 1, 5, 2, 6, 3]);
}

#[test]
fn rotation_matches_image_crate_rgb8() {
    let (w, h) = (5u32, 3u32);
    let img: ImageBuffer<Rgb<u8>, Vec<u8>> =
        ImageBuffer::from_fn(w, h, |x, y| Rgb([x as u8, y as u8, (x * 7 + y * 11) as u8]));
    let expected = image::imageops::rotate90(&img);
    let ours = rotate_clockwise(w as usize, h as usize, 3, img.as_raw());
    assert_eq!(ours, expected.into_raw());
}

#[test]
fn rotation_matches_image_crate_rgba16() {
    let (w, h) = (4u32, 6u32);
    let img: ImageBuffer<Rgba<u16>, Vec<u16>> =
        ImageBuffer::from_fn(w, h, |x, y| Rgba([x as u16 * 1000, y as u16 * 300, 7, (x + y) as u16]));
    let expected = image::imageops::rotate90(&img);
    let ours = rotate_clockwise(w as usize, h as usize, 4, img.as_raw());
    assert_eq!(ours, expected.into_raw());
}

#[test]
fn four_quarter_turns_give_back_the_picture() {
    let src: Vec<u32> = (0..24).collect();
    let a = rotate_clockwise(4, 3, 2, &src);
    let b = rotate_clockwise(3, 4, 2, &a);
    let c = rotate_clockwise(4, 3, 2, &b);
    let d = rotate_clockwise(3, 4, 2, &c);
    assert_eq!(d, src);
    assert_ne!(a, src);
}

#[test]
fn empty_picture_rotates_to_empty() {
    let src: Vec<u8> = Vec::new();
    assert!(rotate_clockwise(0, 7, 3, &src).is_empty());
    assert!(rotate_clockwise(7, 0, 3, &src).is_empty());
}
