use booru_wallpaper::attempts::{
    after_attempt, retry_policy, temp_dir_step, unique_name, AttemptDecision, AttemptFailure,
    CachedTempDir, CreateDirOutcome, TempDirStep, TEMP_DIR_ATTEMPTS,
};
use booru_wallpaper::batch::{apply_resolution_prefilter, search_plan, select_candidates, FetchError};
use booru_wallpaper::config::BWConfig;
use booru_wallpaper::rating::{
    BWRatingToBooruRating, Danbooru, DanbooruRating, Gelbooru, GelbooruRating, Rule34, Rule34Rating,
    Safebooru, SafebooruRating,
};
use booru_wallpaper::types::{
    referer_for_imageboard, BWImageboard, BWRating, BWSortBy, DanbooruPost, GelbooruPost,
    PostError, Rule34Post, SafebooruPost, TryGetDimensions, TryGetUrl, WallpaperCandidate,
};

fn tagged() -> BWConfig {
    let mut c = BWConfig::default();
    c.tags = Some(vec!["wallpaper".to_string()]);
    c
}

#[test]
fn prefilter_adds_size_tags_on_default_board() {
    let mut tags = vec!["a".to_string()];
    apply_resolution_prefilter(&tagged(), &mut tags);
    assert_eq!(tags, vec!["a", "width:>=1600", "height:>=900"]);
}

#[test]
fn prefilter_skips_danbooru_and_disabled_filter() {
    let mut c = tagged();
    c.imageboard = Some(BWImageboard::Danbooru);
    let mut tags = vec!["a".to_string()];
    apply_resolution_prefilter(&c, &mut tags);
    assert_eq!(tags, vec!["a"]);
    let mut c = tagged();
    c.disable_resolution_filter = Some(true);
    apply_resolution_prefilter(&c, &mut tags);
    assert_eq!(tags, vec!["a"]);
}

#[test]
fn search_plan_collects_the_query() {
    let mut c = tagged();
    c.imageboard = Some(BWImageboard::Gelbooru);
    c.wallpaper_min_width = Some(1920);
    c.min_score = Some(10);
    c.blacklist_tags = Some(vec!["text".to_string()]);
    c.api_key = Some("k".to_string());
    c.user_id = Some("u".to_string());
    c.sort_by = Some(BWSortBy::Score);
    c.rating = Some(BWRating::Questionable);
    c.batch_size = Some(50);
    let plan = search_plan(&c).unwrap();
    assert_eq!(plan.tags, vec!["wallpaper", "width:>=1920", "height:>=900", "score:>=10"]);
    assert_eq!(plan.blacklist_tags, vec!["text"]);
    assert_eq!(plan.credentials, Some(("k".to_string(), "u".to_string())));
    assert_eq!(plan.sort_by, Some(BWSortBy::Score));
    assert_eq!(plan.rating, Some(BWRating::Questionable));
    assert_eq!(plan.limit, 50);
}

#[test]
fn search_plan_without_credentials_or_tags() {
    let mut c = tagged();
    c.api_key = Some("k".to_string());
    let plan = search_plan(&c).unwrap();
    assert!(plan.credentials.is_none());
    assert!(plan.blacklist_tags.is_empty());
    assert_eq!(plan.limit, 100);
    assert!(plan.sort_by.is_none());
    assert!(matches!(search_plan(&BWConfig::default()), Err(FetchError::NoTags)));
}

#[test]
fn danbooru_prefers_the_large_file() {
    let mut p = DanbooruPost {
        large_file_url: Some("large".to_string()),
        file_url: Some("file".to_string()),
        preview_file_url: Some("preview".to_string()),
        image_width: 1,
        image_height: 2,
    };
    assert_eq!(p.try_get_url(), Ok("large"));
    p.large_file_url = None;
    assert_eq!(p.try_get_url(), Ok("file"));
    p.file_url = None;
    assert_eq!(p.try_get_url(), Ok("preview"));
    p.preview_file_url = None;
    assert_eq!(p.try_get_url(), Err(PostError::NoFileUrl));
    assert_eq!(p.try_get_dimensions(), Ok((1, 2)));
}

#[test]
fn other_boards_offer_their_file() {
    let g = GelbooruPost { file_url: "g".to_string(), width: 3, height: 4 };
    let r = Rule34Post { file_url: "r".to_string(), width: 5, height: 6 };
    let s = SafebooruPost { file_url: "s".to_string(), width: 7, height: 8 };
    assert_eq!((g.try_get_url(), g.try_get_dimensions()), (Ok("g"), Ok((3, 4))));
    assert_eq!((r.try_get_url(), r.try_get_dimensions()), (Ok("r"), Ok((5, 6))));
    assert_eq!((s.try_get_url(), s.try_get_dimensions()), (Ok("s"), Ok((7, 8))));
}

fn dpost(url: Option<&str>, w: u32, h: u32) -> DanbooruPost {
    DanbooruPost {
        large_file_url: None,
        file_url: url.map(|u| u.to_string()),
        preview_file_url: None,
        image_width: w,
        image_height: h,
    }
}

#[test]
fn candidates_keep_suitable_posts_in_order() {
    let posts = vec![
        dpost(Some("a"), 1920, 1080),
        dpost(None, 1920, 1080),
        dpost(Some("b"), 800, 600),
        dpost(Some("c"), 2560, 1440),
        dpost(Some("d"), 1920, 1080),
    ];
    let verdicts = vec![true, true, true, true, false];
    let got = select_candidates(&posts, &verdicts, &tagged()).unwrap();
    assert_eq!(
        got,
        vec![
            WallpaperCandidate { url: "a".to_string(), width: Some(1920), height: Some(1080) },
            WallpaperCandidate { url: "c".to_string(), width: Some(2560), height: Some(1440) },
        ]
    );
}

#[test]
fn empty_batch_is_refused_with_its_size() {
    let posts: Vec<GelbooruPost> = vec![GelbooruPost { file_url: "x".to_string(), width: 10, height: 10 }];
    let mut c = tagged();
    c.batch_size = Some(7);
    assert_eq!(
        select_candidates(&posts, &vec![true], &c),
        Err(FetchError::NoWallpaperInBatch { batch_size: 7 })
    );
}

#[test]
fn disabled_filter_keeps_every_post_with_an_address() {
    let mut c = tagged();
    c.disable_resolution_filter = Some(true);
    let posts = vec![dpost(Some("a"), 1, 1), dpost(Some("b"), 10, 5000)];
    let got = select_candidates(&posts, &vec![false, false], &c).unwrap();
    assert_eq!(got.len(), 2);
}

#[test]
fn ratings_per_board() {
    assert_eq!(Danbooru::rating_from_bw(&BWRating::Safe), DanbooruRating::General);
    assert_eq!(Danbooru::rating_from_bw(&BWRating::Questionable), DanbooruRating::Questionable);
    assert_eq!(Danbooru::rating_from_bw(&BWRating::Explicit), DanbooruRating::Explicit);
    assert_eq!(Gelbooru::rating_from_bw(&BWRating::Safe), GelbooruRating::Safe);
    assert_eq!(Rule34::rating_from_bw(&BWRating::Explicit), Rule34Rating::Explicit);
    assert_eq!(Safebooru::rating_from_bw(&BWRating::Questionable), SafebooruRating::Questionable);
}

#[test]
fn referers() {
    assert_eq!(referer_for_imageboard(&BWImageboard::Gelbooru), "https://gelbooru.com/");
    assert_eq!(referer_for_imageboard(&BWImageboard::Rule34), "https://rule34.xxx/");
    assert_eq!(referer_for_imageboard(&BWImageboard::Safebooru), "https://safebooru.org/");
    assert_eq!(referer_for_imageboard(&BWImageboard::Danbooru), "https://danbooru.donmai.us/");
}

#[test]
fn zero_retries_means_one_attempt() {
    let mut c = BWConfig::default();
    c.max_retries = Some(0);
    let p = retry_policy(&c);
    assert_eq!(p.max_attempts, 1);
    assert_eq!(after_attempt(&p, 1, false), AttemptDecision::GiveUp);
}

#[test]
fn default_retries_mean_four_attempts() {
    let p = retry_policy(&BWConfig::default());
    assert_eq!(p.max_attempts, 4);
    for attempt in 1..4 {
        assert_eq!(after_attempt(&p, attempt, false), AttemptDecision::RetryAfter(2));
    }
    assert_eq!(after_attempt(&p, 4, false), AttemptDecision::GiveUp);
    assert_eq!(after_attempt(&p, 2, true), AttemptDecision::Done);
}

#[test]
fn temp_dir_attempts() {
    assert_eq!(temp_dir_step(0, CreateDirOutcome::Created), TempDirStep::Done);
    assert_eq!(temp_dir_step(0, CreateDirOutcome::Failed), TempDirStep::Fail);
    assert_eq!(temp_dir_step(0, CreateDirOutcome::AlreadyExists), TempDirStep::TryAgain);
    assert_eq!(temp_dir_step(TEMP_DIR_ATTEMPTS - 1, CreateDirOutcome::AlreadyExists), TempDirStep::GiveUp);
}

#[test]
fn unique_names() {
    assert_eq!(unique_name("booru-wallpaper", 42, 1_700_000_000_123_456_789, 0), "booru-wallpaper-42-1700000000123456789-0");
}

#[test]
fn temp_dir_keeps_its_path() {
    let p = std::path::PathBuf::from("/tmp/x");
    assert_eq!(CachedTempDir::at(p.clone()).path(), &p);
}

#[test]
fn names_from_successive_counter_values_differ() {
    let a = unique_name("booru-wallpaper", 42, 1_700_000_000_123_456_789, 0);
    let b = unique_name("booru-wallpaper", 42, 1_700_000_000_123_456_789, 1);
    assert_ne!(a, b);
    assert_eq!(b, "booru-wallpaper-42-1700000000123456789-1");
    let c = unique_name("booru-wallpaper", 4, 21, 0);
    let d = unique_name("booru-wallpaper", 42, 1, 0);
    assert_ne!(c, d);
    let e = unique_name("a-1", 2, 3, 4);
    let f = unique_name("a", 1, 2, 5);
    assert_ne!(e, f);
    assert_eq!(e, "a-1-2-3-4");
}
