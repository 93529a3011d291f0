use booru_wallpaper::attempts::AttemptFailure;
use booru_wallpaper::candidate::{Action, CandidateError, CandidateRun, Event};
use booru_wallpaper::config::BWConfig;
use booru_wallpaper::criteria::DimensionSource;
use booru_wallpaper::media::Preparation;
use booru_wallpaper::run::{RunAction, RunEvent, WallpaperRun};
use booru_wallpaper::types::{BWWallpaperSetter, WallpaperCandidate};

fn candidate(width: Option<u32>, height: Option<u32>) -> WallpaperCandidate {
    WallpaperCandidate { url: "https://x.org/a/pic.png?1".to_string(), width, height }
}

fn responded(ct: &str) -> Event<String> {
    Event::Responded { content_type: Some(ct.to_string()) }
}

#[test]
fn candidate_with_metadata_is_judged_prepared_and_applied() {
    let config = BWConfig::default();
    let mut run = CandidateRun::new(&candidate(Some(1920), Some(1080)), "https://safebooru.org/", BWWallpaperSetter::Wallpaper, false, &config);
    match run.start::<String>() {
        Action::Download { url, referer } => {
            assert_eq!(url, "https://x.org/a/pic.png?1");
            assert_eq!(referer, "https://safebooru.org/");
        }
        other => panic!("{other:?}"),
    }
    match run.step(responded("image/png"), &config) {
        Action::Save { file_name } => assert_eq!(file_name, "pic.png"),
        other => panic!("{other:?}"),
    }
    assert!(matches!(run.step(Event::<String>::Saved, &config), Action::JudgeAspect { width: 1920, height: 1080 }));
    assert!(matches!(
        run.step(Event::<String>::AspectJudged { in_range: true }, &config),
        Action::Prepare { preparation: Preparation::UseDownloaded }
    ));
    match run.step(Event::<String>::Prepared { path: "/c/pic.png".to_string() }, &config) {
        Action::Apply { wallpaper_setter, path } => {
            assert_eq!(wallpaper_setter, BWWallpaperSetter::Wallpaper);
            assert_eq!(path, "/c/pic.png");
        }
        other => panic!("{other:?}"),
    }
    assert!(matches!(run.step(Event::<String>::Applied, &config), Action::Finish(Ok(()))));
    assert!(matches!(run.step(Event::<String>::Applied, &config), Action::Finish(Err(CandidateError::UnexpectedEvent))));
}

#[test]
fn dry_run_prints_instead_of_setting() {
    let config = BWConfig::default();
    let mut run = CandidateRun::new(&candidate(Some(1920), Some(1080)), "r", BWWallpaperSetter::Awww, true, &config);
    run.start::<String>();
    run.step(responded("image/jpeg"), &config);
    run.step(Event::<String>::Saved, &config);
    match run.step(Event::<String>::AspectJudged { in_range: true }, &config) {
        Action::PrintUrl { url } => assert_eq!(url, "https://x.org/a/pic.png?1"),
        other => panic!("{other:?}"),
    }
    assert!(matches!(run.step(Event::<String>::Printed, &config), Action::Finish(Ok(()))));
}

#[test]
fn unsupported_type_is_refused() {
    let config = BWConfig::default();
    let mut run = CandidateRun::new(&candidate(None, None), "r", BWWallpaperSetter::Wallpaper, false, &config);
    run.start::<String>();
    match run.step(responded("text/html"), &config) {
        Action::Finish(Err(CandidateError::UnsupportedContentType { wallpaper_setter, content_type })) => {
            assert_eq!(wallpaper_setter, BWWallpaperSetter::Wallpaper);
            assert_eq!(content_type, "text/html");
        }
        other => panic!("{other:?}"),
    }
}

#[test]
fn video_without_metadata_is_probed_then_refused_when_small() {
    let config = BWConfig::default();
    let mut run = CandidateRun::new(&candidate(None, None), "r", BWWallpaperSetter::Awww, false, &config);
    run.start::<String>();
    run.step(responded("video/webm"), &config);
    assert!(matches!(run.step(Event::<String>::Saved, &config), Action::Measure { source: DimensionSource::VideoProbe }));
    assert!(matches!(run.step(Event::<String>::Measured { width: 640, height: 360 }, &config), Action::JudgeAspect { width: 640, height: 360 }));
    assert!(matches!(
        run.step(Event::<String>::AspectJudged { in_range: true }, &config),
        Action::Finish(Err(CandidateError::DimensionsMismatch { width: 640, height: 360 }))
    ));
}

#[test]
fn video_is_converted_for_awww_and_failures_end_the_candidate() {
    let mut config = BWConfig::default();
    config.disable_resolution_filter = Some(true);
    let mut run = CandidateRun::new(&candidate(None, None), "r", BWWallpaperSetter::Awww, false, &config);
    run.start::<String>();
    run.step(responded("video/mp4"), &config);
    assert!(matches!(
        run.step(Event::<String>::Saved, &config),
        Action::Prepare { preparation: Preparation::ConvertVideoToGif { rotate: false } }
    ));
    match run.step(Event::Failed("ffmpeg missing".to_string()), &config) {
        Action::Finish(Err(CandidateError::Action(e))) => assert_eq!(e, "ffmpeg missing"),
        other => panic!("{other:?}"),
    }
}

#[test]
fn portrait_is_rotated_when_enabled() {
    let mut config = BWConfig::default();
    config.rotate_portrait = Some(true);
    let mut run = CandidateRun::new(&candidate(Some(1080), Some(1920)), "r", BWWallpaperSetter::Awww, false, &config);
    run.start::<String>();
    run.step(responded("image/gif"), &config);
    run.step(Event::<String>::Saved, &config);
    assert!(matches!(
        run.step(Event::<String>::AspectJudged { in_range: false }, &config),
        Action::Prepare { preparation: Preparation::RotateGif }
    ));
}

#[test]
fn run_tries_candidates_in_order_then_retries() {
    let mut config = BWConfig::default();
    config.max_retries = Some(1);
    config.retry_interval_seconds = Some(5);
    let mut run = WallpaperRun::new(&config);
    assert!(matches!(run.start::<String>(), RunAction::FetchBatch));
    assert!(matches!(run.step::<String>(RunEvent::Fetched { count: 2 }), RunAction::TryCandidate { index: 0 }));
    assert!(matches!(run.step(RunEvent::CandidateDone(Err("a".to_string()))), RunAction::TryCandidate { index: 1 }));
    assert!(matches!(run.step(RunEvent::CandidateDone(Err("b".to_string()))), RunAction::Wait { seconds: 5 }));
    assert!(matches!(run.step::<String>(RunEvent::Waited), RunAction::FetchBatch));
    match run.step(RunEvent::FetchFailed("offline".to_string())) {
        RunAction::Finish(Err(AttemptFailure::Error(e))) => assert_eq!(e, "offline"),
        other => panic!("{other:?}"),
    }
}

#[test]
fn run_stops_at_first_success() {
    let config = BWConfig::default();
    let mut run = WallpaperRun::new(&config);
    run.start::<String>();
    run.step::<String>(RunEvent::Fetched { count: 3 });
    assert!(matches!(run.step::<String>(RunEvent::CandidateDone(Ok(()))), RunAction::Finish(Ok(()))));
}

#[test]
fn zero_retries_give_up_after_one_empty_batch() {
    let mut config = BWConfig::default();
    config.max_retries = Some(0);
    config.batch_size = Some(9);
    let mut run = WallpaperRun::new(&config);
    run.start::<String>();
    assert!(matches!(
        run.step::<String>(RunEvent::Fetched { count: 0 }),
        RunAction::Finish(Err(AttemptFailure::NoSuitableWallpaper { batch_size: 9 }))
    ));
}

#[test]
fn default_run_makes_four_attempts() {
    let config = BWConfig::default();
    let mut run = WallpaperRun::new(&config);
    let mut fetches = 0;
    let mut action = run.start::<String>();
    loop {
        let event = match action {
            RunAction::FetchBatch => {
                fetches += 1;
                RunEvent::FetchFailed(format!("fail {fetches}"))
            }
            RunAction::Wait { seconds } => {
                assert_eq!(seconds, 2);
                RunEvent::Waited
            }
            RunAction::Finish(result) => {
                assert!(matches!(result, Err(AttemptFailure::Error(ref e)) if e == "fail 4"));
                break;
            }
            other => panic!("{other:?}"),
        };
        action = run.step(event);
    }
    assert_eq!(fetches, 4);
}
