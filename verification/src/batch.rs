//! The search sent to a board and the candidates picked from its answer.

use vstd::prelude::*;
use crate::config::{BWConfig, ConfigView};
use crate::criteria::{dimension_source_spec, wallpaper_dimensions_match, wallpaper_match_spec, DimensionSource};
use crate::text::{decimal, push_decimal, push_str};
use crate::types::{BWImageboard, BWRating, BWSortBy, TryGetDimensions, TryGetUrl, WallpaperCandidate};

verus! {

/// Why no candidates came of a search.
#[derive(Clone, Copy, Debug, PartialEq, Eq, Structural)]
pub enum FetchError {
    /// The settings name no tags.
    NoTags,
    /// No post of the fetched batch can be used.
    NoWallpaperInBatch { batch_size: u32 },
}

/// The size tags added to a search so that the board itself leaves out small
/// pictures: none on Danbooru, whose searches take two tags at most, and none
/// when size checks are off.
pub open spec fn prefilter_tags_spec(config: ConfigView) -> Seq<Seq<char>> {
    if config.board() == BWImageboard::Danbooru || config.resolution_filter_disabled() {
        Seq::<Seq<char>>::empty()
    } else {
        seq![
            "width:>="@ + decimal(config.min_width() as nat),
            "height:>="@ + decimal(config.min_height() as nat),
        ]
    }
}

/// `prefix` followed by the decimal form of `n`.
pub fn tag_with_number(prefix: &str, n: u32) -> (r: String)
    ensures
        r@ == prefix@ + decimal(n as nat),
{
    let mut s = String::new();
    push_str(&mut s, prefix);
    push_decimal(&mut s, n as u128);
    s
}

/// Adds the size tags for `config` to the end of `tags`.
pub fn apply_resolution_prefilter(config: &BWConfig, tags: &mut Vec<String>)
    ensures
        final(tags).deep_view() == old(tags).deep_view() + prefilter_tags_spec(config@),
{
    let imageboard = config.effective_imageboard();
    if imageboard == BWImageboard::Danbooru || config.resolution_filter_disabled() {
        assert(old(tags).deep_view() + Seq::<Seq<char>>::empty() =~= old(tags).deep_view());
        return;
    }
    let ghost start = tags.deep_view();
    let width = tag_with_number("width:>=", config.effective_min_width());
    let height = tag_with_number("height:>=", config.effective_min_height());
    tags.push(width);
    tags.push(height);
    assert(tags.deep_view() =~= start + prefilter_tags_spec(config@));
}

/// The tag that keeps posts scoring below the configured minimum out, if one is set.
pub open spec fn score_tags_spec(config: ConfigView) -> Seq<Seq<char>> {
    match config.min_score {
        Some(s) => seq!["score:>="@ + decimal(s as nat)],
        None => Seq::<Seq<char>>::empty(),
    }
}

/// The tags a search asks for: the configured ones, then the size tags, then
/// the score tag.
pub open spec fn query_tags_spec(config: ConfigView) -> Seq<Seq<char>> {
    config.tags.unwrap() + prefilter_tags_spec(config) + score_tags_spec(config)
}

/// A search as the board's client is to be told it, step by step: the
/// credentials, each tag, each excluded tag, the order (random where none is
/// set), the rating, and the number of posts.
pub struct SearchPlan {
    /// API key and user ID, when both are configured.
    pub credentials: Option<(String, String)>,
    pub tags: Vec<String>,
    pub blacklist_tags: Vec<String>,
    /// `None` asks for random order.
    pub sort_by: Option<BWSortBy>,
    pub rating: Option<BWRating>,
    pub limit: u32,
}

fn copy_strings(v: &Vec<String>) -> (r: Vec<String>)
    ensures
        r.deep_view() == v.deep_view(),
{
    let mut out: Vec<String> = Vec::new();
    let n = v.len();
    for i in 0..n
        invariant
            n == v@.len(),
            out.deep_view() == v.deep_view().take(i as int),
    {
        let ghost before = out.deep_view();
        out.push(v[i].clone());
        assert(out.deep_view() == before.push(v[i as int]@));
        assert(v.deep_view().take(i + 1) == v.deep_view().take(i as int).push(v[i as int]@));
    }
    assert(v.deep_view().take(n as int) == v.deep_view());
    out
}

/// Turns the settings into the search to send; refuses settings without tags.
pub fn search_plan(config: &BWConfig) -> (r: Result<SearchPlan, FetchError>)
    ensures
        config@.tags is None <==> r is Err,
        r matches Err(e) ==> e == FetchError::NoTags,
        r matches Ok(plan) ==> {
            &&& plan.tags.deep_view() == query_tags_spec(config@)
            &&& plan.blacklist_tags.deep_view() == match config@.blacklist_tags {
                Some(b) => b,
                None => Seq::<Seq<char>>::empty(),
            }
            &&& match (config@.api_key, config@.user_id) {
                (Some(key), Some(user)) => plan.credentials matches Some(c) && c.0@ == key && c.1@ == user,
                _ => plan.credentials is None,
            }
            &&& plan.sort_by == config@.sort_by
            &&& plan.rating == config@.rating
            &&& plan.limit == config@.batch()
        },
{
    let mut tags = match &config.tags {
        None => return Err(FetchError::NoTags),
        Some(t) => copy_strings(t),
    };
    let credentials = match (&config.api_key, &config.user_id) {
        (Some(key), Some(user)) => Some((key.clone(), user.clone())),
        _ => None,
    };
    apply_resolution_prefilter(config, &mut tags);
    if let Some(min_score) = config.min_score {
        let ghost before = tags.deep_view();
        tags.push(tag_with_number("score:>=", min_score));
        assert(tags.deep_view() =~= before + score_tags_spec(config@));
    } else {
        assert(tags.deep_view() =~= tags.deep_view() + score_tags_spec(config@));
    }
    let blacklist_tags = match &config.blacklist_tags {
        Some(b) => copy_strings(b),
        None => Vec::new(),
    };
    Ok(SearchPlan {
        credentials,
        tags,
        blacklist_tags,
        sort_by: config.sort_by,
        rating: config.rating,
        limit: config.effective_batch_size(),
    })
}

impl View for WallpaperCandidate {
    type V = (Seq<char>, Option<u32>, Option<u32>);

    open spec fn view(&self) -> (Seq<char>, Option<u32>, Option<u32>) {
        (self.url@, self.width, self.height)
    }
}

/// What becomes of one post: none without an address; one with a recorded
/// size only when that size suits; one without a recorded size is kept, to
/// be measured after download.
pub open spec fn candidate_spec<P: TryGetUrl + TryGetDimensions>(
    post: P,
    aspect_ratio_in_range: bool,
    config: ConfigView,
) -> Option<(Seq<char>, Option<u32>, Option<u32>)> {
    match post.url_spec() {
        None => None,
        Some(url) => match post.dimensions_spec() {
            Some(d) => if wallpaper_match_spec(d.0, d.1, aspect_ratio_in_range, config) {
                Some((url, Some(d.0), Some(d.1)))
            } else {
                None
            },
            None => Some((url, None, None)),
        },
    }
}

/// The candidates of a batch, in the batch's order.
pub open spec fn candidates_spec<P: TryGetUrl + TryGetDimensions>(
    posts: Seq<P>,
    verdicts: Seq<bool>,
    config: ConfigView,
) -> Seq<(Seq<char>, Option<u32>, Option<u32>)>
    decreases posts.len(),
{
    if posts.len() == 0 {
        Seq::empty()
    } else {
        let rest = candidates_spec(posts.drop_last(), verdicts.take(posts.len() - 1), config);
        match candidate_spec(posts.last(), verdicts[posts.len() - 1], config) {
            Some(c) => rest.push(c),
            None => rest,
        }
    }
}

/// Picks the usable posts of a batch. `aspect_ratio_in_range[i]` is the
/// caller's floating-point verdict on the shape of `posts[i]` for the
/// configured bounds; it is read only for posts that record a size.
/// A batch with no usable post is refused with its size.
pub fn select_candidates<P: TryGetUrl + TryGetDimensions>(
    posts: &Vec<P>,
    aspect_ratio_in_range: &Vec<bool>,
    config: &BWConfig,
) -> (r: Result<Vec<WallpaperCandidate>, FetchError>)
    requires
        posts@.len() == aspect_ratio_in_range@.len(),
    ensures
        match r {
            Ok(c) => c@.map_values(|w: WallpaperCandidate| w@) == candidates_spec(posts@, aspect_ratio_in_range@, config@)
                && c@.len() > 0,
            Err(e) => candidates_spec(posts@, aspect_ratio_in_range@, config@).len() == 0
                && e == (FetchError::NoWallpaperInBatch { batch_size: config@.batch() }),
        },
{
    let mut out: Vec<WallpaperCandidate> = Vec::new();
    let n = posts.len();
    for i in 0..n
        invariant
            n == posts@.len(),
            n == aspect_ratio_in_range@.len(),
            out@.map_values(|w: WallpaperCandidate| w@) == candidates_spec(
                posts@.take(i as int),
                aspect_ratio_in_range@.take(i as int),
                config@,
            ),
    {
        let post = &posts[i];
        let verdict = aspect_ratio_in_range[i];
        let ghost before = out@.map_values(|w: WallpaperCandidate| w@);
        assert(posts@.take(i + 1).drop_last() == posts@.take(i as int));
        assert(aspect_ratio_in_range@.take(i + 1).take(i as int) == aspect_ratio_in_range@.take(i as int));
        assert(posts@.take(i + 1).last() == posts@[i as int]);
        assert(aspect_ratio_in_range@.take(i + 1)[i as int] == aspect_ratio_in_range@[i as int]);
        match post.try_get_url() {
            Err(_) => {},
            Ok(url) => match post.try_get_dimensions() {
                Ok((width, height)) => {
                    if wallpaper_dimensions_match(width, height, verdict, config) {
                        let mut u = String::new();
                        crate::text::push_str(&mut u, url);
                        out.push(WallpaperCandidate { url: u, width: Some(width), height: Some(height) });
                        assert(out@.map_values(|w: WallpaperCandidate| w@) =~= before.push((url@, Some(width), Some(height))));
                    }
                },
                Err(_) => {
                    let mut u = String::new();
                    crate::text::push_str(&mut u, url);
                    out.push(WallpaperCandidate { url: u, width: None, height: None });
                    assert(out@.map_values(|w: WallpaperCandidate| w@) =~= before.push((url@, None::<u32>, None::<u32>)));
                },
            },
        }
    }
    assert(posts@.take(n as int) == posts@);
    assert(aspect_ratio_in_range@.take(n as int) == aspect_ratio_in_range@);
    if out.len() == 0 {
        return Err(FetchError::NoWallpaperInBatch { batch_size: config.effective_batch_size() });
    }
    Ok(out)
}


/// With size checks off, neither the board nor the application filters by
/// size: no size tags are sent, every size suits, and no candidate is measured.
pub proof fn lemma_resolution_filter_off(config: ConfigView)
    requires
        config.resolution_filter_disabled(),
    ensures
        prefilter_tags_spec(config) == Seq::<Seq<char>>::empty(),
        forall|w: u32, h: u32, v: bool| #[trigger] wallpaper_match_spec(w, h, v, config),
        forall|t: Option<Seq<char>>, m: Option<(u32, u32)>|
            #[trigger] dimension_source_spec(t, m, config) == DimensionSource::Skip,
{
}

/// Danbooru searches never carry size tags.
pub proof fn lemma_danbooru_without_size_tags(config: ConfigView)
    requires
        config.board() == BWImageboard::Danbooru,
    ensures
        prefilter_tags_spec(config) == Seq::<Seq<char>>::empty(),
{
}

/// A batch yields at most one candidate per post, so an attempt examines no
/// more posts than the batch holds.
pub proof fn lemma_candidates_within_batch<P: TryGetUrl + TryGetDimensions>(
    posts: Seq<P>,
    verdicts: Seq<bool>,
    config: ConfigView,
)
    ensures
        candidates_spec(posts, verdicts, config).len() <= posts.len(),
    decreases posts.len(),
{
    if posts.len() > 0 {
        lemma_candidates_within_batch(posts.drop_last(), verdicts.take(posts.len() - 1), config);
    }
}

} // verus!
