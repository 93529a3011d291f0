//! The handling of one candidate, from download to wallpaper, as a machine:
//! each step takes what the last action came to and names the next action.
//! The caller performs the actions (network, files, external programs).

use vstd::prelude::*;
use crate::config::{BWConfig, ConfigView};
use crate::criteria::{
    dimension_source, dimension_source_spec, metadata_dimensions, rotate_spec, should_rotate_portrait,
    validate_wallpaper_candidate, wallpaper_match_spec, DimensionSource,
};
use crate::media::{
    file_name_spec, file_name_from_url, is_supported_content_type, owned, preparation_spec,
    supported_spec, wallpaper_preparation, Preparation,
};
use crate::types::{BWWallpaperSetter, WallpaperCandidate};

verus! {

/// Where the handling of a candidate stands.
#[derive(Clone, Copy, Debug, PartialEq, Eq, Structural)]
pub enum Stage {
    /// Nothing done yet.
    Start,
    /// The download has been asked for.
    Downloading,
    /// The body is being saved.
    Saving,
    /// The saved file is being measured.
    Measuring,
    /// The aspect ratio of a picture of this size is being judged.
    Judging { width: u32, height: u32 },
    /// The address is being printed instead of setting the wallpaper.
    Printing,
    /// The file is being prepared for the backend.
    Preparing,
    /// The backend is setting the wallpaper.
    Applying,
    /// Nothing is left to do.
    Finished,
}

/// What the last action came to.
#[derive(Debug)]
pub enum Event<E> {
    /// The server answered, announcing this content type if any.
    Responded { content_type: Option<String> },
    /// The body is saved.
    Saved,
    /// The saved file measures this.
    Measured { width: u32, height: u32 },
    /// The caller's floating-point verdict on the aspect ratio.
    AspectJudged { in_range: bool },
    /// The address has been printed.
    Printed,
    /// The file to show is at this path.
    Prepared { path: String },
    /// The wallpaper is set.
    Applied,
    /// The action failed with this error.
    Failed(E),
}

/// Why a candidate was given up.
#[derive(Debug)]
pub enum CandidateError<E> {
    /// An action failed.
    Action(E),
    /// The server announced a type that the backend cannot show.
    UnsupportedContentType { wallpaper_setter: BWWallpaperSetter, content_type: String },
    /// The picture's size or shape does not suit.
    DimensionsMismatch { width: u32, height: u32 },
    /// The event does not answer the action asked for.
    UnexpectedEvent,
}

/// What the caller is to do next.
#[derive(Debug)]
pub enum Action<E> {
    /// Request `url`, sending `referer` as the `Referer` header.
    Download { url: String, referer: String },
    /// Read the body and save it in a fresh cache directory as `file_name`.
    Save { file_name: String },
    /// Measure the saved file, probing it as a video or reading its header.
    Measure { source: DimensionSource },
    /// Judge whether `width / height` lies within the configured aspect-ratio bounds.
    JudgeAspect { width: u32, height: u32 },
    /// Print the candidate's address.
    PrintUrl { url: String },
    /// Prepare the saved file as described.
    Prepare { preparation: Preparation },
    /// Show the file at `path` with the backend.
    Apply { wallpaper_setter: BWWallpaperSetter, path: String },
    /// Stop, with this result.
    Finish(Result<(), CandidateError<E>>),
}

/// One candidate on its way to becoming the wallpaper.
pub struct CandidateRun {
    url: String,
    referer: String,
    wallpaper_setter: BWWallpaperSetter,
    dry_run: bool,
    metadata: Option<(u32, u32)>,
    rotate: bool,
    content_type: Option<String>,
    stage: Stage,
}

/// The characters of an optional string.
pub open spec fn opt_str(s: Option<String>) -> Option<Seq<char>> {
    match s {
        Some(v) => Some(v@),
        None => None,
    }
}

/// A candidate run as mathematical values.
pub struct CandidateView {
    pub stage: Stage,
    pub url: Seq<char>,
    pub referer: Seq<char>,
    pub setter: BWWallpaperSetter,
    pub dry_run: bool,
    /// The size that the candidate's post recorded, if any.
    pub metadata: Option<(u32, u32)>,
    /// Whether the picture is to be turned clockwise.
    pub rotate: bool,
    /// The content type that the server announced, once it has answered.
    pub content_type: Option<Seq<char>>,
}

impl View for CandidateRun {
    type V = CandidateView;

    closed spec fn view(&self) -> CandidateView {
        CandidateView {
            stage: self.stage,
            url: self.url@,
            referer: self.referer@,
            setter: self.wallpaper_setter,
            dry_run: self.dry_run,
            metadata: self.metadata,
            rotate: self.rotate,
            content_type: opt_str(self.content_type),
        }
    }
}

/// The parts of a run that no step changes.
pub open spec fn same_candidate(s: CandidateView, t: CandidateView) -> bool {
    &&& t.url == s.url
    &&& t.referer == s.referer
    &&& t.setter == s.setter
    &&& t.dry_run == s.dry_run
    &&& t.metadata == s.metadata
    &&& t.rotate == s.rotate
}

/// The run ends with `result`.
pub open spec fn finishes<E>(t: CandidateView, action: Action<E>, result: Result<(), CandidateError<E>>) -> bool {
    t.stage == Stage::Finished && action == Action::Finish(result)
}

/// Once the candidate has passed its checks (or checks are off), a dry run
/// prints the address and any other run prepares the file for the backend.
pub open spec fn after_checks<E>(s: CandidateView, t: CandidateView, action: Action<E>) -> bool {
    if s.dry_run {
        t.stage == Stage::Printing && (action matches Action::PrintUrl { url } && url@ == s.url)
    } else {
        t.stage == Stage::Preparing && action == Action::<E>::Prepare {
            preparation: preparation_spec(s.setter, s.content_type, s.rotate),
        }
    }
}

/// One step of a run, from state `s` and the `event` that answers its last
/// action, to state `t` and the next `action`:
/// - the server's answer is refused when it announces a type the backend cannot
///   show, and otherwise the body is saved under the name taken from the address;
/// - once saved, the size is taken from the post, measured from the file, or
///   not checked at all when checks are off;
/// - a known size is judged, and a candidate that does not suit is given up;
/// - a candidate that passed is printed in a dry run, else prepared, then shown;
/// - a failed action gives the candidate up with its error, and an event that
///   answers no pending action ends the run as unexpected.
pub open spec fn step_spec<E>(
    s: CandidateView,
    event: Event<E>,
    t: CandidateView,
    action: Action<E>,
    config: ConfigView,
) -> bool {
    &&& same_candidate(s, t)
    &&& match (s.stage, event) {
        (Stage::Start, _) | (Stage::Finished, _) => t.content_type == s.content_type
            && finishes(t, action, Err(CandidateError::UnexpectedEvent)),
        (_, Event::Failed(e)) => t.content_type == s.content_type
            && finishes(t, action, Err(CandidateError::Action(e))),
        (Stage::Downloading, Event::Responded { content_type }) => t.content_type == opt_str(content_type) && (
            match content_type {
                Some(ct) if !supported_spec(ct@) => t.stage == Stage::Finished
                    && (action matches Action::Finish(
                        Err(CandidateError::UnsupportedContentType { wallpaper_setter, content_type: c }),
                    ) && wallpaper_setter == s.setter && c@ == ct@),
                _ => t.stage == Stage::Saving
                    && (action matches Action::Save { file_name } && file_name@ == file_name_spec(s.url)),
            }),
        (Stage::Saving, Event::Saved) => t.content_type == s.content_type && (
            match dimension_source_spec(s.content_type, s.metadata, config) {
                DimensionSource::Skip => after_checks(s, t, action),
                DimensionSource::Metadata(w, h) => t.stage == (Stage::Judging { width: w, height: h })
                    && action == Action::<E>::JudgeAspect { width: w, height: h },
                source => t.stage == Stage::Measuring && action == Action::<E>::Measure { source },
            }),
        (Stage::Measuring, Event::Measured { width, height }) => t.content_type == s.content_type
            && t.stage == (Stage::Judging { width, height })
            && action == Action::<E>::JudgeAspect { width, height },
        (Stage::Judging { width, height }, Event::AspectJudged { in_range }) => t.content_type == s.content_type
            && if wallpaper_match_spec(width, height, in_range, config) {
                after_checks(s, t, action)
            } else {
                finishes(t, action, Err(CandidateError::DimensionsMismatch { width, height }))
            },
        (Stage::Printing, Event::Printed) => t.content_type == s.content_type && finishes(t, action, Ok(())),
        (Stage::Preparing, Event::Prepared { path }) => t.content_type == s.content_type
            && t.stage == Stage::Applying
            && (action matches Action::Apply { wallpaper_setter, path: p } && wallpaper_setter == s.setter
                && p@ == path@),
        (Stage::Applying, Event::Applied) => t.content_type == s.content_type && finishes(t, action, Ok(())),
        _ => t.content_type == s.content_type && finishes(t, action, Err(CandidateError::UnexpectedEvent)),
    }
}

/// Only a run that is not a dry run ever prepares or shows a file.
pub open spec fn dry_run_respected(v: CandidateView) -> bool {
    (v.stage == Stage::Preparing || v.stage == Stage::Applying) ==> !v.dry_run
}

/// A dry run never changes the wallpaper: every state reachable from the
/// start keeps preparation and showing for runs that are not dry, so no
/// step of a dry run asks to prepare or show a file.
pub proof fn lemma_dry_run_never_sets_wallpaper<E>(
    s: CandidateView,
    event: Event<E>,
    t: CandidateView,
    action: Action<E>,
    config: ConfigView,
)
    requires
        dry_run_respected(s),
        step_spec(s, event, t, action, config),
    ensures
        dry_run_respected(t),
        action is Prepare ==> !s.dry_run,
        action is Apply ==> !s.dry_run && s.stage == Stage::Preparing,
{
}

/// A file is prepared only for a candidate that passed the size checks,
/// or when the checks are off.
pub proof fn lemma_prepared_only_after_checks<E>(
    s: CandidateView,
    event: Event<E>,
    t: CandidateView,
    action: Action<E>,
    config: ConfigView,
)
    requires
        step_spec(s, event, t, action, config),
        action is Prepare,
    ensures
        (s.stage == Stage::Saving && dimension_source_spec(s.content_type, s.metadata, config)
            == DimensionSource::Skip) || (s.stage matches Stage::Judging { width, height }
            && event matches Event::AspectJudged { in_range }
            && wallpaper_match_spec(width, height, in_range, config)),
{
}

/// A body is saved only when the server announced a type that the backend
/// can show, or announced none.
pub proof fn lemma_saved_only_when_supported<E>(
    s: CandidateView,
    event: Event<E>,
    t: CandidateView,
    action: Action<E>,
    config: ConfigView,
)
    requires
        step_spec(s, event, t, action, config),
        action is Save,
    ensures
        s.stage == Stage::Downloading,
        t.content_type matches Some(ct) ==> supported_spec(ct),
{
}

/// A finished run stays finished, whatever it is told.
pub proof fn lemma_finished_stays_finished<E>(
    s: CandidateView,
    event: Event<E>,
    t: CandidateView,
    action: Action<E>,
    config: ConfigView,
)
    requires
        step_spec(s, event, t, action, config),
        s.stage == Stage::Finished,
    ensures
        t.stage == Stage::Finished,
        action is Finish,
{
}

impl CandidateRun {
    /// Starts the handling of `candidate`, downloaded with `referer`, shown by
    /// `wallpaper_setter`; with `dry_run` only its address is printed.
    pub fn new(
        candidate: &WallpaperCandidate,
        referer: &str,
        wallpaper_setter: BWWallpaperSetter,
        dry_run: bool,
        config: &BWConfig,
    ) -> (r: Self)
        ensures
            r@.stage == Stage::Start,
            r@.url == candidate.url@,
            r@.referer == referer@,
            r@.setter == wallpaper_setter,
            r@.dry_run == dry_run,
            r@.metadata == match (candidate.width, candidate.height) {
                (Some(w), Some(h)) => Some((w, h)),
                _ => None,
            },
            r@.rotate == rotate_spec(r@.metadata, config@),
            r@.content_type is None,
    {
        let metadata = metadata_dimensions(candidate);
        CandidateRun {
            url: candidate.url.clone(),
            referer: owned(referer),
            wallpaper_setter,
            dry_run,
            metadata,
            rotate: should_rotate_portrait(metadata, config),
            content_type: None,
            stage: Stage::Start,
        }
    }

    /// The first action: download the candidate.
    pub fn start<E>(&mut self) -> (a: Action<E>)
        requires
            old(self)@.stage == Stage::Start,
        ensures
            same_candidate(old(self)@, final(self)@),
            final(self)@.content_type == old(self)@.content_type,
            final(self)@.stage == Stage::Downloading,
            a matches Action::Download { url, referer } && url@ == old(self)@.url && referer@ == old(self)@.referer,
    {
        self.stage = Stage::Downloading;
        Action::Download { url: self.url.clone(), referer: self.referer.clone() }
    }

    /// The content type announced by the server, for the caller's preparation step.
    pub fn announced_content_type(&self) -> (r: Option<&str>)
        ensures
            match r {
                Some(t) => self@.content_type == Some(t@),
                None => self@.content_type is None,
            },
    {
        match &self.content_type {
            Some(t) => Some(t.as_str()),
            None => None,
        }
    }

    fn checks_passed<E>(&mut self) -> (a: Action<E>)
        ensures
            same_candidate(old(self)@, final(self)@),
            final(self)@.content_type == old(self)@.content_type,
            after_checks(old(self)@, final(self)@, a),
    {
        if self.dry_run {
            self.stage = Stage::Printing;
            Action::PrintUrl { url: self.url.clone() }
        } else {
            self.stage = Stage::Preparing;
            let preparation = wallpaper_preparation(&self.wallpaper_setter, self.announced_content_type(), self.rotate);
            Action::Prepare { preparation }
        }
    }

    fn finish<E>(&mut self, result: Result<(), CandidateError<E>>) -> (a: Action<E>)
        ensures
            same_candidate(old(self)@, final(self)@),
            final(self)@.content_type == old(self)@.content_type,
            finishes(final(self)@, a, result),
    {
        self.stage = Stage::Finished;
        Action::Finish(result)
    }

    /// Takes what the last action came to and names the next action.
    pub fn step<E>(&mut self, event: Event<E>, config: &BWConfig) -> (a: Action<E>)
        ensures
            step_spec(old(self)@, event, final(self)@, a, config@),
    {
        match (self.stage, event) {
            (Stage::Start, _) | (Stage::Finished, _) => self.finish(Err(CandidateError::UnexpectedEvent)),
            (_, Event::Failed(e)) => self.finish(Err(CandidateError::Action(e))),
            (Stage::Downloading, Event::Responded { content_type }) => {
                let supported = match &content_type {
                    Some(ct) => is_supported_content_type(&self.wallpaper_setter, ct.as_str()),
                    None => true,
                };
                if !supported {
                    let refused = match &content_type {
                        Some(ct) => ct.clone(),
                        None => String::new(),
                    };
                    self.content_type = content_type;
                    self.finish(Err(CandidateError::UnsupportedContentType {
                        wallpaper_setter: self.wallpaper_setter,
                        content_type: refused,
                    }))
                } else {
                    self.content_type = content_type;
                    self.stage = Stage::Saving;
                    Action::Save { file_name: file_name_from_url(self.url.as_str()) }
                }
            },
            (Stage::Saving, Event::Saved) => {
                match dimension_source(self.announced_content_type(), self.metadata, config) {
                    DimensionSource::Skip => self.checks_passed(),
                    DimensionSource::Metadata(width, height) => {
                        self.stage = Stage::Judging { width, height };
                        Action::JudgeAspect { width, height }
                    },
                    source => {
                        self.stage = Stage::Measuring;
                        Action::Measure { source }
                    },
                }
            },
            (Stage::Measuring, Event::Measured { width, height }) => {
                self.stage = Stage::Judging { width, height };
                Action::JudgeAspect { width, height }
            },
            (Stage::Judging { width, height }, Event::AspectJudged { in_range }) => {
                match validate_wallpaper_candidate(width, height, in_range, config) {
                    Ok(()) => self.checks_passed(),
                    Err(_) => self.finish(Err(CandidateError::DimensionsMismatch { width, height })),
                }
            },
            (Stage::Printing, Event::Printed) => self.finish(Ok(())),
            (Stage::Preparing, Event::Prepared { path }) => {
                self.stage = Stage::Applying;
                Action::Apply { wallpaper_setter: self.wallpaper_setter, path }
            },
            (Stage::Applying, Event::Applied) => self.finish(Ok(())),
            _ => self.finish(Err(CandidateError::UnexpectedEvent)),
        }
    }
}

} // verus!
