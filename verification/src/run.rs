//! A whole wallpaper run as a machine: fetch a batch, try its candidates in
//! order until one is set, and, when an attempt fails, wait and fetch again
//! until the attempts run out. The caller performs the actions.

use vstd::prelude::*;
use crate::attempts::{
    after_attempt, decision_spec, policy_spec, retry_policy, AttemptDecision,
    AttemptFailure, RetryPolicy,
};
use crate::config::BWConfig;

verus! {

/// Where a run stands.
#[derive(Clone, Copy, Debug, PartialEq, Eq, Structural)]
pub enum RunStage {
    Start,
    /// A batch of candidates is being fetched.
    Fetching,
    /// A candidate of the batch is being tried.
    Trying,
    /// The run waits before the next attempt.
    Waiting,
    Finished,
}

/// What the last action of a run came to.
#[derive(Debug)]
pub enum RunEvent<E> {
    /// The batch holds this many candidates.
    Fetched { count: usize },
    /// The candidate tried was set as wallpaper, or failed with this error.
    CandidateDone(Result<(), E>),
    /// The wait is over.
    Waited,
    /// Fetching the batch failed with this error.
    FetchFailed(E),
}

/// What the caller is to do next in a run.
#[derive(Debug)]
pub enum RunAction<E> {
    /// Fetch a batch of candidates.
    FetchBatch,
    /// Try the candidate at `index` of the batch.
    TryCandidate { index: usize },
    /// Wait this many seconds.
    Wait { seconds: u64 },
    /// Stop, with this result.
    Finish(Result<(), AttemptFailure<E>>),
}

/// A run as mathematical values.
pub struct RunView {
    pub stage: RunStage,
    pub policy: RetryPolicy,
    /// The current attempt, counted from 1.
    pub attempt: u32,
    pub batch_size: u32,
    /// Candidates in the current batch.
    pub count: usize,
    /// The candidate being tried.
    pub index: usize,
}

/// A wallpaper run.
pub struct WallpaperRun {
    stage: RunStage,
    policy: RetryPolicy,
    attempt: u32,
    batch_size: u32,
    count: usize,
    index: usize,
}

/// Attempts are counted within the policy, and a candidate being tried
/// belongs to the batch.
pub open spec fn run_wf(v: RunView) -> bool {
    &&& v.policy.max_attempts >= 1
    &&& (v.stage == RunStage::Fetching || v.stage == RunStage::Trying || v.stage == RunStage::Waiting)
        ==> 1 <= v.attempt <= v.policy.max_attempts
    &&& v.stage == RunStage::Trying ==> v.index < v.count
    &&& v.stage == RunStage::Waiting ==> v.attempt < v.policy.max_attempts
}

impl View for WallpaperRun {
    type V = RunView;

    closed spec fn view(&self) -> RunView {
        RunView {
            stage: self.stage,
            policy: self.policy,
            attempt: self.attempt,
            batch_size: self.batch_size,
            count: self.count,
            index: self.index,
        }
    }
}

/// The settings of a run that no step changes.
pub open spec fn same_run(s: RunView, t: RunView) -> bool {
    t.policy == s.policy && t.batch_size == s.batch_size
}

/// An attempt failed with `failure`: the run waits for the next attempt, or
/// ends with that failure after the last one.
pub open spec fn attempt_failed<E>(s: RunView, t: RunView, action: RunAction<E>, failure: AttemptFailure<E>) -> bool {
    &&& t.attempt == s.attempt
    &&& match decision_spec(s.policy, s.attempt, false) {
        AttemptDecision::RetryAfter(seconds) => t.stage == RunStage::Waiting && action
            == RunAction::<E>::Wait { seconds },
        _ => t.stage == RunStage::Finished && action == RunAction::Finish(Err(failure)),
    }
}

/// One step of a run:
/// - a fetched batch is tried from its first candidate; an empty batch fails the attempt;
/// - a candidate that is set ends the run; one that fails passes to the next,
///   and the last one's error fails the attempt;
/// - a failed fetch fails the attempt;
/// - after the wait the next attempt fetches a new batch;
/// - any other event ends the run as unexpected.
pub open spec fn run_step_spec<E>(s: RunView, event: RunEvent<E>, t: RunView, action: RunAction<E>) -> bool {
    &&& same_run(s, t)
    &&& match (s.stage, event) {
        (RunStage::Fetching, RunEvent::Fetched { count }) => if count > 0 {
            t.stage == RunStage::Trying && t.attempt == s.attempt && t.count == count && t.index == 0
                && action == RunAction::<E>::TryCandidate { index: 0 }
        } else {
            attempt_failed(s, t, action, AttemptFailure::NoSuitableWallpaper { batch_size: s.batch_size })
        },
        (RunStage::Fetching, RunEvent::FetchFailed(e)) => attempt_failed(s, t, action, AttemptFailure::Error(e)),
        (RunStage::Trying, RunEvent::CandidateDone(Ok(()))) => t.stage == RunStage::Finished
            && action == RunAction::<E>::Finish(Ok(())),
        (RunStage::Trying, RunEvent::CandidateDone(Err(e))) => if s.index + 1 < s.count {
            t.stage == RunStage::Trying && t.attempt == s.attempt && t.count == s.count && t.index == s.index + 1
                && action == RunAction::<E>::TryCandidate { index: (s.index + 1) as usize }
        } else {
            attempt_failed(s, t, action, AttemptFailure::Error(e))
        },
        (RunStage::Waiting, RunEvent::Waited) => t.stage == RunStage::Fetching && t.attempt == s.attempt + 1
            && action == RunAction::<E>::FetchBatch,
        _ => t.stage == RunStage::Finished && action == RunAction::<E>::Finish(Err(AttemptFailure::UnexpectedEvent)),
    }
}

impl WallpaperRun {
    #[verifier::type_invariant]
    closed spec fn well_formed(&self) -> bool {
        run_wf(self@)
    }

    /// A run under the retry policy and batch size of `config`. The retry
    /// count must leave room for the first attempt in a `u32`.
    pub fn new(config: &BWConfig) -> (r: Self)
        requires
            config@.retries() < u32::MAX,
        ensures
            r@.stage == RunStage::Start,
            r@.policy == policy_spec(config@),
            r@.batch_size == config@.batch(),
    {
        WallpaperRun {
            stage: RunStage::Start,
            policy: retry_policy(config),
            attempt: 0,
            batch_size: config.effective_batch_size(),
            count: 0,
            index: 0,
        }
    }

    /// The first action: fetch the first batch.
    pub fn start<E>(&mut self) -> (a: RunAction<E>)
        ensures
            old(self)@.stage == RunStage::Start ==> final(self)@.stage == RunStage::Fetching
                && final(self)@.attempt == 1 && a == RunAction::<E>::FetchBatch,
            old(self)@.stage != RunStage::Start ==> final(self)@.stage == RunStage::Finished
                && a == RunAction::<E>::Finish(Err(AttemptFailure::UnexpectedEvent)),
            same_run(old(self)@, final(self)@),
            run_wf(final(self)@),
    {
        proof {
            use_type_invariant(&*self);
        }
        if self.stage == RunStage::Start {
            self.set(RunStage::Fetching, 1, self.count, self.index);
            RunAction::FetchBatch
        } else {
            self.set(RunStage::Finished, self.attempt, self.count, self.index);
            RunAction::Finish(Err(AttemptFailure::UnexpectedEvent))
        }
    }

    fn set(&mut self, stage: RunStage, attempt: u32, count: usize, index: usize)
        requires
            run_wf(RunView { stage, attempt, count, index, ..old(self)@ }),
        ensures
            final(self)@ == (RunView { stage, attempt, count, index, ..old(self)@ }),
    {
        *self = WallpaperRun { stage, policy: self.policy, attempt, batch_size: self.batch_size, count, index };
    }

    fn fail_attempt<E>(&mut self, failure: AttemptFailure<E>) -> (a: RunAction<E>)
        requires
            old(self)@.stage == RunStage::Fetching || old(self)@.stage == RunStage::Trying,
        ensures
            same_run(old(self)@, final(self)@),
            attempt_failed(old(self)@, final(self)@, a, failure),
    {
        proof {
            use_type_invariant(&*self);
        }
        match after_attempt(&self.policy, self.attempt, false) {
            AttemptDecision::RetryAfter(seconds) => {
                self.set(RunStage::Waiting, self.attempt, self.count, self.index);
                RunAction::Wait { seconds }
            },
            _ => {
                self.set(RunStage::Finished, self.attempt, self.count, self.index);
                RunAction::Finish(Err(failure))
            },
        }
    }

    /// Takes what the last action came to and names the next action.
    pub fn step<E>(&mut self, event: RunEvent<E>) -> (a: RunAction<E>)
        ensures
            run_step_spec(old(self)@, event, final(self)@, a),
    {
        proof {
            use_type_invariant(&*self);
        }
        match (self.stage, event) {
            (RunStage::Fetching, RunEvent::Fetched { count }) => if count > 0 {
                self.set(RunStage::Trying, self.attempt, count, 0);
                RunAction::TryCandidate { index: 0 }
            } else {
                self.fail_attempt(AttemptFailure::NoSuitableWallpaper { batch_size: self.batch_size })
            },
            (RunStage::Fetching, RunEvent::FetchFailed(e)) => self.fail_attempt(AttemptFailure::Error(e)),
            (RunStage::Trying, RunEvent::CandidateDone(Ok(()))) => {
                self.set(RunStage::Finished, self.attempt, self.count, self.index);
                RunAction::Finish(Ok(()))
            },
            (RunStage::Trying, RunEvent::CandidateDone(Err(e))) => if self.index + 1 < self.count {
                let next = self.index + 1;
                self.set(RunStage::Trying, self.attempt, self.count, next);
                RunAction::TryCandidate { index: next }
            } else {
                self.fail_attempt(AttemptFailure::Error(e))
            },
            (RunStage::Waiting, RunEvent::Waited) => {
                let next = self.attempt + 1;
                self.set(RunStage::Fetching, next, self.count, self.index);
                RunAction::FetchBatch
            },
            _ => {
                self.set(RunStage::Finished, self.attempt, self.count, self.index);
                RunAction::Finish(Err(AttemptFailure::UnexpectedEvent))
            },
        }
    }
}

/// Every batch is fetched within the attempt budget: a fetch follows only
/// the start or a wait, the attempt count rises by one with each, and it
/// never passes the policy's number of attempts.
pub proof fn lemma_fetches_within_budget<E>(s: RunView, event: RunEvent<E>, t: RunView, action: RunAction<E>)
    requires
        run_wf(s),
        run_step_spec(s, event, t, action),
    ensures
        (action is FetchBatch) ==> (s.stage == RunStage::Waiting && t.attempt == s.attempt + 1
            && t.attempt <= t.policy.max_attempts),
        (action is Wait) ==> s.attempt < s.policy.max_attempts,
{
}

/// A candidate that is set ends the run at once with success.
pub proof fn lemma_success_ends_run<E>(s: RunView, t: RunView, action: RunAction<E>)
    requires
        s.stage == RunStage::Trying,
        run_step_spec(s, RunEvent::CandidateDone(Ok(())), t, action),
    ensures
        t.stage == RunStage::Finished,
        action == RunAction::<E>::Finish(Ok(())),
{
}

/// The candidates of a batch are tried one after another, in the batch's order.
pub proof fn lemma_candidates_in_order<E>(s: RunView, event: RunEvent<E>, t: RunView, action: RunAction<E>)
    requires
        run_step_spec(s, event, t, action),
        (action matches RunAction::TryCandidate { index } && index > 0),
    ensures
        s.stage == RunStage::Trying,
        action == (RunAction::<E>::TryCandidate { index: (s.index + 1) as usize }),
        t.index < t.count,
{
}

/// A fetched batch that holds a candidate is tried, from its first
/// candidate; only an empty batch fails the attempt for want of a suitable
/// wallpaper.
pub proof fn lemma_nonempty_batch_is_tried<E>(s: RunView, count: usize, t: RunView, action: RunAction<E>)
    requires
        s.stage == RunStage::Fetching,
        run_step_spec(s, RunEvent::Fetched { count }, t, action),
    ensures
        count >= 1 ==> (t.stage == RunStage::Trying && t.index == 0 && t.count == count && t.attempt == s.attempt
            && action == (RunAction::<E>::TryCandidate { index: 0 })),
        count == 0 ==> t.stage != RunStage::Trying && !(action is TryCandidate),
        (action matches RunAction::Finish(Err(AttemptFailure::NoSuitableWallpaper { .. }))) ==> count == 0,
        (action is Wait) ==> count == 0,
{
}

/// A candidate that fails hands over to the next one of the batch while any
/// is left; no candidate of a batch is skipped.
pub proof fn lemma_failed_candidate_hands_over<E>(s: RunView, e: E, t: RunView, action: RunAction<E>)
    requires
        s.stage == RunStage::Trying,
        s.index + 1 < s.count,
        run_step_spec(s, RunEvent::CandidateDone(Err(e)), t, action),
    ensures
        t.stage == RunStage::Trying,
        t.index == s.index + 1,
        t.count == s.count,
        t.attempt == s.attempt,
        action == (RunAction::<E>::TryCandidate { index: (s.index + 1) as usize }),
{
}

/// What the program does once a run has ended.
#[derive(Clone, Copy, Debug, PartialEq, Eq, Structural)]
pub enum CycleStep {
    /// No cycle interval is set: the program ends.
    Stop,
    /// Wallpapers rotate: wait this many seconds, then run again.
    SleepThenRun { seconds: u64 },
}

/// Periodic rotation: with a cycle interval of `s` seconds the program runs
/// again after sleeping `s` seconds, whatever the run came to; without one
/// it runs once.
pub open spec fn cycle_step_spec(interval: Option<u64>, run_succeeded: bool) -> CycleStep {
    match interval {
        None => CycleStep::Stop,
        Some(seconds) => CycleStep::SleepThenRun { seconds },
    }
}

/// Decides, once a run has ended (and its error, if any, has been reported),
/// whether the program stops or sleeps and runs again.
pub fn after_run(config: &BWConfig, run_succeeded: bool) -> (r: CycleStep)
    ensures
        r == cycle_step_spec(config@.cycle_interval_seconds, run_succeeded),
{
    match config.cycle_interval_seconds {
        None => CycleStep::Stop,
        Some(seconds) => CycleStep::SleepThenRun { seconds },
    }
}

/// A failed run never stops periodic rotation: the next step is the same as
/// after a run that set a wallpaper, and with an interval set it is always
/// to sleep that long and run again.
pub proof fn lemma_failures_keep_rotating(interval: Option<u64>)
    ensures
        cycle_step_spec(interval, false) == cycle_step_spec(interval, true),
        interval matches Some(s) ==> cycle_step_spec(interval, false) == (CycleStep::SleepThenRun { seconds: s }),
        interval is None ==> cycle_step_spec(interval, true) == CycleStep::Stop,
{
}

} // verus!
