//! The decisions between attempts: when to retry a failed wallpaper attempt,
//! what a batch that yielded nothing reports, and how a fresh cache directory
//! is named and claimed.

use vstd::prelude::*;
use crate::config::{BWConfig, ConfigView};
use crate::text::{
    decimal, is_ascii_digit, lemma_decimal_digits, lemma_decimal_injective, lemma_split_at_last_separator,
    push_decimal, push_str,
};

verus! {

/// How often and how far apart wallpaper attempts are made.
#[derive(Clone, Copy, Debug, PartialEq, Eq, Structural)]
pub struct RetryPolicy {
    /// Attempts in all: the configured retries plus the first attempt.
    pub max_attempts: u32,
    /// Seconds to wait after a failed attempt.
    pub retry_interval_seconds: u64,
}

/// The policy that `config` sets.
pub open spec fn policy_spec(config: ConfigView) -> RetryPolicy {
    RetryPolicy {
        max_attempts: (config.retries() + 1) as u32,
        retry_interval_seconds: config.retry_interval(),
    }
}

/// The attempt policy of `config`: one attempt more than the configured
/// retries (3 unless set), two seconds apart unless set. The count must
/// leave room for the first attempt in a `u32`.
pub fn retry_policy(config: &BWConfig) -> (r: RetryPolicy)
    requires
        config@.retries() < u32::MAX,
    ensures
        r == policy_spec(config@),
{
    let retries = match config.max_retries {
        Some(v) => v,
        None => crate::config::DEFAULT_MAX_RETRIES,
    };
    RetryPolicy {
        max_attempts: retries + 1,
        retry_interval_seconds: config.effective_retry_interval_seconds(),
    }
}

/// What follows an attempt.
#[derive(Clone, Copy, Debug, PartialEq, Eq, Structural)]
pub enum AttemptDecision {
    /// The wallpaper is set; stop.
    Done,
    /// Wait this many seconds, then try again.
    RetryAfter(u64),
    /// That was the last attempt; report its error.
    GiveUp,
}

/// A success ends the run; a failure is retried unless it was the last attempt.
pub open spec fn decision_spec(policy: RetryPolicy, attempt: u32, succeeded: bool) -> AttemptDecision {
    if succeeded {
        AttemptDecision::Done
    } else if attempt >= policy.max_attempts {
        AttemptDecision::GiveUp
    } else {
        AttemptDecision::RetryAfter(policy.retry_interval_seconds)
    }
}

/// Decides what follows attempt number `attempt`, counted from 1.
pub fn after_attempt(policy: &RetryPolicy, attempt: u32, succeeded: bool) -> (r: AttemptDecision)
    requires
        1 <= attempt <= policy.max_attempts,
    ensures
        r == decision_spec(*policy, attempt, succeeded),
{
    if succeeded {
        AttemptDecision::Done
    } else if attempt == policy.max_attempts {
        AttemptDecision::GiveUp
    } else {
        AttemptDecision::RetryAfter(policy.retry_interval_seconds)
    }
}

/// `max_retries` counts the retries after the first failed attempt: every one
/// of the first `max_retries` failures is followed by a wait and a retry, and
/// the next failure ends the run. So `max_retries = 0` means one attempt, and
/// `max_retries = 3` means up to four.
pub proof fn lemma_retry_budget(config: ConfigView)
    requires
        config.retries() < u32::MAX,
    ensures
        forall|attempt: u32|
            1 <= attempt <= config.retries() ==> #[trigger] decision_spec(policy_spec(config), attempt, false)
                == AttemptDecision::RetryAfter(config.retry_interval()),
        decision_spec(policy_spec(config), (config.retries() + 1) as u32, false) == AttemptDecision::GiveUp,
        policy_spec(config).max_attempts == config.retries() + 1,
{
}

/// A successful attempt ends the run, whichever attempt it is.
pub proof fn lemma_success_stops(policy: RetryPolicy, attempt: u32)
    ensures
        decision_spec(policy, attempt, true) == AttemptDecision::Done,
{
}

/// Why a wallpaper attempt, or the whole run, failed.
#[derive(Debug)]
pub enum AttemptFailure<E> {
    /// Fetching the batch, or the last candidate tried, failed with this error.
    Error(E),
    /// The batch held no candidate to try.
    NoSuitableWallpaper { batch_size: u32 },
    /// An event answered no pending action.
    UnexpectedEvent,
}

/// Attempts at claiming a fresh cache directory before giving up.
pub const TEMP_DIR_ATTEMPTS: u32 = 32;

/// What creating a directory came to.
#[derive(Clone, Copy, Debug, PartialEq, Eq, Structural)]
pub enum CreateDirOutcome {
    Created,
    AlreadyExists,
    Failed,
}

/// What follows an attempt at creating a cache directory.
#[derive(Clone, Copy, Debug, PartialEq, Eq, Structural)]
pub enum TempDirStep {
    /// The directory is ours.
    Done,
    /// The name was taken; try a new one.
    TryAgain,
    /// Creating failed for another reason; report it.
    Fail,
    /// Every attempt found its name taken.
    GiveUp,
}

/// A taken name is retried until the attempts run out; any other failure ends
/// the search at once.
pub open spec fn temp_dir_step_spec(attempt: u32, outcome: CreateDirOutcome) -> TempDirStep {
    match outcome {
        CreateDirOutcome::Created => TempDirStep::Done,
        CreateDirOutcome::Failed => TempDirStep::Fail,
        CreateDirOutcome::AlreadyExists => if attempt + 1 < TEMP_DIR_ATTEMPTS {
            TempDirStep::TryAgain
        } else {
            TempDirStep::GiveUp
        },
    }
}

/// Decides what follows attempt number `attempt`, counted from 0.
pub fn temp_dir_step(attempt: u32, outcome: CreateDirOutcome) -> (r: TempDirStep)
    requires
        attempt < TEMP_DIR_ATTEMPTS,
    ensures
        r == temp_dir_step_spec(attempt, outcome),
{
    match outcome {
        CreateDirOutcome::Created => TempDirStep::Done,
        CreateDirOutcome::Failed => TempDirStep::Fail,
        CreateDirOutcome::AlreadyExists => if attempt + 1 < TEMP_DIR_ATTEMPTS {
            TempDirStep::TryAgain
        } else {
            TempDirStep::GiveUp
        },
    }
}

/// `prefix-pid-nanos-id`, the numbers in decimal.
pub open spec fn unique_name_spec(prefix: Seq<char>, pid: u32, nanos: u128, id: u64) -> Seq<char> {
    prefix + "-"@ + decimal(pid as nat) + "-"@ + decimal(nanos as nat) + "-"@ + decimal(id as nat)
}

/// The name of a cache directory made from the process ID, the time in
/// nanoseconds and a per-process counter.
pub fn unique_name(prefix: &str, pid: u32, nanos: u128, id: u64) -> (r: String)
    ensures
        r@ == unique_name_spec(prefix@, pid, nanos, id),
{
    let mut s = String::new();
    push_str(&mut s, prefix);
    push_str(&mut s, "-");
    push_decimal(&mut s, pid as u128);
    push_str(&mut s, "-");
    push_decimal(&mut s, nanos);
    push_str(&mut s, "-");
    push_decimal(&mut s, id as u128);
    s
}

proof fn lemma_decimal_has_no_dash(n: nat)
    ensures
        forall|i: int| 0 <= i < decimal(n).len() ==> decimal(n)[i] != '-',
{
    lemma_decimal_digits(n);
    assert forall|i: int| 0 <= i < decimal(n).len() implies decimal(n)[i] != '-' by {
        assert(is_ascii_digit(decimal(n)[i]));
    }
}

/// A cache directory name determines the prefix, the process ID, the time
/// and the counter it was made from: the three numbers hold no `-`, so they
/// are what follows the name's last three dashes, and the prefix is what
/// precedes them.
pub proof fn lemma_unique_names_distinct(
    prefix1: Seq<char>,
    pid1: u32,
    nanos1: u128,
    id1: u64,
    prefix2: Seq<char>,
    pid2: u32,
    nanos2: u128,
    id2: u64,
)
    requires
        unique_name_spec(prefix1, pid1, nanos1, id1) == unique_name_spec(prefix2, pid2, nanos2, id2),
    ensures
        prefix1 == prefix2,
        pid1 == pid2,
        nanos1 == nanos2,
        id1 == id2,
{
    reveal_strlit("-");
    let d1 = decimal(pid1 as nat);
    let d2 = decimal(pid2 as nat);
    let n1 = decimal(nanos1 as nat);
    let n2 = decimal(nanos2 as nat);
    let i1 = decimal(id1 as nat);
    let i2 = decimal(id2 as nat);
    lemma_decimal_has_no_dash(pid1 as nat);
    lemma_decimal_has_no_dash(pid2 as nat);
    lemma_decimal_has_no_dash(nanos1 as nat);
    lemma_decimal_has_no_dash(nanos2 as nat);
    lemma_decimal_has_no_dash(id1 as nat);
    lemma_decimal_has_no_dash(id2 as nat);
    let a2 = prefix1 + seq!['-'] + d1 + seq!['-'] + n1;
    let b2 = prefix2 + seq!['-'] + d2 + seq!['-'] + n2;
    assert(unique_name_spec(prefix1, pid1, nanos1, id1) =~= a2 + seq!['-'] + i1);
    assert(unique_name_spec(prefix2, pid2, nanos2, id2) =~= b2 + seq!['-'] + i2);
    lemma_split_at_last_separator(a2, i1, b2, i2, '-');
    let a1 = prefix1 + seq!['-'] + d1;
    let b1 = prefix2 + seq!['-'] + d2;
    assert(a2 =~= a1 + seq!['-'] + n1);
    assert(b2 =~= b1 + seq!['-'] + n2);
    lemma_split_at_last_separator(a1, n1, b1, n2, '-');
    lemma_split_at_last_separator(prefix1, d1, prefix2, d2, '-');
    lemma_decimal_injective(pid1 as nat, pid2 as nat);
    lemma_decimal_injective(nanos1 as nat, nanos2 as nat);
    lemma_decimal_injective(id1 as nat, id2 as nat);
}

/// Two cache directory names made from different values of the process's
/// counter are different, whatever prefixes, process IDs and times they
/// were made with.
pub proof fn lemma_counter_gives_new_name(
    prefix1: Seq<char>,
    pid1: u32,
    nanos1: u128,
    id1: u64,
    prefix2: Seq<char>,
    pid2: u32,
    nanos2: u128,
    id2: u64,
)
    requires
        id1 != id2,
    ensures
        unique_name_spec(prefix1, pid1, nanos1, id1) != unique_name_spec(prefix2, pid2, nanos2, id2),
{
    if unique_name_spec(prefix1, pid1, nanos1, id1) == unique_name_spec(prefix2, pid2, nanos2, id2) {
        lemma_unique_names_distinct(prefix1, pid1, nanos1, id1, prefix2, pid2, nanos2, id2);
    }
}

#[verifier::external_type_specification]
#[verifier::external_body]
pub struct ExPathBuf(std::path::PathBuf);

/// A directory under the cache directory that holds one download.
pub struct CachedTempDir {
    path: std::path::PathBuf,
}

impl CachedTempDir {
    /// Where the directory is.
    pub closed spec fn location(&self) -> std::path::PathBuf {
        self.path
    }

    /// Takes charge of the directory at `path`, which has just been created.
    pub fn at(path: std::path::PathBuf) -> (r: Self)
        ensures
            r.location() == path,
    {
        CachedTempDir { path }
    }

    /// Where the directory is.
    pub fn path(&self) -> (r: &std::path::PathBuf)
        ensures
            *r == self.location(),
    {
        &self.path
    }
}

} // verus!
