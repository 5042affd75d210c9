//! Bounded retry of transient failures.
//!
//! A failed rendering operation is classified by its message: one that
//! mentions the browser, the connection, or a closed or terminated process is
//! transient — likely cured by recreating the process and its contexts — and
//! is retried up to a fixed budget of attempts, each retry preceded by one
//! recreation cycle. Anything else is permanent and propagates at once.

use vstd::prelude::*;

verus! {

/// Total number of attempts an operation is given, first try included.
pub const MAX_ATTEMPTS: usize = 3;

/// Case-insensitive character match against a lowercase pattern character.
pub open spec fn spec_lower_eq(c: char, p: char) -> bool {
    c == p || ('A' as int <= c as int && c as int <= 'Z' as int && c as int + 32 == p as int)
}

/// The pattern matches at offset `i` of `s`, ignoring ASCII case.
pub open spec fn spec_matches_at(s: Seq<char>, pat: Seq<char>, i: int) -> bool {
    forall|j: int| 0 <= j < pat.len() ==> spec_lower_eq(s[i + j], #[trigger] pat[j])
}

/// The pattern occurs somewhere in `s`, ignoring ASCII case.
pub open spec fn spec_contains_ci(s: Seq<char>, pat: Seq<char>) -> bool {
    exists|i: int| 0 <= i && i + pat.len() <= s.len() && #[trigger] spec_matches_at(s, pat, i)
}

/// A message is transient exactly when it mentions one of the marks of a
/// dead or unreachable process, in any ASCII case.
pub open spec fn spec_transient_message(s: Seq<char>) -> bool {
    ||| spec_contains_ci(s, "browser"@)
    ||| spec_contains_ci(s, "connection"@)
    ||| spec_contains_ci(s, "closed"@)
    ||| spec_contains_ci(s, "terminated"@)
}

fn char_matches_lower(c: char, p: char) -> (r: bool)
    ensures
        r == spec_lower_eq(c, p),
{
    let cu = c as u32;
    let pu = p as u32;
    c == p || (65 <= cu && cu <= 90 && cu + 32 == pu)
}

/// Whether `pat` occurs in `s` when ASCII case is ignored; `pat` is given in
/// lowercase.
fn contains_lower_pattern(s: &str, pat: &str) -> (r: bool)
    ensures
        r == spec_contains_ci(s@, pat@),
{
    let n = s.unicode_len();
    let m = pat.unicode_len();
    if m > n {
        return false;
    }
    let mut i: usize = 0;
    while i <= n - m
        invariant
            i <= n,
            m <= n,
            n == s@.len(),
            m == pat@.len(),
            forall|k: int| 0 <= k < i ==> !spec_matches_at(s@, pat@, k),
        decreases n - i,
    {
        let mut j: usize = 0;
        let mut matched = true;
        while matched && j < m
            invariant
                i + m <= n,
                n == s@.len(),
                m == pat@.len(),
                j <= m,
                matched ==> forall|t: int| 0 <= t < j ==> spec_lower_eq(s@[i + t], #[trigger] pat@[t]),
                !matched ==> !spec_matches_at(s@, pat@, i as int),
            decreases m + 1 - j + (if matched { 1int } else { 0int }),
        {
            if !char_matches_lower(s.get_char(i + j), pat.get_char(j)) {
                proof {
                    assert(!spec_lower_eq(s@[i + j], pat@[j as int]));
                }
                matched = false;
            } else {
                j = j + 1;
            }
        }
        if matched {
            proof {
                assert(spec_matches_at(s@, pat@, i as int));
            }
            return true;
        }
        i = i + 1;
    }
    false
}

/// Classifies an error message: `true` exactly when the message marks the
/// failure as transient — it mentions the browser, the connection, or a
/// closed or terminated process, in any ASCII case.
pub fn is_browser_error(message: &str) -> (r: bool)
    ensures
        r == spec_transient_message(message@),
{
    contains_lower_pattern(message, "browser") || contains_lower_pattern(message, "connection")
        || contains_lower_pattern(message, "closed") || contains_lower_pattern(
        message,
        "terminated",
    )
}

/// What one invocation of the retried operation yielded.
#[derive(PartialEq, Eq, Debug)]
pub enum OperationOutcome {
    /// The operation succeeded; its value goes to the caller unchanged.
    Succeeded,
    /// The operation failed with this error message.
    Failed(String),
}

/// How a bounded-retry run ends.
#[derive(PartialEq, Eq, Debug)]
pub enum RetryResult {
    /// The operation succeeded on this attempt (counted from zero).
    Success(usize),
    /// A permanently classified failure ended the run at this attempt.
    Permanent(usize),
    /// Every attempt failed with a transient error; the budget is spent.
    /// Carries the last attempt's error message as the underlying cause.
    Exhausted(String),
}

/// After a failed attempt: retry — after one recreation cycle — or give up.
#[derive(Clone, Copy, PartialEq, Eq, Structural, Debug)]
pub enum RetryVerdict {
    Retry,
    GiveUp,
}

/// The retry rule: a failed attempt is retried exactly when budget remains
/// after it and its error is transient.
pub open spec fn spec_retry_decision(attempt: int, transient: bool) -> RetryVerdict {
    if attempt + 1 < MAX_ATTEMPTS && transient {
        RetryVerdict::Retry
    } else {
        RetryVerdict::GiveUp
    }
}

/// Decides whether the failed attempt numbered `attempt` (from zero) is
/// retried, given its error's classification.
pub fn retry_decision(attempt: usize, transient: bool) -> (v: RetryVerdict)
    ensures
        v == spec_retry_decision(attempt as int, transient),
{
    if attempt < MAX_ATTEMPTS - 1 && transient {
        RetryVerdict::Retry
    } else {
        RetryVerdict::GiveUp
    }
}

/// How a retry run ends, and how many recreation cycles it performs, when
/// the successive invocations of the operation would yield
/// `outcomes[attempt], ...`: success and permanent failures end the run at
/// once, a transient failure with budget left costs one recreation and moves
/// to the next attempt, and a transient failure on the last attempt spends
/// the budget.
pub open spec fn spec_retry_from(outcomes: Seq<OperationOutcome>, attempt: int) -> (
    RetryResult,
    int,
)
    decreases MAX_ATTEMPTS - attempt,
{
    if attempt < 0 || attempt >= MAX_ATTEMPTS || attempt >= outcomes.len() {
        // A run that starts at attempt zero with enough outcomes never asks
        // for this case.
        (RetryResult::Exhausted(arbitrary()), 0)
    } else {
        match outcomes[attempt] {
            OperationOutcome::Succeeded => (RetryResult::Success(attempt as usize), 0),
            OperationOutcome::Failed(msg) => {
                if !spec_transient_message(msg@) {
                    (RetryResult::Permanent(attempt as usize), 0)
                } else if attempt + 1 < MAX_ATTEMPTS {
                    let rest = spec_retry_from(outcomes, attempt + 1);
                    (rest.0, rest.1 + 1)
                } else {
                    (RetryResult::Exhausted(msg), 0)
                }
            },
        }
    }
}

/// Runs the bounded-retry rule over the outcomes the operation would yield
/// on each successive attempt, returning how the run ends and how many
/// recreation cycles it performed on the way.
pub fn run_with_retry(outcomes: &Vec<OperationOutcome>) -> (r: (RetryResult, usize))
    requires
        outcomes@.len() >= MAX_ATTEMPTS,
    ensures
        r.0 == spec_retry_from(outcomes@, 0).0,
        r.1 == spec_retry_from(outcomes@, 0).1,
{
    let mut attempt: usize = 0;
    let mut recreations: usize = 0;
    while attempt < MAX_ATTEMPTS
        invariant
            outcomes@.len() >= MAX_ATTEMPTS,
            attempt < MAX_ATTEMPTS,
            recreations == attempt,
            spec_retry_from(outcomes@, 0).0 == spec_retry_from(outcomes@, attempt as int).0,
            spec_retry_from(outcomes@, 0).1 == spec_retry_from(outcomes@, attempt as int).1
                + recreations,
        decreases MAX_ATTEMPTS - attempt,
    {
        match &outcomes[attempt] {
            OperationOutcome::Succeeded => {
                return (RetryResult::Success(attempt), recreations);
            },
            OperationOutcome::Failed(msg) => {
                let transient = is_browser_error(msg.as_str());
                if !transient {
                    return (RetryResult::Permanent(attempt), recreations);
                }
                if attempt + 1 < MAX_ATTEMPTS {
                    recreations = recreations + 1;
                    attempt = attempt + 1;
                } else {
                    return (RetryResult::Exhausted(msg.clone()), recreations);
                }
            },
        }
    }
    // The last attempt always returns, so the loop cannot run out.
    proof {
        assert(false);
    }
    (RetryResult::Exhausted(String::new()), recreations)
}

/// An operation that fails with a transient error twice and succeeds on the
/// third attempt completes successfully, and the run performs exactly two
/// recreation cycles on the way.
pub proof fn lemma_two_transient_failures_then_success(outcomes: Seq<OperationOutcome>)
    requires
        outcomes.len() >= 3,
        outcomes[0] matches OperationOutcome::Failed(m0) && spec_transient_message(m0@),
        outcomes[1] matches OperationOutcome::Failed(m1) && spec_transient_message(m1@),
        outcomes[2] is Succeeded,
    ensures
        spec_retry_from(outcomes, 0).0 == RetryResult::Success(2),
        spec_retry_from(outcomes, 0).1 == 2,
{
    reveal_with_fuel(spec_retry_from, 4);
    assert(spec_retry_from(outcomes, 2).0 == RetryResult::Success(2));
    assert(spec_retry_from(outcomes, 2).1 == 0);
    assert(spec_retry_from(outcomes, 1).1 == 1);
}

} // verus!
