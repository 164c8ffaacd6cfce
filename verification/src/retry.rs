//! The decoder client's retry policy: which replies are retried, how often,
//! and what becomes of a request in the end.

use vstd::prelude::*;
use crate::json::{accept, json_document, parse_body, BodyError};

verus! {

/// The longest interval, in seconds, that a policy may name.
pub const MAX_INTERVAL_SECS: u64 = 1_000_000_000;

/// Exponential backoff between the attempts of one request.
#[derive(Clone, Copy, Debug, PartialEq, Eq, Structural)]
pub struct Backoff {
    /// The number of attempts after which a request is given up.
    pub max_attempts: u32,
    /// The interval before the first retry, in seconds, before jitter.
    pub min_retry_interval_secs: u64,
    /// The longest interval before any retry, in seconds.
    pub max_retry_interval_secs: u64,
    /// The factor by which the interval grows from one retry to the next.
    pub backoff_exponent: u32,
}

impl Backoff {
    /// Whether the policy allows an attempt and its intervals are within
    /// [`MAX_INTERVAL_SECS`].
    pub open spec fn valid(self) -> bool {
        &&& self.max_attempts >= 1
        &&& self.min_retry_interval_secs <= MAX_INTERVAL_SECS
        &&& self.max_retry_interval_secs <= MAX_INTERVAL_SECS
    }

    /// The decoder client's policy: 25 attempts, intervals that start at one
    /// second, double with each retry and never exceed 15 seconds.
    pub open spec fn decoder_policy() -> Backoff {
        Backoff {
            max_attempts: 25,
            min_retry_interval_secs: 1,
            max_retry_interval_secs: 15,
            backoff_exponent: 2,
        }
    }

    /// The decoder client's policy.
    #[verifier::when_used_as_spec(decoder_policy)]
    pub fn decoder() -> (policy: Backoff)
        ensures
            policy == Self::decoder_policy(),
            policy.valid(),
    {
        Backoff {
            max_attempts: 25,
            min_retry_interval_secs: 1,
            max_retry_interval_secs: 15,
            backoff_exponent: 2,
        }
    }

    /// Whether the policy is valid.
    pub fn is_valid(&self) -> (valid: bool)
        ensures
            valid == self.valid(),
    {
        self.max_attempts >= 1 && self.min_retry_interval_secs <= MAX_INTERVAL_SECS
            && self.max_retry_interval_secs <= MAX_INTERVAL_SECS
    }

    /// The number of retries that the policy allows after the first attempt.
    pub fn max_retries(&self) -> (retries: u32)
        requires
            self.valid(),
        ensures
            retries == self.max_attempts - 1,
    {
        self.max_attempts - 1
    }
}

/// Asks `ExponentialBackoff::should_retry` of `retry-policies`, for a policy
/// with the given fields, whether a request that has been retried
/// `n_past_retries` times is retried once more, and returns the time after
/// which to do so, in milliseconds since the Unix epoch.
///
/// Trusted: the policy retries exactly while `n_past_retries` is below
/// `max_n_retries`. The time it names is drawn from the clock and a random
/// jitter, so nothing is said of it; it is handed on as chrono's
/// `timestamp_millis` gives it. The bounds keep the policy's interval
/// arithmetic, which panics on overflow, within range.
#[verifier::external_body]
fn should_retry(
    max_n_retries: u32,
    min_retry_interval_secs: u64,
    max_retry_interval_secs: u64,
    backoff_exponent: u32,
    n_past_retries: u32,
) -> (execute_after: Option<i64>)
    requires
        min_retry_interval_secs <= MAX_INTERVAL_SECS,
        max_retry_interval_secs <= MAX_INTERVAL_SECS,
    ensures
        execute_after is Some <==> n_past_retries < max_n_retries,
{
    let policy = retry_policies::policies::ExponentialBackoff {
        max_n_retries,
        min_retry_interval: std::time::Duration::from_secs(min_retry_interval_secs),
        max_retry_interval: std::time::Duration::from_secs(max_retry_interval_secs),
        backoff_exponent,
    };
    match retry_policies::RetryPolicy::should_retry(&policy, n_past_retries) {
        retry_policies::RetryDecision::Retry { execute_after } => Some(
            execute_after.timestamp_millis(),
        ),
        retry_policies::RetryDecision::DoNotRetry => None,
    }
}

/// The two kinds of failed attempt.
#[derive(Clone, Copy, Debug, PartialEq, Eq, Structural)]
pub enum Failure {
    /// Expected to pass on a retry: the service was not reached, did not
    /// answer in time, was overloaded or failed on its side.
    Transient,
    /// Not expected to pass on a retry.
    Fatal,
}

/// What one outbound request came to.
#[derive(Debug)]
pub enum Reply {
    /// The service answered.
    Answered { status: u16, body: String },
    /// No answer arrived; the caller says of which kind the failure is.
    Failed(Failure),
}

/// Why a request was given up.
#[derive(Clone, Copy, Debug, PartialEq, Eq, Structural)]
pub enum DecodeError {
    /// Every attempt that the policy allows failed transiently.
    Exhausted,
    /// The service refused the request for good.
    Rejected,
    /// The service answered with a body that is not JSON.
    Malformed,
}

/// What to do after an attempt.
#[derive(Debug)]
pub enum Verdict {
    /// The request is answered: the decoded payload.
    Done(serde_json::Value),
    /// Send the request again, after the given time in milliseconds since
    /// the Unix epoch.
    RetryAt(i64),
    /// The request has failed.
    GiveUp(DecodeError),
}

/// How a reply with the given status counts: as a success (`None`), or as a
/// failure of one of the two kinds. Server errors, 408 and 429 are
/// transient; every other status outside 200 to 299 is fatal.
pub open spec fn failure_of_status(status: u16) -> Option<Failure> {
    if 500 <= status <= 599 || status == 408 || status == 429 {
        Some(Failure::Transient)
    } else if 200 <= status <= 299 {
        None
    } else {
        Some(Failure::Fatal)
    }
}

/// How a reply counts: an answer by its status, a failure to get one by
/// its kind.
pub open spec fn failure_of(reply: Reply) -> Option<Failure> {
    match reply {
        Reply::Answered { status, .. } => failure_of_status(status),
        Reply::Failed(failure) => Some(failure),
    }
}

/// Classifies a status code.
pub fn classify_status(status: u16) -> (failure: Option<Failure>)
    ensures
        failure == failure_of_status(status),
{
    if (500 <= status && status <= 599) || status == 408 || status == 429 {
        Some(Failure::Transient)
    } else if 200 <= status && status <= 299 {
        None
    } else {
        Some(Failure::Fatal)
    }
}

/// Classifies a reply.
pub fn classify(reply: &Reply) -> (failure: Option<Failure>)
    ensures
        failure == failure_of(*reply),
{
    match reply {
        Reply::Answered { status, .. } => classify_status(*status),
        Reply::Failed(failure) => Some(*failure),
    }
}

/// The attempts of one request, as far as they have failed.
pub struct AttemptsState {
    pub policy: Backoff,
    /// The number of attempts that failed transiently and were retried.
    pub failed: u32,
}

impl AttemptsState {
    /// The states that the attempts of a request can be in: the policy is
    /// valid and leaves at least one attempt.
    pub open spec fn wf(self) -> bool {
        self.policy.valid() && self.failed < self.policy.max_attempts
    }

    /// How long to wait, in milliseconds, for a retry due at `due` when the
    /// clock shows `now`, both in milliseconds since the Unix epoch: the
    /// time left, nothing where `due` has passed, and at most the policy's
    /// longest interval.
    pub open spec fn delay(self, due: i64, now: i64) -> int {
        let left = due - now;
        let longest = self.policy.max_retry_interval_secs * 1000;
        if left <= 0 {
            0
        } else if left >= longest {
            longest
        } else {
            left
        }
    }

    /// Whether one more transient failure uses up the attempts.
    pub open spec fn last_attempt(self) -> bool {
        self.failed + 1 >= self.policy.max_attempts
    }

    /// What becomes of the request after a failed attempt, where the policy
    /// answered `decision` to the question whether to retry: a fatal failure
    /// ends it; a transient one ends it on the last attempt or where the
    /// policy declines, and else is retried at the time the policy named.
    pub open spec fn after_failure(self, failure: Failure, decision: Option<i64>) -> (
        AttemptsState,
        Verdict,
    ) {
        match failure {
            Failure::Fatal => (self, Verdict::GiveUp(DecodeError::Rejected)),
            Failure::Transient => match decision {
                Some(execute_after) if !self.last_attempt() => (
                    AttemptsState { failed: (self.failed + 1) as u32, ..self },
                    Verdict::RetryAt(execute_after),
                ),
                _ => (self, Verdict::GiveUp(DecodeError::Exhausted)),
            },
        }
    }

    /// What becomes of the request after an answer that counts as a success.
    pub open spec fn after_success(parsed: Result<serde_json::Value, BodyError>) -> Verdict {
        match parsed {
            Ok(payload) => Verdict::Done(payload),
            Err(_) => Verdict::GiveUp(DecodeError::Malformed),
        }
    }
}

/// The attempts of one request to the decoding service.
pub struct Attempts {
    policy: Backoff,
    failed: u32,
}

impl View for Attempts {
    type V = AttemptsState;

    closed spec fn view(&self) -> AttemptsState {
        AttemptsState { policy: self.policy, failed: self.failed }
    }
}

impl Attempts {
    #[verifier::type_invariant]
    spec fn inv(self) -> bool {
        self@.wf()
    }

    /// A request that has not been attempted; none where the policy is not
    /// valid.
    pub fn new(policy: Backoff) -> (attempts: Option<Attempts>)
        ensures
            policy.valid() ==> attempts is Some && attempts->0@ == (AttemptsState {
                policy,
                failed: 0,
            }),
            !policy.valid() ==> attempts is None,
    {
        if policy.is_valid() {
            Some(Attempts { policy, failed: 0 })
        } else {
            None
        }
    }

    /// The number of attempts that failed transiently and were retried.
    pub fn failed(&self) -> (failed: u32)
        ensures
            failed == self@.failed,
            self@.wf(),
    {
        proof {
            use_type_invariant(self);
        }
        self.failed
    }

    /// The policy that the attempts follow.
    pub fn policy(&self) -> (policy: Backoff)
        ensures
            policy == self@.policy,
    {
        self.policy
    }

    /// How long to wait, in milliseconds, before the retry due at `due`
    /// when the clock shows `now`.
    pub fn delay_millis(&self, due: i64, now: i64) -> (millis: u64)
        ensures
            millis == self@.delay(due, now),
            millis <= self@.policy.max_retry_interval_secs * 1000,
            self@.policy.max_retry_interval_secs <= MAX_INTERVAL_SECS,
    {
        proof {
            use_type_invariant(self);
        }
        let longest: u64 = self.policy.max_retry_interval_secs * 1000;
        if due <= now {
            0
        } else {
            let left: i128 = due as i128 - now as i128;
            if left >= longest as i128 {
                longest
            } else {
                left as u64
            }
        }
    }

    /// Settles a failed attempt, given the policy's answer to whether to
    /// retry.
    pub fn on_failure(self, failure: Failure, decision: Option<i64>) -> (next: (Attempts, Verdict))
        ensures
            (next.0@, next.1) == self@.after_failure(failure, decision),
            next.0@.wf(),
    {
        proof {
            use_type_invariant(&self);
        }
        match failure {
            Failure::Fatal => (self, Verdict::GiveUp(DecodeError::Rejected)),
            Failure::Transient => match decision {
                Some(execute_after) => {
                    if self.failed + 1 < self.policy.max_attempts {
                        (
                            Attempts { policy: self.policy, failed: self.failed + 1 },
                            Verdict::RetryAt(execute_after),
                        )
                    } else {
                        (self, Verdict::GiveUp(DecodeError::Exhausted))
                    }
                },
                None => (self, Verdict::GiveUp(DecodeError::Exhausted)),
            },
        }
    }

    /// Settles an answer that counts as a success, given its body as parsed.
    pub fn on_success(parsed: Result<serde_json::Value, BodyError>) -> (verdict: Verdict)
        ensures
            verdict == AttemptsState::after_success(parsed),
    {
        match parsed {
            Ok(payload) => Verdict::Done(payload),
            Err(_) => Verdict::GiveUp(DecodeError::Malformed),
        }
    }

    /// Settles an attempt: a success ends the request with the payload read
    /// from its body, a fatal failure ends it at once, and a transient
    /// failure is retried until the policy's attempts are used up.
    pub fn next(self, reply: Reply) -> (next: (Attempts, Verdict))
        ensures
            next.0@.wf(),
            next.0@.policy == self@.policy,
            match failure_of(reply) {
                None => next.0@ == self@ && next.1 == AttemptsState::after_success(
                    accept(json_document(reply->body@)),
                ),
                Some(Failure::Fatal) => next.0@ == self@ && next.1 == Verdict::GiveUp(
                    DecodeError::Rejected,
                ),
                Some(Failure::Transient) => if self@.last_attempt() {
                    next.0@ == self@ && next.1 == Verdict::GiveUp(DecodeError::Exhausted)
                } else {
                    next.0@.failed == self@.failed + 1 && next.1 is RetryAt
                },
            },
    {
        proof {
            use_type_invariant(&self);
        }
        match reply {
            Reply::Answered { status, body } => match classify_status(status) {
                None => {
                    let verdict = Self::on_success(parse_body(body.as_str()));
                    (self, verdict)
                },
                Some(failure) => self.fail(failure),
            },
            Reply::Failed(failure) => self.fail(failure),
        }
    }

    /// Settles a failed attempt, asking the policy where the failure is
    /// transient.
    fn fail(self, failure: Failure) -> (next: (Attempts, Verdict))
        ensures
            next.0@.wf(),
            next.0@.policy == self@.policy,
            match failure {
                Failure::Fatal => next.0@ == self@ && next.1 == Verdict::GiveUp(
                    DecodeError::Rejected,
                ),
                Failure::Transient => if self@.last_attempt() {
                    next.0@ == self@ && next.1 == Verdict::GiveUp(DecodeError::Exhausted)
                } else {
                    next.0@.failed == self@.failed + 1 && next.1 is RetryAt
                },
            },
    {
        proof {
            use_type_invariant(&self);
        }
        match failure {
            Failure::Fatal => self.on_failure(failure, None),
            Failure::Transient => {
                let decision = should_retry(
                    self.policy.max_retries(),
                    self.policy.min_retry_interval_secs,
                    self.policy.max_retry_interval_secs,
                    self.policy.backoff_exponent,
                    self.failed,
                );
                self.on_failure(failure, decision)
            },
        }
    }

    /// A request to the decoder that has not been attempted, under the
    /// decoder's policy.
    pub fn decoder() -> (attempts: Attempts)
        ensures
            attempts@ == (AttemptsState { policy: Backoff::decoder(), failed: 0 }),
            attempts@.wf(),
    {
        Attempts { policy: Backoff::decoder(), failed: 0 }
    }
}

} // verus!
