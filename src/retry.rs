use vstd::prelude::*;
use crate::models::{HttpCall, HttpMethod};

verus! {

/// Connect timeout of every outbound call, in milliseconds.
pub const CONNECT_TIMEOUT_MILLIS: u64 = 500;

/// An HTTP status that counts as success.
pub open spec fn success_status(code: u16) -> bool {
    200 <= code <= 399
}

/// Whether a call succeeded: it got a response whose status is a success.
/// `None` stands for a call that got no response.
pub fn is_success(status: Option<u16>) -> (r: bool)
    ensures
        r == (status matches Some(c) && success_status(c)),
{
    match status {
        Some(c) => 200 <= c && c <= 399,
        None => false,
    }
}

/// Most attempts a call with `retries` makes: one, plus one per retry.
pub open spec fn max_attempts(retries: Option<u8>) -> nat {
    match retries {
        Some(n) => 1 + n as nat,
        None => 1,
    }
}

/// What to do after an attempt.
#[derive(Clone, Copy, Debug, PartialEq, Eq, Structural)]
pub enum RetryDecision {
    /// The attempt succeeded.
    Done,
    /// It failed and retries remain: try again.
    Retry,
    /// It failed and no retry remains.
    Exhausted,
}

/// Decision after attempt number `attempts` (counting from one) of a call
/// with `retries`.
pub fn after_attempt(attempts: u32, retries: Option<u8>, succeeded: bool) -> (r: RetryDecision)
    ensures
        succeeded ==> r == RetryDecision::Done,
        !succeeded && attempts < max_attempts(retries) ==> r == RetryDecision::Retry,
        !succeeded && attempts >= max_attempts(retries) ==> r == RetryDecision::Exhausted,
{
    if succeeded {
        return RetryDecision::Done;
    }
    let allowed: u32 = match retries {
        Some(n) => n as u32 + 1,
        None => 1,
    };
    if attempts < allowed {
        RetryDecision::Retry
    } else {
        RetryDecision::Exhausted
    }
}

/// Number of attempts made when the attempts succeed or fail as `outcomes`
/// says and at most `budget` are allowed.
pub open spec fn attempts_used(outcomes: Seq<bool>, budget: nat) -> nat
    decreases budget,
{
    if budget <= 1 || outcomes.len() == 0 || outcomes[0] {
        1
    } else {
        1 + attempts_used(outcomes.drop_first(), (budget - 1) as nat)
    }
}

/// Whether one of those attempts succeeds.
pub open spec fn succeeds_within(outcomes: Seq<bool>, budget: nat) -> bool
    decreases budget,
{
    if budget == 0 || outcomes.len() == 0 {
        false
    } else {
        outcomes[0] || succeeds_within(outcomes.drop_first(), (budget - 1) as nat)
    }
}

/// Tally of one call's attempts.
#[derive(Clone, Copy, Debug, PartialEq, Eq, Structural)]
pub struct AttemptReport {
    pub attempts: u32,
    pub retried: u32,
    pub succeeded: bool,
    pub exhausted: bool,
}

/// Runs the retry loop of a call with `retries` whose successive attempts
/// succeed or fail as `outcomes` says.
pub fn run_attempts(retries: Option<u8>, outcomes: &Vec<bool>) -> (r: AttemptReport)
    requires
        outcomes.len() >= max_attempts(retries),
    ensures
        r.attempts == attempts_used(outcomes@, max_attempts(retries)),
        r.succeeded == succeeds_within(outcomes@, max_attempts(retries)),
        r.exhausted == !r.succeeded,
        r.retried == r.attempts - 1,
{
    let ghost budget = max_attempts(retries);
    let mut attempts: u32 = 0;
    assert(outcomes@.subrange(0, outcomes.len() as int) =~= outcomes@);
    loop
        invariant
            attempts < budget,
            budget <= 256,
            outcomes.len() >= budget,
            budget == max_attempts(retries),
            attempts_used(outcomes@, budget) == attempts + attempts_used(
                outcomes@.subrange(attempts as int, outcomes.len() as int),
                (budget - attempts) as nat,
            ),
            succeeds_within(outcomes@, budget) == succeeds_within(
                outcomes@.subrange(attempts as int, outcomes.len() as int),
                (budget - attempts) as nat,
            ),
        decreases budget - attempts,
    {
        let ghost rest = outcomes@.subrange(attempts as int, outcomes.len() as int);
        assert(rest.drop_first() == outcomes@.subrange(attempts + 1, outcomes.len() as int));
        let ok = outcomes[attempts as usize];
        attempts = attempts + 1;
        match after_attempt(attempts, retries, ok) {
            RetryDecision::Done => {
                return AttemptReport { attempts, retried: attempts - 1, succeeded: true, exhausted: false };
            },
            RetryDecision::Exhausted => {
                assert(succeeds_within(rest.drop_first(), 0) == false);
                return AttemptReport { attempts, retried: attempts - 1, succeeded: false, exhausted: true };
            },
            RetryDecision::Retry => {},
        }
    }
}

proof fn lemma_failing_attempts(outcomes: Seq<bool>, budget: nat)
    requires
        budget >= 1,
        outcomes.len() >= budget,
        forall|i: int| 0 <= i < outcomes.len() ==> !outcomes[i],
    ensures
        attempts_used(outcomes, budget) == budget,
        !succeeds_within(outcomes, budget),
    decreases budget,
{
    if budget > 1 {
        lemma_failing_attempts(outcomes.drop_first(), (budget - 1) as nat);
    } else {
        assert(!succeeds_within(outcomes.drop_first(), 0));
    }
}

/// A call with `retries` whose attempts all fail makes one attempt plus one
/// per retry, and then gives up.
pub proof fn lemma_failing_call_attempts(retries: Option<u8>, outcomes: Seq<bool>)
    requires
        outcomes.len() >= max_attempts(retries),
        forall|i: int| 0 <= i < outcomes.len() ==> !outcomes[i],
    ensures
        attempts_used(outcomes, max_attempts(retries)) == max_attempts(retries),
        !succeeds_within(outcomes, max_attempts(retries)),
{
    lemma_failing_attempts(outcomes, max_attempts(retries));
}

/// Name of an HTTP method as sent on the wire.
impl HttpMethod {
    pub fn to_string(&self) -> (r: String)
        ensures
            r@ == method_name(*self),
    {
        match self {
            HttpMethod::POST => String::from_str("POST"),
            HttpMethod::GET => String::from_str("GET"),
            HttpMethod::PUT => String::from_str("PUT"),
            HttpMethod::PATCH => String::from_str("PATCH"),
            HttpMethod::DELETE => String::from_str("DELETE"),
        }
    }
}

pub open spec fn method_name(m: HttpMethod) -> Seq<char> {
    match m {
        HttpMethod::POST => "POST"@,
        HttpMethod::GET => "GET"@,
        HttpMethod::PUT => "PUT"@,
        HttpMethod::PATCH => "PATCH"@,
        HttpMethod::DELETE => "DELETE"@,
    }
}

impl HttpCall {
    /// Most attempts this call makes.
    pub fn attempt_limit(&self) -> (r: u32)
        ensures
            r == max_attempts(self.retries),
    {
        match self.retries {
            Some(n) => n as u32 + 1,
            None => 1,
        }
    }

    /// Overall timeout in milliseconds, if the call sets one (in seconds).
    pub fn timeout_millis(&self) -> (r: Option<u64>)
        ensures
            match self.timeout {
                Some(s) => r == Some((s as u64 * 1000) as u64),
                None => r is None,
            },
    {
        match self.timeout {
            Some(s) => Some(s as u64 * 1000),
            None => None,
        }
    }
}

} // verus!
