//! backpack.tf REST client policy: when to retry and how long to wait,
//! and which catalog answers are usable. The HTTP calls themselves run in
//! the application layer.
use vstd::prelude::*;
use crate::error::AppError;
use crate::text::{parse_u64, spec_parse_u64};
use vstd::arithmetic::power2::{lemma2_to64, pow2};

verus! {

/// Retries after the first attempt.
pub const MAX_RETRIES: u32 = 3;

/// What to do after one response.
#[derive(Debug, Clone, Copy, PartialEq, Eq, Structural)]
pub enum RetryDecision {
    /// Sleep this many seconds, then try again (if attempts remain).
    Retry { wait_secs: u64 },
    /// Use this response: check its status and decode its body.
    Proceed,
}

/// `2^(attempt + 1)` seconds.
pub open spec fn exponential_backoff(attempt: u32) -> u64 {
    pow2((attempt + 1) as nat) as u64
}

/// Honours `Retry-After` on 429 (falling back to exponential backoff when
/// the header is missing or not a number); backs off exponentially on a
/// 5xx while retries remain; otherwise uses the response.
pub open spec fn spec_decide(attempt: u32, status: u16, retry_after: Option<u64>) -> RetryDecision {
    if status == 429 {
        RetryDecision::Retry {
            wait_secs: match retry_after {
                Some(s) => s,
                None => exponential_backoff(attempt),
            },
        }
    } else if 500 <= status <= 599 && attempt < 3 {
        RetryDecision::Retry { wait_secs: exponential_backoff(attempt) }
    } else {
        RetryDecision::Proceed
    }
}

pub fn decide(attempt: u32, status: u16, retry_after: Option<u64>) -> (r: RetryDecision)
    requires
        attempt <= MAX_RETRIES,
    ensures
        r == spec_decide(attempt, status, retry_after),
{
    proof {
        lemma2_to64();
    }
    let backoff: u64 = if attempt == 0 {
        2
    } else if attempt == 1 {
        4
    } else if attempt == 2 {
        8
    } else {
        16
    };
    if status == 429 {
        let wait_secs = match retry_after {
            Some(s) => s,
            None => backoff,
        };
        RetryDecision::Retry { wait_secs }
    } else if 500 <= status && status <= 599 && attempt < MAX_RETRIES {
        RetryDecision::Retry { wait_secs: backoff }
    } else {
        RetryDecision::Proceed
    }
}

/// The `Retry-After` header read as whole seconds.
pub fn parse_retry_after(value: &str) -> (r: Option<u64>)
    ensures
        r == (match spec_parse_u64(value@) {
            Ok(v) => Some(v),
            Err(_) => None,
        }),
{
    match parse_u64(value) {
        Ok(v) => Some(v),
        Err(_) => None,
    }
}

/// The retry policy by status: a 429 waits for `Retry-After` seconds when
/// given (else `2^(attempt + 1)`); every 5xx status before the last attempt
/// waits `2^(attempt + 1)` seconds; every other answer, and a 5xx on the
/// last attempt, is used.
pub proof fn lemma_decide_by_status(attempt: u32, status: u16, retry_after: Option<u64>)
    requires
        attempt <= MAX_RETRIES,
    ensures
        status == 429 ==> spec_decide(attempt, status, retry_after) == (RetryDecision::Retry {
            wait_secs: match retry_after {
                Some(s) => s,
                None => pow2((attempt + 1) as nat) as u64,
            },
        }),
        500 <= status <= 599 && attempt < 3 ==> spec_decide(attempt, status, retry_after) == (
        RetryDecision::Retry { wait_secs: pow2((attempt + 1) as nat) as u64 }),
        500 <= status <= 599 && attempt == 3 ==> (spec_decide(attempt, status, retry_after)
            == RetryDecision::Proceed),
        status != 429 && !(500 <= status <= 599) ==> (spec_decide(attempt, status, retry_after)
            == RetryDecision::Proceed),
        retry_after is None ==> (spec_decide(attempt, status, retry_after) matches RetryDecision::Retry {
            wait_secs,
        } ==> 2 <= wait_secs <= 16),
{
    lemma2_to64();
}

/// What the request loop does after one response.
#[derive(Debug, Clone, Copy, PartialEq, Eq, Structural)]
pub enum RetryStep {
    /// Use this response.
    Use,
    /// Sleep `wait_secs`, then make attempt `then`; with `None` every
    /// attempt is spent and the request fails.
    Wait { wait_secs: u64, then: Option<u32> },
}

/// The loop's step after the response to attempt `attempt`: the retry
/// policy's decision, with at most `MAX_RETRIES` retries after the first
/// attempt.
pub open spec fn spec_retry_step(attempt: u32, status: u16, retry_after: Option<u64>) -> RetryStep {
    match spec_decide(attempt, status, retry_after) {
        RetryDecision::Proceed => RetryStep::Use,
        RetryDecision::Retry { wait_secs } => RetryStep::Wait {
            wait_secs,
            then: if attempt < MAX_RETRIES {
                Some((attempt + 1) as u32)
            } else {
                None
            },
        },
    }
}

pub fn retry_step(attempt: u32, status: u16, retry_after: Option<u64>) -> (r: RetryStep)
    requires
        attempt <= MAX_RETRIES,
    ensures
        r == spec_retry_step(attempt, status, retry_after),
{
    match decide(attempt, status, retry_after) {
        RetryDecision::Proceed => RetryStep::Use,
        RetryDecision::Retry { wait_secs } => RetryStep::Wait {
            wait_secs,
            then: if attempt < MAX_RETRIES {
                Some(attempt + 1)
            } else {
                None
            },
        },
    }
}

/// The error once every attempt is spent.
pub fn retries_exhausted() -> (e: AppError)
    ensures
        e matches AppError::Network(m) && m@ == "backpack.tf request failed after retries"@,
{
    AppError::Network(String::from_str("backpack.tf request failed after retries"))
}

/// Following the loop's steps from the first attempt, each next attempt
/// is the one after, and none goes past `MAX_RETRIES`: a request is sent
/// at most `MAX_RETRIES + 1` times.
pub proof fn lemma_attempts_bounded(attempt: u32, status: u16, retry_after: Option<u64>)
    requires
        attempt <= MAX_RETRIES,
    ensures
        spec_retry_step(attempt, status, retry_after) matches RetryStep::Wait { then: Some(n), .. }
            ==> n == attempt + 1 && n <= MAX_RETRIES,
        attempt == MAX_RETRIES ==> !(spec_retry_step(attempt, status, retry_after) matches RetryStep::Wait {
            then: Some(_),
            ..
        }),
{
}

/// A catalog response is usable only when it reports `success == 1`.
pub fn check_catalog_success(success: i32) -> (r: Result<(), AppError>)
    ensures
        r is Ok <==> success == 1,
        r is Err ==> r matches Err(AppError::Network(_)),
{
    if success != 1 {
        return Err(AppError::Network(String::from_str("IGetPrices returned success=0")));
    }
    Ok(())
}

/// Exponential waits double per attempt and stay within 2..=16 seconds;
/// a server error on the last attempt is not retried.
pub proof fn lemma_retry_policy(attempt: u32, status: u16)
    requires
        attempt <= 3,
        status != 429,
    ensures
        2 <= exponential_backoff(attempt) <= 16,
        attempt < 3 ==> exponential_backoff((attempt + 1) as u32) == 2 * exponential_backoff(attempt),
        attempt == 3 ==> spec_decide(attempt, status, None) == RetryDecision::Proceed,
{
    lemma2_to64();
}

} // verus!
