//! Request retry policy.
//!
//! Decides whether a failed request may be retried and, if so, after how
//! many seconds. The rules, for a response with status `s` and a retry
//! `attempt` counter:
//!
//! - `429`: if the policy is not `NoRetry`, the delay is the integer value
//!   of the `retry-after` header (no retry when the header is missing or not
//!   a number). The `NoRetry` policy never retries, even here.
//! - `500..=599`: `Linear` retries with its fixed delay and `Exponential`
//!   with `min(min_delay ^ attempt, max_delay)`, both only while
//!   `attempt <= max_retry`.
//! - any other status: no retry.

use vstd::prelude::*;

use crate::error::{PubNubError, PubNubErrorModel};
use crate::strings::{parse_u32, spec_parse_u32};
use crate::transport::{spec_header_value, TransportResponse, TransportResponseModel};

verus! {

/// Request retry policy.
#[derive(Debug, Clone, Copy, PartialEq, Eq, PartialOrd, Ord)]
pub enum RequestRetryPolicy {
    /// Requests shouldn't be tried again.
    NoRetry,
    /// Retry the request after the same amount of time.
    Linear {
        /// The delay between failed retry attempts, in seconds.
        delay: u32,
        /// Number of times a request can be retried.
        max_retry: u8,
    },
    /// Retry the request using an exponentially growing delay.
    Exponential {
        /// Minimum delay between failed retry attempts, in seconds.
        min_delay: u32,
        /// Maximum delay between failed retry attempts, in seconds.
        max_delay: u32,
        /// Number of times a request can be retried.
        max_retry: u8,
    },
}

/// `base ^ exp` over the naturals.
pub open spec fn spec_pow(base: nat, exp: nat) -> nat
    decreases exp,
{
    if exp == 0 {
        1
    } else {
        base * spec_pow(base, (exp - 1) as nat)
    }
}

/// `min(min_delay ^ attempt, max_delay)`: the delay the exponential
/// policy asks for.
pub open spec fn spec_exponential_delay(min_delay: u32, attempt: u8, max_delay: u32) -> u32 {
    if spec_pow(min_delay as nat, attempt as nat) >= max_delay as nat {
        max_delay
    } else {
        spec_pow(min_delay as nat, attempt as nat) as u32
    }
}

/// Whether the policy allows retry number `attempt` for a response with
/// this status code. The no-retry policy never retries, status 429
/// included; for the other policies 429 is retried regardless of the
/// attempt count.
pub open spec fn spec_retriable(policy: RequestRetryPolicy, attempt: u8, status: u16) -> bool {
    if status == 429 {
        policy != RequestRetryPolicy::NoRetry
    } else if 500 <= status <= 599 {
        match policy {
            RequestRetryPolicy::Linear { max_retry, .. } => attempt <= max_retry,
            RequestRetryPolicy::Exponential { max_retry, .. } => attempt <= max_retry,
            RequestRetryPolicy::NoRetry => false,
        }
    } else {
        false
    }
}

/// Whether the policy allows retry number `attempt` after this failure.
/// A transport failure without a response retries while the policy has
/// attempts left; a failure carrying an HTTP status goes by the status
/// rules; every other failure kind — serialization, cancellation and the
/// like — is never retried.
pub open spec fn spec_retriable_error(
    policy: RequestRetryPolicy,
    attempt: u8,
    reason: PubNubErrorModel,
) -> bool {
    match reason {
        PubNubErrorModel::Transport { response, .. } => match response {
            Some(resp) => spec_retriable(policy, attempt, resp.status),
            None => match policy {
                RequestRetryPolicy::Linear { max_retry, .. } => attempt <= max_retry,
                RequestRetryPolicy::Exponential { max_retry, .. } => attempt <= max_retry,
                RequestRetryPolicy::NoRetry => false,
            },
        },
        PubNubErrorModel::API { status, .. } => spec_retriable(policy, attempt, status),
        _ => false,
    }
}

/// The retry delay, in seconds, that the policy grants for retry number
/// `attempt` of a request answered by `response` — `None` when the request
/// must not be retried.
pub open spec fn spec_retry_delay(
    policy: RequestRetryPolicy,
    attempt: u8,
    response: TransportResponseModel,
) -> Option<u32> {
    if response.status == 429 {
        match policy {
            RequestRetryPolicy::NoRetry => None,
            _ => match spec_header_value(response.headers, "retry-after"@) {
                Some(v) => spec_parse_u32(v),
                None => None,
            },
        }
    } else if 500 <= response.status <= 599 {
        match policy {
            RequestRetryPolicy::NoRetry => None,
            RequestRetryPolicy::Linear { delay, max_retry } => if attempt <= max_retry {
                Some(delay)
            } else {
                None
            },
            RequestRetryPolicy::Exponential { min_delay, max_delay, max_retry } => if attempt
                <= max_retry {
                Some(spec_exponential_delay(min_delay, attempt, max_delay))
            } else {
                None
            },
        }
    } else {
        None
    }
}

/// `spec_pow` stays at or above 1 for a base of at least 1.
proof fn lemma_pow_pos(base: nat, e: nat)
    requires
        base >= 1,
    ensures
        spec_pow(base, e) >= 1,
    decreases e,
{
    if e > 0 {
        lemma_pow_pos(base, (e - 1) as nat);
        assert(base * spec_pow(base, (e - 1) as nat) >= 1) by (nonlinear_arith)
            requires
                base >= 1,
                spec_pow(base, (e - 1) as nat) >= 1,
        ;
    }
}

/// `spec_pow` never drops below 1 for a base of at least 1, and grows
/// with the exponent.
pub proof fn lemma_pow_monotone(base: nat, e1: nat, e2: nat)
    requires
        base >= 1,
        e1 <= e2,
    ensures
        spec_pow(base, e1) >= 1,
        spec_pow(base, e1) <= spec_pow(base, e2),
    decreases e2,
{
    lemma_pow_pos(base, e1);
    if e1 < e2 {
        lemma_pow_monotone(base, e1, (e2 - 1) as nat);
        lemma_pow_pos(base, (e2 - 1) as nat);
        assert(spec_pow(base, e2) == base * spec_pow(base, (e2 - 1) as nat));
        assert(base * spec_pow(base, (e2 - 1) as nat) >= spec_pow(base, (e2 - 1) as nat))
            by (nonlinear_arith)
            requires
                base >= 1,
                spec_pow(base, (e2 - 1) as nat) >= 1,
        ;
    }
}

/// `min(base ^ exp, cap)` without overflow: the exponential policy's
/// delay computation.
fn capped_pow(base: u32, exp: u8, cap: u32) -> (r: u32)
    ensures
        r == spec_exponential_delay(base, exp, cap),
{
    if cap == 0 {
        return 0;
    }
    if base == 0 {
        if exp == 0 {
            // 0 ^ 0 == 1 and cap >= 1, so min(1, cap) == 1.
            return 1;
        }
        proof {
            lemma_zero_pow(exp as nat);
        }
        return 0;
    }
    if cap == 1 {
        proof {
            lemma_pow_pos(base as nat, exp as nat);
        }
        return 1;
    }
    let mut acc: u64 = 1;
    let mut k: u8 = 0;
    while k < exp
        invariant
            base >= 1,
            acc == spec_pow(base as nat, k as nat),
            acc < cap,
            cap > 1,
            k <= exp,
        decreases exp - k,
    {
        proof {
            assert(acc * (base as u64) <= 0xffff_ffffu64 * 0xffff_ffffu64) by (nonlinear_arith)
                requires
                    acc <= 0xffff_ffffu64,
                    base as u64 <= 0xffff_ffffu64,
            ;
        }
        let next: u64 = acc * (base as u64);
        proof {
            let k1: nat = (k + 1) as nat;
            assert((k1 - 1) as nat == k as nat);
            assert(spec_pow(base as nat, k1) == (base as nat) * spec_pow(
                base as nat,
                (k1 - 1) as nat,
            ));
            assert(next == (base as nat) * spec_pow(base as nat, k as nat)) by (nonlinear_arith)
                requires
                    next == acc * (base as u64),
                    acc == spec_pow(base as nat, k as nat),
            ;
            assert(next == spec_pow(base as nat, (k + 1) as nat));
        }
        if next >= cap as u64 {
            proof {
                lemma_pow_monotone(base as nat, (k + 1) as nat, exp as nat);
            }
            return cap;
        }
        acc = next;
        k = k + 1;
    }
    acc as u32
}

/// `0 ^ e == 0` for a positive exponent.
proof fn lemma_zero_pow(e: nat)
    requires
        e > 0,
    ensures
        spec_pow(0, e) == 0,
{
}

impl RequestRetryPolicy {
    /// Largest retry attempt the policy allows on a server error.
    pub open spec fn spec_max_retry(&self) -> u8 {
        match *self {
            RequestRetryPolicy::NoRetry => 0,
            RequestRetryPolicy::Linear { max_retry, .. } => max_retry,
            RequestRetryPolicy::Exponential { max_retry, .. } => max_retry,
        }
    }

    /// Check whether retry number `attempt` is allowed for a response
    /// with this status code.
    pub fn retriable(&self, attempt: u8, status_code: u16) -> (r: bool)
        ensures
            r == spec_retriable(*self, attempt, status_code),
    {
        if status_code == 429 {
            !matches!(self, RequestRetryPolicy::NoRetry)
        } else if 500 <= status_code && status_code <= 599 {
            match self {
                RequestRetryPolicy::Linear { max_retry, .. } => attempt <= *max_retry,
                RequestRetryPolicy::Exponential { max_retry, .. } => attempt <= *max_retry,
                RequestRetryPolicy::NoRetry => false,
            }
        } else {
            false
        }
    }

    /// Check whether retry number `attempt` is allowed after this
    /// failure: a plain transport failure retries while the policy has
    /// attempts left, a failure that carries an HTTP status goes by the
    /// status rules, and every other failure kind is final.
    pub fn retriable_error(&self, attempt: u8, reason: &PubNubError) -> (r: bool)
        ensures
            r == spec_retriable_error(*self, attempt, reason.deep_view()),
    {
        match reason {
            PubNubError::Transport { response, .. } => match response {
                Some(resp) => self.retriable(attempt, resp.status),
                None => match self {
                    RequestRetryPolicy::Linear { max_retry, .. } => attempt <= *max_retry,
                    RequestRetryPolicy::Exponential { max_retry, .. } => attempt <= *max_retry,
                    RequestRetryPolicy::NoRetry => false,
                },
            },
            PubNubError::API { status, .. } => self.retriable(attempt, *status),
            _ => false,
        }
    }

    /// Delay in seconds before retry number `attempt` of a request that
    /// was answered by `response`, or `None` when the request must not
    /// be retried.
    pub fn retry_delay(&self, attempt: &u8, response: &TransportResponse) -> (r: Option<u32>)
        ensures
            r == spec_retry_delay(*self, *attempt, response.deep_view()),
    {
        if response.status == 429 {
            match self {
                RequestRetryPolicy::NoRetry => None,
                _ => match response.header_value("retry-after") {
                    Some(v) => parse_u32(v.as_str()),
                    None => None,
                },
            }
        } else if 500 <= response.status && response.status <= 599 {
            match self {
                RequestRetryPolicy::NoRetry => None,
                RequestRetryPolicy::Linear { delay, max_retry } => if *attempt <= *max_retry {
                    Some(*delay)
                } else {
                    None
                },
                RequestRetryPolicy::Exponential { min_delay, max_delay, max_retry } => if *attempt
                    <= *max_retry {
                    Some(capped_pow(*min_delay, *attempt, *max_delay))
                } else {
                    None
                },
            }
        } else {
            None
        }
    }
}

/// For every policy, a response whose status is neither 429 nor a server
/// error — a client error such as 400 among them — is granted no retry
/// delay.
pub proof fn lemma_no_delay_for_other_status(
    policy: RequestRetryPolicy,
    attempt: u8,
    response: TransportResponseModel,
)
    requires
        response.status != 429,
        !(500 <= response.status <= 599),
    ensures
        spec_retry_delay(policy, attempt, response) is None,
{
}

/// On a server error, `Linear { delay, max_retry }` grants exactly its
/// fixed delay while `attempt <= max_retry`, and nothing afterwards.
pub proof fn lemma_linear_delay(
    delay: u32,
    max_retry: u8,
    attempt: u8,
    response: TransportResponseModel,
)
    requires
        500 <= response.status <= 599,
    ensures
        attempt <= max_retry ==> spec_retry_delay(
            RequestRetryPolicy::Linear { delay, max_retry },
            attempt,
            response,
        ) == Some(delay),
        attempt > max_retry ==> spec_retry_delay(
            RequestRetryPolicy::Linear { delay, max_retry },
            attempt,
            response,
        ) is None,
{
}

/// On a server error, `Exponential` grants `min(min_delay ^ attempt,
/// max_delay)` while `attempt <= max_retry`, and nothing afterwards.
pub proof fn lemma_exponential_delay(
    min_delay: u32,
    max_delay: u32,
    max_retry: u8,
    attempt: u8,
    response: TransportResponseModel,
)
    requires
        500 <= response.status <= 599,
    ensures
        attempt <= max_retry ==> spec_retry_delay(
            RequestRetryPolicy::Exponential { min_delay, max_delay, max_retry },
            attempt,
            response,
        ) == Some(
            if spec_pow(min_delay as nat, attempt as nat) >= max_delay as nat {
                max_delay
            } else {
                spec_pow(min_delay as nat, attempt as nat) as u32
            },
        ),
        attempt > max_retry ==> spec_retry_delay(
            RequestRetryPolicy::Exponential { min_delay, max_delay, max_retry },
            attempt,
            response,
        ) is None,
{
}

/// On status 429 with a numeric `retry-after` header, every policy but
/// `NoRetry` grants the header's value; `NoRetry` grants nothing.
pub proof fn lemma_too_many_requests_delay(
    policy: RequestRetryPolicy,
    attempt: u8,
    response: TransportResponseModel,
    header: Seq<char>,
    secs: u32,
)
    requires
        response.status == 429,
        spec_header_value(response.headers, "retry-after"@) == Some(header),
        spec_parse_u32(header) == Some(secs),
    ensures
        policy != RequestRetryPolicy::NoRetry ==> spec_retry_delay(policy, attempt, response)
            == Some(secs),
        policy == RequestRetryPolicy::NoRetry ==> spec_retry_delay(policy, attempt, response)
            is None,
{
}

impl Default for RequestRetryPolicy {
    /// The default policy retries nothing.
    fn default() -> (r: Self)
        ensures
            r == RequestRetryPolicy::NoRetry,
    {
        RequestRetryPolicy::NoRetry
    }
}

} // verus!
