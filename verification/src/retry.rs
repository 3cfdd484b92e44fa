//! The request/retry executor's decision logic.
//!
//! Every endpoint operation performs one logical GET. The transport layer
//! reports each attempt's result as an [`HttpEvent`]; [`retry_step`] decides,
//! from the configured policy and the number of retries already made, whether
//! the call is finished or must wait and be reissued. [`run_events`] folds
//! that decision over a whole sequence of attempt results, which makes the
//! retry loop itself a pure, testable function: a simulated transport is
//! nothing but a vector of events.
//!
//! The policy is a bounded loop keyed purely on HTTP 429: the wait is the
//! server's stated reset time, or 60 seconds when the header is absent or
//! unparseable. There is no jitter and no exponential backoff.

use vstd::prelude::*;
use vstd::string::*;

use crate::error::{AmberError, AmberErrorV};
use crate::text::{all_digits, digits_val, parse_u64};

verus! {

/// Seconds waited after a 429 whose reset header is absent or unparseable.
pub const DEFAULT_RETRY_AFTER: u64 = 60;

/// Retry configuration of a client: how many retries a logical call may
/// spend on 429 responses, and whether it may retry at all.
#[derive(Debug, Clone, Copy, PartialEq, Eq, Structural)]
pub struct RetryPolicy {
    /// Greatest number of retries one logical call may make.
    pub max_retries: u32,
    /// When false, a 429 fails the call immediately.
    pub enabled: bool,
}

impl RetryPolicy {
    /// The default policy: up to 3 retries, retrying enabled.
    pub fn standard() -> (r: RetryPolicy)
        ensures
            r.max_retries == 3,
            r.enabled,
    {
        RetryPolicy { max_retries: 3, enabled: true }
    }
}

/// What the transport reports for one attempt of a logical call.
#[derive(Debug)]
pub enum HttpEvent {
    /// An HTTP response came back, with its status code, the value of the
    /// rate-limit-reset header if one was present, and the body as text.
    Response { status: u16, retry_reset: Option<String>, body: String },
    /// The attempt failed below HTTP (DNS, connection, TLS, timeout).
    TransportFailed { message: String },
}

/// Mathematical image of an [`HttpEvent`].
pub enum HttpEventV {
    Response { status: u16, retry_reset: Option<Seq<char>>, body: Seq<char> },
    TransportFailed { message: Seq<char> },
}

impl View for HttpEvent {
    type V = HttpEventV;

    open spec fn view(&self) -> HttpEventV {
        match self {
            HttpEvent::Response { status, retry_reset, body } => HttpEventV::Response {
                status: *status,
                retry_reset: match retry_reset {
                    Some(s) => Some(s@),
                    None => None,
                },
                body: body@,
            },
            HttpEvent::TransportFailed { message } => HttpEventV::TransportFailed {
                message: message@,
            },
        }
    }
}

/// What one attempt's event means for the call: either it is over, or the
/// call must sleep for the given number of seconds and reissue the request.
#[derive(Debug)]
pub enum StepOutcome {
    Done(Result<String, AmberError>),
    Sleep { seconds: u64 },
}

/// Mathematical image of a [`StepOutcome`].
pub enum StepOutcomeV {
    Done(Result<Seq<char>, AmberErrorV>),
    Sleep { seconds: u64 },
}

impl View for StepOutcome {
    type V = StepOutcomeV;

    open spec fn view(&self) -> StepOutcomeV {
        match self {
            StepOutcome::Done(Ok(b)) => StepOutcomeV::Done(Ok(b@)),
            StepOutcome::Done(Err(e)) => StepOutcomeV::Done(Err(e@)),
            StepOutcome::Sleep { seconds } => StepOutcomeV::Sleep { seconds: *seconds },
        }
    }
}

/// Seconds to wait after a 429: the reset header's value when it is a digit
/// string that fits a `u64`, else the 60-second default.
pub open spec fn spec_retry_after(reset: Option<Seq<char>>) -> u64 {
    match reset {
        Some(s) => {
            if s.len() > 0 && all_digits(s) && digits_val(s) <= u64::MAX {
                digits_val(s) as u64
            } else {
                DEFAULT_RETRY_AFTER
            }
        },
        None => DEFAULT_RETRY_AFTER,
    }
}

/// True for the statuses the executor accepts as success.
pub open spec fn spec_is_success(status: u16) -> bool {
    200 <= status < 300
}

/// The executor's decision for one attempt's event, given that `retries`
/// retries were already made. This is the whole 429 policy:
/// success passes the body through; a 429 waits for the server's stated
/// reset time, unless retries are disabled (fail now) or the budget is
/// spent (fail with the retry count); any other status and any transport
/// failure surface unchanged.
pub open spec fn spec_step(policy: RetryPolicy, retries: u32, ev: HttpEventV) -> StepOutcomeV {
    match ev {
        HttpEventV::TransportFailed { message } => StepOutcomeV::Done(
            Err(AmberErrorV::Transport(message)),
        ),
        HttpEventV::Response { status, retry_reset, body } => {
            if spec_is_success(status) {
                StepOutcomeV::Done(Ok(body))
            } else if status == 429 {
                let after = spec_retry_after(retry_reset);
                if !policy.enabled {
                    StepOutcomeV::Done(Err(AmberErrorV::RateLimitExceeded(after)))
                } else if retries >= policy.max_retries {
                    StepOutcomeV::Done(
                        Err(
                            AmberErrorV::RateLimitExhausted {
                                attempts: retries,
                                retry_after: after,
                            },
                        ),
                    )
                } else {
                    StepOutcomeV::Sleep { seconds: after }
                }
            } else {
                StepOutcomeV::Done(Err(AmberErrorV::UnexpectedStatus { status, body }))
            }
        },
    }
}

/// Seconds to wait after a 429, from the reset header if present and
/// parseable, else 60.
pub fn retry_after(reset: &Option<String>) -> (r: u64)
    ensures
        r == spec_retry_after(
            match reset {
                Some(s) => Some(s@),
                None => None,
            },
        ),
{
    match reset {
        Some(s) => match parse_u64(s.as_str()) {
            Some(v) => v,
            None => DEFAULT_RETRY_AFTER,
        },
        None => DEFAULT_RETRY_AFTER,
    }
}

/// Decides what one attempt's event means for the call.
pub fn retry_step(policy: &RetryPolicy, retries: u32, ev: &HttpEvent) -> (r: StepOutcome)
    ensures
        r@ == spec_step(*policy, retries, ev@),
{
    match ev {
        HttpEvent::TransportFailed { message } => StepOutcome::Done(
            Err(AmberError::Transport(message.clone())),
        ),
        HttpEvent::Response { status, retry_reset, body } => {
            if 200 <= *status && *status < 300 {
                StepOutcome::Done(Ok(body.clone()))
            } else if *status == 429 {
                let after = retry_after(retry_reset);
                if !policy.enabled {
                    StepOutcome::Done(Err(AmberError::RateLimitExceeded(after)))
                } else if retries >= policy.max_retries {
                    StepOutcome::Done(
                        Err(
                            AmberError::RateLimitExhausted {
                                attempts: retries,
                                retry_after: after,
                            },
                        ),
                    )
                } else {
                    StepOutcome::Sleep { seconds: after }
                }
            } else {
                StepOutcome::Done(
                    Err(AmberError::UnexpectedStatus { status: *status, body: body.clone() }),
                )
            }
        },
    }
}

/// Result of folding the retry policy over a whole sequence of attempt
/// events: the call's final outcome, and the backoff waits performed on the
/// way, in order.
#[derive(Debug)]
pub struct RunResult {
    /// The call's outcome: the successful body, or the surfaced error.
    pub outcome: Result<String, AmberError>,
    /// The seconds slept before each reissued request, in order.
    pub waits: Vec<u64>,
}

/// Mathematical image of a [`RunResult`].
pub struct RunResultV {
    pub outcome: Result<Seq<char>, AmberErrorV>,
    pub waits: Seq<u64>,
}

impl View for RunResult {
    type V = RunResultV;

    open spec fn view(&self) -> RunResultV {
        RunResultV {
            outcome: match &self.outcome {
                Ok(b) => Ok(b@),
                Err(e) => Err(e@),
            },
            waits: self.waits@,
        }
    }
}

/// The retry loop over a sequence of attempt events, as a function.
/// A sequence that ends while the executor still wants to retry stands for
/// a transport that stopped answering, and surfaces as a transport error.
pub open spec fn spec_run(
    policy: RetryPolicy,
    retries: u32,
    events: Seq<HttpEventV>,
    waits: Seq<u64>,
) -> RunResultV
    decreases events.len(),
{
    if events.len() == 0 {
        RunResultV { outcome: Err(AmberErrorV::Transport("no response"@)), waits }
    } else {
        match spec_step(policy, retries, events[0]) {
            StepOutcomeV::Done(res) => RunResultV { outcome: res, waits },
            StepOutcomeV::Sleep { seconds } => {
                if retries < u32::MAX {
                    spec_run(policy, (retries + 1) as u32, events.skip(1), waits.push(seconds))
                } else {
                    RunResultV { outcome: Err(AmberErrorV::Transport("no response"@)), waits }
                }
            },
        }
    }
}

/// Runs one logical call against a recorded sequence of attempt events,
/// exactly as the executor would against a live transport: each event is
/// the result of one attempt, and a `Sleep` decision records its wait and
/// moves on to the next attempt's event.
pub fn run_events(policy: &RetryPolicy, events: &Vec<HttpEvent>) -> (r: RunResult)
    ensures
        r@ == spec_run(*policy, 0, events@.map_values(|e: HttpEvent| e@), Seq::<u64>::empty()),
{
    let ghost all: Seq<HttpEventV> = events@.map_values(|e: HttpEvent| e@);
    let mut retries: u32 = 0;
    let mut waits: Vec<u64> = Vec::new();
    let mut i: usize = 0;
    proof {
        assert(all.skip(0) =~= all);
    }
    while i < events.len()
        invariant
            0 <= i <= events@.len(),
            all == events@.map_values(|e: HttpEvent| e@),
            spec_run(*policy, 0, all, Seq::<u64>::empty()) == spec_run(
                *policy,
                retries,
                all.skip(i as int),
                waits@,
            ),
        decreases events@.len() - i,
    {
        proof {
            assert(all.skip(i as int)[0] == all[i as int]);
        }
        let step = retry_step(policy, retries, &events[i]);
        match step {
            StepOutcome::Done(res) => {
                proof {
                    assert(all.skip(i as int).len() > 0);
                }
                return RunResult { outcome: res, waits };
            },
            StepOutcome::Sleep { seconds } => {
                proof {
                    assert(all.skip(i as int).skip(1) =~= all.skip(i + 1));
                }
                proof {
                    // `Sleep` is only decided while retries < max_retries.
                    assert(retries < policy.max_retries);
                }
                waits.push(seconds);
                retries = retries + 1;
                i = i + 1;
            },
        }
    }
    proof {
        assert(all.skip(i as int).len() == 0);
    }
    RunResult { outcome: Err(AmberError::Transport(no_response_message())), waits }
}

/// The placeholder message used when the event sequence ends early.
fn no_response_message() -> (r: String)
    ensures
        r@ == "no response"@,
{
    String::from_str("no response")
}

} // verus!
