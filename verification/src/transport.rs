//! The retry logic of the transport layer, as a pure decision machine.
//!
//! The network half of a call lives outside the library: it performs one
//! attempt and reports the outcome, either a transport-level failure or the
//! response body.  The decisions live here: a transport failure and the
//! nonce-too-small envelope are retried, with the whole signed request
//! rebuilt under a fresh nonce before the next attempt; any other envelope
//! surfaces at once; a body without an envelope is the success payload; and
//! when the bounded attempts are used up the call fails with
//! `RetryExhausted`.

use vstd::prelude::*;

use crate::client::parse_error_spec;
use crate::client::parse_error;
use crate::error::{classify_error, error_matches, BitfinexError};

verus! {

/// The number of attempts a call makes by default: one initial attempt and
/// five retries.
pub const DEFAULT_ATTEMPTS: u8 = 6;

/// How many whole seconds the caller sleeps between attempts.
pub const RETRY_INTERVAL_SECS: u64 = 1;

/// What one network attempt reported: a connection-level failure, or the
/// response body (the HTTP status itself reported success).
#[derive(Debug)]
pub enum AttemptOutcome {
    TransportFailed,
    Body(String),
}

/// What the decision machine says about one attempt's outcome.
#[derive(Debug)]
pub enum RetryStep {
    /// Retryable: sleep, rebuild the signed request with a fresh nonce, and
    /// try again.
    Retry,
    /// The success payload, handed back verbatim.
    Done(String),
    /// A terminal failure, surfaced at once.
    Fail(BitfinexError),
}

/// The decision owed to one outcome: a transport failure is retried; a body
/// whose envelope carries the nonce-too-small code is retried; any other
/// envelope fails with its classified reason; a body without an envelope is
/// the success payload.
pub open spec fn step_matches(outcome: AttemptOutcome, r: RetryStep) -> bool {
    match outcome {
        AttemptOutcome::TransportFailed => r is Retry,
        AttemptOutcome::Body(b) => match parse_error_spec(b@) {
            None => r == RetryStep::Done(b),
            Some(cm) => if cm.0 == "10114"@ {
                r is Retry
            } else {
                r matches RetryStep::Fail(e) && error_matches(e, cm.0, cm.1)
            },
        },
    }
}

/// Decides what one attempt's outcome means.
pub fn evaluate_attempt(outcome: AttemptOutcome) -> (r: RetryStep)
    ensures
        step_matches(outcome, r),
{
    match outcome {
        AttemptOutcome::TransportFailed => RetryStep::Retry,
        AttemptOutcome::Body(b) => match parse_error(b.as_str()) {
            None => RetryStep::Done(b),
            Some((code, message)) => {
                proof {
                    assert(parse_error_spec(b@) == Some((code@, message@)));
                }
                let e = classify_error(code.as_str(), message);
                proof {
                    reveal_strlit("10001");
                    reveal_strlit("10020");
                    reveal_strlit("10100");
                    reveal_strlit("10114");
                    assert("10114"@[3] == '1' && "10001"@[3] == '0' && "10100"@[3] == '0'
                        && "10114"@[2] == '1' && "10020"@[2] == '0');
                    assert("10114"@ != "10001"@);
                    assert("10114"@ != "10020"@);
                    assert("10114"@ != "10100"@);
                    assert(code@ == "10114"@ ==> e == BitfinexError::NonceSmall);
                }
                if e.is_retryable() {
                    RetryStep::Retry
                } else {
                    RetryStep::Fail(e)
                }
            },
        },
    }
}

/// The decision owed to one outcome given how many attempts remain after it:
/// a retryable outcome asks for another attempt while any remain and is
/// `RetryExhausted` otherwise; the rest is as in `step_matches`.
pub open spec fn decision_matches(
    outcome: AttemptOutcome,
    left_after: nat,
    r: Option<Result<String, BitfinexError>>,
) -> bool {
    match outcome {
        AttemptOutcome::TransportFailed => if left_after > 0 {
            r is None
        } else {
            r == Some(Err::<String, BitfinexError>(BitfinexError::RetryExhausted))
        },
        AttemptOutcome::Body(b) => match parse_error_spec(b@) {
            None => r == Some(Ok::<String, BitfinexError>(b)),
            Some(cm) => if cm.0 == "10114"@ {
                if left_after > 0 {
                    r is None
                } else {
                    r == Some(Err::<String, BitfinexError>(BitfinexError::RetryExhausted))
                }
            } else {
                r matches Some(Err(e)) && error_matches(e, cm.0, cm.1)
            },
        },
    }
}

/// The bounded retry loop's state: how many attempts are still allowed.
pub struct RetryDriver {
    pub attempts_left: u8,
}

impl RetryDriver {
    /// A driver allowing the given number of attempts in total.
    pub fn new(attempts: u8) -> (d: RetryDriver)
        ensures
            d.attempts_left == attempts,
    {
        RetryDriver { attempts_left: attempts }
    }

    /// True while another attempt may be made.
    pub fn can_attempt(&self) -> (r: bool)
        ensures
            r == (self.attempts_left > 0),
    {
        self.attempts_left > 0
    }

    /// Consumes one attempt and decides: `None` asks the caller to sleep and
    /// attempt again with a freshly signed request; `Some` is the call's
    /// final result.
    pub fn on_outcome(&mut self, outcome: AttemptOutcome) -> (r: Option<
        Result<String, BitfinexError>,
    >)
        requires
            old(self).attempts_left > 0,
        ensures
            final(self).attempts_left == old(self).attempts_left - 1,
            decision_matches(outcome, final(self).attempts_left as nat, r),
    {
        self.attempts_left = self.attempts_left - 1;
        let more = self.attempts_left > 0;
        match evaluate_attempt(outcome) {
            RetryStep::Done(b) => Some(Ok(b)),
            RetryStep::Fail(e) => Some(Err(e)),
            RetryStep::Retry => {
                if more {
                    None
                } else {
                    Some(Err(BitfinexError::RetryExhausted))
                }
            },
        }
    }
}

/// What running the loop against a script of outcomes must produce, and how
/// many attempts it makes doing so.
pub open spec fn run_matches(
    outcomes: Seq<AttemptOutcome>,
    attempts: nat,
    r: Result<String, BitfinexError>,
    used: nat,
) -> bool
    decreases attempts,
{
    if attempts == 0 || outcomes.len() == 0 {
        r == Err::<String, BitfinexError>(BitfinexError::RetryExhausted) && used == 0
    } else {
        match outcomes[0] {
            AttemptOutcome::TransportFailed => used >= 1 && run_matches(
                outcomes.skip(1),
                (attempts - 1) as nat,
                r,
                (used - 1) as nat,
            ),
            AttemptOutcome::Body(b) => match parse_error_spec(b@) {
                None => r == Ok::<String, BitfinexError>(b) && used == 1,
                Some(cm) => if cm.0 == "10114"@ {
                    used >= 1 && run_matches(outcomes.skip(1), (attempts - 1) as nat, r, (used - 1) as nat)
                } else {
                    (r matches Err(e) && error_matches(e, cm.0, cm.1)) && used == 1
                },
            },
        }
    }
}

/// Runs the retry loop against a script of outcomes, one per attempt, and
/// reports the result together with the number of attempts made.  The script
/// must be long enough to feed every allowed attempt.
pub fn run_with_outcomes(outcomes: Vec<AttemptOutcome>, attempts: u8) -> (r: (
    Result<String, BitfinexError>,
    u8,
))
    requires
        outcomes@.len() >= attempts,
    ensures
        run_matches(outcomes@, attempts as nat, r.0, r.1 as nat),
        r.1 <= attempts,
    decreases attempts,
{
    if attempts == 0 {
        return (Err(BitfinexError::RetryExhausted), 0);
    }
    let mut outcomes = outcomes;
    let ghost orig = outcomes@;
    let first = outcomes.remove(0);
    proof {
        assert(outcomes@ =~= orig.skip(1));
    }
    match evaluate_attempt(first) {
        RetryStep::Done(b) => (Ok(b), 1),
        RetryStep::Fail(e) => (Err(e), 1),
        RetryStep::Retry => {
            let (res, used) = run_with_outcomes(outcomes, attempts - 1);
            (res, used + 1)
        },
    }
}

/// Retry exhaustion: when every attempt's outcome is a transport failure,
/// the loop makes exactly the allowed number of attempts and then yields
/// `RetryExhausted`; it neither hangs nor retries further.
pub proof fn lemma_retry_exhaustion(
    outcomes: Seq<AttemptOutcome>,
    attempts: nat,
    r: Result<String, BitfinexError>,
    used: nat,
)
    requires
        forall|i: int| 0 <= i < outcomes.len() ==> outcomes[i] is TransportFailed,
        outcomes.len() >= attempts,
        run_matches(outcomes, attempts, r, used),
    ensures
        r == Err::<String, BitfinexError>(BitfinexError::RetryExhausted),
        used == attempts,
    decreases attempts,
{
    if attempts > 0 {
        assert(forall|i: int|
            0 <= i < outcomes.skip(1).len() ==> outcomes.skip(1)[i] is TransportFailed);
        lemma_retry_exhaustion(outcomes.skip(1), (attempts - 1) as nat, r, (used - 1) as nat);
    }
}

} // verus!
