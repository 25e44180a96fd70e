//! The retry decision taken after each attempt.
use crate::outcome::{is_retryable, retryable, DeliveryOutcome, FailureKind};
use crate::request::RetryPayload;
use vstd::prelude::*;

verus! {

/// A request on its way through the broker, with the number of the attempt it is
/// waiting for.
pub struct RetryEnvelope {
    pub request: RetryPayload,
    /// 1 for the first attempt, one more for each retry.
    pub attempt: u64,
}

pub enum Decision {
    /// The target accepted the request.
    Done { status: u16 },
    /// Try again later with this envelope, whose budget is one smaller.
    Requeue { envelope: RetryEnvelope },
    /// No further attempt will be made; `failure` is the last one seen and `retries`
    /// the budget the request still had, unspent.
    Exhausted { failure: FailureKind, retries: u32 },
}

/// The request as the next attempt carries it: one retry fewer, everything else kept.
pub open spec fn spent_one(req: RetryPayload) -> RetryPayload {
    RetryPayload {
        reference: req.reference,
        retries: (req.retries - 1) as u32,
        method: req.method,
        headers: req.headers,
        request_url: req.request_url,
        payload: req.payload,
    }
}

pub open spec fn decision_of(env: RetryEnvelope, outcome: DeliveryOutcome) -> Decision {
    match outcome {
        DeliveryOutcome::Success { status } => Decision::Done { status },
        DeliveryOutcome::Failure { kind } => if !is_retryable(kind) || env.request.retries == 0 {
            Decision::Exhausted { failure: kind, retries: env.request.retries }
        } else {
            Decision::Requeue {
                envelope: RetryEnvelope {
                    request: spent_one(env.request),
                    attempt: (env.attempt + 1) as u64,
                },
            }
        },
    }
}

/// The envelope for the first attempt of a new request.
pub fn first_attempt(request: RetryPayload) -> (r: RetryEnvelope)
    ensures
        r == (RetryEnvelope { request, attempt: 1 }),
{
    RetryEnvelope { request, attempt: 1 }
}

/// Decides what follows an attempt: done, exhausted, or a retry with one retry fewer.
pub fn decide(envelope: RetryEnvelope, outcome: DeliveryOutcome) -> (d: Decision)
    requires
        envelope.attempt < u64::MAX,
    ensures
        d == decision_of(envelope, outcome),
{
    match outcome {
        DeliveryOutcome::Success { status } => Decision::Done { status },
        DeliveryOutcome::Failure { kind } => {
            if !retryable(kind) || envelope.request.retries == 0 {
                Decision::Exhausted { failure: kind, retries: envelope.request.retries }
            } else {
                let RetryEnvelope { request, attempt } = envelope;
                let request = RetryPayload {
                    reference: request.reference,
                    retries: request.retries - 1,
                    method: request.method,
                    headers: request.headers,
                    request_url: request.request_url,
                    payload: request.payload,
                };
                Decision::Requeue { envelope: RetryEnvelope { request, attempt: attempt + 1 } }
            }
        },
    }
}

/// How many attempts a request gets when its attempts produce `outcomes` in turn,
/// counting until a decision other than a retry (or the outcomes run out).
pub open spec fn attempts_made(env: RetryEnvelope, outcomes: Seq<DeliveryOutcome>) -> nat
    decreases outcomes.len(),
{
    if outcomes.len() == 0 {
        0
    } else {
        match decision_of(env, outcomes[0]) {
            Decision::Requeue { envelope } => 1 + attempts_made(envelope, outcomes.drop_first()),
            _ => 1,
        }
    }
}

/// Whatever the targets answer, a request with `r` retries is attempted at most
/// `r + 1` times before a terminal decision.
pub proof fn lemma_attempts_bounded(env: RetryEnvelope, outcomes: Seq<DeliveryOutcome>)
    ensures
        attempts_made(env, outcomes) <= env.request.retries + 1,
    decreases outcomes.len(),
{
    if outcomes.len() > 0 {
        if let Decision::Requeue { envelope } = decision_of(env, outcomes[0]) {
            lemma_attempts_bounded(envelope, outcomes.drop_first());
        }
    }
}

/// The retry budget drops by exactly one on a retryable failure that is requeued,
/// never grows, and is never spent on a success or a malformed request.
pub proof fn lemma_budget_step(env: RetryEnvelope, outcome: DeliveryOutcome)
    requires
        env.attempt < u64::MAX,
    ensures
        decision_of(env, outcome) is Requeue <==> (outcome matches DeliveryOutcome::Failure {
            kind,
        } && is_retryable(kind) && env.request.retries > 0),
        decision_of(env, outcome) matches Decision::Requeue { envelope } ==> envelope.request.retries
            == env.request.retries - 1 && envelope.attempt == env.attempt + 1,
        decision_of(env, outcome) matches Decision::Exhausted { retries, .. } ==> retries
            == env.request.retries,
        outcome is Success ==> decision_of(env, outcome) is Done,
        outcome == (DeliveryOutcome::Failure { kind: FailureKind::MalformedRequest })
            ==> decision_of(env, outcome) is Exhausted,
{
}

} // verus!
