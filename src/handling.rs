//! Handling of one request, first attempt or redelivered message alike, as a state
//! machine. The caller performs each action (send the request, publish the next
//! envelope, acknowledge) and feeds back what came of it.
use crate::outcome::{DeliveryOutcome, FailureKind};
use crate::request::{is_well_formed, well_formed};
use crate::scheduler::{decide, decision_of, Decision, RetryEnvelope};
use vstd::prelude::*;

verus! {

/// How the handling of a request ended.
pub enum Settlement {
    Delivered { status: u16 },
    /// The next envelope was published; it carries `retries` and waits for `attempt`.
    Requeued { retries: u32, attempt: u64 },
    /// No further attempt; `retries` is the budget the request still had.
    Exhausted { failure: FailureKind, retries: u32 },
    /// A retry was due but could not be published: nothing is acknowledged, so the
    /// broker delivers the same message again.
    Unscheduled,
}

pub enum HandlingState {
    /// The request is being sent.
    Attempting { envelope: RetryEnvelope },
    /// The envelope for the next attempt is being published.
    Publishing { next: RetryEnvelope },
    Settled { settlement: Settlement },
}

pub enum HandlingEvent {
    AttemptFinished { outcome: DeliveryOutcome },
    PublishFinished { published: bool },
}

pub enum HandlingAction {
    /// Send the request of the `Attempting` state.
    Send,
    /// Publish the envelope of the `Publishing` state to the wait queue.
    Publish,
    /// The outcome is fully handled: acknowledge the message, or answer the caller.
    Acknowledge,
    /// Do not acknowledge: the broker must deliver the message again.
    LeaveUnacknowledged,
    /// The event does not belong to this state; nothing to do.
    Ignore,
}

pub open spec fn state_ok(s: HandlingState) -> bool {
    s matches HandlingState::Attempting { envelope } ==> envelope.attempt < u64::MAX
}

pub open spec fn begin_spec(env: RetryEnvelope) -> (HandlingState, HandlingAction) {
    if well_formed(env.request) {
        (HandlingState::Attempting { envelope: env }, HandlingAction::Send)
    } else {
        (
            HandlingState::Settled {
                settlement: Settlement::Exhausted {
                    failure: FailureKind::MalformedRequest,
                    retries: env.request.retries,
                },
            },
            HandlingAction::Acknowledge,
        )
    }
}

pub open spec fn settle(d: Decision) -> (HandlingState, HandlingAction) {
    match d {
        Decision::Done { status } => (
            HandlingState::Settled { settlement: Settlement::Delivered { status } },
            HandlingAction::Acknowledge,
        ),
        Decision::Exhausted { failure, retries } => (
            HandlingState::Settled { settlement: Settlement::Exhausted { failure, retries } },
            HandlingAction::Acknowledge,
        ),
        Decision::Requeue { envelope } => (
            HandlingState::Publishing { next: envelope },
            HandlingAction::Publish,
        ),
    }
}

pub open spec fn advance_spec(s: HandlingState, e: HandlingEvent) -> (
    HandlingState,
    HandlingAction,
) {
    match (s, e) {
        (
            HandlingState::Attempting { envelope },
            HandlingEvent::AttemptFinished { outcome },
        ) => settle(decision_of(envelope, outcome)),
        (HandlingState::Publishing { next }, HandlingEvent::PublishFinished { published }) => {
            if published {
                (
                    HandlingState::Settled {
                        settlement: Settlement::Requeued {
                            retries: next.request.retries,
                            attempt: next.attempt,
                        },
                    },
                    HandlingAction::Acknowledge,
                )
            } else {
                (
                    HandlingState::Settled { settlement: Settlement::Unscheduled },
                    HandlingAction::LeaveUnacknowledged,
                )
            }
        },
        (s, _) => (s, HandlingAction::Ignore),
    }
}

/// Starts handling an envelope: a malformed request is settled as exhausted at once,
/// without any network traffic; any other is sent.
pub fn begin(envelope: RetryEnvelope) -> (r: (HandlingState, HandlingAction))
    ensures
        r == begin_spec(envelope),
{
    if is_well_formed(&envelope.request) {
        (HandlingState::Attempting { envelope }, HandlingAction::Send)
    } else {
        (
            HandlingState::Settled {
                settlement: Settlement::Exhausted {
                    failure: FailureKind::MalformedRequest,
                    retries: envelope.request.retries,
                },
            },
            HandlingAction::Acknowledge,
        )
    }
}

/// Moves the handling on by what came of the last action.
pub fn advance(state: HandlingState, event: HandlingEvent) -> (r: (HandlingState, HandlingAction))
    requires
        state_ok(state),
    ensures
        r == advance_spec(state, event),
{
    match state {
        HandlingState::Attempting { envelope } => match event {
            HandlingEvent::AttemptFinished { outcome } => match decide(envelope, outcome) {
                Decision::Done { status } => (
                    HandlingState::Settled { settlement: Settlement::Delivered { status } },
                    HandlingAction::Acknowledge,
                ),
                Decision::Exhausted { failure, retries } => (
                    HandlingState::Settled { settlement: Settlement::Exhausted { failure, retries } },
                    HandlingAction::Acknowledge,
                ),
                Decision::Requeue { envelope } => (
                    HandlingState::Publishing { next: envelope },
                    HandlingAction::Publish,
                ),
            },
            _ => (HandlingState::Attempting { envelope }, HandlingAction::Ignore),
        },
        HandlingState::Publishing { next } => match event {
            HandlingEvent::PublishFinished { published } => {
                if published {
                    let retries = next.request.retries;
                    let attempt = next.attempt;
                    (
                        HandlingState::Settled {
                            settlement: Settlement::Requeued { retries, attempt },
                        },
                        HandlingAction::Acknowledge,
                    )
                } else {
                    (
                        HandlingState::Settled { settlement: Settlement::Unscheduled },
                        HandlingAction::LeaveUnacknowledged,
                    )
                }
            },
            _ => (HandlingState::Publishing { next }, HandlingAction::Ignore),
        },
        HandlingState::Settled { settlement } => (
            HandlingState::Settled { settlement },
            HandlingAction::Ignore,
        ),
    }
}

/// A message is acknowledged only once its outcome is fully handled: after a terminal
/// decision, or after the envelope of a due retry was published. A failed publish
/// leaves it unacknowledged, and a due retry is always published first.
pub proof fn lemma_acknowledge_after_publish(s: HandlingState, e: HandlingEvent)
    ensures
        advance_spec(s, e).1 is Acknowledge ==> match s {
            HandlingState::Attempting { envelope } => e matches HandlingEvent::AttemptFinished {
                outcome,
            } && !(decision_of(envelope, outcome) is Requeue),
            HandlingState::Publishing { .. } => e == (HandlingEvent::PublishFinished {
                published: true,
            }),
            HandlingState::Settled { .. } => false,
        },
        match (s, e) {
            (
                HandlingState::Attempting { envelope },
                HandlingEvent::AttemptFinished { outcome },
            ) => decision_of(envelope, outcome) matches Decision::Requeue { envelope: next }
                ==> advance_spec(s, e) == (
                HandlingState::Publishing { next },
                HandlingAction::Publish,
            ),
            _ => true,
        },
        s is Settled ==> advance_spec(s, e) == (s, HandlingAction::Ignore),
        s is Publishing && e == (HandlingEvent::PublishFinished { published: false })
            ==> advance_spec(s, e) == (
            HandlingState::Settled { settlement: Settlement::Unscheduled },
            HandlingAction::LeaveUnacknowledged,
        ),
{
}

/// How many requests are sent for one delivery that starts with `env`, when its
/// attempts produce `outcomes` in turn and every due retry is published and
/// consumed: the count runs until handling settles (or the outcomes run out).
pub open spec fn sends_in_delivery(env: RetryEnvelope, outcomes: Seq<DeliveryOutcome>) -> nat
    decreases outcomes.len(),
{
    if outcomes.len() == 0 || !(begin_spec(env).1 is Send) {
        0
    } else {
        match advance_spec(
            begin_spec(env).0,
            HandlingEvent::AttemptFinished { outcome: outcomes[0] },
        ).0 {
            HandlingState::Publishing { next } => 1 + sends_in_delivery(next, outcomes.drop_first()),
            _ => 1,
        }
    }
}

/// A delivery with `r` retries sends its request at most `r + 1` times, first attempt
/// and every retry together, whatever the target answers.
pub proof fn lemma_delivery_sends_bounded(env: RetryEnvelope, outcomes: Seq<DeliveryOutcome>)
    ensures
        sends_in_delivery(env, outcomes) <= env.request.retries + 1,
    decreases outcomes.len(),
{
    if outcomes.len() > 0 && begin_spec(env).1 is Send {
        let s = advance_spec(
            begin_spec(env).0,
            HandlingEvent::AttemptFinished { outcome: outcomes[0] },
        ).0;
        if let HandlingState::Publishing { next } = s {
            assert(decision_of(env, outcomes[0]) is Requeue);
            lemma_delivery_sends_bounded(next, outcomes.drop_first());
        }
    }
}

} // verus!
