//! What one delivery attempt produced.
use vstd::prelude::*;

verus! {

/// Why an attempt failed.
#[derive(Clone, Copy, Debug, PartialEq, Eq, Structural)]
pub enum FailureKind {
    /// The target could not be reached, or did not answer in time.
    Network,
    /// The target answered with a status outside [200, 300).
    Rejected { status: u16 },
    /// The request itself cannot be built; retrying cannot help.
    MalformedRequest,
}

#[derive(Clone, Copy, Debug, PartialEq, Eq, Structural)]
pub enum DeliveryOutcome {
    Success { status: u16 },
    Failure { kind: FailureKind },
}

pub open spec fn is_success_status(status: u16) -> bool {
    200 <= status < 300
}

/// The outcome for an attempt that got `status` back, or no answer at all (`None`:
/// a transport error or a timeout).
pub open spec fn outcome_of(status: Option<u16>) -> DeliveryOutcome {
    match status {
        None => DeliveryOutcome::Failure { kind: FailureKind::Network },
        Some(s) => if is_success_status(s) {
            DeliveryOutcome::Success { status: s }
        } else {
            DeliveryOutcome::Failure { kind: FailureKind::Rejected { status: s } }
        },
    }
}

/// Whether a failure of this kind may be tried again.
pub open spec fn is_retryable(kind: FailureKind) -> bool {
    !(kind is MalformedRequest)
}

/// Classifies one attempt by the status it got back, if any.
pub fn classify_response(status: Option<u16>) -> (r: DeliveryOutcome)
    ensures
        r == outcome_of(status),
{
    match status {
        None => DeliveryOutcome::Failure { kind: FailureKind::Network },
        Some(s) => if 200 <= s && s < 300 {
            DeliveryOutcome::Success { status: s }
        } else {
            DeliveryOutcome::Failure { kind: FailureKind::Rejected { status: s } }
        },
    }
}

/// Whether a failure of this kind may be tried again.
pub fn retryable(kind: FailureKind) -> (r: bool)
    ensures
        r == is_retryable(kind),
{
    !matches!(kind, FailureKind::MalformedRequest)
}

} // verus!
