//! What the synchronous entry point answers once the first attempt is handled.
use crate::handling::Settlement;
use crate::outcome::FailureKind;
use vstd::prelude::*;

verus! {

/// An error answer: the HTTP status and a message for the caller.
pub struct GeneralError {
    pub status: u16,
    pub message: String,
}

/// The request was not delivered by the first attempt; `retry_no` retries are
/// scheduled for it.
#[derive(Clone, Copy, Debug, PartialEq, Eq, Structural)]
pub struct RetryError {
    pub retry_no: u32,
}

impl RetryError {
    /// The error's text.
    pub fn to_string(&self) -> (r: String)
        ensures
            r@ == "RetryError is here!"@,
    {
        String::from_str("RetryError is here!")
    }
}

/// A success answer.
pub struct RetryResponse {
    pub message: String,
}

pub open spec fn digit_char(d: nat) -> char {
    seq!['0', '1', '2', '3', '4', '5', '6', '7', '8', '9'][d as int]
}

/// The decimal digits of `n`, without leading zeros.
pub open spec fn decimal(n: nat) -> Seq<char>
    decreases n,
{
    if n < 10 {
        seq![digit_char(n)]
    } else {
        decimal(n / 10).push(digit_char(n % 10))
    }
}

fn digit_text(d: u32) -> (r: &'static str)
    requires
        d < 10,
    ensures
        r@ == seq![digit_char(d as nat)],
{
    match d {
        0 => {
            proof {
                reveal_strlit("0");
            }
            "0"
        },
        1 => {
            proof {
                reveal_strlit("1");
            }
            "1"
        },
        2 => {
            proof {
                reveal_strlit("2");
            }
            "2"
        },
        3 => {
            proof {
                reveal_strlit("3");
            }
            "3"
        },
        4 => {
            proof {
                reveal_strlit("4");
            }
            "4"
        },
        5 => {
            proof {
                reveal_strlit("5");
            }
            "5"
        },
        6 => {
            proof {
                reveal_strlit("6");
            }
            "6"
        },
        7 => {
            proof {
                reveal_strlit("7");
            }
            "7"
        },
        8 => {
            proof {
                reveal_strlit("8");
            }
            "8"
        },
        _ => {
            proof {
                reveal_strlit("9");
            }
            "9"
        },
    }
}

/// The decimal digits of `n`.
fn decimal_text(n: u32) -> (r: String)
    ensures
        r@ == decimal(n as nat),
    decreases n,
{
    if n < 10 {
        String::from_str(digit_text(n))
    } else {
        let mut r = decimal_text(n / 10);
        r.append(digit_text(n % 10));
        r
    }
}

/// Why the entry point did not deliver the request now.
#[derive(Clone, Copy, Debug, PartialEq, Eq, Structural)]
pub enum EnsureError {
    /// The attempt failed and a retry is scheduled; `retry_no` retries remain.
    WillRetry(RetryError),
    /// No retry follows; `retry_no` is the budget the request still had, unspent.
    Exhausted(RetryError),
    /// A retry was due but could not be published: the request is not finalized.
    SchedulingFailure,
}

pub open spec fn ensure_result(s: Settlement) -> Result<(), EnsureError> {
    match s {
        Settlement::Delivered { .. } => Ok(()),
        Settlement::Requeued { retries, .. } => Err(
            EnsureError::WillRetry(RetryError { retry_no: retries }),
        ),
        Settlement::Exhausted { retries, .. } => Err(
            EnsureError::Exhausted(RetryError { retry_no: retries }),
        ),
        Settlement::Unscheduled => Err(EnsureError::SchedulingFailure),
    }
}

/// Whether the request was delivered now; if not, whether a retry follows, none does,
/// or the retry could not be scheduled, with the retries left.
pub fn ensure(settlement: &Settlement) -> (r: Result<(), EnsureError>)
    ensures
        r == ensure_result(*settlement),
{
    match settlement {
        Settlement::Delivered { .. } => Ok(()),
        Settlement::Requeued { retries, .. } => Err(
            EnsureError::WillRetry(RetryError { retry_no: *retries }),
        ),
        Settlement::Exhausted { retries, .. } => Err(
            EnsureError::Exhausted(RetryError { retry_no: *retries }),
        ),
        Settlement::Unscheduled => Err(EnsureError::SchedulingFailure),
    }
}

pub open spec fn will_retry_message(n: u32) -> Seq<char> {
    "Failed will retry "@ + decimal(n as nat) + " times"@
}

/// The answer to the caller of the entry point: success when delivered, accepted with
/// the number of retries when a retry is scheduled, an error otherwise.
pub fn execute(settlement: &Settlement) -> (r: Result<RetryResponse, GeneralError>)
    ensures
        match *settlement {
            Settlement::Delivered { .. } => r matches Ok(resp) && resp.message@ == "all ok"@,
            Settlement::Requeued { retries, .. } => r matches Ok(resp) && resp.message@
                == will_retry_message(retries),
            Settlement::Exhausted { failure, .. } => r matches Err(e) && if failure is MalformedRequest {
                e.status == 400 && e.message@ == "malformed request"@
            } else {
                e.status == 402 && e.message@ == will_retry_message(0)
            },
            Settlement::Unscheduled => r matches Err(e) && e.status == 503 && e.message@
                == "retry could not be scheduled"@,
        },
{
    match settlement {
        Settlement::Delivered { .. } => Ok(RetryResponse { message: String::from_str("all ok") }),
        Settlement::Requeued { retries, .. } => Ok(
            RetryResponse { message: will_retry(*retries) },
        ),
        Settlement::Exhausted { failure, .. } => match failure {
            FailureKind::MalformedRequest => Err(
                GeneralError { status: 400, message: String::from_str("malformed request") },
            ),
            _ => Err(GeneralError { status: 402, message: will_retry(0) }),
        },
        Settlement::Unscheduled => Err(
            GeneralError { status: 503, message: String::from_str("retry could not be scheduled") },
        ),
    }
}

fn will_retry(n: u32) -> (r: String)
    ensures
        r@ == will_retry_message(n),
{
    let mut m = String::from_str("Failed will retry ");
    let digits = decimal_text(n);
    m.append(digits.as_str());
    m.append(" times");
    m
}

} // verus!
