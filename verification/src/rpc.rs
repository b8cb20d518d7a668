//! Classification of remote-call outcomes and the retry decision that
//! combines a classification with a running backoff schedule.

use vstd::prelude::*;
use crate::backoff::BackoffGenerator;
use crate::backoff::next_current;

verus! {

/// Status of a finished remote call, mirroring the usual RPC status codes.
/// `Okay` is the success status and never accompanies a failure in
/// practice; it is classified like any other code not in the permanent
/// set.
#[derive(Clone, Copy, Debug, PartialEq, Eq, Structural)]
pub enum StatusCode {
    Okay,
    Cancelled,
    Unknown,
    InvalidArgument,
    DeadlineExceeded,
    NotFound,
    AlreadyExists,
    PermissionDenied,
    ResourceExhausted,
    FailedPrecondition,
    Aborted,
    OutOfRange,
    Unimplemented,
    Internal,
    Unavailable,
    DataLoss,
    Unauthenticated,
}

/// Binary judgment of whether a failure is worth retrying.
#[derive(Clone, Copy, Debug, PartialEq, Eq, Structural)]
pub enum Classification {
    Permanent,
    Transient,
}

/// The classification rule: a fixed set of status codes — unknown error,
/// internal error, and service unavailable — marks a failure as permanent;
/// every other code is transient. Treating "unavailable" as permanent is a
/// deliberate policy choice of this layer.
pub open spec fn classification_of(code: StatusCode) -> Classification {
    match code {
        StatusCode::Internal => Classification::Permanent,
        StatusCode::Unknown => Classification::Permanent,
        StatusCode::Unavailable => Classification::Permanent,
        _ => Classification::Transient,
    }
}

/// Classifies a failed call's status code. The result is a function of the
/// code alone: identical codes always yield identical classifications.
pub fn classify(code: StatusCode) -> (c: Classification)
    ensures
        c == classification_of(code),
{
    match code {
        StatusCode::Internal => Classification::Permanent,
        StatusCode::Unknown => Classification::Permanent,
        StatusCode::Unavailable => Classification::Permanent,
        _ => Classification::Transient,
    }
}

/// Law: classification is a pure function of the status code alone: equal
/// codes always classify equally.
pub proof fn lemma_classify_pure(a: StatusCode, b: StatusCode)
    requires
        a == b,
    ensures
        classification_of(a) == classification_of(b),
{
}

/// A failed remote call: its status code and the transport's message.
#[derive(Clone, Debug)]
pub struct Failure {
    pub code: StatusCode,
    pub message: String,
}

/// Tagged result of invoking a remote operation.
#[derive(Clone, Debug)]
pub enum CallOutcome<T> {
    Success(T),
    Failure(Failure),
}

/// A failure wrapped with its classification, ready for a retry driver.
#[derive(Clone, Debug)]
pub enum RetryError {
    Permanent(Failure),
    Transient(Failure),
}

/// Transforms a remote-call outcome into a plain result, wrapping a
/// failure with its classification so a retry driver knows whether another
/// attempt could help.
pub fn into_backoff<T>(result: CallOutcome<T>) -> (r: Result<T, RetryError>)
    ensures
        result matches CallOutcome::Success(v) ==> r == Ok::<T, RetryError>(v),
        result matches CallOutcome::Failure(f) ==> r == Err::<T, RetryError>(
            if classification_of(f.code) == Classification::Permanent {
                RetryError::Permanent(f)
            } else {
                RetryError::Transient(f)
            },
        ),
{
    match result {
        CallOutcome::Success(v) => Ok(v),
        CallOutcome::Failure(f) => match classify(f.code) {
            Classification::Permanent => Err(RetryError::Permanent(f)),
            Classification::Transient => Err(RetryError::Transient(f)),
        },
    }
}

/// What to do after a failed attempt: wait this many nanoseconds and try
/// again, or stop with the final failure.
#[derive(Clone, Debug)]
pub enum RetryDecision {
    Retry(u64),
    GiveUp(Failure),
}

/// Decides the fate of one failed attempt.
///
/// A permanent failure gives up at once, whatever time budget remains and
/// without touching the schedule. A transient failure retries after the
/// schedule's next delay, or gives up once the elapsed time has gone past
/// the schedule's budget. `elapsed` is the wall-clock time since the
/// schedule began, in nanoseconds.
pub fn decide(gen: &mut BackoffGenerator, failure: Failure, elapsed: u64) -> (d: RetryDecision)
    requires
        old(gen).wf(),
    ensures
        final(gen).wf(),
        final(gen).params == old(gen).params,
        classification_of(failure.code) == Classification::Permanent ==> {
            &&& d == RetryDecision::GiveUp(failure)
            &&& *final(gen) == *old(gen)
        },
        classification_of(failure.code) == Classification::Transient && elapsed > old(
            gen,
        ).params.duration ==> {
            &&& d == RetryDecision::GiveUp(failure)
            &&& *final(gen) == *old(gen)
        },
        classification_of(failure.code) == Classification::Transient && elapsed <= old(
            gen,
        ).params.duration ==> {
            &&& d == RetryDecision::Retry(old(gen).current_interval)
            &&& final(gen).current_interval as nat == next_current(
                old(gen).current_interval as nat,
                old(gen).params.multiplier_milli as nat,
                old(gen).params.max_interval as nat,
            )
        },
{
    match classify(failure.code) {
        Classification::Permanent => RetryDecision::GiveUp(failure),
        Classification::Transient => match gen.next_interval(elapsed) {
            Some(after) => RetryDecision::Retry(after),
            None => RetryDecision::GiveUp(failure),
        },
    }
}

} // verus!
