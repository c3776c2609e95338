//! The driver-facing result shape and the translation into it.

use vstd::prelude::*;

verus! {

/// Outcome of a poll-based operation: either a final result, or a signal
/// that the operation could not make progress yet and must be driven again
/// once the scheduler wakes the suspension handle.
#[derive(PartialEq, Eq, Debug)]
pub enum Poll<T> {
    Ready(T),
    Pending,
}

/// The error classification of the synchronous byte-stream interface: the
/// conventional would-block code, or any other kind, carried as a code so
/// that it passes through this layer unchanged.
#[derive(PartialEq, Eq, Structural, Clone, Copy, Debug)]
pub enum IoErrorKind {
    WouldBlock,
    Other(u64),
}

/// A failure reported by the protocol engine: an I/O failure carried up from
/// the stream it reads and writes, or a failure of the protocol itself (a
/// malformed frame, say), carried as a code.
#[derive(PartialEq, Eq, Structural, Clone, Copy, Debug)]
pub enum ProtocolError {
    Io(IoErrorKind),
    Protocol(u64),
}

/// An engine failure is transient exactly when it is the I/O would-block
/// code; every other failure is final.
pub open spec fn is_would_block(e: ProtocolError) -> bool {
    e == ProtocolError::Io(IoErrorKind::WouldBlock)
}

/// What the translator returns for a given engine result: the would-block
/// failure becomes "not ready"; everything else is final and passes through
/// untouched.
pub open spec fn translated<T>(r: Result<T, ProtocolError>) -> Poll<Result<T, ProtocolError>> {
    if r matches Err(e) && is_would_block(e) {
        Poll::Pending
    } else {
        Poll::Ready(r)
    }
}

/// Convert one engine result into the driver's ready/not-ready shape.
///
/// A would-block failure is not a failure at all to the driver: it means the
/// operation must be driven again later, so it comes out as `Pending`.
/// Success and every other failure are final and come out unchanged inside
/// `Ready`; this layer never retries, wraps or coalesces them.
pub fn cvt<T>(r: Result<T, ProtocolError>) -> (p: Poll<Result<T, ProtocolError>>)
    ensures
        p == translated(r),
{
    match r {
        Err(ProtocolError::Io(IoErrorKind::WouldBlock)) => Poll::Pending,
        other => Poll::Ready(other),
    }
}

/// Success is always final: the translator maps `Ok(v)` to "ready, succeeded
/// with `v`", for every value.
pub proof fn lemma_success_is_ready<T>(v: T)
    ensures
        translated(Ok::<T, ProtocolError>(v)) == Poll::<Result<T, ProtocolError>>::Ready(Ok(v)),
{
}

/// Round-trip identity of non-transient failures: any engine failure other
/// than would-block crosses the translator unchanged, same kind and payload,
/// inside "ready, failed".
pub proof fn lemma_hard_failure_passes_through<T>(e: ProtocolError)
    requires
        !is_would_block(e),
    ensures
        translated(Err::<T, ProtocolError>(e)) == Poll::<Result<T, ProtocolError>>::Ready(
            Err(e),
        ),
{
}

/// The one transient case: the translator maps exactly the would-block
/// failure to "not ready" — never a success, never a hard failure.
pub proof fn lemma_would_block_is_pending<T>(e: ProtocolError)
    requires
        is_would_block(e),
    ensures
        translated(Err::<T, ProtocolError>(e)) == Poll::<Result<T, ProtocolError>>::Pending,
{
}

} // verus!
