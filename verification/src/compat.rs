//! The stream wrapper: a poll-driven byte stream dressed up as a
//! synchronous one, plus the scoped install/release discipline for the
//! suspension handle it borrows while a call is being driven.

use vstd::prelude::*;
use vstd::pervasive::unreached;

use crate::outcome::IoErrorKind;
use crate::outcome::Poll;
use crate::outcome::ProtocolError;
use crate::outcome::cvt;
use crate::outcome::translated;

verus! {

/// What the synchronous facade hands the protocol engine for a given probe
/// outcome: a completed probe passes through unchanged, success or failure;
/// a pending probe becomes the conventional would-block code.
pub open spec fn sync_outcome<T>(probe: Poll<Result<T, IoErrorKind>>) -> Result<T, IoErrorKind> {
    match probe {
        Poll::Ready(r) => r,
        Poll::Pending => Err(IoErrorKind::WouldBlock),
    }
}

/// How an engine that merely passes a stream-level outcome upward reports
/// it: a success stays a success, and a stream failure keeps its kind inside
/// the engine's I/O failure case.
pub open spec fn lifted<T>(r: Result<T, IoErrorKind>) -> Result<T, ProtocolError> {
    match r {
        Ok(v) => Ok(v),
        Err(k) => Err(ProtocolError::Io(k)),
    }
}

/// A poll-driven byte stream behind a synchronous facade.
///
/// The wrapper owns the inner stream exclusively, and beside it a transient
/// slot for the suspension handle of the call currently being driven. The
/// slot is occupied exactly while a guarded scope runs on behalf of that
/// handle (see [`with_installed_handle`]); outside such a scope it is always
/// empty, so the wrapper never retains a handle past the driving call that
/// supplied it.
#[derive(Debug)]
pub struct AllowStd<S> {
    inner: S,
    context: Option<usize>,
}

impl<S> AllowStd<S> {
    /// The suspension-handle slot: `Some` exactly while a guarded scope is
    /// running on this wrapper.
    pub closed spec fn slot(self) -> Option<usize> {
        self.context
    }

    /// Whether a suspension handle is currently installed.
    pub open spec fn has_context(self) -> bool {
        self.slot() is Some
    }

    /// The inner stream.
    pub closed spec fn stream(self) -> S {
        self.inner
    }

    /// Wrap a stream. No handle is installed.
    pub fn new(inner: S) -> (w: AllowStd<S>)
        ensures
            w.stream() == inner,
            !w.has_context(),
    {
        AllowStd { inner, context: None }
    }

    /// Whether a suspension handle is currently installed, observably: true
    /// exactly during a guarded scope.
    pub fn context_installed(&self) -> (b: bool)
        ensures
            b == self.has_context(),
    {
        self.context.is_some()
    }

    /// Install the suspension handle of the scope now starting.
    ///
    /// Only the scoped-acquisition helper calls this, so that every install
    /// is paired with a release. Nested scopes on one wrapper are forbidden,
    /// not stacked: the slot must be empty.
    pub(crate) fn set_context(&mut self, handle: usize)
        requires
            !old(self).has_context(),
        ensures
            final(self).slot() == Some(handle),
            final(self).stream() == old(self).stream(),
    {
        self.context = Some(handle);
    }

    /// Empty the slot: what the scope guard does when control leaves the
    /// guarded region.
    pub(crate) fn clear_context(&mut self)
        ensures
            !final(self).has_context(),
            final(self).stream() == old(self).stream(),
    {
        self.context = None;
    }

    /// Borrow the inner stream, for collaborators that need direct access
    /// without going through the synchronous facade.
    pub fn get_ref(&self) -> (r: &S)
        ensures
            *r == self.stream(),
    {
        &self.inner
    }

    /// Exclusively borrow the inner stream. The slot is untouched.
    pub fn get_mut(&mut self) -> (r: &mut S)
        ensures
            *r == old(self).stream(),
            final(self).stream() == *final(r),
            final(self).slot() == old(self).slot(),
    {
        &mut self.inner
    }

    /// The synchronous read the protocol engine calls, given the outcome of
    /// this call's single non-blocking probe of the inner stream: the byte
    /// count or error if the probe completed, the would-block code if it
    /// reported "not ready".
    ///
    /// Calling this without an installed handle is a contract violation — a
    /// driver bug, not a runtime condition to recover from. Verified callers
    /// are stopped at the precondition; an unverified caller fails loudly
    /// rather than proceed on an absent handle.
    pub fn read(&self, probe: Poll<Result<usize, IoErrorKind>>) -> (r: Result<usize, IoErrorKind>)
        requires
            self.has_context(),
        ensures
            r == sync_outcome(probe),
    {
        if self.context.is_none() {
            return unreached();
        }
        match probe {
            Poll::Ready(done) => done,
            Poll::Pending => Err(IoErrorKind::WouldBlock),
        }
    }

    /// The synchronous write the protocol engine calls, symmetric to
    /// [`Self::read`]: it probes the inner stream's readiness to accept
    /// bytes, and a pending probe becomes the would-block code.
    pub fn write(&self, probe: Poll<Result<usize, IoErrorKind>>) -> (r: Result<usize, IoErrorKind>)
        requires
            self.has_context(),
        ensures
            r == sync_outcome(probe),
    {
        if self.context.is_none() {
            return unreached();
        }
        match probe {
            Poll::Ready(done) => done,
            Poll::Pending => Err(IoErrorKind::WouldBlock),
        }
    }

    /// The synchronous flush the protocol engine calls, symmetric to
    /// [`Self::read`]: it probes the inner stream's flush readiness, and a
    /// pending probe becomes the would-block code.
    pub fn flush(&self, probe: Poll<Result<(), IoErrorKind>>) -> (r: Result<(), IoErrorKind>)
        requires
            self.has_context(),
        ensures
            r == sync_outcome(probe),
    {
        if self.context.is_none() {
            return unreached();
        }
        match probe {
            Poll::Ready(done) => done,
            Poll::Pending => Err(IoErrorKind::WouldBlock),
        }
    }
}

/// Run `body` under a guarded scope for `handle` on the wrapper `w`.
///
/// The handle is installed before `body` runs, `body` works on a wrapper
/// whose slot holds exactly `handle`, and the slot is emptied again before
/// this returns — unconditionally, so no call outside the scope can ever
/// observe a stale handle. Verified callers cannot unwind, so the normal
/// return covered here is the only way control leaves the scope. Entering a
/// scope while another is active on the same wrapper is forbidden, not
/// stacked.
pub fn with_installed_handle<S, R, F>(w: AllowStd<S>, handle: usize, body: F) -> (res: (
    AllowStd<S>,
    R,
)) where F: FnOnce(AllowStd<S>) -> (AllowStd<S>, R)
    requires
        !w.has_context(),
        forall|scoped: AllowStd<S>|
            scoped.slot() == Some(handle) && scoped.stream() == w.stream()
                ==> #[trigger] call_requires(body, (scoped,)),
    ensures
        !res.0.has_context(),
        exists|scoped: AllowStd<S>, mid: AllowStd<S>|
            scoped.slot() == Some(handle) && scoped.stream() == w.stream()
                && #[trigger] call_ensures(body, (scoped,), (mid, res.1)) && res.0.stream()
                == mid.stream(),
{
    let ghost w0 = w;
    let mut w = w;
    w.set_context(handle);
    let ghost entered = w;
    let (mut scoped, r) = body(w);
    let ghost mid = scoped;
    scoped.clear_context();
    let res = (scoped, r);
    proof {
        assert(entered.slot() == Some(handle) && entered.stream() == w0.stream()
            && call_ensures(body, (entered,), (mid, res.1)) && res.0.stream() == mid.stream());
    }
    res
}

/// The poll-based operation the driver sees: given this call's suspension
/// handle, install it, drive one synchronous pass of the protocol engine
/// over the guarded wrapper, release the handle, and translate the engine's
/// result into the driver's ready/not-ready shape.
pub fn poll_once<S, T, F>(w: AllowStd<S>, handle: usize, engine: F) -> (res: (
    AllowStd<S>,
    Poll<Result<T, ProtocolError>>,
)) where F: FnOnce(AllowStd<S>) -> (AllowStd<S>, Result<T, ProtocolError>)
    requires
        !w.has_context(),
        forall|scoped: AllowStd<S>|
            scoped.slot() == Some(handle) && scoped.stream() == w.stream()
                ==> #[trigger] call_requires(engine, (scoped,)),
    ensures
        !res.0.has_context(),
        exists|scoped: AllowStd<S>, mid: AllowStd<S>, out: Result<T, ProtocolError>|
            scoped.slot() == Some(handle) && scoped.stream() == w.stream()
                && #[trigger] call_ensures(engine, (scoped,), (mid, out)) && res.0.stream()
                == mid.stream() && res.1 == translated(out),
{
    let (after, out) = with_installed_handle(w, handle, engine);
    let ghost out0 = out;
    let p = cvt(out);
    proof {
        let (scoped, mid) = choose|scoped: AllowStd<S>, mid: AllowStd<S>|
            scoped.slot() == Some(handle) && scoped.stream() == w.stream()
                && #[trigger] call_ensures(engine, (scoped,), (mid, out0)) && after.stream()
                == mid.stream();
        assert(scoped.slot() == Some(handle) && scoped.stream() == w.stream()
            && call_ensures(engine, (scoped,), (mid, out0)) && after.stream() == mid.stream()
            && p == translated(out0));
    }
    (after, p)
}

/// The scoped-release law: whatever a guarded scope's body does, the wrapper
/// that leaves the scope has an empty slot, and the wrapper the body ran on
/// held exactly the scope's handle. With the requirement that the slot be
/// empty on entry, the slot is occupied exactly while a scope is executing.
pub proof fn lemma_guarded_scope_releases<S, R, F: FnOnce(AllowStd<S>) -> (AllowStd<S>, R)>(
    w: AllowStd<S>,
    handle: usize,
    body: F,
    res: (AllowStd<S>, R),
)
    requires
        call_ensures(with_installed_handle::<S, R, F>, (w, handle, body), res),
    ensures
        !res.0.has_context(),
        exists|scoped: AllowStd<S>, mid: AllowStd<S>|
            scoped.slot() == Some(handle) && scoped.stream() == w.stream()
                && #[trigger] call_ensures(body, (scoped,), (mid, res.1)) && res.0.stream()
                == mid.stream(),
{
}

/// A pending probe is reported to the engine as exactly the would-block
/// code, and an engine that passes that failure upward comes out of the
/// translator as "not ready" — never a false success, never a false hard
/// failure.
pub proof fn lemma_pending_is_not_ready<T>(probe: Poll<Result<T, IoErrorKind>>)
    requires
        probe is Pending,
    ensures
        sync_outcome(probe) == Err::<T, IoErrorKind>(IoErrorKind::WouldBlock),
        translated(lifted(sync_outcome(probe))) == Poll::<Result<T, ProtocolError>>::Pending,
{
}

/// A probe that completes at once with `n` bytes comes out of the whole
/// chain as "ready, succeeded with `n`".
pub proof fn lemma_immediate_success_is_ready(n: usize)
    ensures
        sync_outcome::<usize>(Poll::Ready(Ok(n))) == Ok::<usize, IoErrorKind>(n),
        translated(lifted(sync_outcome::<usize>(Poll::Ready(Ok(n))))) == Poll::<
            Result<usize, ProtocolError>,
        >::Ready(Ok(n)),
{
}

/// Round-trip identity of non-transient stream errors: an inner-stream
/// failure of any kind other than would-block crosses the synchronous facade
/// and the translator unchanged, same kind and payload.
pub proof fn lemma_hard_stream_error_round_trip<T>(k: IoErrorKind)
    requires
        k != IoErrorKind::WouldBlock,
    ensures
        sync_outcome::<T>(Poll::Ready(Err(k))) == Err::<T, IoErrorKind>(k),
        translated(lifted(Err::<T, IoErrorKind>(k))) == Poll::<Result<T, ProtocolError>>::Ready(
            Err(ProtocolError::Io(k)),
        ),
{
}

} // verus!
