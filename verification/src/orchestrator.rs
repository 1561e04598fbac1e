//! The orchestrator: composes validator, fetcher and transfer into the
//! per-request pipeline.
//!
//! The request handler runs the validator synchronously and dispatches on
//! its verdict; on a miss it starts a detached fetch unit, whose phases —
//! origin fetch, directory creation, file creation, streaming — are decided
//! here, each phase saying what response (if any) to deliver through the
//! response handoff.

use vstd::prelude::*;
use crate::fetcher::OriginProbe;
use crate::fetcher::origin_accepts;
use crate::fetcher::spec_origin_accepts;
use crate::response::PendingResponse;
use crate::validator::CacheDecision;

verus! {

/// What the request handler does after cache validation.
#[derive(Clone, Copy, Debug)]
pub enum ValidationStep {
    /// Serve the cache file directly with the given response.
    Serve { response: PendingResponse },
    /// Delete the stale cache file (best effort), then fetch from the
    /// origin through a detached fetch unit.
    DeleteThenFetch,
    /// Fetch from the origin through a detached fetch unit.
    Fetch,
    /// Short-circuit: deliver the given failure response; fetch nothing.
    Fail { response: PendingResponse },
}

/// The dispatch rule: a hit is served directly with status 200, the file's
/// length and the fixed image content type; a plain miss fetches; an
/// expired miss deletes the stale file and fetches; an unreadable file
/// yields an immediate internal-error response with no fetch.
pub open spec fn spec_dispatch_validation(d: CacheDecision) -> ValidationStep {
    match d {
        CacheDecision::Hit { len } => ValidationStep::Serve {
            response: PendingResponse::spec_hit(len),
        },
        CacheDecision::MissNotFound => ValidationStep::Fetch,
        CacheDecision::MissExpired => ValidationStep::DeleteThenFetch,
        CacheDecision::Error => ValidationStep::Fail {
            response: PendingResponse::spec_internal_error(),
        },
    }
}

/// Decide what the request handler does with the validator's verdict.
pub fn dispatch_validation(d: &CacheDecision) -> (step: ValidationStep)
    ensures
        step == spec_dispatch_validation(*d),
{
    match d {
        CacheDecision::Hit { len } => ValidationStep::Serve { response: PendingResponse::hit(*len) },
        CacheDecision::MissNotFound => ValidationStep::Fetch,
        CacheDecision::MissExpired => ValidationStep::DeleteThenFetch,
        CacheDecision::Error => ValidationStep::Fail {
            response: PendingResponse::internal_error(),
        },
    }
}

/// The outcome of one read when streaming a cache hit's file to the client.
#[derive(Clone, Copy, Debug)]
pub enum ReadOutcome {
    /// A read returned `n` bytes; zero means end of file.
    Read { n: usize },
    /// The read failed.
    ReadError,
}

/// What the hit-path background reader does with one read outcome.
#[derive(Clone, Copy, Debug)]
pub enum HitStreamAction {
    /// Send the `n` bytes just read to the client body.
    Send { n: usize },
    /// End of file: close the body normally.
    Stop,
    /// Read failure: abort the body. The status and headers already
    /// returned to the client are unaffected.
    Abort,
}

/// The hit-path streaming rule: forward what was read, stop at end of
/// file, abort the body on a read failure.
pub open spec fn spec_hit_read_step(o: ReadOutcome) -> HitStreamAction {
    match o {
        ReadOutcome::Read { n } => if n == 0 {
            HitStreamAction::Stop
        } else {
            HitStreamAction::Send { n }
        },
        ReadOutcome::ReadError => HitStreamAction::Abort,
    }
}

/// Decide one step of the background reader that feeds a cache hit's body.
pub fn hit_read_step(o: &ReadOutcome) -> (a: HitStreamAction)
    ensures
        a == spec_hit_read_step(*o),
{
    match o {
        ReadOutcome::Read { n } => if *n == 0 {
            HitStreamAction::Stop
        } else {
            HitStreamAction::Send { n: *n }
        },
        ReadOutcome::ReadError => HitStreamAction::Abort,
    }
}

/// Where the detached miss-path fetch unit stands.
#[derive(Clone, Copy, Debug)]
pub enum FetchPhase {
    /// Awaiting the origin's response.
    AwaitingOrigin,
    /// Creating the destination's parent directory (recursive create).
    EnsuringDirectory,
    /// Creating the destination file for writing.
    CreatingFile,
    /// The success response has been handed off; the dual-sink transfer
    /// now consumes the origin body.
    Streaming,
    /// Terminal: an error response was handed off; no transfer runs and
    /// no cache entry is promoted.
    Aborted,
}

/// The detached unit of work that runs the miss path: fetch the origin,
/// prepare the destination, hand off the response, then stream. Each step
/// takes the outcome the caller observed and answers with the response to
/// deliver through the handoff, if this step decides one.
pub struct FetchUnit {
    phase: FetchPhase,
    responded: bool,
}

impl FetchUnit {
    /// Where the unit stands.
    pub closed spec fn spec_phase(self) -> FetchPhase {
        self.phase
    }

    /// Whether the unit has decided its response.
    pub closed spec fn spec_responded(self) -> bool {
        self.responded
    }

    /// The unit decides its response exactly when it leaves the preparing
    /// phases: on entering `Streaming` (success, fired before the body is
    /// consumed) or `Aborted` (failure).
    pub closed spec fn wf(self) -> bool {
        self.responded <==> (self.phase is Streaming || self.phase is Aborted)
    }

    /// A fresh unit, about to issue the origin request.
    pub fn new() -> (u: FetchUnit)
        ensures
            u.wf(),
            u.spec_phase() is AwaitingOrigin,
            !u.spec_responded(),
    {
        FetchUnit { phase: FetchPhase::AwaitingOrigin, responded: false }
    }

    /// The origin request finished: an accepted image response moves on to
    /// preparing the destination; anything else — network failure, missing
    /// header, non-image content — aborts with a bad-request response and
    /// writes no file.
    pub fn on_origin(&mut self, p: &OriginProbe) -> (fire: Option<PendingResponse>)
        requires
            old(self).wf(),
            old(self).spec_phase() is AwaitingOrigin,
        ensures
            final(self).wf(),
            spec_origin_accepts(*p) ==> {
                &&& final(self).spec_phase() is EnsuringDirectory
                &&& !final(self).spec_responded()
                &&& fire is None
            },
            !spec_origin_accepts(*p) ==> {
                &&& final(self).spec_phase() is Aborted
                &&& final(self).spec_responded()
                &&& fire == Some(PendingResponse::spec_bad_request())
            },
    {
        if origin_accepts(p) {
            self.phase = FetchPhase::EnsuringDirectory;
            None
        } else {
            self.phase = FetchPhase::Aborted;
            self.responded = true;
            Some(PendingResponse::bad_request())
        }
    }

    /// The recursive create of the destination's parent directory finished:
    /// on success the unit creates the file next; on failure it aborts with
    /// an internal-error response — no file is written, no bytes forwarded.
    pub fn on_directory_result(&mut self, ok: bool) -> (fire: Option<PendingResponse>)
        requires
            old(self).wf(),
            old(self).spec_phase() is EnsuringDirectory,
        ensures
            final(self).wf(),
            ok ==> {
                &&& final(self).spec_phase() is CreatingFile
                &&& !final(self).spec_responded()
                &&& fire is None
            },
            !ok ==> {
                &&& final(self).spec_phase() is Aborted
                &&& final(self).spec_responded()
                &&& fire == Some(PendingResponse::spec_internal_error())
            },
    {
        if ok {
            self.phase = FetchPhase::CreatingFile;
            None
        } else {
            self.phase = FetchPhase::Aborted;
            self.responded = true;
            Some(PendingResponse::internal_error())
        }
    }

    /// Creating the destination file finished. On success the unit hands
    /// off the streaming success response at once — before the origin body
    /// is consumed, so response construction decouples from full-body
    /// availability — and streaming begins. On failure it aborts with an
    /// internal-error response.
    pub fn on_file_result(&mut self, ok: bool) -> (fire: Option<PendingResponse>)
        requires
            old(self).wf(),
            old(self).spec_phase() is CreatingFile,
        ensures
            final(self).wf(),
            final(self).spec_responded(),
            ok ==> {
                &&& final(self).spec_phase() is Streaming
                &&& fire == Some(PendingResponse::spec_streaming_ok())
            },
            !ok ==> {
                &&& final(self).spec_phase() is Aborted
                &&& fire == Some(PendingResponse::spec_internal_error())
            },
    {
        if ok {
            self.phase = FetchPhase::Streaming;
            self.responded = true;
            Some(PendingResponse::streaming_ok())
        } else {
            self.phase = FetchPhase::Aborted;
            self.responded = true;
            Some(PendingResponse::internal_error())
        }
    }
}

/// The fetch unit answers every request it takes on: in every reachable
/// terminal or streaming state it has decided exactly one response, and in
/// every earlier state none — together with the handoff's fire-once
/// contract, the request handler receives exactly one response.
pub proof fn lemma_fetch_unit_responds_once(u: FetchUnit)
    requires
        u.wf(),
    ensures
        (u.spec_phase() is Streaming || u.spec_phase() is Aborted) <==> u.spec_responded(),
{
}

/// The origin is contacted only on a miss: validation dispatches a fetch
/// exactly for a missing or expired file. In particular, repeating a
/// request while the cache file is fresh makes no origin request at all.
pub proof fn lemma_fetch_only_on_miss(d: CacheDecision)
    ensures
        (spec_dispatch_validation(d) is Fetch || spec_dispatch_validation(d) is DeleteThenFetch)
            <==> (d is MissNotFound || d is MissExpired),
{
}

/// A hit is served directly, with status 200 and a content-length equal
/// to the cache file's byte length.
pub proof fn lemma_hit_serves_file_with_length(len: u64)
    ensures
        spec_dispatch_validation(CacheDecision::Hit { len }) == (ValidationStep::Serve {
            response: PendingResponse::spec_hit(len),
        }),
        PendingResponse::spec_hit(len).status == 200,
        PendingResponse::spec_hit(len).content_length == Some(len),
{
}

} // verus!
