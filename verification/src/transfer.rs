//! The dual-sink streaming transfer: on a cache miss, every chunk read
//! from the origin is written to a temporary file on disk and forwarded,
//! byte-identical and in the same order, to the client response body.
//!
//! The caller performs the reads, writes and sends and reports each
//! outcome; the state machine here decides what each outcome means and
//! guarantees the ordering and completeness properties:
//!
//! - both sinks receive the origin bytes unmodified and unreordered;
//! - a client disconnect mid-stream does not abort persistence — the
//!   remaining origin bytes are still drained to disk;
//! - the temporary file is promoted (atomically renamed) to the cache path
//!   only on full, successful completion, so a cache entry is either absent
//!   or complete — never truncated.

use vstd::prelude::*;

verus! {

/// Flush threshold of the buffered disk writer, in bytes: the writer is
/// flushed whenever at least this many unflushed bytes have accumulated.
pub const FLUSH_THRESHOLD: usize = 8192;

/// Where the transfer stands.
#[derive(Clone, Copy, Debug)]
pub enum TransferPhase {
    /// Chunks are still arriving from the origin.
    Streaming,
    /// The origin stream ended normally; the temporary file was promoted.
    Completed,
    /// The origin read or the disk write failed; nothing was promoted.
    Failed,
}

/// The state of one miss-path transfer. The ghost fields carry the bytes
/// each party has seen so far; the exec fields carry what the caller's
/// loop needs at run time.
pub struct Transfer {
    phase: TransferPhase,
    client_connected: bool,
    promoted: bool,
    unflushed: usize,
    origin: Ghost<Seq<u8>>,
    disk: Ghost<Seq<u8>>,
    client: Ghost<Seq<u8>>,
}

impl Transfer {
    /// Where the transfer stands.
    pub closed spec fn spec_phase(self) -> TransferPhase {
        self.phase
    }

    /// Whether the client-facing body channel is still accepting chunks.
    pub closed spec fn spec_client_connected(self) -> bool {
        self.client_connected
    }

    /// Whether the temporary file was promoted to the cache path.
    pub closed spec fn spec_promoted(self) -> bool {
        self.promoted
    }

    /// Bytes in the buffered disk writer not yet flushed to the file.
    pub closed spec fn spec_unflushed(self) -> int {
        self.unflushed as int
    }

    /// The bytes consumed from the origin stream so far.
    pub closed spec fn origin_bytes(self) -> Seq<u8> {
        self.origin@
    }

    /// The bytes handed to the disk sink so far.
    pub closed spec fn disk_bytes(self) -> Seq<u8> {
        self.disk@
    }

    /// The bytes delivered to the client sink so far.
    pub closed spec fn client_bytes(self) -> Seq<u8> {
        self.client@
    }

    /// The transfer invariant: the disk sink always holds exactly the
    /// origin bytes consumed so far; the client sink holds a prefix of
    /// them — the whole of them while the client stays connected; the
    /// writer never accumulates a full threshold of unflushed bytes; and
    /// promotion happens exactly on normal completion.
    pub closed spec fn wf(self) -> bool {
        &&& self.disk@ == self.origin@
        &&& self.client@.len() <= self.origin@.len()
        &&& self.client@ == self.origin@.take(self.client@.len() as int)
        &&& (self.client_connected ==> self.client@ == self.origin@)
        &&& self.unflushed < FLUSH_THRESHOLD
        &&& (self.promoted <==> self.phase is Completed)
        &&& (self.phase is Completed ==> self.unflushed == 0)
    }

    /// Begin a transfer: nothing consumed, nothing written, client
    /// connected, nothing promoted.
    pub fn new() -> (t: Transfer)
        ensures
            t.wf(),
            t.spec_phase() is Streaming,
            t.spec_client_connected(),
            !t.spec_promoted(),
            t.origin_bytes() == Seq::<u8>::empty(),
            t.disk_bytes() == Seq::<u8>::empty(),
            t.client_bytes() == Seq::<u8>::empty(),
            t.spec_unflushed() == 0,
    {
        proof {
            assert(Seq::<u8>::empty().take(0) =~= Seq::<u8>::empty());
        }
        Transfer {
            phase: TransferPhase::Streaming,
            client_connected: true,
            promoted: false,
            unflushed: 0,
            origin: Ghost(Seq::empty()),
            disk: Ghost(Seq::empty()),
            client: Ghost(Seq::empty()),
        }
    }

    /// Whether the caller should attempt to forward the next chunk to the
    /// client. After a failed send the answer is `false`, and the caller
    /// keeps draining the origin to disk without forwarding.
    pub fn should_forward(&self) -> (r: bool)
        ensures
            r == self.spec_client_connected(),
    {
        self.client_connected
    }

    /// Whether the temporary file was promoted to the cache path.
    pub fn is_promoted(&self) -> (r: bool)
        ensures
            r == self.spec_promoted(),
    {
        self.promoted
    }

    /// Record one chunk: the caller has written it to the disk sink and,
    /// if [`Self::should_forward`] said so, attempted to forward it;
    /// `forwarded` reports whether the client actually received it. The
    /// result says whether the buffered writer must be flushed now: exactly
    /// when the unflushed bytes reach the threshold.
    ///
    /// A failed or skipped forward disconnects the client sink for the
    /// rest of the transfer; the disk sink still receives every chunk.
    pub fn on_chunk(&mut self, chunk: &Vec<u8>, forwarded: bool) -> (flush: bool)
        requires
            old(self).wf(),
            old(self).spec_phase() is Streaming,
            chunk@.len() <= usize::MAX - FLUSH_THRESHOLD,
            forwarded ==> old(self).spec_client_connected(),
        ensures
            final(self).wf(),
            final(self).spec_phase() is Streaming,
            !final(self).spec_promoted(),
            final(self).origin_bytes() == old(self).origin_bytes() + chunk@,
            final(self).disk_bytes() == old(self).disk_bytes() + chunk@,
            final(self).spec_client_connected() == forwarded,
            forwarded ==> final(self).client_bytes() == old(self).client_bytes() + chunk@,
            !forwarded ==> final(self).client_bytes() == old(self).client_bytes(),
            flush == (old(self).spec_unflushed() + chunk@.len() >= FLUSH_THRESHOLD),
            final(self).spec_unflushed() == if flush {
                0int
            } else {
                old(self).spec_unflushed() + chunk@.len()
            },
    {
        let ghost old_origin = self.origin@;
        let ghost old_client = self.client@;
        self.origin = Ghost(self.origin@ + chunk@);
        self.disk = Ghost(self.disk@ + chunk@);
        if forwarded {
            self.client = Ghost(self.client@ + chunk@);
        } else {
            self.client_connected = false;
        }
        let flush = chunk.len() >= FLUSH_THRESHOLD - self.unflushed;
        if flush {
            self.unflushed = 0;
        } else {
            self.unflushed = self.unflushed + chunk.len();
        }
        proof {
            if forwarded {
                assert(self.client@ == self.origin@);
                assert(self.origin@.take(self.client@.len() as int) =~= self.client@);
            } else {
                assert(old_client.len() <= old_origin.len());
                assert((old_origin + chunk@).take(old_client.len() as int) =~= old_origin.take(
                    old_client.len() as int,
                ));
            }
        }
        flush
    }

    /// The origin stream ended normally: after the final flush, the
    /// temporary file is complete and is promoted — atomically renamed —
    /// to the cache path.
    pub fn on_origin_end(&mut self)
        requires
            old(self).wf(),
            old(self).spec_phase() is Streaming,
        ensures
            final(self).wf(),
            final(self).spec_phase() is Completed,
            final(self).spec_promoted(),
            final(self).spec_unflushed() == 0,
            final(self).origin_bytes() == old(self).origin_bytes(),
            final(self).disk_bytes() == old(self).disk_bytes(),
            final(self).client_bytes() == old(self).client_bytes(),
            final(self).spec_client_connected() == old(self).spec_client_connected(),
            final(self).disk_bytes() == final(self).origin_bytes(),
    {
        self.phase = TransferPhase::Completed;
        self.promoted = true;
        self.unflushed = 0;
    }

    /// The origin read or the disk write failed: the transfer aborts and
    /// the temporary file is discarded, never promoted to a cache entry.
    pub fn on_failure(&mut self)
        requires
            old(self).wf(),
            old(self).spec_phase() is Streaming,
        ensures
            final(self).wf(),
            final(self).spec_phase() is Failed,
            !final(self).spec_promoted(),
            final(self).origin_bytes() == old(self).origin_bytes(),
            final(self).disk_bytes() == old(self).disk_bytes(),
            final(self).client_bytes() == old(self).client_bytes(),
            final(self).spec_client_connected() == old(self).spec_client_connected(),
    {
        self.phase = TransferPhase::Failed;
    }
}

/// A promoted cache entry is never truncated: whenever the temporary file
/// has been promoted to the cache path, the bytes on disk are exactly the
/// complete origin bytes, and the transfer completed normally.
pub proof fn lemma_promoted_entry_is_complete(t: Transfer)
    requires
        t.wf(),
        t.spec_promoted(),
    ensures
        t.disk_bytes() == t.origin_bytes(),
        t.spec_phase() is Completed,
{
}

/// Dual-sink identity: as long as the client stays connected, both sinks
/// hold byte-identical, order-identical data — the disk bytes and the
/// client bytes are the same sequence.
pub proof fn lemma_connected_sinks_identical(t: Transfer)
    requires
        t.wf(),
        t.spec_client_connected(),
    ensures
        t.client_bytes() == t.disk_bytes(),
        t.client_bytes() == t.origin_bytes(),
{
}

/// The client never sees reordered, invented or duplicated data: what it
/// has received is always a prefix of what the origin sent, even after a
/// mid-stream disconnect.
pub proof fn lemma_client_receives_prefix(t: Transfer)
    requires
        t.wf(),
    ensures
        t.client_bytes() == t.origin_bytes().take(t.client_bytes().len() as int),
        t.client_bytes().len() <= t.origin_bytes().len(),
{
}

/// The disk sink never lags the origin: every byte consumed from the
/// origin stream has been handed to the disk sink, disconnect or not.
pub proof fn lemma_disk_never_lags(t: Transfer)
    requires
        t.wf(),
    ensures
        t.disk_bytes() == t.origin_bytes(),
{
}

/// A fresh fetch that completes with the client still connected leaves
/// every party with the same bytes: the promoted cache file, the client
/// body and the origin stream all hold one and the same sequence.
pub proof fn lemma_completed_transfer_serves_origin_bytes(t: Transfer)
    requires
        t.wf(),
        t.spec_promoted(),
        t.spec_client_connected(),
    ensures
        t.disk_bytes() == t.origin_bytes(),
        t.client_bytes() == t.origin_bytes(),
{
}

} // verus!
