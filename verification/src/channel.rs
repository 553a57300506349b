use vstd::prelude::*;

verus! {

/// Bytes the OS buffers for the pipe before a further non-blocking write
/// fails; writes beyond it are lost to coalescing, never queued.
pub const PIPE_CAPACITY: u64 = 65536;

/// Bytes one read of the drain loop removes from the pipe at most.
pub const DRAIN_CHUNK: u64 = 64;

/// Why constructing a channel can fail.
#[derive(Clone, Copy, Debug, PartialEq, Eq, Structural)]
pub enum WakeError {
    /// The OS could not allocate the pipe.
    ResourceExhausted,
}

/// Abstract state of a signal channel: the two descriptors and how many
/// wakeup bytes the OS currently buffers between the writers and the
/// draining reader.
pub ghost struct ChannelModel {
    pub read_fd: int,
    pub write_fd: int,
    pub pending: nat,
}

/// A well-formed channel holds two distinct valid descriptors and never
/// buffers more than the pipe's capacity.
pub open spec fn channel_wf(m: ChannelModel) -> bool {
    &&& 0 <= m.read_fd
    &&& 0 <= m.write_fd
    &&& m.read_fd != m.write_fd
    &&& m.pending <= PIPE_CAPACITY
}

/// The read side reports ready exactly while wakeup bytes are buffered.
pub open spec fn ready_model(m: ChannelModel) -> bool {
    m.pending > 0
}

/// One posted wakeup: a single byte is buffered if there is room, and is
/// lost otherwise (best effort, no retry).
pub open spec fn post_model(m: ChannelModel) -> ChannelModel {
    if m.pending < PIPE_CAPACITY {
        ChannelModel { pending: m.pending + 1, ..m }
    } else {
        m
    }
}

/// `n` back-to-back posted wakeups.
pub open spec fn burst_model(m: ChannelModel, n: nat) -> ChannelModel
    decreases n,
{
    if n == 0 {
        m
    } else {
        post_model(burst_model(m, (n - 1) as nat))
    }
}

/// How many reads return data while draining `pending` buffered bytes in
/// chunks of at most [`DRAIN_CHUNK`].
pub open spec fn drain_reads(pending: nat) -> nat
    decreases pending,
{
    if pending == 0 {
        0
    } else if pending <= DRAIN_CHUNK {
        1
    } else {
        1 + drain_reads((pending - DRAIN_CHUNK) as nat)
    }
}

/// A signal channel: one unidirectional OS pipe, both ends owned here.
///
/// The read end is non-blocking and is registered with the external loop
/// for readiness polling; the write end takes one-byte wakeup posts from
/// any worker thread. The `pending` field carries the channel's buffer
/// semantics: it advances by the same transitions the OS buffer follows,
/// so everything proved of it holds of any interleaving of posts and
/// drains. The embedding owns the real descriptors, must drain after each
/// readiness event, and must close both ends exactly once, after every
/// worker that may still post has finished.
pub struct SignalChannel {
    read_fd: i32,
    write_fd: i32,
    pending: u64,
}

impl View for SignalChannel {
    type V = ChannelModel;

    closed spec fn view(&self) -> ChannelModel {
        ChannelModel {
            read_fd: self.read_fd as int,
            write_fd: self.write_fd as int,
            pending: self.pending as nat,
        }
    }
}

impl SignalChannel {
    /// Takes the two descriptors of a freshly allocated pipe and returns
    /// the channel owning them, empty; fails with
    /// [`WakeError::ResourceExhausted`] exactly when the allocation failed,
    /// that is when the descriptors are not two distinct valid handles.
    pub fn create(read_fd: i32, write_fd: i32) -> (r: Result<SignalChannel, WakeError>)
        ensures
            r is Ok <==> read_fd >= 0 && write_fd >= 0 && read_fd != write_fd,
            r matches Ok(c) ==> c@ == (ChannelModel {
                read_fd: read_fd as int,
                write_fd: write_fd as int,
                pending: 0,
            }) && channel_wf(c@),
            r matches Err(e) ==> e == WakeError::ResourceExhausted,
    {
        if read_fd >= 0 && write_fd >= 0 && read_fd != write_fd {
            Ok(SignalChannel { read_fd, write_fd, pending: 0 })
        } else {
            Err(WakeError::ResourceExhausted)
        }
    }

    /// The descriptor to register with the loop's readiness polling.
    pub fn read_end_handle(&self) -> (fd: i32)
        ensures
            fd as int == self@.read_fd,
    {
        self.read_fd
    }

    /// The descriptor a worker posts its one-byte wakeups to.
    pub fn write_end_handle(&self) -> (fd: i32)
        ensures
            fd as int == self@.write_fd,
    {
        self.write_fd
    }

    /// Whether the read side currently reports ready.
    pub fn is_ready(&self) -> (r: bool)
        ensures
            r == ready_model(self@),
    {
        self.pending > 0
    }

    /// Posts one wakeup: buffers one byte if there is room and reports
    /// whether it was taken; a post against a full buffer is lost and not
    /// retried.
    pub fn post(&mut self) -> (accepted: bool)
        ensures
            final(self)@ == post_model(old(self)@),
            accepted == (old(self)@.pending < PIPE_CAPACITY),
    {
        if self.pending < PIPE_CAPACITY {
            self.pending = self.pending + 1;
            true
        } else {
            false
        }
    }

    /// Drains the read side after a readiness event: reads until nothing
    /// is left, discarding the bytes, and returns how many reads carried
    /// data. Leaves the channel not ready.
    pub fn drain(&mut self) -> (reads: u64)
        ensures
            final(self)@ == (ChannelModel { pending: 0, ..old(self)@ }),
            reads as nat == drain_reads(old(self)@.pending),
            !ready_model(final(self)@),
    {
        let ghost m0 = self@;
        proof {
            lemma_drain_reads_le_pending(m0.pending);
        }
        let mut reads: u64 = 0;
        while self.pending > 0
            invariant
                self@.read_fd == m0.read_fd,
                self@.write_fd == m0.write_fd,
                m0.pending <= u64::MAX,
                reads as nat + drain_reads(self@.pending) == drain_reads(m0.pending),
                drain_reads(m0.pending) <= m0.pending,
            decreases self.pending,
        {
            proof {
                assert(drain_reads(self@.pending) >= 1);
            }
            reads = reads + 1;
            let removed: u64 = if self.pending > DRAIN_CHUNK {
                DRAIN_CHUNK
            } else {
                self.pending
            };
            self.pending = self.pending - removed;
        }
        reads
    }
}

/// Draining never takes more reads than there are buffered bytes.
pub proof fn lemma_drain_reads_le_pending(pending: nat)
    ensures
        drain_reads(pending) <= pending,
    decreases pending,
{
    if pending > DRAIN_CHUNK {
        lemma_drain_reads_le_pending((pending - DRAIN_CHUNK) as nat);
    }
}

/// A burst leaves the descriptors alone and buffers at most one byte per
/// posted wakeup; it also preserves well-formedness.
pub proof fn lemma_burst_bounds(m: ChannelModel, n: nat)
    ensures
        burst_model(m, n).read_fd == m.read_fd,
        burst_model(m, n).write_fd == m.write_fd,
        burst_model(m, n).pending <= m.pending + n,
        channel_wf(m) ==> channel_wf(burst_model(m, n)),
    decreases n,
{
    if n > 0 {
        lemma_burst_bounds(m, (n - 1) as nat);
    }
}

/// Until the buffer is full nothing coalesces: a burst buffers exactly
/// one byte per posted wakeup; past capacity the buffer saturates and
/// every further post is lost.
pub proof fn lemma_burst_exact(m: ChannelModel, n: nat)
    requires
        m.pending <= PIPE_CAPACITY,
    ensures
        burst_model(m, n).pending == if m.pending + n <= PIPE_CAPACITY {
            m.pending + n
        } else {
            PIPE_CAPACITY as nat
        },
    decreases n,
{
    if n > 0 {
        lemma_burst_exact(m, (n - 1) as nat);
    }
}

/// Law: a burst of `n` wakeups into an idle channel, followed by a drain,
/// takes at most `n` reads before the read side is no longer ready —
/// coalescing may lower the observed count, never raise it.
pub proof fn lemma_burst_then_drain(m: ChannelModel, n: nat)
    requires
        m.pending == 0,
    ensures
        drain_reads(burst_model(m, n).pending) <= n,
        !ready_model(ChannelModel { pending: 0, ..burst_model(m, n) }),
{
    lemma_burst_bounds(m, n);
    lemma_drain_reads_le_pending(burst_model(m, n).pending);
}

/// Law: one wakeup posted into an idle channel makes exactly one readiness
/// round trip observable — not ready before, ready after the post, drained
/// in exactly one read, and not ready after the drain.
pub proof fn lemma_single_post_round_trip(m: ChannelModel)
    requires
        m.pending == 0,
    ensures
        !ready_model(m),
        ready_model(post_model(m)),
        drain_reads(post_model(m).pending) == 1,
        !ready_model(ChannelModel { pending: 0, ..post_model(m) }),
{
}

} // verus!
