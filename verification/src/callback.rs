use vstd::prelude::*;

verus! {

/// Abstract state of the scheduler's submission queue as this crate sees
/// it: whether the scheduler still accepts work, and the identifiers of
/// the callbacks it has accepted, in submission order.
pub ghost struct SchedulerModel {
    pub accepting: bool,
    pub submitted: Seq<u64>,
}

/// One submission through the locked entry point: recorded in order while
/// the scheduler accepts work, silently swallowed once it has shut down.
pub open spec fn invoke_model(s: SchedulerModel, callback_id: u64) -> SchedulerModel {
    if s.accepting {
        SchedulerModel { submitted: s.submitted.push(callback_id), ..s }
    } else {
        s
    }
}

/// `n` back-to-back submissions of the same callback.
pub open spec fn invoke_burst_model(s: SchedulerModel, callback_id: u64, n: nat) -> SchedulerModel
    decreases n,
{
    if n == 0 {
        s
    } else {
        invoke_model(invoke_burst_model(s, callback_id, (n - 1) as nat), callback_id)
    }
}

/// Recorder standing in for the external loop's thread-safe submission
/// entry point.
///
/// The real entry point acquires the loop's global execution lock on every
/// call and enqueues the callback; this double records what such a queue
/// accepts, so that submission counts can be stated and checked. Once shut
/// down it swallows submissions without error, as the real scheduler does.
pub struct SchedulerRecorder {
    accepting: bool,
    submitted: Vec<u64>,
}

impl View for SchedulerRecorder {
    type V = SchedulerModel;

    closed spec fn view(&self) -> SchedulerModel {
        SchedulerModel { accepting: self.accepting, submitted: self.submitted@ }
    }
}

impl SchedulerRecorder {
    /// A running scheduler with no submissions yet.
    pub fn new() -> (s: Self)
        ensures
            s@ == (SchedulerModel { accepting: true, submitted: Seq::empty() }),
    {
        SchedulerRecorder { accepting: true, submitted: Vec::new() }
    }

    /// Stops accepting work; later submissions are swallowed.
    pub fn shut_down(&mut self)
        ensures
            final(self)@ == (SchedulerModel { accepting: false, ..old(self)@ }),
    {
        self.accepting = false;
    }

    /// The identifiers of the accepted callbacks, in submission order.
    pub fn submissions(&self) -> (r: &Vec<u64>)
        ensures
            r@ == self@.submitted,
    {
        &self.submitted
    }

    /// How many submissions have been accepted.
    pub fn submission_count(&self) -> (n: usize)
        ensures
            n as nat == self@.submitted.len(),
    {
        self.submitted.len()
    }

    /// Takes one submission: records it if still accepting, swallows it
    /// otherwise. Never reports failure to the submitting worker.
    pub fn submit(&mut self, callback_id: u64)
        ensures
            final(self)@ == invoke_model(old(self)@, callback_id),
    {
        if self.accepting {
            self.submitted.push(callback_id);
        }
    }
}

/// A callback wired to the scheduler's locked submission entry point.
///
/// Invoking it hands the stored callback to the scheduler; the real entry
/// point blocks the calling worker until it can acquire the loop's global
/// execution lock — the defining cost difference from the signal channel's
/// non-blocking byte write. Construction allocates nothing from the OS and
/// cannot fail. The wrapper is shareable across workers because it only
/// ever calls the scheduler's own thread-safe entry point.
pub struct LockedCallback {
    callback_id: u64,
}

impl View for LockedCallback {
    type V = u64;

    closed spec fn view(&self) -> u64 {
        self.callback_id
    }
}

impl LockedCallback {
    /// Wraps the callback identified by `callback_id`.
    pub fn create(callback_id: u64) -> (c: Self)
        ensures
            c@ == callback_id,
    {
        LockedCallback { callback_id }
    }

    /// The identifier of the wrapped callback.
    pub fn callback_id(&self) -> (id: u64)
        ensures
            id == self@,
    {
        self.callback_id
    }

    /// Submits the wrapped callback once through the locked entry point;
    /// a submission the scheduler no longer accepts is swallowed.
    pub fn invoke(&self, scheduler: &mut SchedulerRecorder)
        ensures
            final(scheduler)@ == invoke_model(old(scheduler)@, self@),
    {
        scheduler.submit(self.callback_id);
    }
}

/// A burst of submissions leaves the scheduler's acceptance flag alone,
/// never records more entries than submissions made, and, while the
/// scheduler accepts work, records exactly one entry per submission, each
/// carrying the submitted callback's identifier.
pub proof fn lemma_invoke_burst_bounds(s: SchedulerModel, callback_id: u64, n: nat)
    ensures
        invoke_burst_model(s, callback_id, n).accepting == s.accepting,
        invoke_burst_model(s, callback_id, n).submitted.len() <= s.submitted.len() + n,
        s.accepting ==> invoke_burst_model(s, callback_id, n).submitted.len() == s.submitted.len()
            + n,
        !s.accepting ==> invoke_burst_model(s, callback_id, n) == s,
        forall|i: int|
            0 <= i < invoke_burst_model(s, callback_id, n).submitted.len() ==> #[trigger] invoke_burst_model(
                s,
                callback_id,
                n,
            ).submitted[i] == if i < s.submitted.len() {
                s.submitted[i]
            } else {
                callback_id
            },
    decreases n,
{
    if n > 0 {
        lemma_invoke_burst_bounds(s, callback_id, (n - 1) as nat);
    }
}

} // verus!
