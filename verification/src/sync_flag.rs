use vstd::prelude::*;

verus! {

/// The flag that keeps at most one document synchronisation running: the daily job and
/// the on-demand admin route both go through it.
pub struct SyncFlag {
    pub running: bool,
}

/// A request to start a run: whether it may start, and the flag afterwards.
pub open spec fn begin(g: SyncFlag) -> (bool, SyncFlag) {
    (!g.running, SyncFlag { running: true })
}

/// The flag after a run ends.
pub open spec fn end(g: SyncFlag) -> SyncFlag {
    SyncFlag { running: false }
}

/// The reply of the on-demand route: `202` with "Sync task initiated in background." when
/// no run is going on, `200` with "Task already running. Please wait." otherwise.
pub struct OnDemandReply {
    pub status: u16,
    pub message: String,
}

impl SyncFlag {
    /// A flag with no run going on.
    pub fn new() -> (g: SyncFlag)
        ensures
            !g.running,
    {
        SyncFlag { running: false }
    }

    /// Tries to start a run: it starts (`true`) only when none is going on; afterwards a run
    /// is going on either way.
    pub fn try_begin(&mut self) -> (started: bool)
        ensures
            (started, *final(self)) == begin(*old(self)),
    {
        if self.running {
            false
        } else {
            self.running = true;
            true
        }
    }

    /// Marks the current run as finished.
    pub fn finish(&mut self)
        ensures
            *final(self) == end(*old(self)),
    {
        self.running = false;
    }

    /// Whether a run is going on.
    pub fn is_running(&self) -> (r: bool)
        ensures
            r == self.running,
    {
        self.running
    }

    /// What the on-demand route answers, given the flag when the request comes in.
    pub fn on_demand_reply(&self) -> (r: OnDemandReply)
        ensures
            self.running ==> r.status == 200 && r.message@ == "Task already running. Please wait."@,
            !self.running ==> r.status == 202 && r.message@ == "Sync task initiated in background."@,
    {
        if self.running {
            OnDemandReply { status: 200, message: "Task already running. Please wait.".to_owned() }
        } else {
            OnDemandReply { status: 202, message: "Sync task initiated in background.".to_owned() }
        }
    }
}

/// Two runs never overlap: once a run has been started (or refused), a second request is
/// refused until the run ends.
pub proof fn law_no_overlapping_runs(g: SyncFlag)
    ensures
        !begin(begin(g).1).0,
{
}

/// A run that has ended frees the flag: the next request starts a run.
pub proof fn law_end_frees_flag(g: SyncFlag)
    ensures
        begin(end(g)).0,
        !end(g).running,
{
}

} // verus!
