use vstd::prelude::*;

use crate::catalog::{is_known, is_known_operation};
use crate::engine::{CleanModel, SystemCleaner};

verus! {

/// Where a run stands.
#[derive(Clone, Copy, Debug, PartialEq, Eq, Structural)]
pub enum RunPhase {
    Idle,
    Running,
    Completed,
}

/// Why a run could not start.
#[derive(Clone, Copy, Debug, PartialEq, Eq, Structural)]
pub enum RunError {
    /// The previous run has not completed.
    AlreadyRunning,
}

/// The known identifiers of `ids`, in their order.
pub open spec fn known_ids(ids: Seq<Seq<char>>) -> Seq<Seq<char>>
    decreases ids.len(),
{
    if ids.len() == 0 {
        Seq::empty()
    } else if is_known_operation(ids.last()) {
        known_ids(ids.drop_last()).push(ids.last())
    } else {
        known_ids(ids.drop_last())
    }
}

pub open spec fn id_texts(v: Seq<String>) -> Seq<Seq<char>> {
    v.map_values(|s: String| s@)
}

/// The sequencing of one run: which operations it holds, how many have been handed
/// out, and whether the front end asked it to stop. One run at a time.
pub struct RunControl {
    phase: RunPhase,
    queue: Vec<String>,
    next: usize,
    abort_requested: bool,
}

impl RunControl {
    pub closed spec fn phase_spec(&self) -> RunPhase {
        self.phase
    }

    /// The operations of the current (or last) run, in the order given.
    pub closed spec fn queue_spec(&self) -> Seq<Seq<char>> {
        id_texts(self.queue@)
    }

    /// How many operations have been handed out.
    pub closed spec fn next_spec(&self) -> nat {
        self.next as nat
    }

    pub closed spec fn abort_spec(&self) -> bool {
        self.abort_requested
    }

    pub closed spec fn wf(&self) -> bool {
        self.next <= self.queue.len()
    }

    pub fn new() -> (r: Self)
        ensures
            r.wf(),
            r.phase_spec() == RunPhase::Idle,
            r.queue_spec().len() == 0,
            r.next_spec() == 0,
            !r.abort_spec(),
    {
        RunControl { phase: RunPhase::Idle, queue: Vec::new(), next: 0, abort_requested: false }
    }

    /// Starts a run over the known identifiers of `enabled`, in their order;
    /// unknown ones are left out. Refused while a run is in progress.
    pub fn start_run(&mut self, enabled: &Vec<String>) -> (r: Result<(), RunError>)
        requires
            old(self).wf(),
        ensures
            final(self).wf(),
            old(self).phase_spec() == RunPhase::Running <==> r is Err,
            r is Err ==> *final(self) == *old(self),
            r is Ok ==> final(self).phase_spec() == RunPhase::Running && final(self).queue_spec()
                == known_ids(id_texts(enabled@)) && final(self).next_spec() == 0
                && !final(self).abort_spec(),
    {
        if self.phase == RunPhase::Running {
            return Err(RunError::AlreadyRunning);
        }
        let mut q: Vec<String> = Vec::new();
        let mut i: usize = 0;
        while i < enabled.len()
            invariant
                i <= enabled.len(),
                id_texts(q@) == known_ids(id_texts(enabled@.subrange(0, i as int))),
            decreases enabled.len() - i,
        {
            proof {
                let pre = enabled@.subrange(0, i + 1);
                assert(pre.drop_last() =~= enabled@.subrange(0, i as int));
                assert(id_texts(pre).drop_last() =~= id_texts(pre.drop_last()));
            }
            if is_known(enabled[i].as_str()) {
                let ghost before = q@;
                q.push(enabled[i].clone());
                assert(id_texts(q@) =~= id_texts(before).push(enabled@[i as int]@));
            }
            i = i + 1;
        }
        assert(enabled@.subrange(0, enabled.len() as int) =~= enabled@);
        self.phase = RunPhase::Running;
        self.queue = q;
        self.next = 0;
        self.abort_requested = false;
        Ok(())
    }

    /// Starts a run as `start_run` does and, when it starts, gives it a fresh
    /// cleaner in mode `dry_run`: zero totals stamped with `timestamp` (seconds since
    /// the Unix epoch) and an empty log. A refused start leaves both untouched.
    pub fn begin_run(
        &mut self,
        cleaner: &mut SystemCleaner,
        dry_run: bool,
        timestamp: i64,
        enabled: &Vec<String>,
    ) -> (r: Result<
        (),
        RunError,
    >)
        requires
            old(self).wf(),
        ensures
            final(self).wf(),
            old(self).phase_spec() == RunPhase::Running <==> r is Err,
            r is Err ==> *final(self) == *old(self) && *final(cleaner) == *old(cleaner),
            r is Ok ==> final(self).phase_spec() == RunPhase::Running && final(self).queue_spec()
                == known_ids(id_texts(enabled@)) && final(self).next_spec() == 0
                && !final(self).abort_spec() && final(cleaner).dry_run_spec() == dry_run
                && final(cleaner).verbose_spec() == old(cleaner).verbose_spec() && final(cleaner).model()
                == (CleanModel { files: 0, bytes: 0, lines: Seq::empty(), gone: Seq::empty() })
                && final(cleaner).stats_spec().directories_cleaned == 0
                && final(cleaner).stats_spec().timestamp == timestamp,
    {
        let r = self.start_run(enabled);
        if r.is_ok() {
            *cleaner = SystemCleaner::new(cleaner.is_verbose(), dry_run, timestamp);
        }
        r
    }

    /// Hands out the next operation of a running run. When none is left, or the
    /// front end asked to stop, the run completes and nothing is handed out.
    pub fn next_operation(&mut self) -> (r: Option<String>)
        requires
            old(self).wf(),
        ensures
            final(self).wf(),
            final(self).queue_spec() == old(self).queue_spec(),
            final(self).abort_spec() == old(self).abort_spec(),
            ({
                let o = *old(self);
                if o.phase_spec() == RunPhase::Running && !o.abort_spec() && o.next_spec()
                    < o.queue_spec().len() {
                    r is Some && r->Some_0@ == o.queue_spec()[o.next_spec() as int]
                        && final(self).next_spec() == o.next_spec() + 1
                        && final(self).phase_spec() == RunPhase::Running
                } else {
                    r is None && final(self).next_spec() == o.next_spec() && final(self).phase_spec()
                        == (if o.phase_spec() == RunPhase::Running {
                        RunPhase::Completed
                    } else {
                        o.phase_spec()
                    })
                }
            }),
    {
        if self.phase == RunPhase::Running && !self.abort_requested && self.next < self.queue.len() {
            let id = self.queue[self.next].clone();
            self.next = self.next + 1;
            Some(id)
        } else {
            if self.phase == RunPhase::Running {
                self.phase = RunPhase::Completed;
            }
            None
        }
    }

    /// Asks a running run to stop before its next operation.
    pub fn request_abort(&mut self)
        requires
            old(self).wf(),
        ensures
            final(self).wf(),
            final(self).phase_spec() == old(self).phase_spec(),
            final(self).queue_spec() == old(self).queue_spec(),
            final(self).next_spec() == old(self).next_spec(),
            final(self).abort_spec() == (old(self).abort_spec() || old(self).phase_spec()
                == RunPhase::Running),
    {
        if self.phase == RunPhase::Running {
            self.abort_requested = true;
        }
    }

    /// Whether the run has completed.
    pub fn is_completed(&self) -> (r: bool)
        ensures
            r == (self.phase_spec() == RunPhase::Completed),
    {
        self.phase == RunPhase::Completed
    }

    /// Whether a run is in progress.
    pub fn is_running(&self) -> (r: bool)
        ensures
            r == (self.phase_spec() == RunPhase::Running),
    {
        self.phase == RunPhase::Running
    }
}

} // verus!
