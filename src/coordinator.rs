use vstd::prelude::*;
use crate::artifact::ArtifactDescriptor;
use crate::errors::SyncError;
use crate::fetch::{FetchAction, FetchEvent, FetchPhase, FetchSession};
use crate::planner::{Decision, LocalState, SyncTask, fetch_bytes, fetch_count, first_malformed, lemma_planned_tasks, plan, planned};
use crate::artifact::descriptor_wf;
use crate::platform::OperatingSystem;
use crate::progress::{DownloadInfos, ProgressState};

verus! {

/// Where a task of a run stands.
#[derive(Debug, Clone, Copy, PartialEq, Eq, Structural)]
pub enum TaskStatus {
    Pending,
    Running,
    Done,
}

pub open spec fn seq_sum(s: Seq<int>) -> int
    decreases s.len(),
{
    if s.len() == 0 {
        0
    } else {
        seq_sum(s.drop_last()) + s.last()
    }
}

proof fn lemma_sum_update(s: Seq<int>, i: int, v: int)
    requires
        0 <= i < s.len(),
    ensures
        seq_sum(s.update(i, v)) == seq_sum(s) - s[i] + v,
    decreases s.len(),
{
    if i == s.len() - 1 {
        assert(s.update(i, v).drop_last() =~= s.drop_last());
    } else {
        assert(s.update(i, v).drop_last() =~= s.drop_last().update(i, v));
        lemma_sum_update(s.drop_last(), i, v);
    }
}

proof fn lemma_sum_le(a: Seq<int>, b: Seq<int>)
    requires
        a.len() == b.len(),
        forall|i: int| 0 <= i < a.len() ==> a[i] <= b[i],
    ensures
        seq_sum(a) <= seq_sum(b),
    decreases a.len(),
{
    if a.len() > 0 {
        lemma_sum_le(a.drop_last(), b.drop_last());
    }
}

proof fn lemma_sum_zero_all_zero(s: Seq<int>, i: int)
    requires
        forall|k: int| 0 <= k < s.len() ==> 0 <= #[trigger] s[k],
        seq_sum(s) == 0,
        0 <= i < s.len(),
    ensures
        s[i] == 0,
    decreases s.len(),
{
    let z = Seq::new(s.drop_last().len(), |k: int| 0int);
    lemma_sum_le(z, s.drop_last());
    lemma_sum_zero(z.len() as nat);
    if i < s.len() - 1 {
        lemma_sum_zero_all_zero(s.drop_last(), i);
    }
}

proof fn lemma_sum_ge_elem(s: Seq<int>, i: int)
    requires
        forall|k: int| 0 <= k < s.len() ==> 0 <= #[trigger] s[k],
        0 <= i < s.len(),
    ensures
        s[i] <= seq_sum(s),
    decreases s.len(),
{
    let z = Seq::new(s.drop_last().len(), |k: int| 0int);
    lemma_sum_le(z, s.drop_last());
    lemma_sum_zero(z.len() as nat);
    if i < s.len() - 1 {
        lemma_sum_ge_elem(s.drop_last(), i);
    }
}

proof fn lemma_sum_zero(n: nat)
    ensures
        seq_sum(Seq::new(n, |k: int| 0int)) == 0,
    decreases n,
{
    if n > 0 {
        assert(Seq::new(n, |k: int| 0int).drop_last() =~= Seq::new((n - 1) as nat, |k: int| 0int));
        lemma_sum_zero((n - 1) as nat);
    }
}

pub open spec fn received_of(ss: Seq<FetchSession>) -> Seq<int> {
    ss.map_values(|x: FetchSession| x.received as int)
}

pub open spec fn size_of(ss: Seq<FetchSession>) -> Seq<int> {
    ss.map_values(|x: FetchSession| x.size as int)
}

pub open spec fn succeeded_of(ss: Seq<FetchSession>) -> Seq<int> {
    ss.map_values(|x: FetchSession| if x.phase is Succeeded { 1int } else { 0int })
}

pub open spec fn fetching_of(ts: Seq<SyncTask>) -> Seq<int> {
    ts.map_values(|t: SyncTask| if t.decision == Decision::Fetch { 1int } else { 0int })
}

pub open spec fn running_of(st: Seq<TaskStatus>) -> Seq<int> {
    st.map_values(|x: TaskStatus| if x is Running { 1int } else { 0int })
}

/// One synchronisation run: the plan, the fetch of each task, which tasks
/// are under way, the first fatal error, and the progress counters.
///
/// At most `limit` tasks run at once. Once an error is recorded no task is
/// started, but tasks already running are carried to their end.
#[derive(Debug)]
pub struct SyncRun {
    tasks: Vec<SyncTask>,
    sessions: Vec<FetchSession>,
    status: Vec<TaskStatus>,
    limit: usize,
    next: usize,
    in_flight: usize,
    failure: Option<SyncError>,
    progress: ProgressState,
}

impl SyncRun {
    pub closed spec fn spec_tasks(&self) -> Seq<SyncTask> {
        self.tasks@
    }

    pub closed spec fn spec_sessions(&self) -> Seq<FetchSession> {
        self.sessions@
    }

    pub closed spec fn spec_status(&self) -> Seq<TaskStatus> {
        self.status@
    }

    pub closed spec fn spec_limit(&self) -> nat {
        self.limit as nat
    }

    pub closed spec fn spec_next(&self) -> nat {
        self.next as nat
    }

    pub closed spec fn spec_in_flight(&self) -> nat {
        self.in_flight as nat
    }

    pub closed spec fn spec_failure(&self) -> Option<SyncError> {
        self.failure
    }

    pub closed spec fn spec_progress(&self) -> DownloadInfos {
        self.progress@
    }

    /// The run has ended: nothing runs, and either every task was started
    /// or an error stopped the starting of new ones.
    pub open spec fn spec_is_done(&self) -> bool {
        self.spec_in_flight() == 0 && (self.spec_failure() is Some || self.spec_next() == self.spec_tasks().len())
    }

    pub closed spec fn wf(&self) -> bool {
        let n = self.tasks@.len();
        &&& self.sessions@.len() == n
        &&& self.status@.len() == n
        &&& self.limit >= 1
        &&& self.next <= n
        &&& self.in_flight <= self.limit
        &&& self.in_flight == seq_sum(running_of(self.status@))
        &&& forall|i: int| 0 <= i < n ==> (self.status@[i] is Pending <==> i >= self.next)
        &&& forall|i: int| 0 <= i < n ==> (#[trigger] self.sessions@[i]).wf()
        &&& forall|i: int| 0 <= i < n && self.tasks@[i].decision != Decision::Fetch ==> self.sessions@[i] == FetchSession::spec_new(0)
        &&& forall|i: int| 0 <= i < n && self.tasks@[i].decision == Decision::Fetch && self.status@[i] is Running ==> !self.sessions@[i].is_terminal()
        &&& forall|i: int| 0 <= i < n && self.tasks@[i].decision == Decision::Fetch && self.status@[i] is Done ==> self.sessions@[i].is_terminal()
        &&& forall|i: int| 0 <= i < n && self.status@[i] is Pending ==> self.sessions@[i].phase is Requesting
        &&& self.failure is None ==> forall|i: int| 0 <= i < n ==> !(self.sessions@[i].phase is Exhausted || self.sessions@[i].phase is Aborted)
        &&& self.progress.wf()
        &&& self.progress@.spec_total_bytes_to_download() == seq_sum(size_of(self.sessions@))
        &&& self.progress@.spec_total_bytes_downloaded() == seq_sum(received_of(self.sessions@))
        &&& self.progress@.spec_total_files_to_download() == seq_sum(fetching_of(self.tasks@))
        &&& self.progress@.spec_total_files_downloaded() == seq_sum(succeeded_of(self.sessions@))
    }
}


proof fn lemma_fetch_count_sum(ts: Seq<SyncTask>)
    ensures
        fetch_count(ts) == seq_sum(fetching_of(ts)),
    decreases ts.len(),
{
    if ts.len() > 0 {
        assert(fetching_of(ts).drop_last() =~= fetching_of(ts.drop_last()));
        lemma_fetch_count_sum(ts.drop_last());
    }
}

proof fn lemma_fetch_bytes_prefix(ts: Seq<SyncTask>, ds: Seq<ArtifactDescriptor>, i: int)
    requires
        0 <= i <= ts.len(),
    ensures
        fetch_bytes(ts.take(i), ds) <= fetch_bytes(ts, ds),
    decreases ts.len(),
{
    if i < ts.len() {
        assert(ts.drop_last().take(i) =~= ts.take(i));
        lemma_fetch_bytes_prefix(ts.drop_last(), ds, i);
    } else {
        assert(ts.take(i) =~= ts);
    }
}

impl SyncRun {
    /// Checks and plans the run (see `plan`) and sets up its counters: the
    /// bytes and files of the fetch tasks are expected, nothing is received.
    /// `limit` is how many tasks may run at once.
    pub fn start(descriptors: &Vec<ArtifactDescriptor>, platform: &OperatingSystem, observed: &Vec<LocalState>, limit: usize) -> (r: Result<SyncRun, SyncError>)
        requires
            observed@.len() == descriptors@.len(),
            limit >= 1,
        ensures
            r matches Ok(run) ==> {
                &&& run.wf()
                &&& run.spec_tasks() == planned(descriptors@, *platform, observed@)
                &&& run.spec_limit() == limit
                &&& run.spec_next() == 0
                &&& run.spec_in_flight() == 0
                &&& run.spec_failure() is None
                &&& run.spec_progress().spec_total_bytes_to_download() == fetch_bytes(run.spec_tasks(), descriptors@)
                &&& run.spec_progress().spec_total_files_to_download() == fetch_count(run.spec_tasks())
                &&& run.spec_progress().spec_total_bytes_downloaded() == 0
                &&& run.spec_progress().spec_total_files_downloaded() == 0
            },
            r is Ok <==> (forall|k: int| 0 <= k < descriptors@.len() ==> descriptor_wf(#[trigger] descriptors@[k]))
                && fetch_bytes(planned(descriptors@, *platform, observed@), descriptors@) <= u64::MAX,
            r matches Err(e) ==> (e matches SyncError::MalformedDescriptor { index } && first_malformed(descriptors@, index as int))
                || (e is SizeOverflow && fetch_bytes(planned(descriptors@, *platform, observed@), descriptors@) > u64::MAX),
    {
        let tasks = match plan(descriptors, platform, observed) {
            Ok(t) => t,
            Err(e) => return Err(e),
        };
        let ghost ds = descriptors@;
        let n_desc = descriptors.len();
        proof {
            assert(ds.len() == n_desc);
            lemma_planned_tasks(ds, *platform, observed@);
        }
        let mut sessions: Vec<FetchSession> = Vec::new();
        let mut status: Vec<TaskStatus> = Vec::new();
        let mut total: u64 = 0;
        let mut i: usize = 0;
        while i < tasks.len()
            invariant
                tasks@ == planned(ds, *platform, observed@),
                ds == descriptors@,
                forall|k: int| 0 <= k < tasks@.len() ==> 0 <= (#[trigger] tasks@[k]).index < ds.len(),
                i <= tasks@.len(),
                sessions@.len() == i,
                status@.len() == i,
                forall|k: int| 0 <= k < i ==> status@[k] is Pending,
                forall|k: int| 0 <= k < i ==> (#[trigger] sessions@[k]) == (if tasks@[k].decision == Decision::Fetch {
                    FetchSession::spec_new(crate::artifact::expected_size(ds[tasks@[k].index as int]))
                } else {
                    FetchSession::spec_new(0)
                }),
                total == fetch_bytes(tasks@.take(i as int), ds),
                total == seq_sum(size_of(sessions@)),
            decreases tasks@.len() - i,
        {
            let t = tasks[i];
            let size: u64 = if t.decision == Decision::Fetch {
                descriptors[t.index].size()
            } else {
                0
            };
            proof {
                assert(tasks@.take(i as int + 1).drop_last() =~= tasks@.take(i as int));
                assert(tasks@.take(i as int + 1).last() == t);
            }
            match total.checked_add(size) {
                Some(v) => {
                    total = v;
                },
                None => {
                    proof {
                        lemma_fetch_bytes_prefix(tasks@, ds, i as int + 1);
                    }
                    return Err(SyncError::SizeOverflow);
                },
            }
            let ghost old_sessions = sessions@;
            sessions.push(FetchSession::new(size));
            status.push(TaskStatus::Pending);
            proof {
                assert(size_of(sessions@).drop_last() =~= size_of(old_sessions));
            }
            i = i + 1;
        }
        proof {
            assert(tasks@.take(tasks@.len() as int) =~= tasks@);
            lemma_fetch_count_sum(tasks@);
            assert(running_of(status@) =~= Seq::new(status@.len(), |k: int| 0int));
            assert(received_of(sessions@) =~= Seq::new(sessions@.len(), |k: int| 0int));
            assert(succeeded_of(sessions@) =~= Seq::new(sessions@.len(), |k: int| 0int));
            lemma_sum_zero(status@.len());
            lemma_sum_zero(sessions@.len());
            let f = fetching_of(tasks@);
            assert forall|k: int| 0 <= k < f.len() implies 0 <= f[k] by {}
            lemma_sum_le(Seq::new(f.len(), |k: int| 0int), f);
            lemma_sum_le(f, Seq::new(f.len(), |k: int| 1int));
            lemma_sum_ones(f.len());
        }
        let files = fetch_total_count(&tasks);
        let progress = ProgressState::init(total, files);
        Ok(SyncRun { tasks, sessions, status, limit, next: 0, in_flight: 0, failure: None, progress })
    }
}

proof fn lemma_sum_ones(n: nat)
    ensures
        seq_sum(Seq::new(n, |k: int| 1int)) == n,
    decreases n,
{
    if n > 0 {
        assert(Seq::new(n, |k: int| 1int).drop_last() =~= Seq::new((n - 1) as nat, |k: int| 1int));
        lemma_sum_ones((n - 1) as nat);
    }
}

/// The number of fetch tasks in a plan.
fn fetch_total_count(tasks: &Vec<SyncTask>) -> (r: u64)
    ensures
        r == fetch_count(tasks@),
{
    let mut n: u64 = 0;
    let mut i: usize = 0;
    while i < tasks.len()
        invariant
            i <= tasks@.len(),
            n <= i,
            n == fetch_count(tasks@.take(i as int)),
        decreases tasks@.len() - i,
    {
        proof {
            assert(tasks@.take(i as int + 1).drop_last() =~= tasks@.take(i as int));
            assert(tasks@.take(i as int + 1).last() == tasks@[i as int]);
        }
        if tasks[i].decision == Decision::Fetch {
            n = n + 1;
        }
        i = i + 1;
    }
    proof {
        assert(tasks@.take(tasks@.len() as int) =~= tasks@);
    }
    n
}

impl SyncRun {
    /// Starts the next task if no error was recorded, fewer than `limit`
    /// tasks run and tasks remain: returns its position in the plan.
    pub fn schedule(&mut self) -> (r: Option<usize>)
        requires
            old(self).wf(),
        ensures
            final(self).wf(),
            final(self).spec_tasks() == old(self).spec_tasks(),
            final(self).spec_sessions() == old(self).spec_sessions(),
            final(self).spec_failure() == old(self).spec_failure(),
            final(self).spec_progress() == old(self).spec_progress(),
            final(self).spec_limit() == old(self).spec_limit(),
            r is Some <==> (old(self).spec_failure() is None && old(self).spec_in_flight() < old(self).spec_limit()
                && old(self).spec_next() < old(self).spec_tasks().len()),
            r matches Some(t) ==> {
                &&& t == old(self).spec_next()
                &&& final(self).spec_next() == t + 1
                &&& final(self).spec_in_flight() == old(self).spec_in_flight() + 1
                &&& final(self).spec_status() == old(self).spec_status().update(t as int, TaskStatus::Running)
            },
            r is None ==> {
                &&& final(self).spec_next() == old(self).spec_next()
                &&& final(self).spec_in_flight() == old(self).spec_in_flight()
                &&& final(self).spec_status() == old(self).spec_status()
            },
    {
        if self.failure.is_some() || self.in_flight >= self.limit || self.next >= self.tasks.len() {
            return None;
        }
        let t = self.next;
        proof {
            lemma_sum_update(running_of(self.status@), t as int, 1);
            assert(running_of(self.status@.update(t as int, TaskStatus::Running)) =~= running_of(self.status@).update(t as int, 1));
        }
        self.status.set(t, TaskStatus::Running);
        self.next = self.next + 1;
        self.in_flight = self.in_flight + 1;
        Some(t)
    }

    /// Records that the task at position `t` ended, for a task that fetches
    /// nothing (a skip or a directory or link to create); `ok` is false when
    /// its local work failed. Does nothing for any other position.
    pub fn finish_local(&mut self, t: usize, ok: bool)
        requires
            old(self).wf(),
        ensures
            final(self).wf(),
            final(self).spec_tasks() == old(self).spec_tasks(),
            final(self).spec_sessions() == old(self).spec_sessions(),
            final(self).spec_progress() == old(self).spec_progress(),
            final(self).spec_next() == old(self).spec_next(),
            final(self).spec_limit() == old(self).spec_limit(),
            if t < old(self).spec_tasks().len() && old(self).spec_status()[t as int] is Running
                && old(self).spec_tasks()[t as int].decision != Decision::Fetch {
                &&& final(self).spec_status() == old(self).spec_status().update(t as int, TaskStatus::Done)
                &&& final(self).spec_in_flight() == old(self).spec_in_flight() - 1
                &&& final(self).spec_failure() == if !ok && old(self).spec_failure() is None {
                    Some(SyncError::LocalIo { index: old(self).spec_tasks()[t as int].index })
                } else {
                    old(self).spec_failure()
                }
            } else {
                &&& final(self).spec_status() == old(self).spec_status()
                &&& final(self).spec_in_flight() == old(self).spec_in_flight()
                &&& final(self).spec_failure() == old(self).spec_failure()
            },
    {
        if t >= self.tasks.len() {
            return;
        }
        if self.status[t] != TaskStatus::Running || self.tasks[t].decision == Decision::Fetch {
            return;
        }
        proof {
            let rs = running_of(self.status@);
            assert forall|k: int| 0 <= k < rs.len() implies 0 <= #[trigger] rs[k] by {}
            lemma_sum_ge_elem(rs, t as int);
            lemma_sum_update(running_of(self.status@), t as int, 0);
            assert(running_of(self.status@.update(t as int, TaskStatus::Done)) =~= running_of(self.status@).update(t as int, 0));
        }
        self.status.set(t, TaskStatus::Done);
        self.in_flight = self.in_flight - 1;
        if !ok && self.failure.is_none() {
            self.failure = Some(SyncError::LocalIo { index: self.tasks[t].index });
        }
    }

    /// Takes in what the caller observed for the fetch task at position `t`
    /// and says what it does next (see `FetchSession::step`). Bytes written
    /// are counted, the bytes of a failed attempt are taken back, a verified
    /// file is counted, and a fetch that gives up or aborts records the
    /// run's error if none was recorded. Any other position is ignored.
    pub fn fetch_step(&mut self, t: usize, event: FetchEvent) -> (r: FetchAction)
        requires
            old(self).wf(),
        ensures
            final(self).wf(),
            final(self).spec_tasks() == old(self).spec_tasks(),
            final(self).spec_next() == old(self).spec_next(),
            final(self).spec_limit() == old(self).spec_limit(),
            if t < old(self).spec_tasks().len() && old(self).spec_status()[t as int] is Running
                && old(self).spec_tasks()[t as int].decision == Decision::Fetch {
                let (s, a) = crate::fetch::fetch_next(old(self).spec_sessions()[t as int], event);
                &&& r == a
                &&& final(self).spec_sessions() == old(self).spec_sessions().update(t as int, s)
                &&& final(self).spec_status() == old(self).spec_status().update(t as int,
                    if s.is_terminal() { TaskStatus::Done } else { TaskStatus::Running })
                &&& final(self).spec_failure() == match (a, old(self).spec_failure()) {
                    (FetchAction::GiveUp { cause }, None) => Some(SyncError::RetriesExhausted { index: old(self).spec_tasks()[t as int].index, cause }),
                    (FetchAction::Abort, None) => Some(SyncError::LocalIo { index: old(self).spec_tasks()[t as int].index }),
                    _ => old(self).spec_failure(),
                }
            } else {
                &&& r == FetchAction::Ignore
                &&& final(self).spec_sessions() == old(self).spec_sessions()
                &&& final(self).spec_status() == old(self).spec_status()
                &&& final(self).spec_failure() == old(self).spec_failure()
                &&& final(self).spec_progress() == old(self).spec_progress()
            },
    {
        if t >= self.tasks.len() {
            return FetchAction::Ignore;
        }
        if self.status[t] != TaskStatus::Running || self.tasks[t].decision != Decision::Fetch {
            return FetchAction::Ignore;
        }
        let before = self.sessions[t];
        let mut s = before;
        let a = s.step(event);
        let ghost old_sessions = self.sessions@;
        proof {
            let rv = received_of(old_sessions);
            assert forall|k: int| 0 <= k < rv.len() implies 0 <= #[trigger] rv[k] by {}
            lemma_sum_ge_elem(rv, t as int);
            let rs = running_of(self.status@);
            assert forall|k: int| 0 <= k < rs.len() implies 0 <= #[trigger] rs[k] by {}
            lemma_sum_ge_elem(rs, t as int);
            lemma_sum_update(received_of(old_sessions), t as int, s.received as int);
            lemma_sum_update(size_of(old_sessions), t as int, s.size as int);
            lemma_sum_update(succeeded_of(old_sessions), t as int, if s.phase is Succeeded { 1int } else { 0int });
        }
        self.sessions.set(t, s);
        proof {
            assert(received_of(self.sessions@) =~= received_of(old_sessions).update(t as int, s.received as int));
            assert(size_of(self.sessions@) =~= size_of(old_sessions).update(t as int, s.size as int));
            assert(succeeded_of(self.sessions@) =~= succeeded_of(old_sessions).update(t as int, if s.phase is Succeeded { 1int } else { 0int }));
            lemma_sum_le(received_of(self.sessions@), size_of(self.sessions@));
            assert forall|i: int| 0 <= i < self.tasks@.len() implies succeeded_of(self.sessions@)[i] <= fetching_of(self.tasks@)[i] by {
                if i != t {
                    assert(self.sessions@[i] == old_sessions[i]);
                }
            }
            lemma_sum_le(succeeded_of(self.sessions@), fetching_of(self.tasks@));
        }
        if s.received >= before.received {
            self.progress.add_bytes_downloaded(s.received - before.received);
        } else {
            self.progress.discard_bytes_downloaded(before.received - s.received);
        }
        if s.is_finished() {
            proof {
                lemma_sum_update(running_of(self.status@), t as int, 0);
                assert(running_of(self.status@.update(t as int, TaskStatus::Done)) =~= running_of(self.status@).update(t as int, 0));
            }
            self.status.set(t, TaskStatus::Done);
            self.in_flight = self.in_flight - 1;
        }
        match a {
            FetchAction::Complete => {
                self.progress.add_file_downloaded();
            },
            FetchAction::GiveUp { cause } => {
                if self.failure.is_none() {
                    self.failure = Some(SyncError::RetriesExhausted { index: self.tasks[t].index, cause });
                }
            },
            FetchAction::Abort => {
                if self.failure.is_none() {
                    self.failure = Some(SyncError::LocalIo { index: self.tasks[t].index });
                }
            },
            _ => {},
        }
        a
    }

    /// Cancels the run: no task is started any more, tasks under way are
    /// carried to their end, and the run fails with `Cancelled` unless an
    /// error was recorded first.
    pub fn cancel(&mut self)
        requires
            old(self).wf(),
        ensures
            final(self).wf(),
            final(self).spec_tasks() == old(self).spec_tasks(),
            final(self).spec_sessions() == old(self).spec_sessions(),
            final(self).spec_status() == old(self).spec_status(),
            final(self).spec_progress() == old(self).spec_progress(),
            final(self).spec_next() == old(self).spec_next(),
            final(self).spec_in_flight() == old(self).spec_in_flight(),
            final(self).spec_limit() == old(self).spec_limit(),
            final(self).spec_failure() == match old(self).spec_failure() {
                Some(e) => Some(e),
                None => Some(SyncError::Cancelled),
            },
    {
        if self.failure.is_none() {
            self.failure = Some(SyncError::Cancelled);
        }
    }

    /// Whether the run has ended (see `spec_is_done`).
    pub fn is_done(&self) -> (r: bool)
        requires
            self.wf(),
        ensures
            r == self.spec_is_done(),
    {
        self.in_flight == 0 && (self.failure.is_some() || self.next == self.tasks.len())
    }

    /// The run's result: the first error recorded, or success.
    pub fn outcome(&self) -> (r: Result<(), SyncError>)
        ensures
            r == match self.spec_failure() {
                Some(e) => Err(e),
                None => Ok(()),
            },
    {
        match &self.failure {
            Some(e) => Err(*e),
            None => Ok(()),
        }
    }

    /// The current counters.
    pub fn progress(&self) -> (r: DownloadInfos)
        ensures
            r == self.spec_progress(),
    {
        self.progress.get_download_infos()
    }

    /// The number of tasks in the plan.
    pub fn len(&self) -> (r: usize)
        ensures
            r == self.spec_tasks().len(),
    {
        self.tasks.len()
    }

    /// The task at position `t` of the plan.
    pub fn task(&self, t: usize) -> (r: SyncTask)
        requires
            t < self.spec_tasks().len(),
        ensures
            r == self.spec_tasks()[t as int],
    {
        self.tasks[t]
    }
}

/// A run that ended without error has received every byte and every file
/// it expected: the bytes counted equal the sizes of all fetched artifacts,
/// whatever the concurrency limit and whatever order tasks ended in.
pub proof fn lemma_successful_run_transfers_all(run: SyncRun)
    requires
        run.wf(),
        run.spec_is_done(),
        run.spec_failure() is None,
    ensures
        run.spec_progress().spec_total_bytes_downloaded() == run.spec_progress().spec_total_bytes_to_download(),
        run.spec_progress().spec_total_files_downloaded() == run.spec_progress().spec_total_files_to_download(),
        forall|i: int| 0 <= i < run.spec_tasks().len() ==> #[trigger] run.spec_status()[i] is Done,
{
    reveal(SyncRun::wf);
    let n = run.tasks@.len();
    let r = running_of(run.status@);
    assert forall|k: int| 0 <= k < r.len() implies 0 <= #[trigger] r[k] by {}
    assert forall|i: int| 0 <= i < n implies #[trigger] run.status@[i] is Done by {
        lemma_sum_zero_all_zero(r, i);
    }
    assert(received_of(run.sessions@) =~= size_of(run.sessions@));
    assert(succeeded_of(run.sessions@) =~= fetching_of(run.tasks@));
}

/// A run planned over a tree that already holds every file with its
/// declared digest and every link fetches nothing: no task fetches, and at
/// every point of the run no byte has been counted.
pub proof fn lemma_settled_run_transfers_nothing(run: SyncRun, ds: Seq<ArtifactDescriptor>, p: OperatingSystem, obs: Seq<LocalState>)
    requires
        run.wf(),
        obs.len() == ds.len(),
        ds.len() <= usize::MAX,
        run.spec_tasks() == planned(ds, p, obs),
        run.spec_progress().spec_total_bytes_to_download() == fetch_bytes(run.spec_tasks(), ds),
        forall|i: int| 0 <= i < ds.len() && ds[i].kind == crate::artifact::FileType::File ==> (#[trigger] obs[i] matches LocalState::File { sha1 } && ds[i].source matches Some(src) && crate::digest::digest_matches_spec(sha1@, src.sha1@)),
        forall|i: int| 0 <= i < ds.len() && ds[i].kind == crate::artifact::FileType::Link ==> !(#[trigger] obs[i] is Missing),
    ensures
        forall|k: int| 0 <= k < run.spec_tasks().len() ==> (#[trigger] run.spec_tasks()[k]).decision != Decision::Fetch,
        run.spec_progress().spec_total_bytes_downloaded() == 0,
{
    crate::planner::lemma_settled_tree_fetches_nothing(ds, p, obs);
}

/// A run never has more than its limit of tasks under way, and every task
/// it started is either under way or done.
pub proof fn lemma_in_flight_bounded(run: SyncRun)
    requires
        run.wf(),
    ensures
        run.spec_in_flight() <= run.spec_limit(),
        run.spec_limit() >= 1,
        run.spec_next() <= run.spec_tasks().len(),
        forall|i: int| 0 <= i < run.spec_tasks().len() ==> (#[trigger] run.spec_status()[i] is Pending <==> i >= run.spec_next()),
{
}

} // verus!
