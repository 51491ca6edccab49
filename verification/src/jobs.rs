//! The store of download and import jobs: their latest progress, when they
//! finished, and how long finished jobs are kept.
use vstd::prelude::*;
use crate::download::DownloadSource;
use crate::remote::opt_string_view;
use crate::text::{chars_of, push_str, str_eq, string_of};

verus! {

/// The stage a job is in.
#[derive(Clone, Copy, Debug, PartialEq, Eq, Structural)]
pub enum JobPhase {
    Queued,
    Downloading,
    Converting,
    EmbeddingCover,
    SavingLyrics,
    RefreshingLibrary,
    Completed,
    Failed,
}

/// A job has ended: completed or failed.
pub open spec fn terminal(phase: JobPhase) -> bool {
    phase == JobPhase::Completed || phase == JobPhase::Failed
}

/// Whether a job in this phase has ended.
pub fn terminal_phase(phase: JobPhase) -> (r: bool)
    ensures
        r == terminal(phase),
{
    phase == JobPhase::Completed || phase == JobPhase::Failed
}

/// What is known of a job's progress.
pub struct JobSnapshot {
    pub job_id: String,
    pub source: DownloadSource,
    pub state: String,
    pub phase: JobPhase,
    pub percent: Option<u8>,
    pub message: String,
    pub detail: Option<String>,
    pub filename: Option<String>,
    pub warning: Option<String>,
    pub error: Option<String>,
}

/// A job and when it ended (in milliseconds), if it did.
pub struct JobRecord {
    pub snapshot: JobSnapshot,
    pub finished_at_ms: Option<u64>,
}

/// How long an ended job stays visible: two minutes.
pub const DOWNLOAD_JOB_TTL_MS: u64 = 120000;

/// The jobs, each id once.
pub struct DownloadJobStore {
    jobs: Vec<JobRecord>,
}

/// The job ids of the records, in order.
pub open spec fn record_ids(v: Seq<JobRecord>) -> Seq<Seq<char>> {
    v.map_values(|r: JobRecord| r.snapshot.job_id@)
}

/// No id occurs twice.
pub open spec fn unique_ids(ids: Seq<Seq<char>>) -> bool {
    forall|i: int, j: int| 0 <= i < j < ids.len() ==> ids[i] != ids[j]
}

/// A record is kept at `now_ms` while it has not ended, or ended less than the
/// time to live ago.
pub open spec fn kept(r: JobRecord, now_ms: u64, ttl_ms: u64) -> bool {
    match r.finished_at_ms {
        None => true,
        Some(t) => now_ms < t || now_ms - t < ttl_ms,
    }
}

/// The snapshot kept for a job once an event has been applied: an error is
/// kept only in the failed phase.
pub open spec fn stored_snapshot(snapshot: JobSnapshot) -> JobSnapshot {
    if snapshot.phase == JobPhase::Failed {
        snapshot
    } else {
        JobSnapshot { error: None, ..snapshot }
    }
}

/// `after` is `before` with the job's progress `snapshot` recorded at
/// `now_ms`: the job is there with [`stored_snapshot`], ended at `now_ms` when
/// its phase ends it; every other job is kept as it was, and no other is added.
pub open spec fn applied(before: Seq<JobRecord>, after: Seq<JobRecord>, snapshot: JobSnapshot, now_ms: u64) -> bool {
    &&& record_ids(after).contains(snapshot.job_id@)
    &&& forall|i: int|
        0 <= i < after.len() && after[i].snapshot.job_id@ == snapshot.job_id@ ==> {
            &&& after[i].snapshot == stored_snapshot(snapshot)
            &&& after[i].finished_at_ms == (if terminal(snapshot.phase) {
                Some(now_ms)
            } else {
                None
            })
        }
    &&& forall|i: int| 0 <= i < before.len() && before[i].snapshot.job_id@ != snapshot.job_id@ ==> after.contains(before[i])
    &&& forall|i: int| 0 <= i < after.len() && after[i].snapshot.job_id@ != snapshot.job_id@ ==> before.contains(after[i])
}

impl View for DownloadJobStore {
    type V = Seq<JobRecord>;

    closed spec fn view(&self) -> Seq<JobRecord> {
        self.jobs@
    }
}

fn find_job(jobs: &Vec<JobRecord>, job_id: &str) -> (r: Option<usize>)
    ensures
        match r {
            Some(i) => i < jobs@.len() && record_ids(jobs@)[i as int] == job_id@,
            None => !record_ids(jobs@).contains(job_id@),
        },
{
    let mut i: usize = 0;
    while i < jobs.len()
        invariant
            i <= jobs.len(),
            forall|j: int| 0 <= j < i ==> record_ids(jobs@)[j] != job_id@,
        decreases jobs.len() - i,
    {
        if str_eq(jobs[i].snapshot.job_id.as_str(), job_id) {
            return Some(i);
        }
        i = i + 1;
    }
    proof {
        if record_ids(jobs@).contains(job_id@) {
            let k = choose|k: int| 0 <= k < record_ids(jobs@).len() && record_ids(jobs@)[k] == job_id@;
            assert(record_ids(jobs@)[k] != job_id@);
        }
    }
    None
}

impl DownloadJobStore {
    /// Each job id once.
    pub open spec fn wf(&self) -> bool {
        unique_ids(record_ids(self@))
    }

    /// An empty store.
    pub fn new() -> (r: DownloadJobStore)
        ensures
            r.wf(),
            r@.len() == 0,
    {
        DownloadJobStore { jobs: Vec::new() }
    }

    /// Drops the jobs that ended at least `ttl_ms` before `now_ms`.
    pub fn cleanup_with_ttl(&mut self, now_ms: u64, ttl_ms: u64)
        requires
            old(self).wf(),
        ensures
            final(self).wf(),
            final(self)@ == old(self)@.filter(|r: JobRecord| kept(r, now_ms, ttl_ms)),
    {
        let ghost all = self@;
        let mut kept_jobs: Vec<JobRecord> = Vec::new();
        let mut rest: Vec<JobRecord> = Vec::new();
        std::mem::swap(&mut rest, &mut self.jobs);
        assert(rest@ == all);
        let n = rest.len();
        let mut i: usize = 0;
        while rest.len() > 0
            invariant
                n == all.len(),
                i + rest@.len() == all.len(),
                rest@ == all.skip(i as int),
                kept_jobs@ == all.take(i as int).filter(|r: JobRecord| kept(r, now_ms, ttl_ms)),
                unique_ids(record_ids(all)),
            decreases rest.len(),
        {
            let rec = rest.remove(0);
            proof {
                assert(rec == all[i as int]);
                assert(all.take(i + 1) =~= all.take(i as int).push(rec));
                all.take(i as int).lemma_filter_push(rec, |r: JobRecord| kept(r, now_ms, ttl_ms));
                assert(rest@ =~= all.skip(i + 1));
            }
            let keep = match rec.finished_at_ms {
                None => true,
                Some(t) => now_ms < t || now_ms - t < ttl_ms,
            };
            if keep {
                kept_jobs.push(rec);
            }
            i = i + 1;
        }
        assert(all.take(all.len() as int) =~= all);
        self.jobs = kept_jobs;
        proof {
            lemma_filter_keeps_unique(all, |r: JobRecord| kept(r, now_ms, ttl_ms));
        }
    }

    /// Drops the jobs that ended more than two minutes ago.
    pub fn cleanup(&mut self, now_ms: u64)
        requires
            old(self).wf(),
        ensures
            final(self).wf(),
            final(self)@ == old(self)@.filter(|r: JobRecord| kept(r, now_ms, DOWNLOAD_JOB_TTL_MS)),
    {
        self.cleanup_with_ttl(now_ms, DOWNLOAD_JOB_TTL_MS);
    }

    /// The job with this id, if it is still kept.
    pub fn get(&self, job_id: &str) -> (r: Option<&JobSnapshot>)
        requires
            self.wf(),
        ensures
            match r {
                Some(s) => exists|i: int| 0 <= i < self@.len() && self@[i].snapshot == *s && s.job_id@ == job_id@,
                None => !record_ids(self@).contains(job_id@),
            },
    {
        match find_job(&self.jobs, job_id) {
            Some(i) => Some(&self.jobs[i].snapshot),
            None => None,
        }
    }

    /// Records a job's new progress, `snapshot` being its progress with the
    /// event applied: a job not yet known is added, an error is kept only in
    /// the failed phase, and whether the job has ended, and when, follows its
    /// phase.
    pub fn apply_event(&mut self, snapshot: JobSnapshot, now_ms: u64)
        requires
            old(self).wf(),
        ensures
            final(self).wf(),
            applied(old(self)@, final(self)@, snapshot, now_ms),
    {
        let ghost given = snapshot;
        let mut snapshot = snapshot;
        if snapshot.phase != JobPhase::Failed {
            snapshot.error = None;
        }
        let finished = if terminal_phase(snapshot.phase) {
            Some(now_ms)
        } else {
            None
        };
        let ghost before = self@;
        let ghost id = snapshot.job_id@;
        match find_job(&self.jobs, snapshot.job_id.as_str()) {
            Some(i) => {
                self.jobs.set(i, JobRecord { snapshot, finished_at_ms: finished });
                proof {
                    assert(record_ids(self@) =~= record_ids(before).update(i as int, id));
                    assert(record_ids(self@)[i as int] == id);
                    assert forall|a: int, b: int| 0 <= a < b < record_ids(self@).len() implies record_ids(self@)[a]
                        != record_ids(self@)[b] by {
                        assert(record_ids(before)[a] != record_ids(before)[b]);
                    }
                    assert forall|k: int| 0 <= k < self@.len() && self@[k].snapshot.job_id@ == id implies k == i by {
                        if k != i {
                            assert(record_ids(before)[k] == id);
                        }
                    }
                    assert forall|k: int| 0 <= k < before.len() && before[k].snapshot.job_id@ != id implies self@.contains(
                        before[k],
                    ) by {
                        assert(self@[k] == before[k]);
                    }
                    assert forall|k: int| 0 <= k < self@.len() && self@[k].snapshot.job_id@ != id implies before.contains(
                        self@[k],
                    ) by {
                        assert(self@[k] == before[k]);
                    }
                }
            },
            None => {
                self.jobs.push(JobRecord { snapshot, finished_at_ms: finished });
                proof {
                    assert(record_ids(self@) =~= record_ids(before).push(id));
                    assert(record_ids(self@)[before.len() as int] == id);
                    assert forall|a: int, b: int| 0 <= a < b < record_ids(self@).len() implies record_ids(self@)[a]
                        != record_ids(self@)[b] by {
                        if b < before.len() {
                            assert(record_ids(before)[a] != record_ids(before)[b]);
                        } else {
                            assert(record_ids(before)[a] != id);
                        }
                    }
                    assert forall|k: int| 0 <= k < self@.len() && self@[k].snapshot.job_id@ == id implies k
                        == before.len() by {
                        if k < before.len() {
                            assert(record_ids(before)[k] == id);
                        }
                    }
                    assert forall|k: int| 0 <= k < before.len() && before[k].snapshot.job_id@ != id implies self@.contains(
                        before[k],
                    ) by {
                        assert(self@[k] == before[k]);
                    }
                    assert forall|k: int| 0 <= k < self@.len() && self@[k].snapshot.job_id@ != id implies before.contains(
                        self@[k],
                    ) by {
                        assert(self@[k] == before[k]);
                    }
                }
            },
        }
    }

    /// Adds a job with its first snapshot (what the queued event of
    /// [`queued_event`] makes of it), first dropping the jobs that ended two
    /// minutes ago or more.
    pub fn create(&mut self, snapshot: JobSnapshot, now_ms: u64)
        requires
            old(self).wf(),
        ensures
            final(self).wf(),
            applied(
                old(self)@.filter(|r: JobRecord| kept(r, now_ms, DOWNLOAD_JOB_TTL_MS)),
                final(self)@,
                snapshot,
                now_ms,
            ),
    {
        self.cleanup(now_ms);
        self.apply_event(snapshot, now_ms);
    }

    /// Marks a known job completed at `now_ms`, with its file and any warning;
    /// an unknown job is left alone.
    pub fn mark_completed(&mut self, job_id: &str, filename: Option<String>, warning: Option<String>, now_ms: u64)
        requires
            old(self).wf(),
        ensures
            final(self).wf(),
            final(self)@.len() == old(self)@.len(),
            forall|i: int|
                0 <= i < old(self)@.len() ==> {
                    let before = old(self)@[i];
                    let after = #[trigger] final(self)@[i];
                    if before.snapshot.job_id@ == job_id@ {
                        &&& after.snapshot.job_id == before.snapshot.job_id
                        &&& after.snapshot.source == before.snapshot.source
                        &&& after.snapshot.detail == before.snapshot.detail
                        &&& after.snapshot.state@ == "completed"@
                        &&& after.snapshot.phase == JobPhase::Completed
                        &&& after.snapshot.percent == Some(100u8)
                        &&& after.snapshot.message@ == "Download complete"@
                        &&& after.snapshot.filename == filename
                        &&& after.snapshot.warning == warning
                        &&& after.snapshot.error is None
                        &&& after.finished_at_ms == Some(now_ms)
                    } else {
                        after == before
                    }
                },
    {
        match find_job(&self.jobs, job_id) {
            None => {
                proof {
                    assert forall|i: int| 0 <= i < self@.len() implies self@[i].snapshot.job_id@ != job_id@ by {
                        assert(record_ids(self@)[i] == self@[i].snapshot.job_id@);
                    }
                }
            },
            Some(i) => {
                let ghost before = self@;
                let mut rec = self.jobs.remove(i);
                rec.snapshot.state = "completed".to_owned();
                rec.snapshot.phase = JobPhase::Completed;
                rec.snapshot.percent = Some(100);
                rec.snapshot.message = "Download complete".to_owned();
                rec.snapshot.filename = filename;
                rec.snapshot.warning = warning;
                rec.snapshot.error = None;
                rec.finished_at_ms = Some(now_ms);
                self.jobs.insert(i, rec);
                proof {
                    assert(self@ =~= before.update(i as int, self@[i as int]));
                    assert(record_ids(self@) =~= record_ids(before));
                    assert forall|k: int| 0 <= k < before.len() && k != i implies before[k].snapshot.job_id@ != job_id@ by {
                        assert(record_ids(before)[k] != record_ids(before)[i as int]);
                    }
                }
            },
        }
    }

    /// Sets the warning of a known job.
    pub fn mark_warning(&mut self, job_id: &str, warning: Option<String>)
        requires
            old(self).wf(),
        ensures
            final(self).wf(),
            final(self)@.len() == old(self)@.len(),
            forall|i: int|
                0 <= i < old(self)@.len() ==> {
                    let before = old(self)@[i];
                    let after = #[trigger] final(self)@[i];
                    if before.snapshot.job_id@ == job_id@ {
                        after == (JobRecord {
                            snapshot: JobSnapshot { warning: warning, ..before.snapshot },
                            ..before
                        })
                    } else {
                        after == before
                    }
                },
    {
        match find_job(&self.jobs, job_id) {
            None => {
                proof {
                    assert forall|i: int| 0 <= i < self@.len() implies self@[i].snapshot.job_id@ != job_id@ by {
                        assert(record_ids(self@)[i] == self@[i].snapshot.job_id@);
                    }
                }
            },
            Some(i) => {
                let ghost before = self@;
                let mut rec = self.jobs.remove(i);
                rec.snapshot.warning = warning;
                self.jobs.insert(i, rec);
                proof {
                    assert(self@ =~= before.update(i as int, self@[i as int]));
                    assert(record_ids(self@) =~= record_ids(before));
                    assert forall|k: int| 0 <= k < before.len() && k != i implies before[k].snapshot.job_id@ != job_id@ by {
                        assert(record_ids(before)[k] != record_ids(before)[i as int]);
                    }
                }
            },
        }
    }

    /// The snapshots of the jobs still running, in the order they were added.
    pub fn active_jobs(&self) -> (r: Vec<&JobSnapshot>)
        ensures
            r@.map_values(|s: &JobSnapshot| *s) == running_snapshots(self@),
    {
        let mut r: Vec<&JobSnapshot> = Vec::new();
        let mut i: usize = 0;
        while i < self.jobs.len()
            invariant
                i <= self.jobs.len(),
                r@.map_values(|s: &JobSnapshot| *s) == running_snapshots(self@.take(i as int)),
            decreases self.jobs.len() - i,
        {
            let snap = &self.jobs[i].snapshot;
            proof {
                assert(self@.take(i + 1) =~= self@.take(i as int).push(self@[i as int]));
                snapshots_of(self@.take(i as int)).lemma_filter_push(self@[i as int].snapshot, |s: JobSnapshot| !terminal(s.phase));
                assert(snapshots_of(self@.take(i + 1)) =~= snapshots_of(self@.take(i as int)).push(self@[i as int].snapshot));
            }
            if !terminal_phase(snap.phase) {
                let ghost before = r@;
                r.push(snap);
                assert(r@.map_values(|s: &JobSnapshot| *s) =~= before.map_values(|s: &JobSnapshot| *s).push(*snap));
            }
            i = i + 1;
        }
        assert(self@.take(self@.len() as int) =~= self@);
        r
    }
}

/// The snapshots of the records, in order.
pub open spec fn snapshots_of(v: Seq<JobRecord>) -> Seq<JobSnapshot> {
    v.map_values(|r: JobRecord| r.snapshot)
}

/// The snapshots of the records whose job has not ended, in order.
pub open spec fn running_snapshots(v: Seq<JobRecord>) -> Seq<JobSnapshot> {
    snapshots_of(v).filter(|s: JobSnapshot| !terminal(s.phase))
}

/// Keeping some records of a store with unique ids keeps the ids unique.
proof fn lemma_filter_keeps_unique(all: Seq<JobRecord>, p: spec_fn(JobRecord) -> bool)
    requires
        unique_ids(record_ids(all)),
    ensures
        unique_ids(record_ids(all.filter(p))),
    decreases all.len(),
{
    if all.len() > 0 {
        let init = all.drop_last();
        assert(init.push(all.last()) =~= all);
        assert(unique_ids(record_ids(init))) by {
            assert forall|a: int, b: int| 0 <= a < b < record_ids(init).len() implies record_ids(init)[a]
                != record_ids(init)[b] by {
                assert(record_ids(all)[a] != record_ids(all)[b]);
            }
        }
        lemma_filter_keeps_unique(init, p);
        init.lemma_filter_push(all.last(), p);
        if p(all.last()) {
            let f = init.filter(p);
            let g = f.push(all.last());
            assert forall|a: int, b: int| 0 <= a < b < record_ids(g).len() implies record_ids(g)[a] != record_ids(g)[b] by {
                assert(record_ids(g)[a] == g[a].snapshot.job_id@);
                assert(record_ids(g)[b] == g[b].snapshot.job_id@);
                if b < f.len() {
                    assert(record_ids(f)[a] == f[a].snapshot.job_id@);
                    assert(record_ids(f)[b] == f[b].snapshot.job_id@);
                    assert(record_ids(f)[a] != record_ids(f)[b]);
                } else {
                    assert(g[a] == f[a]);
                    assert(f.contains(f[a]));
                    init.lemma_filter_contains_rev(p, f[a]);
                    let x = choose|x: int| 0 <= x < init.len() && init[x] == f[a];
                    assert(all[x] == init[x]);
                    assert(record_ids(all)[x] == all[x].snapshot.job_id@);
                    assert(record_ids(all)[all.len() - 1] == all.last().snapshot.job_id@);
                    assert(record_ids(all)[x] != record_ids(all)[all.len() - 1]);
                }
            }
        }
    }
}

/// The message of a job that has just been queued.
pub fn queued_message(title: &str) -> (r: String)
    ensures
        r@ == "Queued download: "@ + title@,
{
    let mut out: Vec<char> = Vec::new();
    push_str(&mut out, "Queued download: ");
    push_str(&mut out, title);
    string_of(&out)
}

/// An ended job stays visible for less than the time to live, and a running
/// one stays whatever the time.
pub proof fn law_ended_jobs_expire(r: JobRecord, now_ms: u64, ttl_ms: u64)
    ensures
        r.finished_at_ms is None ==> kept(r, now_ms, ttl_ms),
        r.finished_at_ms matches Some(t) && now_ms >= t && now_ms - t >= ttl_ms ==> !kept(r, now_ms, ttl_ms),
        r.finished_at_ms matches Some(t) && now_ms >= t && now_ms - t < ttl_ms ==> kept(r, now_ms, ttl_ms),
{
}

/// A change in a job's progress, as the download service reports it.
pub struct ProgressEvent {
    pub job_id: String,
    pub source: DownloadSource,
    pub phase: JobPhase,
    pub percent: Option<u8>,
    pub message: String,
    pub detail: Option<String>,
}

/// The event of a job entering `phase`, with its message and detail and no
/// percentage.
pub fn phase_event(job_id: &str, source: DownloadSource, phase: JobPhase, message: String, detail: Option<String>) -> (r:
    ProgressEvent)
    ensures
        r.job_id@ == job_id@,
        r.source == source,
        r.phase == phase,
        r.percent is None,
        r.message == message,
        r.detail == detail,
{
    ProgressEvent { job_id: string_of(&chars_of(job_id)), source, phase, percent: None, message, detail }
}

/// The event that opens a job: queued, with the message `Queued download:
/// {title}`.
pub fn queued_event(job_id: &str, source: DownloadSource, title: &str) -> (r: ProgressEvent)
    ensures
        r.job_id@ == job_id@,
        r.source == source,
        r.phase == JobPhase::Queued,
        r.percent is None,
        r.message@ == "Queued download: "@ + title@,
        r.detail is None,
{
    phase_event(job_id, source, JobPhase::Queued, queued_message(title), None)
}

/// The event of a job that failed with `message`, which is also its detail.
pub fn failed_event(job_id: &str, source: DownloadSource, message: &str) -> (r: ProgressEvent)
    ensures
        r.job_id@ == job_id@,
        r.source == source,
        r.phase == JobPhase::Failed,
        r.percent is None,
        r.message@ == message@,
        opt_string_view(r.detail) == Some(message@),
{
    phase_event(
        job_id,
        source,
        JobPhase::Failed,
        string_of(&chars_of(message)),
        Some(string_of(&chars_of(message))),
    )
}

} // verus!
