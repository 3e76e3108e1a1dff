//! Task construction and the per-task execution rules: one validated,
//! independent unit of work per asset reference, in download-to-disk or
//! upload-to-storage mode. The step functions decide what a running
//! task does next from the answers its collaborators give; the host
//! process performs the network and filesystem work and feeds the
//! answers back.

use vstd::prelude::*;

use crate::text::{
    spec_starts_with, spec_strip_slashes, spec_trim, starts_with, strip_leading_slashes, trim,
};
use crate::utils::{
    resolve, resolve_cased, spec_asset_prefix, spec_config_version, spec_resolve,
    spec_resolve_cased, Config,
};

verus! {

/// Why a task could not be built, or why a run of it failed.
#[derive(Debug, Clone, Copy, PartialEq, Eq, Structural)]
pub enum TaskError {
    /// The reference is empty or misses the required prefix after
    /// trimming; rejected before any work starts.
    InvalidReference,
    /// The download destination is already present; a skip signal, not
    /// a failure.
    AlreadyExists,
    /// A network fetch or upload failed; triggers the fallback for
    /// uploads, terminal for downloads.
    TransportError,
    /// The local filesystem write failed; terminal.
    IOError,
    /// The storage collaborator's configuration is incomplete; surfaced
    /// before any task runs.
    ConfigurationError,
}

/// The terminal state of one task.
#[derive(Debug, Clone, Copy, PartialEq, Eq, Structural)]
pub enum Outcome {
    Succeeded,
    SkippedExisting,
    Failed(TaskError),
}

/// A reference is accepted exactly when, after trimming, it is
/// non-empty and starts with the fixed asset prefix.
pub open spec fn spec_valid_reference(s: Seq<char>) -> bool {
    spec_trim(s).len() > 0 && spec_starts_with(spec_trim(s), spec_asset_prefix())
}

/// A filesystem path under a base directory: the base, a separator
/// unless one is already there, then the relative path.
pub open spec fn spec_join(base: Seq<char>, rel: Seq<char>) -> Seq<char> {
    if base.len() == 0 {
        rel
    } else if base.last() == '/' {
        base + rel
    } else {
        base + "/"@ + rel
    }
}

/// Joins a relative path onto a base directory.
pub fn join_path(base: &str, rel: &str) -> (r: String)
    ensures
        r@ == spec_join(base@, rel@),
{
    let bn = base.unicode_len();
    if bn == 0 {
        return String::from_str(rel);
    }
    let mut out = String::from_str(base);
    if base.get_char(bn - 1) != '/' {
        out.append("/");
    }
    out.append(rel);
    out
}

/// One upload-to-storage unit of work: mirror the asset behind
/// `reference` into object storage under `key`, fetching from the
/// primary host first and from the fallback host when that fails.
#[derive(Debug, Clone, PartialEq)]
pub struct UploadTask {
    /// The validated, trimmed asset reference.
    pub reference: String,
    /// The destination key: the reference without its leading
    /// separators, casing preserved.
    pub key: String,
    /// The resolved URL on the preferred host.
    pub primary_url: String,
    /// The resolved URL on the fallback host, same path.
    pub fallback_url: String,
}

/// One download-to-disk unit of work: fetch the asset behind
/// `reference` and write it to `save_path`, unless that path already
/// exists.
#[derive(Debug, Clone, PartialEq)]
pub struct DownloadTask {
    /// The validated, trimmed asset reference.
    pub reference: String,
    /// The resolved URL on the preferred host, the reference's casing
    /// kept.
    pub url: String,
    /// The destination: the base directory joined with the reference's
    /// path, separators preserved.
    pub save_path: String,
}

/// What a running task asks its host to do next.
#[derive(Debug, Clone, PartialEq)]
pub enum UploadDecision {
    /// The task reached a terminal state.
    Finish(Outcome),
    /// Upload from this source URL to this destination key.
    Upload(String, String),
}

/// What a running download task asks its host to do next.
#[derive(Debug, Clone, PartialEq)]
pub enum DownloadDecision {
    /// The task reached a terminal state.
    Finish(Outcome),
    /// Fetch the bytes behind this URL.
    Fetch(String),
    /// Write the fetched bytes to this path.
    Save(String),
}

/// The outcome one upload run reaches, given whether the primary and
/// the fallback upload succeeded.
pub open spec fn spec_upload_outcome(primary_ok: bool, fallback_ok: bool) -> Outcome {
    if primary_ok {
        Outcome::Succeeded
    } else if fallback_ok {
        Outcome::Succeeded
    } else {
        Outcome::Failed(TaskError::TransportError)
    }
}

/// The outcome one download run reaches, given whether the destination
/// existed and whether the fetch and the write succeeded.
pub open spec fn spec_download_outcome(dest_exists: bool, fetch_ok: bool, save_ok: bool) -> Outcome {
    if dest_exists {
        Outcome::SkippedExisting
    } else if !fetch_ok {
        Outcome::Failed(TaskError::TransportError)
    } else if !save_ok {
        Outcome::Failed(TaskError::IOError)
    } else {
        Outcome::Succeeded
    }
}

impl UploadTask {
    /// The fields fit together: a validated reference and the key
    /// derived from it.
    pub open spec fn wf(&self) -> bool {
        &&& self.reference@.len() > 0
        &&& spec_starts_with(self.reference@, spec_asset_prefix())
        &&& self.key@ == spec_strip_slashes(self.reference@)
    }

    pub open spec fn spec_start(&self) -> UploadDecision {
        UploadDecision::Upload(self.primary_url, self.key)
    }

    /// The first step: upload from the primary URL to the key.
    pub fn start(&self) -> (d: UploadDecision)
        ensures
            d == self.spec_start(),
    {
        UploadDecision::Upload(self.primary_url.clone(), self.key.clone())
    }

    pub open spec fn spec_after_primary(&self, ok: bool) -> UploadDecision {
        if ok {
            UploadDecision::Finish(Outcome::Succeeded)
        } else {
            UploadDecision::Upload(self.fallback_url, self.key)
        }
    }

    /// After the primary upload: done on success, otherwise retry once
    /// from the fallback URL to the same key.
    pub fn after_primary(&self, ok: bool) -> (d: UploadDecision)
        ensures
            d == self.spec_after_primary(ok),
    {
        if ok {
            UploadDecision::Finish(Outcome::Succeeded)
        } else {
            UploadDecision::Upload(self.fallback_url.clone(), self.key.clone())
        }
    }

    /// After the fallback upload: done either way.
    pub fn after_fallback(&self, ok: bool) -> (o: Outcome)
        ensures
            o == spec_upload_outcome(false, ok),
    {
        if ok {
            Outcome::Succeeded
        } else {
            Outcome::Failed(TaskError::TransportError)
        }
    }

    /// One whole run, the steps composed: the outcome an upload task
    /// reaches when its primary and fallback uploads answer as given.
    pub fn run(&self, primary_ok: bool, fallback_ok: bool) -> (o: Outcome)
        ensures
            o == spec_upload_outcome(primary_ok, fallback_ok),
    {
        match self.after_primary(primary_ok) {
            UploadDecision::Finish(o) => o,
            UploadDecision::Upload(_, _) => self.after_fallback(fallback_ok),
        }
    }
}

impl DownloadTask {
    /// The fields fit together: a validated reference.
    pub open spec fn wf(&self) -> bool {
        &&& self.reference@.len() > 0
        &&& spec_starts_with(self.reference@, spec_asset_prefix())
    }

    /// The builder-side idempotency gate: once the host has looked at
    /// the computed destination, an existing one short-circuits the
    /// task with `AlreadyExists` before any concurrent work starts, so
    /// it never reaches the orchestrator as a running task. A skip
    /// signal, not a failure.
    pub fn gate_existing(self, dest_exists: bool) -> (r: Result<DownloadTask, TaskError>)
        ensures
            dest_exists <==> r is Err,
            r matches Err(e) ==> e == TaskError::AlreadyExists,
            r matches Ok(t) ==> t == self,
    {
        if dest_exists {
            Err(TaskError::AlreadyExists)
        } else {
            Ok(self)
        }
    }

    pub open spec fn spec_on_destination(&self, exists: bool) -> DownloadDecision {
        if exists {
            DownloadDecision::Finish(Outcome::SkippedExisting)
        } else {
            DownloadDecision::Fetch(self.url)
        }
    }

    /// The first step, after the host looked at the destination: skip
    /// without touching the network when it exists, fetch otherwise.
    pub fn on_destination(&self, exists: bool) -> (d: DownloadDecision)
        ensures
            d == self.spec_on_destination(exists),
    {
        if exists {
            DownloadDecision::Finish(Outcome::SkippedExisting)
        } else {
            DownloadDecision::Fetch(self.url.clone())
        }
    }

    pub open spec fn spec_on_fetch(&self, ok: bool) -> DownloadDecision {
        if ok {
            DownloadDecision::Save(self.save_path)
        } else {
            DownloadDecision::Finish(Outcome::Failed(TaskError::TransportError))
        }
    }

    /// After the fetch: write the bytes on success, fail terminally on
    /// a transport error (no fallback for local downloads).
    pub fn on_fetch(&self, ok: bool) -> (d: DownloadDecision)
        ensures
            d == self.spec_on_fetch(ok),
    {
        if ok {
            DownloadDecision::Save(self.save_path.clone())
        } else {
            DownloadDecision::Finish(Outcome::Failed(TaskError::TransportError))
        }
    }

    /// After the write: done, or a terminal filesystem failure.
    pub fn on_save(&self, ok: bool) -> (o: Outcome)
        ensures
            ok ==> o == Outcome::Succeeded,
            !ok ==> o == Outcome::Failed(TaskError::IOError),
    {
        if ok {
            Outcome::Succeeded
        } else {
            Outcome::Failed(TaskError::IOError)
        }
    }

    /// One whole run, the steps composed: the outcome a download task
    /// reaches when destination check, fetch and write answer as given.
    pub fn run(&self, dest_exists: bool, fetch_ok: bool, save_ok: bool) -> (o: Outcome)
        ensures
            o == spec_download_outcome(dest_exists, fetch_ok, save_ok),
    {
        match self.on_destination(dest_exists) {
            DownloadDecision::Finish(o) => o,
            _ => match self.on_fetch(fetch_ok) {
                DownloadDecision::Finish(o) => o,
                _ => self.on_save(save_ok),
            },
        }
    }
}

/// Builds one upload task. The single validation gate: the trimmed
/// reference must be non-empty and carry the asset prefix, else the
/// construction fails with `InvalidReference` and nothing runs.
pub fn to_edge_task(url: &str, config: &Config, primary_host: &str, fallback_host: &str) -> (r:
    Result<UploadTask, TaskError>)
    ensures
        r is Ok <==> spec_valid_reference(url@),
        r matches Err(e) ==> e == TaskError::InvalidReference,
        r matches Ok(t) ==> {
            &&& t.wf()
            &&& t.reference@ == spec_trim(url@)
            &&& t.key@ == spec_strip_slashes(spec_trim(url@))
            &&& t.primary_url@ == spec_resolve(
                spec_trim(url@),
                spec_config_version(*config),
                primary_host@,
            )
            &&& t.fallback_url@ == spec_resolve(
                spec_trim(url@),
                spec_config_version(*config),
                fallback_host@,
            )
        },
{
    let trimmed = trim(url);
    if trimmed.unicode_len() == 0 || !starts_with(trimmed, "/lol-game-data/assets/") {
        return Err(TaskError::InvalidReference);
    }
    let name = strip_leading_slashes(trimmed);
    let primary_url = resolve(trimmed, config, primary_host);
    let fallback_url = resolve(trimmed, config, fallback_host);
    Ok(
        UploadTask {
            reference: String::from_str(trimmed),
            key: String::from_str(name),
            primary_url,
            fallback_url,
        },
    )
}

/// Builds one download task. The same validation gate guards it; the
/// destination is the base directory joined with the reference's path,
/// leading separators stripped.
pub fn to_download_task(url: &str, config: &Config, base_path: &str, host: &str) -> (r: Result<
    DownloadTask,
    TaskError,
>)
    ensures
        r is Ok <==> spec_valid_reference(url@),
        r matches Err(e) ==> e == TaskError::InvalidReference,
        r matches Ok(t) ==> {
            &&& t.wf()
            &&& t.reference@ == spec_trim(url@)
            &&& t.url@ == spec_resolve_cased(spec_trim(url@), spec_config_version(*config), host@)
            &&& t.save_path@ == spec_join(base_path@, spec_strip_slashes(spec_trim(url@)))
        },
{
    let trimmed = trim(url);
    if trimmed.unicode_len() == 0 || !starts_with(trimmed, "/lol-game-data/assets/") {
        return Err(TaskError::InvalidReference);
    }
    let rel = strip_leading_slashes(trimmed);
    let save_path = join_path(base_path, rel);
    let url_resolved = resolve_cased(trimmed, config, host);
    Ok(
        DownloadTask {
            reference: String::from_str(trimmed),
            url: url_resolved,
            save_path,
        },
    )
}

/// One unit of work of either mode.
#[derive(Debug, Clone, PartialEq)]
pub enum Task {
    Download(DownloadTask),
    Upload(UploadTask),
}

/// The answers one task's collaborators give during a run; a task reads
/// only the fields its own mode asks about.
#[derive(Debug, Clone, Copy, PartialEq, Eq, Structural)]
pub struct TaskEvents {
    pub dest_exists: bool,
    pub fetch_ok: bool,
    pub save_ok: bool,
    pub primary_ok: bool,
    pub fallback_ok: bool,
}

/// The outcome one task reaches under its own events alone.
pub open spec fn spec_run_one(t: Task, e: TaskEvents) -> Outcome {
    match t {
        Task::Download(_) => spec_download_outcome(e.dest_exists, e.fetch_ok, e.save_ok),
        Task::Upload(_) => spec_upload_outcome(e.primary_ok, e.fallback_ok),
    }
}

/// The outcomes of a whole batch: one per task, each from its own task
/// and events alone.
pub open spec fn spec_run_all(tasks: Seq<Task>, events: Seq<TaskEvents>) -> Seq<Outcome> {
    Seq::new(tasks.len(), |i: int| spec_run_one(tasks[i], events[i]))
}

/// Runs one task to its terminal state under the given answers.
pub fn run_one(t: &Task, e: &TaskEvents) -> (o: Outcome)
    ensures
        o == spec_run_one(*t, *e),
{
    match t {
        Task::Download(d) => d.run(e.dest_exists, e.fetch_ok, e.save_ok),
        Task::Upload(u) => u.run(e.primary_ok, e.fallback_ok),
    }
}

/// The orchestrator's aggregation: every task of the batch reaches a
/// terminal state and contributes exactly one outcome, each computed
/// from that task and its own events alone, so no task's failure can
/// abort or alter a sibling.
pub fn run_all(tasks: &Vec<Task>, events: &Vec<TaskEvents>) -> (outs: Vec<Outcome>)
    requires
        tasks@.len() == events@.len(),
    ensures
        outs@ == spec_run_all(tasks@, events@),
{
    let mut outs: Vec<Outcome> = Vec::new();
    let mut i: usize = 0;
    while i < tasks.len()
        invariant
            i <= tasks@.len(),
            tasks@.len() == events@.len(),
            outs@.len() == i,
            forall|j: int| 0 <= j < i ==> outs@[j] == spec_run_one(tasks@[j], events@[j]),
        decreases tasks@.len() - i,
    {
        let o = run_one(&tasks[i], &events[i]);
        outs.push(o);
        i += 1;
    }
    proof {
        assert(outs@ =~= spec_run_all(tasks@, events@));
    }
    outs
}

/// How many of a batch's outcomes succeeded.
pub open spec fn spec_count_succeeded(outs: Seq<Outcome>) -> int
    decreases outs.len(),
{
    if outs.len() == 0 {
        0
    } else {
        spec_count_succeeded(outs.drop_last()) + if outs.last() is Succeeded {
            1int
        } else {
            0int
        }
    }
}

/// How many of a batch's outcomes were skipped as already present.
pub open spec fn spec_count_skipped(outs: Seq<Outcome>) -> int
    decreases outs.len(),
{
    if outs.len() == 0 {
        0
    } else {
        spec_count_skipped(outs.drop_last()) + if outs.last() is SkippedExisting {
            1int
        } else {
            0int
        }
    }
}

/// How many of a batch's outcomes failed.
pub open spec fn spec_count_failed(outs: Seq<Outcome>) -> int
    decreases outs.len(),
{
    if outs.len() == 0 {
        0
    } else {
        spec_count_failed(outs.drop_last()) + if outs.last() is Failed {
            1int
        } else {
            0int
        }
    }
}

/// The aggregate report of one batch.
#[derive(Debug, Clone, Copy, PartialEq, Eq, Structural)]
pub struct Summary {
    pub succeeded: usize,
    pub skipped: usize,
    pub failed: usize,
}

/// Aggregates a batch's outcomes: every outcome is counted exactly
/// once, under exactly one of the three terminal kinds.
pub fn summarize(outs: &Vec<Outcome>) -> (s: Summary)
    ensures
        s.succeeded == spec_count_succeeded(outs@),
        s.skipped == spec_count_skipped(outs@),
        s.failed == spec_count_failed(outs@),
        s.succeeded + s.skipped + s.failed == outs@.len(),
{
    let mut succeeded: usize = 0;
    let mut skipped: usize = 0;
    let mut failed: usize = 0;
    let mut i: usize = 0;
    while i < outs.len()
        invariant
            i <= outs@.len(),
            succeeded == spec_count_succeeded(outs@.subrange(0, i as int)),
            skipped == spec_count_skipped(outs@.subrange(0, i as int)),
            failed == spec_count_failed(outs@.subrange(0, i as int)),
            succeeded + skipped + failed == i,
        decreases outs@.len() - i,
    {
        proof {
            let pre = outs@.subrange(0, i as int + 1);
            assert(pre.drop_last() =~= outs@.subrange(0, i as int));
            assert(pre.last() == outs@[i as int]);
        }
        match outs[i] {
            Outcome::Succeeded => {
                succeeded += 1;
            },
            Outcome::SkippedExisting => {
                skipped += 1;
            },
            Outcome::Failed(_) => {
                failed += 1;
            },
        }
        i += 1;
    }
    proof {
        assert(outs@.subrange(0, outs@.len() as int) =~= outs@);
    }
    Summary { succeeded, skipped, failed }
}

/// A download task whose destination already exists is skipped: the
/// outcome is `SkippedExisting` whatever the network or filesystem
/// would have answered, so a second run against the same destination
/// makes no fetch and leaves the first run's file untouched.
pub proof fn lemma_download_idempotent(f1: bool, s1: bool, f2: bool, s2: bool)
    ensures
        spec_download_outcome(true, f1, s1) == Outcome::SkippedExisting,
        spec_download_outcome(true, f1, s1) == spec_download_outcome(true, f2, s2),
{
}

/// An upload task whose primary upload fails attempts the fallback URL
/// against the same key before any terminal outcome, and succeeds when
/// the fallback succeeds.
pub proof fn lemma_upload_fallback(t: UploadTask)
    ensures
        t.spec_after_primary(false) == UploadDecision::Upload(t.fallback_url, t.key),
        !(t.spec_after_primary(false) is Finish),
        spec_upload_outcome(false, true) == Outcome::Succeeded,
{
}

/// Isolation: in a batch, task `k`'s outcome and the batch's size
/// depend only on task `k` and its own events. However the siblings'
/// events change — a task built to always fail included — every task
/// still gets an outcome and task `k`'s outcome is the same.
pub proof fn lemma_isolation(
    tasks: Seq<Task>,
    e1: Seq<TaskEvents>,
    e2: Seq<TaskEvents>,
    k: int,
)
    requires
        e1.len() == tasks.len(),
        e2.len() == tasks.len(),
        0 <= k < tasks.len(),
        e1[k] == e2[k],
    ensures
        spec_run_all(tasks, e1).len() == tasks.len(),
        spec_run_all(tasks, e2).len() == tasks.len(),
        spec_run_all(tasks, e1)[k] == spec_run_all(tasks, e2)[k],
{
}

/// The storage collaborator's configuration, injected at startup. Its
/// absence is a construction-time failure, found once before any task
/// runs.
#[derive(Debug, Clone, PartialEq)]
pub struct StorageConfig {
    pub endpoint: String,
    pub access_key: String,
    pub secret_key: String,
    pub bucket: String,
}

impl StorageConfig {
    /// Builds the storage configuration from the ambient values the
    /// host process found; any missing one fails with
    /// `ConfigurationError` before a task is spawned.
    pub fn from_values(
        endpoint: Option<String>,
        access_key: Option<String>,
        secret_key: Option<String>,
        bucket: Option<String>,
    ) -> (r: Result<StorageConfig, TaskError>)
        ensures
            r is Ok <==> (endpoint is Some && access_key is Some && secret_key is Some
                && bucket is Some),
            r matches Err(e) ==> e == TaskError::ConfigurationError,
            r matches Ok(c) ==> {
                &&& c.endpoint == endpoint->0
                &&& c.access_key == access_key->0
                &&& c.secret_key == secret_key->0
                &&& c.bucket == bucket->0
            },
    {
        match (endpoint, access_key, secret_key, bucket) {
            (Some(endpoint), Some(access_key), Some(secret_key), Some(bucket)) => Ok(
                StorageConfig { endpoint, access_key, secret_key, bucket },
            ),
            _ => Err(TaskError::ConfigurationError),
        }
    }
}

} // verus!
