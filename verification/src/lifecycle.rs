//! Cancellation and lifecycle control for one job.
//!
//! A job moves through validation, probing and encoding into exactly one
//! terminal state.  The decisions are pure functions from observed events
//! to the next action; the caller performs the filesystem and process work
//! (spawn, kill, sleep, rename) that each action names.  A small disk
//! model — whether the temp artifact and the destination exist — makes the
//! safety arguments precise: the destination is only ever created by the
//! single atomic rename of a successful run, and every other exit removes
//! the temp artifact.

use vstd::prelude::*;

use crate::error::CompressoError;

verus! {

/// The classification of an error, with payloads stripped.
#[derive(Debug, Clone, Copy, PartialEq, Eq, Structural)]
pub enum ErrorKind {
    NotFound,
    InvalidInput,
    InvalidOutput,
    ToolNotAvailable,
    ToolFailure,
    Cancelled,
    Corrupted,
    Io,
}

/// The kind of an error value.
pub open spec fn spec_error_kind(e: CompressoError) -> ErrorKind {
    match e {
        CompressoError::FileNotFound(_) => ErrorKind::NotFound,
        CompressoError::InvalidInput(_) => ErrorKind::InvalidInput,
        CompressoError::InvalidOutput(_) => ErrorKind::InvalidOutput,
        CompressoError::FfmpegNotFound => ErrorKind::ToolNotAvailable,
        CompressoError::FfmpegError(_) => ErrorKind::ToolFailure,
        CompressoError::Cancelled => ErrorKind::Cancelled,
        CompressoError::CorruptedVideo => ErrorKind::Corrupted,
        CompressoError::Io(_) => ErrorKind::Io,
    }
}

impl CompressoError {
    /// The classification of this error.
    pub fn kind(&self) -> (r: ErrorKind)
        ensures
            r == spec_error_kind(*self),
    {
        match self {
            CompressoError::FileNotFound(_) => ErrorKind::NotFound,
            CompressoError::InvalidInput(_) => ErrorKind::InvalidInput,
            CompressoError::InvalidOutput(_) => ErrorKind::InvalidOutput,
            CompressoError::FfmpegNotFound => ErrorKind::ToolNotAvailable,
            CompressoError::FfmpegError(_) => ErrorKind::ToolFailure,
            CompressoError::Cancelled => ErrorKind::Cancelled,
            CompressoError::CorruptedVideo => ErrorKind::Corrupted,
            CompressoError::Io(_) => ErrorKind::Io,
        }
    }
}

/// What the control loop observed in one polling round.
#[derive(Debug, Clone)]
pub enum PollEvent {
    /// The shared cancellation flag is set.
    CancelRequested,
    /// The subprocess exited with success status.
    ExitedOk,
    /// The subprocess exited with failure status; the payload is its
    /// captured stderr, which was non-empty.
    ExitedWithError(String),
    /// The subprocess exited with failure status and produced no stderr.
    ExitedNoOutput,
    /// Polling the subprocess itself failed; the payload is the OS error
    /// text.
    WaitFailed(String),
    /// The subprocess is still running.
    StillRunning,
}

/// What the control loop must do next.
#[derive(Debug, Clone)]
pub enum EncodingStep {
    /// Sleep briefly and poll again.
    Continue,
    /// The encode succeeded: perform the single atomic rename of the temp
    /// artifact to the destination.
    Finish,
    /// Terminate: kill the subprocess (idempotent), delete the temp
    /// artifact, and return this error.
    Abort(CompressoError),
}

/// The decision for one observed event.
pub open spec fn spec_encoding_step(ev: PollEvent) -> EncodingStep {
    match ev {
        PollEvent::CancelRequested => EncodingStep::Abort(CompressoError::Cancelled),
        PollEvent::ExitedOk => EncodingStep::Finish,
        PollEvent::ExitedWithError(s) => EncodingStep::Abort(CompressoError::FfmpegError(s)),
        PollEvent::ExitedNoOutput => EncodingStep::Abort(CompressoError::CorruptedVideo),
        PollEvent::WaitFailed(s) => EncodingStep::Abort(CompressoError::FfmpegError(s)),
        PollEvent::StillRunning => EncodingStep::Continue,
    }
}

/// Decides the control loop's next step from one observed event.
/// Cancellation wins over everything else; a successful exit leads to the
/// atomic rename; every failed exit cleans up.
pub fn encoding_step(ev: PollEvent) -> (r: EncodingStep)
    ensures
        r == spec_encoding_step(ev),
{
    match ev {
        PollEvent::CancelRequested => EncodingStep::Abort(CompressoError::Cancelled),
        PollEvent::ExitedOk => EncodingStep::Finish,
        PollEvent::ExitedWithError(s) => EncodingStep::Abort(CompressoError::FfmpegError(s)),
        PollEvent::ExitedNoOutput => EncodingStep::Abort(CompressoError::CorruptedVideo),
        PollEvent::WaitFailed(s) => EncodingStep::Abort(CompressoError::FfmpegError(s)),
        PollEvent::StillRunning => EncodingStep::Continue,
    }
}

/// What the overwrite probe against the destination observed.  The caller
/// runs an atomic create-new-file probe (and removes the file again when
/// it created one), so that the existence check and the eventual write
/// cannot race.
#[derive(Debug, Clone)]
pub enum OverwriteProbe {
    /// The destination did not exist; the probe created and removed it.
    Created,
    /// The destination already exists.
    AlreadyExists,
    /// The probe itself failed; the payload is the OS error text.
    ProbeError(String),
}

/// Turns the overwrite probe's observation into the job's verdict; runs
/// only when overwriting was not requested.  An existing destination
/// fails the job before any subprocess is spawned.
pub fn overwrite_gate(probe: OverwriteProbe, output_path: &str) -> (r: Result<(), CompressoError>)
    ensures
        match r {
            Ok(_) => probe is Created,
            Err(e) => match probe {
                OverwriteProbe::Created => false,
                OverwriteProbe::AlreadyExists => (e matches CompressoError::InvalidOutput(m)
                    && m@ == "File already exists: "@ + output_path@ + ". Use -y to overwrite."@),
                OverwriteProbe::ProbeError(s) => e == CompressoError::Io(s),
            },
        },
{
    match probe {
        OverwriteProbe::Created => Ok(()),
        OverwriteProbe::AlreadyExists => {
            let mut msg = String::from_str("File already exists: ");
            msg.append(output_path);
            msg.append(". Use -y to overwrite.");
            Err(CompressoError::InvalidOutput(msg))
        },
        OverwriteProbe::ProbeError(s) => Err(CompressoError::Io(s)),
    }
}

/// The two on-disk facts the safety argument tracks: whether the temp
/// artifact exists and whether the destination exists.
#[derive(Debug, Clone, Copy, PartialEq, Eq, Structural)]
pub struct DiskState {
    pub temp_exists: bool,
    pub dest_exists: bool,
}

/// How one step changes the disk: continuing touches nothing, finishing
/// is the single atomic rename (temp gone, destination present), aborting
/// removes the temp artifact and nothing else.
pub open spec fn spec_apply_step(d: DiskState, s: EncodingStep) -> DiskState {
    match s {
        EncodingStep::Continue => d,
        EncodingStep::Finish => DiskState { temp_exists: false, dest_exists: true },
        EncodingStep::Abort(_) => DiskState { temp_exists: false, dest_exists: d.dest_exists },
    }
}

/// The terminal result of a run of the control loop.
#[derive(Debug, Clone, Copy, PartialEq, Eq, Structural)]
pub enum RunResult {
    /// The event stream ended without a terminal event.
    Unfinished,
    Succeeded,
    Failed(ErrorKind),
}

/// Folds the control loop over an event stream: events are taken in
/// order, the loop stops at the first terminal decision, and each step's
/// disk effect is applied.
pub open spec fn spec_encoding_run(d: DiskState, evs: Seq<PollEvent>) -> (RunResult, DiskState)
    decreases evs.len(),
{
    if evs.len() == 0 {
        (RunResult::Unfinished, d)
    } else {
        match spec_encoding_step(evs[0]) {
            EncodingStep::Continue => spec_encoding_run(d, evs.skip(1)),
            EncodingStep::Finish => (
                RunResult::Succeeded,
                spec_apply_step(d, EncodingStep::Finish),
            ),
            EncodingStep::Abort(e) => (
                RunResult::Failed(spec_error_kind(e)),
                spec_apply_step(d, EncodingStep::Abort(e)),
            ),
        }
    }
}

/// How many times a run performs the atomic rename.
pub open spec fn spec_promote_count(evs: Seq<PollEvent>) -> int
    decreases evs.len(),
{
    if evs.len() == 0 {
        0
    } else {
        match spec_encoding_step(evs[0]) {
            EncodingStep::Continue => spec_promote_count(evs.skip(1)),
            EncodingStep::Finish => 1,
            EncodingStep::Abort(_) => 0,
        }
    }
}

/// The whole job as a function of what the world presented: whether the
/// destination validation rejected the path, whether the destination
/// already existed, whether overwriting was requested, how the probe of
/// the source media went, and the events the encoding loop then observed.
/// Validation and probing failures terminate the job before any
/// subprocess is spawned, with the disk untouched.
pub open spec fn spec_job_run(
    output_forbidden: bool,
    dest_exists: bool,
    overwrite: bool,
    probe_error: Option<ErrorKind>,
    evs: Seq<PollEvent>,
) -> (RunResult, DiskState) {
    let d0 = DiskState { temp_exists: false, dest_exists: dest_exists };
    if output_forbidden {
        (RunResult::Failed(ErrorKind::InvalidOutput), d0)
    } else if dest_exists && !overwrite {
        (RunResult::Failed(ErrorKind::InvalidOutput), d0)
    } else {
        match probe_error {
            Some(k) => (RunResult::Failed(k), d0),
            None => {
                let spawned = DiskState { temp_exists: true, dest_exists: dest_exists };
                spec_encoding_run(spawned, evs)
            },
        }
    }
}

/// Whatever the event stream, a run that succeeds leaves exactly the
/// destination (no temp artifact); a run that fails leaves no temp
/// artifact and the destination as it found it; a run that never ends
/// changes nothing.
pub proof fn lemma_encoding_run_disk(d: DiskState, evs: Seq<PollEvent>)
    ensures
        spec_encoding_run(d, evs).0 is Succeeded ==> spec_encoding_run(d, evs).1 == (DiskState {
            temp_exists: false,
            dest_exists: true,
        }),
        spec_encoding_run(d, evs).0 is Failed ==> spec_encoding_run(d, evs).1 == (DiskState {
            temp_exists: false,
            dest_exists: d.dest_exists,
        }),
        spec_encoding_run(d, evs).0 is Unfinished ==> spec_encoding_run(d, evs).1 == d,
    decreases evs.len(),
{
    if evs.len() > 0 {
        match spec_encoding_step(evs[0]) {
            EncodingStep::Continue => {
                lemma_encoding_run_disk(d, evs.skip(1));
            },
            _ => {},
        }
    }
}

/// A destination that already exists, without overwrite permission, fails
/// the job with `InvalidOutput` before any subprocess is spawned: no temp
/// artifact is ever created and the existing destination is untouched.
pub proof fn lemma_existing_destination_untouched(probe_error: Option<ErrorKind>, evs: Seq<PollEvent>)
    ensures
        spec_job_run(false, true, false, probe_error, evs).0 == RunResult::Failed(
            ErrorKind::InvalidOutput,
        ),
        spec_job_run(false, true, false, probe_error, evs).1 == (DiskState {
            temp_exists: false,
            dest_exists: true,
        }),
{
}

/// With overwrite permission, a job against an existing destination that
/// runs to success replaces the destination: the completed artifact stands
/// there and no temp artifact remains.
pub proof fn lemma_overwrite_replaces(dest_exists: bool, evs: Seq<PollEvent>)
    requires
        spec_job_run(false, dest_exists, true, None, evs).0 is Succeeded,
    ensures
        spec_job_run(false, dest_exists, true, None, evs).1 == (DiskState {
            temp_exists: false,
            dest_exists: true,
        }),
{
    let spawned = DiskState { temp_exists: true, dest_exists: dest_exists };
    lemma_encoding_run_disk(spawned, evs);
}

/// A destination that validation rejects (for example one whose resolved
/// parent is a filesystem root) fails the job with `InvalidOutput` before
/// any subprocess is spawned, whatever would have happened afterwards.
pub proof fn lemma_forbidden_destination_rejected(
    dest_exists: bool,
    overwrite: bool,
    probe_error: Option<ErrorKind>,
    evs: Seq<PollEvent>,
)
    ensures
        spec_job_run(true, dest_exists, overwrite, probe_error, evs).0 == RunResult::Failed(
            ErrorKind::InvalidOutput,
        ),
        spec_job_run(true, dest_exists, overwrite, probe_error, evs).1 == (DiskState {
            temp_exists: false,
            dest_exists: dest_exists,
        }),
{
}

/// A probe that fails (source media missing or unreadable) terminates the
/// job with its classification before any subprocess is spawned, with the
/// disk untouched.
pub proof fn lemma_probe_failure_rejected(
    dest_exists: bool,
    overwrite: bool,
    kind: ErrorKind,
    evs: Seq<PollEvent>,
)
    requires
        !(dest_exists && !overwrite),
    ensures
        spec_job_run(false, dest_exists, overwrite, Some(kind), evs).0 == RunResult::Failed(kind),
        spec_job_run(false, dest_exists, overwrite, Some(kind), evs).1 == (DiskState {
            temp_exists: false,
            dest_exists: dest_exists,
        }),
{
}

/// Cancellation observed after the subprocess has started ends the job as
/// `Cancelled`, with no temp artifact left and the destination exactly as
/// it was before the job — in particular, when no destination existed
/// before, none exists afterwards.
pub proof fn lemma_cancel_cleans_up(
    dest_exists: bool,
    overwrite: bool,
    evs: Seq<PollEvent>,
    i: int,
)
    requires
        !(dest_exists && !overwrite),
        0 <= i < evs.len(),
        forall|j: int| 0 <= j < i ==> evs[j] is StillRunning,
        evs[i] is CancelRequested,
    ensures
        spec_job_run(false, dest_exists, overwrite, None, evs).0 == RunResult::Failed(
            ErrorKind::Cancelled,
        ),
        spec_job_run(false, dest_exists, overwrite, None, evs).1 == (DiskState {
            temp_exists: false,
            dest_exists: dest_exists,
        }),
{
    let spawned = DiskState { temp_exists: true, dest_exists: dest_exists };
    lemma_cancel_run(spawned, evs, i);
}

proof fn lemma_cancel_run(d: DiskState, evs: Seq<PollEvent>, i: int)
    requires
        0 <= i < evs.len(),
        forall|j: int| 0 <= j < i ==> evs[j] is StillRunning,
        evs[i] is CancelRequested,
    ensures
        spec_encoding_run(d, evs).0 == RunResult::Failed(ErrorKind::Cancelled),
        spec_encoding_run(d, evs).1 == (DiskState {
            temp_exists: false,
            dest_exists: d.dest_exists,
        }),
    decreases evs.len(),
{
    if i == 0 {
    } else {
        assert(evs[0] is StillRunning);
        let t = evs.skip(1);
        assert(forall|j: int| 0 <= j < i - 1 ==> t[j] == evs[j + 1] && evs[j + 1] is StillRunning);
        assert(t[i - 1] == evs[i]);
        lemma_cancel_run(d, t, i - 1);
    }
}

/// A successful run performs the atomic rename exactly once, as its last
/// action, and the rename is the only step that ever creates the
/// destination.
pub proof fn lemma_success_single_rename(d: DiskState, evs: Seq<PollEvent>)
    requires
        spec_encoding_run(d, evs).0 is Succeeded,
    ensures
        spec_promote_count(evs) == 1,
        spec_encoding_run(d, evs).1 == (DiskState { temp_exists: false, dest_exists: true }),
    decreases evs.len(),
{
    lemma_encoding_run_disk(d, evs);
    if evs.len() > 0 {
        match spec_encoding_step(evs[0]) {
            EncodingStep::Continue => {
                lemma_success_single_rename(d, evs.skip(1));
            },
            _ => {},
        }
    }
}

/// A run that does not succeed never performs the rename at all.
pub proof fn lemma_no_success_no_rename(d: DiskState, evs: Seq<PollEvent>)
    requires
        !(spec_encoding_run(d, evs).0 is Succeeded),
    ensures
        spec_promote_count(evs) == 0,
    decreases evs.len(),
{
    if evs.len() > 0 {
        match spec_encoding_step(evs[0]) {
            EncodingStep::Continue => {
                lemma_no_success_no_rename(d, evs.skip(1));
            },
            _ => {},
        }
    }
}

} // verus!
