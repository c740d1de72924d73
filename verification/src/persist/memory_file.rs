//! Guest memory that is restored from a file.

use super::error::{GuestMemoryFromFileError, MemoryError};
use crate::outside::new_io_error;
use crate::vstate::memory::GuestMemoryState;
use vstd::pervasive::unreached;
use vstd::prelude::*;

verus! {

/// The request that clones the extents of one file into another (`_IOW(0x94, 9, int)`).
pub const FICLONE: u64 = 0x4004_9409u64;

/// Why a live file is given up: not as many bytes were copied as the source held.
pub const SOURCE_CHANGED: &'static str = "checkpoint memory changed while copying";

/// What the caller does next to map a memory file.
#[derive(Debug)]
pub enum FileAction {
    /// Open the memory file.
    Open {
        /// Path of the file.
        path: String,
    },
    /// Map the open file privately.
    MapPrivate {
        /// Address and size of each region, in the order in which the file holds them.
        regions: Vec<(u64, usize)>,
        /// Whether dirty pages are tracked.
        track_dirty_pages: bool,
    },
    /// Guest memory is there, or it could not be restored.
    Finished(Result<(), GuestMemoryFromFileError>),
}

/// What came of the action that was asked for.
#[derive(Debug)]
pub enum FileEvent {
    /// The memory file was opened, or could not be opened.
    Opened(Result<(), std::io::Error>),
    /// The file was mapped, or could not be mapped.
    Mapped(Result<(), MemoryError>),
}

/// How far the mapping of a memory file has come.
#[derive(Debug)]
pub enum FilePhase {
    /// The file is being opened; the regions are mapped next.
    Opening(Vec<(u64, usize)>),
    /// The file is being mapped.
    Mapping,
    /// Nothing is left to do.
    Done,
}

/// A memory file that is being mapped, between two actions of the caller.
#[derive(Debug)]
pub struct FileJob {
    /// Whether dirty pages are tracked.
    pub track_dirty_pages: bool,
    /// The pending action.
    pub phase: FilePhase,
}

/// Whether an event tells what came of the pending action.
pub open spec fn file_event_fits(job: FileJob, event: FileEvent) -> bool {
    match event {
        FileEvent::Opened(_) => job.phase is Opening,
        FileEvent::Mapped(_) => job.phase is Mapping,
    }
}

/// How far the mapping of a memory file has come after an event, and what is asked for next.
pub open spec fn file_next(job: FileJob, event: FileEvent) -> (FileJob, FileAction) {
    match event {
        FileEvent::Opened(Ok(())) => (
            FileJob { phase: FilePhase::Mapping, ..job },
            FileAction::MapPrivate {
                regions: job.phase->Opening_0,
                track_dirty_pages: job.track_dirty_pages,
            },
        ),
        FileEvent::Opened(Err(e)) => (
            FileJob { phase: FilePhase::Done, ..job },
            FileAction::Finished(Err(GuestMemoryFromFileError::File(e))),
        ),
        FileEvent::Mapped(Ok(())) => (
            FileJob { phase: FilePhase::Done, ..job },
            FileAction::Finished(Ok(())),
        ),
        FileEvent::Mapped(Err(e)) => (
            FileJob { phase: FilePhase::Done, ..job },
            FileAction::Finished(Err(GuestMemoryFromFileError::Restore(e))),
        ),
    }
}

/// Restores guest memory by mapping a memory file privately.
pub fn guest_memory_from_file(
    mem_file_path: &String,
    mem_state: &GuestMemoryState,
    track_dirty_pages: bool,
) -> (started: (FileJob, FileAction))
    ensures
        started.0.track_dirty_pages == track_dirty_pages,
        started.0.phase matches FilePhase::Opening(regions) && regions@
            == crate::vstate::memory::region_layout(mem_state.regions@),
        started.1 == (FileAction::Open { path: *mem_file_path }),
{
    let phase = FilePhase::Opening(mem_state.regions());
    (FileJob { track_dirty_pages, phase }, FileAction::Open { path: mem_file_path.clone() })
}

impl FileJob {
    /// Takes what came of the pending action and says what to do next.
    pub fn step(self, event: FileEvent) -> (next: (FileJob, FileAction))
        requires
            file_event_fits(self, event),
        ensures
            next == file_next(self, event),
    {
        let FileJob { track_dirty_pages, phase } = self;
        let done = FileJob { track_dirty_pages, phase: FilePhase::Done };
        match event {
            FileEvent::Opened(Ok(())) => match phase {
                FilePhase::Opening(regions) => (
                    FileJob { track_dirty_pages, phase: FilePhase::Mapping },
                    FileAction::MapPrivate { regions, track_dirty_pages },
                ),
                _ => unreached(),
            },
            FileEvent::Opened(Err(e)) => (
                done,
                FileAction::Finished(Err(GuestMemoryFromFileError::File(e))),
            ),
            FileEvent::Mapped(Ok(())) => (done, FileAction::Finished(Ok(()))),
            FileEvent::Mapped(Err(e)) => (
                done,
                FileAction::Finished(Err(GuestMemoryFromFileError::Restore(e))),
            ),
        }
    }
}

/// A step of setting up a live memory file.
#[derive(Debug, Clone, Copy, PartialEq, Eq, Structural)]
pub enum SharedStep {
    /// See whether the live file exists.
    CheckTarget,
    /// Open the source.
    OpenSource,
    /// See whether the source is a regular file.
    CheckSource,
    /// Create the live file.
    CreateTarget,
    /// Clone the extents of the source.
    CloneExtents,
    /// Empty the live file.
    TruncateTarget,
    /// Go to the start of the source.
    RewindSource,
    /// Go to the start of the live file.
    RewindTarget,
    /// Measure the source.
    MeasureSource,
    /// Copy the source.
    CopySource,
    /// Map the live file.
    MapTarget,
}

/// What the caller does next to set up a live memory file.
#[derive(Debug)]
pub enum SharedFileAction {
    /// See whether a file exists at the path.
    CheckTarget {
        /// Path of the live file.
        path: String,
    },
    /// Open the source for reading.
    OpenSource {
        /// Path of the source.
        path: String,
    },
    /// See whether the open source is a regular file.
    CheckSource,
    /// Create the live file, which must not exist, for reading and writing.
    CreateTarget {
        /// Path of the live file.
        path: String,
    },
    /// Clone the extents of the source into the live file, by [`FICLONE`].
    CloneExtents,
    /// Empty the live file.
    TruncateTarget,
    /// Go to the start of the source.
    RewindSource,
    /// Go to the start of the live file.
    RewindTarget,
    /// Measure the source.
    MeasureSource,
    /// Copy the source to the live file.
    CopySource,
    /// Map the live file shared.
    MapTarget {
        /// Address and size of each region, in the order in which the file holds them.
        regions: Vec<(u64, usize)>,
        /// Whether dirty pages are tracked.
        track_dirty_pages: bool,
    },
    /// Remove the live file; whether that succeeds does not matter.
    RemoveTarget {
        /// Path of the live file.
        path: String,
    },
    /// Guest memory is there, or it could not be restored.
    Finished(Result<(), GuestMemoryFromFileError>),
}

/// What came of the action that was asked for.
#[derive(Debug)]
pub enum SharedFileEvent {
    /// Whether the live file exists.
    TargetChecked(bool),
    /// The source was opened, or could not be opened.
    SourceOpened(Result<(), std::io::Error>),
    /// Whether the source is a regular file, or it could not be told.
    SourceChecked(Result<bool, std::io::Error>),
    /// The live file was created, or could not be created.
    TargetCreated(Result<(), std::io::Error>),
    /// Whether the extents were cloned.
    ExtentsCloned(bool),
    /// The live file was emptied, or could not be emptied.
    TargetTruncated(Result<(), std::io::Error>),
    /// The source is at its start, or could not be positioned.
    SourceRewound(Result<(), std::io::Error>),
    /// The live file is at its start, or could not be positioned.
    TargetRewound(Result<(), std::io::Error>),
    /// The length of the source, or it could not be told.
    SourceMeasured(Result<u64, std::io::Error>),
    /// How many bytes were copied, or the source could not be copied.
    SourceCopied(Result<u64, std::io::Error>),
    /// The live file was mapped, or could not be mapped.
    TargetMapped(Result<(), MemoryError>),
    /// The live file was removed, or could not be removed.
    TargetRemoved,
}

/// How far a live memory file has come.
#[derive(Debug)]
pub enum SharedPhase {
    /// A step is pending.
    Doing(SharedStep),
    /// The live file is being removed.
    Removing(GuestMemoryFromFileError),
    /// Nothing is left to do.
    Done,
}

/// A live memory file that is being set up, between two actions of the caller.
#[derive(Debug)]
pub struct SharedFileJob {
    /// Path of the source.
    pub source_path: String,
    /// Path of the live file.
    pub live_path: String,
    /// Address and size of each region, until they are handed on.
    pub regions: Option<Vec<(u64, usize)>>,
    /// Whether dirty pages are tracked.
    pub track_dirty_pages: bool,
    /// The length of the source, once it was measured.
    pub expected: u64,
    /// The pending step.
    pub phase: SharedPhase,
}

/// The error that an event brings, if it is a failure.
pub open spec fn shared_error(job: SharedFileJob, event: SharedFileEvent) -> Option<
    GuestMemoryFromFileError,
> {
    match event {
        SharedFileEvent::TargetChecked(true) => Some(
            GuestMemoryFromFileError::LiveMemoryTargetExists(job.live_path),
        ),
        SharedFileEvent::SourceOpened(Err(e)) => Some(GuestMemoryFromFileError::File(e)),
        SharedFileEvent::SourceChecked(Err(e)) => Some(GuestMemoryFromFileError::File(e)),
        SharedFileEvent::SourceChecked(Ok(false)) => Some(
            GuestMemoryFromFileError::SharedSourceNotRegular(job.source_path),
        ),
        SharedFileEvent::TargetCreated(Err(e)) => Some(GuestMemoryFromFileError::File(e)),
        SharedFileEvent::TargetTruncated(Err(e)) => Some(GuestMemoryFromFileError::File(e)),
        SharedFileEvent::SourceRewound(Err(e)) => Some(GuestMemoryFromFileError::File(e)),
        SharedFileEvent::TargetRewound(Err(e)) => Some(GuestMemoryFromFileError::File(e)),
        SharedFileEvent::SourceMeasured(Err(e)) => Some(GuestMemoryFromFileError::File(e)),
        SharedFileEvent::SourceCopied(Err(e)) => Some(GuestMemoryFromFileError::File(e)),
        SharedFileEvent::SourceCopied(Ok(copied)) => if copied == job.expected {
            None
        } else {
            Some(
                GuestMemoryFromFileError::File(
                    crate::outside::io_error(
                        std::io::ErrorKind::UnexpectedEof,
                        SOURCE_CHANGED@,
                    ),
                ),
            )
        },
        SharedFileEvent::TargetMapped(Err(e)) => Some(GuestMemoryFromFileError::Restore(e)),
        _ => None,
    }
}

/// The step that follows another, if any does.
///
/// Cloning the extents is the fast way; where it does not work, the source is copied.
pub open spec fn shared_step_after(step: SharedStep, event: SharedFileEvent) -> Option<SharedStep> {
    match step {
        SharedStep::CheckTarget => Some(SharedStep::OpenSource),
        SharedStep::OpenSource => Some(SharedStep::CheckSource),
        SharedStep::CheckSource => Some(SharedStep::CreateTarget),
        SharedStep::CreateTarget => Some(SharedStep::CloneExtents),
        SharedStep::CloneExtents => if event == SharedFileEvent::ExtentsCloned(true) {
            Some(SharedStep::MapTarget)
        } else {
            Some(SharedStep::TruncateTarget)
        },
        SharedStep::TruncateTarget => Some(SharedStep::RewindSource),
        SharedStep::RewindSource => Some(SharedStep::RewindTarget),
        SharedStep::RewindTarget => Some(SharedStep::MeasureSource),
        SharedStep::MeasureSource => Some(SharedStep::CopySource),
        SharedStep::CopySource => Some(SharedStep::MapTarget),
        SharedStep::MapTarget => None,
    }
}

/// Whether the live file was created when a step is pending.
pub open spec fn owns_target(step: SharedStep) -> bool {
    match step {
        SharedStep::CheckTarget | SharedStep::OpenSource | SharedStep::CheckSource
        | SharedStep::CreateTarget => false,
        _ => true,
    }
}

/// The action of a step.
pub open spec fn shared_action(job: SharedFileJob, step: SharedStep) -> SharedFileAction {
    match step {
        SharedStep::CheckTarget => SharedFileAction::CheckTarget { path: job.live_path },
        SharedStep::OpenSource => SharedFileAction::OpenSource { path: job.source_path },
        SharedStep::CheckSource => SharedFileAction::CheckSource,
        SharedStep::CreateTarget => SharedFileAction::CreateTarget { path: job.live_path },
        SharedStep::CloneExtents => SharedFileAction::CloneExtents,
        SharedStep::TruncateTarget => SharedFileAction::TruncateTarget,
        SharedStep::RewindSource => SharedFileAction::RewindSource,
        SharedStep::RewindTarget => SharedFileAction::RewindTarget,
        SharedStep::MeasureSource => SharedFileAction::MeasureSource,
        SharedStep::CopySource => SharedFileAction::CopySource,
        SharedStep::MapTarget => SharedFileAction::MapTarget {
            regions: job.regions->0,
            track_dirty_pages: job.track_dirty_pages,
        },
    }
}

/// Whether an event tells what came of a step.
pub open spec fn shared_event_ends(step: SharedStep, event: SharedFileEvent) -> bool {
    match step {
        SharedStep::CheckTarget => event is TargetChecked,
        SharedStep::OpenSource => event is SourceOpened,
        SharedStep::CheckSource => event is SourceChecked,
        SharedStep::CreateTarget => event is TargetCreated,
        SharedStep::CloneExtents => event is ExtentsCloned,
        SharedStep::TruncateTarget => event is TargetTruncated,
        SharedStep::RewindSource => event is SourceRewound,
        SharedStep::RewindTarget => event is TargetRewound,
        SharedStep::MeasureSource => event is SourceMeasured,
        SharedStep::CopySource => event is SourceCopied,
        SharedStep::MapTarget => event is TargetMapped,
    }
}

/// Whether an event tells what came of the pending action.
pub open spec fn shared_event_fits(job: SharedFileJob, event: SharedFileEvent) -> bool {
    match job.phase {
        SharedPhase::Doing(step) => shared_event_ends(step, event),
        SharedPhase::Removing(_) => event is TargetRemoved,
        SharedPhase::Done => false,
    }
}

/// Whether a job holds the regions as long as they are not handed on.
pub open spec fn shared_ready(job: SharedFileJob) -> bool {
    job.phase matches SharedPhase::Doing(step) && step != SharedStep::MapTarget
        ==> job.regions is Some
}

/// The start of a step: what it hands on leaves the job.
pub open spec fn shared_entering(job: SharedFileJob, step: SharedStep) -> (
    SharedFileJob,
    SharedFileAction,
) {
    (
        SharedFileJob {
            regions: if step == SharedStep::MapTarget {
                None
            } else {
                job.regions
            },
            phase: SharedPhase::Doing(step),
            ..job
        },
        shared_action(job, step),
    )
}

/// How far a live memory file has come after an event, and what is asked for next.
///
/// Once the live file was created, no failure leaves it behind.
pub open spec fn shared_next(job: SharedFileJob, event: SharedFileEvent) -> (
    SharedFileJob,
    SharedFileAction,
) {
    match job.phase {
        SharedPhase::Doing(step) => match shared_error(job, event) {
            Some(e) => if owns_target(step) {
                (
                    SharedFileJob { phase: SharedPhase::Removing(e), ..job },
                    SharedFileAction::RemoveTarget { path: job.live_path },
                )
            } else {
                (
                    SharedFileJob { phase: SharedPhase::Done, ..job },
                    SharedFileAction::Finished(Err(e)),
                )
            },
            None => {
                let job = match event {
                    SharedFileEvent::SourceMeasured(Ok(expected)) => SharedFileJob {
                        expected,
                        ..job
                    },
                    _ => job,
                };
                match shared_step_after(step, event) {
                    Some(next) => shared_entering(job, next),
                    None => (
                        SharedFileJob { phase: SharedPhase::Done, ..job },
                        SharedFileAction::Finished(Ok(())),
                    ),
                }
            },
        },
        SharedPhase::Removing(e) => (
            SharedFileJob { phase: SharedPhase::Done, ..job },
            SharedFileAction::Finished(Err(e)),
        ),
        SharedPhase::Done => (job, SharedFileAction::Finished(Ok(()))),
    }
}

/// Restores guest memory by copying a memory file to a live file and mapping that shared.
///
/// The source stays as it is: what the guest writes goes to the live file. The live file must not
/// exist; once it was created it is removed again if anything fails, so no empty or partly filled
/// file is left behind.
pub fn guest_memory_from_shared_file(
    source_path: &String,
    live_path: &String,
    mem_state: &GuestMemoryState,
    track_dirty_pages: bool,
) -> (started: (SharedFileJob, SharedFileAction))
    ensures
        started.0.source_path == *source_path,
        started.0.live_path == *live_path,
        started.0.regions matches Some(regions) && regions@ == crate::vstate::memory::region_layout(
            mem_state.regions@,
        ),
        started.0.track_dirty_pages == track_dirty_pages,
        started.0.phase == SharedPhase::Doing(SharedStep::CheckTarget),
        started.1 == (SharedFileAction::CheckTarget { path: *live_path }),
        shared_ready(started.0),
{
    let job = SharedFileJob {
        source_path: source_path.clone(),
        live_path: live_path.clone(),
        regions: Some(mem_state.regions()),
        track_dirty_pages,
        expected: 0,
        phase: SharedPhase::Doing(SharedStep::CheckTarget),
    };
    (job, SharedFileAction::CheckTarget { path: live_path.clone() })
}

impl SharedFileJob {
    /// Takes what came of the pending action and says what to do next.
    #[verifier::rlimit(40)]
    pub fn step(self, event: SharedFileEvent) -> (next: (SharedFileJob, SharedFileAction))
        requires
            shared_ready(self),
            shared_event_fits(self, event),
        ensures
            next == shared_next(self, event),
            shared_ready(next.0),
    {
        let SharedFileJob { source_path, live_path, regions, track_dirty_pages, expected, phase } =
            self;
        match phase {
            SharedPhase::Doing(step) => {
                let job = SharedFileJob {
                    source_path,
                    live_path,
                    regions,
                    track_dirty_pages,
                    expected,
                    phase: SharedPhase::Doing(step),
                };
                match event {
                    SharedFileEvent::TargetChecked(exists) => {
                        if exists {
                            let path = job.live_path.clone();
                            return job.fail(
                                step,
                                GuestMemoryFromFileError::LiveMemoryTargetExists(path),
                            );
                        }
                        job.enter(SharedStep::OpenSource)
                    },
                    SharedFileEvent::SourceOpened(Ok(())) => job.enter(SharedStep::CheckSource),
                    SharedFileEvent::SourceChecked(Ok(regular)) => {
                        if !regular {
                            let path = job.source_path.clone();
                            return job.fail(
                                step,
                                GuestMemoryFromFileError::SharedSourceNotRegular(path),
                            );
                        }
                        job.enter(SharedStep::CreateTarget)
                    },
                    SharedFileEvent::TargetCreated(Ok(())) => job.enter(SharedStep::CloneExtents),
                    SharedFileEvent::ExtentsCloned(cloned) => {
                        if cloned {
                            job.enter(SharedStep::MapTarget)
                        } else {
                            job.enter(SharedStep::TruncateTarget)
                        }
                    },
                    SharedFileEvent::TargetTruncated(Ok(())) => job.enter(SharedStep::RewindSource),
                    SharedFileEvent::SourceRewound(Ok(())) => job.enter(SharedStep::RewindTarget),
                    SharedFileEvent::TargetRewound(Ok(())) => job.enter(SharedStep::MeasureSource),
                    SharedFileEvent::SourceMeasured(Ok(expected)) => {
                        let measured = SharedFileJob { expected, ..job };
                        measured.enter(SharedStep::CopySource)
                    },
                    SharedFileEvent::SourceCopied(Ok(copied)) => {
                        let expected: u64 = job.expected;
                        if copied != expected {
                            let e = new_io_error(
                                std::io::ErrorKind::UnexpectedEof,
                                SOURCE_CHANGED,
                            );
                            return job.fail(step, GuestMemoryFromFileError::File(e));
                        }
                        job.enter(SharedStep::MapTarget)
                    },
                    SharedFileEvent::TargetMapped(Ok(())) => (
                        SharedFileJob { phase: SharedPhase::Done, ..job },
                        SharedFileAction::Finished(Ok(())),
                    ),
                    SharedFileEvent::TargetMapped(Err(e)) => job.fail(
                        step,
                        GuestMemoryFromFileError::Restore(e),
                    ),
                    SharedFileEvent::SourceOpened(Err(e))
                    | SharedFileEvent::SourceChecked(Err(e))
                    | SharedFileEvent::TargetCreated(Err(e))
                    | SharedFileEvent::TargetTruncated(Err(e))
                    | SharedFileEvent::SourceRewound(Err(e))
                    | SharedFileEvent::TargetRewound(Err(e))
                    | SharedFileEvent::SourceMeasured(Err(e))
                    | SharedFileEvent::SourceCopied(Err(e)) => job.fail(
                        step,
                        GuestMemoryFromFileError::File(e),
                    ),
                    SharedFileEvent::TargetRemoved => unreached(),
                }
            },
            SharedPhase::Removing(e) => {
                let job = SharedFileJob {
                    source_path,
                    live_path,
                    regions,
                    track_dirty_pages,
                    expected,
                    phase: SharedPhase::Done,
                };
                (job, SharedFileAction::Finished(Err(e)))
            },
            SharedPhase::Done => unreached(),
        }
    }

    /// Starts a step.
    fn enter(self, step: SharedStep) -> (next: (SharedFileJob, SharedFileAction))
        requires
            self.regions is Some,
        ensures
            next == shared_entering(self, step),
            shared_ready(next.0),
    {
        let SharedFileJob { source_path, live_path, regions, track_dirty_pages, expected, phase: _ } =
            self;
        let phase = SharedPhase::Doing(step);
        match step {
            SharedStep::MapTarget => {
                let action = SharedFileAction::MapTarget {
                    regions: regions.unwrap(),
                    track_dirty_pages,
                };
                let job = SharedFileJob {
                    source_path,
                    live_path,
                    regions: None,
                    track_dirty_pages,
                    expected,
                    phase,
                };
                (job, action)
            },
            _ => {
                let action = match step {
                    SharedStep::CheckTarget => SharedFileAction::CheckTarget {
                        path: live_path.clone(),
                    },
                    SharedStep::OpenSource => SharedFileAction::OpenSource {
                        path: source_path.clone(),
                    },
                    SharedStep::CheckSource => SharedFileAction::CheckSource,
                    SharedStep::CreateTarget => SharedFileAction::CreateTarget {
                        path: live_path.clone(),
                    },
                    SharedStep::CloneExtents => SharedFileAction::CloneExtents,
                    SharedStep::TruncateTarget => SharedFileAction::TruncateTarget,
                    SharedStep::RewindSource => SharedFileAction::RewindSource,
                    SharedStep::RewindTarget => SharedFileAction::RewindTarget,
                    SharedStep::MeasureSource => SharedFileAction::MeasureSource,
                    _ => SharedFileAction::CopySource,
                };
                let job = SharedFileJob {
                    source_path,
                    live_path,
                    regions,
                    track_dirty_pages,
                    expected,
                    phase,
                };
                (job, action)
            },
        }
    }

    /// Ends with an error; the live file is removed first if it was created.
    fn fail(self, step: SharedStep, error: GuestMemoryFromFileError) -> (next: (
        SharedFileJob,
        SharedFileAction,
    ))
        ensures
            next == (if owns_target(step) {
                (
                    SharedFileJob { phase: SharedPhase::Removing(error), ..self },
                    SharedFileAction::RemoveTarget { path: self.live_path },
                )
            } else {
                (
                    SharedFileJob { phase: SharedPhase::Done, ..self },
                    SharedFileAction::Finished(Err(error)),
                )
            }),
    {
        match step {
            SharedStep::CheckTarget
            | SharedStep::OpenSource
            | SharedStep::CheckSource
            | SharedStep::CreateTarget => (
                SharedFileJob { phase: SharedPhase::Done, ..self },
                SharedFileAction::Finished(Err(error)),
            ),
            _ => {
                let path = self.live_path.clone();
                let job = SharedFileJob { phase: SharedPhase::Removing(error), ..self };
                (job, SharedFileAction::RemoveTarget { path })
            },
        }
    }
}

/// Whether a job is at its start.
pub open spec fn shared_started(job: SharedFileJob) -> bool {
    &&& shared_ready(job)
    &&& job.phase == SharedPhase::Doing(SharedStep::CheckTarget)
}

/// Whether each event of a run tells what came of the action that was pending when it came.
pub open spec fn shared_runs(start: SharedFileJob, events: Seq<SharedFileEvent>) -> bool
    decreases events.len(),
{
    events.len() == 0 || {
        &&& shared_runs(start, events.drop_last())
        &&& shared_event_fits(shared_after(start, events.drop_last()).0, events.last())
    }
}

/// How far a live memory file has come after the events of a run, and what is asked for.
pub open spec fn shared_after(start: SharedFileJob, events: Seq<SharedFileEvent>) -> (
    SharedFileJob,
    SharedFileAction,
)
    decreases events.len(),
{
    if events.len() == 0 {
        (start, SharedFileAction::CheckTarget { path: start.live_path })
    } else {
        shared_next(shared_after(start, events.drop_last()).0, events.last())
    }
}

/// Whether the live file was created in a run.
pub open spec fn target_created(events: Seq<SharedFileEvent>) -> bool {
    exists|i: int|
        0 <= i < events.len() && ((#[trigger] events[i]) matches SharedFileEvent::TargetCreated(
            Ok(_),
        ))
}

/// Whether the live file was removed in a run.
pub open spec fn target_removed(events: Seq<SharedFileEvent>) -> bool {
    exists|i: int| 0 <= i < events.len() && (#[trigger] events[i]) is TargetRemoved
}

/// Whether the extents of the source were cloned in a run.
pub open spec fn source_cloned(events: Seq<SharedFileEvent>) -> bool {
    exists|i: int|
        0 <= i < events.len() && (#[trigger] events[i]) == SharedFileEvent::ExtentsCloned(true)
}

/// Whether the source was measured in a run and found to hold that many bytes.
pub open spec fn source_measured(events: Seq<SharedFileEvent>, len: u64) -> bool {
    exists|i: int|
        0 <= i < events.len() && (#[trigger] events[i]) == SharedFileEvent::SourceMeasured(Ok(len))
}

/// Whether that many bytes of the source were copied in a run.
pub open spec fn source_copied(events: Seq<SharedFileEvent>, len: u64) -> bool {
    exists|i: int|
        0 <= i < events.len() && (#[trigger] events[i]) == SharedFileEvent::SourceCopied(Ok(len))
}

/// Whether the live file has all that the source held: the extents were cloned, or as many bytes
/// were copied as the source held.
pub open spec fn target_complete(events: Seq<SharedFileEvent>) -> bool {
    ||| source_cloned(events)
    ||| exists|len: u64| #[trigger] source_measured(events, len) && source_copied(events, len)
}

spec fn shared_invariant(
    start: SharedFileJob,
    job: SharedFileJob,
    action: SharedFileAction,
    events: Seq<SharedFileEvent>,
) -> bool {
    &&& shared_ready(job)
    &&& job.live_path == start.live_path
    &&& match job.phase {
        SharedPhase::Doing(step) => {
            &&& !(action is Finished)
            &&& !(action is RemoveTarget)
            &&& owns_target(step) <==> target_created(events)
            &&& !target_removed(events)
            &&& step == SharedStep::CopySource ==> source_measured(events, job.expected)
            &&& step == SharedStep::MapTarget ==> target_complete(events)
            &&& step == SharedStep::CheckTarget <==> events.len() == 0
        },
        SharedPhase::Removing(_) => {
            &&& action == SharedFileAction::RemoveTarget { path: start.live_path }
            &&& target_created(events)
            &&& !target_removed(events)
        },
        SharedPhase::Done => {
            &&& action is Finished
            &&& events.len() > 0
            &&& action->Finished_0 is Err ==> (target_created(events) <==> events.last()
                is TargetRemoved)
            &&& target_removed(events) ==> target_created(events) && action->Finished_0 is Err
            &&& action->Finished_0 is Ok ==> {
                &&& target_created(events)
                &&& target_complete(events)
                &&& !target_removed(events)
            }
        },
    }
}

#[verifier::rlimit(40)]
proof fn lemma_shared_invariant(start: SharedFileJob, events: Seq<SharedFileEvent>)
    requires
        shared_started(start),
        shared_runs(start, events),
    ensures
        shared_invariant(
            start,
            shared_after(start, events).0,
            shared_after(start, events).1,
            events,
        ),
    decreases events.len(),
{
    if events.len() > 0 {
        let earlier = events.drop_last();
        let last = events.last();
        let n = events.len() - 1;
        lemma_shared_invariant(start, earlier);
        let before = shared_after(start, earlier).0;
        assert(events[n] == last);
        assert forall|i: int| 0 <= i < n implies earlier[i] == #[trigger] events[i] by {}
        assert(target_created(events) <==> target_created(earlier) || (
        last matches SharedFileEvent::TargetCreated(Ok(_)))) by {
            if target_created(earlier) {
                let i = choose|i: int|
                    0 <= i < earlier.len() && ((
                    #[trigger] earlier[i]) matches SharedFileEvent::TargetCreated(Ok(_)));
                assert(events[i] == earlier[i]);
            }
            if target_created(events) {
                let i = choose|i: int|
                    0 <= i < events.len() && ((
                    #[trigger] events[i]) matches SharedFileEvent::TargetCreated(Ok(_)));
                if i < n {
                    assert(events[i] == earlier[i]);
                }
            }
        }
        assert(target_removed(events) <==> target_removed(earlier) || last is TargetRemoved) by {
            if target_removed(earlier) {
                let i = choose|i: int|
                    0 <= i < earlier.len() && (#[trigger] earlier[i]) is TargetRemoved;
                assert(events[i] == earlier[i]);
            }
            if target_removed(events) {
                let i = choose|i: int|
                    0 <= i < events.len() && (#[trigger] events[i]) is TargetRemoved;
                if i < n {
                    assert(events[i] == earlier[i]);
                }
            }
        }
        assert forall|len: u64| #[trigger]
            source_measured(earlier, len) implies source_measured(events, len) by {
            let i = choose|i: int|
                0 <= i < earlier.len() && (#[trigger] earlier[i])
                    == SharedFileEvent::SourceMeasured(Ok(len));
            assert(events[i] == earlier[i]);
        }
        assert forall|len: u64| #[trigger]
            source_copied(earlier, len) implies source_copied(events, len) by {
            let i = choose|i: int|
                0 <= i < earlier.len() && (#[trigger] earlier[i]) == SharedFileEvent::SourceCopied(
                    Ok(len),
                );
            assert(events[i] == earlier[i]);
        }
        assert(source_cloned(earlier) ==> source_cloned(events)) by {
            if source_cloned(earlier) {
                let i = choose|i: int|
                    0 <= i < earlier.len() && (#[trigger] earlier[i])
                        == SharedFileEvent::ExtentsCloned(true);
                assert(events[i] == earlier[i]);
            }
        }
        if target_complete(earlier) && !source_cloned(earlier) {
            let len = choose|len: u64| #[trigger]
                source_measured(earlier, len) && source_copied(earlier, len);
            assert(source_measured(events, len) && source_copied(events, len));
        }
        if let SharedFileEvent::SourceMeasured(Ok(len)) = last {
            assert(source_measured(events, len));
        }
        if let SharedFileEvent::SourceCopied(Ok(len)) = last {
            assert(source_copied(events, len));
            if len == before.expected && before.phase == SharedPhase::Doing(
                SharedStep::CopySource,
            ) {
                assert(source_measured(events, len));
                assert(target_complete(events));
            }
        }
        if last == SharedFileEvent::ExtentsCloned(true) {
            assert(source_cloned(events));
        }
    }
}

/// A failure leaves no live file behind: when guest memory could not be restored, the last thing
/// that was done is to remove the live file if it was created, and the live file was not created
/// otherwise.
pub proof fn law_failure_leaves_no_live_file(start: SharedFileJob, events: Seq<SharedFileEvent>)
    requires
        shared_started(start),
        shared_runs(start, events),
    ensures
        shared_after(start, events).1 matches SharedFileAction::Finished(Err(_)) ==> (target_created(
            events,
        ) <==> events.last() is TargetRemoved),
{
    lemma_shared_invariant(start, events);
}

/// Nothing is removed but the live file that was created here: a file that was there before is left
/// alone, and so is the live file once guest memory was restored.
pub proof fn law_only_an_own_live_file_is_removed(
    start: SharedFileJob,
    events: Seq<SharedFileEvent>,
)
    requires
        shared_started(start),
        shared_runs(start, events),
    ensures
        shared_after(start, events).1 matches SharedFileAction::RemoveTarget { path }
            ==> target_created(events) && path == start.live_path,
        shared_after(start, events).1 matches SharedFileAction::Finished(Ok(_)) ==> target_created(
            events,
        ) && !target_removed(events),
        target_removed(events) ==> target_created(events),
{
    lemma_shared_invariant(start, events);
}

/// A live file is mapped, and guest memory restored, only when it has all that the source held.
pub proof fn law_live_file_is_complete(start: SharedFileJob, events: Seq<SharedFileEvent>)
    requires
        shared_started(start),
        shared_runs(start, events),
    ensures
        shared_after(start, events).0.phase == SharedPhase::Doing(SharedStep::MapTarget)
            ==> target_complete(events),
        shared_after(start, events).1 matches SharedFileAction::Finished(Ok(_)) ==> target_complete(
            events,
        ),
{
    lemma_shared_invariant(start, events);
}

/// An existing live file ends the attempt at once, before the source is looked at.
pub proof fn law_existing_live_file_is_refused(start: SharedFileJob, events: Seq<SharedFileEvent>)
    requires
        shared_started(start),
        shared_runs(start, events),
        events.len() > 0,
        events[0] == SharedFileEvent::TargetChecked(true),
    ensures
        events.len() == 1,
        shared_after(start, events).1 == SharedFileAction::Finished(
            Err(GuestMemoryFromFileError::LiveMemoryTargetExists(start.live_path)),
        ),
    decreases events.len(),
{
    if events.len() > 1 {
        assert(events.drop_last()[0] == events[0]);
        law_existing_live_file_is_refused(start, events.drop_last());
        lemma_shared_invariant(start, events.drop_last());
    } else {
        assert(events.last() == events[0]);
        assert(shared_after(start, events.drop_last()).0 == start);
    }
}

/// A memory file is opened and then mapped, with the regions and the tracking that were asked for. It is
/// restored once it was mapped; the first failure ends the attempt and is what is reported.
pub proof fn law_memory_file_is_opened_then_mapped(job: FileJob, event: FileEvent)
    requires
        file_event_fits(job, event),
    ensures
        match event {
            FileEvent::Opened(Ok(_)) => {
                &&& file_next(job, event).1 matches FileAction::MapPrivate { regions, track_dirty_pages }
                &&& job.phase == FilePhase::Opening(regions)
                &&& track_dirty_pages == job.track_dirty_pages
                &&& file_next(job, event).0.phase is Mapping
            },
            FileEvent::Opened(Err(e)) => file_next(job, event).1 == FileAction::Finished(
                Err(GuestMemoryFromFileError::File(e)),
            ) && file_next(job, event).0.phase is Done,
            FileEvent::Mapped(Ok(_)) => file_next(job, event).1 == FileAction::Finished(Ok(()))
                && file_next(job, event).0.phase is Done,
            FileEvent::Mapped(Err(e)) => file_next(job, event).1 == FileAction::Finished(
                Err(GuestMemoryFromFileError::Restore(e)),
            ) && file_next(job, event).0.phase is Done,
        },
        file_next(job, event).0.track_dirty_pages == job.track_dirty_pages,
{
}

/// What is done for a live memory file after each success: it is seen that there is none, the source is
/// opened and seen to be a regular file, the live file is created, and the extents of the source are
/// cloned. Where they cannot be, the live file is emptied, both files are rewound, and the source is
/// measured and copied. Then the live file is mapped, with the regions and the tracking that were asked
/// for.
pub proof fn law_live_file_is_made_from_the_source(job: SharedFileJob, event: SharedFileEvent)
    requires
        shared_event_fits(job, event),
    ensures
        ({
            let (next, action) = shared_next(job, event);
            let maps = job.regions is Some ==> action == SharedFileAction::MapTarget {
                regions: job.regions->0,
                track_dirty_pages: job.track_dirty_pages,
            };
            &&& match event {
                SharedFileEvent::TargetChecked(found) => !found ==> action
                    == SharedFileAction::OpenSource { path: job.source_path },
                SharedFileEvent::SourceOpened(Ok(_)) => action is CheckSource,
                SharedFileEvent::SourceChecked(Ok(regular)) => regular ==> action
                    == SharedFileAction::CreateTarget { path: job.live_path },
                SharedFileEvent::TargetCreated(Ok(_)) => action is CloneExtents,
                SharedFileEvent::ExtentsCloned(cloned) => if cloned {
                    action is MapTarget && maps
                } else {
                    action is TruncateTarget
                },
                SharedFileEvent::TargetTruncated(Ok(_)) => action is RewindSource,
                SharedFileEvent::SourceRewound(Ok(_)) => action is RewindTarget,
                SharedFileEvent::TargetRewound(Ok(_)) => action is MeasureSource,
                SharedFileEvent::SourceMeasured(Ok(len)) => action is CopySource && next.expected
                    == len,
                SharedFileEvent::SourceCopied(Ok(len)) => len == job.expected ==> action is MapTarget
                    && maps,
                SharedFileEvent::TargetMapped(Ok(_)) => action == SharedFileAction::Finished(Ok(())),
                _ => true,
            }
            &&& next.source_path == job.source_path
            &&& next.live_path == job.live_path
            &&& next.track_dirty_pages == job.track_dirty_pages
            &&& !(action is MapTarget) ==> next.regions == job.regions
            &&& !(event is SourceMeasured) ==> next.expected == job.expected
        }),
{
}

/// What is done for a live memory file after each failure, and what is reported in the end. Before the
/// live file was created the attempt is over at once; afterwards the live file is removed first. A
/// source that gave another number of bytes than it held has changed while it was copied.
pub proof fn law_live_file_failures_say_what_failed(job: SharedFileJob, event: SharedFileEvent)
    requires
        shared_event_fits(job, event),
    ensures
        ({
            let (next, action) = shared_next(job, event);
            let removes = |e: GuestMemoryFromFileError|
                next.phase == SharedPhase::Removing(e) && action == SharedFileAction::RemoveTarget {
                    path: job.live_path,
                };
            let ends = |e: GuestMemoryFromFileError|
                next.phase is Done && action == SharedFileAction::Finished(Err(e));
            match event {
                SharedFileEvent::TargetChecked(found) => found ==> ends(
                    GuestMemoryFromFileError::LiveMemoryTargetExists(job.live_path),
                ),
                SharedFileEvent::SourceOpened(Err(e)) => ends(GuestMemoryFromFileError::File(e)),
                SharedFileEvent::SourceChecked(Err(e)) => ends(GuestMemoryFromFileError::File(e)),
                SharedFileEvent::SourceChecked(Ok(regular)) => !regular ==> ends(
                    GuestMemoryFromFileError::SharedSourceNotRegular(job.source_path),
                ),
                SharedFileEvent::TargetCreated(Err(e)) => ends(GuestMemoryFromFileError::File(e)),
                SharedFileEvent::TargetTruncated(Err(e)) => removes(
                    GuestMemoryFromFileError::File(e),
                ),
                SharedFileEvent::SourceRewound(Err(e)) => removes(GuestMemoryFromFileError::File(e)),
                SharedFileEvent::TargetRewound(Err(e)) => removes(GuestMemoryFromFileError::File(e)),
                SharedFileEvent::SourceMeasured(Err(e)) => removes(
                    GuestMemoryFromFileError::File(e),
                ),
                SharedFileEvent::SourceCopied(Err(e)) => removes(GuestMemoryFromFileError::File(e)),
                SharedFileEvent::SourceCopied(Ok(len)) => len != job.expected ==> removes(
                    GuestMemoryFromFileError::File(
                        crate::outside::io_error(
                            std::io::ErrorKind::UnexpectedEof,
                            "checkpoint memory changed while copying"@,
                        ),
                    ),
                ),
                SharedFileEvent::TargetMapped(Err(e)) => removes(
                    GuestMemoryFromFileError::Restore(e),
                ),
                SharedFileEvent::TargetRemoved => job.phase matches SharedPhase::Removing(e) && ends(
                    e,
                ),
                _ => true,
            }
        }),
{
}

/// Every action of a run is on the files of the request: the live file is looked for, created and
/// removed at its path, the source is opened at its own, and what is mapped are the regions of the
/// request.
pub proof fn law_live_file_actions_carry_the_request(
    start: SharedFileJob,
    events: Seq<SharedFileEvent>,
)
    requires
        shared_started(start),
        shared_runs(start, events),
    ensures
        match shared_after(start, events).1 {
            SharedFileAction::CheckTarget { path } => path == start.live_path,
            SharedFileAction::OpenSource { path } => path == start.source_path,
            SharedFileAction::CreateTarget { path } => path == start.live_path,
            SharedFileAction::RemoveTarget { path } => path == start.live_path,
            SharedFileAction::MapTarget { regions, track_dirty_pages } => start.regions == Some(regions)
                && track_dirty_pages == start.track_dirty_pages,
            _ => true,
        },
        shared_after(start, events).0.live_path == start.live_path,
        shared_after(start, events).0.source_path == start.source_path,
        shared_after(start, events).0.track_dirty_pages == start.track_dirty_pages,
        shared_after(start, events).0.regions is Some ==> shared_after(start, events).0.regions
            == start.regions,
    decreases events.len(),
{
    lemma_shared_invariant(start, events);
    if events.len() > 0 {
        law_live_file_actions_carry_the_request(start, events.drop_last());
        lemma_shared_invariant(start, events.drop_last());
        let before = shared_after(start, events.drop_last()).0;
        law_live_file_is_made_from_the_source(before, events.last());
    }
}

/// In every run the events that may come are the answers to what was asked for, and none may come once
/// the result is there.
pub proof fn law_live_file_events_answer_what_was_asked(
    start: SharedFileJob,
    events: Seq<SharedFileEvent>,
    event: SharedFileEvent,
)
    requires
        shared_started(start),
        shared_runs(start, events),
    ensures
        shared_event_fits(shared_after(start, events).0, event) <==> match shared_after(
            start,
            events,
        ).1 {
            SharedFileAction::CheckTarget { .. } => event is TargetChecked,
            SharedFileAction::OpenSource { .. } => event is SourceOpened,
            SharedFileAction::CheckSource => event is SourceChecked,
            SharedFileAction::CreateTarget { .. } => event is TargetCreated,
            SharedFileAction::CloneExtents => event is ExtentsCloned,
            SharedFileAction::TruncateTarget => event is TargetTruncated,
            SharedFileAction::RewindSource => event is SourceRewound,
            SharedFileAction::RewindTarget => event is TargetRewound,
            SharedFileAction::MeasureSource => event is SourceMeasured,
            SharedFileAction::CopySource => event is SourceCopied,
            SharedFileAction::MapTarget { .. } => event is TargetMapped,
            SharedFileAction::RemoveTarget { .. } => event is TargetRemoved,
            SharedFileAction::Finished(_) => false,
        },
{
    if events.len() > 0 {
        lemma_shared_invariant(start, events.drop_last());
    }
}

/// The request that clones extents is `_IOW(0x94, 9, int)`: a write of four bytes, of the type and the
/// number of the file system requests.
pub proof fn law_clone_request()
    ensures
        FICLONE == 0x4000_0000 + 4 * 0x1_0000 + 0x94 * 0x100 + 9,
{
}

} // verus!
