//! Creating a snapshot of a microVM.

use super::error::{CreateSnapshotError, MicrovmStateError, SnapshotError, VirtioFsError};
use super::state::{MicrovmState, VmInfo, Vmm};
use crate::vmm_config::{clone_text, CreateSnapshotParams, SnapshotType};
use crate::vstate::pagemap_anon::MemoryRange;
use vstd::pervasive::unreached;
use vstd::prelude::*;

verus! {

/// Why a request is refused: a snapshot of the state alone is a Full one.
pub const STATE_ONLY_NOT_FULL: &'static str =
    "state_only snapshots require snapshot_type Full: no memory write or ledger transition happens";

/// Why a request is refused: a snapshot of the state alone has no memory file.
pub const STATE_ONLY_WITH_MEMORY: &'static str =
    "mem_file_path must be omitted when state_only is true";

/// Why a request is refused: memory has to be written somewhere.
pub const MEMORY_PATH_MISSING: &'static str = "mem_file_path is required unless state_only is true";

/// Why a request is refused: the virtio-fs backend has to save its state somewhere.
pub const FS_PATH_MISSING: &'static str = "fs_state_path is required when virtio-fs is configured";

/// Why a request is refused: there is no virtio-fs backend.
pub const FS_PATH_UNUSED: &'static str =
    "fs_state_path was provided but no virtio-fs device is configured";

/// Why a snapshot fails: memory can be written for KVM only.
pub const REQUIRES_KVM: &'static str = "snapshot requires KVM";

/// A request that was accepted, with what it applies to.
#[derive(Debug)]
pub struct CreatePlan {
    /// Whether a virtio-fs device is configured.
    pub has_virtio_fs: bool,
    /// Whether the virtual machine is run by KVM.
    pub has_kvm: bool,
    /// Information that goes into the state.
    pub vm_info: VmInfo,
    /// Which memory to write.
    pub snapshot_type: SnapshotType,
    /// Path of the state file.
    pub snapshot_path: String,
    /// Path of the memory file; without it memory is not written.
    pub mem_file_path: Option<String>,
    /// Whether the caller takes care of synchronizing the files.
    pub deferred_sync: bool,
    /// Path at which the virtio-fs backend saves its state.
    pub fs_state_path: Option<String>,
}

/// A step of creating a snapshot.
#[derive(Debug, Clone, Copy, PartialEq, Eq, Structural)]
pub enum CreateStep {
    /// The virtio-fs backend saves its state.
    PrepareVirtioFs,
    /// The ranges that the virtio-fs backend has written are collected.
    CollectDirtyRanges,
    /// The state of the microVM is saved.
    SaveState,
    /// The state file is opened.
    OpenStateFile,
    /// The state is written.
    WriteState,
    /// The state file is flushed.
    FlushStateFile,
    /// The state file is synchronized.
    SyncStateFile,
    /// The memory file is written.
    WriteMemory,
    /// The memory of the virtio queues is marked dirty.
    MarkQueueMemory,
}

/// What the caller does next.
#[derive(Debug)]
pub enum CreateAction {
    /// Have the virtio-fs backend save its state.
    PrepareVirtioFs {
        /// Where to.
        path: String,
        /// Whether the caller takes care of synchronizing the file.
        deferred_sync: bool,
    },
    /// Collect the ranges of guest memory that the virtio-fs backend has written.
    CollectDirtyRanges,
    /// Save the state of the microVM.
    SaveState {
        /// Information that goes into the state.
        vm_info: VmInfo,
    },
    /// Open the state file for writing: create it, or empty it if it exists.
    OpenStateFile {
        /// Path of the file.
        path: String,
    },
    /// Write the state to the open file.
    WriteState {
        /// The state.
        state: MicrovmState,
    },
    /// Flush the open file.
    FlushStateFile,
    /// Synchronize the open file.
    SyncStateFile,
    /// Write guest memory.
    WriteMemory {
        /// Path of the memory file.
        path: String,
        /// Which memory to write.
        snapshot_type: SnapshotType,
        /// Whether the caller takes care of synchronizing the file.
        deferred_sync: bool,
        /// The ranges that the virtio-fs backend has written.
        virtio_fs_dirty_ranges: Vec<MemoryRange>,
        /// Whether a virtio-fs device is configured.
        has_virtio_fs: bool,
    },
    /// Mark the memory of the virtio queues dirty, which is written outside of dirty accounting.
    MarkQueueMemory,
    /// Have the virtio-fs backend resume.
    FinishVirtioFs {
        /// Whether the snapshot was created.
        success: bool,
    },
    /// The snapshot is over; this is its result.
    Finished(Result<(), CreateSnapshotError>),
}

/// What came of the action that was asked for.
#[derive(Debug)]
pub enum CreateEvent {
    /// The virtio-fs backend saved its state, or failed to.
    VirtioFsPrepared(Result<(), VirtioFsError>),
    /// The ranges that the virtio-fs backend has written.
    DirtyRangesCollected(Vec<MemoryRange>),
    /// The state was saved, or could not be saved.
    StateSaved(Result<MicrovmState, MicrovmStateError>),
    /// The state file was opened, or could not be opened.
    StateFileOpened(Result<(), std::io::Error>),
    /// The state was written, or could not be written.
    StateWritten(Result<(), SnapshotError>),
    /// The state file was flushed, or could not be flushed.
    StateFileFlushed(Result<(), std::io::Error>),
    /// The state file was synchronized, or could not be synchronized.
    StateFileSynced(Result<(), std::io::Error>),
    /// The memory file was written, or could not be written.
    MemoryWritten(Result<(), CreateSnapshotError>),
    /// The memory of the virtio queues was marked dirty.
    QueueMemoryMarked,
    /// The virtio-fs backend resumed, or failed to.
    VirtioFsFinished(Result<(), VirtioFsError>),
}

/// How a snapshot turned out, short of the virtio-fs backend resuming.
#[derive(Debug)]
pub enum CreateOutcome {
    /// It was created.
    Created,
    /// Memory had to be written, but the virtual machine is not run by KVM.
    NoKvm,
    /// A step failed.
    Failed(CreateSnapshotError),
}

/// How far a snapshot has come.
#[derive(Debug)]
pub enum CreatePhase {
    /// A step is pending.
    Doing(CreateStep),
    /// The virtio-fs backend is resuming.
    Finishing(CreateOutcome),
    /// Nothing is left to do.
    Done,
}

/// A snapshot in the making, between two actions of the caller.
#[derive(Debug)]
pub struct CreateJob {
    /// The request.
    pub plan: CreatePlan,
    /// The ranges that the virtio-fs backend has written, until they are handed on.
    pub dirty_ranges: Option<Vec<MemoryRange>>,
    /// The state of the microVM, until it is handed on.
    pub state: Option<MicrovmState>,
    /// The pending step.
    pub phase: CreatePhase,
}

/// What the caller is asked for: an action, or to take the result.
pub enum CreateNext {
    /// An action.
    Act(CreateAction),
    /// The result.
    Finish(CreateOutcome),
}

/// Why a request is refused, if it is.
pub open spec fn refusal(vmm: Vmm, params: CreateSnapshotParams) -> Option<&'static str> {
    if params.state_only && params.mem_file_path is None && params.snapshot_type
        != SnapshotType::Full {
        Some(STATE_ONLY_NOT_FULL)
    } else if params.state_only && params.mem_file_path is Some {
        Some(STATE_ONLY_WITH_MEMORY)
    } else if !params.state_only && params.mem_file_path is None {
        Some(MEMORY_PATH_MISSING)
    } else if vmm.has_virtio_fs && params.fs_state_path is None {
        Some(FS_PATH_MISSING)
    } else if !vmm.has_virtio_fs && params.fs_state_path is Some {
        Some(FS_PATH_UNUSED)
    } else {
        None
    }
}

/// The plan that a request comes to.
pub open spec fn plan_of(vmm: Vmm, vm_info: VmInfo, params: CreateSnapshotParams) -> CreatePlan {
    CreatePlan {
        has_virtio_fs: vmm.has_virtio_fs,
        has_kvm: vmm.has_kvm,
        vm_info,
        snapshot_type: params.snapshot_type,
        snapshot_path: params.snapshot_path,
        mem_file_path: params.mem_file_path,
        deferred_sync: params.deferred_sync,
        fs_state_path: params.fs_state_path,
    }
}

/// The steps of a plan, in order.
///
/// The state is on file before memory is written, and the virtio-fs backend has saved its state
/// before either. A caller that synchronizes the files itself spares the state file its step.
#[verifier::opaque]
pub open spec fn steps(plan: CreatePlan) -> Seq<CreateStep> {
    let fs = if plan.fs_state_path is Some {
        seq![CreateStep::PrepareVirtioFs]
    } else {
        seq![]
    };
    let state = seq![
        CreateStep::CollectDirtyRanges,
        CreateStep::SaveState,
        CreateStep::OpenStateFile,
        CreateStep::WriteState,
        CreateStep::FlushStateFile,
    ];
    let sync = if plan.deferred_sync {
        seq![]
    } else {
        seq![CreateStep::SyncStateFile]
    };
    let memory = if plan.mem_file_path is Some {
        seq![CreateStep::WriteMemory, CreateStep::MarkQueueMemory]
    } else {
        seq![]
    };
    fs + state + sync + memory
}

/// The step that follows another in a plan, if any does.
pub open spec fn step_after(plan: CreatePlan, step: CreateStep) -> Option<CreateStep> {
    let memory = if plan.mem_file_path is Some {
        Some(CreateStep::WriteMemory)
    } else {
        None
    };
    match step {
        CreateStep::PrepareVirtioFs => Some(CreateStep::CollectDirtyRanges),
        CreateStep::CollectDirtyRanges => Some(CreateStep::SaveState),
        CreateStep::SaveState => Some(CreateStep::OpenStateFile),
        CreateStep::OpenStateFile => Some(CreateStep::WriteState),
        CreateStep::WriteState => Some(CreateStep::FlushStateFile),
        CreateStep::FlushStateFile => if plan.deferred_sync {
            memory
        } else {
            Some(CreateStep::SyncStateFile)
        },
        CreateStep::SyncStateFile => memory,
        CreateStep::WriteMemory => Some(CreateStep::MarkQueueMemory),
        CreateStep::MarkQueueMemory => None,
    }
}

/// The first step of a plan.
pub open spec fn first_step(plan: CreatePlan) -> CreateStep {
    if plan.fs_state_path is Some {
        CreateStep::PrepareVirtioFs
    } else {
        CreateStep::CollectDirtyRanges
    }
}

/// The action of a step.
pub open spec fn action_of(job: CreateJob, step: CreateStep) -> CreateAction {
    match step {
        CreateStep::PrepareVirtioFs => CreateAction::PrepareVirtioFs {
            path: job.plan.fs_state_path->0,
            deferred_sync: job.plan.deferred_sync,
        },
        CreateStep::CollectDirtyRanges => CreateAction::CollectDirtyRanges,
        CreateStep::SaveState => CreateAction::SaveState { vm_info: job.plan.vm_info },
        CreateStep::OpenStateFile => CreateAction::OpenStateFile { path: job.plan.snapshot_path },
        CreateStep::WriteState => CreateAction::WriteState { state: job.state->0 },
        CreateStep::FlushStateFile => CreateAction::FlushStateFile,
        CreateStep::SyncStateFile => CreateAction::SyncStateFile,
        CreateStep::WriteMemory => CreateAction::WriteMemory {
            path: job.plan.mem_file_path->0,
            snapshot_type: job.plan.snapshot_type,
            deferred_sync: job.plan.deferred_sync,
            virtio_fs_dirty_ranges: job.dirty_ranges->0,
            has_virtio_fs: job.plan.has_virtio_fs,
        },
        CreateStep::MarkQueueMemory => CreateAction::MarkQueueMemory,
    }
}

/// The start of a step: what it hands on leaves the job.
pub open spec fn entering(job: CreateJob, step: CreateStep) -> (CreateJob, CreateNext) {
    (
        CreateJob {
            plan: job.plan,
            dirty_ranges: if step == CreateStep::WriteMemory {
                None
            } else {
                job.dirty_ranges
            },
            state: if step == CreateStep::WriteState {
                None
            } else {
                job.state
            },
            phase: CreatePhase::Doing(step),
        },
        CreateNext::Act(action_of(job, step)),
    )
}

/// The end of the steps: the virtio-fs backend, if there is one, is told how it went and resumes.
pub open spec fn concluding(job: CreateJob, outcome: CreateOutcome) -> (CreateJob, CreateNext) {
    if job.plan.has_virtio_fs {
        (
            CreateJob { phase: CreatePhase::Finishing(outcome), ..job },
            CreateNext::Act(CreateAction::FinishVirtioFs { success: outcome is Created }),
        )
    } else {
        (CreateJob { phase: CreatePhase::Done, ..job }, CreateNext::Finish(outcome))
    }
}

/// The error that an event brings, if it is a failure.
pub open spec fn event_error(event: CreateEvent) -> Option<CreateSnapshotError> {
    match event {
        CreateEvent::VirtioFsPrepared(Err(e)) => Some(CreateSnapshotError::VirtioFs(e)),
        CreateEvent::StateSaved(Err(e)) => Some(CreateSnapshotError::MicrovmState(e)),
        CreateEvent::StateFileOpened(Err(e)) => Some(
            CreateSnapshotError::SnapshotBackingFile("open", e),
        ),
        CreateEvent::StateWritten(Err(e)) => Some(CreateSnapshotError::SerializeMicrovmState(e)),
        CreateEvent::StateFileFlushed(Err(e)) => Some(
            CreateSnapshotError::SnapshotBackingFile("flush", e),
        ),
        CreateEvent::StateFileSynced(Err(e)) => Some(
            CreateSnapshotError::SnapshotBackingFile("sync_all", e),
        ),
        CreateEvent::MemoryWritten(Err(e)) => Some(e),
        CreateEvent::VirtioFsFinished(Err(e)) => Some(CreateSnapshotError::VirtioFs(e)),
        _ => None,
    }
}

/// Whether an event tells what came of a step.
pub open spec fn event_ends(step: CreateStep, event: CreateEvent) -> bool {
    match step {
        CreateStep::PrepareVirtioFs => event is VirtioFsPrepared,
        CreateStep::CollectDirtyRanges => event is DirtyRangesCollected,
        CreateStep::SaveState => event is StateSaved,
        CreateStep::OpenStateFile => event is StateFileOpened,
        CreateStep::WriteState => event is StateWritten,
        CreateStep::FlushStateFile => event is StateFileFlushed,
        CreateStep::SyncStateFile => event is StateFileSynced,
        CreateStep::WriteMemory => event is MemoryWritten,
        CreateStep::MarkQueueMemory => event is QueueMemoryMarked,
    }
}

/// Whether an event tells what came of the pending action.
pub open spec fn event_fits(job: CreateJob, event: CreateEvent) -> bool {
    match job.phase {
        CreatePhase::Doing(step) => event_ends(step, event),
        CreatePhase::Finishing(_) => event is VirtioFsFinished,
        CreatePhase::Done => false,
    }
}

/// The job with what an event brought.
pub open spec fn receiving(job: CreateJob, event: CreateEvent) -> CreateJob {
    match event {
        CreateEvent::DirtyRangesCollected(ranges) => CreateJob {
            dirty_ranges: Some(ranges),
            ..job
        },
        CreateEvent::StateSaved(Ok(state)) => CreateJob { state: Some(state), ..job },
        _ => job,
    }
}

/// How far a snapshot has come after an event, and what is asked for next.
///
/// A step that succeeds is followed by the next step of the plan. A step that fails is the last: only
/// the virtio-fs backend still has to resume, if it has saved its state. An error of a step takes
/// precedence over one of the virtio-fs backend resuming.
pub open spec fn create_next(job: CreateJob, event: CreateEvent) -> (CreateJob, CreateNext) {
    match job.phase {
        CreatePhase::Doing(step) => match event_error(event) {
            Some(e) => if step == CreateStep::PrepareVirtioFs {
                (
                    CreateJob { phase: CreatePhase::Done, ..job },
                    CreateNext::Finish(CreateOutcome::Failed(e)),
                )
            } else {
                concluding(job, CreateOutcome::Failed(e))
            },
            None => {
                let job = receiving(job, event);
                match step_after(job.plan, step) {
                    None => concluding(job, CreateOutcome::Created),
                    Some(next) => if next == CreateStep::WriteMemory && !job.plan.has_kvm {
                        concluding(job, CreateOutcome::NoKvm)
                    } else {
                        entering(job, next)
                    },
                }
            },
        },
        CreatePhase::Finishing(outcome) => (
            CreateJob { phase: CreatePhase::Done, ..job },
            CreateNext::Finish(
                match (outcome, event_error(event)) {
                    (CreateOutcome::Created, Some(e)) => CreateOutcome::Failed(e),
                    _ => outcome,
                },
            ),
        ),
        CreatePhase::Done => (job, CreateNext::Finish(CreateOutcome::Created)),
    }
}

/// Whether a result reports an outcome.
pub open spec fn reports(outcome: CreateOutcome, result: Result<(), CreateSnapshotError>) -> bool {
    match outcome {
        CreateOutcome::Created => result is Ok,
        CreateOutcome::NoKvm => result matches Err(
            CreateSnapshotError::MicrovmState(MicrovmStateError::NotAllowed(why)),
        ) && why@ == REQUIRES_KVM@,
        CreateOutcome::Failed(e) => result == Err::<(), CreateSnapshotError>(e),
    }
}

/// Whether an action is what is asked for.
pub open spec fn asks(next: CreateNext, action: CreateAction) -> bool {
    match next {
        CreateNext::Act(wanted) => action == wanted,
        CreateNext::Finish(outcome) => action matches CreateAction::Finished(result) && reports(
            outcome,
            result,
        ),
    }
}

/// Whether a job holds what its next steps hand on, and has a virtio-fs device exactly when the
/// virtio-fs backend is asked to save its state.
pub open spec fn create_ready(job: CreateJob) -> bool {
    &&& job.plan.has_virtio_fs == (job.plan.fs_state_path is Some)
    &&& match job.phase {
        CreatePhase::Doing(step) => {
            &&& step == CreateStep::PrepareVirtioFs ==> job.plan.fs_state_path is Some
            &&& step == CreateStep::OpenStateFile ==> job.state is Some
            &&& step == CreateStep::WriteMemory || step == CreateStep::MarkQueueMemory
                ==> job.plan.mem_file_path is Some && job.plan.has_kvm
            &&& step == CreateStep::SaveState || step == CreateStep::OpenStateFile || step
                == CreateStep::WriteState || step == CreateStep::FlushStateFile || step
                == CreateStep::SyncStateFile ==> job.dirty_ranges is Some
            &&& step == CreateStep::SyncStateFile ==> !job.plan.deferred_sync
        },
        CreatePhase::Finishing(_) => job.plan.has_virtio_fs,
        CreatePhase::Done => true,
    }
}

/// Creates a snapshot of a microVM.
///
/// The request is examined before any work: a refused one asks for no action, so it neither captures
/// the state of the microVM nor touches a file. An accepted one comes with its first action; the
/// caller performs each action and hands what came of it to [`CreateJob::step`], until the action is
/// [`CreateAction::Finished`].
pub fn create_snapshot(vmm: &Vmm, vm_info: &VmInfo, params: &CreateSnapshotParams) -> (r: Result<
    (CreateJob, CreateAction),
    CreateSnapshotError,
>)
    ensures
        match refusal(*vmm, *params) {
            Some(why) => r == Err::<(CreateJob, CreateAction), CreateSnapshotError>(
                CreateSnapshotError::InvalidParams(why),
            ),
            None => r matches Ok(started) && {
                &&& started.0.plan == plan_of(*vmm, *vm_info, *params)
                &&& started.0.phase == CreatePhase::Doing(first_step(started.0.plan))
                &&& started.0.dirty_ranges is None
                &&& started.0.state is None
                &&& started.1 == action_of(started.0, first_step(started.0.plan))
                &&& create_ready(started.0)
            },
        },
{
    match (params.state_only, &params.mem_file_path) {
        (true, None) => {
            // Only the state file is written; memory is left to the caller.
            if params.snapshot_type != SnapshotType::Full {
                return Err(CreateSnapshotError::InvalidParams(STATE_ONLY_NOT_FULL));
            }
        },
        (false, Some(_)) => {},
        (true, Some(_)) => {
            return Err(CreateSnapshotError::InvalidParams(STATE_ONLY_WITH_MEMORY));
        },
        (false, None) => {
            return Err(CreateSnapshotError::InvalidParams(MEMORY_PATH_MISSING));
        },
    }
    match (vmm.has_virtio_fs, &params.fs_state_path) {
        (true, None) => {
            return Err(CreateSnapshotError::InvalidParams(FS_PATH_MISSING));
        },
        (false, Some(_)) => {
            return Err(CreateSnapshotError::InvalidParams(FS_PATH_UNUSED));
        },
        _ => {},
    }
    let plan = CreatePlan {
        has_virtio_fs: vmm.has_virtio_fs,
        has_kvm: vmm.has_kvm,
        vm_info: vm_info.clone(),
        snapshot_type: params.snapshot_type,
        snapshot_path: params.snapshot_path.clone(),
        mem_file_path: clone_text(&params.mem_file_path),
        deferred_sync: params.deferred_sync,
        fs_state_path: clone_text(&params.fs_state_path),
    };
    match &params.fs_state_path {
        Some(path) => {
            let action = CreateAction::PrepareVirtioFs {
                path: path.clone(),
                deferred_sync: plan.deferred_sync,
            };
            let phase = CreatePhase::Doing(CreateStep::PrepareVirtioFs);
            Ok((CreateJob { plan, dirty_ranges: None, state: None, phase }, action))
        },
        None => {
            let phase = CreatePhase::Doing(CreateStep::CollectDirtyRanges);
            Ok(
                (
                    CreateJob { plan, dirty_ranges: None, state: None, phase },
                    CreateAction::CollectDirtyRanges,
                ),
            )
        },
    }
}

/// Takes the error out of an event, if it is a failure.
fn take_error(event: CreateEvent) -> (r: Result<CreateEvent, CreateSnapshotError>)
    ensures
        match event_error(event) {
            Some(e) => r == Err::<CreateEvent, CreateSnapshotError>(e),
            None => r == Ok::<CreateEvent, CreateSnapshotError>(event),
        },
{
    match event {
        CreateEvent::VirtioFsPrepared(Err(e)) => Err(CreateSnapshotError::VirtioFs(e)),
        CreateEvent::StateSaved(Err(e)) => Err(CreateSnapshotError::MicrovmState(e)),
        CreateEvent::StateFileOpened(Err(e)) => Err(
            CreateSnapshotError::SnapshotBackingFile("open", e),
        ),
        CreateEvent::StateWritten(Err(e)) => Err(CreateSnapshotError::SerializeMicrovmState(e)),
        CreateEvent::StateFileFlushed(Err(e)) => Err(
            CreateSnapshotError::SnapshotBackingFile("flush", e),
        ),
        CreateEvent::StateFileSynced(Err(e)) => Err(
            CreateSnapshotError::SnapshotBackingFile("sync_all", e),
        ),
        CreateEvent::MemoryWritten(Err(e)) => Err(e),
        CreateEvent::VirtioFsFinished(Err(e)) => Err(CreateSnapshotError::VirtioFs(e)),
        other => Ok(other),
    }
}

/// Words an outcome as a result.
fn result_of(outcome: CreateOutcome) -> (result: Result<(), CreateSnapshotError>)
    ensures
        reports(outcome, result),
{
    match outcome {
        CreateOutcome::Created => Ok(()),
        CreateOutcome::NoKvm => Err(
            CreateSnapshotError::MicrovmState(
                MicrovmStateError::NotAllowed(REQUIRES_KVM.to_string()),
            ),
        ),
        CreateOutcome::Failed(e) => Err(e),
    }
}

impl CreateJob {
    /// Takes what came of the pending action and says what to do next.
    pub fn step(self, event: CreateEvent) -> (next: (CreateJob, CreateAction))
        requires
            create_ready(self),
            event_fits(self, event),
        ensures
            next.0 == create_next(self, event).0,
            asks(create_next(self, event).1, next.1),
            create_ready(next.0),
    {
        let CreateJob { plan, dirty_ranges, state, phase } = self;
        match phase {
            CreatePhase::Doing(step) => {
                let phase = CreatePhase::Doing(step);
                match take_error(event) {
                    Err(e) => {
                        if step == CreateStep::PrepareVirtioFs {
                            let job = CreateJob {
                                plan,
                                dirty_ranges,
                                state,
                                phase: CreatePhase::Done,
                            };
                            return (job, CreateAction::Finished(Err(e)));
                        }
                        let job = CreateJob { plan, dirty_ranges, state, phase };
                        job.conclude(CreateOutcome::Failed(e))
                    },
                    Ok(event) => {
                        let job = match event {
                            CreateEvent::DirtyRangesCollected(ranges) => CreateJob {
                                plan,
                                dirty_ranges: Some(ranges),
                                state,
                                phase,
                            },
                            CreateEvent::StateSaved(Ok(saved)) => CreateJob {
                                plan,
                                dirty_ranges,
                                state: Some(saved),
                                phase,
                            },
                            _ => CreateJob { plan, dirty_ranges, state, phase },
                        };
                        job.advance(step)
                    },
                }
            },
            CreatePhase::Finishing(outcome) => {
                let job = CreateJob { plan, dirty_ranges, state, phase: CreatePhase::Done };
                let result = match outcome {
                    CreateOutcome::Created => match take_error(event) {
                        Err(e) => result_of(CreateOutcome::Failed(e)),
                        Ok(_) => result_of(CreateOutcome::Created),
                    },
                    other => result_of(other),
                };
                (job, CreateAction::Finished(result))
            },
            CreatePhase::Done => unreached(),
        }
    }

    /// Goes on to the step that follows the one that succeeded.
    fn advance(self, step: CreateStep) -> (next: (CreateJob, CreateAction))
        requires
            create_ready(CreateJob { phase: CreatePhase::Doing(step), ..self }),
            step == CreateStep::SaveState ==> self.state is Some,
            step == CreateStep::CollectDirtyRanges ==> self.dirty_ranges is Some,
        ensures
            ({
                let wanted = match step_after(self.plan, step) {
                    None => concluding(self, CreateOutcome::Created),
                    Some(next) => if next == CreateStep::WriteMemory && !self.plan.has_kvm {
                        concluding(self, CreateOutcome::NoKvm)
                    } else {
                        entering(self, next)
                    },
                };
                &&& next.0 == wanted.0
                &&& asks(wanted.1, next.1)
                &&& create_ready(next.0)
            }),
    {
        match step {
            CreateStep::PrepareVirtioFs => {
                let phase = CreatePhase::Doing(CreateStep::CollectDirtyRanges);
                (CreateJob { phase, ..self }, CreateAction::CollectDirtyRanges)
            },
            CreateStep::CollectDirtyRanges => {
                let phase = CreatePhase::Doing(CreateStep::SaveState);
                let action = CreateAction::SaveState { vm_info: self.plan.vm_info.clone() };
                (CreateJob { phase, ..self }, action)
            },
            CreateStep::SaveState => {
                let phase = CreatePhase::Doing(CreateStep::OpenStateFile);
                let action = CreateAction::OpenStateFile { path: self.plan.snapshot_path.clone() };
                (CreateJob { phase, ..self }, action)
            },
            CreateStep::OpenStateFile => {
                let CreateJob { plan, dirty_ranges, state, phase: _ } = self;
                let phase = CreatePhase::Doing(CreateStep::WriteState);
                let action = CreateAction::WriteState { state: state.unwrap() };
                (CreateJob { plan, dirty_ranges, state: None, phase }, action)
            },
            CreateStep::WriteState => {
                let phase = CreatePhase::Doing(CreateStep::FlushStateFile);
                (CreateJob { phase, ..self }, CreateAction::FlushStateFile)
            },
            CreateStep::FlushStateFile => {
                if self.plan.deferred_sync {
                    // Durability is left to the caller.
                    return self.write_memory();
                }
                let phase = CreatePhase::Doing(CreateStep::SyncStateFile);
                (CreateJob { phase, ..self }, CreateAction::SyncStateFile)
            },
            CreateStep::SyncStateFile => self.write_memory(),
            CreateStep::WriteMemory => {
                let phase = CreatePhase::Doing(CreateStep::MarkQueueMemory);
                (CreateJob { phase, ..self }, CreateAction::MarkQueueMemory)
            },
            CreateStep::MarkQueueMemory => self.conclude(CreateOutcome::Created),
        }
    }

    /// Goes on to memory once the state is on file, if memory is to be written.
    fn write_memory(self) -> (next: (CreateJob, CreateAction))
        requires
            self.plan.has_virtio_fs == (self.plan.fs_state_path is Some),
            self.dirty_ranges is Some,
        ensures
            ({
                let wanted = if self.plan.mem_file_path is None {
                    concluding(self, CreateOutcome::Created)
                } else if !self.plan.has_kvm {
                    concluding(self, CreateOutcome::NoKvm)
                } else {
                    entering(self, CreateStep::WriteMemory)
                };
                &&& next.0 == wanted.0
                &&& asks(wanted.1, next.1)
                &&& create_ready(next.0)
            }),
    {
        let path = match &self.plan.mem_file_path {
            Some(path) => path.clone(),
            None => {
                return self.conclude(CreateOutcome::Created);
            },
        };
        if !self.plan.has_kvm {
            return self.conclude(CreateOutcome::NoKvm);
        }
        let CreateJob { plan, dirty_ranges, state, phase: _ } = self;
        let action = CreateAction::WriteMemory {
            path,
            snapshot_type: plan.snapshot_type,
            deferred_sync: plan.deferred_sync,
            virtio_fs_dirty_ranges: dirty_ranges.unwrap(),
            has_virtio_fs: plan.has_virtio_fs,
        };
        let phase = CreatePhase::Doing(CreateStep::WriteMemory);
        (CreateJob { plan, dirty_ranges: None, state, phase }, action)
    }

    /// Ends the steps.
    fn conclude(self, outcome: CreateOutcome) -> (next: (CreateJob, CreateAction))
        requires
            self.plan.has_virtio_fs == (self.plan.fs_state_path is Some),
        ensures
            next.0 == concluding(self, outcome).0,
            asks(concluding(self, outcome).1, next.1),
            create_ready(next.0),
    {
        if self.plan.has_virtio_fs {
            let success = match &outcome {
                CreateOutcome::Created => true,
                _ => false,
            };
            let job = CreateJob { phase: CreatePhase::Finishing(outcome), ..self };
            (job, CreateAction::FinishVirtioFs { success })
        } else {
            let job = CreateJob { phase: CreatePhase::Done, ..self };
            (job, CreateAction::Finished(result_of(outcome)))
        }
    }
}

/// The step of a plan that comes after a number of steps is the one that follows the step before it.
pub proof fn law_steps_follow_the_plan(plan: CreatePlan, i: int)
    requires
        0 <= i < steps(plan).len(),
    ensures
        steps(plan)[0] == first_step(plan),
        step_after(plan, steps(plan)[i]) == (if i + 1 < steps(plan).len() {
            Some(steps(plan)[i + 1])
        } else {
            None::<CreateStep>
        }),
{
    reveal(steps);
}

/// Where steps stand in a plan: the virtio-fs backend saves its state first, memory is written last
/// but one, and other steps come before either can be the last.
proof fn lemma_step_positions(plan: CreatePlan, i: int)
    requires
        0 <= i < steps(plan).len(),
    ensures
        steps(plan)[i] == CreateStep::PrepareVirtioFs ==> i == 0,
        steps(plan)[i] == CreateStep::WriteMemory ==> {
            &&& plan.mem_file_path is Some
            &&& i == steps(plan).len() - 2
            &&& i >= 2
        },
        step_after(plan, steps(plan)[i]) is None ==> i >= 2,
        plan.mem_file_path is Some ==> steps(plan).len() >= 2 && steps(plan)[steps(plan).len() - 2]
            == CreateStep::WriteMemory,
{
    reveal(steps);
}

/// The state file is flushed and synchronized before memory is written.
proof fn lemma_state_comes_before_memory(plan: CreatePlan, i: int, memory: int)
    requires
        0 <= i < steps(plan).len(),
        0 <= memory < steps(plan).len(),
        steps(plan)[i] == CreateStep::FlushStateFile || steps(plan)[i] == CreateStep::SyncStateFile,
        steps(plan)[memory] == CreateStep::WriteMemory,
    ensures
        i < memory,
{
    reveal(steps);
}

/// Whether a job is at its start.
pub open spec fn create_started(job: CreateJob) -> bool {
    &&& create_ready(job)
    &&& job.phase == CreatePhase::Doing(first_step(job.plan))
    &&& job.dirty_ranges is None
    &&& job.state is None
}

/// Whether each event of a run tells what came of the action that was pending when it came.
pub open spec fn create_runs(start: CreateJob, events: Seq<CreateEvent>) -> bool
    decreases events.len(),
{
    events.len() == 0 || {
        &&& create_runs(start, events.drop_last())
        &&& event_fits(create_after(start, events.drop_last()).0, events.last())
    }
}

/// How far a snapshot has come after the events of a run, and what is asked for.
pub open spec fn create_after(start: CreateJob, events: Seq<CreateEvent>) -> (CreateJob, CreateNext)
    decreases events.len(),
{
    if events.len() == 0 {
        (start, CreateNext::Act(action_of(start, first_step(start.plan))))
    } else {
        create_next(create_after(start, events.drop_last()).0, events.last())
    }
}

/// Whether no event of a run is a failure.
pub open spec fn all_succeeded(events: Seq<CreateEvent>) -> bool {
    forall|i: int| 0 <= i < events.len() ==> event_error(#[trigger] events[i]) is None
}

/// Whether the error is that of the first event that is a failure.
pub open spec fn is_first_failure(
    events: Seq<CreateEvent>,
    at: int,
    error: CreateSnapshotError,
) -> bool {
    &&& 0 <= at < events.len()
    &&& event_error(events[at]) == Some(error)
    &&& forall|j: int| 0 <= j < at ==> event_error(#[trigger] events[j]) is None
}

/// Whether the virtio-fs backend was not asked to resume in a run.
spec fn none_finishes(events: Seq<CreateEvent>) -> bool {
    forall|i: int| 0 <= i < events.len() ==> !((#[trigger] events[i]) is VirtioFsFinished)
}

/// Whether the steps came to an outcome after these events.
spec fn came_to(plan: CreatePlan, events: Seq<CreateEvent>, outcome: CreateOutcome) -> bool {
    match outcome {
        CreateOutcome::Created => all_succeeded(events) && events.len() == steps(plan).len(),
        CreateOutcome::NoKvm => {
            &&& all_succeeded(events)
            &&& plan.mem_file_path is Some
            &&& !plan.has_kvm
            &&& events.len() == steps(plan).len() - 2
        },
        CreateOutcome::Failed(e) => is_first_failure(events, events.len() - 1, e),
    }
}

/// What holds of a snapshot at every point of a run.
spec fn create_invariant(
    plan: CreatePlan,
    job: CreateJob,
    next: CreateNext,
    events: Seq<CreateEvent>,
) -> bool {
    &&& job.plan == plan
    &&& create_ready(job)
    &&& next is Finish <==> job.phase is Done
    &&& match job.phase {
        CreatePhase::Doing(step) => {
            &&& all_succeeded(events)
            &&& events.len() < steps(plan).len()
            &&& step == steps(plan)[events.len() as int]
            &&& none_finishes(events)
        },
        CreatePhase::Finishing(outcome) => {
            &&& came_to(plan, events, outcome)
            &&& events.len() >= 2
            &&& next == CreateNext::Act(
                CreateAction::FinishVirtioFs { success: outcome is Created },
            )
            &&& none_finishes(events)
        },
        CreatePhase::Done => create_over(plan, next->Finish_0, events),
    }
}

/// What holds of a snapshot that is over.
spec fn create_over(plan: CreatePlan, outcome: CreateOutcome, events: Seq<CreateEvent>) -> bool {
    if !plan.has_virtio_fs {
        &&& came_to(plan, events, outcome)
        &&& none_finishes(events)
    } else if events.len() == 1 {
        &&& outcome is Failed
        &&& came_to(plan, events, outcome)
        &&& events[0] is VirtioFsPrepared
    } else {
        let earlier = events.drop_last();
        &&& events.len() >= 3
        &&& events.last() is VirtioFsFinished
        &&& none_finishes(earlier)
        &&& match event_error(events.last()) {
            None => came_to(plan, earlier, outcome),
            Some(e) => {
                ||| came_to(plan, earlier, CreateOutcome::Created) && outcome
                    == CreateOutcome::Failed(e)
                ||| !(outcome is Created) && came_to(plan, earlier, outcome)
            },
        }
    }
}

/// What a run has become by one more event.
proof fn lemma_run_grows(events: Seq<CreateEvent>)
    requires
        events.len() > 0,
    ensures
        all_succeeded(events.drop_last()) && event_error(events.last()) is None ==> all_succeeded(
            events,
        ),
        all_succeeded(events.drop_last()) && event_error(events.last()) is Some ==> is_first_failure(
            events,
            events.len() - 1,
            event_error(events.last())->0,
        ),
        none_finishes(events.drop_last()) && !(events.last() is VirtioFsFinished) ==> none_finishes(
            events,
        ),
{
    let earlier = events.drop_last();
    assert forall|i: int| 0 <= i < earlier.len() implies earlier[i] == #[trigger] events[i] by {}
    if all_succeeded(earlier) {
        assert forall|j: int| 0 <= j < earlier.len() implies event_error(
            #[trigger] events[j],
        ) is None by {
            assert(event_error(earlier[j]) is None);
        }
    }
    if none_finishes(earlier) {
        assert forall|j: int| 0 <= j < earlier.len() implies !((
        #[trigger] events[j]) is VirtioFsFinished) by {
            assert(!(earlier[j] is VirtioFsFinished));
        }
    }
}

/// The invariant holds after a step if it held before.
#[verifier::rlimit(40)]
proof fn lemma_invariant_after_step(
    plan: CreatePlan,
    job: CreateJob,
    next: CreateNext,
    events: Seq<CreateEvent>,
)
    requires
        events.len() > 0,
        create_invariant(plan, job, next, events.drop_last()),
        job.phase is Doing,
        event_fits(job, events.last()),
        events.len() == 1 ==> job.phase == CreatePhase::Doing(first_step(plan)),
    ensures
        create_invariant(
            plan,
            create_next(job, events.last()).0,
            create_next(job, events.last()).1,
            events,
        ),
{
    let earlier = events.drop_last();
    let last = events.last();
    let step = job.phase->Doing_0;
    lemma_run_grows(events);
    law_steps_follow_the_plan(plan, earlier.len() as int);
    assert(none_finishes(events));
    lemma_step_positions(plan, earlier.len() as int);
    match event_error(last) {
        Some(e) => {
            assert(came_to(plan, events, CreateOutcome::Failed(e)));
        },
        None => {
            if let Some(following) = step_after(plan, step) {
                assert(steps(plan)[events.len() as int] == following);
                lemma_step_positions(plan, events.len() as int);
                if following == CreateStep::WriteMemory && !plan.has_kvm {
                    assert(came_to(plan, events, CreateOutcome::NoKvm));
                }
            } else {
                assert(came_to(plan, events, CreateOutcome::Created));
            }
        },
    }
}

/// The invariant holds after the virtio-fs backend has resumed if it held before.
proof fn lemma_invariant_after_finish(
    plan: CreatePlan,
    job: CreateJob,
    next: CreateNext,
    events: Seq<CreateEvent>,
)
    requires
        events.len() > 0,
        create_invariant(plan, job, next, events.drop_last()),
        job.phase is Finishing,
        event_fits(job, events.last()),
    ensures
        create_invariant(
            plan,
            create_next(job, events.last()).0,
            create_next(job, events.last()).1,
            events,
        ),
{
}

proof fn lemma_create_invariant(start: CreateJob, events: Seq<CreateEvent>)
    requires
        create_started(start),
        create_runs(start, events),
    ensures
        create_invariant(
            start.plan,
            create_after(start, events).0,
            create_after(start, events).1,
            events,
        ),
    decreases events.len(),
{
    if events.len() == 0 {
        lemma_steps_are_some(start.plan);
        law_steps_follow_the_plan(start.plan, 0);
    } else {
        let earlier = events.drop_last();
        lemma_create_invariant(start, earlier);
        let (before, asked) = create_after(start, earlier);
        if before.phase is Doing {
            lemma_invariant_after_step(start.plan, before, asked, events);
        } else if before.phase is Finishing {
            lemma_invariant_after_finish(start.plan, before, asked, events);
        }
    }
}

proof fn lemma_steps_are_some(plan: CreatePlan)
    ensures
        steps(plan).len() > 0,
{
    reveal(steps);
}

/// The steps come in the order of the plan, each at most once, and a step is started only when all
/// before it succeeded. In particular memory is written only when the state is on file, and the
/// memory of the queues is marked only when memory was written.
pub proof fn law_steps_come_in_order(start: CreateJob, events: Seq<CreateEvent>)
    requires
        create_started(start),
        create_runs(start, events),
    ensures
        create_after(start, events).0.phase matches CreatePhase::Doing(step) ==> {
            &&& all_succeeded(events)
            &&& events.len() < steps(start.plan).len()
            &&& step == steps(start.plan)[events.len() as int]
        },
{
    lemma_create_invariant(start, events);
}

/// A snapshot is reported as created exactly when every step of the plan succeeded, and so did the
/// virtio-fs backend, if there is one, in resuming.
pub proof fn law_created_means_every_step_succeeded(start: CreateJob, events: Seq<CreateEvent>)
    requires
        create_started(start),
        create_runs(start, events),
        create_after(start, events).0.phase is Done,
    ensures
        create_after(start, events).1 is Finish,
        create_after(start, events).1->Finish_0 is Created <==> {
            &&& all_succeeded(events)
            &&& events.len() == steps(start.plan).len() + if start.plan.has_virtio_fs {
                1int
            } else {
                0int
            }
        },
{
    lemma_create_invariant(start, events);
    let outcome = create_after(start, events).1->Finish_0;
    if start.plan.has_virtio_fs && events.len() > 1 {
        let earlier = events.drop_last();
        if outcome is Created {
            assert forall|i: int| 0 <= i < events.len() implies event_error(
                #[trigger] events[i],
            ) is None by {
                if i < earlier.len() {
                    assert(event_error(earlier[i]) is None);
                }
            }
        } else if all_succeeded(events) {
            assert(event_error(events[events.len() - 1]) is None);
            if outcome is Failed {
                assert(event_error(earlier[earlier.len() - 1]) == event_error(
                    events[earlier.len() - 1],
                ));
            }
        }
    }
}

/// The error that is reported is that of the first failure, whatever fails after it.
pub proof fn law_first_failure_is_reported(start: CreateJob, events: Seq<CreateEvent>)
    requires
        create_started(start),
        create_runs(start, events),
    ensures
        create_after(start, events).1 matches CreateNext::Finish(CreateOutcome::Failed(e))
            ==> exists|at: int| is_first_failure(events, at, e),
{
    lemma_create_invariant(start, events);
    if let CreateNext::Finish(CreateOutcome::Failed(e)) = create_after(start, events).1 {
        let last = events.len() - 1;
        if start.plan.has_virtio_fs && events.len() > 1 {
            let earlier = events.drop_last();
            if came_to(start.plan, earlier, CreateOutcome::Failed(e)) {
                assert forall|j: int| 0 <= j < last - 1 implies event_error(
                    #[trigger] events[j],
                ) is None by {
                    assert(event_error(earlier[j]) is None);
                }
                assert(events[last - 1] == earlier[last - 1]);
                assert(is_first_failure(events, last - 1, e));
            } else {
                assert forall|j: int| 0 <= j < last implies event_error(
                    #[trigger] events[j],
                ) is None by {
                    assert(event_error(earlier[j]) is None);
                }
                assert(is_first_failure(events, last, e));
            }
        } else {
            assert(is_first_failure(events, last, e));
        }
    }
}

/// A virtio-fs backend that has saved its state always resumes, as the last thing that happens and
/// told whether the snapshot was created; one that failed to save its state, or is not there, is
/// not asked to resume.
pub proof fn law_virtio_fs_always_resumes(start: CreateJob, events: Seq<CreateEvent>)
    requires
        create_started(start),
        create_runs(start, events),
    ensures
        create_after(start, events).0.phase is Done && start.plan.has_virtio_fs && event_error(
            events[0],
        ) is None ==> events.last() is VirtioFsFinished,
        create_after(start, events).1 matches CreateNext::Act(
            CreateAction::FinishVirtioFs { success },
        ) ==> {
            &&& start.plan.has_virtio_fs
            &&& event_error(events[0]) is None
            &&& success <==> all_succeeded(events) && events.len() == steps(start.plan).len()
        },
        forall|i: int|
            0 <= i < events.len() && (#[trigger] events[i]) is VirtioFsFinished ==> {
                &&& start.plan.has_virtio_fs
                &&& i == events.len() - 1
                &&& i > 0
                &&& event_error(events[0]) is None
            },
{
    lemma_create_invariant(start, events);
    let (job, next) = create_after(start, events);
    if job.phase is Done && start.plan.has_virtio_fs && events.len() > 1 {
        let earlier = events.drop_last();
        assert(earlier[0] == events[0]);
        assert(event_error(earlier[0]) is None);
        assert forall|i: int| 0 <= i < earlier.len() implies !((
        #[trigger] events[i]) is VirtioFsFinished) by {
            assert(!(earlier[i] is VirtioFsFinished));
        }
    }
    if let CreatePhase::Finishing(outcome) = job.phase {
        if outcome is Failed {
            assert(event_error(events[events.len() - 1]) is Some);
        }
    }
    if let CreateNext::Act(CreateAction::FinishVirtioFs { success }) = next {
        lemma_finish_is_asked_when_finishing(start, events);
    }
}

proof fn lemma_finish_is_asked_when_finishing(start: CreateJob, events: Seq<CreateEvent>)
    requires
        create_started(start),
        create_runs(start, events),
        create_after(start, events).1 matches CreateNext::Act(CreateAction::FinishVirtioFs { .. }),
    ensures
        create_after(start, events).0.phase is Finishing,
{
    if events.len() > 0 {
        lemma_create_invariant(start, events.drop_last());
    }
}

/// Whether guest memory was written to its file in a run, with the flush and the synchronization that
/// the request asks for.
pub open spec fn memory_persisted(events: Seq<CreateEvent>) -> bool {
    exists|i: int|
        0 <= i < events.len() && ((#[trigger] events[i]) matches CreateEvent::MemoryWritten(Ok(_)))
}

/// Whether an event tells that the state file could not be flushed or synchronized, or memory not be
/// written.
pub open spec fn is_failed_write(event: CreateEvent) -> bool {
    match event {
        CreateEvent::StateFileFlushed(r) => r is Err,
        CreateEvent::StateFileSynced(r) => r is Err,
        CreateEvent::MemoryWritten(r) => r is Err,
        _ => false,
    }
}

/// Whether such an event is in a run.
pub open spec fn write_failed(events: Seq<CreateEvent>) -> bool {
    exists|i: int| 0 <= i < events.len() && is_failed_write(#[trigger] events[i])
}

/// An event of a run, other than the virtio-fs backend resuming, tells what came of the step of the
/// plan at its place, and all before it succeeded.
proof fn lemma_event_is_of_its_step(start: CreateJob, events: Seq<CreateEvent>, i: int)
    requires
        create_started(start),
        create_runs(start, events),
        0 <= i < events.len(),
        !(events[i] is VirtioFsFinished),
    ensures
        i < steps(start.plan).len(),
        event_ends(steps(start.plan)[i], events[i]),
        all_succeeded(events.take(i)),
    decreases events.len(),
{
    let earlier = events.drop_last();
    if i < earlier.len() {
        assert(earlier[i] == events[i]);
        lemma_event_is_of_its_step(start, earlier, i);
        assert(earlier.take(i) =~= events.take(i));
    } else {
        lemma_create_invariant(start, earlier);
        assert(earlier =~= events.take(i));
    }
}

/// A snapshot that is reported as created has written memory, if it was asked to. Memory is written
/// only when it was asked for and the state file was flushed and synchronized: where one of these
/// failed, or writing memory did, the snapshot is not reported as created and has no memory.
pub proof fn law_created_means_memory_was_persisted(start: CreateJob, events: Seq<CreateEvent>)
    requires
        create_started(start),
        create_runs(start, events),
    ensures
        create_after(start, events).1 matches CreateNext::Finish(CreateOutcome::Created) ==> (
        start.plan.mem_file_path is Some <==> memory_persisted(events)),
        memory_persisted(events) ==> start.plan.mem_file_path is Some,
        write_failed(events) ==> !memory_persisted(events),
        write_failed(events) ==> !(create_after(start, events).1 matches CreateNext::Finish(
            CreateOutcome::Created,
        )),
{
    let plan = start.plan;
    let next = create_after(start, events).1;
    if next matches CreateNext::Finish(CreateOutcome::Created) {
        law_created_means_every_step_succeeded(start, events);
        if plan.mem_file_path is Some {
            lemma_steps_are_some(plan);
            lemma_step_positions(plan, 0);
            let at = steps(plan).len() - 2;
            assert(!(events[at] is VirtioFsFinished)) by {
                law_virtio_fs_always_resumes(start, events);
            }
            lemma_event_is_of_its_step(start, events, at);
            assert(event_error(events[at]) is None);
        }
        if write_failed(events) {
            let k = choose|k: int| 0 <= k < events.len() && is_failed_write(#[trigger] events[k]);
            assert(event_error(events[k]) is None);
        }
    }
    if memory_persisted(events) {
        let i = choose|i: int|
            0 <= i < events.len() && ((#[trigger] events[i]) matches CreateEvent::MemoryWritten(
                Ok(_),
            ));
        lemma_event_is_of_its_step(start, events, i);
        lemma_step_positions(plan, i);
        if write_failed(events) {
            let k = choose|k: int| 0 <= k < events.len() && is_failed_write(#[trigger] events[k]);
            lemma_event_is_of_its_step(start, events, k);
            lemma_step_positions(plan, k);
            if !(events[k] is MemoryWritten) {
                lemma_state_comes_before_memory(plan, k, i);
                assert(event_error(events.take(i)[k]) is None);
            }
        }
    }
}

/// A request is accepted exactly when its parts go together: memory is written somewhere unless only the
/// state is, which then is a Full snapshot, and the virtio-fs backend saves its state somewhere exactly
/// when there is one. Otherwise the reason is that of the first part that does not fit.
pub proof fn law_requests_have_to_go_together(vmm: Vmm, params: CreateSnapshotParams)
    ensures
        ({
            let full = params.state_only && params.mem_file_path is None ==> params.snapshot_type
                == SnapshotType::Full;
            let memory = params.state_only <==> params.mem_file_path is None;
            let fs = vmm.has_virtio_fs <==> params.fs_state_path is Some;
            &&& refusal(vmm, params) is None <==> full && memory && fs
            &&& !full ==> refusal(vmm, params)->0@
                == "state_only snapshots require snapshot_type Full: no memory write or ledger transition happens"@
            &&& full && !memory && params.state_only ==> refusal(vmm, params)->0@
                == "mem_file_path must be omitted when state_only is true"@
            &&& full && !memory && !params.state_only ==> refusal(vmm, params)->0@
                == "mem_file_path is required unless state_only is true"@
            &&& full && memory && !fs && vmm.has_virtio_fs ==> refusal(vmm, params)->0@
                == "fs_state_path is required when virtio-fs is configured"@
            &&& full && memory && !fs && !vmm.has_virtio_fs ==> refusal(vmm, params)->0@
                == "fs_state_path was provided but no virtio-fs device is configured"@
        }),
{
}

/// What is planned for a request is what it says, part by part, for the microVM that it is about.
pub proof fn law_plan_is_the_request(vmm: Vmm, vm_info: VmInfo, params: CreateSnapshotParams)
    ensures
        plan_of(vmm, vm_info, params).has_virtio_fs == vmm.has_virtio_fs,
        plan_of(vmm, vm_info, params).has_kvm == vmm.has_kvm,
        plan_of(vmm, vm_info, params).vm_info == vm_info,
        plan_of(vmm, vm_info, params).snapshot_type == params.snapshot_type,
        plan_of(vmm, vm_info, params).snapshot_path == params.snapshot_path,
        plan_of(vmm, vm_info, params).mem_file_path == params.mem_file_path,
        plan_of(vmm, vm_info, params).deferred_sync == params.deferred_sync,
        plan_of(vmm, vm_info, params).fs_state_path == params.fs_state_path,
{
}

/// Whether the ranges that the virtio-fs backend has written were collected in a run, and are these.
pub open spec fn ranges_collected(events: Seq<CreateEvent>, ranges: Vec<MemoryRange>) -> bool {
    exists|i: int|
        0 <= i < events.len() && #[trigger] events[i] == CreateEvent::DirtyRangesCollected(ranges)
}

/// Whether the state of the microVM was saved in a run, and is this.
pub open spec fn state_saved(events: Seq<CreateEvent>, state: MicrovmState) -> bool {
    exists|i: int| 0 <= i < events.len() && #[trigger] events[i] == CreateEvent::StateSaved(Ok(state))
}

spec fn job_holds_what_came(job: CreateJob, events: Seq<CreateEvent>) -> bool {
    &&& job.dirty_ranges matches Some(ranges) ==> ranges_collected(events, ranges)
    &&& job.state matches Some(state) ==> state_saved(events, state)
}

proof fn lemma_job_holds_what_came(start: CreateJob, events: Seq<CreateEvent>)
    requires
        create_started(start),
        create_runs(start, events),
    ensures
        job_holds_what_came(create_after(start, events).0, events),
    decreases events.len(),
{
    if events.len() > 0 {
        let earlier = events.drop_last();
        let last = events.last();
        lemma_job_holds_what_came(start, earlier);
        lemma_create_invariant(start, earlier);
        assert(events[events.len() - 1] == last);
        lemma_collected_stays(earlier, last);
        assert(earlier.push(last) =~= events);
        if let CreateEvent::DirtyRangesCollected(ranges) = last {
            assert(ranges_collected(events, ranges));
        }
        if let CreateEvent::StateSaved(Ok(state)) = last {
            assert(state_saved(events, state));
        }
    }
}

proof fn lemma_collected_stays(events: Seq<CreateEvent>, event: CreateEvent)
    ensures
        forall|ranges: Vec<MemoryRange>| #[trigger]
            ranges_collected(events, ranges) ==> ranges_collected(events.push(event), ranges),
        forall|state: MicrovmState| #[trigger]
            state_saved(events, state) ==> state_saved(events.push(event), state),
{
    let more = events.push(event);
    assert forall|ranges: Vec<MemoryRange>| #[trigger]
        ranges_collected(events, ranges) implies ranges_collected(more, ranges) by {
        let i = choose|i: int|
            0 <= i < events.len() && #[trigger] events[i] == CreateEvent::DirtyRangesCollected(ranges);
        assert(more[i] == events[i]);
    }
    assert forall|state: MicrovmState| #[trigger]
        state_saved(events, state) implies state_saved(more, state) by {
        let i = choose|i: int|
            0 <= i < events.len() && #[trigger] events[i] == CreateEvent::StateSaved(Ok(state));
        assert(more[i] == events[i]);
    }
}

/// In every run for an accepted request what is asked for is what the request says. Memory is written
/// with the snapshot type, the path and the synchronization of the request, the ranges that were
/// collected, and whether there is a virtio-fs device. The state that is written is the one that was
/// saved, with the information that was given, and goes to the path of the request. The virtio-fs
/// backend saves its state where the request says.
pub proof fn law_actions_carry_the_request(
    vmm: Vmm,
    vm_info: VmInfo,
    params: CreateSnapshotParams,
    start: CreateJob,
    events: Seq<CreateEvent>,
)
    requires
        refusal(vmm, params) is None,
        create_started(start),
        start.plan == plan_of(vmm, vm_info, params),
        create_runs(start, events),
    ensures
        match create_after(start, events).1 {
            CreateNext::Act(
                CreateAction::WriteMemory {
                    path,
                    snapshot_type,
                    deferred_sync,
                    virtio_fs_dirty_ranges,
                    has_virtio_fs,
                },
            ) => {
                &&& snapshot_type == params.snapshot_type
                &&& params.mem_file_path == Some(path)
                &&& deferred_sync == params.deferred_sync
                &&& ranges_collected(events, virtio_fs_dirty_ranges)
                &&& has_virtio_fs == vmm.has_virtio_fs
                &&& vmm.has_kvm
            },
            CreateNext::Act(CreateAction::PrepareVirtioFs { path, deferred_sync }) => {
                &&& params.fs_state_path == Some(path)
                &&& deferred_sync == params.deferred_sync
                &&& vmm.has_virtio_fs
            },
            CreateNext::Act(CreateAction::SaveState { vm_info: info }) => info == vm_info,
            CreateNext::Act(CreateAction::OpenStateFile { path }) => path == params.snapshot_path,
            CreateNext::Act(CreateAction::WriteState { state }) => state_saved(events, state),
            CreateNext::Act(CreateAction::SyncStateFile) => !params.deferred_sync,
            CreateNext::Act(CreateAction::FinishVirtioFs { .. }) => vmm.has_virtio_fs,
            CreateNext::Finish(CreateOutcome::NoKvm) => !vmm.has_kvm && params.mem_file_path is Some,
            _ => true,
        },
{
    law_plan_is_the_request(vmm, vm_info, params);
    law_requests_have_to_go_together(vmm, params);
    lemma_create_invariant(start, events);
    lemma_job_holds_what_came(start, events);
    if events.len() > 0 {
        let earlier = events.drop_last();
        let last = events.last();
        lemma_create_invariant(start, earlier);
        lemma_job_holds_what_came(start, earlier);
        lemma_collected_stays(earlier, last);
        assert(earlier.push(last) =~= events);
        let before = create_after(start, earlier).0;
        if before.phase is Doing {
            law_creating_goes_step_by_step(before, last);
        }
    }
}

/// The first thing that is asked for is that the virtio-fs backend saves its state, if there is one, and
/// otherwise that the ranges it has written are collected.
pub proof fn law_creating_starts_with_virtio_fs(start: CreateJob)
    requires
        create_started(start),
    ensures
        start.plan.fs_state_path matches Some(path) ==> create_after(start, Seq::empty()).1
            == CreateNext::Act(
            CreateAction::PrepareVirtioFs { path, deferred_sync: start.plan.deferred_sync },
        ),
        start.plan.fs_state_path is None ==> create_after(start, Seq::empty()).1 == CreateNext::Act(
            CreateAction::CollectDirtyRanges,
        ),
{
}

/// Whether a run is concluded with an outcome: where there is a virtio-fs device its backend is told
/// whether the snapshot was created, and otherwise the outcome is the result.
pub open spec fn concludes(
    job: CreateJob,
    after: (CreateJob, CreateNext),
    outcome: CreateOutcome,
) -> bool {
    if job.plan.has_virtio_fs {
        &&& after.0.phase == CreatePhase::Finishing(outcome)
        &&& after.1 matches CreateNext::Act(CreateAction::FinishVirtioFs { success })
        &&& success <==> outcome is Created
    } else {
        &&& after.0.phase is Done
        &&& after.1 == CreateNext::Finish(outcome)
    }
}

/// Whether a run goes on to memory: it is written as planned, if it is to be and KVM runs the virtual
/// machine.
pub open spec fn goes_on_to_memory(job: CreateJob, after: (CreateJob, CreateNext)) -> bool {
    match job.plan.mem_file_path {
        None => concludes(job, after, CreateOutcome::Created),
        Some(planned) => if !job.plan.has_kvm {
            concludes(job, after, CreateOutcome::NoKvm)
        } else {
            &&& after.0.phase == CreatePhase::Doing(CreateStep::WriteMemory)
            &&& after.1 matches CreateNext::Act(
                CreateAction::WriteMemory {
                    path,
                    snapshot_type,
                    deferred_sync,
                    virtio_fs_dirty_ranges,
                    has_virtio_fs,
                },
            )
            &&& path == planned
            &&& snapshot_type == job.plan.snapshot_type
            &&& deferred_sync == job.plan.deferred_sync
            &&& job.dirty_ranges == Some(virtio_fs_dirty_ranges)
            &&& has_virtio_fs == job.plan.has_virtio_fs
        },
    }
}

/// What follows each event of creating a snapshot. After the virtio-fs backend has saved its state, what
/// it has written is collected, the state of the microVM is saved, its file is opened, it is written and
/// flushed, and synchronized unless that is left to the caller; then memory is written, if it is to be,
/// and the memory of the queues is marked. Each failure is reported as what it is, and is the end but
/// for the virtio-fs backend, which resumes if it has saved its state.
pub proof fn law_creating_goes_step_by_step(job: CreateJob, event: CreateEvent)
    requires
        create_ready(job),
        job.phase is Doing,
        event_fits(job, event),
    ensures
        ({
            let after = create_next(job, event);
            let fails = |e: CreateSnapshotError| concludes(job, after, CreateOutcome::Failed(e));
            match event {
                CreateEvent::VirtioFsPrepared(Ok(_)) => after.1 == CreateNext::Act(
                    CreateAction::CollectDirtyRanges,
                ),
                CreateEvent::VirtioFsPrepared(Err(e)) => {
                    &&& after.0.phase is Done
                    &&& after.1 == CreateNext::Finish(
                        CreateOutcome::Failed(CreateSnapshotError::VirtioFs(e)),
                    )
                },
                CreateEvent::DirtyRangesCollected(ranges) => {
                    &&& after.1 == CreateNext::Act(
                        CreateAction::SaveState { vm_info: job.plan.vm_info },
                    )
                    &&& after.0.dirty_ranges == Some(ranges)
                },
                CreateEvent::StateSaved(Ok(state)) => {
                    &&& after.1 == CreateNext::Act(
                        CreateAction::OpenStateFile { path: job.plan.snapshot_path },
                    )
                    &&& after.0.state == Some(state)
                },
                CreateEvent::StateSaved(Err(e)) => fails(CreateSnapshotError::MicrovmState(e)),
                CreateEvent::StateFileOpened(Ok(_)) => after.1 matches CreateNext::Act(
                    CreateAction::WriteState { state },
                ) && job.state == Some(state),
                CreateEvent::StateFileOpened(Err(e)) => fails(
                    CreateSnapshotError::SnapshotBackingFile("open", e),
                ),
                CreateEvent::StateWritten(Ok(_)) => after.1 == CreateNext::Act(
                    CreateAction::FlushStateFile,
                ),
                CreateEvent::StateWritten(Err(e)) => fails(
                    CreateSnapshotError::SerializeMicrovmState(e),
                ),
                CreateEvent::StateFileFlushed(Ok(_)) => if job.plan.deferred_sync {
                    goes_on_to_memory(job, after)
                } else {
                    after.1 == CreateNext::Act(CreateAction::SyncStateFile)
                },
                CreateEvent::StateFileFlushed(Err(e)) => fails(
                    CreateSnapshotError::SnapshotBackingFile("flush", e),
                ),
                CreateEvent::StateFileSynced(Ok(_)) => goes_on_to_memory(job, after),
                CreateEvent::StateFileSynced(Err(e)) => fails(
                    CreateSnapshotError::SnapshotBackingFile("sync_all", e),
                ),
                CreateEvent::MemoryWritten(Ok(_)) => after.1 == CreateNext::Act(
                    CreateAction::MarkQueueMemory,
                ),
                CreateEvent::MemoryWritten(Err(e)) => fails(e),
                CreateEvent::QueueMemoryMarked => concludes(job, after, CreateOutcome::Created),
                CreateEvent::VirtioFsFinished(_) => false,
            }
        }),
        create_next(job, event).0.plan == job.plan,
{
}

/// Once the virtio-fs backend was asked to resume the run is over. What came of the snapshot is the
/// result; only of one that was created, a failure to resume is.
pub proof fn law_resuming_ends_the_run(job: CreateJob, event: CreateEvent)
    requires
        create_ready(job),
        job.phase is Finishing,
        event_fits(job, event),
    ensures
        create_next(job, event).0.phase is Done,
        ({
            let outcome = job.phase->Finishing_0;
            let result = create_next(job, event).1;
            match event {
                CreateEvent::VirtioFsFinished(Ok(_)) => result == CreateNext::Finish(outcome),
                CreateEvent::VirtioFsFinished(Err(e)) => if outcome is Created {
                    result == CreateNext::Finish(
                        CreateOutcome::Failed(CreateSnapshotError::VirtioFs(e)),
                    )
                } else {
                    result == CreateNext::Finish(outcome)
                },
                _ => false,
            }
        }),
{
}

/// The result of a run is success exactly when the snapshot was created. An error of a step is handed on
/// as it is, and that KVM is missing is said in words.
pub proof fn law_results_report_the_outcome(next: CreateNext, action: CreateAction)
    requires
        asks(next, action),
    ensures
        action is Finished <==> {
            ||| next is Finish
            ||| (next matches CreateNext::Act(wanted) && wanted is Finished)
        },
        next matches CreateNext::Act(wanted) ==> action == wanted,
        next matches CreateNext::Finish(outcome) ==> match outcome {
            CreateOutcome::Created => action == CreateAction::Finished(Ok(())),
            CreateOutcome::NoKvm => action matches CreateAction::Finished(
                Err(CreateSnapshotError::MicrovmState(MicrovmStateError::NotAllowed(why))),
            ) && why@ == "snapshot requires KVM"@,
            CreateOutcome::Failed(e) => action == CreateAction::Finished(Err(e)),
        },
{
    if let CreateNext::Finish(CreateOutcome::Created) = next {
        let result = action->Finished_0;
        assert(result->Ok_0 == ());
    }
}

/// In every run the events that may come are the answers to what was asked for, and none may come once
/// the result is there.
pub proof fn law_events_answer_what_was_asked(
    start: CreateJob,
    events: Seq<CreateEvent>,
    event: CreateEvent,
)
    requires
        create_started(start),
        create_runs(start, events),
    ensures
        event_fits(create_after(start, events).0, event) <==> match create_after(start, events).1 {
            CreateNext::Act(CreateAction::PrepareVirtioFs { .. }) => event is VirtioFsPrepared,
            CreateNext::Act(CreateAction::CollectDirtyRanges) => event is DirtyRangesCollected,
            CreateNext::Act(CreateAction::SaveState { .. }) => event is StateSaved,
            CreateNext::Act(CreateAction::OpenStateFile { .. }) => event is StateFileOpened,
            CreateNext::Act(CreateAction::WriteState { .. }) => event is StateWritten,
            CreateNext::Act(CreateAction::FlushStateFile) => event is StateFileFlushed,
            CreateNext::Act(CreateAction::SyncStateFile) => event is StateFileSynced,
            CreateNext::Act(CreateAction::WriteMemory { .. }) => event is MemoryWritten,
            CreateNext::Act(CreateAction::MarkQueueMemory) => event is QueueMemoryMarked,
            CreateNext::Act(CreateAction::FinishVirtioFs { .. }) => event is VirtioFsFinished,
            CreateNext::Act(CreateAction::Finished(_)) => false,
            CreateNext::Finish(_) => false,
        },
{
    if events.len() > 0 {
        lemma_create_invariant(start, events.drop_last());
    }
}

} // verus!
