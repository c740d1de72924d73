//! Restoring a microVM from a snapshot.

use super::error::{
    BuildMicrovmFromSnapshotError, GuestMemoryFromFileError, GuestMemoryFromUffdError,
    MachineConfigError,
    RestoreFromSnapshotError, RestoreFromSnapshotGuestMemoryError, SnapShotStateSanityCheckError,
    SnapshotError, SnapshotStateFromFileError,
};
use super::memory_file::{
    self, guest_memory_from_file, guest_memory_from_shared_file, FileAction, FileEvent, FileJob,
    FilePhase, SharedFileAction, SharedFileEvent, SharedFileJob, SharedPhase, SharedStep,
};
use super::overrides::{self, apply_overrides};
use super::sanity::{self, snapshot_state_sanity_check, CpuReport, HostCpu};
use super::state::MicrovmState;
use super::uffd::{self, guest_memory_from_uffd, UffdAction, UffdEvent, UffdJob, UffdNext};
use crate::vmm_config::{
    HugePageConfig, LoadSnapshotParams, MachineConfigUpdate, MemBackendType,
};
use crate::vstate::memory::{self, GuestRegionType};
use vstd::pervasive::unreached;
use vstd::prelude::*;

verus! {

/// Why a request is refused: the live file has to be copied from somewhere.
pub const SOURCE_PATH_MISSING: &'static str = "source_path is required for SharedFile";

/// Why a request is refused: only a live file is copied from somewhere.
pub const SOURCE_PATH_UNUSED: &'static str = "source_path is allowed only for SharedFile";

/// Why a request is refused: the virtio-fs backend needs guest memory that it can share.
pub const FS_NEEDS_SHARED_FILE: &'static str =
    "virtio-fs snapshots require the SharedFile memory backend";

/// What the caller does next.
#[derive(Debug)]
pub enum RestoreAction {
    /// Open the state file.
    OpenState {
        /// Path of the file.
        path: String,
    },
    /// Load the state from the open file.
    LoadState,
    /// Update the machine configuration.
    UpdateMachineConfig {
        /// The change.
        update: MachineConfigUpdate,
    },
    /// Log the report on the CPU of the host and that of the snapshot.
    ReportCpu {
        /// The report.
        report: CpuReport,
    },
    /// Do this to map the memory file.
    File(FileAction),
    /// Do this to set up the live memory file.
    SharedFile(SharedFileAction),
    /// Do this to set up guest memory that is populated by another process.
    Uffd(UffdAction),
    /// Build the microVM, paused, with the guest memory that was set up.
    Build {
        /// The state that the microVM resumes from.
        state: MicrovmState,
        /// Whether the userfaultfd object goes with the guest memory.
        with_uffd: bool,
        /// Whether the guest clock is set to the time of the host.
        clock_realtime: bool,
    },
    /// The microVM is there, or it could not be restored.
    Finished(Result<(), RestoreFromSnapshotError>),
}

/// What came of the action that was asked for.
#[derive(Debug)]
pub enum RestoreEvent {
    /// The state file was opened, or could not be opened.
    StateOpened(Result<(), std::io::Error>),
    /// The state was loaded, or could not be loaded.
    StateLoaded(Result<MicrovmState, SnapshotError>),
    /// How guest memory is backed by huge pages now, or the change was not accepted.
    MachineConfigUpdated(Result<HugePageConfig, MachineConfigError>),
    /// The report was logged.
    CpuReported,
    /// What came of an action for the memory file.
    File(FileEvent),
    /// What came of an action for the live memory file.
    SharedFile(SharedFileEvent),
    /// What came of an action for guest memory that is populated by another process.
    Uffd(UffdEvent),
    /// The microVM was built, or could not be built.
    Built(Result<(), BuildMicrovmFromSnapshotError>),
}

/// How far a microVM has come.
#[derive(Debug)]
pub enum RestorePhase {
    /// The state file is being opened.
    OpeningState,
    /// The state is being loaded.
    LoadingState,
    /// The machine configuration is being updated.
    UpdatingConfig(MicrovmState),
    /// The report on the CPU is being logged.
    ReportingCpu(MicrovmState, HugePageConfig),
    /// The memory file is being mapped.
    LoadingFile(MicrovmState, FileJob),
    /// The live memory file is being set up.
    LoadingSharedFile(MicrovmState, SharedFileJob),
    /// Guest memory that is populated by another process is being set up.
    LoadingUffd(MicrovmState, UffdJob),
    /// The microVM is being built.
    Building,
    /// Nothing is left to do.
    Done,
}

/// A microVM that is being restored, between two actions of the caller.
#[derive(Debug)]
pub struct RestoreJob {
    /// The request.
    pub params: LoadSnapshotParams,
    /// The CPU of the host.
    pub host_cpu: HostCpu,
    /// The pending phase.
    pub phase: RestorePhase,
}

/// Why a request is refused before anything is done, if it is.
pub open spec fn backend_refusal(params: LoadSnapshotParams) -> Option<&'static str> {
    match params.mem_backend.backend_type {
        MemBackendType::SharedFile => if params.mem_backend.source_path is None {
            Some(SOURCE_PATH_MISSING)
        } else {
            None
        },
        _ => if params.mem_backend.source_path is Some {
            Some(SOURCE_PATH_UNUSED)
        } else {
            None
        },
    }
}

/// What keeps a loaded state from being restored by a request, if anything does.
pub open spec fn load_fault(params: LoadSnapshotParams, state: MicrovmState) -> Option<
    RestoreFromSnapshotError,
> {
    if state.device_states.mmio_state.fs_device is Some && params.mem_backend.backend_type
        != MemBackendType::SharedFile {
        Some(RestoreFromSnapshotError::InvalidMemoryBackend(FS_NEEDS_SHARED_FILE))
    } else {
        match overrides::override_fault(state.device_states, params) {
            Some(e) => Some(RestoreFromSnapshotError::File(e)),
            None => if state.vcpu_states@.len() > u8::MAX {
                Some(
                    RestoreFromSnapshotError::Build(
                        BuildMicrovmFromSnapshotError::VmUpdateConfig(
                            MachineConfigError::InvalidVcpuCount,
                        ),
                    ),
                )
            } else {
                None
            },
        }
    }
}

/// Whether `after` is the loaded state with the overrides of a request: nothing but its devices is
/// changed.
pub open spec fn state_overridden(
    loaded: MicrovmState,
    params: LoadSnapshotParams,
    after: MicrovmState,
) -> bool {
    &&& after.vm_info == loaded.vm_info
    &&& after.kvm_state == loaded.kvm_state
    &&& after.vm_state == loaded.vm_state
    &&& after.vcpu_states == loaded.vcpu_states
    &&& overrides::overridden(loaded.device_states, params, after.device_states)
}

/// The machine configuration that a state calls for.
pub open spec fn update_of(state: MicrovmState, params: LoadSnapshotParams) -> MachineConfigUpdate {
    MachineConfigUpdate {
        vcpu_count: Some(state.vcpu_states@.len() as u8),
        mem_size_mib: Some(state.vm_info.mem_size_mib),
        smt: Some(state.vm_info.smt),
        cpu_template: Some(state.vm_info.cpu_template),
        track_dirty_pages: Some(params.track_dirty_pages),
        huge_pages: Some(state.vm_info.huge_pages),
    }
}

/// Whether a job is over with a result.
pub open spec fn restore_done(
    next: RestoreJob,
    action: RestoreAction,
    r: Result<(), RestoreFromSnapshotError>,
) -> bool {
    next.phase is Done && action == RestoreAction::Finished(r)
}

/// Whether the microVM is built from a state.
pub open spec fn restore_builds(
    state: MicrovmState,
    params: LoadSnapshotParams,
    next: RestoreJob,
    action: RestoreAction,
) -> bool {
    &&& next.phase is Building
    &&& action == RestoreAction::Build {
        state,
        with_uffd: params.mem_backend.backend_type == MemBackendType::Uffd,
        clock_realtime: params.clock_realtime,
    }
}

/// The error of a memory file, as one of restoring.
pub open spec fn file_fault(e: GuestMemoryFromFileError) -> RestoreFromSnapshotError {
    RestoreFromSnapshotError::GuestMemory(RestoreFromSnapshotGuestMemoryError::File(e))
}

/// Whether guest memory is set up by the backend of a request. Memory in hugetlbfs cannot be mapped
/// from a file.
pub open spec fn memory_starts(
    state: MicrovmState,
    huge_pages: HugePageConfig,
    params: LoadSnapshotParams,
    next: RestoreJob,
    action: RestoreAction,
) -> bool {
    let backend = params.mem_backend;
    let layout = memory::region_layout(state.vm_state.memory.regions@);
    if backend.backend_type != MemBackendType::Uffd && huge_pages == HugePageConfig::Hugetlbfs2M {
        restore_done(next, action, Err(file_fault(GuestMemoryFromFileError::HugetlbfsSnapshot)))
    } else {
        match backend.backend_type {
            MemBackendType::File => {
                &&& next.phase matches RestorePhase::LoadingFile(kept, job)
                &&& kept == state
                &&& job.track_dirty_pages == params.track_dirty_pages
                &&& job.phase matches FilePhase::Opening(regions)
                &&& regions@ == layout
                &&& action == RestoreAction::File(FileAction::Open { path: backend.backend_path })
            },
            MemBackendType::SharedFile => {
                &&& next.phase matches RestorePhase::LoadingSharedFile(kept, job)
                &&& kept == state
                &&& job.track_dirty_pages == params.track_dirty_pages
                &&& job.source_path == backend.source_path->0
                &&& job.live_path == backend.backend_path
                &&& job.regions matches Some(regions)
                &&& regions@ == layout
                &&& job.phase == SharedPhase::Doing(SharedStep::CheckTarget)
                &&& action == RestoreAction::SharedFile(
                    SharedFileAction::CheckTarget { path: backend.backend_path },
                )
            },
            MemBackendType::Uffd => {
                &&& next.phase matches RestorePhase::LoadingUffd(kept, job)
                &&& kept == state
                &&& job@.mem_uds_path == backend.backend_path
                &&& job@.huge_pages == huge_pages
                &&& job@.stage is Mapping
                &&& action matches RestoreAction::Uffd(
                    UffdAction::MapAnonymous { regions, track_dirty_pages, huge_pages: backing },
                )
                &&& regions@ == layout
                &&& track_dirty_pages == params.track_dirty_pages
                &&& backing == huge_pages
            },
        }
    }
}

/// Whether an event leads from one point of restoring to the next, and to the action that is asked
/// for there.
pub open spec fn restore_step(
    job: RestoreJob,
    event: RestoreEvent,
    next: RestoreJob,
    action: RestoreAction,
) -> bool {
    &&& next.params == job.params
    &&& next.host_cpu == job.host_cpu
    &&& match event {
        RestoreEvent::StateOpened(Ok(())) => next.phase is LoadingState && action is LoadState,
        RestoreEvent::StateOpened(Err(e)) => restore_done(
            next,
            action,
            Err(RestoreFromSnapshotError::File(SnapshotStateFromFileError::Open(e))),
        ),
        RestoreEvent::StateLoaded(Ok(loaded)) => match load_fault(job.params, loaded) {
            Some(e) => restore_done(next, action, Err(e)),
            None => {
                &&& next.phase matches RestorePhase::UpdatingConfig(state)
                &&& state_overridden(loaded, job.params, state)
                &&& action == RestoreAction::UpdateMachineConfig {
                    update: update_of(state, job.params),
                }
            },
        },
        RestoreEvent::StateLoaded(Err(e)) => restore_done(
            next,
            action,
            Err(RestoreFromSnapshotError::File(SnapshotStateFromFileError::Load(e))),
        ),
        RestoreEvent::MachineConfigUpdated(Ok(huge_pages)) => {
            let state = job.phase->UpdatingConfig_0;
            if sanity::regions_sane(state.vm_state.memory.regions@) {
                &&& next.phase == RestorePhase::ReportingCpu(state, huge_pages)
                &&& action matches RestoreAction::ReportCpu { report }
                &&& sanity::cpu_reported(state, job.host_cpu, report)
            } else {
                exists|fault: SnapShotStateSanityCheckError|
                    {
                        &&& #[trigger] sanity::regions_fault(
                            state.vm_state.memory.regions@,
                            fault,
                        )
                        &&& restore_done(next, action, Err(RestoreFromSnapshotError::Invalid(fault)))
                    }
            }
        },
        RestoreEvent::MachineConfigUpdated(Err(e)) => restore_done(
            next,
            action,
            Err(
                RestoreFromSnapshotError::Build(BuildMicrovmFromSnapshotError::VmUpdateConfig(e)),
            ),
        ),
        RestoreEvent::CpuReported => memory_starts(
            job.phase->ReportingCpu_0,
            job.phase->ReportingCpu_1,
            job.params,
            next,
            action,
        ),
        RestoreEvent::File(event) => {
            let (state, memory) = (job.phase->LoadingFile_0, job.phase->LoadingFile_1);
            let (after, asked) = memory_file::file_next(memory, event);
            match asked {
                FileAction::Finished(Ok(())) => restore_builds(state, job.params, next, action),
                FileAction::Finished(Err(e)) => restore_done(next, action, Err(file_fault(e))),
                _ => {
                    &&& next.phase == RestorePhase::LoadingFile(state, after)
                    &&& action == RestoreAction::File(asked)
                },
            }
        },
        RestoreEvent::SharedFile(event) => {
            let (state, memory) = (job.phase->LoadingSharedFile_0, job.phase->LoadingSharedFile_1);
            let (after, asked) = memory_file::shared_next(memory, event);
            match asked {
                SharedFileAction::Finished(Ok(())) => restore_builds(
                    state,
                    job.params,
                    next,
                    action,
                ),
                SharedFileAction::Finished(Err(e)) => restore_done(
                    next,
                    action,
                    Err(file_fault(e)),
                ),
                _ => {
                    &&& next.phase == RestorePhase::LoadingSharedFile(state, after)
                    &&& action == RestoreAction::SharedFile(asked)
                },
            }
        },
        RestoreEvent::Uffd(event) => {
            let (state, memory) = (job.phase->LoadingUffd_0, job.phase->LoadingUffd_1);
            let (after, asked) = uffd::uffd_next(memory@, event);
            match asked {
                UffdNext::Act(UffdAction::Finished(Ok(()))) => restore_builds(
                    state,
                    job.params,
                    next,
                    action,
                ),
                UffdNext::Act(UffdAction::Finished(Err(e))) => restore_done(
                    next,
                    action,
                    Err(
                        RestoreFromSnapshotError::GuestMemory(
                            RestoreFromSnapshotGuestMemoryError::Uffd(e),
                        ),
                    ),
                ),
                _ => {
                    &&& next.phase matches RestorePhase::LoadingUffd(kept, memory)
                    &&& kept == state
                    &&& memory@ == after
                    &&& action matches RestoreAction::Uffd(uffd_action)
                    &&& uffd::uffd_asks(asked, uffd_action)
                },
            }
        },
        RestoreEvent::Built(Ok(())) => restore_done(next, action, Ok(())),
        RestoreEvent::Built(Err(e)) => restore_done(
            next,
            action,
            Err(RestoreFromSnapshotError::Build(e)),
        ),
    }
}

/// Whether an event tells what came of the pending action.
///
/// A state whose memory is sane has a vCPU.
pub open spec fn restore_event_fits(job: RestoreJob, event: RestoreEvent) -> bool {
    match event {
        RestoreEvent::StateOpened(_) => job.phase is OpeningState,
        RestoreEvent::StateLoaded(_) => job.phase is LoadingState,
        RestoreEvent::MachineConfigUpdated(r) => {
            &&& job.phase matches RestorePhase::UpdatingConfig(state)
            &&& r is Ok && sanity::regions_sane(state.vm_state.memory.regions@)
                ==> state.vcpu_states@.len() > 0
        },
        RestoreEvent::CpuReported => job.phase is ReportingCpu,
        RestoreEvent::File(event) => job.phase matches RestorePhase::LoadingFile(_, memory)
            && memory_file::file_event_fits(memory, event),
        RestoreEvent::SharedFile(event) => job.phase matches RestorePhase::LoadingSharedFile(
            _,
            memory,
        ) && memory_file::shared_event_fits(memory, event),
        RestoreEvent::Uffd(event) => job.phase matches RestorePhase::LoadingUffd(_, memory)
            && uffd::uffd_event_fits(memory@.stage, event),
        RestoreEvent::Built(_) => job.phase is Building,
    }
}

/// Whether a job is for a request that was not refused, and sets guest memory up by its backend.
pub open spec fn restore_ready(job: RestoreJob) -> bool {
    &&& backend_refusal(job.params) is None
    &&& match job.phase {
        RestorePhase::LoadingFile(_, _) => job.params.mem_backend.backend_type
            == MemBackendType::File,
        RestorePhase::LoadingSharedFile(_, memory) => {
            &&& job.params.mem_backend.backend_type == MemBackendType::SharedFile
            &&& memory_file::shared_ready(memory)
        },
        RestorePhase::LoadingUffd(_, _) => job.params.mem_backend.backend_type
            == MemBackendType::Uffd,
        _ => true,
    }
}

/// Loads a snapshot, which gives a paused microVM.
///
/// A request whose memory backend is not accepted asks for no action. The caller performs each
/// action and hands what came of it to [`RestoreJob::step`], until the action is
/// [`RestoreAction::Finished`].
pub fn restore_from_snapshot(params: LoadSnapshotParams, host_cpu: HostCpu) -> (r: Result<
    (RestoreJob, RestoreAction),
    RestoreFromSnapshotError,
>)
    ensures
        match backend_refusal(params) {
            Some(why) => r == Err::<(RestoreJob, RestoreAction), RestoreFromSnapshotError>(
                RestoreFromSnapshotError::InvalidMemoryBackend(why),
            ),
            None => r == Ok::<(RestoreJob, RestoreAction), RestoreFromSnapshotError>(
                (
                    RestoreJob { params, host_cpu, phase: RestorePhase::OpeningState },
                    RestoreAction::OpenState { path: params.snapshot_path },
                ),
            ) && restore_ready(r->Ok_0.0),
        },
{
    match (params.mem_backend.backend_type, &params.mem_backend.source_path) {
        (MemBackendType::SharedFile, None) => {
            return Err(RestoreFromSnapshotError::InvalidMemoryBackend(SOURCE_PATH_MISSING));
        },
        (MemBackendType::SharedFile, Some(_)) => {},
        (_, Some(_)) => {
            return Err(RestoreFromSnapshotError::InvalidMemoryBackend(SOURCE_PATH_UNUSED));
        },
        (_, None) => {},
    }
    let path = params.snapshot_path.clone();
    let job = RestoreJob { params, host_cpu, phase: RestorePhase::OpeningState };
    Ok((job, RestoreAction::OpenState { path }))
}

impl RestoreJob {
    /// Takes what came of the pending action and says what to do next.
    #[verifier::rlimit(40)]
    pub fn step(self, event: RestoreEvent) -> (next: (RestoreJob, RestoreAction))
        requires
            restore_ready(self),
            restore_event_fits(self, event),
        ensures
            restore_step(self, event, next.0, next.1),
            restore_ready(next.0),
    {
        let RestoreJob { params, host_cpu, phase } = self;
        let idle = RestoreJob { params, host_cpu, phase: RestorePhase::Done };
        match event {
            RestoreEvent::StateOpened(Ok(())) => {
                let job = RestoreJob { phase: RestorePhase::LoadingState, ..idle };
                (job, RestoreAction::LoadState)
            },
            RestoreEvent::StateOpened(Err(e)) => idle.finish(
                Err(RestoreFromSnapshotError::File(SnapshotStateFromFileError::Open(e))),
            ),
            RestoreEvent::StateLoaded(Ok(loaded)) => idle.take_state(loaded),
            RestoreEvent::StateLoaded(Err(e)) => idle.finish(
                Err(RestoreFromSnapshotError::File(SnapshotStateFromFileError::Load(e))),
            ),
            RestoreEvent::MachineConfigUpdated(Ok(huge_pages)) => match phase {
                RestorePhase::UpdatingConfig(state) => idle.check_state(state, huge_pages),
                _ => unreached(),
            },
            RestoreEvent::MachineConfigUpdated(Err(e)) => idle.finish(
                Err(
                    RestoreFromSnapshotError::Build(
                        BuildMicrovmFromSnapshotError::VmUpdateConfig(e),
                    ),
                ),
            ),
            RestoreEvent::CpuReported => match phase {
                RestorePhase::ReportingCpu(state, huge_pages) => idle.load_memory(
                    state,
                    huge_pages,
                ),
                _ => unreached(),
            },
            RestoreEvent::File(event) => match phase {
                RestorePhase::LoadingFile(state, memory) => {
                    let (memory, asked) = memory.step(event);
                    match asked {
                        FileAction::Finished(Ok(())) => idle.build(state),
                        FileAction::Finished(Err(e)) => idle.finish(
                            Err(
                                RestoreFromSnapshotError::GuestMemory(
                                    RestoreFromSnapshotGuestMemoryError::File(e),
                                ),
                            ),
                        ),
                        other => {
                            let phase = RestorePhase::LoadingFile(state, memory);
                            (RestoreJob { phase, ..idle }, RestoreAction::File(other))
                        },
                    }
                },
                _ => unreached(),
            },
            RestoreEvent::SharedFile(event) => match phase {
                RestorePhase::LoadingSharedFile(state, memory) => {
                    let (memory, asked) = memory.step(event);
                    match asked {
                        SharedFileAction::Finished(Ok(())) => idle.build(state),
                        SharedFileAction::Finished(Err(e)) => idle.finish(
                            Err(
                                RestoreFromSnapshotError::GuestMemory(
                                    RestoreFromSnapshotGuestMemoryError::File(e),
                                ),
                            ),
                        ),
                        other => {
                            let phase = RestorePhase::LoadingSharedFile(state, memory);
                            (RestoreJob { phase, ..idle }, RestoreAction::SharedFile(other))
                        },
                    }
                },
                _ => unreached(),
            },
            RestoreEvent::Uffd(event) => match phase {
                RestorePhase::LoadingUffd(state, memory) => {
                    let (memory, asked) = memory.step(event);
                    match asked {
                        UffdAction::Finished(Ok(())) => idle.build(state),
                        UffdAction::Finished(Err(e)) => idle.finish(
                            Err(
                                RestoreFromSnapshotError::GuestMemory(
                                    RestoreFromSnapshotGuestMemoryError::Uffd(e),
                                ),
                            ),
                        ),
                        other => {
                            let phase = RestorePhase::LoadingUffd(state, memory);
                            (RestoreJob { phase, ..idle }, RestoreAction::Uffd(other))
                        },
                    }
                },
                _ => unreached(),
            },
            RestoreEvent::Built(Ok(())) => idle.finish(Ok(())),
            RestoreEvent::Built(Err(e)) => idle.finish(Err(RestoreFromSnapshotError::Build(e))),
        }
    }

    /// Ends with a result.
    fn finish(self, r: Result<(), RestoreFromSnapshotError>) -> (next: (RestoreJob, RestoreAction))
        requires
            backend_refusal(self.params) is None,
        ensures
            next.0.params == self.params,
            next.0.host_cpu == self.host_cpu,
            restore_done(next.0, next.1, r),
            restore_ready(next.0),
    {
        (RestoreJob { phase: RestorePhase::Done, ..self }, RestoreAction::Finished(r))
    }

    /// Goes on with the state that was loaded: it is adapted to the request, and the machine
    /// configuration to it.
    fn take_state(self, loaded: MicrovmState) -> (next: (RestoreJob, RestoreAction))
        requires
            backend_refusal(self.params) is None,
        ensures
            restore_step(
                RestoreJob { phase: RestorePhase::LoadingState, ..self },
                RestoreEvent::StateLoaded(Ok(loaded)),
                next.0,
                next.1,
            ),
            restore_ready(next.0),
    {
        if loaded.device_states.mmio_state.fs_device.is_some()
            && self.params.mem_backend.backend_type != MemBackendType::SharedFile {
            return self.finish(
                Err(RestoreFromSnapshotError::InvalidMemoryBackend(FS_NEEDS_SHARED_FILE)),
            );
        }
        let MicrovmState { vm_info, kvm_state, vm_state, vcpu_states, device_states } = loaded;
        let device_states = match apply_overrides(device_states, &self.params) {
            Ok(device_states) => device_states,
            Err(e) => {
                return self.finish(Err(RestoreFromSnapshotError::File(e)));
            },
        };
        let vcpus: usize = vcpu_states.len();
        if vcpus > 255 {
            return self.finish(
                Err(
                    RestoreFromSnapshotError::Build(
                        BuildMicrovmFromSnapshotError::VmUpdateConfig(
                            MachineConfigError::InvalidVcpuCount,
                        ),
                    ),
                ),
            );
        }
        let update = MachineConfigUpdate {
            vcpu_count: Some(vcpus as u8),
            mem_size_mib: Some(vm_info.mem_size_mib),
            smt: Some(vm_info.smt),
            cpu_template: Some(vm_info.cpu_template),
            track_dirty_pages: Some(self.params.track_dirty_pages),
            huge_pages: Some(vm_info.huge_pages),
        };
        let state = MicrovmState { vm_info, kvm_state, vm_state, vcpu_states, device_states };
        let phase = RestorePhase::UpdatingConfig(state);
        (RestoreJob { phase, ..self }, RestoreAction::UpdateMachineConfig { update })
    }

    /// Goes on with a state that the machine configuration was adapted to: it is checked.
    fn check_state(self, state: MicrovmState, huge_pages: HugePageConfig) -> (next: (
        RestoreJob,
        RestoreAction,
    ))
        requires
            backend_refusal(self.params) is None,
            sanity::regions_sane(state.vm_state.memory.regions@)
                ==> state.vcpu_states@.len() > 0,
        ensures
            restore_step(
                RestoreJob { phase: RestorePhase::UpdatingConfig(state), ..self },
                RestoreEvent::MachineConfigUpdated(Ok(huge_pages)),
                next.0,
                next.1,
            ),
            restore_ready(next.0),
    {
        match snapshot_state_sanity_check(&state, self.host_cpu) {
            Ok(report) => {
                let phase = RestorePhase::ReportingCpu(state, huge_pages);
                (RestoreJob { phase, ..self }, RestoreAction::ReportCpu { report })
            },
            Err(fault) => self.finish(Err(RestoreFromSnapshotError::Invalid(fault))),
        }
    }

    /// Goes on with a state that was checked: guest memory is set up.
    fn load_memory(self, state: MicrovmState, huge_pages: HugePageConfig) -> (next: (
        RestoreJob,
        RestoreAction,
    ))
        requires
            backend_refusal(self.params) is None,
        ensures
            next.0.params == self.params,
            next.0.host_cpu == self.host_cpu,
            memory_starts(state, huge_pages, self.params, next.0, next.1),
            restore_ready(next.0),
    {
        match self.params.mem_backend.backend_type {
            MemBackendType::File => {
                if huge_pages.is_hugetlbfs() {
                    return self.hugetlbfs();
                }
                let (memory, asked) = guest_memory_from_file(
                    &self.params.mem_backend.backend_path,
                    &state.vm_state.memory,
                    self.params.track_dirty_pages,
                );
                let phase = RestorePhase::LoadingFile(state, memory);
                (RestoreJob { phase, ..self }, RestoreAction::File(asked))
            },
            MemBackendType::SharedFile => {
                if huge_pages.is_hugetlbfs() {
                    return self.hugetlbfs();
                }
                match &self.params.mem_backend.source_path {
                    Some(source_path) => {
                        let (memory, asked) = guest_memory_from_shared_file(
                            source_path,
                            &self.params.mem_backend.backend_path,
                            &state.vm_state.memory,
                            self.params.track_dirty_pages,
                        );
                        let phase = RestorePhase::LoadingSharedFile(state, memory);
                        (RestoreJob { phase, ..self }, RestoreAction::SharedFile(asked))
                    },
                    None => unreached(),
                }
            },
            MemBackendType::Uffd => {
                let (memory, asked) = guest_memory_from_uffd(
                    &self.params.mem_backend.backend_path,
                    &state.vm_state.memory,
                    self.params.track_dirty_pages,
                    huge_pages,
                );
                let phase = RestorePhase::LoadingUffd(state, memory);
                (RestoreJob { phase, ..self }, RestoreAction::Uffd(asked))
            },
        }
    }

    /// Ends because memory in hugetlbfs cannot be mapped from a file.
    fn hugetlbfs(self) -> (next: (RestoreJob, RestoreAction))
        requires
            backend_refusal(self.params) is None,
        ensures
            next.0.params == self.params,
            next.0.host_cpu == self.host_cpu,
            restore_done(
                next.0,
                next.1,
                Err(file_fault(GuestMemoryFromFileError::HugetlbfsSnapshot)),
            ),
            restore_ready(next.0),
    {
        self.finish(
            Err(
                RestoreFromSnapshotError::GuestMemory(
                    RestoreFromSnapshotGuestMemoryError::File(
                        GuestMemoryFromFileError::HugetlbfsSnapshot,
                    ),
                ),
            ),
        )
    }

    /// Goes on with guest memory that was set up: the microVM is built.
    fn build(self, state: MicrovmState) -> (next: (RestoreJob, RestoreAction))
        requires
            backend_refusal(self.params) is None,
        ensures
            next.0.params == self.params,
            next.0.host_cpu == self.host_cpu,
            restore_builds(state, self.params, next.0, next.1),
            restore_ready(next.0),
    {
        let with_uffd = self.params.mem_backend.backend_type == MemBackendType::Uffd;
        let clock_realtime = self.params.clock_realtime;
        let job = RestoreJob { phase: RestorePhase::Building, ..self };
        (job, RestoreAction::Build { state, with_uffd, clock_realtime })
    }
}

/// A course of restoring: the points it goes through, the events that lead from each to the next,
/// and the actions that are asked for there.
pub struct RestoreCourse {
    /// The points, one more than there are events.
    pub jobs: Seq<RestoreJob>,
    /// The events.
    pub events: Seq<RestoreEvent>,
    /// The actions that follow the events.
    pub actions: Seq<RestoreAction>,
}

/// Whether an event of a course answers the action before it and leads to the next point.
pub open spec fn course_step(course: RestoreCourse, i: int) -> bool {
    &&& restore_event_fits(course.jobs[i], course.events[i])
    &&& restore_step(course.jobs[i], course.events[i], course.jobs[i + 1], course.actions[i])
}

/// Whether a course may happen.
pub open spec fn restore_course(course: RestoreCourse) -> bool {
    &&& course.jobs.len() == course.events.len() + 1
    &&& course.actions.len() == course.events.len()
    &&& restore_ready(course.jobs[0])
    &&& course.jobs[0].phase is OpeningState
    &&& forall|i: int| 0 <= i < course.events.len() ==> #[trigger] course_step(course, i)
}

/// The request of a course.
pub open spec fn course_params(course: RestoreCourse) -> LoadSnapshotParams {
    course.jobs[0].params
}

/// Whether a state is what a request makes of one that was loaded before a point of a course.
pub open spec fn comes_from_loaded(course: RestoreCourse, n: int, state: MicrovmState) -> bool {
    exists|j: int|
        {
            &&& 0 <= j < n
            &&& (#[trigger] course.events[j]) matches RestoreEvent::StateLoaded(Ok(loaded))
                && load_fault(course_params(course), loaded) is None && state_overridden(
                loaded,
                course_params(course),
                state,
            )
        }
}

/// Whether the report on the CPU was logged before a point of a course.
pub open spec fn cpu_was_reported(course: RestoreCourse, n: int) -> bool {
    exists|j: int| 0 <= j < n && (#[trigger] course.events[j]) is CpuReported
}

spec fn course_invariant(course: RestoreCourse, n: int) -> bool {
    let job = course.jobs[n];
    &&& job.params == course_params(course)
    &&& match job.phase {
        RestorePhase::UpdatingConfig(state) => comes_from_loaded(course, n, state),
        RestorePhase::ReportingCpu(state, _) => {
            &&& comes_from_loaded(course, n, state)
            &&& sanity::regions_sane(state.vm_state.memory.regions@)
        },
        RestorePhase::LoadingFile(state, _)
        | RestorePhase::LoadingSharedFile(state, _)
        | RestorePhase::LoadingUffd(state, _) => {
            &&& comes_from_loaded(course, n, state)
            &&& sanity::regions_sane(state.vm_state.memory.regions@)
            &&& cpu_was_reported(course, n)
        },
        _ => true,
    }
}

#[verifier::rlimit(40)]
proof fn lemma_course_invariant(course: RestoreCourse, n: int)
    requires
        restore_course(course),
        0 <= n <= course.events.len(),
    ensures
        course_invariant(course, n),
    decreases n,
{
    if n > 0 {
        lemma_course_invariant(course, n - 1);
        assert(course_step(course, n - 1));
        let event = course.events[n - 1];
        assert forall|state: MicrovmState| #[trigger]
            comes_from_loaded(course, n - 1, state) implies comes_from_loaded(course, n, state) by {
            let j = choose|j: int|
                {
                    &&& 0 <= j < n - 1
                    &&& (#[trigger] course.events[j]) matches RestoreEvent::StateLoaded(Ok(loaded))
                        && load_fault(course_params(course), loaded) is None && state_overridden(
                        loaded,
                        course_params(course),
                        state,
                    )
                };
            assert(0 <= j < n);
        }
        if let RestoreEvent::StateLoaded(Ok(loaded)) = event {
            if let RestorePhase::UpdatingConfig(state) = course.jobs[n].phase {
                assert(course.events[n - 1] == event);
                assert(comes_from_loaded(course, n, state));
            }
        }
        if event is CpuReported {
            assert(cpu_was_reported(course, n));
        }
        if cpu_was_reported(course, n - 1) {
            let j = choose|j: int| 0 <= j < n - 1 && (#[trigger] course.events[j]) is CpuReported;
            assert(0 <= j < n);
        }
    }
}

/// Whether an event tells that guest memory was set up.
pub open spec fn memory_is_ready(event: RestoreEvent) -> bool {
    match event {
        RestoreEvent::File(FileEvent::Mapped(Ok(_))) => true,
        RestoreEvent::SharedFile(SharedFileEvent::TargetMapped(Ok(_))) => true,
        RestoreEvent::Uffd(UffdEvent::Sent(Ok(_))) => true,
        _ => false,
    }
}

/// What is built is the snapshot that was loaded, with the overrides of the request and nothing else
/// changed, and only after its memory was found sane and guest memory was set up. The userfaultfd
/// object goes with it exactly when the request asks for that backend.
pub proof fn law_what_is_built_is_the_snapshot(course: RestoreCourse, i: int)
    requires
        restore_course(course),
        0 <= i < course.events.len(),
    ensures
        course.actions[i] matches RestoreAction::Build { state, with_uffd, clock_realtime } ==> {
            &&& comes_from_loaded(course, i, state)
            &&& sanity::regions_sane(state.vm_state.memory.regions@)
            &&& memory_is_ready(course.events[i])
            &&& with_uffd == (course_params(course).mem_backend.backend_type
                == MemBackendType::Uffd)
            &&& clock_realtime == course_params(course).clock_realtime
        },
{
    lemma_course_invariant(course, i);
    assert(course_step(course, i));
}

/// Guest memory is not touched before the state was loaded, adapted, checked and reported on.
pub proof fn law_memory_is_touched_last(course: RestoreCourse, i: int)
    requires
        restore_course(course),
        0 <= i < course.events.len(),
    ensures
        course.actions[i] is File || course.actions[i] is SharedFile || course.actions[i] is Uffd
            ==> cpu_was_reported(course, i + 1),
{
    lemma_course_invariant(course, i);
    assert(course_step(course, i));
    if course.events[i] is CpuReported {
        assert(cpu_was_reported(course, i + 1));
    }
    if cpu_was_reported(course, i) {
        let j = choose|j: int| 0 <= j < i && (#[trigger] course.events[j]) is CpuReported;
        assert(0 <= j < i + 1);
    }
}

/// A microVM is reported as restored exactly when it was built, and nothing happens after that.
pub proof fn law_restored_means_built(course: RestoreCourse, i: int)
    requires
        restore_course(course),
        0 <= i < course.events.len(),
    ensures
        course.actions[i] matches RestoreAction::Finished(Ok(_)) <==> (
        course.events[i] matches RestoreEvent::Built(Ok(_))),
        course.actions[i] is Finished ==> i == course.events.len() - 1,
{
    assert(course_step(course, i));
    lemma_course_invariant(course, i);
    if course.actions[i] is Finished && i + 1 < course.events.len() {
        assert(course_step(course, i + 1));
        assert(course.jobs[i + 1].phase is Done);
    }
}

/// The memory backend of a request and its source go together: a live file has to be copied from
/// somewhere, and nothing else is. A request in which they do not is refused, with the reason.
pub proof fn law_source_goes_with_a_live_file(params: LoadSnapshotParams)
    ensures
        backend_refusal(params) is None <==> (params.mem_backend.backend_type
            == MemBackendType::SharedFile <==> params.mem_backend.source_path is Some),
        params.mem_backend.backend_type == MemBackendType::SharedFile && params.mem_backend.source_path
            is None ==> backend_refusal(params)->0@ == "source_path is required for SharedFile"@,
        params.mem_backend.backend_type != MemBackendType::SharedFile && params.mem_backend.source_path
            is Some ==> backend_refusal(params)->0@
            == "source_path is allowed only for SharedFile"@,
{
}

/// Whether the overrides of a request fit the devices of a loaded state: each network override names a
/// network device, a vsock device is there if it is overridden, and a virtio-fs device is overridden by
/// its name if it is there.
pub open spec fn overrides_fit(params: LoadSnapshotParams, loaded: MicrovmState) -> bool {
    let devices = loaded.device_states;
    &&& forall|k: int|
        0 <= k < params.network_overrides@.len() ==> {
            ||| overrides::is_on_mmio(devices, (#[trigger] params.network_overrides@[k]).iface_id@)
            ||| overrides::is_on_pci(devices, params.network_overrides@[k].iface_id@)
        }
    &&& params.vsock_override is Some ==> devices.mmio_state.vsock_device is Some
        || devices.pci_state.vsock_device is Some
    &&& params.fs_override is Some <==> devices.mmio_state.fs_device is Some
    &&& params.fs_override is Some ==> params.fs_override->0.fs_id@
        == devices.mmio_state.fs_device->0.device_id@
}

/// A loaded state is gone on with exactly when it can be restored by the request: a virtio-fs device
/// needs a live file, the overrides have to fit its devices, and its vCPUs have to be countable in a
/// machine configuration. Otherwise the first of these that does not hold is reported.
pub proof fn law_loaded_state_is_accepted_or_refused(
    job: RestoreJob,
    loaded: MicrovmState,
    next: RestoreJob,
    action: RestoreAction,
)
    requires
        restore_step(job, RestoreEvent::StateLoaded(Ok(loaded)), next, action),
    ensures
        ({
            let shared = loaded.device_states.mmio_state.fs_device is None
                || job.params.mem_backend.backend_type == MemBackendType::SharedFile;
            let fit = overrides_fit(job.params, loaded);
            let countable = loaded.vcpu_states@.len() <= 255;
            &&& action is UpdateMachineConfig <==> shared && fit && countable
            &&& action is UpdateMachineConfig || action is Finished
            &&& !shared ==> (action matches RestoreAction::Finished(
                Err(RestoreFromSnapshotError::InvalidMemoryBackend(why)),
            ) && why@ == "virtio-fs snapshots require the SharedFile memory backend"@)
            &&& shared && !fit ==> (action matches RestoreAction::Finished(
                Err(RestoreFromSnapshotError::File(e)),
            ) && overrides::override_fault(loaded.device_states, job.params) == Some(e))
            &&& shared && fit && !countable ==> action == RestoreAction::Finished(
                Err(
                    RestoreFromSnapshotError::Build(
                        BuildMicrovmFromSnapshotError::VmUpdateConfig(
                            MachineConfigError::InvalidVcpuCount,
                        ),
                    ),
                ),
            )
        }),
{
    overrides::law_overrides_are_accepted_for_devices_that_exist(loaded.device_states, job.params);
}

/// The machine configuration is updated to what the loaded state records, part by part, and to the
/// tracking that the request asks for. What goes on from there is the loaded state, of which only the
/// devices have changed, by the overrides.
pub proof fn law_machine_config_is_that_of_the_snapshot(
    job: RestoreJob,
    loaded: MicrovmState,
    next: RestoreJob,
    action: RestoreAction,
)
    requires
        restore_step(job, RestoreEvent::StateLoaded(Ok(loaded)), next, action),
        !(action is Finished),
    ensures
        action matches RestoreAction::UpdateMachineConfig { update } && update.vcpu_count is Some
            && update.vcpu_count->0 as int == loaded.vcpu_states@.len() && update.mem_size_mib == Some(
            loaded.vm_info.mem_size_mib,
        ) && update.smt == Some(loaded.vm_info.smt) && update.cpu_template == Some(
            loaded.vm_info.cpu_template,
        ) && update.huge_pages == Some(loaded.vm_info.huge_pages) && update.track_dirty_pages == Some(
            job.params.track_dirty_pages,
        ),
        next.phase matches RestorePhase::UpdatingConfig(state) && is_snapshot_with_overrides(
            loaded,
            job.params,
            state,
        ),
{
    overrides::law_overrides_change_what_they_name(
        loaded.device_states,
        job.params,
        next.phase->UpdatingConfig_0.device_states,
    );
}

/// Whether a state is the loaded one but for its devices, and these have changed only by the overrides.
pub open spec fn is_snapshot_with_overrides(
    loaded: MicrovmState,
    params: LoadSnapshotParams,
    state: MicrovmState,
) -> bool {
    let (was, is) = (loaded.device_states, state.device_states);
    &&& state.vm_info == loaded.vm_info
    &&& state.kvm_state == loaded.kvm_state
    &&& state.vm_state == loaded.vm_state
    &&& state.vcpu_states == loaded.vcpu_states
    &&& is.bytes == was.bytes
    &&& overrides::network_overridden(was, params.network_overrides@, is)
    &&& is.mmio_state.vsock_device is Some <==> was.mmio_state.vsock_device is Some
    &&& is.pci_state.vsock_device is Some <==> was.pci_state.vsock_device is Some
    &&& params.vsock_override is None ==> is.mmio_state.vsock_device == was.mmio_state.vsock_device
        && is.pci_state.vsock_device == was.pci_state.vsock_device
    &&& params.vsock_override is Some && was.mmio_state.vsock_device is Some
        ==> is.mmio_state.vsock_device->0.uds_path == params.vsock_override->0.uds_path
        && is.pci_state.vsock_device == was.pci_state.vsock_device
    &&& params.vsock_override is Some && was.mmio_state.vsock_device is None
        ==> is.pci_state.vsock_device->0.uds_path == params.vsock_override->0.uds_path
    &&& is.mmio_state.fs_device is Some <==> was.mmio_state.fs_device is Some
    &&& was.mmio_state.fs_device is Some ==> {
        &&& is.mmio_state.fs_device->0.device_id == was.mmio_state.fs_device->0.device_id
        &&& is.mmio_state.fs_device->0.socket_path == params.fs_override->0.socket_path
        &&& is.mmio_state.fs_device->0.backend_state_path == Some(params.fs_override->0.state_path)
    }
}

/// Whether regions of guest memory are in order: some is main memory, and each one that is has a single
/// slot, which is plugged.
pub open spec fn memory_in_order(state: MicrovmState) -> bool {
    let regions = state.vm_state.memory.regions@;
    &&& exists|i: int|
        0 <= i < regions.len() && (#[trigger] regions[i]).region_type == GuestRegionType::Dram
    &&& forall|i: int|
        0 <= i < regions.len() && (#[trigger] regions[i]).region_type == GuestRegionType::Dram
            ==> regions[i].plugged@ == seq![true]
}

/// What is done after the state and the machine configuration, event by event, and what is reported of
/// each failure. The state is loaded once its file was opened. It is checked once the machine
/// configuration was updated, and reported on if its memory is in order. Nothing is restored before it
/// was built.
pub proof fn law_restoring_goes_step_by_step(
    job: RestoreJob,
    event: RestoreEvent,
    next: RestoreJob,
    action: RestoreAction,
)
    requires
        restore_ready(job),
        restore_event_fits(job, event),
        restore_step(job, event, next, action),
    ensures
        match event {
            RestoreEvent::StateOpened(Ok(_)) => action is LoadState,
            RestoreEvent::StateOpened(Err(e)) => action == RestoreAction::Finished(
                Err(RestoreFromSnapshotError::File(SnapshotStateFromFileError::Open(e))),
            ),
            RestoreEvent::StateLoaded(Err(e)) => action == RestoreAction::Finished(
                Err(RestoreFromSnapshotError::File(SnapshotStateFromFileError::Load(e))),
            ),
            RestoreEvent::StateLoaded(Ok(_)) => action is UpdateMachineConfig || action is Finished,
            RestoreEvent::MachineConfigUpdated(Err(e)) => action == RestoreAction::Finished(
                Err(
                    RestoreFromSnapshotError::Build(
                        BuildMicrovmFromSnapshotError::VmUpdateConfig(e),
                    ),
                ),
            ),
            RestoreEvent::MachineConfigUpdated(Ok(huge_pages)) => {
                &&& job.phase matches RestorePhase::UpdatingConfig(state)
                &&& if memory_in_order(state) {
                    &&& action matches RestoreAction::ReportCpu { report }
                    &&& sanity::cpu_reported(state, job.host_cpu, report)
                    &&& next.phase == RestorePhase::ReportingCpu(state, huge_pages)
                } else {
                    action matches RestoreAction::Finished(
                        Err(RestoreFromSnapshotError::Invalid(fault)),
                    ) && sanity::regions_fault(state.vm_state.memory.regions@, fault)
                }
            },
            RestoreEvent::CpuReported => action is File || action is SharedFile || action is Uffd
                || action == RestoreAction::Finished(
                Err(
                    RestoreFromSnapshotError::GuestMemory(
                        RestoreFromSnapshotGuestMemoryError::File(
                            GuestMemoryFromFileError::HugetlbfsSnapshot,
                        ),
                    ),
                ),
            ),
            RestoreEvent::Built(Ok(_)) => action == RestoreAction::Finished(Ok(())),
            RestoreEvent::Built(Err(e)) => action == RestoreAction::Finished(
                Err(RestoreFromSnapshotError::Build(e)),
            ),
            _ => true,
        },
        next.params == job.params,
        next.host_cpu == job.host_cpu,
        action is Finished <==> next.phase is Done,
{
    if let RestorePhase::UpdatingConfig(state) = job.phase {
        sanity::law_regions_pass_by_type_and_slots(state.vm_state.memory.regions@);
    }
}

/// Guest memory is set up by the backend that the request names, from its path, with the regions of the
/// state and the tracking of the request. Memory in hugetlbfs is only populated by another process.
pub proof fn law_memory_is_set_up_by_the_backend(
    job: RestoreJob,
    next: RestoreJob,
    action: RestoreAction,
)
    requires
        job.phase is ReportingCpu,
        restore_step(job, RestoreEvent::CpuReported, next, action),
    ensures
        ({
            let (state, huge_pages) = (job.phase->ReportingCpu_0, job.phase->ReportingCpu_1);
            let backend = job.params.mem_backend;
            let regions = state.vm_state.memory.regions@;
            &&& action is Finished <==> huge_pages == HugePageConfig::Hugetlbfs2M
                && backend.backend_type != MemBackendType::Uffd
            &&& action is File <==> huge_pages != HugePageConfig::Hugetlbfs2M && backend.backend_type
                == MemBackendType::File
            &&& action is SharedFile <==> huge_pages != HugePageConfig::Hugetlbfs2M
                && backend.backend_type == MemBackendType::SharedFile
            &&& action is Uffd <==> backend.backend_type == MemBackendType::Uffd
            &&& action is File ==> {
                &&& action == RestoreAction::File(FileAction::Open { path: backend.backend_path })
                &&& next.phase matches RestorePhase::LoadingFile(kept, memory)
                &&& kept == state
                &&& memory.track_dirty_pages == job.params.track_dirty_pages
                &&& memory.phase matches FilePhase::Opening(layout)
                &&& memory::lays_out(layout@, regions)
            }
            &&& action is SharedFile ==> {
                &&& action == RestoreAction::SharedFile(
                    SharedFileAction::CheckTarget { path: backend.backend_path },
                )
                &&& next.phase matches RestorePhase::LoadingSharedFile(kept, memory)
                &&& kept == state
                &&& memory.live_path == backend.backend_path
                &&& memory.source_path == backend.source_path->0
                &&& memory.track_dirty_pages == job.params.track_dirty_pages
                &&& memory.regions matches Some(layout)
                &&& memory::lays_out(layout@, regions)
            }
            &&& action is Uffd ==> {
                &&& action matches RestoreAction::Uffd(
                    UffdAction::MapAnonymous { regions: layout, track_dirty_pages, huge_pages: backing },
                )
                &&& memory::lays_out(layout@, regions)
                &&& track_dirty_pages == job.params.track_dirty_pages
                &&& backing == huge_pages
                &&& next.phase matches RestorePhase::LoadingUffd(kept, memory)
                &&& kept == state
                &&& memory@.mem_uds_path == backend.backend_path
                &&& memory@.huge_pages == huge_pages
            }
        }),
{
    memory::law_layout_has_each_region(job.phase->ReportingCpu_0.vm_state.memory.regions@);
}

/// Once guest memory was set up the microVM is built, from the state that was kept, with the userfaultfd
/// object exactly where another process populates the memory, and with the clock that the request asks
/// for. A failure to set it up is reported as what it is.
pub proof fn law_memory_leads_to_building(
    job: RestoreJob,
    event: RestoreEvent,
    next: RestoreJob,
    action: RestoreAction,
)
    requires
        restore_ready(job),
        restore_event_fits(job, event),
        restore_step(job, event, next, action),
    ensures
        action is Build <==> {
            ||| event matches RestoreEvent::File(FileEvent::Mapped(Ok(_)))
            ||| event matches RestoreEvent::SharedFile(SharedFileEvent::TargetMapped(Ok(_)))
            ||| event matches RestoreEvent::Uffd(UffdEvent::Sent(Ok(_)))
        },
        action matches RestoreAction::Build { state, with_uffd, clock_realtime } ==> {
            &&& match job.phase {
                RestorePhase::LoadingFile(kept, _) => state == kept && !with_uffd,
                RestorePhase::LoadingSharedFile(kept, _) => state == kept && !with_uffd,
                RestorePhase::LoadingUffd(kept, _) => state == kept && with_uffd,
                _ => false,
            }
            &&& clock_realtime == job.params.clock_realtime
        },
        event matches RestoreEvent::File(FileEvent::Opened(Err(e))) ==> action
            == RestoreAction::Finished(
            Err(
                RestoreFromSnapshotError::GuestMemory(
                    RestoreFromSnapshotGuestMemoryError::File(GuestMemoryFromFileError::File(e)),
                ),
            ),
        ),
        event matches RestoreEvent::File(FileEvent::Mapped(Err(e))) ==> action
            == RestoreAction::Finished(
            Err(
                RestoreFromSnapshotError::GuestMemory(
                    RestoreFromSnapshotGuestMemoryError::File(GuestMemoryFromFileError::Restore(e)),
                ),
            ),
        ),
        event matches RestoreEvent::SharedFile(SharedFileEvent::TargetRemoved) ==> (
        job.phase matches RestorePhase::LoadingSharedFile(_, memory)
            && memory.phase matches SharedPhase::Removing(e) && action == RestoreAction::Finished(
            Err(
                RestoreFromSnapshotError::GuestMemory(RestoreFromSnapshotGuestMemoryError::File(e)),
            ),
        )),
        event matches RestoreEvent::Uffd(UffdEvent::Mapped(Err(e))) ==> action
            == RestoreAction::Finished(
            Err(
                RestoreFromSnapshotError::GuestMemory(
                    RestoreFromSnapshotGuestMemoryError::Uffd(GuestMemoryFromUffdError::Restore(e)),
                ),
            ),
        ),
        event matches RestoreEvent::Uffd(UffdEvent::Sent(Err(e))) ==> action
            == RestoreAction::Finished(
            Err(
                RestoreFromSnapshotError::GuestMemory(
                    RestoreFromSnapshotGuestMemoryError::Uffd(GuestMemoryFromUffdError::Send(e)),
                ),
            ),
        ),
{
    match event {
        RestoreEvent::File(inner) => {
            memory_file::law_memory_file_is_opened_then_mapped(job.phase->LoadingFile_1, inner);
        },
        RestoreEvent::SharedFile(inner) => {
            memory_file::law_live_file_is_made_from_the_source(
                job.phase->LoadingSharedFile_1,
                inner,
            );
            memory_file::law_live_file_failures_say_what_failed(
                job.phase->LoadingSharedFile_1,
                inner,
            );
        },
        RestoreEvent::Uffd(inner) => {
            uffd::law_uffd_memory_is_set_up_step_by_step(job.phase->LoadingUffd_1@, inner);
            uffd::law_uffd_failures_say_what_failed(job.phase->LoadingUffd_1@, inner);
        },
        _ => {},
    }
}

/// As long as guest memory is being set up, what is asked for is what its backend asks for, and its
/// failure is the end, reported as one of guest memory.
pub proof fn law_backend_is_followed(
    job: RestoreJob,
    event: RestoreEvent,
    next: RestoreJob,
    action: RestoreAction,
)
    requires
        restore_ready(job),
        restore_event_fits(job, event),
        restore_step(job, event, next, action),
    ensures
        event matches RestoreEvent::File(FileEvent::Opened(Ok(_))) ==> {
            &&& job.phase matches RestorePhase::LoadingFile(state, memory)
            &&& action matches RestoreAction::File(FileAction::MapPrivate { regions, track_dirty_pages })
            &&& memory.phase == FilePhase::Opening(regions)
            &&& track_dirty_pages == memory.track_dirty_pages
            &&& next.phase matches RestorePhase::LoadingFile(kept, _)
            &&& kept == state
        },
        event matches RestoreEvent::SharedFile(inner) ==> {
            &&& job.phase matches RestorePhase::LoadingSharedFile(state, memory)
            &&& match memory_file::shared_next(memory, inner).1 {
                SharedFileAction::Finished(Err(e)) => action == RestoreAction::Finished(
                    Err(
                        RestoreFromSnapshotError::GuestMemory(
                            RestoreFromSnapshotGuestMemoryError::File(e),
                        ),
                    ),
                ),
                SharedFileAction::Finished(Ok(_)) => action is Build,
                asked => action == RestoreAction::SharedFile(asked) && next.phase
                    == RestorePhase::LoadingSharedFile(
                    state,
                    memory_file::shared_next(memory, inner).0,
                ),
            }
        },
        event matches RestoreEvent::Uffd(inner) ==> {
            &&& job.phase matches RestorePhase::LoadingUffd(state, memory)
            &&& match uffd::uffd_next(memory@, inner).1 {
                UffdNext::Act(UffdAction::Finished(Err(e))) => action == RestoreAction::Finished(
                    Err(
                        RestoreFromSnapshotError::GuestMemory(
                            RestoreFromSnapshotGuestMemoryError::Uffd(e),
                        ),
                    ),
                ),
                UffdNext::Act(UffdAction::Finished(Ok(_))) => action is Build,
                UffdNext::Act(asked) => {
                    &&& action == RestoreAction::Uffd(asked)
                    &&& next.phase matches RestorePhase::LoadingUffd(kept, after)
                    &&& kept == state
                    &&& after@ == uffd::uffd_next(memory@, inner).0
                },
                UffdNext::Send(sent) => {
                    &&& action matches RestoreAction::Uffd(UffdAction::SendMappings { mappings })
                    &&& mappings@ == sent
                    &&& next.phase matches RestorePhase::LoadingUffd(kept, after)
                    &&& kept == state
                    &&& after@ == uffd::uffd_next(memory@, inner).0
                },
            }
        },
{
}

/// An action is pending exactly as long as its answer is awaited: the phase that a job is in says what
/// was asked for.
pub proof fn law_phase_awaits_the_answer(
    job: RestoreJob,
    event: RestoreEvent,
    next: RestoreJob,
    action: RestoreAction,
)
    requires
        restore_ready(job),
        restore_event_fits(job, event),
        restore_step(job, event, next, action),
    ensures
        !(action is OpenState) && !(next.phase is OpeningState),
        action is LoadState <==> next.phase is LoadingState,
        action is UpdateMachineConfig <==> next.phase is UpdatingConfig,
        action is ReportCpu <==> next.phase is ReportingCpu,
        action is File <==> next.phase is LoadingFile,
        action is SharedFile <==> next.phase is LoadingSharedFile,
        action is Uffd <==> next.phase is LoadingUffd,
        action is Build <==> next.phase is Building,
        action is Finished <==> next.phase is Done,
{
}

/// Whether a state was loaded before a point of a course, and guest memory is laid out as it says.
pub open spec fn laid_out_as_loaded(course: RestoreCourse, n: int, layout: Seq<(u64, usize)>) -> bool {
    exists|j: int|
        {
            &&& 0 <= j < n
            &&& (#[trigger] course.events[j]) matches RestoreEvent::StateLoaded(Ok(loaded))
                && memory::lays_out(layout, loaded.vm_state.memory.regions@)
        }
}

spec fn course_memory(course: RestoreCourse, n: int) -> bool {
    let params = course_params(course);
    match course.jobs[n].phase {
        RestorePhase::LoadingFile(_, memory) => {
            &&& memory.track_dirty_pages == params.track_dirty_pages
            &&& memory.phase matches FilePhase::Opening(layout) ==> laid_out_as_loaded(
                course,
                n,
                layout@,
            )
        },
        RestorePhase::LoadingSharedFile(_, memory) => {
            &&& memory.track_dirty_pages == params.track_dirty_pages
            &&& memory.live_path == params.mem_backend.backend_path
            &&& Some(memory.source_path) == params.mem_backend.source_path
            &&& memory.regions matches Some(layout) ==> laid_out_as_loaded(course, n, layout@)
        },
        RestorePhase::LoadingUffd(_, memory) => memory@.mem_uds_path
            == params.mem_backend.backend_path,
        _ => true,
    }
}

proof fn lemma_layout_comes_from_loaded(
    course: RestoreCourse,
    n: int,
    m: int,
    state: MicrovmState,
    layout: Seq<(u64, usize)>,
)
    requires
        comes_from_loaded(course, n, state),
        n <= m,
        memory::lays_out(layout, state.vm_state.memory.regions@),
    ensures
        laid_out_as_loaded(course, m, layout),
{
    let j = choose|j: int|
        {
            &&& 0 <= j < n
            &&& (#[trigger] course.events[j]) matches RestoreEvent::StateLoaded(Ok(loaded))
                && load_fault(course_params(course), loaded) is None && state_overridden(
                loaded,
                course_params(course),
                state,
            )
        };
    assert(course.events[j] is StateLoaded);
}

proof fn lemma_course_memory(course: RestoreCourse, n: int)
    requires
        restore_course(course),
        0 <= n <= course.events.len(),
    ensures
        course_memory(course, n),
    decreases n,
{
    if n > 0 {
        lemma_course_memory(course, n - 1);
        lemma_course_invariant(course, n - 1);
        lemma_course_ready(course, n - 1);
        assert(course_step(course, n - 1));
        let job = course.jobs[n - 1];
        let event = course.events[n - 1];
        let next = course.jobs[n];
        let action = course.actions[n - 1];
        assert forall|layout: Seq<(u64, usize)>| #[trigger]
            laid_out_as_loaded(course, n - 1, layout) implies laid_out_as_loaded(
            course,
            n,
            layout,
        ) by {
            let j = choose|j: int|
                {
                    &&& 0 <= j < n - 1
                    &&& (#[trigger] course.events[j]) matches RestoreEvent::StateLoaded(Ok(loaded))
                        && memory::lays_out(layout, loaded.vm_state.memory.regions@)
                };
            assert(0 <= j < n);
        }
        match event {
            RestoreEvent::CpuReported => {
                law_memory_is_set_up_by_the_backend(job, next, action);
                let state = job.phase->ReportingCpu_0;
                match next.phase {
                    RestorePhase::LoadingFile(_, memory) => {
                        let layout = memory.phase->Opening_0@;
                        lemma_layout_comes_from_loaded(course, n - 1, n, state, layout);
                    },
                    RestorePhase::LoadingSharedFile(_, memory) => {
                        let layout = memory.regions->0@;
                        lemma_layout_comes_from_loaded(course, n - 1, n, state, layout);
                    },
                    _ => {},
                }
            },
            RestoreEvent::File(inner) => {
                memory_file::law_memory_file_is_opened_then_mapped(job.phase->LoadingFile_1, inner);
            },
            RestoreEvent::SharedFile(inner) => {
                memory_file::law_live_file_is_made_from_the_source(
                    job.phase->LoadingSharedFile_1,
                    inner,
                );
            },
            RestoreEvent::Uffd(inner) => {
                uffd::law_uffd_memory_is_set_up_step_by_step(job.phase->LoadingUffd_1@, inner);
            },
            _ => {},
        }
    }
}

proof fn lemma_course_ready(course: RestoreCourse, n: int)
    requires
        restore_course(course),
        0 <= n <= course.events.len(),
    ensures
        restore_ready(course.jobs[n]),
    decreases n,
{
    if n > 0 {
        lemma_course_ready(course, n - 1);
        assert(course_step(course, n - 1));
    }
}

/// In every course the machine configuration is updated to what the loaded state records: its number of
/// vCPUs, memory size, multithreading, CPU template and huge pages; and to the tracking of the request.
pub proof fn law_config_of_a_course_is_that_of_the_snapshot(course: RestoreCourse, i: int)
    requires
        restore_course(course),
        0 <= i < course.events.len(),
    ensures
        course.actions[i] matches RestoreAction::UpdateMachineConfig { update } ==> {
            &&& course.events[i] matches RestoreEvent::StateLoaded(Ok(loaded))
            &&& update.vcpu_count is Some
            &&& update.vcpu_count->0 as int == loaded.vcpu_states@.len()
            &&& update.mem_size_mib == Some(loaded.vm_info.mem_size_mib)
            &&& update.smt == Some(loaded.vm_info.smt)
            &&& update.cpu_template == Some(loaded.vm_info.cpu_template)
            &&& update.huge_pages == Some(loaded.vm_info.huge_pages)
            &&& update.track_dirty_pages == Some(course_params(course).track_dirty_pages)
        },
{
    lemma_course_invariant(course, i);
    lemma_course_ready(course, i);
    assert(course_step(course, i));
    if course.actions[i] is UpdateMachineConfig {
        let event = course.events[i];
        law_restoring_goes_step_by_step(
            course.jobs[i],
            event,
            course.jobs[i + 1],
            course.actions[i],
        );
        law_memory_leads_to_building(course.jobs[i], event, course.jobs[i + 1], course.actions[i]);
        let loaded = event->StateLoaded_0->Ok_0;
        law_machine_config_is_that_of_the_snapshot(
            course.jobs[i],
            loaded,
            course.jobs[i + 1],
            course.actions[i],
        );
    }
}

/// In every course what is done for guest memory is what the request and the loaded state say: the
/// memory file, the live file and the socket of the page fault handler are at the path of the backend,
/// the source is at its own, and what is mapped are the regions of the loaded state, tracked as the
/// request asks.
pub proof fn law_memory_of_a_course_is_that_of_the_snapshot(course: RestoreCourse, i: int)
    requires
        restore_course(course),
        0 <= i < course.events.len(),
    ensures
        ({
            let params = course_params(course);
            let backend = params.mem_backend;
            match course.actions[i] {
                RestoreAction::File(FileAction::Open { path }) => path == backend.backend_path,
                RestoreAction::File(FileAction::MapPrivate { regions, track_dirty_pages }) => {
                    &&& laid_out_as_loaded(course, i, regions@)
                    &&& track_dirty_pages == params.track_dirty_pages
                },
                RestoreAction::SharedFile(SharedFileAction::CheckTarget { path }) => path
                    == backend.backend_path,
                RestoreAction::SharedFile(SharedFileAction::OpenSource { path }) => Some(path)
                    == backend.source_path,
                RestoreAction::SharedFile(SharedFileAction::CreateTarget { path }) => path
                    == backend.backend_path,
                RestoreAction::SharedFile(SharedFileAction::RemoveTarget { path }) => path
                    == backend.backend_path,
                RestoreAction::SharedFile(
                    SharedFileAction::MapTarget { regions, track_dirty_pages },
                ) => {
                    &&& laid_out_as_loaded(course, i, regions@)
                    &&& track_dirty_pages == params.track_dirty_pages
                },
                RestoreAction::Uffd(
                    UffdAction::MapAnonymous { regions, track_dirty_pages, huge_pages: _ },
                ) => {
                    &&& laid_out_as_loaded(course, i, regions@)
                    &&& track_dirty_pages == params.track_dirty_pages
                },
                RestoreAction::Uffd(UffdAction::Connect { path }) => path == backend.backend_path,
                _ => true,
            }
        }),
{
    lemma_course_invariant(course, i);
    lemma_course_memory(course, i);
    lemma_course_ready(course, i);
    assert(course_step(course, i));
    let job = course.jobs[i];
    let next = course.jobs[i + 1];
    let action = course.actions[i];
    match course.events[i] {
        RestoreEvent::CpuReported => {
            law_memory_is_set_up_by_the_backend(job, next, action);
            if let RestoreAction::Uffd(UffdAction::MapAnonymous { regions, .. }) = action {
                let state = job.phase->ReportingCpu_0;
                lemma_layout_comes_from_loaded(course, i, i, state, regions@);
            }
        },
        RestoreEvent::File(inner) => {
            memory_file::law_memory_file_is_opened_then_mapped(job.phase->LoadingFile_1, inner);
        },
        RestoreEvent::SharedFile(inner) => {
            let memory = job.phase->LoadingSharedFile_1;
            memory_file::law_live_file_is_made_from_the_source(memory, inner);
            memory_file::law_live_file_failures_say_what_failed(memory, inner);
        },
        RestoreEvent::Uffd(inner) => {
            uffd::law_uffd_memory_is_set_up_step_by_step(job.phase->LoadingUffd_1@, inner);
            uffd::law_uffd_failures_say_what_failed(job.phase->LoadingUffd_1@, inner);
        },
        _ => {},
    }
}

/// In every course what is built is the state that was loaded, of which nothing has changed but its
/// devices, and these only by the overrides; its memory is in order.
pub proof fn law_what_is_built_was_loaded(course: RestoreCourse, i: int)
    requires
        restore_course(course),
        0 <= i < course.events.len(),
        course.actions[i] is Build,
    ensures
        memory_in_order(course.actions[i]->Build_state),
        exists|j: int|
            {
                &&& 0 <= j < i
                &&& (#[trigger] course.events[j]) matches RestoreEvent::StateLoaded(Ok(loaded))
                    && is_snapshot_with_overrides(
                    loaded,
                    course_params(course),
                    course.actions[i]->Build_state,
                )
            },
{
    law_what_is_built_is_the_snapshot(course, i);
    let state = course.actions[i]->Build_state;
    sanity::law_regions_pass_by_type_and_slots(state.vm_state.memory.regions@);
    let params = course_params(course);
    let j = choose|j: int|
        {
            &&& 0 <= j < i
            &&& (#[trigger] course.events[j]) matches RestoreEvent::StateLoaded(Ok(loaded))
                && load_fault(params, loaded) is None && state_overridden(loaded, params, state)
        };
    let loaded = course.events[j]->StateLoaded_0->Ok_0;
    overrides::law_overrides_change_what_they_name(
        loaded.device_states,
        params,
        state.device_states,
    );
    overrides::law_overrides_are_accepted_for_devices_that_exist(loaded.device_states, params);
    assert(is_snapshot_with_overrides(loaded, params, state));
}

} // verus!
