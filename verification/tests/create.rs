//! Creating snapshots, run against a simulated microVM.

use std::io::{Error, ErrorKind};

use vmm::persist::create::{
    create_snapshot, CreateAction, CreateEvent, CreateJob, CreatePhase, CreateStep,
};
use vmm::persist::error::{
    CreateSnapshotError, DevicePersistError, KvmVmError, MemoryError, MicrovmStateError,
    SnapshotError, VcpuError, VcpuSendEventError, VirtioFsError, VmError,
};
use vmm::persist::state::{MicrovmState, VmInfo, Vmm};
use vmm::persist::version::snapshot_version;
use vmm::vmm_config::{
    recorded_template, BootSourceConfig, CpuTemplateType, CreateSnapshotParams, HugePageConfig,
    MachineConfig, SnapshotType, StaticCpuTemplate, VmResources,
};
use vmm::vstate::pagemap_anon::MemoryRange;
use vmm::vstate::soft_dirty::{
    AccountingMode, ArmOutcome, ClearRefsFailure, SoftDirtyAccounting,
};

fn machine() -> MachineConfig {
    MachineConfig {
        vcpu_count: 2,
        mem_size_mib: 256,
        smt: true,
        cpu_template: Some(CpuTemplateType::Static(StaticCpuTemplate::T2S)),
        track_dirty_pages: true,
        huge_pages: HugePageConfig::Hugetlbfs2M,
    }
}

fn boot_source() -> BootSourceConfig {
    BootSourceConfig {
        kernel_image_path: "vmlinux".to_string(),
        initrd_path: None,
        boot_args: Some("quiet".to_string()),
    }
}

fn vmm(has_virtio_fs: bool, has_kvm: bool) -> Vmm {
    Vmm {
        machine_config: machine(),
        boot_source_config: boot_source(),
        has_virtio_fs,
        has_kvm,
    }
}

fn params(snapshot_type: SnapshotType) -> CreateSnapshotParams {
    CreateSnapshotParams {
        snapshot_type,
        snapshot_path: "state".to_string(),
        mem_file_path: Some("mem".to_string()),
        state_only: false,
        deferred_sync: false,
        fs_state_path: None,
    }
}

fn io_error(text: &str) -> Error {
    Error::new(ErrorKind::Other, text)
}

/// The events of a run in which everything succeeds but the named steps.
fn answer(action: &CreateAction, failing: &[&str]) -> (&'static str, CreateEvent) {
    let fails = |name: &str| failing.contains(&name);
    let io = |name: &str| {
        if fails(name) {
            Err(io_error(name))
        } else {
            Ok(())
        }
    };
    match action {
        CreateAction::PrepareVirtioFs { .. } => (
            "prepare",
            CreateEvent::VirtioFsPrepared(if fails("prepare") {
                Err(VirtioFsError("prepare".to_string()))
            } else {
                Ok(())
            }),
        ),
        CreateAction::CollectDirtyRanges => (
            "collect",
            CreateEvent::DirtyRangesCollected(vec![MemoryRange {
                gpa: 0x1000,
                length: 0x2000,
            }]),
        ),
        CreateAction::SaveState { vm_info } => {
            assert_eq!(vm_info.mem_size_mib, 256);
            (
                "save",
                CreateEvent::StateSaved(if fails("save") {
                    Err(MicrovmStateError::UnexpectedVcpuResponse)
                } else {
                    Ok(MicrovmState {
                        vm_info: vm_info.clone(),
                        ..Default::default()
                    })
                }),
            )
        }
        CreateAction::OpenStateFile { path } => {
            assert_eq!(path, "state");
            ("open", CreateEvent::StateFileOpened(io("open")))
        }
        CreateAction::WriteState { state } => {
            assert_eq!(state.vm_info.mem_size_mib, 256);
            (
                "write",
                CreateEvent::StateWritten(if fails("write") {
                    Err(SnapshotError("write".to_string()))
                } else {
                    Ok(())
                }),
            )
        }
        CreateAction::FlushStateFile => ("flush", CreateEvent::StateFileFlushed(io("flush"))),
        CreateAction::SyncStateFile => ("sync", CreateEvent::StateFileSynced(io("sync"))),
        CreateAction::WriteMemory {
            path,
            virtio_fs_dirty_ranges,
            ..
        } => {
            assert_eq!(path, "mem");
            assert_eq!(
                virtio_fs_dirty_ranges,
                &vec![MemoryRange {
                    gpa: 0x1000,
                    length: 0x2000
                }]
            );
            (
                "memory",
                CreateEvent::MemoryWritten(if fails("memory") {
                    Err(CreateSnapshotError::MemoryBackingFile(
                        "set_len",
                        io_error("memory"),
                    ))
                } else {
                    Ok(())
                }),
            )
        }
        CreateAction::MarkQueueMemory => ("mark", CreateEvent::QueueMemoryMarked),
        CreateAction::FinishVirtioFs { success } => (
            if *success { "resume" } else { "abort" },
            CreateEvent::VirtioFsFinished(if fails("finish") {
                Err(VirtioFsError("finish".to_string()))
            } else {
                Ok(())
            }),
        ),
        CreateAction::Finished(_) => unreachable!(),
    }
}

/// Runs a snapshot to its end; returns what was done and the result.
fn run(
    started: (CreateJob, CreateAction),
    failing: &[&str],
) -> (Vec<&'static str>, Result<(), CreateSnapshotError>) {
    let (mut job, mut action) = started;
    let mut done = Vec::new();
    loop {
        if let CreateAction::Finished(result) = action {
            return (done, result);
        }
        let (name, event) = answer(&action, failing);
        done.push(name);
        let next = job.step(event);
        job = next.0;
        action = next.1;
    }
}

fn create(
    vmm: &Vmm,
    params: &CreateSnapshotParams,
    failing: &[&str],
) -> (Vec<&'static str>, Result<(), CreateSnapshotError>) {
    run(
        create_snapshot(vmm, &VmInfo::from(vmm), params).unwrap(),
        failing,
    )
}

fn refused(vmm: &Vmm, params: &CreateSnapshotParams) -> &'static str {
    match create_snapshot(vmm, &VmInfo::from(vmm), params) {
        Err(CreateSnapshotError::InvalidParams(why)) => why,
        other => panic!("not refused: {other:?}"),
    }
}

#[test]
fn vm_info_is_taken_from_the_configuration() {
    let resources = VmResources {
        machine_config: machine(),
        boot_source: boot_source(),
    };
    for info in [VmInfo::from(&resources), VmInfo::from(&vmm(false, true))] {
        assert_eq!(info.mem_size_mib, 256);
        assert!(info.smt);
        assert_eq!(info.cpu_template, StaticCpuTemplate::T2S);
        assert_eq!(info.boot_source.kernel_image_path, "vmlinux");
        assert_eq!(info.boot_source.boot_args.as_deref(), Some("quiet"));
        assert_eq!(info.huge_pages, HugePageConfig::Hugetlbfs2M);
    }
    let info = VmInfo::default();
    assert_eq!(info.mem_size_mib, 0);
    assert_eq!(info.cpu_template, StaticCpuTemplate::NoTemplate);
}

#[test]
fn custom_templates_are_not_recorded() {
    assert_eq!(
        recorded_template(&Some(CpuTemplateType::Custom)),
        StaticCpuTemplate::NoTemplate
    );
    assert_eq!(recorded_template(&None), StaticCpuTemplate::default());
    assert_eq!(
        recorded_template(&Some(CpuTemplateType::Static(StaticCpuTemplate::V1N1))),
        StaticCpuTemplate::V1N1
    );
}

#[test]
fn snapshot_version_is_eleven() {
    assert_eq!(snapshot_version(), semver::Version::new(11, 0, 0));
    assert_eq!(snapshot_version().to_string(), "11.0.0");
}

#[test]
fn a_refused_request_asks_for_nothing() {
    let plain = vmm(false, true);
    let with_fs = vmm(true, true);

    let mut p = params(SnapshotType::Diff);
    p.state_only = true;
    p.mem_file_path = None;
    assert_eq!(
        refused(&plain, &p),
        "state_only snapshots require snapshot_type Full: no memory write or ledger transition \
         happens"
    );
    p.snapshot_type = SnapshotType::SoftDirty;
    assert!(refused(&plain, &p).starts_with("state_only snapshots require"));

    let mut p = params(SnapshotType::Full);
    p.state_only = true;
    assert_eq!(
        refused(&plain, &p),
        "mem_file_path must be omitted when state_only is true"
    );

    let mut p = params(SnapshotType::Full);
    p.mem_file_path = None;
    assert_eq!(
        refused(&plain, &p),
        "mem_file_path is required unless state_only is true"
    );

    let p = params(SnapshotType::Full);
    assert_eq!(
        refused(&with_fs, &p),
        "fs_state_path is required when virtio-fs is configured"
    );

    let mut p = params(SnapshotType::Full);
    p.fs_state_path = Some("fs".to_string());
    assert_eq!(
        refused(&plain, &p),
        "fs_state_path was provided but no virtio-fs device is configured"
    );

    // Memory is looked at before virtio-fs.
    p.mem_file_path = None;
    assert_eq!(
        refused(&plain, &p),
        "mem_file_path is required unless state_only is true"
    );
}

#[test]
fn the_state_is_on_file_before_memory() {
    let (done, result) = create(&vmm(false, true), &params(SnapshotType::Full), &[]);
    assert_eq!(
        done,
        vec!["collect", "save", "open", "write", "flush", "sync", "memory", "mark"]
    );
    assert!(result.is_ok());
}

#[test]
fn deferred_sync_spares_the_state_file_its_sync() {
    let mut p = params(SnapshotType::SoftDirty);
    p.deferred_sync = true;
    let (done, result) = create(&vmm(false, true), &p, &["sync"]);
    assert_eq!(
        done,
        vec!["collect", "save", "open", "write", "flush", "memory", "mark"]
    );
    assert!(result.is_ok());
}

#[test]
fn a_snapshot_of_the_state_alone_writes_no_memory() {
    let mut p = params(SnapshotType::Full);
    p.state_only = true;
    p.mem_file_path = None;
    // It needs no KVM either.
    let (done, result) = create(&vmm(false, false), &p, &[]);
    assert_eq!(
        done,
        vec!["collect", "save", "open", "write", "flush", "sync"]
    );
    assert!(result.is_ok());
}

#[test]
fn memory_requires_kvm() {
    let (done, result) = create(&vmm(false, false), &params(SnapshotType::Full), &[]);
    assert_eq!(
        done,
        vec!["collect", "save", "open", "write", "flush", "sync"]
    );
    assert!(matches!(
        result,
        Err(CreateSnapshotError::MicrovmState(MicrovmStateError::NotAllowed(why)))
            if why == "snapshot requires KVM"
    ));
}

#[test]
fn the_memory_request_is_handed_on() {
    let mut p = params(SnapshotType::Diff);
    p.deferred_sync = true;
    p.fs_state_path = Some("fs".to_string());
    let vm = vmm(true, true);
    let (mut job, mut action) = create_snapshot(&vm, &VmInfo::from(&vm), &p).unwrap();
    assert!(matches!(
        &action,
        CreateAction::PrepareVirtioFs { path, deferred_sync: true } if path == "fs"
    ));
    assert!(matches!(
        job.phase,
        CreatePhase::Doing(CreateStep::PrepareVirtioFs)
    ));
    while !matches!(action, CreateAction::WriteMemory { .. }) {
        let next = job.step(answer(&action, &[]).1);
        job = next.0;
        action = next.1;
    }
    assert!(matches!(
        action,
        CreateAction::WriteMemory {
            snapshot_type: SnapshotType::Diff,
            deferred_sync: true,
            has_virtio_fs: true,
            ..
        }
    ));
}

#[test]
fn virtio_fs_resumes_after_success_and_failure() {
    let vm = vmm(true, true);
    let mut p = params(SnapshotType::Full);
    p.fs_state_path = Some("fs".to_string());

    let (done, result) = create(&vm, &p, &[]);
    assert_eq!(done.first(), Some(&"prepare"));
    assert_eq!(done.last(), Some(&"resume"));
    assert_eq!(done.len(), 10);
    assert!(result.is_ok());

    for failing in ["save", "open", "write", "flush", "sync", "memory"] {
        let (done, result) = create(&vm, &p, &[failing]);
        assert_eq!(done[done.len() - 2], failing);
        assert_eq!(done.last(), Some(&"abort"));
        assert!(result.is_err());
    }

    // A backend that could not save its state is not asked to resume.
    let (done, result) = create(&vm, &p, &["prepare"]);
    assert_eq!(done, vec!["prepare"]);
    assert!(matches!(
        result,
        Err(CreateSnapshotError::VirtioFs(VirtioFsError(why))) if why == "prepare"
    ));

    // Without KVM it resumes too, told that there is no snapshot.
    let (done, result) = create(&vmm(true, false), &p, &[]);
    assert_eq!(done.last(), Some(&"abort"));
    assert!(matches!(
        result,
        Err(CreateSnapshotError::MicrovmState(
            MicrovmStateError::NotAllowed(_)
        ))
    ));
}

#[test]
fn the_first_error_is_reported() {
    let vm = vmm(true, true);
    let mut p = params(SnapshotType::Full);
    p.fs_state_path = Some("fs".to_string());

    let (_, result) = create(&vm, &p, &["finish"]);
    assert!(matches!(
        result,
        Err(CreateSnapshotError::VirtioFs(VirtioFsError(why))) if why == "finish"
    ));
    let (_, result) = create(&vm, &p, &["flush", "finish"]);
    assert!(matches!(
        result,
        Err(CreateSnapshotError::SnapshotBackingFile("flush", _))
    ));
}

#[test]
fn each_failure_has_its_error() {
    let vm = vmm(false, true);
    let p = params(SnapshotType::Full);
    assert!(matches!(
        create(&vm, &p, &["save"]).1,
        Err(CreateSnapshotError::MicrovmState(
            MicrovmStateError::UnexpectedVcpuResponse
        ))
    ));
    assert!(matches!(
        create(&vm, &p, &["open"]).1,
        Err(CreateSnapshotError::SnapshotBackingFile("open", _))
    ));
    assert!(matches!(
        create(&vm, &p, &["write"]).1,
        Err(CreateSnapshotError::SerializeMicrovmState(SnapshotError(_)))
    ));
    assert!(matches!(
        create(&vm, &p, &["flush"]).1,
        Err(CreateSnapshotError::SnapshotBackingFile("flush", _))
    ));
    assert!(matches!(
        create(&vm, &p, &["sync"]).1,
        Err(CreateSnapshotError::SnapshotBackingFile("sync_all", _))
    ));
    let (done, result) = create(&vm, &p, &["memory"]);
    assert!(matches!(
        result,
        Err(CreateSnapshotError::MemoryBackingFile("set_len", _))
    ));
    // The queues are not marked unless memory was written.
    assert_eq!(done.last(), Some(&"memory"));
}

/// Runs a snapshot whose state is not saved, for this reason.
fn save_fails(why: MicrovmStateError) -> Result<(), CreateSnapshotError> {
    let vm = vmm(false, true);
    let started =
        create_snapshot(&vm, &VmInfo::from(&vm), &params(SnapshotType::Full)).unwrap();
    let (job, _) = started.0.step(CreateEvent::DirtyRangesCollected(vec![]));
    match job.step(CreateEvent::StateSaved(Err(why))).1 {
        CreateAction::Finished(result) => result,
        other => panic!("not over: {other:?}"),
    }
}

/// Runs a snapshot whose memory is not written, for this reason.
fn memory_fails(why: CreateSnapshotError) -> Result<(), CreateSnapshotError> {
    let vm = vmm(false, true);
    let (mut job, mut action) =
        create_snapshot(&vm, &VmInfo::from(&vm), &params(SnapshotType::SoftDirty)).unwrap();
    while !matches!(action, CreateAction::WriteMemory { .. }) {
        let next = job.step(answer(&action, &[]).1);
        job = next.0;
        action = next.1;
    }
    match job.step(CreateEvent::MemoryWritten(Err(why))).1 {
        CreateAction::Finished(result) => result,
        other => panic!("not over: {other:?}"),
    }
}

#[test]
fn errors_of_other_parts_are_handed_on() {
    let text = || "why".to_string();
    assert!(matches!(
        save_fails(MicrovmStateError::RestoreDevices(DevicePersistError(text()))),
        Err(CreateSnapshotError::MicrovmState(
            MicrovmStateError::RestoreDevices(_)
        ))
    ));
    assert!(matches!(
        save_fails(MicrovmStateError::SaveVcpuState(VcpuError(text()))),
        Err(CreateSnapshotError::MicrovmState(
            MicrovmStateError::SaveVcpuState(_)
        ))
    ));
    assert!(matches!(
        save_fails(MicrovmStateError::SaveVmState(KvmVmError(text()))),
        Err(CreateSnapshotError::MicrovmState(
            MicrovmStateError::SaveVmState(_)
        ))
    ));
    assert!(matches!(
        save_fails(MicrovmStateError::SignalVcpu(VcpuSendEventError(text()))),
        Err(CreateSnapshotError::MicrovmState(
            MicrovmStateError::SignalVcpu(_)
        ))
    ));
    assert!(matches!(
        memory_fails(CreateSnapshotError::DirtyBitmap(VmError(text()))),
        Err(CreateSnapshotError::DirtyBitmap(_))
    ));
    assert!(matches!(
        memory_fails(CreateSnapshotError::Memory(MemoryError(text()))),
        Err(CreateSnapshotError::Memory(_))
    ));
    assert!(matches!(
        memory_fails(CreateSnapshotError::BaseMemoryFileMissing(text())),
        Err(CreateSnapshotError::BaseMemoryFileMissing(path)) if path == "why"
    ));
    assert!(matches!(
        memory_fails(CreateSnapshotError::BaseMemoryFileSizeMismatch {
            path: text(),
            actual: 1,
            expected: 2
        }),
        Err(CreateSnapshotError::BaseMemoryFileSizeMismatch {
            actual: 1,
            expected: 2,
            ..
        })
    ));
    assert!(matches!(
        memory_fails(CreateSnapshotError::PagemapAnon(
            vmm::vstate::pagemap_anon::PagemapAnonError::Other(text())
        )),
        Err(CreateSnapshotError::PagemapAnon(_))
    ));
    assert!(matches!(
        memory_fails(CreateSnapshotError::SoftDirty(
            vmm::vstate::soft_dirty::SoftDirtyError::NotPageAligned
        )),
        Err(CreateSnapshotError::SoftDirty(_))
    ));
}

/// Runs a snapshot with an accounting, which starts a window once memory was written.
fn create_with(
    accounting: &mut SoftDirtyAccounting,
    params: &CreateSnapshotParams,
    failing: &[&str],
) -> Result<(), CreateSnapshotError> {
    let vmm = vmm(params.fs_state_path.is_some(), true);
    let (mut job, mut action) = create_snapshot(&vmm, &VmInfo::from(&vmm), params).unwrap();
    loop {
        if let CreateAction::Finished(result) = action {
            return result;
        }
        let (_, event) = answer(&action, failing);
        if matches!(event, CreateEvent::MemoryWritten(Ok(()))) {
            accounting.start_window(|| Ok(true), cleared);
        }
        let next = job.step(event);
        job = next.0;
        action = next.1;
    }
}

fn cleared(_: &str, _: &[u8]) -> Result<(), ClearRefsFailure> {
    Ok(())
}

#[test]
fn a_created_full_snapshot_opens_a_window() {
    let full = params(SnapshotType::Full);
    let mut accounting = SoftDirtyAccounting::default();
    assert!(create_with(&mut accounting, &full, &[]).is_ok());
    assert_eq!(accounting.mode(), AccountingMode::SoftDirty);
    assert!(accounting.is_armed());
    // The next incremental snapshot is a delta, no baseline.
    assert_eq!(
        accounting.arm(|| panic!("must not probe"), cleared).unwrap(),
        ArmOutcome::AlreadyArmed
    );

    // One without memory opens none.
    let mut state_only = params(SnapshotType::Full);
    state_only.state_only = true;
    state_only.mem_file_path = None;
    let mut accounting = SoftDirtyAccounting::default();
    assert!(create_with(&mut accounting, &state_only, &[]).is_ok());
    assert_eq!(accounting.mode(), AccountingMode::Unprobed);
    assert!(!accounting.is_armed());
}

#[test]
fn a_full_snapshot_without_durable_memory_resets_nothing() {
    for failing in ["flush", "sync", "memory"] {
        let full = params(SnapshotType::Full);
        let mut accounting = SoftDirtyAccounting::default();
        assert!(create_with(&mut accounting, &full, &[failing]).is_err());
        assert_eq!(accounting.mode(), AccountingMode::Unprobed);
        assert!(!accounting.is_armed());

        // A window that was open stays as it is.
        assert!(accounting.start_window(|| Ok(true), cleared));
        assert!(create_with(&mut accounting, &full, &[failing]).is_err());
        assert_eq!(
            accounting.arm(|| panic!("must not probe"), cleared).unwrap(),
            ArmOutcome::AlreadyArmed
        );
    }

    // Memory that was written starts a window, though the backend does not resume.
    let mut full = params(SnapshotType::Full);
    full.fs_state_path = Some("fs".to_string());
    let mut accounting = SoftDirtyAccounting::default();
    assert!(create_with(&mut accounting, &full, &["finish"]).is_err());
    assert!(accounting.is_armed());
}

#[test]
fn an_incremental_snapshot_that_fails_is_not_acknowledged() {
    let incremental = |accounting: &mut SoftDirtyAccounting, failing: &[&str]| {
        let vmm = vmm(false, true);
        let (mut job, mut action) =
            create_snapshot(&vmm, &VmInfo::from(&vmm), &params(SnapshotType::SoftDirty)).unwrap();
        let mut outcome = None;
        loop {
            if let CreateAction::Finished(result) = action {
                return (outcome, result.is_ok());
            }
            if matches!(action, CreateAction::WriteMemory { .. }) {
                outcome = Some(accounting.arm(|| Ok(true), cleared).unwrap());
            }
            let (_, event) = answer(&action, failing);
            match &event {
                CreateEvent::MemoryWritten(Ok(())) => accounting.ack_persisted(cleared).unwrap(),
                CreateEvent::MemoryWritten(Err(_)) => accounting.disarm(),
                _ => {}
            }
            (job, action) = job.step(event);
        }
    };
    let mut accounting = SoftDirtyAccounting::default();
    // A baseline, then a delta.
    assert_eq!(
        incremental(&mut accounting, &[]),
        (Some(ArmOutcome::Armed), true)
    );
    assert_eq!(
        incremental(&mut accounting, &[]),
        (Some(ArmOutcome::AlreadyArmed), true)
    );
    // A run that does not get to memory leaves the window alone.
    assert_eq!(incremental(&mut accounting, &["flush"]), (None, false));
    assert!(accounting.is_armed());
    // Memory that was not written is in the next baseline.
    assert_eq!(
        incremental(&mut accounting, &["memory"]),
        (Some(ArmOutcome::AlreadyArmed), false)
    );
    assert!(!accounting.is_armed());
    assert_eq!(
        incremental(&mut accounting, &[]),
        (Some(ArmOutcome::Armed), true)
    );
}
