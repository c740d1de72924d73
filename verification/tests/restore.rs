//! Restoring microVMs, run against a simulated host.

use std::io::{Error, ErrorKind};

use vmm::persist::error::{
    BuildMicrovmFromSnapshotError, GuestMemoryFromFileError, GuestMemoryFromUffdError,
    MachineConfigError, MemoryError, RestoreFromSnapshotError,
    RestoreFromSnapshotGuestMemoryError, SnapShotStateSanityCheckError, SnapshotError,
    SnapshotStateFromFileError,
};
use vmm::persist::memory_file::{FileAction, FileEvent, SharedFileAction, SharedFileEvent};
use vmm::persist::overrides::{
    apply_fs_override, apply_network_overrides, apply_overrides, apply_vsock_override,
};
use vmm::persist::restore::{
    restore_from_snapshot, RestoreAction, RestoreEvent, RestoreJob, RestorePhase,
};
use vmm::persist::sanity::{
    snapshot_state_sanity_check, validate_cpu_manufacturer_id, validate_cpu_vendor, CpuIdNote,
    CpuIdUnreadable, CpuReport, HostCpu, NoteLevel,
};
use vmm::persist::state::{
    DevicesState, FsDeviceState, MicrovmState, NetDeviceState, VcpuState, VmInfo,
    VsockDeviceState,
};
use vmm::persist::uffd::{MappedRegion, UffdAction, UffdEvent};
use vmm::vmm_config::{
    FsOverride, HugePageConfig, LoadSnapshotParams, MachineConfigUpdate, MemBackendConfig,
    MemBackendType, NetworkOverride, StaticCpuTemplate, VsockOverride,
};
use vmm::vstate::memory::{GuestMemoryRegionState, GuestRegionType};

const INTEL: [u8; 12] = *b"GenuineIntel";
const AMD: [u8; 12] = *b"AuthenticAMD";

fn io_error() -> Error {
    Error::new(ErrorKind::Other, "simulated")
}

fn region(region_type: GuestRegionType, plugged: Vec<bool>) -> GuestMemoryRegionState {
    GuestMemoryRegionState {
        base_address: 0,
        size: 0x20000,
        region_type,
        plugged,
    }
}

fn net(id: &str, tap: &str) -> NetDeviceState {
    NetDeviceState {
        id: id.to_string(),
        tap_if_name: tap.to_string(),
    }
}

fn vcpu() -> VcpuState {
    VcpuState {
        vendor_id: Some(INTEL),
        manufacturer_id: Some(0x41),
        bytes: vec![],
    }
}

/// A sane state with two network devices, one on each bus.
fn state() -> MicrovmState {
    let mut state = MicrovmState {
        vm_info: VmInfo {
            mem_size_mib: 128,
            smt: true,
            cpu_template: StaticCpuTemplate::T2,
            ..Default::default()
        },
        vcpu_states: vec![vcpu(), vcpu()],
        ..Default::default()
    };
    state.vm_state.memory.regions = vec![region(GuestRegionType::Dram, vec![true])];
    state.device_states.mmio_state.net_devices = vec![net("eth0", "tap0")];
    state.device_states.pci_state.net_devices = vec![net("eth1", "tap1")];
    state
}

fn with_fs(mut state: MicrovmState) -> MicrovmState {
    state.device_states.mmio_state.fs_device = Some(FsDeviceState {
        device_id: "fs0".to_string(),
        socket_path: "old.sock".to_string(),
        backend_state_path: None,
    });
    state
}

fn params(backend_type: MemBackendType) -> LoadSnapshotParams {
    LoadSnapshotParams {
        snapshot_path: "state".to_string(),
        mem_backend: MemBackendConfig {
            backend_type,
            backend_path: "mem".to_string(),
            source_path: if backend_type == MemBackendType::SharedFile {
                Some("source".to_string())
            } else {
                None
            },
        },
        track_dirty_pages: true,
        network_overrides: vec![],
        vsock_override: None,
        fs_override: None,
        clock_realtime: true,
    }
}

fn rewire(iface: &str, host: &str) -> NetworkOverride {
    NetworkOverride {
        iface_id: iface.to_string(),
        host_dev_name: host.to_string(),
    }
}

fn fs_override(id: &str) -> FsOverride {
    FsOverride {
        fs_id: id.to_string(),
        socket_path: "new.sock".to_string(),
        state_path: "fs.state".to_string(),
    }
}

/// Restores up to the loaded state.
fn load(
    params: LoadSnapshotParams,
    loaded: Result<MicrovmState, SnapshotError>,
) -> (RestoreJob, RestoreAction) {
    let (job, action) = restore_from_snapshot(params, HostCpu::X86_64(Some(INTEL))).unwrap();
    assert!(matches!(action, RestoreAction::OpenState { path } if path == "state"));
    let (job, action) = job.step(RestoreEvent::StateOpened(Ok(())));
    assert!(matches!(action, RestoreAction::LoadState));
    job.step(RestoreEvent::StateLoaded(loaded))
}

/// Restores up to guest memory.
fn to_memory(
    params: LoadSnapshotParams,
    state: MicrovmState,
    huge_pages: HugePageConfig,
) -> (RestoreJob, RestoreAction) {
    let (job, action) = load(params, Ok(state));
    assert!(matches!(action, RestoreAction::UpdateMachineConfig { .. }));
    let (job, action) = job.step(RestoreEvent::MachineConfigUpdated(Ok(huge_pages)));
    assert!(matches!(action, RestoreAction::ReportCpu { .. }));
    job.step(RestoreEvent::CpuReported)
}

fn failed(action: RestoreAction) -> RestoreFromSnapshotError {
    match action {
        RestoreAction::Finished(Err(e)) => e,
        other => panic!("not failed: {other:?}"),
    }
}

fn taps(devices: &DevicesState) -> Vec<(&str, &str)> {
    devices
        .mmio_state
        .net_devices
        .iter()
        .chain(devices.pci_state.net_devices.iter())
        .map(|d| (d.id.as_str(), d.tap_if_name.as_str()))
        .collect()
}

#[test]
fn the_memory_backend_is_looked_at_first() {
    let mut p = params(MemBackendType::SharedFile);
    p.mem_backend.source_path = None;
    assert!(matches!(
        restore_from_snapshot(p, HostCpu::X86_64(None)),
        Err(RestoreFromSnapshotError::InvalidMemoryBackend(
            "source_path is required for SharedFile"
        ))
    ));
    for backend in [MemBackendType::File, MemBackendType::Uffd] {
        let mut p = params(backend);
        p.mem_backend.source_path = Some("source".to_string());
        assert!(matches!(
            restore_from_snapshot(p, HostCpu::X86_64(None)),
            Err(RestoreFromSnapshotError::InvalidMemoryBackend(
                "source_path is allowed only for SharedFile"
            ))
        ));
    }
    for backend in [
        MemBackendType::File,
        MemBackendType::SharedFile,
        MemBackendType::Uffd,
    ] {
        let (job, _) = restore_from_snapshot(params(backend), HostCpu::X86_64(None)).unwrap();
        assert!(matches!(job.phase, RestorePhase::OpeningState));
    }
}

#[test]
fn state_file_failures_are_told_apart() {
    let (job, _) =
        restore_from_snapshot(params(MemBackendType::File), HostCpu::X86_64(None)).unwrap();
    let (_, action) = job.step(RestoreEvent::StateOpened(Err(io_error())));
    assert!(matches!(
        failed(action),
        RestoreFromSnapshotError::File(SnapshotStateFromFileError::Open(_))
    ));
    let (_, action) = load(
        params(MemBackendType::File),
        Err(SnapshotError("crc".to_string())),
    );
    assert!(matches!(
        failed(action),
        RestoreFromSnapshotError::File(SnapshotStateFromFileError::Load(SnapshotError(_)))
    ));
}

#[test]
fn virtio_fs_needs_shared_memory() {
    for backend in [MemBackendType::File, MemBackendType::Uffd] {
        let mut p = params(backend);
        p.fs_override = Some(fs_override("fs0"));
        let (_, action) = load(p, Ok(with_fs(state())));
        assert!(matches!(
            failed(action),
            RestoreFromSnapshotError::InvalidMemoryBackend(
                "virtio-fs snapshots require the SharedFile memory backend"
            )
        ));
    }
}

#[test]
fn the_machine_configuration_follows_the_state() {
    let (job, action) = load(params(MemBackendType::File), Ok(state()));
    match action {
        RestoreAction::UpdateMachineConfig { update } => assert_eq!(
            update,
            MachineConfigUpdate {
                vcpu_count: Some(2),
                mem_size_mib: Some(128),
                smt: Some(true),
                cpu_template: Some(StaticCpuTemplate::T2),
                track_dirty_pages: Some(true),
                huge_pages: Some(HugePageConfig::NoHugePages),
            }
        ),
        other => panic!("unexpected: {other:?}"),
    }
    let (_, action) = job.step(RestoreEvent::MachineConfigUpdated(Err(
        MachineConfigError::Other("smt".to_string()),
    )));
    assert!(matches!(
        failed(action),
        RestoreFromSnapshotError::Build(BuildMicrovmFromSnapshotError::VmUpdateConfig(
            MachineConfigError::Other(_)
        ))
    ));
}

#[test]
fn vcpus_are_counted_in_a_byte() {
    let mut s = state();
    s.vcpu_states = (0..255).map(|_| vcpu()).collect();
    let (_, action) = load(params(MemBackendType::File), Ok(s));
    assert!(matches!(
        action,
        RestoreAction::UpdateMachineConfig { update } if update.vcpu_count == Some(255)
    ));

    let mut s = state();
    s.vcpu_states = (0..256).map(|_| vcpu()).collect();
    let (_, action) = load(params(MemBackendType::File), Ok(s));
    assert!(matches!(
        failed(action),
        RestoreFromSnapshotError::Build(BuildMicrovmFromSnapshotError::VmUpdateConfig(
            MachineConfigError::InvalidVcpuCount
        ))
    ));
}

#[test]
fn an_insane_state_is_not_restored() {
    let mut s = state();
    s.vm_state.memory.regions.clear();
    let (job, _) = load(params(MemBackendType::File), Ok(s));
    let (_, action) = job.step(RestoreEvent::MachineConfigUpdated(Ok(
        HugePageConfig::NoHugePages,
    )));
    assert!(matches!(
        failed(action),
        RestoreFromSnapshotError::Invalid(SnapShotStateSanityCheckError::NoMemory)
    ));
}

#[test]
fn memory_files_are_mapped() {
    let (job, action) = to_memory(
        params(MemBackendType::File),
        state(),
        HugePageConfig::NoHugePages,
    );
    assert!(matches!(
        action,
        RestoreAction::File(FileAction::Open { path }) if path == "mem"
    ));
    let (job, action) = job.step(RestoreEvent::File(FileEvent::Opened(Ok(()))));
    assert!(matches!(
        action,
        RestoreAction::File(FileAction::MapPrivate { regions, track_dirty_pages: true })
            if regions == vec![(0, 0x20000)]
    ));
    let (job, action) = job.step(RestoreEvent::File(FileEvent::Mapped(Ok(()))));
    assert!(matches!(
        action,
        RestoreAction::Build { with_uffd: false, clock_realtime: true, state }
            if taps(&state.device_states) == vec![("eth0", "tap0"), ("eth1", "tap1")]
    ));
    let (_, action) = job.step(RestoreEvent::Built(Ok(())));
    assert!(matches!(action, RestoreAction::Finished(Ok(()))));
}

#[test]
fn memory_and_build_failures_are_told_apart() {
    let (job, _) = to_memory(
        params(MemBackendType::File),
        state(),
        HugePageConfig::NoHugePages,
    );
    let (_, action) = job.step(RestoreEvent::File(FileEvent::Opened(Err(io_error()))));
    assert!(matches!(
        failed(action),
        RestoreFromSnapshotError::GuestMemory(RestoreFromSnapshotGuestMemoryError::File(
            GuestMemoryFromFileError::File(_)
        ))
    ));

    let (job, _) = to_memory(
        params(MemBackendType::Uffd),
        state(),
        HugePageConfig::NoHugePages,
    );
    let (_, action) = job.step(RestoreEvent::Uffd(UffdEvent::Mapped(Err(MemoryError(
        "mmap".to_string(),
    )))));
    assert!(matches!(
        failed(action),
        RestoreFromSnapshotError::GuestMemory(RestoreFromSnapshotGuestMemoryError::Uffd(
            GuestMemoryFromUffdError::Restore(_)
        ))
    ));

    let (job, _) = to_memory(
        params(MemBackendType::File),
        state(),
        HugePageConfig::NoHugePages,
    );
    let (job, _) = job.step(RestoreEvent::File(FileEvent::Opened(Ok(()))));
    let (job, _) = job.step(RestoreEvent::File(FileEvent::Mapped(Ok(()))));
    let (_, action) = job.step(RestoreEvent::Built(Err(
        BuildMicrovmFromSnapshotError::Other("kvm".to_string()),
    )));
    assert!(matches!(
        failed(action),
        RestoreFromSnapshotError::Build(BuildMicrovmFromSnapshotError::Other(_))
    ));
}

#[test]
fn hugetlbfs_memory_is_not_mapped_from_a_file() {
    for backend in [MemBackendType::File, MemBackendType::SharedFile] {
        let (_, action) = to_memory(params(backend), state(), HugePageConfig::Hugetlbfs2M);
        assert!(matches!(
            failed(action),
            RestoreFromSnapshotError::GuestMemory(RestoreFromSnapshotGuestMemoryError::File(
                GuestMemoryFromFileError::HugetlbfsSnapshot
            ))
        ));
    }
    let (_, action) = to_memory(
        params(MemBackendType::Uffd),
        state(),
        HugePageConfig::Hugetlbfs2M,
    );
    assert!(matches!(
        action,
        RestoreAction::Uffd(UffdAction::MapAnonymous {
            huge_pages: HugePageConfig::Hugetlbfs2M,
            ..
        })
    ));
}

#[test]
fn shared_memory_is_restored_for_virtio_fs() {
    let mut p = params(MemBackendType::SharedFile);
    p.fs_override = Some(fs_override("fs0"));
    let (job, action) = to_memory(p, with_fs(state()), HugePageConfig::NoHugePages);
    assert!(matches!(
        action,
        RestoreAction::SharedFile(SharedFileAction::CheckTarget { path }) if path == "mem"
    ));
    let (job, action) = job.step(RestoreEvent::SharedFile(SharedFileEvent::TargetChecked(
        false,
    )));
    assert!(matches!(
        action,
        RestoreAction::SharedFile(SharedFileAction::OpenSource { path }) if path == "source"
    ));
    let (job, _) = job.step(RestoreEvent::SharedFile(SharedFileEvent::SourceOpened(
        Ok(()),
    )));
    let (job, _) = job.step(RestoreEvent::SharedFile(SharedFileEvent::SourceChecked(
        Ok(true),
    )));
    let (job, _) = job.step(RestoreEvent::SharedFile(SharedFileEvent::TargetCreated(
        Ok(()),
    )));
    let (job, _) = job.step(RestoreEvent::SharedFile(SharedFileEvent::ExtentsCloned(
        true,
    )));
    let (_, action) = job.step(RestoreEvent::SharedFile(SharedFileEvent::TargetMapped(
        Ok(()),
    )));
    match action {
        RestoreAction::Build {
            state, with_uffd, ..
        } => {
            assert!(!with_uffd);
            let fs = state.device_states.mmio_state.fs_device.unwrap();
            assert_eq!(fs.device_id, "fs0");
            assert_eq!(fs.socket_path, "new.sock");
            assert_eq!(fs.backend_state_path.as_deref(), Some("fs.state"));
        }
        other => panic!("unexpected: {other:?}"),
    }
}

#[test]
fn an_existing_live_file_ends_the_restore() {
    let (job, _) = to_memory(
        params(MemBackendType::SharedFile),
        state(),
        HugePageConfig::NoHugePages,
    );
    let (_, action) = job.step(RestoreEvent::SharedFile(SharedFileEvent::TargetChecked(
        true,
    )));
    assert!(matches!(
        failed(action),
        RestoreFromSnapshotError::GuestMemory(RestoreFromSnapshotGuestMemoryError::File(
            GuestMemoryFromFileError::LiveMemoryTargetExists(path)
        )) if path == "mem"
    ));
}

#[test]
fn the_userfaultfd_object_goes_with_its_memory() {
    let (job, _) = to_memory(
        params(MemBackendType::Uffd),
        state(),
        HugePageConfig::NoHugePages,
    );
    let mapped = vec![MappedRegion {
        host_addr: 0x1000,
        size: 0x20000,
    }];
    let (job, action) = job.step(RestoreEvent::Uffd(UffdEvent::Mapped(Ok(mapped))));
    assert!(matches!(action, RestoreAction::Uffd(UffdAction::CreateUffd)));
    let (job, action) = job.step(RestoreEvent::Uffd(UffdEvent::Created(Ok(()))));
    assert!(matches!(
        action,
        RestoreAction::Uffd(UffdAction::Register {
            host_addr: 0x1000,
            len: 0x20000
        })
    ));
    let (job, action) = job.step(RestoreEvent::Uffd(UffdEvent::Registered(Ok(()))));
    assert!(matches!(
        action,
        RestoreAction::Uffd(UffdAction::Connect { path }) if path == "mem"
    ));
    let (job, _) = job.step(RestoreEvent::Uffd(UffdEvent::Connected(Ok(()))));
    let (_, action) = job.step(RestoreEvent::Uffd(UffdEvent::Sent(Ok(()))));
    assert!(matches!(
        action,
        RestoreAction::Build {
            with_uffd: true,
            ..
        }
    ));
}

#[test]
fn network_overrides_reach_both_buses() {
    let overrides = vec![rewire("eth1", "new1"), rewire("eth0", "new0")];
    let devices = apply_network_overrides(state().device_states, &overrides).unwrap();
    assert_eq!(taps(&devices), vec![("eth0", "new0"), ("eth1", "new1")]);

    assert!(matches!(
        apply_network_overrides(state().device_states, &vec![rewire("eth7", "new7")]),
        Err(SnapshotStateFromFileError::UnknownNetworkDevice)
    ));
}

#[test]
fn the_last_override_of_an_interface_wins() {
    let overrides = vec![rewire("eth0", "a"), rewire("eth1", "b"), rewire("eth0", "c")];
    let devices = apply_network_overrides(state().device_states, &overrides).unwrap();
    assert_eq!(taps(&devices), vec![("eth0", "c"), ("eth1", "b")]);
}

#[test]
fn an_override_reaches_the_first_device_of_its_interface() {
    let mut devices = state().device_states;
    devices.mmio_state.net_devices.push(net("eth2", "tap2"));
    devices.mmio_state.net_devices.push(net("eth2", "tap3"));
    devices.pci_state.net_devices.push(net("eth2", "tap4"));
    let devices = apply_network_overrides(devices, &vec![rewire("eth2", "new")]).unwrap();
    assert_eq!(
        taps(&devices),
        vec![
            ("eth0", "tap0"),
            ("eth2", "new"),
            ("eth2", "tap3"),
            ("eth1", "tap1"),
            ("eth2", "tap4")
        ]
    );
}

#[test]
fn the_vsock_device_is_found_on_either_bus() {
    let entry = VsockOverride {
        uds_path: "new".to_string(),
    };
    let vsock = || {
        Some(VsockDeviceState {
            uds_path: "old".to_string(),
        })
    };
    let mut devices = state().device_states;
    devices.mmio_state.vsock_device = vsock();
    devices.pci_state.vsock_device = vsock();
    let devices = apply_vsock_override(devices, &entry).unwrap();
    assert_eq!(devices.mmio_state.vsock_device.unwrap().uds_path, "new");
    assert_eq!(devices.pci_state.vsock_device.unwrap().uds_path, "old");

    let mut devices = state().device_states;
    devices.pci_state.vsock_device = vsock();
    let devices = apply_vsock_override(devices, &entry).unwrap();
    assert!(devices.mmio_state.vsock_device.is_none());
    assert_eq!(devices.pci_state.vsock_device.unwrap().uds_path, "new");

    assert!(matches!(
        apply_vsock_override(state().device_states, &entry),
        Err(SnapshotStateFromFileError::UnknownVsockDevice)
    ));
}

#[test]
fn a_virtio_fs_device_has_to_be_overridden_by_name() {
    let devices = || with_fs(state()).device_states;
    let after = apply_fs_override(devices(), &Some(fs_override("fs0"))).unwrap();
    assert_eq!(after.mmio_state.fs_device.unwrap().socket_path, "new.sock");
    assert!(matches!(
        apply_fs_override(devices(), &Some(fs_override("fs1"))),
        Err(SnapshotStateFromFileError::UnknownFsDevice)
    ));
    assert!(matches!(
        apply_fs_override(devices(), &None),
        Err(SnapshotStateFromFileError::MissingFsOverride)
    ));
    assert!(matches!(
        apply_fs_override(state().device_states, &Some(fs_override("fs0"))),
        Err(SnapshotStateFromFileError::UnknownFsDevice)
    ));
    let after = apply_fs_override(state().device_states, &None).unwrap();
    assert!(after.mmio_state.fs_device.is_none());
}

#[test]
fn overrides_are_looked_at_in_order() {
    let mut p = params(MemBackendType::SharedFile);
    p.network_overrides = vec![rewire("eth7", "new")];
    p.vsock_override = Some(VsockOverride {
        uds_path: "new".to_string(),
    });
    assert!(matches!(
        apply_overrides(with_fs(state()).device_states, &p),
        Err(SnapshotStateFromFileError::UnknownNetworkDevice)
    ));
    p.network_overrides = vec![rewire("eth1", "new")];
    assert!(matches!(
        apply_overrides(with_fs(state()).device_states, &p),
        Err(SnapshotStateFromFileError::UnknownVsockDevice)
    ));
    p.vsock_override = None;
    assert!(matches!(
        apply_overrides(with_fs(state()).device_states, &p),
        Err(SnapshotStateFromFileError::MissingFsOverride)
    ));
    let (_, action) = load(p, Ok(with_fs(state())));
    assert!(matches!(
        failed(action),
        RestoreFromSnapshotError::File(SnapshotStateFromFileError::MissingFsOverride)
    ));
}

#[test]
fn memory_faults_are_told_apart() {
    let check = |regions: Vec<GuestMemoryRegionState>| {
        let mut s = state();
        s.vm_state.memory.regions = regions;
        snapshot_state_sanity_check(&s, HostCpu::Aarch64(Some(0x41)))
    };
    let dram = |plugged: Vec<bool>| region(GuestRegionType::Dram, plugged);
    let other = || region(GuestRegionType::Hotpluggable, vec![false, false]);
    assert_eq!(
        check(vec![]).unwrap_err(),
        SnapShotStateSanityCheckError::NoMemory
    );
    assert_eq!(
        check(vec![other()]).unwrap_err(),
        SnapShotStateSanityCheckError::NoDramMemory
    );
    assert_eq!(
        check(vec![dram(vec![true, true])]).unwrap_err(),
        SnapShotStateSanityCheckError::DramMemoryTooManySlots
    );
    assert_eq!(
        check(vec![dram(vec![])]).unwrap_err(),
        SnapShotStateSanityCheckError::DramMemoryTooManySlots
    );
    assert_eq!(
        check(vec![dram(vec![false])]).unwrap_err(),
        SnapShotStateSanityCheckError::DramMemoryUnplugged
    );
    // The first region at fault decides.
    assert_eq!(
        check(vec![
            other(),
            dram(vec![true]),
            dram(vec![false]),
            dram(vec![])
        ])
        .unwrap_err(),
        SnapShotStateSanityCheckError::DramMemoryUnplugged
    );
    assert!(matches!(
        check(vec![other(), dram(vec![true])]).unwrap(),
        CpuReport::Manufacturer(notes)
            if notes == vec![
                CpuIdNote::HostId(0x41),
                CpuIdNote::SnapshotId(0x41),
                CpuIdNote::SnapshotId(0x41)
            ]
    ));
}

#[test]
fn cpu_differences_are_reported() {
    let s = state();
    assert_eq!(
        validate_cpu_vendor(&s, Some(INTEL)).unwrap(),
        vec![CpuIdNote::HostId(INTEL), CpuIdNote::SnapshotId(INTEL)]
    );
    assert_eq!(
        validate_cpu_vendor(&s, Some(AMD)).unwrap(),
        vec![
            CpuIdNote::HostId(AMD),
            CpuIdNote::SnapshotId(INTEL),
            CpuIdNote::Differ
        ]
    );

    // Every vCPU has its lines.
    assert_eq!(
        validate_cpu_manufacturer_id(&s, Some(0x42)).unwrap(),
        vec![
            CpuIdNote::HostId(0x42),
            CpuIdNote::SnapshotId(0x41),
            CpuIdNote::Differ,
            CpuIdNote::SnapshotId(0x41),
            CpuIdNote::Differ
        ]
    );

    assert_eq!(CpuIdNote::HostId(1u32).level(), NoteLevel::Info);
    assert_eq!(CpuIdNote::SnapshotId(1u32).level(), NoteLevel::Info);
    assert_eq!(CpuIdNote::<u32>::Differ.level(), NoteLevel::Warn);
    assert_eq!(CpuIdNote::<u32>::HostUnavailable.level(), NoteLevel::Warn);
    assert_eq!(
        CpuIdNote::<u32>::SnapshotUnavailable.level(),
        NoteLevel::Warn
    );
}

#[test]
fn a_later_vcpu_of_another_manufacturer_is_reported() {
    let mut s = state();
    s.vcpu_states[1].manufacturer_id = Some(0x51);
    let expected = vec![
        CpuIdNote::HostId(0x41),
        CpuIdNote::SnapshotId(0x41),
        CpuIdNote::SnapshotId(0x51),
        CpuIdNote::Differ,
    ];
    assert_eq!(
        validate_cpu_manufacturer_id(&s, Some(0x41)).unwrap(),
        expected
    );
    assert!(matches!(
        snapshot_state_sanity_check(&s, HostCpu::Aarch64(Some(0x41))).unwrap(),
        CpuReport::Manufacturer(notes) if notes == expected
    ));

    // A vCPU whose manufacturer cannot be told is reported wherever it stands.
    s.vcpu_states[1].manufacturer_id = None;
    assert_eq!(
        validate_cpu_manufacturer_id(&s, Some(0x41)).unwrap_err(),
        CpuIdUnreadable {
            notes: vec![
                CpuIdNote::HostId(0x41),
                CpuIdNote::SnapshotId(0x41),
                CpuIdNote::SnapshotUnavailable
            ]
        }
    );
}

#[test]
fn an_unreadable_cpu_id_is_an_error() {
    let s = state();
    assert_eq!(
        validate_cpu_vendor(&s, None).unwrap_err().notes,
        vec![CpuIdNote::HostUnavailable, CpuIdNote::SnapshotId(INTEL)]
    );
    assert_eq!(
        validate_cpu_manufacturer_id(&s, None).unwrap_err().notes,
        vec![
            CpuIdNote::HostUnavailable,
            CpuIdNote::SnapshotId(0x41),
            CpuIdNote::SnapshotId(0x41)
        ]
    );

    let mut unknown = state();
    unknown.vcpu_states.truncate(1);
    unknown.vcpu_states[0].vendor_id = None;
    unknown.vcpu_states[0].manufacturer_id = None;
    assert_eq!(
        validate_cpu_vendor(&unknown, Some(AMD)).unwrap_err().notes,
        vec![CpuIdNote::HostId(AMD), CpuIdNote::SnapshotUnavailable]
    );
    let neither = vec![CpuIdNote::HostUnavailable, CpuIdNote::SnapshotUnavailable];
    assert_eq!(
        validate_cpu_manufacturer_id(&unknown, None)
            .unwrap_err()
            .notes,
        neither
    );

    // It does not keep a state from being restored.
    assert!(matches!(
        snapshot_state_sanity_check(&unknown, HostCpu::Aarch64(None)),
        Ok(CpuReport::Manufacturer(notes)) if notes == neither
    ));
    assert!(matches!(
        snapshot_state_sanity_check(&s, HostCpu::X86_64(None)),
        Ok(CpuReport::Vendor(notes))
            if notes == vec![CpuIdNote::HostUnavailable, CpuIdNote::SnapshotId(INTEL)]
    ));
}
