//! Errors of saving and restoring a microVM.

use crate::vstate::pagemap_anon::PagemapAnonError;
use crate::vstate::soft_dirty::SoftDirtyError;
use vstd::prelude::*;

verus! {

/// A failure of the virtual machine, in words.
#[derive(Debug)]
pub struct VmError(pub String);

/// A failure of guest memory, in words.
#[derive(Debug)]
pub struct MemoryError(pub String);

/// A failure to write or read the snapshot format, in words.
#[derive(Debug)]
pub struct SnapshotError(pub String);

/// A failure of a vCPU, in words.
#[derive(Debug)]
pub struct VcpuError(pub String);

/// A failure of the hypervisor, in words.
#[derive(Debug)]
pub struct KvmVmError(pub String);

/// A failure to signal a vCPU, in words.
#[derive(Debug)]
pub struct VcpuSendEventError(pub String);

/// A failure to save or restore a device, in words.
#[derive(Debug)]
pub struct DevicePersistError(pub String);

/// A failure of the virtio-fs device, in words.
#[derive(Debug)]
pub struct VirtioFsError(pub String);

/// A failure of userfaultfd, in words.
#[derive(Debug)]
pub struct UffdError(pub String);

/// A machine configuration that is not accepted.
#[derive(Debug)]
pub enum MachineConfigError {
    /// The number of vCPUs is not accepted.
    InvalidVcpuCount,
    /// Another part is not accepted, in words.
    Other(String),
}

/// A failure to build a microVM from a snapshot.
#[derive(Debug)]
pub enum BuildMicrovmFromSnapshotError {
    /// The machine configuration of the snapshot is not accepted.
    VmUpdateConfig(MachineConfigError),
    /// Another part failed, in words.
    Other(String),
}

/// Errors related to saving and restoring the state of a microVM.
#[derive(Debug)]
pub enum MicrovmStateError {
    /// Operation not allowed.
    NotAllowed(String),
    /// Cannot restore devices.
    RestoreDevices(DevicePersistError),
    /// Cannot save the state of a vCPU.
    SaveVcpuState(VcpuError),
    /// Cannot save the state of the virtual machine.
    SaveVmState(KvmVmError),
    /// Cannot signal a vCPU.
    SignalVcpu(VcpuSendEventError),
    /// A vCPU is in an unexpected state.
    UnexpectedVcpuResponse,
}

/// Errors associated with creating a snapshot.
#[derive(Debug)]
pub enum CreateSnapshotError {
    /// Cannot get the dirty bitmap.
    DirtyBitmap(VmError),
    /// Cannot write the memory file.
    Memory(MemoryError),
    /// Cannot perform the named operation on the memory file.
    MemoryBackingFile(&'static str, std::io::Error),
    /// Cannot save the state of the microVM.
    MicrovmState(MicrovmStateError),
    /// Cannot serialize the state of the microVM.
    SerializeMicrovmState(SnapshotError),
    /// Cannot perform the named operation on the state file.
    SnapshotBackingFile(&'static str, std::io::Error),
    /// An incremental snapshot requires a base memory file, which does not exist.
    BaseMemoryFileMissing(String),
    /// The base memory file has the wrong size.
    BaseMemoryFileSizeMismatch {
        /// Path of the offending base file.
        path: String,
        /// Actual file size in bytes.
        actual: u64,
        /// Full guest memory size in bytes.
        expected: u64,
    },
    /// The parameters of the request do not go together.
    InvalidParams(&'static str),
    /// The pagemap-anon ledger failed.
    PagemapAnon(PagemapAnonError),
    /// The soft-dirty ledger failed.
    SoftDirty(SoftDirtyError),
    /// The virtio-fs device failed.
    VirtioFs(VirtioFsError),
}

/// What is wrong with the state of a microVM in a snapshot.
#[derive(Debug, Clone, Copy, PartialEq, Eq, Structural)]
pub enum SnapShotStateSanityCheckError {
    /// No memory region defined.
    NoMemory,
    /// No DRAM memory region defined.
    NoDramMemory,
    /// DRAM memory has more than a single slot.
    DramMemoryTooManySlots,
    /// DRAM memory is unplugged.
    DramMemoryUnplugged,
}

/// Errors of restoring a microVM.
#[derive(Debug)]
pub enum RestoreFromSnapshotError {
    /// Failed to get the state from the state file.
    File(SnapshotStateFromFileError),
    /// The state is not sane.
    Invalid(SnapShotStateSanityCheckError),
    /// Failed to load guest memory.
    GuestMemory(RestoreFromSnapshotGuestMemoryError),
    /// Failed to build the microVM.
    Build(BuildMicrovmFromSnapshotError),
    /// The configuration of the guest memory backend is not accepted.
    InvalidMemoryBackend(&'static str),
}

/// Errors of loading guest memory, by the backend.
#[derive(Debug)]
pub enum RestoreFromSnapshotGuestMemoryError {
    /// Failed to create guest memory from a file.
    File(GuestMemoryFromFileError),
    /// Failed to create guest memory from userfaultfd.
    Uffd(GuestMemoryFromUffdError),
}

/// Errors of getting the state of a microVM out of a state file.
#[derive(Debug)]
pub enum SnapshotStateFromFileError {
    /// Failed to open the state file.
    Open(std::io::Error),
    /// Failed to load the state.
    Load(SnapshotError),
    /// Unknown network device.
    UnknownNetworkDevice,
    /// Unknown vsock device.
    UnknownVsockDevice,
    /// Unknown virtio-fs device.
    UnknownFsDevice,
    /// The snapshot contains virtio-fs but no override was supplied.
    MissingFsOverride,
}

/// Errors of creating guest memory from a file.
#[derive(Debug)]
pub enum GuestMemoryFromFileError {
    /// Failed to load guest memory.
    File(std::io::Error),
    /// Failed to restore guest memory.
    Restore(MemoryError),
    /// Cannot restore a hugetlbfs backed snapshot by mapping the memory file.
    HugetlbfsSnapshot,
    /// The shared live-memory target already exists.
    LiveMemoryTargetExists(String),
    /// The shared-memory source is not a regular file.
    SharedSourceNotRegular(String),
}

/// Errors of creating guest memory from userfaultfd.
#[derive(Debug)]
pub enum GuestMemoryFromUffdError {
    /// Failed to restore guest memory.
    Restore(MemoryError),
    /// Failed to create the userfaultfd object.
    Create(UffdError),
    /// Failed to register a memory address range with the userfaultfd object.
    Register(UffdError),
    /// Failed to connect to the socket of the page fault handler.
    Connect(std::io::Error),
    /// Failed to send the file descriptor.
    Send(vmm_sys_util::errno::Error),
}

} // verus!
