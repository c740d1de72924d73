//! The state of a microVM, as far as saving and restoring look into it.

use crate::vmm_config::{
    recorded_template, BootSourceConfig, CpuTemplateType, HugePageConfig, MachineConfig, StaticCpuTemplate,
    VmResources,
};
use crate::vstate::memory::GuestMemoryState;
use vstd::prelude::*;

verus! {

/// Information about a microVM that is not part of the state of its virtual machine.
#[derive(Debug)]
pub struct VmInfo {
    /// Guest memory size.
    pub mem_size_mib: u64,
    /// Whether simultaneous multithreading is on.
    pub smt: bool,
    /// CPU template type.
    pub cpu_template: StaticCpuTemplate,
    /// Boot source information.
    pub boot_source: BootSourceConfig,
    /// Huge page configuration.
    pub huge_pages: HugePageConfig,
}

impl Clone for VmInfo {
    fn clone(&self) -> (copy: Self)
        ensures
            copy == *self,
    {
        VmInfo {
            mem_size_mib: self.mem_size_mib,
            smt: self.smt,
            cpu_template: self.cpu_template,
            boot_source: self.boot_source.clone(),
            huge_pages: self.huge_pages,
        }
    }
}

impl Default for VmInfo {
    fn default() -> (info: Self)
        ensures
            info.mem_size_mib == 0,
            !info.smt,
            info.cpu_template == StaticCpuTemplate::NoTemplate,
            info.boot_source.kernel_image_path@ == Seq::<char>::empty(),
            info.boot_source.initrd_path is None,
            info.boot_source.boot_args is None,
            info.huge_pages == HugePageConfig::NoHugePages,
    {
        VmInfo {
            mem_size_mib: 0,
            smt: false,
            cpu_template: StaticCpuTemplate::NoTemplate,
            boot_source: BootSourceConfig::default(),
            huge_pages: HugePageConfig::NoHugePages,
        }
    }
}

/// A running microVM, as far as creating a snapshot looks into it.
#[derive(Debug)]
pub struct Vmm {
    /// The machine configuration.
    pub machine_config: MachineConfig,
    /// What the microVM booted.
    pub boot_source_config: BootSourceConfig,
    /// Whether a virtio-fs device is configured.
    pub has_virtio_fs: bool,
    /// Whether the virtual machine is run by KVM.
    pub has_kvm: bool,
}

/// The information that goes with a machine configuration and a boot source.
pub open spec fn info_of(machine: MachineConfig, boot_source: BootSourceConfig) -> VmInfo {
    VmInfo {
        mem_size_mib: machine.mem_size_mib as u64,
        smt: machine.smt,
        cpu_template: crate::vmm_config::static_template(machine.cpu_template),
        boot_source,
        huge_pages: machine.huge_pages,
    }
}

fn info_from(machine: &MachineConfig, boot_source: &BootSourceConfig) -> (info: VmInfo)
    ensures
        info == info_of(*machine, *boot_source),
{
    VmInfo {
        mem_size_mib: machine.mem_size_mib as u64,
        smt: machine.smt,
        cpu_template: recorded_template(&machine.cpu_template),
        boot_source: boot_source.clone(),
        huge_pages: machine.huge_pages,
    }
}

impl From<&VmResources> for VmInfo {
    fn from(value: &VmResources) -> (info: Self) {
        info_from(&value.machine_config, &value.boot_source)
    }
}

impl vstd::std_specs::convert::FromSpecImpl<&VmResources> for VmInfo {
    open spec fn obeys_from_spec() -> bool {
        true
    }

    open spec fn from_spec(value: &VmResources) -> VmInfo {
        info_of(value.machine_config, value.boot_source)
    }
}

impl From<&Vmm> for VmInfo {
    fn from(value: &Vmm) -> (info: Self) {
        info_from(&value.machine_config, &value.boot_source_config)
    }
}

impl vstd::std_specs::convert::FromSpecImpl<&Vmm> for VmInfo {
    open spec fn obeys_from_spec() -> bool {
        true
    }

    open spec fn from_spec(value: &Vmm) -> VmInfo {
        info_of(value.machine_config, value.boot_source_config)
    }
}

/// State of the hypervisor, as its owner serialized it.
#[derive(Debug, Default)]
pub struct KvmState {
    /// The serialized state.
    pub bytes: Vec<u8>,
}

/// State of the virtual machine.
#[derive(Debug, Default)]
pub struct VmState {
    /// The layout of guest memory.
    pub memory: GuestMemoryState,
    /// The rest, as its owner serialized it.
    pub bytes: Vec<u8>,
}

/// State of a vCPU.
#[derive(Debug, Default)]
pub struct VcpuState {
    /// The vendor that CPUID names (x86_64).
    pub vendor_id: Option<[u8; 12]>,
    /// The manufacturer that the identification register names (aarch64).
    pub manufacturer_id: Option<u32>,
    /// The rest, as its owner serialized it.
    pub bytes: Vec<u8>,
}

/// State of a network device.
#[derive(Debug)]
pub struct NetDeviceState {
    /// The interface.
    pub id: String,
    /// The host device that backs it.
    pub tap_if_name: String,
}

/// State of a vsock device.
#[derive(Debug)]
pub struct VsockDeviceState {
    /// The path that backs it.
    pub uds_path: String,
}

/// State of a virtio-fs device.
#[derive(Debug)]
pub struct FsDeviceState {
    /// The device.
    pub device_id: String,
    /// The socket of its backend.
    pub socket_path: String,
    /// Path of the state that the backend resumes from.
    pub backend_state_path: Option<String>,
}

/// State of the devices on the MMIO bus.
#[derive(Debug, Default)]
pub struct MmioState {
    /// The network devices.
    pub net_devices: Vec<NetDeviceState>,
    /// The vsock device, if any.
    pub vsock_device: Option<VsockDeviceState>,
    /// The virtio-fs device, if any.
    pub fs_device: Option<FsDeviceState>,
}

/// State of the devices on the PCI bus.
#[derive(Debug, Default)]
pub struct PciState {
    /// The network devices.
    pub net_devices: Vec<NetDeviceState>,
    /// The vsock device, if any.
    pub vsock_device: Option<VsockDeviceState>,
}

/// State of the devices of a microVM.
#[derive(Debug, Default)]
pub struct DevicesState {
    /// The devices on the MMIO bus.
    pub mmio_state: MmioState,
    /// The devices on the PCI bus.
    pub pci_state: PciState,
    /// The rest, as its owner serialized it.
    pub bytes: Vec<u8>,
}

/// The state that is needed to save and restore a microVM.
#[derive(Debug, Default)]
pub struct MicrovmState {
    /// Miscellaneous information.
    pub vm_info: VmInfo,
    /// State of the hypervisor.
    pub kvm_state: KvmState,
    /// State of the virtual machine.
    pub vm_state: VmState,
    /// States of the vCPUs.
    pub vcpu_states: Vec<VcpuState>,
    /// States of the devices.
    pub device_states: DevicesState,
}

/// The information that goes into a snapshot is that of the machine configuration and of what was
/// booted, each part from its own place. A CPU template is recorded where it comes with the VMM.
pub proof fn law_information_is_taken_from_the_configuration(
    machine: MachineConfig,
    boot_source: BootSourceConfig,
)
    ensures
        info_of(machine, boot_source).mem_size_mib == machine.mem_size_mib,
        info_of(machine, boot_source).smt == machine.smt,
        info_of(machine, boot_source).huge_pages == machine.huge_pages,
        info_of(machine, boot_source).boot_source == boot_source,
        machine.cpu_template matches Some(CpuTemplateType::Static(template)) ==> info_of(
            machine,
            boot_source,
        ).cpu_template == template,
        !(machine.cpu_template matches Some(CpuTemplateType::Static(_))) ==> info_of(
            machine,
            boot_source,
        ).cpu_template == StaticCpuTemplate::NoTemplate,
{
}

/// The information is the same whether it is taken from a microVM or from the resources that it was
/// configured with.
pub proof fn law_information_is_the_same_from_both(resources: VmResources, vmm: Vmm)
    requires
        resources.machine_config == vmm.machine_config,
        resources.boot_source == vmm.boot_source_config,
    ensures
        <VmInfo as vstd::std_specs::convert::FromSpec<&VmResources>>::from_spec(&resources)
            == <VmInfo as vstd::std_specs::convert::FromSpec<&Vmm>>::from_spec(&vmm),
        <VmInfo as vstd::std_specs::convert::FromSpec<&Vmm>>::from_spec(&vmm).smt
            == vmm.machine_config.smt,
        <VmInfo as vstd::std_specs::convert::FromSpec<&Vmm>>::from_spec(&vmm).mem_size_mib
            == vmm.machine_config.mem_size_mib,
        <VmInfo as vstd::std_specs::convert::FromSpec<&Vmm>>::from_spec(&vmm).huge_pages
            == vmm.machine_config.huge_pages,
        <VmInfo as vstd::std_specs::convert::FromSpec<&Vmm>>::from_spec(&vmm).boot_source
            == vmm.boot_source_config,
{
}

} // verus!
