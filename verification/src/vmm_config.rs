//! The configuration of a microVM, as far as snapshots depend on it.

use vstd::prelude::*;

verus! {

/// CPU templates that come with the VMM.
#[derive(Debug, Clone, Copy, PartialEq, Eq, Structural)]
pub enum StaticCpuTemplate {
    /// Template to mask Intel CPUs to C3.
    C3,
    /// Template to mask Intel CPUs to T2.
    T2,
    /// Template that makes a range of Intel CPUs look alike.
    T2S,
    /// Template to mask Intel Cascade Lake CPUs to T2.
    T2CL,
    /// Template to mask AMD CPUs to T2.
    T2A,
    /// Template to mask Neoverse V1 CPUs to N1.
    V1N1,
    /// No template.
    NoTemplate,
}

impl Default for StaticCpuTemplate {
    fn default() -> (template: Self)
        ensures
            template == StaticCpuTemplate::NoTemplate,
    {
        StaticCpuTemplate::NoTemplate
    }
}

/// Which CPU template a machine is configured with.
#[derive(Debug, Clone, Copy, PartialEq, Eq, Structural)]
pub enum CpuTemplateType {
    /// A template given by the user.
    Custom,
    /// A template that comes with the VMM.
    Static(StaticCpuTemplate),
}

/// The template that a configured template stands for in a snapshot: a custom template is not
/// recorded.
pub open spec fn static_template(configured: Option<CpuTemplateType>) -> StaticCpuTemplate {
    match configured {
        Some(CpuTemplateType::Static(template)) => template,
        _ => StaticCpuTemplate::NoTemplate,
    }
}

/// Picks the template that a snapshot records for a configured one.
pub fn recorded_template(configured: &Option<CpuTemplateType>) -> (template: StaticCpuTemplate)
    ensures
        template == static_template(*configured),
        *configured == Some(CpuTemplateType::Static(template)) || template
            == StaticCpuTemplate::NoTemplate,
        configured matches Some(CpuTemplateType::Static(own)) ==> template == own,
{
    match configured {
        Some(CpuTemplateType::Static(template)) => *template,
        _ => StaticCpuTemplate::NoTemplate,
    }
}

/// How guest memory is backed by huge pages.
#[derive(Debug, Clone, Copy, PartialEq, Eq, Structural)]
pub enum HugePageConfig {
    /// Ordinary pages.
    NoHugePages,
    /// 2 MiB pages of hugetlbfs.
    Hugetlbfs2M,
}

impl Default for HugePageConfig {
    fn default() -> (config: Self)
        ensures
            config == HugePageConfig::NoHugePages,
    {
        HugePageConfig::NoHugePages
    }
}

impl HugePageConfig {
    /// The page size in bytes.
    pub open spec fn spec_page_size(self) -> usize {
        match self {
            HugePageConfig::NoHugePages => 4096,
            HugePageConfig::Hugetlbfs2M => 2097152,
        }
    }

    /// Returns the page size in bytes.
    pub fn page_size(&self) -> (size: usize)
        ensures
            size == self.spec_page_size(),
            *self == HugePageConfig::NoHugePages ==> size == 4 * 1024,
            *self == HugePageConfig::Hugetlbfs2M ==> size == 2 * 1024 * 1024,
    {
        match self {
            HugePageConfig::NoHugePages => 4096,
            HugePageConfig::Hugetlbfs2M => 2097152,
        }
    }

    /// Whether guest memory lies in hugetlbfs.
    pub fn is_hugetlbfs(&self) -> (r: bool)
        ensures
            r == (*self == HugePageConfig::Hugetlbfs2M),
    {
        match self {
            HugePageConfig::NoHugePages => false,
            HugePageConfig::Hugetlbfs2M => true,
        }
    }
}

/// What a microVM boots.
#[derive(Debug)]
pub struct BootSourceConfig {
    /// Path of the kernel image.
    pub kernel_image_path: String,
    /// Path of the initrd image, if any.
    pub initrd_path: Option<String>,
    /// Arguments of the kernel, if any.
    pub boot_args: Option<String>,
}

/// Copies an optional text.
pub(crate) fn clone_text(text: &Option<String>) -> (copy: Option<String>)
    ensures
        copy == *text,
{
    match text {
        Some(text) => Some(text.clone()),
        None => None,
    }
}

impl Clone for BootSourceConfig {
    fn clone(&self) -> (copy: Self)
        ensures
            copy == *self,
    {
        BootSourceConfig {
            kernel_image_path: self.kernel_image_path.clone(),
            initrd_path: clone_text(&self.initrd_path),
            boot_args: clone_text(&self.boot_args),
        }
    }
}

impl Default for BootSourceConfig {
    fn default() -> (config: Self)
        ensures
            config.kernel_image_path@ == Seq::<char>::empty(),
            config.initrd_path is None,
            config.boot_args is None,
    {
        let kernel_image_path = String::new();
        BootSourceConfig { kernel_image_path, initrd_path: None, boot_args: None }
    }
}

/// The machine configuration of a microVM.
#[derive(Debug, Clone, Copy)]
pub struct MachineConfig {
    /// Number of vCPUs.
    pub vcpu_count: u8,
    /// Guest memory size.
    pub mem_size_mib: usize,
    /// Whether simultaneous multithreading is on.
    pub smt: bool,
    /// The CPU template, if any.
    pub cpu_template: Option<CpuTemplateType>,
    /// Whether dirty pages are tracked.
    pub track_dirty_pages: bool,
    /// How guest memory is backed by huge pages.
    pub huge_pages: HugePageConfig,
}

/// The resources that a microVM is configured with.
#[derive(Debug)]
pub struct VmResources {
    /// The machine configuration.
    pub machine_config: MachineConfig,
    /// What the microVM boots.
    pub boot_source: BootSourceConfig,
}

/// A change of the machine configuration; what is `None` stays as it is.
#[derive(Debug, Clone, Copy, PartialEq, Eq, Structural)]
pub struct MachineConfigUpdate {
    /// Number of vCPUs.
    pub vcpu_count: Option<u8>,
    /// Guest memory size.
    pub mem_size_mib: Option<u64>,
    /// Whether simultaneous multithreading is on.
    pub smt: Option<bool>,
    /// The CPU template.
    pub cpu_template: Option<StaticCpuTemplate>,
    /// Whether dirty pages are tracked.
    pub track_dirty_pages: Option<bool>,
    /// How guest memory is backed by huge pages.
    pub huge_pages: Option<HugePageConfig>,
}

/// Which memory a snapshot writes.
#[derive(Debug, Clone, Copy, PartialEq, Eq, Structural)]
pub enum SnapshotType {
    /// All of guest memory.
    Full,
    /// The pages that the hypervisor logged as dirty.
    Diff,
    /// The pages that were written in the current soft-dirty window.
    SoftDirty,
}

/// A request to create a snapshot.
#[derive(Debug)]
pub struct CreateSnapshotParams {
    /// Which memory to write.
    pub snapshot_type: SnapshotType,
    /// Path of the state file.
    pub snapshot_path: String,
    /// Path of the memory file.
    pub mem_file_path: Option<String>,
    /// Whether only the state is written and memory is left to the caller.
    pub state_only: bool,
    /// Whether the caller takes care of synchronizing the files.
    pub deferred_sync: bool,
    /// Path at which the virtio-fs backend saves its state.
    pub fs_state_path: Option<String>,
}

/// How guest memory is restored.
#[derive(Debug, Clone, Copy, PartialEq, Eq, Structural)]
pub enum MemBackendType {
    /// The memory file is mapped privately.
    File,
    /// The memory file is copied to a live file, which is mapped shared.
    SharedFile,
    /// Page faults are served by another process.
    Uffd,
}

/// Where guest memory is restored from.
#[derive(Debug)]
pub struct MemBackendConfig {
    /// How guest memory is restored.
    pub backend_type: MemBackendType,
    /// Path of the memory file, of the live file or of the socket of the page fault handler.
    pub backend_path: String,
    /// Path of the memory file that the live file is copied from.
    pub source_path: Option<String>,
}

/// A new host device for a network interface.
#[derive(Debug)]
pub struct NetworkOverride {
    /// The interface.
    pub iface_id: String,
    /// The host device that backs it from now on.
    pub host_dev_name: String,
}

/// A new path for the vsock device.
#[derive(Debug)]
pub struct VsockOverride {
    /// The path that backs it from now on.
    pub uds_path: String,
}

/// A new backend for the virtio-fs device.
#[derive(Debug)]
pub struct FsOverride {
    /// The device.
    pub fs_id: String,
    /// The socket of its backend from now on.
    pub socket_path: String,
    /// Path of the state that the backend resumes from.
    pub state_path: String,
}

/// A request to load a snapshot.
#[derive(Debug)]
pub struct LoadSnapshotParams {
    /// Path of the state file.
    pub snapshot_path: String,
    /// Where guest memory is restored from.
    pub mem_backend: MemBackendConfig,
    /// Whether dirty pages are tracked from now on.
    pub track_dirty_pages: bool,
    /// New host devices for network interfaces.
    pub network_overrides: Vec<NetworkOverride>,
    /// A new path for the vsock device.
    pub vsock_override: Option<VsockOverride>,
    /// A new backend for the virtio-fs device.
    pub fs_override: Option<FsOverride>,
    /// Whether the guest clock is set to the time of the host.
    pub clock_realtime: bool,
}

/// A snapshot records a template that comes with the VMM as it is, and no other: neither a custom one
/// nor none is recorded as a template.
pub proof fn law_only_static_templates_are_recorded(template: StaticCpuTemplate)
    ensures
        static_template(Some(CpuTemplateType::Static(template))) == template,
        static_template(Some(CpuTemplateType::Custom)) == StaticCpuTemplate::NoTemplate,
        static_template(None) == StaticCpuTemplate::NoTemplate,
{
}

/// Ordinary pages have 4 KiB, and those of hugetlbfs 2 MiB, 512 times as much.
pub proof fn law_page_sizes()
    ensures
        HugePageConfig::NoHugePages.spec_page_size() == 4 * 1024,
        HugePageConfig::Hugetlbfs2M.spec_page_size() == 512
            * HugePageConfig::NoHugePages.spec_page_size(),
{
}

} // verus!
