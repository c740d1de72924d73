//! Checks of the state of a microVM before it is restored.

use super::error::SnapShotStateSanityCheckError;
use super::state::{MicrovmState, VcpuState};
use crate::vstate::memory::{GuestMemoryRegionState, GuestRegionType};
use vstd::prelude::*;

verus! {

/// A line of a report on the CPU of the host and that of a snapshot.
#[derive(Debug, PartialEq, Eq)]
pub enum CpuIdNote<T> {
    /// The CPU of the host.
    HostId(T),
    /// The CPU of the host could not be told.
    HostUnavailable,
    /// The CPU of the snapshot.
    SnapshotId(T),
    /// The CPU of the snapshot could not be told.
    SnapshotUnavailable,
    /// The two are not the same.
    Differ,
}

/// How a line of a report is logged.
#[derive(Debug, Clone, Copy, PartialEq, Eq, Structural)]
pub enum NoteLevel {
    /// As information.
    Info,
    /// As a warning.
    Warn,
}

impl<T> CpuIdNote<T> {
    /// How the line is logged: what is known is information, the rest is a warning.
    pub open spec fn spec_level(self) -> NoteLevel {
        match self {
            CpuIdNote::HostId(_) | CpuIdNote::SnapshotId(_) => NoteLevel::Info,
            _ => NoteLevel::Warn,
        }
    }

    /// Returns how the line is logged.
    pub fn level(&self) -> (level: NoteLevel)
        ensures
            level == self.spec_level(),
    {
        match self {
            CpuIdNote::HostId(_) => NoteLevel::Info,
            CpuIdNote::SnapshotId(_) => NoteLevel::Info,
            _ => NoteLevel::Warn,
        }
    }
}

/// The line on the CPU of the host.
pub open spec fn host_note<T>(host: Option<T>) -> CpuIdNote<T> {
    match host {
        Some(id) => CpuIdNote::HostId(id),
        None => CpuIdNote::HostUnavailable,
    }
}

/// Whether the CPU of the host and one of a snapshot are both known and not the same.
pub open spec fn ids_differ<T>(host: Option<T>, id: Option<T>) -> bool {
    host is Some && id is Some && host != id
}

/// The lines on one CPU of a snapshot: what it is, and a second if it is known to differ from that of
/// the host.
pub open spec fn snapshot_notes<T>(host: Option<T>, id: Option<T>) -> Seq<CpuIdNote<T>> {
    let note = match id {
        Some(id) => CpuIdNote::SnapshotId(id),
        None => CpuIdNote::SnapshotUnavailable,
    };
    if ids_differ(host, id) {
        seq![note, CpuIdNote::Differ]
    } else {
        seq![note]
    }
}

/// The report on the CPU of the host and those of a snapshot: the line on the host, and those on each
/// CPU of the snapshot in order.
pub open spec fn cpu_notes<T>(host: Option<T>, ids: Seq<Option<T>>) -> Seq<CpuIdNote<T>>
    decreases ids.len(),
{
    if ids.len() == 0 {
        seq![host_note(host)]
    } else {
        cpu_notes(host, ids.drop_last()) + snapshot_notes(host, ids.last())
    }
}

/// Whether the CPU of the host or one of a snapshot could not be told.
pub open spec fn id_unreadable<T>(host: Option<T>, ids: Seq<Option<T>>) -> bool {
    host is None || exists|k: int| 0 <= k < ids.len() && (#[trigger] ids[k]) is None
}

/// A report in which the CPU of the host or one of the snapshot could not be told.
#[derive(Debug, PartialEq, Eq)]
pub struct CpuIdUnreadable<T> {
    /// The whole report.
    pub notes: Vec<CpuIdNote<T>>,
}

/// The report that a comparison gives, whether or not every CPU could be told.
pub open spec fn notes_of<T>(r: Result<Vec<CpuIdNote<T>>, CpuIdUnreadable<T>>) -> Seq<
    CpuIdNote<T>,
> {
    match r {
        Ok(notes) => notes@,
        Err(unreadable) => unreadable.notes@,
    }
}

/// Whether a line is part of a report.
pub open spec fn has_note<T>(notes: Seq<CpuIdNote<T>>, note: CpuIdNote<T>) -> bool {
    exists|i: int| 0 <= i < notes.len() && #[trigger] notes[i] == note
}

proof fn lemma_has_note_concat<T>(
    a: Seq<CpuIdNote<T>>,
    b: Seq<CpuIdNote<T>>,
    note: CpuIdNote<T>,
)
    ensures
        has_note(a + b, note) <==> has_note(a, note) || has_note(b, note),
{
    let all = a + b;
    if has_note(a, note) {
        let i = choose|i: int| 0 <= i < a.len() && #[trigger] a[i] == note;
        assert(all[i] == note);
    }
    if has_note(b, note) {
        let i = choose|i: int| 0 <= i < b.len() && #[trigger] b[i] == note;
        assert(all[a.len() + i] == note);
    }
    if has_note(all, note) {
        let i = choose|i: int| 0 <= i < all.len() && #[trigger] all[i] == note;
        if i < a.len() {
            assert(a[i] == note);
        } else {
            assert(b[i - a.len()] == note);
        }
    }
}

/// A report warns exactly of what is wrong: of a difference when some CPU of the snapshot is known to
/// differ from that of the host, and of a CPU that could not be told when there is one.
pub proof fn law_report_warns_of_what_is_wrong<T>(host: Option<T>, ids: Seq<Option<T>>)
    ensures
        has_note(cpu_notes(host, ids), CpuIdNote::Differ) <==> exists|k: int|
            0 <= k < ids.len() && ids_differ(host, #[trigger] ids[k]),
        has_note(cpu_notes(host, ids), CpuIdNote::SnapshotUnavailable) <==> exists|k: int|
            0 <= k < ids.len() && (#[trigger] ids[k]) is None,
        has_note(cpu_notes(host, ids), CpuIdNote::HostUnavailable) <==> host is None,
    decreases ids.len(),
{
    if ids.len() == 0 {
        assert(cpu_notes(host, ids)[0] == host_note(host));
    } else {
        let fewer = ids.drop_last();
        let last = ids.len() - 1;
        let own = snapshot_notes(host, ids.last());
        law_report_warns_of_what_is_wrong(host, fewer);
        lemma_has_note_concat(cpu_notes(host, fewer), own, CpuIdNote::Differ);
        lemma_has_note_concat(cpu_notes(host, fewer), own, CpuIdNote::SnapshotUnavailable);
        lemma_has_note_concat(cpu_notes(host, fewer), own, CpuIdNote::HostUnavailable);
        assert(own[own.len() - 1] == own.last() && own[0] == own.first());
        assert(ids[last] == ids.last());
        assert(forall|k: int| 0 <= k < last ==> fewer[k] == #[trigger] ids[k]);
        if exists|k: int| 0 <= k < fewer.len() && ids_differ(host, #[trigger] fewer[k]) {
            let k = choose|k: int| 0 <= k < fewer.len() && ids_differ(host, #[trigger] fewer[k]);
            assert(ids_differ(host, ids[k]));
        }
        if exists|k: int| 0 <= k < ids.len() && ids_differ(host, #[trigger] ids[k]) {
            let k = choose|k: int| 0 <= k < ids.len() && ids_differ(host, #[trigger] ids[k]);
            if k < last {
                assert(ids_differ(host, fewer[k]));
            }
        }
        if exists|k: int| 0 <= k < fewer.len() && (#[trigger] fewer[k]) is None {
            let k = choose|k: int| 0 <= k < fewer.len() && (#[trigger] fewer[k]) is None;
            assert(ids[k] is None);
        }
        if exists|k: int| 0 <= k < ids.len() && (#[trigger] ids[k]) is None {
            let k = choose|k: int| 0 <= k < ids.len() && (#[trigger] ids[k]) is None;
            if k < last {
                assert(fewer[k] is None);
            }
        }
    }
}

/// Starts a report with the line on the CPU of the host.
fn report_host<T: Copy>(host: Option<T>) -> (notes: Vec<CpuIdNote<T>>)
    ensures
        notes@ == cpu_notes(host, Seq::empty()),
{
    let mut notes: Vec<CpuIdNote<T>> = Vec::new();
    match host {
        Some(id) => notes.push(CpuIdNote::HostId(id)),
        None => notes.push(CpuIdNote::HostUnavailable),
    }
    assert(notes@ =~= seq![host_note(host)]);
    notes
}

/// Adds the lines on one CPU of the snapshot, given whether it is the same as that of the host if both
/// are known.
fn report_snapshot<T: Copy>(
    notes: &mut Vec<CpuIdNote<T>>,
    host: Option<T>,
    id: Option<T>,
    same: bool,
)
    requires
        host is Some && id is Some ==> same == (host == id),
    ensures
        final(notes)@ == old(notes)@ + snapshot_notes(host, id),
{
    let ghost before = notes@;
    match id {
        Some(id) => notes.push(CpuIdNote::SnapshotId(id)),
        None => notes.push(CpuIdNote::SnapshotUnavailable),
    }
    if host.is_some() && id.is_some() && !same {
        notes.push(CpuIdNote::Differ);
    }
    assert(notes@ =~= before + snapshot_notes(host, id));
}

/// Whether two vendor names are the same.
fn same_vendor(a: &[u8; 12], b: &[u8; 12]) -> (same: bool)
    ensures
        same == (*a == *b),
{
    let mut at: usize = 0;
    while at < 12
        invariant
            at <= 12,
            forall|i: int| 0 <= i < at ==> a@[i] == b@[i],
        decreases 12 - at,
    {
        if a[at] != b[at] {
            return false;
        }
        at = at + 1;
    }
    assert(a@ =~= b@);
    assert(*a =~= *b);
    true
}

/// The vendor of a snapshot: that of its first vCPU.
pub open spec fn vendor_ids(state: MicrovmState) -> Seq<Option<[u8; 12]>> {
    seq![state.vcpu_states@[0].vendor_id]
}

/// The manufacturers of a snapshot: that of each vCPU.
pub open spec fn manufacturer_ids(state: MicrovmState) -> Seq<Option<u32>> {
    state.vcpu_states@.map_values(|v: VcpuState| v.manufacturer_id)
}

/// Compares the CPU vendor of a snapshot with that of the host.
///
/// The vendor of the snapshot is that of its first vCPU. A difference is reported, not refused.
///
/// # Errors
///
/// When the vendor of the host or that of the snapshot could not be told; the error holds the report.
pub fn validate_cpu_vendor(microvm_state: &MicrovmState, host_vendor_id: Option<[u8; 12]>) -> (r:
    Result<Vec<CpuIdNote<[u8; 12]>>, CpuIdUnreadable<[u8; 12]>>)
    requires
        microvm_state.vcpu_states@.len() > 0,
    ensures
        notes_of(r) == cpu_notes(host_vendor_id, vendor_ids(*microvm_state)),
        r is Err <==> host_vendor_id is None || microvm_state.vcpu_states@[0].vendor_id is None,
        notes_of(r) == (match (host_vendor_id, microvm_state.vcpu_states@[0].vendor_id) {
            (Some(host), Some(id)) => if host == id {
                seq![CpuIdNote::HostId(host), CpuIdNote::SnapshotId(id)]
            } else {
                seq![CpuIdNote::HostId(host), CpuIdNote::SnapshotId(id), CpuIdNote::Differ]
            },
            (Some(host), None) => seq![CpuIdNote::HostId(host), CpuIdNote::SnapshotUnavailable],
            (None, Some(id)) => seq![CpuIdNote::HostUnavailable, CpuIdNote::SnapshotId(id)],
            (None, None) => seq![CpuIdNote::HostUnavailable, CpuIdNote::SnapshotUnavailable],
        }),
{
    let id = microvm_state.vcpu_states[0].vendor_id;
    let same = match (host_vendor_id, id) {
        (Some(host_id), Some(snapshot_id)) => same_vendor(&host_id, &snapshot_id),
        _ => false,
    };
    let mut notes = report_host(host_vendor_id);
    report_snapshot(&mut notes, host_vendor_id, id, same);
    proof {
        let ids = vendor_ids(*microvm_state);
        assert(ids.drop_last() =~= Seq::empty());
        law_report_starts_with_the_host(host_vendor_id);
        law_report_goes_on_cpu_by_cpu(host_vendor_id, Seq::empty(), id);
        assert(ids =~= Seq::empty().push(id));
    }
    if host_vendor_id.is_none() || id.is_none() {
        return Err(CpuIdUnreadable { notes });
    }
    Ok(notes)
}

/// Compares the CPU manufacturer of a snapshot with that of the host.
///
/// The manufacturer of the snapshot is taken from each of its vCPUs. A difference is reported, not
/// refused.
///
/// # Errors
///
/// When the manufacturer of the host or that of some vCPU could not be told; the error holds the
/// report.
pub fn validate_cpu_manufacturer_id(
    microvm_state: &MicrovmState,
    host_cpu_id: Option<u32>,
) -> (r: Result<Vec<CpuIdNote<u32>>, CpuIdUnreadable<u32>>)
    requires
        microvm_state.vcpu_states@.len() > 0,
    ensures
        notes_of(r) == cpu_notes(host_cpu_id, manufacturer_ids(*microvm_state)),
        r is Err <==> id_unreadable(host_cpu_id, manufacturer_ids(*microvm_state)),
        r is Err <==> host_cpu_id is None || exists|k: int|
            {
                &&& 0 <= k < microvm_state.vcpu_states@.len()
                &&& (#[trigger] microvm_state.vcpu_states@[k]).manufacturer_id is None
            },
        (exists|i: int|
            0 <= i < notes_of(r).len() && #[trigger] notes_of(r)[i] == CpuIdNote::<u32>::Differ) <==> (
        host_cpu_id is Some && exists|k: int|
            {
                &&& 0 <= k < microvm_state.vcpu_states@.len()
                &&& (#[trigger] microvm_state.vcpu_states@[k]).manufacturer_id is Some
                &&& microvm_state.vcpu_states@[k].manufacturer_id != host_cpu_id
            }),
        (exists|i: int|
            0 <= i < notes_of(r).len() && #[trigger] notes_of(r)[i]
                == CpuIdNote::<u32>::SnapshotUnavailable) <==> (exists|k: int|
            {
                &&& 0 <= k < microvm_state.vcpu_states@.len()
                &&& (#[trigger] microvm_state.vcpu_states@[k]).manufacturer_id is None
            }),
{
    let vcpus = &microvm_state.vcpu_states;
    let ghost ids = manufacturer_ids(*microvm_state);
    let mut notes = report_host(host_cpu_id);
    let mut unreadable = host_cpu_id.is_none();
    let mut at: usize = 0;
    assert(ids.take(0) =~= Seq::empty());
    while at < vcpus.len()
        invariant
            at <= vcpus@.len(),
            vcpus@ == microvm_state.vcpu_states@,
            ids == manufacturer_ids(*microvm_state),
            notes@ == cpu_notes(host_cpu_id, ids.take(at as int)),
            unreadable == id_unreadable(host_cpu_id, ids.take(at as int)),
        decreases vcpus@.len() - at,
    {
        let id = vcpus[at].manufacturer_id;
        let same = match (host_cpu_id, id) {
            (Some(host_id), Some(snapshot_id)) => host_id == snapshot_id,
            _ => false,
        };
        report_snapshot(&mut notes, host_cpu_id, id, same);
        if id.is_none() {
            unreadable = true;
        }
        proof {
            let seen = ids.take(at as int);
            let next = ids.take(at + 1);
            assert(next.drop_last() =~= seen);
            assert(next[at as int] == id);
            assert(forall|k: int| 0 <= k < at ==> seen[k] == #[trigger] next[k]);
            if exists|k: int| 0 <= k < seen.len() && (#[trigger] seen[k]) is None {
                let k = choose|k: int| 0 <= k < seen.len() && (#[trigger] seen[k]) is None;
                assert(next[k] is None);
            }
            if exists|k: int| 0 <= k < next.len() && (#[trigger] next[k]) is None {
                let k = choose|k: int| 0 <= k < next.len() && (#[trigger] next[k]) is None;
                if k < at {
                    assert(seen[k] is None);
                }
            }
        }
        at = at + 1;
    }
    proof {
        assert(ids.take(at as int) =~= ids);
        law_report_warns_of_what_is_wrong(host_cpu_id, ids);
        assert(forall|k: int|
            0 <= k < ids.len() ==> #[trigger] ids[k]
                == microvm_state.vcpu_states@[k].manufacturer_id);
        if exists|k: int|
            {
                &&& 0 <= k < microvm_state.vcpu_states@.len()
                &&& (#[trigger] microvm_state.vcpu_states@[k]).manufacturer_id is Some
                &&& microvm_state.vcpu_states@[k].manufacturer_id != host_cpu_id
            } {
            let k = choose|k: int|
                {
                    &&& 0 <= k < microvm_state.vcpu_states@.len()
                    &&& (#[trigger] microvm_state.vcpu_states@[k]).manufacturer_id is Some
                    &&& microvm_state.vcpu_states@[k].manufacturer_id != host_cpu_id
                };
            assert(host_cpu_id is Some ==> ids_differ(host_cpu_id, ids[k]));
        }
        if exists|k: int|
            {
                &&& 0 <= k < microvm_state.vcpu_states@.len()
                &&& (#[trigger] microvm_state.vcpu_states@[k]).manufacturer_id is None
            } {
            let k = choose|k: int|
                {
                    &&& 0 <= k < microvm_state.vcpu_states@.len()
                    &&& (#[trigger] microvm_state.vcpu_states@[k]).manufacturer_id is None
                };
            assert(ids[k] is None);
        }
    }
    if unreadable {
        return Err(CpuIdUnreadable { notes });
    }
    Ok(notes)
}

/// The CPU of the host, as far as it could be told.
#[derive(Debug, Clone, Copy)]
pub enum HostCpu {
    /// An x86_64 CPU, by the vendor that CPUID names.
    X86_64(Option<[u8; 12]>),
    /// An aarch64 CPU, by its manufacturer.
    Aarch64(Option<u32>),
}

/// The report on the CPU of the host and that of a snapshot.
#[derive(Debug)]
pub enum CpuReport {
    /// By vendor.
    Vendor(Vec<CpuIdNote<[u8; 12]>>),
    /// By manufacturer.
    Manufacturer(Vec<CpuIdNote<u32>>),
}

/// Whether the report is the one for this state and this host.
pub open spec fn cpu_reported(state: MicrovmState, host: HostCpu, report: CpuReport) -> bool {
    match (host, report) {
        (HostCpu::X86_64(id), CpuReport::Vendor(notes)) => notes@ == cpu_notes(
            id,
            vendor_ids(state),
        ),
        (HostCpu::Aarch64(id), CpuReport::Manufacturer(notes)) => notes@ == cpu_notes(
            id,
            manufacturer_ids(state),
        ),
        _ => false,
    }
}

/// What is wrong with a region, if anything: main memory has a single slot, and it is plugged.
pub open spec fn region_fault(region: GuestMemoryRegionState) -> Option<
    SnapShotStateSanityCheckError,
> {
    if region.region_type != GuestRegionType::Dram {
        None
    } else if region.plugged@.len() != 1 {
        Some(SnapShotStateSanityCheckError::DramMemoryTooManySlots)
    } else if !region.plugged@[0] {
        Some(SnapShotStateSanityCheckError::DramMemoryUnplugged)
    } else {
        None
    }
}

/// Whether a region at an index is main memory.
pub open spec fn has_dram(regions: Seq<GuestMemoryRegionState>) -> bool {
    exists|i: int|
        0 <= i < regions.len() && (#[trigger] regions[i]).region_type == GuestRegionType::Dram
}

/// Whether the regions of guest memory are sane: there is main memory, and no region is at fault.
pub open spec fn regions_sane(regions: Seq<GuestMemoryRegionState>) -> bool {
    &&& has_dram(regions)
    &&& forall|i: int| 0 <= i < regions.len() ==> region_fault(#[trigger] regions[i]) is None
}

/// Whether the error is what is wrong with the regions of guest memory: that there are none, that
/// none is main memory, or the fault of the first region that is at fault.
pub open spec fn regions_fault(
    regions: Seq<GuestMemoryRegionState>,
    error: SnapShotStateSanityCheckError,
) -> bool {
    if regions.len() == 0 {
        error == SnapShotStateSanityCheckError::NoMemory
    } else if !has_dram(regions) {
        error == SnapShotStateSanityCheckError::NoDramMemory
    } else {
        exists|i: int|
            {
                &&& 0 <= i < regions.len()
                &&& region_fault(#[trigger] regions[i]) == Some(error)
                &&& forall|j: int| 0 <= j < i ==> region_fault(#[trigger] regions[j]) is None
            }
    }
}

/// Checks the regions of guest memory: there is main memory, in regions of a single slot that is
/// plugged.
pub fn check_memory_regions(regions: &Vec<GuestMemoryRegionState>) -> (r: Result<
    (),
    SnapShotStateSanityCheckError,
>)
    ensures
        r is Ok <==> regions_sane(regions@),
        r matches Err(error) ==> regions_fault(regions@, error),
        r is Ok <==> {
            &&& exists|i: int|
                0 <= i < regions@.len() && (#[trigger] regions@[i]).region_type == GuestRegionType::Dram
            &&& forall|i: int|
                0 <= i < regions@.len() && (#[trigger] regions@[i]).region_type == GuestRegionType::Dram
                    ==> regions@[i].plugged@ == seq![true]
        },
{
    proof {
        law_regions_pass_by_type_and_slots(regions@);
    }
    if regions.len() == 0 {
        return Err(SnapShotStateSanityCheckError::NoMemory);
    }
    let mut any_dram = false;
    let mut at: usize = 0;
    while at < regions.len()
        invariant
            at <= regions@.len(),
            any_dram == exists|i: int|
                0 <= i < at && (#[trigger] regions@[i]).region_type == GuestRegionType::Dram,
        decreases regions@.len() - at,
    {
        if regions[at].region_type == GuestRegionType::Dram {
            any_dram = true;
        }
        at = at + 1;
    }
    if !any_dram {
        return Err(SnapShotStateSanityCheckError::NoDramMemory);
    }
    let mut next: usize = 0;
    while next < regions.len()
        invariant
            next <= regions@.len(),
            has_dram(regions@),
            regions@.len() > 0,
            forall|j: int| 0 <= j < next ==> region_fault(#[trigger] regions@[j]) is None,
        decreases regions@.len() - next,
    {
        let region = &regions[next];
        if region.region_type == GuestRegionType::Dram {
            if region.plugged.len() != 1 {
                assert(region_fault(regions@[next as int]) is Some);
                return Err(SnapShotStateSanityCheckError::DramMemoryTooManySlots);
            }
            if !region.plugged[0] {
                assert(region_fault(regions@[next as int]) is Some);
                return Err(SnapShotStateSanityCheckError::DramMemoryUnplugged);
            }
        }
        next = next + 1;
    }
    Ok(())
}

/// Performs sanity checks on the state of a microVM.
///
/// Returns what is wrong with its memory, or the report on its CPU if nothing is. A CPU that could not
/// be told does not keep the state from being restored.
pub fn snapshot_state_sanity_check(microvm_state: &MicrovmState, host_cpu: HostCpu) -> (r: Result<
    CpuReport,
    SnapShotStateSanityCheckError,
>)
    requires
        regions_sane(microvm_state.vm_state.memory.regions@) ==> microvm_state.vcpu_states@.len() > 0,
    ensures
        r is Ok <==> regions_sane(microvm_state.vm_state.memory.regions@),
        r matches Ok(report) ==> cpu_reported(*microvm_state, host_cpu, report),
        r matches Err(error) ==> regions_fault(microvm_state.vm_state.memory.regions@, error),
        r is Ok <==> {
            &&& exists|i: int|
                0 <= i < microvm_state.vm_state.memory.regions@.len() && (#[trigger] microvm_state.vm_state.memory.regions@[i]).region_type == GuestRegionType::Dram
            &&& forall|i: int|
                0 <= i < microvm_state.vm_state.memory.regions@.len() && (#[trigger] microvm_state.vm_state.memory.regions@[i]).region_type == GuestRegionType::Dram
                    ==> microvm_state.vm_state.memory.regions@[i].plugged@ == seq![true]
        },
{
    match check_memory_regions(&microvm_state.vm_state.memory.regions) {
        Ok(()) => {},
        Err(error) => {
            return Err(error);
        },
    }
    match host_cpu {
        HostCpu::X86_64(host_id) => match validate_cpu_vendor(microvm_state, host_id) {
            Ok(notes) => Ok(CpuReport::Vendor(notes)),
            Err(unreadable) => Ok(CpuReport::Vendor(unreadable.notes)),
        },
        HostCpu::Aarch64(host_id) => match validate_cpu_manufacturer_id(microvm_state, host_id) {
            Ok(notes) => Ok(CpuReport::Manufacturer(notes)),
            Err(unreadable) => Ok(CpuReport::Manufacturer(unreadable.notes)),
        },
    }
}

/// The faults of a state are told apart: no two errors fit the same regions, and none fits sane ones.
pub proof fn law_one_fault_at_most(
    regions: Seq<GuestMemoryRegionState>,
    a: SnapShotStateSanityCheckError,
    b: SnapShotStateSanityCheckError,
)
    requires
        regions_fault(regions, a),
    ensures
        regions_fault(regions, b) ==> a == b,
        !regions_sane(regions),
{
    if has_dram(regions) && regions_fault(regions, b) {
        let i = choose|i: int|
            {
                &&& 0 <= i < regions.len()
                &&& region_fault(#[trigger] regions[i]) == Some(a)
                &&& forall|j: int| 0 <= j < i ==> region_fault(#[trigger] regions[j]) is None
            };
        let k = choose|k: int|
            {
                &&& 0 <= k < regions.len()
                &&& region_fault(#[trigger] regions[k]) == Some(b)
                &&& forall|j: int| 0 <= j < k ==> region_fault(#[trigger] regions[j]) is None
            };
        assert(i == k);
    }
}

/// Regions of guest memory pass exactly when some region is main memory and each one that is has a
/// single slot, which is plugged. Addresses, sizes and the slots of other regions do not matter.
pub proof fn law_regions_pass_by_type_and_slots(regions: Seq<GuestMemoryRegionState>)
    ensures
        regions_sane(regions) <==> {
            &&& exists|i: int|
                0 <= i < regions.len() && (#[trigger] regions[i]).region_type
                    == GuestRegionType::Dram
            &&& forall|i: int|
                0 <= i < regions.len() && (#[trigger] regions[i]).region_type
                    == GuestRegionType::Dram ==> regions[i].plugged@ == seq![true]
        },
{
    if regions_sane(regions) {
        assert forall|i: int|
            0 <= i < regions.len() && (#[trigger] regions[i]).region_type
                == GuestRegionType::Dram implies regions[i].plugged@ == seq![true] by {
            assert(region_fault(regions[i]) is None);
            assert(regions[i].plugged@ =~= seq![true]);
        }
    }
    if forall|i: int|
        0 <= i < regions.len() && (#[trigger] regions[i]).region_type == GuestRegionType::Dram
            ==> regions[i].plugged@ == seq![true] {
        assert forall|i: int| 0 <= i < regions.len() implies region_fault(
            #[trigger] regions[i],
        ) is None by {
            if regions[i].region_type == GuestRegionType::Dram {
                assert(regions[i].plugged@ == seq![true]);
                assert(regions[i].plugged@.len() == 1 && regions[i].plugged@[0]);
            }
        }
    }
}

/// Two lists of regions that agree in what each region is for, and in the slots of main memory, both
/// pass or both fail.
pub proof fn law_addresses_and_sizes_do_not_matter(
    a: Seq<GuestMemoryRegionState>,
    b: Seq<GuestMemoryRegionState>,
)
    requires
        a.len() == b.len(),
        forall|i: int|
            0 <= i < a.len() ==> (#[trigger] a[i]).region_type == (#[trigger] b[i]).region_type && (
            a[i].region_type == GuestRegionType::Dram ==> a[i].plugged@ == b[i].plugged@),
    ensures
        regions_sane(a) <==> regions_sane(b),
{
    law_regions_pass_by_type_and_slots(a);
    law_regions_pass_by_type_and_slots(b);
    if regions_sane(a) {
        let i = choose|i: int|
            0 <= i < a.len() && (#[trigger] a[i]).region_type == GuestRegionType::Dram;
        assert(b[i].region_type == GuestRegionType::Dram);
        assert forall|k: int|
            0 <= k < b.len() && (#[trigger] b[k]).region_type
                == GuestRegionType::Dram implies b[k].plugged@ == seq![true] by {
            assert(a[k].region_type == GuestRegionType::Dram);
        }
    }
    if regions_sane(b) {
        let i = choose|i: int|
            0 <= i < b.len() && (#[trigger] b[i]).region_type == GuestRegionType::Dram;
        assert(a[i].region_type == GuestRegionType::Dram);
        assert forall|k: int|
            0 <= k < a.len() && (#[trigger] a[k]).region_type
                == GuestRegionType::Dram implies a[k].plugged@ == seq![true] by {
            assert(b[k].region_type == GuestRegionType::Dram);
        }
    }
}

/// What is reported of regions that do not pass: that there are none; that none is main memory; or, of
/// the first region of main memory that is not in order, that it has another number of slots than one,
/// or that its slot is not plugged.
pub proof fn law_region_errors_say_what_is_wrong(
    regions: Seq<GuestMemoryRegionState>,
    error: SnapShotStateSanityCheckError,
)
    requires
        regions_fault(regions, error),
    ensures
        error == SnapShotStateSanityCheckError::NoMemory <==> regions.len() == 0,
        error == SnapShotStateSanityCheckError::NoDramMemory <==> regions.len() > 0 && forall|i: int|
            0 <= i < regions.len() ==> (#[trigger] regions[i]).region_type != GuestRegionType::Dram,
        error == SnapShotStateSanityCheckError::DramMemoryTooManySlots || error
            == SnapShotStateSanityCheckError::DramMemoryUnplugged ==> exists|i: int|
            {
                &&& 0 <= i < regions.len()
                &&& (#[trigger] regions[i]).region_type == GuestRegionType::Dram
                &&& error == SnapShotStateSanityCheckError::DramMemoryTooManySlots
                    <==> regions[i].plugged@.len() != 1
                &&& error == SnapShotStateSanityCheckError::DramMemoryUnplugged
                    <==> regions[i].plugged@ == seq![false]
                &&& forall|j: int|
                    0 <= j < i && (#[trigger] regions[j]).region_type == GuestRegionType::Dram
                        ==> regions[j].plugged@ == seq![true]
            },
{
    if has_dram(regions) {
        let d = choose|d: int|
            0 <= d < regions.len() && (#[trigger] regions[d]).region_type == GuestRegionType::Dram;
        let i = choose|i: int|
            {
                &&& 0 <= i < regions.len()
                &&& region_fault(#[trigger] regions[i]) == Some(error)
                &&& forall|j: int| 0 <= j < i ==> region_fault(#[trigger] regions[j]) is None
            };
        let slots = regions[i].plugged@;
        assert(regions[d].region_type == GuestRegionType::Dram);
        assert(slots.len() == 1 && !slots[0] ==> slots =~= seq![false]);
        assert(slots == seq![false] ==> slots.len() == 1 && !slots[0]);
        assert forall|j: int|
            0 <= j < i && (#[trigger] regions[j]).region_type
                == GuestRegionType::Dram implies regions[j].plugged@ == seq![true] by {
            assert(region_fault(regions[j]) is None);
            assert(regions[j].plugged@ =~= seq![true]);
        }
    }
}

/// A report starts with the CPU of the host, or says that it could not be told.
pub proof fn law_report_starts_with_the_host<T>(host: Option<T>)
    ensures
        cpu_notes(host, Seq::empty()) == (match host {
            Some(id) => seq![CpuIdNote::HostId(id)],
            None => seq![CpuIdNote::HostUnavailable],
        }),
{
}

/// A report goes on with each CPU of the snapshot in turn: what it is, and that it differs where it and
/// that of the host are known and not the same; or that it could not be told.
pub proof fn law_report_goes_on_cpu_by_cpu<T>(host: Option<T>, ids: Seq<Option<T>>, id: Option<T>)
    ensures
        cpu_notes(host, ids.push(id)) == cpu_notes(host, ids) + (match (host, id) {
            (Some(host), Some(id)) => if host == id {
                seq![CpuIdNote::SnapshotId(id)]
            } else {
                seq![CpuIdNote::SnapshotId(id), CpuIdNote::Differ]
            },
            (None, Some(id)) => seq![CpuIdNote::SnapshotId(id)],
            (_, None) => seq![CpuIdNote::SnapshotUnavailable],
        }),
{
    assert(ids.push(id).drop_last() =~= ids);
}

/// The CPUs of a snapshot that a report is on are the first one by its vendor, or each one by its
/// manufacturer; by vendor on an x86_64 host and by manufacturer on an aarch64 host.
pub proof fn law_report_is_on_the_vcpus(state: MicrovmState, host: HostCpu, report: CpuReport)
    requires
        cpu_reported(state, host, report),
    ensures
        host matches HostCpu::X86_64(id) ==> (report matches CpuReport::Vendor(notes) && notes@
            == cpu_notes(id, seq![state.vcpu_states@[0].vendor_id])),
        host matches HostCpu::Aarch64(id) ==> (report matches CpuReport::Manufacturer(notes)
            && exists|ids: Seq<Option<u32>>|
            {
                &&& notes@ == #[trigger] cpu_notes(id, ids)
                &&& ids.len() == state.vcpu_states@.len()
                &&& forall|k: int|
                    0 <= k < ids.len() ==> #[trigger] ids[k] == state.vcpu_states@[k].manufacturer_id
            }),
{
    if let HostCpu::Aarch64(id) = host {
        let ids = manufacturer_ids(state);
        assert(cpu_notes(id, ids) == cpu_notes(id, ids));
    }
}

/// The vendor of a snapshot is that of its first vCPU, and its manufacturers are those of its vCPUs, one
/// for one.
pub proof fn law_ids_are_those_of_the_vcpus(state: MicrovmState)
    ensures
        vendor_ids(state).len() == 1,
        vendor_ids(state)[0] == state.vcpu_states@[0].vendor_id,
        manufacturer_ids(state).len() == state.vcpu_states@.len(),
        forall|k: int|
            0 <= k < state.vcpu_states@.len() ==> #[trigger] manufacturer_ids(state)[k]
                == state.vcpu_states@[k].manufacturer_id,
{
}

/// What is known of a CPU is logged as information; that it is not known, or differs, as a warning.
pub proof fn law_notes_are_logged_by_what_they_say<T>(note: CpuIdNote<T>)
    ensures
        note is HostId || note is SnapshotId ==> note.spec_level() == NoteLevel::Info,
        note is HostUnavailable || note is SnapshotUnavailable || note is Differ ==> note.spec_level()
            == NoteLevel::Warn,
{
}

} // verus!
