//! Guest memory whose page faults are served by another process.

use super::error::{GuestMemoryFromUffdError, MemoryError, UffdError};
use crate::vmm_config::HugePageConfig;
use crate::vstate::memory::GuestMemoryState;
use vstd::pervasive::unreached;
use vstd::prelude::*;

verus! {

/// A region of guest memory that is mapped into this process.
#[derive(Debug, Clone, Copy, PartialEq, Eq, Structural)]
pub struct MappedRegion {
    /// Host virtual address of the first byte.
    pub host_addr: u64,
    /// Size in bytes.
    pub size: usize,
}

/// Tells another process where to populate the data of a guest memory region.
///
/// The contents of a region of `size` bytes are found in the backend `offset` bytes from its
/// beginning and belong at `base_host_virt_addr`.
#[derive(Debug, Clone, Copy, PartialEq, Eq, Structural)]
pub struct GuestRegionUffdMapping {
    /// Host virtual address where the contents belong.
    pub base_host_virt_addr: u64,
    /// Region size.
    pub size: usize,
    /// Offset of the contents in the backend.
    pub offset: u64,
    /// The page size of the region in bytes.
    pub page_size: usize,
    /// The page size of the region, also in bytes: the name is wrong but part of the interface. Use
    /// `page_size` instead.
    pub page_size_kib: usize,
}

/// The bytes of the first `n` regions.
pub open spec fn bytes_before(regions: Seq<MappedRegion>, n: int) -> int
    decreases n,
{
    if n <= 0 {
        0
    } else {
        bytes_before(regions, n - 1) + regions[n - 1].size
    }
}

/// The mapping of a region: in the backend the regions follow one another.
pub open spec fn mapping_of(
    regions: Seq<MappedRegion>,
    huge_pages: HugePageConfig,
    i: int,
) -> GuestRegionUffdMapping {
    GuestRegionUffdMapping {
        base_host_virt_addr: regions[i].host_addr,
        size: regions[i].size,
        offset: bytes_before(regions, i) as u64,
        page_size: huge_pages.spec_page_size(),
        page_size_kib: huge_pages.spec_page_size(),
    }
}

/// The mappings of the regions, in order.
pub open spec fn mappings_of(regions: Seq<MappedRegion>, huge_pages: HugePageConfig) -> Seq<
    GuestRegionUffdMapping,
> {
    Seq::new(regions.len(), |i: int| mapping_of(regions, huge_pages, i))
}

/// Whether the bytes of all regions can be counted.
pub open spec fn regions_countable(regions: Seq<MappedRegion>) -> bool {
    bytes_before(regions, regions.len() as int) <= u64::MAX
}

proof fn lemma_bytes_before_grows(regions: Seq<MappedRegion>, a: int, b: int)
    requires
        0 <= a <= b <= regions.len(),
    ensures
        0 <= bytes_before(regions, a) <= bytes_before(regions, b),
    decreases b,
{
    if a < b {
        lemma_bytes_before_grows(regions, a, b - 1);
    } else if a > 0 {
        lemma_bytes_before_grows(regions, a - 1, a - 1);
    }
}

/// Describes anonymous guest memory, which was mapped or could not be mapped, to the process that
/// populates it.
///
/// Hands the regions back together with their mappings.
pub fn create_guest_memory(
    mapped: Result<Vec<MappedRegion>, MemoryError>,
    huge_pages: HugePageConfig,
) -> (r: Result<(Vec<MappedRegion>, Vec<GuestRegionUffdMapping>), GuestMemoryFromUffdError>)
    requires
        mapped matches Ok(regions) ==> regions_countable(regions@),
    ensures
        match mapped {
            Ok(regions) => r matches Ok(made) && made.0 == regions && made.1@ == mappings_of(
                regions@,
                huge_pages,
            ),
            Err(e) => r == Err::<
                (Vec<MappedRegion>, Vec<GuestRegionUffdMapping>),
                GuestMemoryFromUffdError,
            >(GuestMemoryFromUffdError::Restore(e)),
        },
{
    let guest_memory = match mapped {
        Ok(guest_memory) => guest_memory,
        Err(e) => {
            return Err(GuestMemoryFromUffdError::Restore(e));
        },
    };
    let mut backend_mappings: Vec<GuestRegionUffdMapping> = Vec::new();
    let mut offset: u64 = 0;
    let mut at: usize = 0;
    while at < guest_memory.len()
        invariant
            at <= guest_memory@.len(),
            regions_countable(guest_memory@),
            offset == bytes_before(guest_memory@, at as int),
            backend_mappings@ == mappings_of(guest_memory@, huge_pages).take(at as int),
        decreases guest_memory@.len() - at,
    {
        let region = guest_memory[at];
        proof {
            lemma_bytes_before_grows(guest_memory@, at + 1, guest_memory@.len() as int);
        }
        backend_mappings.push(
            GuestRegionUffdMapping {
                base_host_virt_addr: region.host_addr,
                size: region.size,
                offset,
                page_size: huge_pages.page_size(),
                page_size_kib: huge_pages.page_size(),
            },
        );
        assert(backend_mappings@ =~= mappings_of(guest_memory@, huge_pages).take(at + 1));
        offset = offset + region.size as u64;
        at = at + 1;
    }
    assert(backend_mappings@ =~= mappings_of(guest_memory@, huge_pages));
    Ok((guest_memory, backend_mappings))
}

/// In the backend the mappings follow one another without gap or overlap: the first starts at the
/// beginning, each starts where the one before it ends, and the last ends after the bytes of all
/// regions. So each byte of the backend up to there belongs to one mapping.
pub proof fn law_mappings_tile_the_backend(
    regions: Seq<MappedRegion>,
    huge_pages: HugePageConfig,
    i: int,
)
    requires
        regions_countable(regions),
        0 <= i < regions.len(),
    ensures
        mappings_of(regions, huge_pages).len() == regions.len(),
        mappings_of(regions, huge_pages)[0].offset == 0,
        mappings_of(regions, huge_pages)[i].offset + mappings_of(regions, huge_pages)[i].size == if i
            + 1 < regions.len() {
            mappings_of(regions, huge_pages)[i + 1].offset as int
        } else {
            bytes_before(regions, regions.len() as int)
        },
{
    lemma_bytes_before_grows(regions, i, regions.len() as int);
    lemma_bytes_before_grows(regions, i + 1, regions.len() as int);
}

/// Each region is described by its own mapping: where it lies in this process, how large it is and
/// what its page size is.
pub proof fn law_mappings_describe_the_regions(
    regions: Seq<MappedRegion>,
    huge_pages: HugePageConfig,
    i: int,
)
    requires
        0 <= i < regions.len(),
    ensures
        mappings_of(regions, huge_pages)[i].base_host_virt_addr == regions[i].host_addr,
        mappings_of(regions, huge_pages)[i].size == regions[i].size,
        mappings_of(regions, huge_pages)[i].page_size == huge_pages.spec_page_size(),
        mappings_of(regions, huge_pages)[i].page_size_kib == mappings_of(
            regions,
            huge_pages,
        )[i].page_size,
{
}

/// What the caller does next to set up guest memory.
#[derive(Debug)]
pub enum UffdAction {
    /// Map anonymous memory.
    MapAnonymous {
        /// Address and size of each region.
        regions: Vec<(u64, usize)>,
        /// Whether dirty pages are tracked.
        track_dirty_pages: bool,
        /// How the memory is backed by huge pages.
        huge_pages: HugePageConfig,
    },
    /// Create a userfaultfd object that is closed on exec, does not block, takes faults of the
    /// kernel too, and reports removed ranges.
    CreateUffd,
    /// Register a region with the userfaultfd object.
    Register {
        /// Host virtual address of the region.
        host_addr: u64,
        /// Size of the region in bytes.
        len: u64,
    },
    /// Connect to the page fault handler.
    Connect {
        /// Path of its socket.
        path: String,
    },
    /// Send the mappings, as JSON, with the descriptor of the userfaultfd object. The connection
    /// stays open afterwards, so that the handler sees the mappings before it is shut down.
    SendMappings {
        /// The mappings of the regions.
        mappings: Vec<GuestRegionUffdMapping>,
    },
    /// Guest memory is there, or it could not be restored.
    Finished(Result<(), GuestMemoryFromUffdError>),
}

/// What came of the action that was asked for.
#[derive(Debug)]
pub enum UffdEvent {
    /// Where the regions were mapped, or they could not be mapped.
    Mapped(Result<Vec<MappedRegion>, MemoryError>),
    /// The userfaultfd object was created, or could not be created.
    Created(Result<(), UffdError>),
    /// The region was registered, or could not be registered.
    Registered(Result<(), UffdError>),
    /// The page fault handler was reached, or could not be reached.
    Connected(Result<(), std::io::Error>),
    /// The mappings were sent, or could not be sent.
    Sent(Result<(), vmm_sys_util::errno::Error>),
}

#[derive(Debug)]
enum UffdPhase {
    Mapping,
    Creating,
    Registering(usize),
    Connecting,
    Sending,
    Done,
}

/// How far guest memory has come.
pub enum UffdStage {
    /// The regions are being mapped.
    Mapping,
    /// The userfaultfd object is being created.
    Creating,
    /// A region, by its index, is being registered.
    Registering(int),
    /// The page fault handler is being reached.
    Connecting,
    /// The mappings are being sent.
    Sending,
    /// Nothing is left to do.
    Done,
}

/// How far guest memory has come, with what is known of it.
pub struct UffdView {
    /// Path of the socket of the page fault handler.
    pub mem_uds_path: String,
    /// How the memory is backed by huge pages.
    pub huge_pages: HugePageConfig,
    /// The regions, once they were mapped.
    pub regions: Seq<MappedRegion>,
    /// The pending stage.
    pub stage: UffdStage,
}

/// What the caller is asked for.
pub enum UffdNext {
    /// An action.
    Act(UffdAction),
    /// To send these mappings.
    Send(Seq<GuestRegionUffdMapping>),
}

/// Guest memory that is being set up, between two actions of the caller.
#[derive(Debug)]
pub struct UffdJob {
    mem_uds_path: String,
    huge_pages: HugePageConfig,
    regions: Vec<MappedRegion>,
    mappings: Vec<GuestRegionUffdMapping>,
    phase: UffdPhase,
}

impl View for UffdJob {
    type V = UffdView;

    closed spec fn view(&self) -> UffdView {
        UffdView {
            mem_uds_path: self.mem_uds_path,
            huge_pages: self.huge_pages,
            regions: self.regions@,
            stage: match self.phase {
                UffdPhase::Mapping => UffdStage::Mapping,
                UffdPhase::Creating => UffdStage::Creating,
                UffdPhase::Registering(at) => UffdStage::Registering(at as int),
                UffdPhase::Connecting => UffdStage::Connecting,
                UffdPhase::Sending => UffdStage::Sending,
                UffdPhase::Done => UffdStage::Done,
            },
        }
    }
}

/// Whether an event tells what came of the pending action.
pub open spec fn uffd_event_fits(stage: UffdStage, event: UffdEvent) -> bool {
    match event {
        UffdEvent::Mapped(Ok(regions)) => stage is Mapping && regions_countable(regions@),
        UffdEvent::Mapped(Err(_)) => stage is Mapping,
        UffdEvent::Created(_) => stage is Creating,
        UffdEvent::Registered(_) => stage is Registering,
        UffdEvent::Connected(_) => stage is Connecting,
        UffdEvent::Sent(_) => stage is Sending,
    }
}

/// The registration of the regions from an index on, one after the other; the page fault handler is
/// reached when none is left.
pub open spec fn registering(view: UffdView, at: int) -> (UffdView, UffdNext) {
    if at < view.regions.len() {
        (
            UffdView { stage: UffdStage::Registering(at), ..view },
            UffdNext::Act(
                UffdAction::Register {
                    host_addr: view.regions[at].host_addr,
                    len: view.regions[at].size as u64,
                },
            ),
        )
    } else {
        (
            UffdView { stage: UffdStage::Connecting, ..view },
            UffdNext::Act(UffdAction::Connect { path: view.mem_uds_path }),
        )
    }
}

/// The end of setting up guest memory.
pub open spec fn uffd_done(view: UffdView, r: Result<(), GuestMemoryFromUffdError>) -> (
    UffdView,
    UffdNext,
) {
    (
        UffdView { stage: UffdStage::Done, ..view },
        UffdNext::Act(UffdAction::Finished(r)),
    )
}

/// How far guest memory has come after an event, and what is asked for next.
pub open spec fn uffd_next(view: UffdView, event: UffdEvent) -> (UffdView, UffdNext) {
    match event {
        UffdEvent::Mapped(Ok(regions)) => (
            UffdView { regions: regions@, stage: UffdStage::Creating, ..view },
            UffdNext::Act(UffdAction::CreateUffd),
        ),
        UffdEvent::Mapped(Err(e)) => uffd_done(view, Err(GuestMemoryFromUffdError::Restore(e))),
        UffdEvent::Created(Ok(())) => registering(view, 0),
        UffdEvent::Created(Err(e)) => uffd_done(view, Err(GuestMemoryFromUffdError::Create(e))),
        UffdEvent::Registered(Ok(())) => registering(view, view.stage->Registering_0 + 1),
        UffdEvent::Registered(Err(e)) => uffd_done(view, Err(GuestMemoryFromUffdError::Register(e))),
        UffdEvent::Connected(Ok(())) => (
            UffdView { stage: UffdStage::Sending, ..view },
            UffdNext::Send(mappings_of(view.regions, view.huge_pages)),
        ),
        UffdEvent::Connected(Err(e)) => uffd_done(view, Err(GuestMemoryFromUffdError::Connect(e))),
        UffdEvent::Sent(Ok(())) => uffd_done(view, Ok(())),
        UffdEvent::Sent(Err(e)) => uffd_done(view, Err(GuestMemoryFromUffdError::Send(e))),
    }
}

/// Whether an action is what is asked for.
pub open spec fn uffd_asks(next: UffdNext, action: UffdAction) -> bool {
    match next {
        UffdNext::Act(wanted) => action == wanted,
        UffdNext::Send(wanted) => action matches UffdAction::SendMappings { mappings } && mappings@
            == wanted,
    }
}

/// Restores guest memory by having another process serve its page faults.
///
/// The memory is mapped, registered with a userfaultfd object, and described to the process at
/// `mem_uds_path` together with that object.
pub fn guest_memory_from_uffd(
    mem_uds_path: &String,
    mem_state: &GuestMemoryState,
    track_dirty_pages: bool,
    huge_pages: HugePageConfig,
) -> (started: (UffdJob, UffdAction))
    ensures
        started.0@.mem_uds_path == *mem_uds_path,
        started.0@.huge_pages == huge_pages,
        started.0@.stage is Mapping,
        started.1 matches UffdAction::MapAnonymous {
            regions,
            track_dirty_pages: track,
            huge_pages: backing,
        } && regions@ == crate::vstate::memory::region_layout(mem_state.regions@) && track
            == track_dirty_pages && backing == huge_pages,
{
    let job = UffdJob {
        mem_uds_path: mem_uds_path.clone(),
        huge_pages,
        regions: Vec::new(),
        mappings: Vec::new(),
        phase: UffdPhase::Mapping,
    };
    let action = UffdAction::MapAnonymous {
        regions: mem_state.regions(),
        track_dirty_pages,
        huge_pages,
    };
    (job, action)
}

impl UffdJob {
    /// The mappings describe the regions until they are sent, and a region that is being registered
    /// is one of them.
    #[verifier::type_invariant]
    spec fn describes_the_regions(self) -> bool {
        match self.phase {
            UffdPhase::Creating | UffdPhase::Connecting => self.mappings@ == mappings_of(
                self.regions@,
                self.huge_pages,
            ),
            UffdPhase::Registering(at) => at < self.regions@.len() && self.mappings@ == mappings_of(
                self.regions@,
                self.huge_pages,
            ),
            _ => true,
        }
    }

    /// Takes what came of the pending action and says what to do next.
    pub fn step(self, event: UffdEvent) -> (next: (UffdJob, UffdAction))
        requires
            uffd_event_fits(self@.stage, event),
        ensures
            next.0@ == uffd_next(self@, event).0,
            uffd_asks(uffd_next(self@, event).1, next.1),
    {
        proof {
            use_type_invariant(&self);
        }
        let UffdJob { mem_uds_path, huge_pages, regions, mappings, phase } = self;
        let error = match event {
            UffdEvent::Mapped(mapped) => match create_guest_memory(mapped, huge_pages) {
                Ok((regions, mappings)) => {
                    let phase = UffdPhase::Creating;
                    let job = UffdJob { mem_uds_path, huge_pages, regions, mappings, phase };
                    return (job, UffdAction::CreateUffd);
                },
                Err(e) => e,
            },
            UffdEvent::Created(Ok(())) => {
                return Self::register(mem_uds_path, huge_pages, regions, mappings, 0);
            },
            UffdEvent::Created(Err(e)) => GuestMemoryFromUffdError::Create(e),
            UffdEvent::Registered(Ok(())) => {
                let count: usize = regions.len();
                let at: usize = match phase {
                    UffdPhase::Registering(at) => at + 1,
                    _ => unreached(),
                };
                assert(at <= count);
                return Self::register(mem_uds_path, huge_pages, regions, mappings, at);
            },
            UffdEvent::Registered(Err(e)) => GuestMemoryFromUffdError::Register(e),
            UffdEvent::Connected(Ok(())) => {
                let job = UffdJob {
                    mem_uds_path,
                    huge_pages,
                    regions,
                    mappings: Vec::new(),
                    phase: UffdPhase::Sending,
                };
                return (job, UffdAction::SendMappings { mappings });
            },
            UffdEvent::Connected(Err(e)) => GuestMemoryFromUffdError::Connect(e),
            UffdEvent::Sent(Ok(())) => {
                let phase = UffdPhase::Done;
                let job = UffdJob { mem_uds_path, huge_pages, regions, mappings, phase };
                return (job, UffdAction::Finished(Ok(())));
            },
            UffdEvent::Sent(Err(e)) => GuestMemoryFromUffdError::Send(e),
        };
        let phase = UffdPhase::Done;
        let job = UffdJob { mem_uds_path, huge_pages, regions, mappings, phase };
        (job, UffdAction::Finished(Err(error)))
    }

    /// Goes on to a region, or to the page fault handler if no region is left.
    fn register(
        mem_uds_path: String,
        huge_pages: HugePageConfig,
        regions: Vec<MappedRegion>,
        mappings: Vec<GuestRegionUffdMapping>,
        at: usize,
    ) -> (next: (UffdJob, UffdAction))
        requires
            mappings@ == mappings_of(regions@, huge_pages),
        ensures
            ({
                let view = UffdView {
                    mem_uds_path,
                    huge_pages,
                    regions: regions@,
                    stage: UffdStage::Creating,
                };
                &&& next.0@ == registering(view, at as int).0
                &&& uffd_asks(registering(view, at as int).1, next.1)
            }),
    {
        if at < regions.len() {
            let region = regions[at];
            let phase = UffdPhase::Registering(at);
            let job = UffdJob { mem_uds_path, huge_pages, regions, mappings, phase };
            (job, UffdAction::Register { host_addr: region.host_addr, len: region.size as u64 })
        } else {
            let path = mem_uds_path.clone();
            let phase = UffdPhase::Connecting;
            let job = UffdJob { mem_uds_path, huge_pages, regions, mappings, phase };
            (job, UffdAction::Connect { path })
        }
    }
}

/// Whether each event of a run tells what came of the action that was pending when it came.
pub open spec fn uffd_runs(start: UffdView, events: Seq<UffdEvent>) -> bool
    decreases events.len(),
{
    events.len() == 0 || {
        &&& uffd_runs(start, events.drop_last())
        &&& uffd_event_fits(uffd_after(start, events.drop_last()).stage, events.last())
    }
}

/// How far guest memory has come after the events of a run.
pub open spec fn uffd_after(start: UffdView, events: Seq<UffdEvent>) -> UffdView
    decreases events.len(),
{
    if events.len() == 0 {
        start
    } else {
        uffd_next(uffd_after(start, events.drop_last()), events.last()).0
    }
}

/// Whether an event is a failure.
pub open spec fn uffd_failed(event: UffdEvent) -> bool {
    match event {
        UffdEvent::Mapped(r) => r is Err,
        UffdEvent::Created(r) => r is Err,
        UffdEvent::Registered(r) => r is Err,
        UffdEvent::Connected(r) => r is Err,
        UffdEvent::Sent(r) => r is Err,
    }
}

spec fn uffd_invariant(start: UffdView, view: UffdView, events: Seq<UffdEvent>) -> bool {
    &&& view.mem_uds_path == start.mem_uds_path
    &&& view.huge_pages == start.huge_pages
    &&& events.len() > 0 ==> (events[0] matches UffdEvent::Mapped(Ok(regions)) ==> regions@
        == view.regions)
    &&& events.len() > 0 ==> events[0] is Mapped
    &&& !(view.stage is Done) ==> forall|i: int|
        0 <= i < events.len() ==> !uffd_failed(#[trigger] events[i])
    &&& match view.stage {
        UffdStage::Mapping => events.len() == 0,
        UffdStage::Creating => events.len() == 1,
        UffdStage::Registering(at) => 0 <= at < view.regions.len() && events.len() == 2 + at,
        UffdStage::Connecting => events.len() == 2 + view.regions.len(),
        UffdStage::Sending => events.len() == 3 + view.regions.len(),
        UffdStage::Done => events.len() > 0 && (!uffd_failed(events.last()) ==> events.len() == 4
            + view.regions.len() && forall|i: int|
            0 <= i < events.len() ==> !uffd_failed(#[trigger] events[i])),
    }
}

proof fn lemma_uffd_invariant(start: UffdView, events: Seq<UffdEvent>)
    requires
        start.stage is Mapping,
        uffd_runs(start, events),
    ensures
        uffd_invariant(start, uffd_after(start, events), events),
    decreases events.len(),
{
    if events.len() > 0 {
        let earlier = events.drop_last();
        lemma_uffd_invariant(start, earlier);
        let before = uffd_after(start, earlier);
        let after = uffd_after(start, events);
        assert(earlier.len() > 0 ==> earlier[0] == events[0]);
        if !uffd_failed(events.last()) {
            assert forall|i: int| 0 <= i < events.len() implies !uffd_failed(
                #[trigger] events[i],
            ) by {
                if i < earlier.len() {
                    assert(!uffd_failed(earlier[i]));
                }
            }
        }
    }
}

/// The page fault handler is reached only when every region was registered, each once and in order,
/// and guest memory is reported as restored only when the mappings were sent after that.
pub proof fn law_every_region_is_registered_before_the_handshake(
    start: UffdView,
    events: Seq<UffdEvent>,
)
    requires
        start.stage is Mapping,
        uffd_runs(start, events),
    ensures
        uffd_after(start, events).stage matches UffdStage::Registering(at) ==> events.len() == 2 + at
            && 0 <= at < uffd_after(start, events).regions.len(),
        uffd_after(start, events).stage is Connecting ==> events.len() == 2 + uffd_after(
            start,
            events,
        ).regions.len(),
        uffd_after(start, events).stage is Done && !uffd_failed(events.last()) ==> events.len() == 4
            + uffd_after(start, events).regions.len(),
        !(uffd_after(start, events).stage is Done) ==> forall|i: int|
            0 <= i < events.len() ==> !uffd_failed(#[trigger] events[i]),
{
    lemma_uffd_invariant(start, events);
}

/// The handshake describes the memory that was mapped, to the process that was asked for.
pub proof fn law_handshake_describes_the_mapped_memory(
    start: UffdView,
    events: Seq<UffdEvent>,
    connected: UffdEvent,
)
    requires
        start.stage is Mapping,
        uffd_runs(start, events),
        uffd_after(start, events).stage is Connecting,
        connected matches UffdEvent::Connected(Ok(_)),
    ensures
        uffd_after(start, events).mem_uds_path == start.mem_uds_path,
        events[0] matches UffdEvent::Mapped(Ok(regions)) && uffd_next(
            uffd_after(start, events),
            connected,
        ).1 == UffdNext::Send(mappings_of(regions@, start.huge_pages)),
{
    lemma_uffd_invariant(start, events);
    assert(!uffd_failed(events[0]));
}

/// The regions start one after another in the backend: none before the first, and each behind all before
/// it, by their sizes.
pub proof fn law_bytes_are_counted_region_by_region(regions: Seq<MappedRegion>, n: int)
    requires
        0 <= n <= regions.len(),
    ensures
        n == 0 ==> bytes_before(regions, n) == 0,
        n < regions.len() ==> bytes_before(regions, n + 1) - bytes_before(regions, n)
            == regions[n].size,
{
}

/// The page size that the mappings tell is that of the memory: 4 KiB, or 2 MiB for hugetlbfs.
pub proof fn law_mappings_tell_the_page_size(
    regions: Seq<MappedRegion>,
    huge_pages: HugePageConfig,
    i: int,
)
    requires
        0 <= i < regions.len(),
    ensures
        huge_pages == HugePageConfig::NoHugePages ==> mappings_of(regions, huge_pages)[i].page_size
            == 4096 && mappings_of(regions, huge_pages)[i].page_size_kib == 4096,
        huge_pages == HugePageConfig::Hugetlbfs2M ==> mappings_of(regions, huge_pages)[i].page_size
            == 0x20_0000 && mappings_of(regions, huge_pages)[i].page_size_kib == 0x20_0000,
{
}

/// What is done for guest memory that another process populates, after each success: once it was mapped
/// a userfaultfd object is created, each region is registered by its own address and size, the page
/// fault handler is reached at the path that was asked for, and the mappings are sent to it.
pub proof fn law_uffd_memory_is_set_up_step_by_step(view: UffdView, event: UffdEvent)
    requires
        uffd_event_fits(view.stage, event),
    ensures
        ({
            let (after, next) = uffd_next(view, event);
            let goes_on = |at: int|
                if at < view.regions.len() {
                    &&& after.stage == UffdStage::Registering(at)
                    &&& next matches UffdNext::Act(UffdAction::Register { host_addr, len })
                    &&& host_addr == view.regions[at].host_addr
                    &&& len == view.regions[at].size
                } else {
                    &&& after.stage is Connecting
                    &&& next == UffdNext::Act(UffdAction::Connect { path: view.mem_uds_path })
                };
            &&& match event {
                UffdEvent::Mapped(Ok(regions)) => {
                    &&& next == UffdNext::Act(UffdAction::CreateUffd)
                    &&& after.regions == regions@
                    &&& after.stage is Creating
                },
                UffdEvent::Created(Ok(_)) => goes_on(0),
                UffdEvent::Registered(Ok(_)) => view.stage matches UffdStage::Registering(at)
                    && goes_on(at + 1),
                UffdEvent::Connected(Ok(_)) => next is Send && after.stage is Sending,
                UffdEvent::Sent(Ok(_)) => next == UffdNext::Act(UffdAction::Finished(Ok(())))
                    && after.stage is Done,
                _ => true,
            }
            &&& after.mem_uds_path == view.mem_uds_path
            &&& after.huge_pages == view.huge_pages
            &&& !(event is Mapped) ==> after.regions == view.regions
        }),
{
}

/// The first failure ends the attempt, and the error says which step failed and how.
pub proof fn law_uffd_failures_say_what_failed(view: UffdView, event: UffdEvent)
    requires
        uffd_event_fits(view.stage, event),
    ensures
        ({
            let (after, next) = uffd_next(view, event);
            let ends = |e: GuestMemoryFromUffdError|
                after.stage is Done && next == UffdNext::Act(UffdAction::Finished(Err(e)));
            match event {
                UffdEvent::Mapped(Err(e)) => ends(GuestMemoryFromUffdError::Restore(e)),
                UffdEvent::Created(Err(e)) => ends(GuestMemoryFromUffdError::Create(e)),
                UffdEvent::Registered(Err(e)) => ends(GuestMemoryFromUffdError::Register(e)),
                UffdEvent::Connected(Err(e)) => ends(GuestMemoryFromUffdError::Connect(e)),
                UffdEvent::Sent(Err(e)) => ends(GuestMemoryFromUffdError::Send(e)),
                _ => !(next matches UffdNext::Act(UffdAction::Finished(Err(_)))),
            }
        }),
{
}

/// What is sent is a mapping for each region that was mapped, in order: where it lies, how large it is,
/// and where its contents start in the backend, right behind those of the region before it.
pub proof fn law_what_is_sent_describes_each_region(view: UffdView, event: UffdEvent, action: UffdAction)
    requires
        uffd_event_fits(view.stage, event),
        event matches UffdEvent::Connected(Ok(_)),
        regions_countable(view.regions),
        uffd_asks(uffd_next(view, event).1, action),
    ensures
        action matches UffdAction::SendMappings { mappings } && mappings@.len() == view.regions.len()
            && (forall|i: int|
            0 <= i < view.regions.len() ==> {
                &&& (#[trigger] mappings@[i]).base_host_virt_addr == view.regions[i].host_addr
                &&& mappings@[i].size == view.regions[i].size
                &&& mappings@[i].page_size == mappings@[i].page_size_kib
                &&& i == 0 ==> mappings@[i].offset == 0
            }) && (forall|i: int|
            0 < i < view.regions.len() ==> (#[trigger] mappings@[i]).offset == mappings@[i - 1].offset
                + view.regions[i - 1].size),
{
    let sent = mappings_of(view.regions, view.huge_pages);
    assert forall|i: int| 0 < i < view.regions.len() implies (#[trigger] sent[i]).offset == sent[i
        - 1].offset + view.regions[i - 1].size by {
        law_mappings_tile_the_backend(view.regions, view.huge_pages, i - 1);
    }
    if view.regions.len() > 0 {
        law_mappings_tile_the_backend(view.regions, view.huge_pages, 0);
    }
}

/// What is asked for is what comes next: an action as it is, and the mappings in a message of their own.
pub proof fn law_uffd_action_is_what_comes_next(next: UffdNext, action: UffdAction)
    requires
        uffd_asks(next, action),
    ensures
        next matches UffdNext::Act(wanted) ==> action == wanted,
        next matches UffdNext::Send(wanted) ==> (action matches UffdAction::SendMappings { mappings }
            && mappings@ == wanted),
{
}

/// The events that may come are the answers to what was asked for, and none may come once the result is
/// there.
pub proof fn law_uffd_events_answer_what_was_asked(
    view: UffdView,
    event: UffdEvent,
    action: UffdAction,
    answer: UffdEvent,
)
    requires
        uffd_event_fits(view.stage, event),
        uffd_asks(uffd_next(view, event).1, action),
        answer matches UffdEvent::Mapped(Ok(regions)) ==> regions_countable(regions@),
    ensures
        uffd_event_fits(uffd_next(view, event).0.stage, answer) <==> match action {
            UffdAction::MapAnonymous { .. } => answer is Mapped,
            UffdAction::CreateUffd => answer is Created,
            UffdAction::Register { .. } => answer is Registered,
            UffdAction::Connect { .. } => answer is Connected,
            UffdAction::SendMappings { .. } => answer is Sent,
            UffdAction::Finished(_) => false,
        },
{
}

} // verus!
