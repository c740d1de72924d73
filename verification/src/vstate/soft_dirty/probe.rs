//! The probe that tells whether the running kernel tracks soft-dirty pages.

use super::error::SoftDirtyError;
use vstd::pervasive::unreached;
use vstd::prelude::*;

verus! {

/// The byte that is written into the scratch page.
pub const PROBE_BYTE: u8 = 0x5au8;

/// What the caller of the probe does next.
#[derive(Debug)]
pub enum ProbeAction {
    /// Map a fresh private anonymous page of `len` bytes, readable and writable.
    MapScratch {
        /// Length of the mapping in bytes.
        len: u64,
    },
    /// Clear the soft-dirty bits of the process.
    ClearRefs,
    /// Write [`PROBE_BYTE`] to the given address.
    Touch {
        /// Address of the scratch page.
        addr: u64,
    },
    /// Read the soft-dirty pages of a host memory region.
    ReadPages {
        /// Address of the scratch page.
        host_addr: u64,
        /// Length of the region in bytes.
        length: u64,
    },
    /// Unmap the scratch page.
    Unmap {
        /// Address of the scratch page.
        addr: u64,
        /// Length of the mapping in bytes.
        len: u64,
    },
    /// The probe is over; this is its result.
    Finished(Result<bool, SoftDirtyError>),
}

/// What came of the action that the probe asked for.
#[derive(Debug)]
pub enum ProbeEvent {
    /// The scratch page was mapped at this address, or could not be mapped.
    Mapped(Result<u64, std::io::Error>),
    /// The soft-dirty bits were cleared, or could not be cleared.
    Cleared(Result<(), SoftDirtyError>),
    /// The scratch page was written.
    Touched,
    /// The soft-dirty pages were read, or could not be read.
    PagesRead(Result<Vec<bool>, SoftDirtyError>),
    /// The scratch page was unmapped, or could not be unmapped.
    Unmapped(Result<(), std::io::Error>),
}

/// Which action the probe waits for.
#[derive(Debug)]
pub enum ProbePhase {
    /// The scratch page is being mapped.
    Mapping,
    /// The soft-dirty bits are being cleared.
    Clear,
    /// The scratch page is being written.
    Touch,
    /// The bit of the scratch page is being read.
    Read,
    /// The scratch page is being unmapped; the result is settled unless that fails.
    Unmap(Result<bool, SoftDirtyError>),
    /// Nothing is left to do.
    Done,
}

/// Where a probe stands.
pub struct ProbeView {
    /// Size of a host page.
    pub page_size: u64,
    /// Address of the scratch page.
    pub addr: u64,
    /// The bits read so far, in order.
    pub bits: Seq<bool>,
    /// The pending phase.
    pub phase: ProbePhase,
}

/// The bits of a kernel that tracks soft-dirty pages: clear after the bits were cleared, set after
/// the page was written, and both once more.
pub open spec fn round_trip(bits: Seq<bool>) -> bool {
    bits.len() == 4 && !bits[0] && bits[1] && !bits[2] && bits[3]
}

/// Whether the bits read so far decide the probe.
///
/// A bit that is set right after the first clearing rules the kernel out at once. The first write
/// is judged together with the clearing that follows it; if those went well, one more write ends
/// the round trip.
pub open spec fn settled(bits: Seq<bool>) -> bool {
    ||| bits.len() == 1 && bits[0]
    ||| bits.len() == 3 && (bits[0] || !bits[1] || bits[2])
    ||| bits.len() >= 4
}

/// Whether an event tells what came of the pending action.
pub open spec fn answers(phase: ProbePhase, event: ProbeEvent) -> bool {
    match event {
        ProbeEvent::Mapped(_) => phase is Mapping,
        ProbeEvent::Cleared(_) => phase is Clear,
        ProbeEvent::Touched => phase is Touch,
        ProbeEvent::PagesRead(Ok(pages)) => phase is Read && pages@.len() == 1,
        ProbeEvent::PagesRead(Err(_)) => phase is Read,
        ProbeEvent::Unmapped(_) => phase is Unmap,
    }
}

/// The start of a probe.
pub open spec fn probe_start(page_size: u64) -> ProbeView {
    ProbeView { page_size, addr: 0, bits: Seq::empty(), phase: ProbePhase::Mapping }
}

/// A probe that is settled: the scratch page is given back, whatever the result.
pub open spec fn unmapping(
    view: ProbeView,
    bits: Seq<bool>,
    verdict: Result<bool, SoftDirtyError>,
) -> (ProbeView, ProbeAction) {
    (
        ProbeView { bits, phase: ProbePhase::Unmap(verdict), ..view },
        ProbeAction::Unmap { addr: view.addr, len: view.page_size },
    )
}

/// A probe that looks at the bit of the scratch page.
pub open spec fn reading(view: ProbeView) -> (ProbeView, ProbeAction) {
    (
        ProbeView { phase: ProbePhase::Read, ..view },
        ProbeAction::ReadPages { host_addr: view.addr, length: view.page_size },
    )
}

/// Where a probe stands after an event, and what it asks for next.
pub open spec fn probe_next(view: ProbeView, event: ProbeEvent) -> (ProbeView, ProbeAction) {
    match event {
        ProbeEvent::Mapped(Ok(addr)) => (
            ProbeView { addr, phase: ProbePhase::Clear, ..view },
            ProbeAction::ClearRefs,
        ),
        ProbeEvent::Mapped(Err(source)) => (
            ProbeView { phase: ProbePhase::Done, ..view },
            ProbeAction::Finished(Err(SoftDirtyError::ProbeMmapFailed { source })),
        ),
        ProbeEvent::Cleared(Ok(())) => reading(view),
        ProbeEvent::Cleared(Err(e)) => unmapping(view, view.bits, Err(e)),
        ProbeEvent::Touched => reading(view),
        ProbeEvent::PagesRead(Ok(pages)) => {
            let bits = view.bits.push(pages@[0]);
            if settled(bits) {
                unmapping(view, bits, Ok(round_trip(bits)))
            } else if bits.len() % 2 == 0 {
                (ProbeView { bits, phase: ProbePhase::Clear, ..view }, ProbeAction::ClearRefs)
            } else {
                (
                    ProbeView { bits, phase: ProbePhase::Touch, ..view },
                    ProbeAction::Touch { addr: view.addr },
                )
            }
        },
        ProbeEvent::PagesRead(Err(e)) => unmapping(view, view.bits, Err(e)),
        ProbeEvent::Unmapped(Ok(())) => (
            ProbeView { phase: ProbePhase::Done, ..view },
            ProbeAction::Finished(view.phase->Unmap_0),
        ),
        ProbeEvent::Unmapped(Err(source)) => (
            ProbeView { phase: ProbePhase::Done, ..view },
            ProbeAction::Finished(Err(SoftDirtyError::ProbeMunmapFailed { source })),
        ),
    }
}

/// A probe of the running kernel, between two actions of its caller.
#[derive(Debug)]
pub struct ProbeJob {
    page_size: u64,
    addr: u64,
    bits: Vec<bool>,
    phase: ProbePhase,
}

impl View for ProbeJob {
    type V = ProbeView;

    closed spec fn view(&self) -> ProbeView {
        ProbeView {
            page_size: self.page_size,
            addr: self.addr,
            bits: self.bits@,
            phase: self.phase,
        }
    }
}

/// Probes whether the running kernel actually supports soft-dirty tracking.
///
/// A live round trip on a private scratch page: the bit must be clear after the bits were cleared,
/// set after a write, clear after the bits were cleared again, and set after one more write.
///
/// The round trip is required because a kernel without soft-dirty tracking silently accepts the
/// request to clear the bits and reports them as always clear: to see that the request was accepted
/// would arm a ledger that never records anything.
///
/// The caller performs each action and hands what came of it to [`ProbeJob::step`], until the action
/// is [`ProbeAction::Finished`]. No other request to clear the bits may come between.
pub fn probe_soft_dirty_support(page_size: u64) -> (started: (ProbeJob, ProbeAction))
    ensures
        started.0@ == probe_start(page_size),
        started.1 == (ProbeAction::MapScratch { len: page_size }),
{
    let job = ProbeJob { page_size, addr: 0, bits: Vec::new(), phase: ProbePhase::Mapping };
    assert(job@.bits =~= Seq::empty());
    (job, ProbeAction::MapScratch { len: page_size })
}

impl ProbeJob {
    /// Takes what came of the pending action and says what to do next.
    pub fn step(self, event: ProbeEvent) -> (next: (ProbeJob, ProbeAction))
        requires
            answers(self@.phase, event),
        ensures
            (next.0@, next.1) == probe_next(self@, event),
    {
        match event {
            ProbeEvent::Mapped(Ok(addr)) => {
                let job = ProbeJob { addr, phase: ProbePhase::Clear, ..self };
                (job, ProbeAction::ClearRefs)
            },
            ProbeEvent::Mapped(Err(source)) => {
                let job = ProbeJob { phase: ProbePhase::Done, ..self };
                (job, ProbeAction::Finished(Err(SoftDirtyError::ProbeMmapFailed { source })))
            },
            ProbeEvent::Cleared(Ok(())) => self.read(),
            ProbeEvent::Cleared(Err(e)) => self.unmap(Err(e)),
            ProbeEvent::Touched => self.read(),
            ProbeEvent::PagesRead(Ok(pages)) => self.judge(pages[0]),
            ProbeEvent::PagesRead(Err(e)) => self.unmap(Err(e)),
            ProbeEvent::Unmapped(Ok(())) => {
                let ProbeJob { page_size, addr, bits, phase } = self;
                let verdict = match phase {
                    ProbePhase::Unmap(verdict) => verdict,
                    _ => unreached(),
                };
                let job = ProbeJob { page_size, addr, bits, phase: ProbePhase::Done };
                (job, ProbeAction::Finished(verdict))
            },
            ProbeEvent::Unmapped(Err(source)) => {
                let job = ProbeJob { phase: ProbePhase::Done, ..self };
                (job, ProbeAction::Finished(Err(SoftDirtyError::ProbeMunmapFailed { source })))
            },
        }
    }

    /// Asks for the bit of the scratch page.
    fn read(self) -> (next: (ProbeJob, ProbeAction))
        ensures
            (next.0@, next.1) == reading(self@),
    {
        let action = ProbeAction::ReadPages { host_addr: self.addr, length: self.page_size };
        (ProbeJob { phase: ProbePhase::Read, ..self }, action)
    }

    /// Asks to give the scratch page back, with the result settled.
    fn unmap(self, verdict: Result<bool, SoftDirtyError>) -> (next: (ProbeJob, ProbeAction))
        ensures
            (next.0@, next.1) == unmapping(self@, self@.bits, verdict),
    {
        let action = ProbeAction::Unmap { addr: self.addr, len: self.page_size };
        (ProbeJob { phase: ProbePhase::Unmap(verdict), ..self }, action)
    }

    /// Takes the bit of the scratch page.
    fn judge(self, bit: bool) -> (next: (ProbeJob, ProbeAction))
        ensures
            ({
                let bits = self@.bits.push(bit);
                (next.0@, next.1) == if settled(bits) {
                    unmapping(self@, bits, Ok(round_trip(bits)))
                } else if bits.len() % 2 == 0 {
                    (ProbeView { bits, phase: ProbePhase::Clear, ..self@ }, ProbeAction::ClearRefs)
                } else {
                    (
                        ProbeView { bits, phase: ProbePhase::Touch, ..self@ },
                        ProbeAction::Touch { addr: self@.addr },
                    )
                }
            }),
    {
        let mut bits = self.bits;
        bits.push(bit);
        let job = ProbeJob {
            page_size: self.page_size,
            addr: self.addr,
            bits,
            phase: ProbePhase::Read,
        };
        let so_far: usize = job.bits.len();
        if so_far == 1 && job.bits[0] {
            return job.unmap(Ok(false));
        }
        if so_far == 3 && (job.bits[0] || !job.bits[1] || job.bits[2]) {
            return job.unmap(Ok(false));
        }
        if so_far >= 4 {
            let supported = so_far == 4 && !job.bits[0] && job.bits[1] && !job.bits[2]
                && job.bits[3];
            return job.unmap(Ok(supported));
        }
        if so_far % 2 == 0 {
            (ProbeJob { phase: ProbePhase::Clear, ..job }, ProbeAction::ClearRefs)
        } else {
            let action = ProbeAction::Touch { addr: job.addr };
            (ProbeJob { phase: ProbePhase::Touch, ..job }, action)
        }
    }
}

/// Whether each event of a run answers the action that was pending when it came.
pub open spec fn probe_runs(page_size: u64, events: Seq<ProbeEvent>) -> bool
    decreases events.len(),
{
    events.len() == 0 || {
        &&& probe_runs(page_size, events.drop_last())
        &&& answers(probe_after(page_size, events.drop_last()).0.phase, events.last())
    }
}

/// Where a probe stands after the events of a run, and what it asks for.
pub open spec fn probe_after(page_size: u64, events: Seq<ProbeEvent>) -> (ProbeView, ProbeAction)
    decreases events.len(),
{
    if events.len() == 0 {
        (probe_start(page_size), ProbeAction::MapScratch { len: page_size })
    } else {
        probe_next(probe_after(page_size, events.drop_last()).0, events.last())
    }
}

/// What holds of a probe at every point of a run.
spec fn probe_invariant(view: ProbeView, action: ProbeAction, events: Seq<ProbeEvent>) -> bool {
    &&& view.bits.len() <= 4
    &&& view.phase is Mapping <==> events.len() == 0
    &&& events.len() > 0 && !(view.phase is Done && events.len() == 1) ==> events[0]
        == ProbeEvent::Mapped(Ok(view.addr))
    &&& view.phase is Done && events.len() == 1 ==> (events[0] matches ProbeEvent::Mapped(Err(_)))
    &&& view.phase is Clear ==> !settled(view.bits) && view.bits.len() % 2 == 0
    &&& view.phase is Touch ==> !settled(view.bits) && view.bits.len() % 2 == 1
    &&& view.phase is Read ==> !settled(view.bits)
    &&& view.phase matches ProbePhase::Unmap(verdict) ==> (verdict matches Ok(supported)
        ==> settled(view.bits) && supported == round_trip(view.bits))
    &&& action matches ProbeAction::Unmap { addr, len } ==> view.phase is Unmap && addr == view.addr
        && len == view.page_size
    &&& view.phase is Unmap ==> action is Unmap
    &&& action is Finished <==> view.phase is Done
    &&& action matches ProbeAction::Finished(Ok(supported)) ==> settled(view.bits) && supported
        == round_trip(view.bits)
    &&& view.phase is Done && events.len() > 1 ==> events.last() is Unmapped
    &&& forall|i: int|
        0 <= i < events.len() && (#[trigger] events[i]) is Unmapped ==> i == events.len() - 1
            && view.phase is Done
}

#[verifier::rlimit(40)]
proof fn lemma_probe_invariant(page_size: u64, events: Seq<ProbeEvent>)
    requires
        probe_runs(page_size, events),
    ensures
        probe_invariant(
            probe_after(page_size, events).0,
            probe_after(page_size, events).1,
            events,
        ),
        probe_after(page_size, events).0.page_size == page_size,
    decreases events.len(),
{
    if events.len() > 0 {
        lemma_probe_invariant(page_size, events.drop_last());
        let earlier = events.drop_last();
        assert forall|i: int|
            0 <= i < events.len() && (#[trigger] events[i]) is Unmapped implies i == events.len() - 1
            && probe_after(page_size, events).0.phase is Done by {
            if i < events.len() - 1 {
                assert(earlier[i] is Unmapped);
            }
        }
        assert(earlier.len() > 0 ==> earlier[0] == events[0]);
    }
}

/// A probe answers that the kernel tracks soft-dirty pages exactly when it got to see the whole
/// round trip: clear, set, clear, set. It answers that the kernel does not exactly when the bits
/// that it read rule that out.
pub proof fn law_support_means_the_round_trip_was_seen(page_size: u64, events: Seq<ProbeEvent>)
    requires
        probe_runs(page_size, events),
    ensures
        probe_after(page_size, events).1 matches ProbeAction::Finished(Ok(supported)) ==> settled(
            probe_after(page_size, events).0.bits,
        ) && supported == round_trip(probe_after(page_size, events).0.bits),
{
    lemma_probe_invariant(page_size, events);
}

/// A probe that is over has given its scratch page back: its last event is the unmapping of the page
/// that its first event mapped, unless no page could be mapped. The page is unmapped once, and never
/// before the probe is settled.
pub proof fn law_scratch_page_is_given_back(page_size: u64, events: Seq<ProbeEvent>)
    requires
        probe_runs(page_size, events),
    ensures
        probe_after(page_size, events).1 is Finished ==> {
            ||| events.len() == 1 && (events[0] matches ProbeEvent::Mapped(Err(_)))
            ||| events.len() > 1 && (events[0] matches ProbeEvent::Mapped(Ok(_))) && events.last()
                is Unmapped
        },
        probe_after(page_size, events).1 matches ProbeAction::Unmap { addr, len } ==> events.len() > 0
            && events[0] == ProbeEvent::Mapped(Ok(addr)) && len == page_size,
        forall|i: int|
            0 <= i < events.len() && (#[trigger] events[i]) is Unmapped ==> i == events.len() - 1,
{
    lemma_probe_invariant(page_size, events);
}

/// Whether an event tells that the bit of the scratch page was read and how it was.
pub open spec fn read_as(event: ProbeEvent, bit: bool) -> bool {
    event matches ProbeEvent::PagesRead(Ok(pages)) && pages@.len() == 1 && pages@[0] == bit
}

/// Whether the events of a run are those of a round trip up to a point, each a success: the page is
/// mapped, and then the bits are cleared, the bit is read, the page is written and the bit is read, over
/// and over.
pub open spec fn round_trip_events(events: Seq<ProbeEvent>) -> bool {
    forall|i: int|
        0 <= i < events.len() ==> match #[trigger] events[i] {
            ProbeEvent::Mapped(r) => i == 0 && r is Ok,
            ProbeEvent::Cleared(r) => (i == 1 || i == 5) && r is Ok,
            ProbeEvent::Touched => i == 3 || i == 7,
            ProbeEvent::PagesRead(r) => (i == 2 || i == 4 || i == 6 || i == 8) && r is Ok,
            ProbeEvent::Unmapped(_) => false,
        }
}

/// Whether the bits that a probe has read are those of its events.
spec fn bits_are_read(bits: Seq<bool>, events: Seq<ProbeEvent>) -> bool {
    &&& bits.len() >= 1 ==> events.len() > 2 && read_as(events[2], bits[0])
    &&& bits.len() >= 2 ==> events.len() > 4 && read_as(events[4], bits[1])
    &&& bits.len() >= 3 ==> events.len() > 6 && read_as(events[6], bits[2])
    &&& bits.len() >= 4 ==> events.len() > 8 && read_as(events[8], bits[3])
}

/// Whether an event tells that the bits could not be cleared, or not be read, for this reason.
pub open spec fn probe_step_failed(event: ProbeEvent, error: SoftDirtyError) -> bool {
    ||| event == ProbeEvent::Cleared(Err(error))
    ||| event == ProbeEvent::PagesRead(Err(error))
}

spec fn probe_shape(
    page_size: u64,
    view: ProbeView,
    action: ProbeAction,
    events: Seq<ProbeEvent>,
) -> bool {
    let n = events.len();
    &&& view.bits.len() <= 4
    &&& n > 0 && (events[0] matches ProbeEvent::Mapped(Ok(_))) ==> events[0] == ProbeEvent::Mapped(
        Ok(view.addr),
    )
    &&& view.page_size == page_size
    &&& match view.phase {
        ProbePhase::Mapping => n == 0 && action == ProbeAction::MapScratch { len: page_size }
            && view.bits.len() == 0,
        ProbePhase::Clear => {
            &&& n == 1 + 2 * view.bits.len()
            &&& n == 1 || n == 5
            &&& action is ClearRefs
        },
        ProbePhase::Touch => {
            &&& n == 1 + 2 * view.bits.len()
            &&& n == 3 || n == 7
            &&& action == ProbeAction::Touch { addr: view.addr }
        },
        ProbePhase::Read => {
            &&& n == 2 + 2 * view.bits.len()
            &&& n == 2 || n == 4 || n == 6 || n == 8
            &&& action == ProbeAction::ReadPages { host_addr: view.addr, length: page_size }
        },
        ProbePhase::Unmap(Ok(supported)) => {
            &&& n == 1 + 2 * view.bits.len()
            &&& n == 3 || n == 7 || n == 9
            &&& supported <==> n == 9 && view.bits[3]
            &&& n == 3 ==> view.bits[0]
            &&& n == 7 ==> !view.bits[0] && (!view.bits[1] || view.bits[2])
            &&& n == 9 ==> !view.bits[0] && view.bits[1] && !view.bits[2]
            &&& action == ProbeAction::Unmap { addr: view.addr, len: page_size }
        },
        ProbePhase::Unmap(Err(e)) => {
            &&& n >= 2
            &&& probe_step_failed(events[n - 1], e)
            &&& action == ProbeAction::Unmap { addr: view.addr, len: page_size }
        },
        ProbePhase::Done => action is Finished,
    }
    &&& !(view.phase is Done) && !(view.phase matches ProbePhase::Unmap(Err(_)))
        ==> round_trip_events(events) && bits_are_read(view.bits, events) && (
    !(view.phase is Unmap) ==> (view.bits.len() >= 1 ==> !view.bits[0]) && (view.bits.len() >= 3
        ==> view.bits[1] && !view.bits[2]))
    &&& view.phase matches ProbePhase::Unmap(Err(_)) ==> round_trip_events(events.drop_last())
}

#[verifier::rlimit(60)]
proof fn lemma_probe_shape(page_size: u64, events: Seq<ProbeEvent>)
    requires
        probe_runs(page_size, events),
    ensures
        probe_shape(
            page_size,
            probe_after(page_size, events).0,
            probe_after(page_size, events).1,
            events,
        ),
    decreases events.len(),
{
    if events.len() > 0 {
        let earlier = events.drop_last();
        let last = events.last();
        lemma_probe_shape(page_size, earlier);
        let before = probe_after(page_size, earlier).0;
        let after = probe_after(page_size, events).0;
        assert forall|i: int| 0 <= i < earlier.len() implies earlier[i] == #[trigger] events[i] by {}
        assert(events[events.len() - 1] == last);
        if !(after.phase is Done) && !(after.phase matches ProbePhase::Unmap(Err(_))) {
            assert(round_trip_events(earlier));
            assert(round_trip_events(events));
            assert(bits_are_read(before.bits, events));
        }
    }
}

/// The kernel is found to track soft-dirty pages exactly when the whole round trip was seen on the
/// scratch page: after the bits were cleared its bit was read as clear, after it was written as set,
/// after the bits were cleared again as clear, and after it was written again as set; and the page was
/// unmapped.
pub proof fn law_support_is_the_round_trip(page_size: u64, events: Seq<ProbeEvent>)
    requires
        probe_runs(page_size, events),
    ensures
        probe_after(page_size, events).1 == ProbeAction::Finished(Ok(true)) <==> {
            &&& events.len() == 10
            &&& events[0] matches ProbeEvent::Mapped(Ok(_))
            &&& events[1] matches ProbeEvent::Cleared(Ok(_))
            &&& read_as(events[2], false)
            &&& events[3] is Touched
            &&& read_as(events[4], true)
            &&& events[5] matches ProbeEvent::Cleared(Ok(_))
            &&& read_as(events[6], false)
            &&& events[7] is Touched
            &&& read_as(events[8], true)
            &&& events[9] matches ProbeEvent::Unmapped(Ok(_))
        },
{
    lemma_probe_shape(page_size, events);
    if events.len() > 0 {
        let earlier = events.drop_last();
        lemma_probe_shape(page_size, earlier);
        assert forall|i: int| 0 <= i < earlier.len() implies earlier[i] == #[trigger] events[i] by {}
        assert(events[events.len() - 1] == events.last());
        let before = probe_after(page_size, earlier).0;
        if probe_after(page_size, events).1 == ProbeAction::Finished(Ok(true)) {
            assert(before.phase == ProbePhase::Unmap(Ok(true)));
            assert(round_trip_events(earlier));
            assert(earlier[0] is Mapped && earlier[1] is Cleared && earlier[3] is Touched);
            assert(earlier[5] is Cleared && earlier[7] is Touched);
        }
    }
}

/// The kernel is found not to track soft-dirty pages exactly when the round trip was seen to break: the
/// bit was set right after the first clearing, or not set by the first write, or not cleared again, or
/// not set by the second write; and the page was unmapped.
pub proof fn law_no_support_is_a_broken_round_trip(page_size: u64, events: Seq<ProbeEvent>)
    requires
        probe_runs(page_size, events),
    ensures
        probe_after(page_size, events).1 == ProbeAction::Finished(Ok(false)) <==> {
            &&& events.len() > 0
            &&& events.last() matches ProbeEvent::Unmapped(Ok(_))
            &&& round_trip_events(events.drop_last())
            &&& {
                ||| events.len() == 4 && read_as(events[2], true)
                ||| events.len() == 8 && read_as(events[2], false) && (read_as(events[4], false)
                    || read_as(events[6], true))
                ||| events.len() == 10 && read_as(events[2], false) && read_as(events[4], true)
                    && read_as(events[6], false) && read_as(events[8], false)
            }
        },
{
    lemma_probe_shape(page_size, events);
    if events.len() > 0 {
        let earlier = events.drop_last();
        lemma_probe_shape(page_size, earlier);
        assert forall|i: int| 0 <= i < earlier.len() implies earlier[i] == #[trigger] events[i] by {}
        if earlier.len() > 0 && round_trip_events(earlier) {
            let last = earlier.len() - 1;
            assert(earlier[last] == earlier.last());
        }
    }
}

/// A probe fails only when the page could not be mapped or unmapped, the bits not be cleared, or the bit
/// not be read, and says so.
pub proof fn law_probe_error_says_what_failed(page_size: u64, events: Seq<ProbeEvent>)
    requires
        probe_runs(page_size, events),
    ensures
        probe_after(page_size, events).1 matches ProbeAction::Finished(Err(e)) ==> {
            ||| events.len() == 1 && (events[0] matches ProbeEvent::Mapped(Err(source)) && e
                == SoftDirtyError::ProbeMmapFailed { source })
            ||| (events.last() matches ProbeEvent::Unmapped(Err(source)) && e
                == SoftDirtyError::ProbeMunmapFailed { source })
            ||| (events.last() matches ProbeEvent::Unmapped(Ok(_))) && probe_step_failed(
                events[events.len() - 2],
                e,
            )
        },
        events.len() > 0 && (events.last() matches ProbeEvent::Unmapped(Err(_)))
            ==> (probe_after(page_size, events).1 matches ProbeAction::Finished(Err(_))),
{
    lemma_probe_shape(page_size, events);
    if events.len() > 0 {
        let earlier = events.drop_last();
        lemma_probe_shape(page_size, earlier);
        assert forall|i: int| 0 <= i < earlier.len() implies earlier[i] == #[trigger] events[i] by {}
    }
}

/// The actions of a probe are those of the round trip on one scratch page: it is mapped, then the bits
/// are cleared, its bit is read, it is written and its bit is read, twice, until the probe is settled or
/// something fails; and then it is unmapped.
pub proof fn law_probe_asks_for_the_round_trip(page_size: u64, events: Seq<ProbeEvent>)
    requires
        probe_runs(page_size, events),
    ensures
        match probe_after(page_size, events).1 {
            ProbeAction::MapScratch { len } => events.len() == 0 && len == page_size,
            ProbeAction::ClearRefs => events.len() == 1 || events.len() == 5,
            ProbeAction::Touch { addr } => (events.len() == 3 || events.len() == 7) && events[0]
                == ProbeEvent::Mapped(Ok(addr)),
            ProbeAction::ReadPages { host_addr, length } => {
                &&& events.len() == 2 || events.len() == 4 || events.len() == 6 || events.len() == 8
                &&& events[0] == ProbeEvent::Mapped(Ok(host_addr))
                &&& length == page_size
            },
            ProbeAction::Unmap { addr, len } => events[0] == ProbeEvent::Mapped(Ok(addr)) && len
                == page_size,
            ProbeAction::Finished(_) => (events[0] matches ProbeEvent::Mapped(Err(_)))
                || events.last() is Unmapped,
        },
{
    lemma_probe_shape(page_size, events);
    lemma_probe_invariant(page_size, events);
}

/// In every run the events that may come are the answers to what was asked for, and none may come once
/// the result is there.
pub proof fn law_probe_events_answer_what_was_asked(
    page_size: u64,
    events: Seq<ProbeEvent>,
    event: ProbeEvent,
)
    requires
        probe_runs(page_size, events),
        event matches ProbeEvent::PagesRead(Ok(pages)) ==> pages@.len() == 1,
    ensures
        answers(probe_after(page_size, events).0.phase, event) <==> match probe_after(
            page_size,
            events,
        ).1 {
            ProbeAction::MapScratch { .. } => event is Mapped,
            ProbeAction::ClearRefs => event is Cleared,
            ProbeAction::Touch { .. } => event is Touched,
            ProbeAction::ReadPages { .. } => event is PagesRead,
            ProbeAction::Unmap { .. } => event is Unmapped,
            ProbeAction::Finished(_) => false,
        },
{
    lemma_probe_shape(page_size, events);
}

} // verus!
