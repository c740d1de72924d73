//! What creating a snapshot does to the soft-dirty window.
//!
//! The laws of this file join a run of [`super::create::CreateJob`] with the window of the guest it is
//! run for. Whoever writes all of the memory starts a window once it was written, as
//! [`crate::vstate::soft_dirty::SoftDirtyAccounting::start_window`] does; an incremental snapshot arms
//! the ledger before it writes, and acknowledges or disarms it afterwards.

use super::create::{self, CreateEvent, CreateJob, CreateNext, CreateOutcome};
use crate::vmm_config::SnapshotType;
use crate::vstate::soft_dirty::accounting::{AccountingMode, ArmOutcome, Ledger};
use crate::vstate::soft_dirty::window::{self, Window};
use crate::vstate::soft_dirty::SoftDirtyError;
use vstd::prelude::*;

verus! {

/// Whether a run of creating a snapshot of all of guest memory leads the guest from one point to the
/// other, for the results that the probe and the clearing write may have. Whether memory was written
/// durably is what the run says.
pub open spec fn full_checkpoint(
    start: CreateJob,
    events: Seq<CreateEvent>,
    before: Window,
    probe_gives: spec_fn(Result<bool, SoftDirtyError>) -> bool,
    write_gives: spec_fn(Result<(), SoftDirtyError>) -> bool,
    after: Window,
    set_up: bool,
) -> bool {
    &&& create::create_started(start)
    &&& create::create_runs(start, events)
    &&& start.plan.snapshot_type == SnapshotType::Full
    &&& window::full_snapshot_by(
        before,
        probe_gives,
        write_gives,
        after,
        create::memory_persisted(events),
        set_up,
    )
}

/// Whether a run of creating a snapshot is over and reports it as created.
pub open spec fn reports_created(start: CreateJob, events: Seq<CreateEvent>) -> bool {
    create::create_after(start, events).1 matches CreateNext::Finish(CreateOutcome::Created)
}

/// A snapshot of all of guest memory that is reported as created opens a new window where the kernel
/// tracks soft-dirty pages, whether one was open before or not: the ledger is armed in soft-dirty
/// mode, no page is in the window, and every page is in the image. Accounting that is disabled stays
/// so, and is left out.
pub proof fn law_created_full_snapshot_opens_a_window(
    start: CreateJob,
    events: Seq<CreateEvent>,
    before: Window,
    probe_gives: spec_fn(Result<bool, SoftDirtyError>) -> bool,
    write_gives: spec_fn(Result<(), SoftDirtyError>) -> bool,
    after: Window,
    set_up: bool,
)
    requires
        full_checkpoint(start, events, before, probe_gives, write_gives, after, set_up),
        reports_created(start, events),
        start.plan.mem_file_path is Some,
        before.ledger.armed ==> before.ledger.mode == AccountingMode::SoftDirty,
        before.ledger.mode != AccountingMode::Disabled,
        window::tracking_available(probe_gives, write_gives),
    ensures
        after.ledger == (Ledger { mode: AccountingMode::SoftDirty, armed: true }),
        after.dirty == Set::<int>::empty(),
        after.unsaved == Set::<int>::empty(),
{
    create::law_created_means_memory_was_persisted(start, events);
    window::law_full_snapshot_sets_a_window_up_where_tracking_works(
        before,
        probe_gives,
        write_gives,
        after,
        set_up,
    );
}

/// The incremental snapshot after that writes just the pages that the guest wrote since: none of those
/// before, and no new baseline.
pub proof fn law_delta_after_a_created_full_snapshot(
    start: CreateJob,
    events: Seq<CreateEvent>,
    before: Window,
    probe_gives: spec_fn(Result<bool, SoftDirtyError>) -> bool,
    write_gives: spec_fn(Result<(), SoftDirtyError>) -> bool,
    full: Window,
    set_up: bool,
    written: Seq<int>,
    during: Window,
    armed: Result<ArmOutcome, SoftDirtyError>,
)
    requires
        full_checkpoint(start, events, before, probe_gives, write_gives, full, set_up),
        reports_created(start, events),
        start.plan.mem_file_path is Some,
        window::nothing_lost(before),
        before.ledger.armed ==> before.ledger.mode == AccountingMode::SoftDirty,
        before.ledger.mode != AccountingMode::Disabled,
        window::tracking_available(probe_gives, write_gives),
        window::arms(window::guest_wrote_all(full, written), during, armed),
    ensures
        armed == Ok::<ArmOutcome, SoftDirtyError>(ArmOutcome::AlreadyArmed),
        window::written_pages(during, ArmOutcome::AlreadyArmed) == written.to_set(),
{
    create::law_created_means_memory_was_persisted(start, events);
    window::law_full_snapshot_sets_a_window_up_where_tracking_works(
        before,
        probe_gives,
        write_gives,
        full,
        set_up,
    );
    assert(window::full_snapshot(before, full, true, true));
    window::law_delta_after_full_holds_just_the_later_writes(before, full, written, during, armed);
}

/// A snapshot of all of guest memory for which the state file could not be flushed or synchronized, or
/// memory not be written, is not reported as created and resets nothing. One for which a window could
/// not be set up leaves the ledger disarmed. None loses a page.
pub proof fn law_failed_full_snapshot_resets_nothing(
    start: CreateJob,
    events: Seq<CreateEvent>,
    before: Window,
    probe_gives: spec_fn(Result<bool, SoftDirtyError>) -> bool,
    write_gives: spec_fn(Result<(), SoftDirtyError>) -> bool,
    after: Window,
    set_up: bool,
)
    requires
        full_checkpoint(start, events, before, probe_gives, write_gives, after, set_up),
        window::nothing_lost(before),
        before.ledger.armed ==> before.ledger.mode == AccountingMode::SoftDirty,
    ensures
        create::write_failed(events) ==> !reports_created(start, events) && after == before,
        create::memory_persisted(events) && !set_up ==> !after.ledger.armed,
        window::nothing_lost(after),
{
    create::law_created_means_memory_was_persisted(start, events);
    let persisted = create::memory_persisted(events);
    assert(window::full_snapshot(before, after, persisted, set_up));
    window::law_full_snapshot_starts_a_window(before, after, persisted, set_up);
}

/// Whether a run of creating an incremental snapshot by the soft-dirty window leads the guest from one
/// point to the other. A run that is over before memory is written leaves the window alone.
pub open spec fn incremental_checkpoint(
    start: CreateJob,
    events: Seq<CreateEvent>,
    before: Window,
    after: Window,
) -> bool {
    &&& create::create_started(start)
    &&& create::create_runs(start, events)
    &&& start.plan.snapshot_type == SnapshotType::SoftDirty
    &&& if exists|i: int| 0 <= i < events.len() && (#[trigger] events[i] is MemoryWritten) {
        window::incremental_snapshot(before, after, create::memory_persisted(events))
    } else {
        after == before
    }
}

/// An incremental snapshot that is reported as created leaves no page out of the images, and none
/// loses a page, however it ends.
pub proof fn law_created_incremental_snapshot_is_complete(
    start: CreateJob,
    events: Seq<CreateEvent>,
    before: Window,
    after: Window,
)
    requires
        incremental_checkpoint(start, events, before, after),
        window::nothing_lost(before),
    ensures
        window::nothing_lost(after),
        reports_created(start, events) && start.plan.mem_file_path is Some ==> after.unsaved == Set::<
            int,
        >::empty(),
        !create::memory_persisted(events) ==> after.unsaved == before.unsaved,
{
    create::law_created_means_memory_was_persisted(start, events);
    if exists|i: int| 0 <= i < events.len() && (#[trigger] events[i] is MemoryWritten) {
        window::law_incremental_snapshot_loses_nothing(
            before,
            after,
            create::memory_persisted(events),
        );
    } else if create::memory_persisted(events) {
        let i = choose|i: int|
            0 <= i < events.len() && ((#[trigger] events[i]) matches CreateEvent::MemoryWritten(
                Ok(_),
            ));
        assert(events[i] is MemoryWritten);
    }
}

} // verus!
