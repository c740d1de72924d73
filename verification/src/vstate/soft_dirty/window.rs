//! What the soft-dirty ledger is for: that no written page is ever missing from a delta.
//!
//! The laws of this file follow the pages of a guest through its snapshots. A snapshot uses the
//! ledger as [`super::accounting::SoftDirtyAccounting`] prescribes: an incremental one arms before it
//! writes, acknowledges what was written durably, and disarms what was not; a full one starts a
//! window once it was written durably.

use super::accounting::{self, AccountingCall, AccountingMode, ArmOutcome, Ledger};
use super::error::SoftDirtyError;
use vstd::prelude::*;

verus! {

/// A guest between two of its snapshots.
pub struct Window {
    /// The accounting.
    pub ledger: Ledger,
    /// The pages whose soft-dirty bit is set.
    pub dirty: Set<int>,
    /// The pages whose contents are in no image yet.
    pub unsaved: Set<int>,
}

/// Whether the ledger can be relied on: while a window is open, every page that is in no image is
/// reported as dirty.
pub open spec fn nothing_lost(window: Window) -> bool {
    window.ledger.armed ==> window.unsaved.subset_of(window.dirty)
}

/// A guest that has written a page.
pub open spec fn guest_wrote(window: Window, page: int) -> Window {
    Window {
        ledger: window.ledger,
        dirty: window.dirty.insert(page),
        unsaved: window.unsaved.insert(page),
    }
}

/// The pages that an incremental snapshot writes: the dirty pages of an open window, or else a new
/// baseline, which holds every page that is in no image.
pub open spec fn written_pages(window: Window, armed: ArmOutcome) -> Set<int> {
    if armed == ArmOutcome::AlreadyArmed {
        window.dirty
    } else {
        window.unsaved
    }
}

/// Whether an attempt to arm leads from one point to the other. The bits stay as they are where
/// nothing is to do, and are clear once a window was opened.
pub open spec fn arms(
    before: Window,
    after: Window,
    r: Result<ArmOutcome, SoftDirtyError>,
) -> bool {
    &&& after.unsaved == before.unsaved
    &&& accounting::call_effect(before.ledger, AccountingCall::Arm(r), after.ledger)
    &&& !accounting::awaits_arming(before.ledger) ==> after.dirty == before.dirty
    &&& r == Ok::<ArmOutcome, SoftDirtyError>(ArmOutcome::Armed) ==> after.dirty == Set::<
        int,
    >::empty()
}

/// Whether an acknowledgement leads from one point to the other. The bits are clear once the window
/// was rolled over.
pub open spec fn acknowledges(
    before: Window,
    after: Window,
    r: Result<(), SoftDirtyError>,
) -> bool {
    &&& after.unsaved == before.unsaved
    &&& accounting::call_effect(before.ledger, AccountingCall::Ack(r), after.ledger)
    &&& if before.ledger.mode == AccountingMode::SoftDirty {
        r is Ok ==> after.dirty == Set::<int>::empty()
    } else {
        after.dirty == before.dirty
    }
}

/// Whether an incremental snapshot leads from one point to the other: it arms, writes, and
/// acknowledges what was written durably or disarms what was not. It is over when arming fails.
pub open spec fn incremental_snapshot(before: Window, after: Window, persisted: bool) -> bool {
    exists|during: Window, armed: Result<ArmOutcome, SoftDirtyError>|
        {
            &&& #[trigger] arms(before, during, armed)
            &&& match armed {
                Err(_) => !persisted && after == during,
                Ok(outcome) => if persisted {
                    let written = Window {
                        unsaved: during.unsaved.difference(written_pages(during, outcome)),
                        ..during
                    };
                    exists|acked: Result<(), SoftDirtyError>| acknowledges(written, after, acked)
                } else {
                    after == Window {
                        ledger: accounting::disarmed(during.ledger),
                        ..during
                    }
                },
            }
        }
}

/// Whether the kernel tracks soft-dirty pages: the probe finds so, and the bits can be cleared.
pub open spec fn tracking_available(
    probe_gives: spec_fn(Result<bool, SoftDirtyError>) -> bool,
    write_gives: spec_fn(Result<(), SoftDirtyError>) -> bool,
) -> bool {
    &&& forall|probed: Result<bool, SoftDirtyError>| #[trigger]
        probe_gives(probed) ==> probed == Ok::<bool, SoftDirtyError>(true)
    &&& forall|write: Result<(), SoftDirtyError>| #[trigger] write_gives(write) ==> write is Ok
}

/// Whether a snapshot of all of guest memory leads from one point to the other, for the results that
/// the probe and the clearing write may have.
///
/// Once it was written durably, a window is started, and its bits are clear if it could be set up. A
/// snapshot that was not written durably resets nothing.
pub open spec fn full_snapshot_by(
    before: Window,
    probe_gives: spec_fn(Result<bool, SoftDirtyError>) -> bool,
    write_gives: spec_fn(Result<(), SoftDirtyError>) -> bool,
    after: Window,
    persisted: bool,
    set_up: bool,
) -> bool {
    if persisted {
        &&& after.unsaved == Set::<int>::empty()
        &&& accounting::start_effect(before.ledger, probe_gives, write_gives, after.ledger, set_up)
        &&& set_up ==> after.dirty == Set::<int>::empty()
    } else {
        after == before && !set_up
    }
}

/// Whether a snapshot of all of guest memory leads from one point to the other; `set_up` tells
/// whether a window was set up after it.
pub open spec fn full_snapshot(
    before: Window,
    after: Window,
    persisted: bool,
    set_up: bool,
) -> bool {
    exists|
        probe_gives: spec_fn(Result<bool, SoftDirtyError>) -> bool,
        write_gives: spec_fn(Result<(), SoftDirtyError>) -> bool,
    | #[trigger] full_snapshot_by(before, probe_gives, write_gives, after, persisted, set_up)
}

/// A guest that has written pages, one after the other.
pub open spec fn guest_wrote_all(window: Window, written: Seq<int>) -> Window
    decreases written.len(),
{
    if written.len() == 0 {
        window
    } else {
        guest_wrote(guest_wrote_all(window, written.drop_last()), written.last())
    }
}

/// A guest that starts with no window open has lost nothing.
pub proof fn law_nothing_is_lost_at_first(window: Window)
    requires
        window.ledger == (Ledger { mode: AccountingMode::Unprobed, armed: false }),
    ensures
        nothing_lost(window),
{
}

/// A page that the guest writes is not lost.
pub proof fn law_guest_writes_are_not_lost(window: Window, page: int)
    requires
        nothing_lost(window),
    ensures
        nothing_lost(guest_wrote(window, page)),
{
}

/// No incremental snapshot loses a page, whether it succeeds or fails, and one that was written
/// durably leaves no page out of the images.
pub proof fn law_incremental_snapshot_loses_nothing(before: Window, after: Window, persisted: bool)
    requires
        nothing_lost(before),
        incremental_snapshot(before, after, persisted),
    ensures
        nothing_lost(after),
        persisted ==> after.unsaved == Set::<int>::empty(),
        !persisted ==> after.unsaved == before.unsaved && !after.ledger.armed,
{
    let (during, armed) = choose|during: Window, armed: Result<ArmOutcome, SoftDirtyError>|
        {
            &&& #[trigger] arms(before, during, armed)
            &&& match armed {
                Err(_) => !persisted && after == during,
                Ok(outcome) => if persisted {
                    let written = Window {
                        unsaved: during.unsaved.difference(written_pages(during, outcome)),
                        ..during
                    };
                    exists|acked: Result<(), SoftDirtyError>| acknowledges(written, after, acked)
                } else {
                    after == Window {
                        ledger: accounting::disarmed(during.ledger),
                        ..during
                    }
                },
            }
        };
    if let Ok(outcome) = armed {
        if persisted {
            assert(during.unsaved.difference(written_pages(during, outcome)) =~= Set::<
                int,
            >::empty());
        }
    }
}

/// A snapshot of all of guest memory that was written durably leaves no page out of the images and
/// starts a new window: one is open afterwards, with no page in it, exactly when it could be set up.
/// A window that could not be set up is disarmed. A snapshot that was not written durably changes
/// nothing.
pub proof fn law_full_snapshot_starts_a_window(
    before: Window,
    after: Window,
    persisted: bool,
    set_up: bool,
)
    requires
        nothing_lost(before),
        before.ledger.armed ==> before.ledger.mode == AccountingMode::SoftDirty,
        full_snapshot(before, after, persisted, set_up),
    ensures
        nothing_lost(after),
        persisted ==> after.unsaved == Set::<int>::empty(),
        persisted && set_up ==> after.ledger == (Ledger {
            mode: AccountingMode::SoftDirty,
            armed: true,
        }) && after.dirty == Set::<int>::empty(),
        persisted && !set_up ==> !after.ledger.armed,
        !persisted ==> after == before,
{
    let (probe_gives, write_gives) = choose|
        probe_gives: spec_fn(Result<bool, SoftDirtyError>) -> bool,
        write_gives: spec_fn(Result<(), SoftDirtyError>) -> bool,
    | #[trigger] full_snapshot_by(before, probe_gives, write_gives, after, persisted, set_up);
    assert(full_snapshot_by(before, probe_gives, write_gives, after, persisted, set_up));
}

/// Where the kernel tracks soft-dirty pages, a durable snapshot of all of guest memory does set up a
/// window, whether one was open before or not, unless accounting is disabled.
pub proof fn law_full_snapshot_sets_a_window_up_where_tracking_works(
    before: Window,
    probe_gives: spec_fn(Result<bool, SoftDirtyError>) -> bool,
    write_gives: spec_fn(Result<(), SoftDirtyError>) -> bool,
    after: Window,
    set_up: bool,
)
    requires
        before.ledger.armed ==> before.ledger.mode == AccountingMode::SoftDirty,
        before.ledger.mode != AccountingMode::Disabled,
        tracking_available(probe_gives, write_gives),
        full_snapshot_by(before, probe_gives, write_gives, after, true, set_up),
    ensures
        set_up,
        after.ledger == (Ledger { mode: AccountingMode::SoftDirty, armed: true }),
        after.dirty == Set::<int>::empty(),
{
}

/// An incremental snapshot that follows a snapshot of all of guest memory for which a window was set
/// up writes just the pages that the guest wrote since: none of those before, and no new baseline.
pub proof fn law_delta_after_full_holds_just_the_later_writes(
    before: Window,
    full: Window,
    written: Seq<int>,
    during: Window,
    armed: Result<ArmOutcome, SoftDirtyError>,
)
    requires
        nothing_lost(before),
        before.ledger.armed ==> before.ledger.mode == AccountingMode::SoftDirty,
        full_snapshot(before, full, true, true),
        arms(guest_wrote_all(full, written), during, armed),
    ensures
        armed == Ok::<ArmOutcome, SoftDirtyError>(ArmOutcome::AlreadyArmed),
        written_pages(during, ArmOutcome::AlreadyArmed) == written.to_set(),
{
    law_full_snapshot_starts_a_window(before, full, true, true);
    lemma_writes_are_recorded(full, written);
    assert(during.dirty =~= written.to_set());
}

proof fn lemma_writes_are_recorded(window: Window, written: Seq<int>)
    ensures
        guest_wrote_all(window, written).ledger == window.ledger,
        guest_wrote_all(window, written).dirty == window.dirty.union(written.to_set()),
    decreases written.len(),
{
    let after = guest_wrote_all(window, written);
    if written.len() > 0 {
        let fewer = written.drop_last();
        lemma_writes_are_recorded(window, fewer);
        assert forall|page: int| written.contains(page) implies fewer.contains(page) || page
            == written.last() by {
            let i = choose|i: int| 0 <= i < written.len() && written[i] == page;
            if i < fewer.len() {
                assert(fewer[i] == page);
            }
        }
        assert forall|page: int| fewer.contains(page) implies written.contains(page) by {
            let i = choose|i: int| 0 <= i < fewer.len() && fewer[i] == page;
            assert(written[i] == page);
        }
        assert(written[written.len() - 1] == written.last());
    }
    assert(after.dirty =~= window.dirty.union(written.to_set()));
}

} // verus!
