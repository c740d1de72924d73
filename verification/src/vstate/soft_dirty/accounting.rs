//! The state machine that decides when the soft-dirty ledger is armed.

use super::error::{ClearRefsFailure, SoftDirtyError};
use super::pages::{self, clear_soft_dirty};
use vstd::prelude::*;

verus! {

/// Which ledger incremental accounting currently uses.
///
/// The mode starts [`AccountingMode::Unprobed`]: probing the kernel costs a clear_refs round-trip
/// over every PTE of the process, so it is deferred to the first snapshot that needs a ledger.
#[derive(Debug, Clone, Copy, PartialEq, Eq, Structural)]
pub enum AccountingMode {
    /// No snapshot has needed a ledger yet; probe on first use.
    Unprobed,
    /// Soft-dirty window ledger (bit 55) is authoritative.
    SoftDirty,
    /// Soft-dirty unsupported on this kernel; fall back to the cumulative pagemap-anon ledger.
    AnonOnly,
    /// No usable ledger; the caller must take Full snapshots.
    Disabled,
}

impl Default for AccountingMode {
    fn default() -> (mode: Self)
        ensures
            mode == AccountingMode::Unprobed,
    {
        AccountingMode::Unprobed
    }
}

/// Outcome of an attempt to arm the ledger.
#[derive(Debug, Clone, Copy, PartialEq, Eq, Structural)]
pub enum ArmOutcome {
    /// Probe succeeded and the ledger was armed.
    Armed,
    /// The ledger was already armed, nothing was done.
    AlreadyArmed,
    /// Soft-dirty is unusable here; accounting degraded to [`AccountingMode::AnonOnly`].
    AnonOnly,
    /// Accounting is [`AccountingMode::Disabled`], which is final: nothing was done, and the caller
    /// must take a Full snapshot.
    Disabled,
}

/// What the accounting of a microVM is: its mode, and whether a window is open.
pub struct Ledger {
    /// The current mode.
    pub mode: AccountingMode,
    /// Whether the soft-dirty ledger is armed (window open).
    pub armed: bool,
}

/// Whether an attempt to arm has anything to do: no window is open, and accounting is not disabled.
pub open spec fn awaits_arming(ledger: Ledger) -> bool {
    !ledger.armed && ledger.mode != AccountingMode::Disabled
}

/// What an attempt to arm comes to: the ledger before and after it, and what it reports, for the
/// results that the probe and the arming write may have.
pub open spec fn arm_effect(
    before: Ledger,
    probe_gives: spec_fn(Result<bool, SoftDirtyError>) -> bool,
    write_gives: spec_fn(Result<(), SoftDirtyError>) -> bool,
    after: Ledger,
    r: Result<ArmOutcome, SoftDirtyError>,
) -> bool {
    if before.armed {
        after == before && r == Ok::<ArmOutcome, SoftDirtyError>(ArmOutcome::AlreadyArmed)
    } else if before.mode == AccountingMode::Disabled {
        after == before && r == Ok::<ArmOutcome, SoftDirtyError>(ArmOutcome::Disabled)
    } else {
        exists|probed: Result<bool, SoftDirtyError>| #[trigger]
            probe_gives(probed) && (if probed == Ok::<bool, SoftDirtyError>(true) {
                arm_write_effect(before, write_gives, after, r)
            } else {
                after == (Ledger { mode: AccountingMode::AnonOnly, armed: false }) && r == Ok::<
                    ArmOutcome,
                    SoftDirtyError,
                >(ArmOutcome::AnonOnly)
            })
    }
}

/// What the arming write comes to once the probe has succeeded: a window is open, or the write's own
/// error is reported and the ledger is untouched.
pub open spec fn arm_write_effect(
    before: Ledger,
    write_gives: spec_fn(Result<(), SoftDirtyError>) -> bool,
    after: Ledger,
    r: Result<ArmOutcome, SoftDirtyError>,
) -> bool {
    exists|write: Result<(), SoftDirtyError>| #[trigger]
        write_gives(write) && match write {
            Ok(()) => after == (Ledger { mode: AccountingMode::SoftDirty, armed: true }) && r == Ok::<
                ArmOutcome,
                SoftDirtyError,
            >(ArmOutcome::Armed),
            Err(e) => after == before && r == Err::<ArmOutcome, SoftDirtyError>(e),
        }
}

/// What an acknowledgement comes to: in soft-dirty mode the window rolls over if the clearing write
/// succeeds and is closed if it fails; in any other mode nothing happens.
pub open spec fn ack_effect(
    before: Ledger,
    write_gives: spec_fn(Result<(), SoftDirtyError>) -> bool,
    after: Ledger,
    r: Result<(), SoftDirtyError>,
) -> bool {
    if before.mode == AccountingMode::SoftDirty {
        &&& write_gives(r)
        &&& after == Ledger { mode: AccountingMode::SoftDirty, armed: r is Ok }
    } else {
        &&& r is Ok
        &&& after == before
    }
}

/// What starting a window after a snapshot of all of guest memory comes to: a ledger in soft-dirty mode
/// is rolled over and any other is armed. It is set up when the acknowledgement succeeded, or when
/// arming opened a window.
pub open spec fn start_effect(
    before: Ledger,
    probe_gives: spec_fn(Result<bool, SoftDirtyError>) -> bool,
    write_gives: spec_fn(Result<(), SoftDirtyError>) -> bool,
    after: Ledger,
    set_up: bool,
) -> bool {
    if before.mode == AccountingMode::SoftDirty {
        exists|acked: Result<(), SoftDirtyError>|
            {
                &&& #[trigger] ack_effect(before, write_gives, after, acked)
                &&& set_up == (acked is Ok)
            }
    } else {
        exists|armed: Result<ArmOutcome, SoftDirtyError>|
            {
                &&& #[trigger] arm_effect(before, probe_gives, write_gives, after, armed)
                &&& set_up == (armed == Ok::<ArmOutcome, SoftDirtyError>(ArmOutcome::Armed))
            }
    }
}

/// The ledger with its window closed.
pub open spec fn disarmed(before: Ledger) -> Ledger {
    Ledger { mode: before.mode, armed: false }
}

/// The ledger after the anon ledger was found unusable.
pub open spec fn demoted(before: Ledger) -> Ledger {
    Ledger {
        mode: if before.mode == AccountingMode::AnonOnly {
            AccountingMode::Disabled
        } else {
            before.mode
        },
        armed: before.armed,
    }
}

/// A call of the accounting, with what it reported.
pub enum AccountingCall {
    /// An attempt to arm.
    Arm(Result<ArmOutcome, SoftDirtyError>),
    /// An acknowledgement.
    Ack(Result<(), SoftDirtyError>),
    /// A window was marked as not persisted.
    Disarm,
    /// The anon ledger was found unusable.
    NoteUnusable,
}

/// Whether a call may lead from one ledger to the other, for some results of the probe and of the
/// writes it makes.
pub open spec fn call_effect(before: Ledger, call: AccountingCall, after: Ledger) -> bool {
    match call {
        AccountingCall::Arm(r) => exists|
            probe_gives: spec_fn(Result<bool, SoftDirtyError>) -> bool,
            write_gives: spec_fn(Result<(), SoftDirtyError>) -> bool,
        | #[trigger] arm_effect(before, probe_gives, write_gives, after, r),
        AccountingCall::Ack(r) => exists|
            write_gives: spec_fn(Result<(), SoftDirtyError>) -> bool,
        | #[trigger] ack_effect(before, write_gives, after, r),
        AccountingCall::Disarm => after == disarmed(before),
        AccountingCall::NoteUnusable => after == demoted(before),
    }
}

/// Whether one call of the accounting may lead from one ledger to the other.
pub open spec fn may_follow(before: Ledger, after: Ledger) -> bool {
    exists|call: AccountingCall| #[trigger] call_effect(before, call, after)
}

/// Starting a window is one call of the accounting: an acknowledgement in soft-dirty mode, and an
/// attempt to arm in any other. So what holds of every call holds of it.
pub proof fn law_starting_a_window_is_a_call(
    before: Ledger,
    probe_gives: spec_fn(Result<bool, SoftDirtyError>) -> bool,
    write_gives: spec_fn(Result<(), SoftDirtyError>) -> bool,
    after: Ledger,
    set_up: bool,
)
    requires
        start_effect(before, probe_gives, write_gives, after, set_up),
    ensures
        may_follow(before, after),
        exists|call: AccountingCall|
            {
                &&& #[trigger] call_effect(before, call, after)
                &&& match call {
                    AccountingCall::Ack(r) => before.mode == AccountingMode::SoftDirty && set_up == (
                    r is Ok),
                    AccountingCall::Arm(r) => before.mode != AccountingMode::SoftDirty && set_up == (r
                        == Ok::<ArmOutcome, SoftDirtyError>(ArmOutcome::Armed)),
                    _ => false,
                }
            },
{
    if before.mode == AccountingMode::SoftDirty {
        let acked = choose|acked: Result<(), SoftDirtyError>|
            {
                &&& #[trigger] ack_effect(before, write_gives, after, acked)
                &&& set_up == (acked is Ok)
            };
        assert(call_effect(before, AccountingCall::Ack(acked), after));
    } else {
        let armed = choose|armed: Result<ArmOutcome, SoftDirtyError>|
            {
                &&& #[trigger] arm_effect(before, probe_gives, write_gives, after, armed)
                &&& set_up == (armed == Ok::<ArmOutcome, SoftDirtyError>(ArmOutcome::Armed))
            };
        assert(call_effect(before, AccountingCall::Arm(armed), after));
    }
}

/// Whether calls may lead from a new accounting through these ledgers, one more than there are calls.
pub open spec fn calls_lead(calls: Seq<AccountingCall>, ledgers: Seq<Ledger>) -> bool {
    &&& ledgers.len() == calls.len() + 1
    &&& ledgers[0] == Ledger { mode: AccountingMode::Unprobed, armed: false }
    &&& forall|i: int|
        0 <= i < calls.len() ==> call_effect(ledgers[i], #[trigger] calls[i], ledgers[i + 1])
}

/// Over any sequence of calls the accounting is unprobed exactly as long as no attempt to arm has
/// reported an outcome.
pub proof fn law_unprobed_until_an_arming_reports(calls: Seq<AccountingCall>, ledgers: Seq<Ledger>)
    requires
        calls_lead(calls, ledgers),
    ensures
        ledgers.last().mode == AccountingMode::Unprobed <==> forall|i: int|
            0 <= i < calls.len() ==> !((#[trigger] calls[i]) matches AccountingCall::Arm(Ok(_))),
        ledgers.last().armed ==> ledgers.last().mode == AccountingMode::SoftDirty,
    decreases calls.len(),
{
    if calls.len() > 0 {
        let fewer = calls.drop_last();
        let earlier = ledgers.drop_last();
        let last = calls.len() - 1;
        assert forall|i: int| 0 <= i < fewer.len() implies call_effect(
            earlier[i],
            #[trigger] fewer[i],
            earlier[i + 1],
        ) by {
            assert(call_effect(ledgers[i], calls[i], ledgers[i + 1]));
        }
        law_unprobed_until_an_arming_reports(fewer, earlier);
        assert(call_effect(ledgers[last], calls[last], ledgers[last + 1]));
        assert(earlier.last() == ledgers[last]);
        assert(forall|i: int| 0 <= i < last ==> fewer[i] == #[trigger] calls[i]);
        if forall|i: int|
            0 <= i < calls.len() ==> !((#[trigger] calls[i]) matches AccountingCall::Arm(Ok(_))) {
            assert forall|i: int| 0 <= i < fewer.len() implies !((
            #[trigger] fewer[i]) matches AccountingCall::Arm(Ok(_))) by {
                assert(fewer[i] == calls[i]);
            }
        }
    }
}

/// A window is open only in soft-dirty mode, and every operation keeps it so.
pub proof fn law_window_needs_soft_dirty(before: Ledger, after: Ledger)
    requires
        before.armed ==> before.mode == AccountingMode::SoftDirty,
        may_follow(before, after),
    ensures
        after.armed ==> after.mode == AccountingMode::SoftDirty,
{
}

/// Demotion is one-way: no operation brings disabled accounting back, whatever a later probe says.
pub proof fn law_disabled_is_final(before: Ledger, after: Ledger)
    requires
        before.mode == AccountingMode::Disabled,
        may_follow(before, after),
    ensures
        after.mode == AccountingMode::Disabled,
{
}

/// An open window is never reset by an attempt to arm: neither the probe nor the arming write is
/// needed, and the ledger stays as it is.
pub proof fn law_arming_keeps_an_open_window(
    before: Ledger,
    probe_gives: spec_fn(Result<bool, SoftDirtyError>) -> bool,
    write_gives: spec_fn(Result<(), SoftDirtyError>) -> bool,
    after: Ledger,
    r: Result<ArmOutcome, SoftDirtyError>,
)
    requires
        before.armed,
        arm_effect(before, probe_gives, write_gives, after, r),
    ensures
        after == before,
        r == Ok::<ArmOutcome, SoftDirtyError>(ArmOutcome::AlreadyArmed),
        !awaits_arming(before),
{
}

/// A window that was marked as not persisted is not trusted: the next attempt to arm probes again,
/// and opens a window only if the soft-dirty bits have been cleared anew.
pub proof fn law_disarmed_window_is_armed_anew(
    before: Ledger,
    probe_gives: spec_fn(Result<bool, SoftDirtyError>) -> bool,
    write_gives: spec_fn(Result<(), SoftDirtyError>) -> bool,
    after: Ledger,
    r: Result<ArmOutcome, SoftDirtyError>,
)
    requires
        before.mode != AccountingMode::Disabled,
        arm_effect(disarmed(before), probe_gives, write_gives, after, r),
    ensures
        awaits_arming(disarmed(before)),
        after.armed ==> probe_gives(Ok(true)) && write_gives(Ok(())) && r == Ok::<
            ArmOutcome,
            SoftDirtyError,
        >(ArmOutcome::Armed),
        r is Err ==> !after.armed && after.mode == before.mode,
{
    if after.armed {
        assert(probe_gives(Ok(true)));
        assert(arm_write_effect(disarmed(before), write_gives, after, r));
        let write = choose|write: Result<(), SoftDirtyError>| #[trigger]
            write_gives(write) && match write {
                Ok(()) => after == (Ledger { mode: AccountingMode::SoftDirty, armed: true }) && r
                    == Ok::<ArmOutcome, SoftDirtyError>(ArmOutcome::Armed),
                Err(e) => after == disarmed(before) && r == Err::<ArmOutcome, SoftDirtyError>(e),
            };
        assert(write is Ok);
        assert(write->Ok_0 == ());
        assert(write_gives(Ok(())));
    }
}

/// What an attempt to arm does and reports, case by case. An open window is left alone, and so is
/// accounting that is disabled. Otherwise the kernel is probed: where it tracks soft-dirty pages and the
/// bits were cleared, a window is open; where clearing them failed, that is reported and nothing has
/// changed; and where it does not track them, or could not be probed, only the anon ledger is left.
pub proof fn law_arming_case_by_case(
    before: Ledger,
    probed: Result<bool, SoftDirtyError>,
    write: Result<(), SoftDirtyError>,
    after: Ledger,
    r: Result<ArmOutcome, SoftDirtyError>,
)
    requires
        arm_effect(
            before,
            |p: Result<bool, SoftDirtyError>| p == probed,
            |w: Result<(), SoftDirtyError>| w == write,
            after,
            r,
        ),
    ensures
        before.armed ==> after == before && r == Ok::<ArmOutcome, SoftDirtyError>(
            ArmOutcome::AlreadyArmed,
        ),
        !before.armed && before.mode == AccountingMode::Disabled ==> after == before && r == Ok::<
            ArmOutcome,
            SoftDirtyError,
        >(ArmOutcome::Disabled),
        !before.armed && before.mode != AccountingMode::Disabled ==> match (probed, write) {
            (Ok(true), Ok(())) => {
                &&& after.mode == AccountingMode::SoftDirty
                &&& after.armed
                &&& r == Ok::<ArmOutcome, SoftDirtyError>(ArmOutcome::Armed)
            },
            (Ok(true), Err(e)) => {
                &&& after.mode == before.mode
                &&& !after.armed
                &&& r == Err::<ArmOutcome, SoftDirtyError>(e)
            },
            _ => {
                &&& after.mode == AccountingMode::AnonOnly
                &&& !after.armed
                &&& r == Ok::<ArmOutcome, SoftDirtyError>(ArmOutcome::AnonOnly)
            },
        },
{
}

/// What an acknowledgement does and reports, case by case. In soft-dirty mode the bits are cleared: the
/// window is open if that succeeded, and closed, with the failure reported, if it did not. In any other
/// mode nothing changes.
pub proof fn law_acknowledging_case_by_case(
    before: Ledger,
    write: Result<(), SoftDirtyError>,
    after: Ledger,
    r: Result<(), SoftDirtyError>,
)
    requires
        ack_effect(before, |w: Result<(), SoftDirtyError>| w == write, after, r),
    ensures
        before.mode == AccountingMode::SoftDirty ==> {
            &&& after.mode == AccountingMode::SoftDirty
            &&& after.armed <==> write is Ok
            &&& r == write
        },
        before.mode != AccountingMode::SoftDirty ==> after == before && r is Ok,
{
}

/// What starting a window does, case by case: it is open afterwards, with the bits cleared, exactly when
/// that was reported, which takes a successful write, and outside of soft-dirty mode a kernel that was
/// found to track soft-dirty pages. Accounting that is disabled stays so.
pub proof fn law_starting_a_window_case_by_case(
    before: Ledger,
    probed: Result<bool, SoftDirtyError>,
    write: Result<(), SoftDirtyError>,
    after: Ledger,
    set_up: bool,
)
    requires
        before.armed ==> before.mode == AccountingMode::SoftDirty,
        start_effect(
            before,
            |p: Result<bool, SoftDirtyError>| p == probed,
            |w: Result<(), SoftDirtyError>| w == write,
            after,
            set_up,
        ),
    ensures
        set_up <==> after.armed,
        set_up <==> write is Ok && (before.mode == AccountingMode::SoftDirty || before.mode
            != AccountingMode::Disabled && probed == Ok::<bool, SoftDirtyError>(true)),
        set_up ==> after.mode == AccountingMode::SoftDirty,
        !set_up && (before.mode == AccountingMode::SoftDirty || before.mode
            == AccountingMode::Disabled) ==> after.mode == before.mode,
        !set_up && before.mode != AccountingMode::SoftDirty && before.mode != AccountingMode::Disabled
            ==> after.mode == (if probed == Ok::<bool, SoftDirtyError>(true) {
            before.mode
        } else {
            AccountingMode::AnonOnly
        }),
{
    let probe_gives = |p: Result<bool, SoftDirtyError>| p == probed;
    let write_gives = |w: Result<(), SoftDirtyError>| w == write;
    if before.mode == AccountingMode::SoftDirty {
        let acked = choose|acked: Result<(), SoftDirtyError>|
            {
                &&& #[trigger] ack_effect(before, write_gives, after, acked)
                &&& set_up == (acked is Ok)
            };
        law_acknowledging_case_by_case(before, write, after, acked);
    } else {
        let armed = choose|armed: Result<ArmOutcome, SoftDirtyError>|
            {
                &&& #[trigger] arm_effect(before, probe_gives, write_gives, after, armed)
                &&& set_up == (armed == Ok::<ArmOutcome, SoftDirtyError>(ArmOutcome::Armed))
            };
        law_arming_case_by_case(before, probed, write, after, armed);
    }
}

/// Whatever a window was, disarming closes it and keeps the mode, and finding the anon ledger unusable
/// disables accounting that has no other and changes nothing else.
pub proof fn law_disarming_and_demoting(before: Ledger)
    ensures
        !disarmed(before).armed,
        disarmed(before).mode == before.mode,
        demoted(before).armed == before.armed,
        before.mode == AccountingMode::AnonOnly ==> demoted(before).mode == AccountingMode::Disabled,
        before.mode != AccountingMode::AnonOnly ==> demoted(before).mode == before.mode,
{
}

/// Lazy-arming state machine for the soft-dirty ledger, one per microVM.
///
/// Clearing the soft-dirty bits opens the next delta window, so it must never happen unless the
/// previous window was durably persisted: otherwise the pages of a lost window silently vanish from
/// every later delta. Consequently:
/// - [`SoftDirtyAccounting::arm`] only fires while no window is open;
/// - [`SoftDirtyAccounting::ack_persisted`] re-arms after a successful write;
/// - [`SoftDirtyAccounting::disarm`] marks a failed window so the next snapshot re-arms.
#[derive(Debug)]
pub struct SoftDirtyAccounting {
    mode: AccountingMode,
    armed: bool,
}

impl View for SoftDirtyAccounting {
    type V = Ledger;

    closed spec fn view(&self) -> Ledger {
        Ledger { mode: self.mode, armed: self.armed }
    }
}

impl Default for SoftDirtyAccounting {
    fn default() -> (accounting: Self)
        ensures
            accounting@ == (Ledger { mode: AccountingMode::Unprobed, armed: false }),
    {
        SoftDirtyAccounting { mode: AccountingMode::Unprobed, armed: false }
    }
}

impl SoftDirtyAccounting {
    /// A window is open only in soft-dirty mode.
    #[verifier::type_invariant]
    spec fn window_needs_soft_dirty(self) -> bool {
        self.armed ==> self.mode == AccountingMode::SoftDirty
    }

    /// Current accounting mode.
    pub fn mode(&self) -> (mode: AccountingMode)
        ensures
            mode == self@.mode,
            self@.armed ==> mode == AccountingMode::SoftDirty,
    {
        proof {
            use_type_invariant(self);
        }
        self.mode
    }

    /// Whether the soft-dirty ledger is armed (window open).
    pub fn is_armed(&self) -> (armed: bool)
        ensures
            armed == self@.armed,
            armed ==> self@.mode == AccountingMode::SoftDirty,
    {
        proof {
            use_type_invariant(self);
        }
        self.armed
    }

    /// Probes the kernel and arms the ledger if possible.
    ///
    /// Degradation is explicit, never silent: an unusable soft-dirty interface switches the mode to
    /// [`AccountingMode::AnonOnly`] and returns [`ArmOutcome::AnonOnly`], so the caller knows to
    /// write the cumulative anon set instead of a window delta.
    ///
    /// `probe` reports kernel support; `clear_refs` opens the file at the given path and writes the
    /// given request to it. Neither is called while a window is open or after accounting was
    /// disabled.
    pub fn arm<P, W>(&mut self, probe: P, clear_refs: W) -> (r: Result<ArmOutcome, SoftDirtyError>)
        where
            P: FnOnce() -> Result<bool, SoftDirtyError>,
            W: FnOnce(&str, &[u8]) -> Result<(), ClearRefsFailure>,
        requires
            awaits_arming(old(self)@) ==> {
                &&& call_requires(probe, ())
                &&& call_ensures(probe, (), Ok::<bool, SoftDirtyError>(true))
                    ==> pages::can_clear(clear_refs)
            },
        ensures
            arm_effect(
                old(self)@,
                |probed: Result<bool, SoftDirtyError>| call_ensures(probe, (), probed),
                |write: Result<(), SoftDirtyError>| pages::clears(clear_refs, write),
                final(self)@,
                r,
            ),
    {
        self.arm_with_probe(probe, clear_refs)
    }

    /// Arms the ledger like [`SoftDirtyAccounting::arm`], with the arming write made by
    /// [`clear_soft_dirty`].
    pub fn arm_with_probe<P, W>(&mut self, probe: P, clear_refs: W) -> (r: Result<
        ArmOutcome,
        SoftDirtyError,
    >)
        where
            P: FnOnce() -> Result<bool, SoftDirtyError>,
            W: FnOnce(&str, &[u8]) -> Result<(), ClearRefsFailure>,
        requires
            awaits_arming(old(self)@) ==> {
                &&& call_requires(probe, ())
                &&& call_ensures(probe, (), Ok::<bool, SoftDirtyError>(true))
                    ==> pages::can_clear(clear_refs)
            },
        ensures
            arm_effect(
                old(self)@,
                |probed: Result<bool, SoftDirtyError>| call_ensures(probe, (), probed),
                |write: Result<(), SoftDirtyError>| pages::clears(clear_refs, write),
                final(self)@,
                r,
            ),
    {
        let arm_write = || -> (write: Result<(), SoftDirtyError>)
            requires
                pages::can_clear(clear_refs),
            ensures
                pages::clears(clear_refs, write),
            { clear_soft_dirty(clear_refs) };
        let ghost write_gives = |write: Result<(), SoftDirtyError>| pages::clears(
            clear_refs,
            write,
        );
        let r = self.arm_with(probe, arm_write);
        assert(forall|write: Result<(), SoftDirtyError>| #[trigger]
            call_ensures(arm_write, (), write) ==> write_gives(write));
        r
    }

    /// Fully injectable core: `probe` reports kernel support, `arm_write` performs the arming
    /// clear_refs write.
    pub fn arm_with<P, W>(&mut self, probe: P, arm_write: W) -> (r: Result<
        ArmOutcome,
        SoftDirtyError,
    >)
        where
            P: FnOnce() -> Result<bool, SoftDirtyError>,
            W: FnOnce() -> Result<(), SoftDirtyError>,
        requires
            awaits_arming(old(self)@) ==> {
                &&& call_requires(probe, ())
                &&& call_ensures(probe, (), Ok::<bool, SoftDirtyError>(true)) ==> call_requires(
                    arm_write,
                    (),
                )
            },
        ensures
            arm_effect(
                old(self)@,
                |probed: Result<bool, SoftDirtyError>| call_ensures(probe, (), probed),
                |write: Result<(), SoftDirtyError>| call_ensures(arm_write, (), write),
                final(self)@,
                r,
            ),
    {
        proof {
            use_type_invariant(&*self);
        }
        if self.armed {
            return Ok(ArmOutcome::AlreadyArmed);
        }
        if self.mode == AccountingMode::Disabled {
            return Ok(ArmOutcome::Disabled);
        }
        let ghost probe_gives = |probed: Result<bool, SoftDirtyError>| call_ensures(probe, (), probed);
        let ghost write_gives = |write: Result<(), SoftDirtyError>| call_ensures(arm_write, (), write);
        let probed = probe();
        assert(probe_gives(probed));
        let supported = match probed {
            Ok(supported) => supported,
            // Covers locked-down /proc paths.
            Err(_) => false,
        };
        if supported {
            // An arming failure leaves the mode untouched, so the next attempt probes again.
            let write = arm_write();
            assert(write_gives(write));
            match write {
                Ok(()) => {
                    self.mode = AccountingMode::SoftDirty;
                    self.armed = true;
                    Ok(ArmOutcome::Armed)
                },
                Err(e) => Err(e),
            }
        } else {
            self.armed = false;
            self.mode = AccountingMode::AnonOnly;
            Ok(ArmOutcome::AnonOnly)
        }
    }

    /// Re-arms after the current delta window was durably written (ack).
    ///
    /// Errors (and disarms) if re-arming fails: the next snapshot will then re-arm via
    /// [`SoftDirtyAccounting::arm`]. Does nothing outside soft-dirty mode.
    pub fn ack_persisted<W: FnOnce(&str, &[u8]) -> Result<(), ClearRefsFailure>>(
        &mut self,
        clear_refs: W,
    ) -> (r: Result<(), SoftDirtyError>)
        requires
            old(self)@.mode == AccountingMode::SoftDirty ==> pages::can_clear(clear_refs),
        ensures
            ack_effect(
                old(self)@,
                |write: Result<(), SoftDirtyError>| pages::clears(clear_refs, write),
                final(self)@,
                r,
            ),
    {
        proof {
            use_type_invariant(&*self);
        }
        if self.mode != AccountingMode::SoftDirty {
            return Ok(());
        }
        match clear_soft_dirty(clear_refs) {
            Ok(()) => {
                self.armed = true;
                Ok(())
            },
            Err(e) => {
                self.armed = false;
                Err(e)
            },
        }
    }

    /// Starts a window after a snapshot of all of guest memory was durably written, so that later
    /// incremental snapshots write what changed since that image.
    ///
    /// An open window is rolled over; if there is none, the ledger is armed. Returns whether a window
    /// is open now. If none could be set up the ledger is left disarmed, and the snapshot stays
    /// valid.
    pub fn start_window<P, W>(&mut self, probe: P, clear_refs: W) -> (set_up: bool)
        where
            P: FnOnce() -> Result<bool, SoftDirtyError>,
            W: FnOnce(&str, &[u8]) -> Result<(), ClearRefsFailure>,
        requires
            old(self)@.mode == AccountingMode::SoftDirty ==> pages::can_clear(clear_refs),
            awaits_arming(old(self)@) ==> {
                &&& call_requires(probe, ())
                &&& call_ensures(probe, (), Ok::<bool, SoftDirtyError>(true)) ==> pages::can_clear(
                    clear_refs,
                )
            },
        ensures
            start_effect(
                old(self)@,
                |probed: Result<bool, SoftDirtyError>| call_ensures(probe, (), probed),
                |write: Result<(), SoftDirtyError>| pages::clears(clear_refs, write),
                final(self)@,
                set_up,
            ),
            set_up ==> final(self)@ == (Ledger { mode: AccountingMode::SoftDirty, armed: true }),
            !set_up ==> !final(self)@.armed,
    {
        proof {
            use_type_invariant(&*self);
        }
        if self.mode == AccountingMode::SoftDirty {
            match self.ack_persisted(clear_refs) {
                Ok(()) => true,
                Err(_) => false,
            }
        } else {
            match self.arm(probe, clear_refs) {
                Ok(ArmOutcome::Armed) => true,
                _ => false,
            }
        }
    }

    /// Marks the current window as *not* persisted: disarms, so the next snapshot re-arms and
    /// re-baselines instead of trusting a ledger whose window start was lost.
    pub fn disarm(&mut self)
        ensures
            final(self)@ == disarmed(old(self)@),
            !final(self)@.armed,
            final(self)@.mode == old(self)@.mode,
    {
        self.armed = false;
    }

    /// Demotes [`AccountingMode::AnonOnly`] to [`AccountingMode::Disabled`] after the anon ledger
    /// itself failed; the caller must fall back to Full snapshots.
    pub fn note_ledger_unusable(&mut self)
        ensures
            final(self)@ == demoted(old(self)@),
            old(self)@.mode == AccountingMode::AnonOnly ==> final(self)@.mode
                == AccountingMode::Disabled,
            old(self)@.mode != AccountingMode::AnonOnly ==> final(self)@.mode == old(self)@.mode,
            final(self)@.armed == old(self)@.armed,
    {
        proof {
            use_type_invariant(&*self);
        }
        if self.mode == AccountingMode::AnonOnly {
            self.mode = AccountingMode::Disabled;
        }
    }
}

} // verus!
