//! The machine timer driver: the counter/comparator register pair presented
//! as a time source and a single-shot alarm, with interrupt dispatch to at
//! most one registered client.

use vstd::prelude::*;

use crate::client::AlarmClient;
use crate::registers::DISABLED_SENTINEL;
use crate::registers::MachineTimerRegisters;

verus! {

/// Status reported by a driver operation.
#[derive(Clone, Copy, Debug, PartialEq, Eq, Structural)]
pub enum ReturnCode {
    /// The operation completed. Register writes cannot fail at this layer,
    /// so every operation that reports a status reports this.
    Success,
    /// The operation failed. No operation of this driver reports it; it is
    /// part of the status vocabulary callers match on.
    Fail,
}

/// Driver for the machine timer.
///
/// The driver owns the register block state and a slot for at most one
/// registered client. The comparator encodes the disabled state with the
/// sentinel: the alarm is armed exactly when `mtimecmp` holds any other
/// value. An alarm legitimately aimed at the maximum count is therefore
/// indistinguishable from a disabled one; that ambiguity is a deliberate
/// part of the encoding and is preserved here.
pub struct MachineTimer<C: AlarmClient> {
    registers: MachineTimerRegisters,
    client: Option<C>,
}

impl<C: AlarmClient> MachineTimer<C> {
    /// Current value of the free-running counter.
    pub closed spec fn counter(self) -> u64 {
        self.registers.counter()
    }

    /// Current value of the compare register.
    pub closed spec fn compare(self) -> u64 {
        self.registers.compare()
    }

    /// The registered client, if any.
    pub closed spec fn registered(self) -> Option<C> {
        self.client
    }

    /// The alarm is armed exactly when the comparator holds anything but
    /// the sentinel.
    pub open spec fn enabled(self) -> bool {
        self.compare() != DISABLED_SENTINEL
    }

    /// The hardware interrupt condition of the underlying registers.
    pub open spec fn interrupt_pending(self) -> bool {
        self.counter() >= self.compare()
    }

    /// Construct the driver over a register block. No client is registered
    /// yet; the armed/disabled state is whatever the block already holds.
    pub fn new(registers: MachineTimerRegisters) -> (r: Self)
        ensures
            r.counter() == registers.counter(),
            r.compare() == registers.compare(),
            r.registered() is None,
    {
        MachineTimer { registers, client: None }
    }

    /// Disarm the comparator by writing the sentinel, so that no future
    /// interrupt fires under normal counter progression.
    fn disable_machine_timer(&mut self)
        ensures
            final(self).compare() == DISABLED_SENTINEL,
            final(self).counter() == old(self).counter(),
            final(self).registered() == old(self).registered(),
    {
        self.registers.write_mtimecmp(DISABLED_SENTINEL);
    }

    /// Interrupt-context entry point, invoked by the interrupt controller
    /// once per raised timer interrupt.
    ///
    /// First disarms the comparator, so the timer always ends up disabled
    /// whatever its prior state; then, if a client is registered, delivers
    /// its fired notification exactly once. With no client registered the
    /// interrupt is silently dropped, which is not an error.
    pub fn handle_interrupt(&mut self)
        ensures
            final(self).compare() == DISABLED_SENTINEL,
            !final(self).enabled(),
            final(self).counter() == old(self).counter(),
            old(self).registered() is None ==> final(self).registered() is None,
            old(self).registered() is Some ==> final(self).registered() is Some
                && final(self).registered()->0.notified() == old(self).registered()->0.notified()
                + 1,
    {
        self.disable_machine_timer();
        match &mut self.client {
            Some(client) => client.fired(),
            None => {},
        }
    }

    /// Current value of the free-running counter. No side effects, no
    /// failure mode, safe to call at any time including interrupt context.
    pub fn now(&self) -> (r: u64)
        ensures
            r == self.counter(),
    {
        self.registers.read_mtime()
    }

    /// The saturation ceiling of the counter: its maximum representable
    /// value, past which it wraps to zero.
    pub fn max_tics(&self) -> (r: u64)
        ensures
            r == u64::MAX,
    {
        u64::MAX
    }

    /// Register `client` as the single notification target. A later
    /// registration replaces an earlier one: last write wins.
    pub fn set_client(&mut self, client: C)
        ensures
            final(self).registered() == Some(client),
            final(self).counter() == old(self).counter(),
            final(self).compare() == old(self).compare(),
    {
        self.client = Some(client);
    }

    /// Arm the one-shot alarm to fire when the counter reaches `tics`,
    /// widened to 64 bits with the high half zero. Always leaves the timer
    /// armed: no 32-bit target can collide with the sentinel.
    pub fn set_alarm(&mut self, tics: u32)
        ensures
            final(self).compare() == tics as u64,
            final(self).enabled(),
            final(self).counter() == old(self).counter(),
            final(self).registered() == old(self).registered(),
    {
        self.registers.write_mtimecmp(tics as u64);
    }

    /// The low 32 bits of the current comparator value. The high half is
    /// not visible through this interface; the precision loss is intrinsic
    /// to the 32-bit alarm contract over the 64-bit register.
    pub fn get_alarm(&self) -> (r: u32)
        ensures
            r == self.compare() as u32,
    {
        #[verifier::truncate] (self.registers.read_mtimecmp() as u32)
    }

    /// Disarm the alarm by writing the sentinel, guaranteeing no future
    /// interrupt under normal counter progression. Register writes cannot
    /// fail, so this always reports success, also when the timer was already
    /// disabled.
    pub fn disable(&mut self) -> (r: ReturnCode)
        ensures
            r == ReturnCode::Success,
            final(self).compare() == DISABLED_SENTINEL,
            !final(self).enabled(),
            final(self).counter() == old(self).counter(),
            final(self).registered() == old(self).registered(),
    {
        self.disable_machine_timer();
        ReturnCode::Success
    }

    /// Snapshot of the armed/disabled state: true exactly when the
    /// comparator holds anything but the sentinel. No atomicity guarantee
    /// against a concurrently firing interrupt.
    pub fn is_enabled(&self) -> (r: bool)
        ensures
            r == self.enabled(),
    {
        self.registers.read_mtimecmp() != DISABLED_SENTINEL
    }

    /// The registered client, for observation.
    pub fn client(&self) -> (r: Option<&C>)
        ensures
            r is Some <==> self.registered() is Some,
            r is Some ==> *r->0 == self.registered()->0,
    {
        self.client.as_ref()
    }

    /// One hardware clock tick observed through the driver: the counter
    /// advances, wrapping silently to zero past the maximum, and nothing
    /// else changes. This models the clock the driver cannot pause.
    pub fn tick(&mut self)
        ensures
            final(self).counter() == MachineTimerRegisters::ticked(old(self).counter()),
            final(self).compare() == old(self).compare(),
            final(self).registered() == old(self).registered(),
    {
        self.registers.tick();
    }

    /// Whether hardware currently holds the timer interrupt pending, that
    /// is, whether the counter has reached the compare value.
    pub fn is_interrupt_pending(&self) -> (r: bool)
        ensures
            r == self.interrupt_pending(),
    {
        self.registers.is_interrupt_pending()
    }
}

/// Arming the alarm with any 32-bit target leaves the timer observably
/// armed, and the target reads back exactly: after `set_alarm(t)` the
/// comparator holds `t` widened, which `is_enabled` reports as enabled and
/// `get_alarm` truncates back to exactly `t`.
pub proof fn lemma_set_alarm_round_trip<C: AlarmClient>(timer: MachineTimer<C>, t: u32)
    requires
        timer.compare() == t as u64,
    ensures
        timer.enabled(),
        timer.compare() as u32 == t,
{
    assert((t as u64) != 0xFFFF_FFFF_FFFF_FFFFu64) by (bit_vector);
    assert((t as u64) as u32 == t) by (bit_vector);
}

/// A disabled timer is observably disabled: with the comparator at the
/// sentinel, `is_enabled` reports false and `get_alarm` reads back the low
/// half of the sentinel.
pub proof fn lemma_disabled_observation<C: AlarmClient>(timer: MachineTimer<C>)
    requires
        timer.compare() == DISABLED_SENTINEL,
    ensures
        !timer.enabled(),
        timer.compare() as u32 == 0xFFFF_FFFFu32,
{
    assert(0xFFFF_FFFF_FFFF_FFFFu64 as u32 == 0xFFFF_FFFFu32) by (bit_vector);
}

} // verus!
