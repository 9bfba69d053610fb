//! Model of the machine timer register block: the free-running `mtime`
//! counter and the `mtimecmp` compare register.

use vstd::prelude::*;

verus! {

/// The `mtimecmp` value that encodes a disabled comparator: the maximum
/// representable count, which the counter never reaches under a normal
/// schedule. There is no separate enable bit; this sentinel is the encoding.
pub const DISABLED_SENTINEL: u64 = 0xFFFF_FFFF_FFFF_FFFF;

/// Software-visible state of the timer register pair.
///
/// `mtime` is the free-running 64-bit counter: the hardware clock increments
/// it on every tick and wraps it silently to zero past the maximum; software
/// only reads it. `mtimecmp` is the 64-bit compare register: hardware holds
/// the timer interrupt pending whenever `mtime >= mtimecmp`, and software
/// clears the condition by writing a larger compare value.
pub struct MachineTimerRegisters {
    mtime: u64,
    mtimecmp: u64,
}

impl MachineTimerRegisters {
    /// Current value of the free-running counter.
    pub closed spec fn counter(self) -> u64 {
        self.mtime
    }

    /// Current value of the compare register.
    pub closed spec fn compare(self) -> u64 {
        self.mtimecmp
    }

    /// The hardware interrupt condition: pending exactly when the counter
    /// has reached the compare value.
    pub open spec fn interrupt_pending(self) -> bool {
        self.counter() >= self.compare()
    }

    /// Counter value after one hardware clock tick: one more, wrapping
    /// silently to zero past the maximum.
    pub open spec fn ticked(count: u64) -> u64 {
        if count == u64::MAX {
            0
        } else {
            (count + 1) as u64
        }
    }

    /// Counter value after `n` hardware clock ticks.
    pub open spec fn ticked_by(count: u64, n: nat) -> u64
        decreases n,
    {
        if n == 0 {
            count
        } else {
            Self::ticked(Self::ticked_by(count, (n - 1) as nat))
        }
    }

    /// A register block as reset leaves it here: counter at zero, comparator
    /// at the sentinel, so the timer starts disabled.
    pub fn new() -> (r: Self)
        ensures
            r.counter() == 0,
            r.compare() == DISABLED_SENTINEL,
    {
        MachineTimerRegisters { mtime: 0, mtimecmp: DISABLED_SENTINEL }
    }

    /// A register block in an arbitrary state, as hardware might present it
    /// when the driver is constructed over an already-running counter.
    pub fn with_values(mtime: u64, mtimecmp: u64) -> (r: Self)
        ensures
            r.counter() == mtime,
            r.compare() == mtimecmp,
    {
        MachineTimerRegisters { mtime, mtimecmp }
    }

    /// Read the free-running counter. No side effects.
    pub fn read_mtime(&self) -> (r: u64)
        ensures
            r == self.counter(),
    {
        self.mtime
    }

    /// Read the compare register. No side effects.
    pub fn read_mtimecmp(&self) -> (r: u64)
        ensures
            r == self.compare(),
    {
        self.mtimecmp
    }

    /// Write the compare register; the counter is untouched. Register
    /// writes are unconditional: there is no failure path.
    pub fn write_mtimecmp(&mut self, value: u64)
        ensures
            final(self).compare() == value,
            final(self).counter() == old(self).counter(),
    {
        self.mtimecmp = value;
    }

    /// One hardware clock tick: the counter advances, wrapping silently to
    /// zero past the maximum; the compare register is untouched. Software
    /// cannot pause the counter, only observe it tick by tick.
    pub fn tick(&mut self)
        ensures
            final(self).counter() == Self::ticked(old(self).counter()),
            final(self).compare() == old(self).compare(),
    {
        if self.mtime == u64::MAX {
            self.mtime = 0;
        } else {
            self.mtime = self.mtime + 1;
        }
    }

    /// Whether hardware currently holds the timer interrupt pending.
    pub fn is_interrupt_pending(&self) -> (r: bool)
        ensures
            r == self.interrupt_pending(),
    {
        self.mtime >= self.mtimecmp
    }
}

/// The counter read through `read_mtime` is non-decreasing across a hardware
/// tick unless it wraps, and a wrap from the maximum lands exactly on zero.
/// Reads themselves never move the counter, so two reads with no tick
/// between them are equal.
pub proof fn lemma_counter_progression(before: u64)
    ensures
        before != u64::MAX ==> MachineTimerRegisters::ticked(before) > before,
        before == u64::MAX ==> MachineTimerRegisters::ticked(before) == 0,
{
}

/// Across any number of ticks that stays short of a wraparound, the counter
/// reads back exactly the elapsed tick count higher; in particular it never
/// decreases between two successive reads.
pub proof fn lemma_counter_monotonic_absent_wraparound(before: u64, n: nat)
    requires
        before + n <= u64::MAX,
    ensures
        MachineTimerRegisters::ticked_by(before, n) == before + n,
        MachineTimerRegisters::ticked_by(before, n) >= before,
    decreases n,
{
    if n > 0 {
        lemma_counter_monotonic_absent_wraparound(before, (n - 1) as nat);
    }
}

} // verus!
