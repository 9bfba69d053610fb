//! A machine timer driver for a 32-bit RISC-V style platform: a free-running
//! 64-bit hardware counter and its compare register, presented as a time
//! source and a one-shot alarm with a single-slot client notification.
//!
//! The register block is modeled as plain 64-bit values so that the driver's
//! state machine is fully checkable; a hardware build binds the same logic to
//! the memory-mapped block.

mod client;
mod registers;
mod timer;

pub use client::AlarmClient;
pub use client::CountingClient;
pub use registers::DISABLED_SENTINEL;
pub use registers::MachineTimerRegisters;
pub use registers::lemma_counter_monotonic_absent_wraparound;
pub use registers::lemma_counter_progression;
pub use timer::MachineTimer;
pub use timer::ReturnCode;
pub use timer::lemma_disabled_observation;
pub use timer::lemma_set_alarm_round_trip;
