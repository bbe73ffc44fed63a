//! Core of a cycle-accurate MOS 6502 emulator as found in the NES: the
//! register file, the NROM cartridge mapper and the instruction engine,
//! each with a machine-checked contract.

use vstd::prelude::*;

pub mod cart;
pub mod cpu;

verus! {

/// The memory bus the CPU drives.
///
/// The engine assumes nothing about a bus beyond these three operations: a
/// bus may mirror RAM, route a mapper, or expose device registers whose
/// reads change from one cycle to the next. So the methods carry no contract,
/// and everything proved about the engine holds for every bus.
pub trait MMU {
    /// The byte at address `a`.
    fn read(&self, a: u16) -> u8;

    /// Stores `v` at address `a`.
    fn write(&mut self, a: u16, v: u8);

    /// Advances the bus by one cycle.
    fn cycle(&mut self);
}

} // verus!
