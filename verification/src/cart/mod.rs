//! Cartridge address mapping.

pub mod nrom;

use vstd::prelude::*;

verus! {

/// What a cartridge mapper offers to the bus.
pub trait Mapper {
    /// Whether the mapper is in a state that its constructor and its own
    /// methods lead to.
    spec fn wf(&self) -> bool;

    /// The byte the CPU sees at `a`.
    fn cpu_read(&self, a: u16) -> u8
        requires
            self.wf(),
    ;

    /// A CPU store of `v` at `a`.
    fn cpu_write(&mut self, a: u16, v: u8)
        requires
            old(self).wf(),
        ensures
            final(self).wf(),
    ;

    /// The byte the PPU sees at `a`.
    fn ppu_read(&self, a: u16) -> u8
        requires
            self.wf(),
    ;

    /// A PPU store of `v` at `a`.
    fn ppu_write(&mut self, a: u16, v: u8)
        requires
            old(self).wf(),
        ensures
            final(self).wf(),
    ;

    /// Advances the mapper by one bus cycle.
    fn cycle(&mut self)
        requires
            old(self).wf(),
        ensures
            final(self).wf(),
    ;
}

} // verus!
