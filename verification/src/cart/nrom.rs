//! The NROM mapper: one or two 16 KB pages of PRG-ROM, CHR-ROM, and a window
//! of PRG-RAM, with no bank switching.

use vstd::prelude::*;
use vstd::slice::{slice_subrange, slice_to_vec};
use crate::cart::Mapper;

verus! {

/// The size of the header that precedes the body of an image.
pub const HEADER_SIZE: usize = 16;

/// The size of one page of PRG-ROM.
pub const PRG_ROM_PAGE_SIZE: usize = 16384;

/// The size of one page of CHR-ROM.
pub const CHR_ROM_PAGE_SIZE: usize = 8192;

/// The size of one page of PRG-RAM.
pub const PRG_RAM_PAGE_SIZE: usize = 8192;

/// What an NROM cartridge holds.
pub struct Cartridge {
    pub prg_rom: Seq<u8>,
    pub chr_rom: Seq<u8>,
    pub prg_ram: Seq<u8>,
    pub prg_num: u8,
}

impl Cartridge {
    /// One or two pages of PRG-ROM, as many as `prg_num` says, and at least
    /// one page of PRG-RAM.
    pub open spec fn wf(self) -> bool {
        &&& self.prg_num == 1 || self.prg_num == 2
        &&& self.prg_rom.len() == self.prg_num * PRG_ROM_PAGE_SIZE
        &&& self.prg_ram.len() >= PRG_RAM_PAGE_SIZE
    }

    /// Whether the CPU address `a` falls into the PRG-RAM window.
    pub open spec fn in_ram(a: u16) -> bool {
        0x6000 <= a <= 0x7FFF
    }

    /// Whether the CPU address `a` falls into the PRG-ROM window.
    pub open spec fn in_rom(a: u16) -> bool {
        0x8000 <= a
    }

    /// The place in PRG-ROM that the CPU address `a` of the ROM window maps
    /// to. The lower half of the window is the first page. The upper half
    /// is the second page where there are two, and the first page again
    /// where there is one.
    pub open spec fn rom_index(self, a: u16) -> int {
        if a < 0xC000 || self.prg_num == 2 {
            a - 0x8000
        } else {
            a - 0xC000
        }
    }

    /// The byte that the CPU reads at `a`; zero outside both windows.
    pub open spec fn cpu_read(self, a: u16) -> u8 {
        if Self::in_ram(a) {
            self.prg_ram[a - 0x6000]
        } else if Self::in_rom(a) {
            self.prg_rom[self.rom_index(a)]
        } else {
            0
        }
    }

    /// The cartridge after the CPU stores `v` at `a`. A store into the ROM
    /// window changes the byte that later reads of that place return; a
    /// store outside both windows changes nothing.
    pub open spec fn cpu_write(self, a: u16, v: u8) -> Cartridge {
        if Self::in_ram(a) {
            Cartridge { prg_ram: self.prg_ram.update(a - 0x6000, v), ..self }
        } else if Self::in_rom(a) {
            Cartridge { prg_rom: self.prg_rom.update(self.rom_index(a), v), ..self }
        } else {
            self
        }
    }
}

/// The number of PRG-ROM pages that the header of the image `d` announces.
pub open spec fn prg_pages(d: Seq<u8>) -> int {
    d[4] as int
}

/// The number of CHR-ROM pages that the header of the image `d` announces.
pub open spec fn chr_pages(d: Seq<u8>) -> int {
    d[5] as int
}

/// The number of PRG-RAM pages that the header of the image `d` announces;
/// none counts as one.
pub open spec fn ram_pages(d: Seq<u8>) -> int {
    if d[8] == 0 {
        1
    } else {
        d[8] as int
    }
}

/// Where the CHR-ROM of the image `d` begins.
pub open spec fn chr_start(d: Seq<u8>) -> int {
    HEADER_SIZE + prg_pages(d) * PRG_ROM_PAGE_SIZE
}

/// Where the body of the image `d` ends.
pub open spec fn body_end(d: Seq<u8>) -> int {
    chr_start(d) + chr_pages(d) * CHR_ROM_PAGE_SIZE
}

/// An image that an NROM cartridge can be made of: it has a header, one or
/// two pages of PRG-ROM, and is as long as its header says.
pub open spec fn image_ok(d: Seq<u8>) -> bool {
    &&& d.len() >= HEADER_SIZE
    &&& prg_pages(d) == 1 || prg_pages(d) == 2
    &&& d.len() >= body_end(d)
}

/// The cartridge that the image `d` describes: the PRG-ROM follows the
/// header, the CHR-ROM follows the PRG-ROM, and the PRG-RAM is zeroed.
pub open spec fn parsed(d: Seq<u8>) -> Cartridge {
    Cartridge {
        prg_rom: d.subrange(HEADER_SIZE as int, chr_start(d)),
        chr_rom: d.subrange(chr_start(d), body_end(d)),
        prg_ram: Seq::new((ram_pages(d) * PRG_RAM_PAGE_SIZE) as nat, |i: int| 0u8),
        prg_num: d[4],
    }
}

/// Why an image was refused.
#[derive(Clone, Copy, Debug, PartialEq, Eq)]
pub enum ImageError {
    /// The image is shorter than its header says, or announces a number of
    /// PRG-ROM pages other than one or two.
    BadImage,
}

/// The NROM mapper.
pub struct NROM {
    prg_rom: Vec<u8>,
    chr_rom: Vec<u8>,
    prg_ram: Vec<u8>,
    prg_num: u8,
}

impl View for NROM {
    type V = Cartridge;

    closed spec fn view(&self) -> Cartridge {
        Cartridge {
            prg_rom: self.prg_rom@,
            chr_rom: self.chr_rom@,
            prg_ram: self.prg_ram@,
            prg_num: self.prg_num,
        }
    }
}

impl NROM {
    /// Whether `d` is an image that a cartridge can be made of.
    pub fn accepts(d: &[u8]) -> (ok: bool)
        ensures
            ok == image_ok(d@),
    {
        if d.len() < HEADER_SIZE {
            return false;
        }
        let prg_num = d[4];
        if prg_num != 1 && prg_num != 2 {
            return false;
        }
        let end: usize = HEADER_SIZE + prg_num as usize * PRG_ROM_PAGE_SIZE + d[5] as usize
            * CHR_ROM_PAGE_SIZE;
        d.len() >= end
    }

    /// The cartridge that the image `d` describes. Byte 4 of the header is
    /// the number of PRG-ROM pages, byte 5 that of CHR-ROM pages, byte 8 that
    /// of PRG-RAM pages, where none counts as one. The PRG-ROM follows the 16
    /// bytes of the header, and the CHR-ROM follows the PRG-ROM.
    ///
    /// The image must be one that `accepts` accepts; `parse` tests that
    /// itself.
    pub fn new(d: &[u8]) -> (rom: NROM)
        requires
            image_ok(d@),
        ensures
            rom@ == parsed(d@),
            rom@.wf(),
    {
        let prg_num = d[4];
        let prg_size: usize = prg_num as usize * PRG_ROM_PAGE_SIZE;
        let chr_size: usize = d[5] as usize * CHR_ROM_PAGE_SIZE;
        let ram_size: usize = if d[8] == 0 {
            PRG_RAM_PAGE_SIZE
        } else {
            d[8] as usize * PRG_RAM_PAGE_SIZE
        };
        let prg_ram: Vec<u8> = vec![0; ram_size];
        assert(prg_ram@ =~= parsed(d@).prg_ram);
        NROM {
            prg_rom: slice_to_vec(slice_subrange(d, HEADER_SIZE, HEADER_SIZE + prg_size)),
            chr_rom: slice_to_vec(
                slice_subrange(d, HEADER_SIZE + prg_size, HEADER_SIZE + prg_size + chr_size),
            ),
            prg_ram,
            prg_num,
        }
    }

    /// The cartridge that the image `d` describes, where it describes one:
    /// `new` for an image that `accepts` accepts, and an error for any other.
    pub fn parse(d: &[u8]) -> (r: Result<NROM, ImageError>)
        ensures
            image_ok(d@) ==> r is Ok && r->Ok_0@ == parsed(d@) && r->Ok_0@.wf(),
            !image_ok(d@) ==> r == Err::<NROM, ImageError>(ImageError::BadImage),
    {
        if Self::accepts(d) {
            Ok(Self::new(d))
        } else {
            Err(ImageError::BadImage)
        }
    }
}

impl Mapper for NROM {
    open spec fn wf(&self) -> bool {
        self@.wf()
    }

    /// The byte of PRG-RAM at 0x6000 to 0x7FFF, of PRG-ROM at 0x8000 and
    /// above, and zero below.
    fn cpu_read(&self, a: u16) -> (v: u8)
        ensures
            v == self@.cpu_read(a),
    {
        if 0x6000 <= a && a <= 0x7FFF {
            self.prg_ram[a as usize % 0x6000]
        } else if 0x8000 <= a && a <= 0xBFFF {
            self.prg_rom[a as usize % 0x8000]
        } else if 0xC000 <= a {
            if self.prg_num == 2 {
                self.prg_rom[a as usize % 0x8000]
            } else {
                self.prg_rom[a as usize % 0xC000]
            }
        } else {
            0
        }
    }

    /// Stores `v` in the byte that `cpu_read` reads at `a`; below 0x6000
    /// nothing is stored.
    fn cpu_write(&mut self, a: u16, v: u8)
        ensures
            final(self)@ == old(self)@.cpu_write(a, v),
    {
        if 0x6000 <= a && a <= 0x7FFF {
            self.prg_ram.set(a as usize % 0x6000, v);
        } else if 0x8000 <= a && a <= 0xBFFF {
            self.prg_rom.set(a as usize % 0x8000, v);
        } else if 0xC000 <= a {
            if self.prg_num == 2 {
                self.prg_rom.set(a as usize % 0x8000, v);
            } else {
                self.prg_rom.set(a as usize % 0xC000, v);
            }
        }
    }

    /// Zero: the CHR-ROM is not served to the PPU here.
    fn ppu_read(&self, a: u16) -> (v: u8)
        ensures
            v == 0,
    {
        0
    }

    /// Nothing is stored.
    fn ppu_write(&mut self, a: u16, v: u8)
        ensures
            final(self)@ == old(self)@,
    {
    }

    /// Nothing happens: NROM has no state that time changes.
    fn cycle(&mut self)
        ensures
            final(self)@ == old(self)@,
    {
    }
}

/// With one page of PRG-ROM, the upper half of the ROM window shows what the
/// lower half shows.
pub proof fn lemma_single_page_mirrors(c: Cartridge, k: int)
    requires
        c.wf(),
        c.prg_num == 1,
        0 <= k < 0x4000,
    ensures
        c.cpu_read((0xC000 + k) as u16) == c.cpu_read((0x8000 + k) as u16),
{
}

/// With two pages of PRG-ROM, the lower half of the ROM window shows the
/// first page and the upper half the second.
pub proof fn lemma_two_pages_side_by_side(c: Cartridge, k: int)
    requires
        c.wf(),
        c.prg_num == 2,
        0 <= k < 0x4000,
    ensures
        c.cpu_read((0x8000 + k) as u16) == c.prg_rom[k],
        c.cpu_read((0xC000 + k) as u16) == c.prg_rom[0x4000 + k],
{
}

/// A byte stored in the PRG-RAM window is the byte read back there.
pub proof fn lemma_ram_holds(c: Cartridge, a: u16, v: u8)
    requires
        c.wf(),
        Cartridge::in_ram(a),
    ensures
        c.cpu_write(a, v).cpu_read(a) == v,
        c.cpu_write(a, v).wf(),
{
}

} // verus!
