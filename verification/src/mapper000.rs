use vstd::prelude::*;

use crate::mapper004::power_on_chr_ram;
use crate::mapper_base::{Mapper, Mirroring};

verus! {

/// Size of the CHR RAM of a board without CHR ROM.
pub const NROM_CHR_RAM_SIZE: usize = 8192;

/// iNES mapper 0 (NROM): 16 or 32 KB of PRG ROM at CPU $8000-$FFFF (16 KB
/// shows twice), 8 KB of pattern memory, a fixed nametable arrangement and
/// no registers.
pub struct InesMapper000 {
    prg_rom: Box<[u8]>,
    chr_rom: Box<[u8]>,
    chr_ram: Vec<u8>,
    mirroring: Mirroring,
}

/// The state of an NROM board.
pub struct NromState {
    pub prg_rom: Seq<u8>,
    pub chr_rom: Seq<u8>,
    pub chr_ram: Seq<u8>,
    pub mirroring: Mirroring,
}

impl View for InesMapper000 {
    type V = NromState;

    closed spec fn view(&self) -> NromState {
        NromState { prg_rom: self.prg_rom@, chr_rom: self.chr_rom@, chr_ram: self.chr_ram@, mirroring: self.mirroring }
    }
}

/// The state of a freshly built board.
pub open spec fn nrom_power_on(prg_rom: Seq<u8>, chr_rom: Seq<u8>, mirroring: Mirroring) -> NromState {
    NromState { prg_rom, chr_rom, chr_ram: power_on_chr_ram(chr_rom, NROM_CHR_RAM_SIZE as nat), mirroring }
}

/// The pattern memory in use: CHR ROM when present, else CHR RAM.
pub open spec fn nrom_pattern_memory(s: NromState) -> Seq<u8> {
    if s.chr_rom.len() != 0 {
        s.chr_rom
    } else {
        s.chr_ram
    }
}

impl InesMapper000 {
    pub fn new(prg_rom: Box<[u8]>, chr_rom: Box<[u8]>, mirroring: Mirroring) -> (m: Self)
        ensures
            <InesMapper000 as Mapper>::well_formed(m@),
            m@ == nrom_power_on(prg_rom@, chr_rom@, mirroring),
    {
        let chr_ram: Vec<u8> = if chr_rom.len() == 0 { vec![0u8; NROM_CHR_RAM_SIZE] } else { Vec::new() };
        let m = InesMapper000 { prg_rom, chr_rom, chr_ram, mirroring };
        proof {
            assert(m@.chr_ram =~= power_on_chr_ram(chr_rom@, NROM_CHR_RAM_SIZE as nat));
        }
        m
    }
}

impl Mapper for InesMapper000 {
    open spec fn well_formed(v: NromState) -> bool {
        v.chr_rom.len() == 0 ==> v.chr_ram.len() == NROM_CHR_RAM_SIZE
    }

    open spec fn read_defined(v: NromState, addr: u16) -> bool {
        0x8000 <= addr ==> v.prg_rom.len() > 0
    }

    open spec fn read_value(v: NromState, addr: u16) -> u8 {
        if 0x8000 <= addr {
            v.prg_rom[(addr - 0x8000) % (v.prg_rom.len() as int)]
        } else {
            0
        }
    }

    open spec fn write_defined(v: NromState, addr: u16) -> bool {
        true
    }

    open spec fn written(v: NromState, addr: u16, val: u8) -> NromState {
        v
    }

    open spec fn chr_read_defined(v: NromState, addr: u16) -> bool {
        true
    }

    open spec fn chr_value(v: NromState, addr: u16) -> u8 {
        nrom_pattern_memory(v)[(addr as int) % (nrom_pattern_memory(v).len() as int)]
    }

    open spec fn chr_write_defined(v: NromState, addr: u16) -> bool {
        true
    }

    open spec fn chr_written(v: NromState, addr: u16, val: u8) -> NromState {
        if v.chr_rom.len() == 0 {
            NromState { chr_ram: v.chr_ram.update((addr as int) % (v.chr_ram.len() as int), val), ..v }
        } else {
            v
        }
    }

    open spec fn mirroring_defined(v: NromState) -> bool {
        true
    }

    open spec fn arrangement(v: NromState) -> Mirroring {
        v.mirroring
    }

    open spec fn irq_line(v: NromState) -> bool {
        false
    }

    open spec fn irq_acknowledged(v: NromState) -> NromState {
        v
    }

    open spec fn ppu_address_defined(v: NromState, addr: u16) -> bool {
        true
    }

    open spec fn ppu_address_seen(v: NromState, addr: u16) -> NromState {
        v
    }

    proof fn lemma_ppu_side_keeps_arrangement(v: NromState, addr: u16, val: u8) {
    }

    fn read(&self, addr: u16) -> (r: u8) {
        if 0x8000 <= addr {
            self.prg_rom[(addr - 0x8000) as usize % self.prg_rom.len()]
        } else {
            0
        }
    }

    fn write(&mut self, addr: u16, val: u8) {
        // no registers: writes are ignored
    }

    fn read_chr(&self, addr: u16) -> (r: u8) {
        if self.chr_rom.len() != 0 {
            self.chr_rom[addr as usize % self.chr_rom.len()]
        } else {
            self.chr_ram[addr as usize % self.chr_ram.len()]
        }
    }

    fn write_chr(&mut self, addr: u16, val: u8) {
        if self.chr_rom.len() == 0 {
            let i = addr as usize % self.chr_ram.len();
            self.chr_ram.set(i, val);
        }
    }

    fn mirroring(&self) -> (m: Mirroring) {
        self.mirroring
    }

    fn irq_pending(&self) -> (r: bool) {
        false
    }

    fn acknowledge_irq(&mut self) {
    }

    fn notify_ppu_address(&mut self, addr: u16) {
    }
}

/// A 16 KB PRG ROM shows twice: $C000-$FFFF repeats $8000-$BFFF.
pub proof fn law_nrom_16k_repeats(s: NromState, x: u16)
    requires
        s.prg_rom.len() == 0x4000,
        x < 0x4000,
    ensures
        <InesMapper000 as Mapper>::read_value(s, (0xC000 + x) as u16) == <InesMapper000 as Mapper>::read_value(
            s,
            (0x8000 + x) as u16,
        ),
        <InesMapper000 as Mapper>::read_value(s, (0x8000 + x) as u16) == s.prg_rom[x as int],
{
    assert((0x4000 + x) % 0x4000 == x as int) by (nonlinear_arith)
        requires x < 0x4000;
    assert((x as int) % 0x4000 == x as int) by (nonlinear_arith)
        requires x < 0x4000;
}

/// The PRG ROM shows from $8000 on, repeating when it is shorter than
/// 32 KB; pattern memory is the CHR ROM, or the CHR RAM when there is none;
/// no CPU write changes anything.
pub proof fn law_nrom_fixed(s: NromState, x: u16, a: u16, addr: u16, val: u8)
    requires
        s.prg_rom.len() > 0,
        x < 0x8000,
        s.chr_rom.len() > 0,
    ensures
        <InesMapper000 as Mapper>::read_value(s, (0x8000 + x) as u16) == s.prg_rom[(x as int) % (s.prg_rom.len() as int)],
        <InesMapper000 as Mapper>::chr_value(s, a) == s.chr_rom[(a as int) % (s.chr_rom.len() as int)],
        <InesMapper000 as Mapper>::written(s, addr, val) == s,
{
}

} // verus!
