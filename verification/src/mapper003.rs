use vstd::prelude::*;

use crate::game_save::{GameSave, SAVE_RAM_SIZE, save_index};
use crate::mapper004::power_on_chr_ram;
use crate::mapper_base::{CpuRam, CpuRamState, Mapper, Mirroring, persistent_bytes};

verus! {

/// Size of one CHR bank of a CNROM board, and of its CHR RAM when it has no CHR ROM.
pub const CNROM_CHR_BANK_SIZE: usize = 8192;

/// iNES mapper 3 (CNROM): fixed PRG ROM at CPU $8000-$FFFF (16 KB shows
/// twice), an 8 KB CHR bank picked by any write to $8000-$FFFF, a fixed
/// nametable arrangement and work RAM at $6000-$7FFF, battery-backed or
/// plain. A bank number past the end of the CHR ROM wraps around.
pub struct InesMapper003 {
    prg_rom: Box<[u8]>,
    chr_rom: Box<[u8]>,
    chr_ram: Vec<u8>,
    prg_ram: CpuRam,
    mirroring: Mirroring,
    chr_bank: u8,
}

/// The state of a CNROM board.
pub struct CnromState {
    pub prg_rom: Seq<u8>,
    pub chr_rom: Seq<u8>,
    pub chr_ram: Seq<u8>,
    pub prg_ram: CpuRamState,
    pub mirroring: Mirroring,
    pub chr_bank: u8,
}

impl View for InesMapper003 {
    type V = CnromState;

    closed spec fn view(&self) -> CnromState {
        CnromState {
            prg_rom: self.prg_rom@,
            chr_rom: self.chr_rom@,
            chr_ram: self.chr_ram@,
            prg_ram: self.prg_ram@,
            mirroring: self.mirroring,
            chr_bank: self.chr_bank,
        }
    }
}

/// The state of a freshly built board: CHR bank 0.
pub open spec fn cnrom_power_on(prg_rom: Seq<u8>, chr_rom: Seq<u8>, mirroring: Mirroring, prg_ram: CpuRamState) -> CnromState {
    CnromState {
        prg_rom,
        chr_rom,
        chr_ram: power_on_chr_ram(chr_rom, CNROM_CHR_BANK_SIZE as nat),
        prg_ram,
        mirroring,
        chr_bank: 0,
    }
}

/// The pattern memory in use and the offset in it of the PPU address `addr`.
pub open spec fn cnrom_chr_index(s: CnromState, addr: u16) -> int {
    if s.chr_rom.len() != 0 {
        (s.chr_bank * 0x2000 + addr) % (s.chr_rom.len() as int)
    } else {
        (addr as int) % (s.chr_ram.len() as int)
    }
}

pub open spec fn cpu_ram_bytes(r: CpuRamState) -> Seq<u8> {
    match r {
        CpuRamState::Volatile(d) => d,
        CpuRamState::Persistent(d) => d,
    }
}

pub open spec fn cpu_ram_updated(r: CpuRamState, i: int, val: u8) -> CpuRamState {
    match r {
        CpuRamState::Volatile(d) => CpuRamState::Volatile(d.update(i, val)),
        CpuRamState::Persistent(d) => CpuRamState::Persistent(d.update(i, val)),
    }
}

impl InesMapper003 {
    /// Builds the board; `has_save` holds the battery-backed work RAM of a
    /// cartridge that keeps its saves, and `None` gives it plain work RAM.
    pub fn new(prg_rom: Box<[u8]>, chr_rom: Box<[u8]>, mirroring: Mirroring, has_save: Option<GameSave>) -> (m: Self)
        requires
            has_save matches Some(save) ==> save@.len() == SAVE_RAM_SIZE,
        ensures
            <InesMapper003 as Mapper>::well_formed(m@),
            m@ == cnrom_power_on(prg_rom@, chr_rom@, mirroring, match has_save {
                Some(save) => CpuRamState::Persistent(save@),
                None => CpuRamState::Volatile(Seq::new(SAVE_RAM_SIZE as nat, |i: int| 0u8)),
            }),
    {
        let prg_ram = if let Some(save) = has_save {
            CpuRam::Persistent(save)
        } else {
            CpuRam::Volatile([0u8; 0x2000])
        };
        let chr_ram: Vec<u8> = if chr_rom.len() == 0 { vec![0u8; CNROM_CHR_BANK_SIZE] } else { Vec::new() };
        let m = InesMapper003 { prg_rom, chr_rom, chr_ram, prg_ram, mirroring, chr_bank: 0 };
        proof {
            assert(m@.chr_ram =~= power_on_chr_ram(chr_rom@, CNROM_CHR_BANK_SIZE as nat));
            if let CpuRamState::Volatile(d) = m@.prg_ram {
                assert(d =~= Seq::new(SAVE_RAM_SIZE as nat, |i: int| 0u8));
            }
        }
        m
    }
}

impl Mapper for InesMapper003 {
    open spec fn well_formed(v: CnromState) -> bool {
        &&& cpu_ram_bytes(v.prg_ram).len() == SAVE_RAM_SIZE
        &&& v.chr_rom.len() == 0 ==> v.chr_ram.len() == CNROM_CHR_BANK_SIZE
    }

    open spec fn read_defined(v: CnromState, addr: u16) -> bool {
        0x8000 <= addr ==> v.prg_rom.len() > 0
    }

    open spec fn read_value(v: CnromState, addr: u16) -> u8 {
        if 0x6000 <= addr <= 0x7FFF {
            cpu_ram_bytes(v.prg_ram)[save_index(addr)]
        } else if 0x8000 <= addr {
            v.prg_rom[(addr - 0x8000) % (v.prg_rom.len() as int)]
        } else {
            0
        }
    }

    open spec fn write_defined(v: CnromState, addr: u16) -> bool {
        true
    }

    open spec fn written(v: CnromState, addr: u16, val: u8) -> CnromState {
        if 0x6000 <= addr <= 0x7FFF {
            CnromState { prg_ram: cpu_ram_updated(v.prg_ram, save_index(addr), val), ..v }
        } else if 0x8000 <= addr {
            CnromState { chr_bank: val, ..v }
        } else {
            v
        }
    }

    open spec fn chr_read_defined(v: CnromState, addr: u16) -> bool {
        true
    }

    open spec fn chr_value(v: CnromState, addr: u16) -> u8 {
        if v.chr_rom.len() != 0 {
            v.chr_rom[cnrom_chr_index(v, addr)]
        } else {
            v.chr_ram[cnrom_chr_index(v, addr)]
        }
    }

    open spec fn chr_write_defined(v: CnromState, addr: u16) -> bool {
        true
    }

    open spec fn chr_written(v: CnromState, addr: u16, val: u8) -> CnromState {
        if v.chr_rom.len() == 0 {
            CnromState { chr_ram: v.chr_ram.update(cnrom_chr_index(v, addr), val), ..v }
        } else {
            v
        }
    }

    open spec fn mirroring_defined(v: CnromState) -> bool {
        true
    }

    open spec fn arrangement(v: CnromState) -> Mirroring {
        v.mirroring
    }

    open spec fn irq_line(v: CnromState) -> bool {
        false
    }

    open spec fn irq_acknowledged(v: CnromState) -> CnromState {
        v
    }

    open spec fn ppu_address_defined(v: CnromState, addr: u16) -> bool {
        true
    }

    open spec fn ppu_address_seen(v: CnromState, addr: u16) -> CnromState {
        v
    }

    proof fn lemma_ppu_side_keeps_arrangement(v: CnromState, addr: u16, val: u8) {
    }

    fn read(&self, addr: u16) -> (r: u8) {
        if 0x6000 <= addr && addr <= 0x7FFF {
            match &self.prg_ram {
                CpuRam::Persistent(save) => save.read(addr),
                CpuRam::Volatile(data) => data[(addr - 0x6000) as usize],
            }
        } else if 0x8000 <= addr {
            self.prg_rom[(addr - 0x8000) as usize % self.prg_rom.len()]
        } else {
            0
        }
    }

    fn write(&mut self, addr: u16, val: u8) {
        if 0x6000 <= addr && addr <= 0x7FFF {
            match &mut self.prg_ram {
                CpuRam::Persistent(save) => save.write(addr, val),
                CpuRam::Volatile(data) => {
                    data[(addr - 0x6000) as usize] = val;
                },
            }
        } else if 0x8000 <= addr {
            self.chr_bank = val;
        }
    }

    fn read_chr(&self, addr: u16) -> (r: u8) {
        if self.chr_rom.len() != 0 {
            let offset = (self.chr_bank as usize) * CNROM_CHR_BANK_SIZE + addr as usize;
            self.chr_rom[offset % self.chr_rom.len()]
        } else {
            self.chr_ram[addr as usize % self.chr_ram.len()]
        }
    }

    fn write_chr(&mut self, addr: u16, val: u8) {
        if self.chr_rom.len() == 0 {
            let i = addr as usize % self.chr_ram.len();
            self.chr_ram.set(i, val);
        }
        // writes to CHR ROM are ignored
    }

    fn mirroring(&self) -> (m: Mirroring) {
        self.mirroring
    }

    fn irq_pending(&self) -> (r: bool) {
        false
    }

    fn acknowledge_irq(&mut self) {
    }

    fn notify_ppu_address(&mut self, addr: u16) {
    }
}

/// Work RAM reads back what was written, and a CHR bank write changes only
/// the bank that pattern memory shows.
pub proof fn law_cnrom_writes(s: CnromState, addr: u16, val: u8)
    requires
        <InesMapper003 as Mapper>::well_formed(s),
    ensures
        0x6000 <= addr <= 0x7FFF ==> <InesMapper003 as Mapper>::read_value(
            <InesMapper003 as Mapper>::written(s, addr, val),
            addr,
        ) == val,
        0x8000 <= addr ==> <InesMapper003 as Mapper>::written(s, addr, val) == (CnromState { chr_bank: val, ..s }),
{
}

impl InesMapper003 {
    /// The work RAM when it is battery-backed, to be kept between sessions.
    pub fn game_save(&self) -> (g: Option<&GameSave>)
        ensures
            g matches Some(s) ==> persistent_bytes(self@.prg_ram) == Some(s@),
            g is None ==> persistent_bytes(self@.prg_ram) is None,
    {
        self.prg_ram.persistent()
    }
}

/// CHR ROM shows the 8 KB bank last written to $8000-$FFFF, wrapped around
/// the CHR ROM; PRG ROM is fixed, its end repeating from $8000.
pub proof fn law_cnrom_chr_bank(s: CnromState, a: u16, x: u16)
    requires
        s.chr_rom.len() > 0,
        s.prg_rom.len() > 0,
        a < 0x2000,
        x < 0x8000,
    ensures
        <InesMapper003 as Mapper>::chr_value(s, a) == s.chr_rom[(s.chr_bank * 0x2000 + a) % (s.chr_rom.len() as int)],
        <InesMapper003 as Mapper>::read_value(s, (0x8000 + x) as u16) == s.prg_rom[(x as int) % (s.prg_rom.len() as int)],
{
}

} // verus!
