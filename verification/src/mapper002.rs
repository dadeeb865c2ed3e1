use vstd::prelude::*;

use crate::game_save::{GameSave, SAVE_RAM_SIZE, save_index};
use crate::mapper_base::{Mapper, Mirroring};

verus! {

/// Size of the CHR RAM of a UxROM board.
pub const UXROM_CHR_RAM_SIZE: usize = 8192;

/// Size of one switchable PRG ROM bank of a UxROM board.
pub const UXROM_BANK_SIZE: usize = 0x4000;

/// iNES mapper 2 (UxROM): a 16 KB PRG ROM bank at CPU $8000-$BFFF picked by
/// any write to $8000-$FFFF, the last 16 KB bank fixed at $C000-$FFFF,
/// 8 KB of CHR RAM, a fixed nametable arrangement and work RAM at
/// $6000-$7FFF. A bank number past the end of the ROM wraps around.
pub struct InesMapper002 {
    game_save: GameSave,
    prg_rom: Box<[u8]>,
    chr_ram: Vec<u8>,
    mirroring: Mirroring,
    bank: u8,
}

/// The state of a UxROM board.
pub struct UxromState {
    pub save: Seq<u8>,
    pub prg_rom: Seq<u8>,
    pub chr_ram: Seq<u8>,
    pub mirroring: Mirroring,
    pub bank: u8,
}

impl View for InesMapper002 {
    type V = UxromState;

    closed spec fn view(&self) -> UxromState {
        UxromState {
            save: self.game_save@,
            prg_rom: self.prg_rom@,
            chr_ram: self.chr_ram@,
            mirroring: self.mirroring,
            bank: self.bank,
        }
    }
}

/// The state of a freshly built board: bank 0 at $8000 and zeroed CHR RAM.
pub open spec fn uxrom_power_on(prg_rom: Seq<u8>, mirroring: Mirroring, save: Seq<u8>) -> UxromState {
    UxromState {
        save,
        prg_rom,
        chr_ram: Seq::new(UXROM_CHR_RAM_SIZE as nat, |i: int| 0u8),
        mirroring,
        bank: 0,
    }
}

/// Offset in the PRG ROM that the CPU address `addr` (at $8000 or above) selects.
pub open spec fn uxrom_prg_offset(s: UxromState, addr: u16) -> int {
    if addr <= 0xBFFF {
        s.bank * 0x4000 + (addr - 0x8000)
    } else {
        (s.prg_rom.len() / 0x4000 - 1) * 0x4000 + (addr - 0xC000)
    }
}

impl InesMapper002 {
    pub fn new(prg_rom: Box<[u8]>, mirroring: Mirroring, game_save: GameSave) -> (m: Self)
        requires
            game_save@.len() == SAVE_RAM_SIZE,
        ensures
            <InesMapper002 as Mapper>::well_formed(m@),
            m@ == uxrom_power_on(prg_rom@, mirroring, game_save@),
    {
        let chr_ram: Vec<u8> = vec![0u8; UXROM_CHR_RAM_SIZE];
        let m = InesMapper002 { game_save, prg_rom, chr_ram, mirroring, bank: 0 };
        proof {
            assert(m@.chr_ram =~= Seq::new(UXROM_CHR_RAM_SIZE as nat, |i: int| 0u8));
        }
        m
    }
}

impl Mapper for InesMapper002 {
    open spec fn well_formed(v: UxromState) -> bool {
        &&& v.save.len() == SAVE_RAM_SIZE
        &&& v.chr_ram.len() == UXROM_CHR_RAM_SIZE
    }

    open spec fn read_defined(v: UxromState, addr: u16) -> bool {
        &&& 0x8000 <= addr ==> v.prg_rom.len() > 0
        &&& 0xC000 <= addr ==> v.prg_rom.len() >= 0x4000
    }

    open spec fn read_value(v: UxromState, addr: u16) -> u8 {
        if 0x6000 <= addr <= 0x7FFF {
            v.save[save_index(addr)]
        } else if 0x8000 <= addr {
            v.prg_rom[uxrom_prg_offset(v, addr) % (v.prg_rom.len() as int)]
        } else {
            0
        }
    }

    open spec fn write_defined(v: UxromState, addr: u16) -> bool {
        true
    }

    open spec fn written(v: UxromState, addr: u16, val: u8) -> UxromState {
        if 0x6000 <= addr <= 0x7FFF {
            UxromState { save: v.save.update(save_index(addr), val), ..v }
        } else if 0x8000 <= addr {
            UxromState { bank: val, ..v }
        } else {
            v
        }
    }

    open spec fn chr_read_defined(v: UxromState, addr: u16) -> bool {
        true
    }

    open spec fn chr_value(v: UxromState, addr: u16) -> u8 {
        v.chr_ram[(addr as int) % (v.chr_ram.len() as int)]
    }

    open spec fn chr_write_defined(v: UxromState, addr: u16) -> bool {
        true
    }

    open spec fn chr_written(v: UxromState, addr: u16, val: u8) -> UxromState {
        UxromState { chr_ram: v.chr_ram.update((addr as int) % (v.chr_ram.len() as int), val), ..v }
    }

    open spec fn mirroring_defined(v: UxromState) -> bool {
        true
    }

    open spec fn arrangement(v: UxromState) -> Mirroring {
        v.mirroring
    }

    open spec fn irq_line(v: UxromState) -> bool {
        false
    }

    open spec fn irq_acknowledged(v: UxromState) -> UxromState {
        v
    }

    open spec fn ppu_address_defined(v: UxromState, addr: u16) -> bool {
        true
    }

    open spec fn ppu_address_seen(v: UxromState, addr: u16) -> UxromState {
        v
    }

    proof fn lemma_ppu_side_keeps_arrangement(v: UxromState, addr: u16, val: u8) {
    }

    fn read(&self, addr: u16) -> (r: u8) {
        if 0x6000 <= addr && addr <= 0x7FFF {
            self.game_save.read(addr)
        } else if 0x8000 <= addr && addr <= 0xBFFF {
            let offset = (self.bank as usize) * UXROM_BANK_SIZE + (addr - 0x8000) as usize;
            self.prg_rom[offset % self.prg_rom.len()]
        } else if 0xC000 <= addr {
            let last = self.prg_rom.len() / UXROM_BANK_SIZE - 1;
            let offset = last * UXROM_BANK_SIZE + (addr - 0xC000) as usize;
            self.prg_rom[offset % self.prg_rom.len()]
        } else {
            0
        }
    }

    fn write(&mut self, addr: u16, val: u8) {
        if 0x6000 <= addr && addr <= 0x7FFF {
            self.game_save.write(addr, val);
        } else if 0x8000 <= addr {
            self.bank = val;
        }
    }

    fn read_chr(&self, addr: u16) -> (r: u8) {
        self.chr_ram[addr as usize % self.chr_ram.len()]
    }

    fn write_chr(&mut self, addr: u16, val: u8) {
        let i = addr as usize % self.chr_ram.len();
        self.chr_ram.set(i, val);
    }

    fn mirroring(&self) -> (m: Mirroring) {
        self.mirroring
    }

    fn irq_pending(&self) -> (r: bool) {
        false
    }

    fn acknowledge_irq(&mut self) {
    }

    fn notify_ppu_address(&mut self, addr: u16) {
    }
}

/// $C000-$FFFF always shows the last 16 KB bank, whatever bank was picked.
pub proof fn law_uxrom_last_bank_fixed(s: UxromState, x: u16)
    requires
        s.prg_rom.len() >= 0x4000,
        s.prg_rom.len() % 0x4000 == 0,
        x < 0x4000,
    ensures
        <InesMapper002 as Mapper>::read_value(s, (0xC000 + x) as u16) == s.prg_rom[s.prg_rom.len() - 0x4000 + x],
{
    let len = s.prg_rom.len() as int;
    assert((len / 0x4000 - 1) * 0x4000 == len - 0x4000) by (nonlinear_arith)
        requires len % 0x4000 == 0, len >= 0x4000;
    vstd::arithmetic::div_mod::lemma_small_mod((len - 0x4000 + x) as nat, len as nat);
}

impl InesMapper002 {
    /// The battery-backed work RAM, to be kept between sessions.
    pub fn game_save(&self) -> (g: &GameSave)
        ensures
            g@ == self@.save,
    {
        &self.game_save
    }
}

/// $8000-$BFFF shows the 16 KB bank last written to $8000-$FFFF, wrapped
/// around the PRG ROM; work RAM reads back what was written to it.
pub proof fn law_uxrom_switchable_window(s: UxromState, x: u16, addr: u16, val: u8)
    requires
        s.prg_rom.len() > 0,
        x < 0x4000,
    ensures
        <InesMapper002 as Mapper>::read_value(s, (0x8000 + x) as u16) == s.prg_rom[(s.bank * 0x4000 + x) % (
        s.prg_rom.len() as int)],
        0x8000 <= addr ==> <InesMapper002 as Mapper>::written(s, addr, val) == (UxromState { bank: val, ..s }),
        0x6000 <= addr <= 0x7FFF && s.save.len() == 0x2000 ==> <InesMapper002 as Mapper>::read_value(
            <InesMapper002 as Mapper>::written(s, addr, val),
            addr,
        ) == val,
{
}

} // verus!
