use vstd::prelude::*;

use crate::game_save::{GameSave, SAVE_RAM_SIZE};
use crate::mapper_base::{CpuRam, CpuRamState, Mapper, Mirroring, persistent_bytes};

verus! {

/// iNES mapper 10 (MMC4). Only its nametable arrangement is served yet; CPU
/// and pattern memory accesses are not.
pub struct InesMapper010 {
    prg_rom: Box<[u8]>,
    chr_rom: Box<[u8]>,
    prg_ram: CpuRam,
    mirroring: Mirroring,
    bank_select: u8,
}

/// The state of an MMC4 board.
pub struct Mmc4State {
    pub prg_rom: Seq<u8>,
    pub chr_rom: Seq<u8>,
    pub prg_ram: CpuRamState,
    pub mirroring: Mirroring,
    pub bank_select: u8,
}

/// The state of a freshly built board.
pub open spec fn mmc4_power_on(prg_rom: Seq<u8>, chr_rom: Seq<u8>, mirroring: Mirroring, prg_ram: CpuRamState) -> Mmc4State {
    Mmc4State { prg_rom, chr_rom, prg_ram, mirroring, bank_select: 0, }
}

impl View for InesMapper010 {
    type V = Mmc4State;

    closed spec fn view(&self) -> Mmc4State {
        Mmc4State {
            prg_rom: self.prg_rom@,
            chr_rom: self.chr_rom@,
            prg_ram: self.prg_ram@,
            mirroring: self.mirroring,
            bank_select: self.bank_select,
        }
    }
}

impl InesMapper010 {
    /// Builds the board; `has_save` holds the battery-backed work RAM of a
    /// cartridge that keeps its saves, and `None` gives it plain work RAM.
    pub fn new(prg_rom: Box<[u8]>, chr_rom: Box<[u8]>, mirroring: Mirroring, has_save: Option<GameSave>) -> (m: Self)
        requires
            has_save matches Some(save) ==> save@.len() == SAVE_RAM_SIZE,
        ensures
            <InesMapper010 as Mapper>::well_formed(m@),
            m@ == mmc4_power_on(prg_rom@, chr_rom@, mirroring, match has_save {
                Some(save) => CpuRamState::Persistent(save@),
                None => CpuRamState::Volatile(Seq::new(SAVE_RAM_SIZE as nat, |i: int| 0u8)),
            }),
    {
        let prg_ram = if let Some(save) = has_save {
            CpuRam::Persistent(save)
        } else {
            CpuRam::Volatile([0u8; 0x2000])
        };
        let m = Self { prg_rom, chr_rom, prg_ram, mirroring, bank_select: 0 };
        proof {
            if let CpuRamState::Volatile(d) = m@.prg_ram {
                assert(d =~= Seq::new(SAVE_RAM_SIZE as nat, |i: int| 0u8));
            }
        }
        m
    }
}

impl Mapper for InesMapper010 {
    open spec fn well_formed(v: Mmc4State) -> bool {
        match v.prg_ram {
            CpuRamState::Volatile(d) => d.len() == SAVE_RAM_SIZE,
            CpuRamState::Persistent(d) => d.len() == SAVE_RAM_SIZE,
        }
    }

    open spec fn read_defined(v: Mmc4State, addr: u16) -> bool {
        false
    }

    open spec fn read_value(v: Mmc4State, addr: u16) -> u8 {
        0
    }

    open spec fn write_defined(v: Mmc4State, addr: u16) -> bool {
        false
    }

    open spec fn written(v: Mmc4State, addr: u16, val: u8) -> Mmc4State {
        v
    }

    open spec fn chr_read_defined(v: Mmc4State, addr: u16) -> bool {
        false
    }

    open spec fn chr_value(v: Mmc4State, addr: u16) -> u8 {
        0
    }

    open spec fn chr_write_defined(v: Mmc4State, addr: u16) -> bool {
        false
    }

    open spec fn chr_written(v: Mmc4State, addr: u16, val: u8) -> Mmc4State {
        v
    }

    open spec fn mirroring_defined(v: Mmc4State) -> bool {
        true
    }

    open spec fn arrangement(v: Mmc4State) -> Mirroring {
        v.mirroring
    }

    open spec fn irq_line(v: Mmc4State) -> bool {
        false
    }

    open spec fn irq_acknowledged(v: Mmc4State) -> Mmc4State {
        v
    }

    open spec fn ppu_address_defined(v: Mmc4State, addr: u16) -> bool {
        true
    }

    open spec fn ppu_address_seen(v: Mmc4State, addr: u16) -> Mmc4State {
        v
    }

    proof fn lemma_ppu_side_keeps_arrangement(v: Mmc4State, addr: u16, val: u8) {
    }

    /// Not served by this board: callers cannot meet its `requires`.
    fn read(&self, addr: u16) -> (r: u8) {
        0
    }

    /// Not served by this board: callers cannot meet its `requires`.
    fn write(&mut self, addr: u16, val: u8) {
    }

    /// Not served by this board: callers cannot meet its `requires`.
    fn read_chr(&self, addr: u16) -> (r: u8) {
        0
    }

    /// Not served by this board: callers cannot meet its `requires`.
    fn write_chr(&mut self, addr: u16, val: u8) {
    }

    fn mirroring(&self) -> (m: Mirroring) {
        self.mirroring
    }

    fn irq_pending(&self) -> (r: bool) {
        false
    }

    fn acknowledge_irq(&mut self) {
    }

    fn notify_ppu_address(&mut self, addr: u16) {
    }
}

impl InesMapper010 {
    /// The work RAM when it is battery-backed, to be kept between sessions.
    pub fn game_save(&self) -> (g: Option<&GameSave>)
        ensures
            g matches Some(s) ==> persistent_bytes(self@.prg_ram) == Some(s@),
            g is None ==> persistent_bytes(self@.prg_ram) is None,
    {
        self.prg_ram.persistent()
    }
}

} // verus!
