use vstd::prelude::*;

use crate::game_save::{GameSave, SAVE_RAM_SIZE, save_index};
use crate::mapper_base::{CpuRam, CpuRamState, Mapper, Mirroring, persistent_bytes};

verus! {

/// iNES mapper 9 (MMC2). Only its work RAM at CPU `$6000-$7FFF` is wired up;
/// its pattern memory and its nametable arrangement are not served yet.
pub struct InesMapper009 {
    prg_rom: Box<[u8]>,
    chr_rom: Box<[u8]>,
    prg_ram: CpuRam,
    mirroring: Mirroring,
    banks: [u8; 5],
}

/// The state of an MMC2 board.
pub struct Mmc2State {
    pub prg_rom: Seq<u8>,
    pub chr_rom: Seq<u8>,
    pub prg_ram: CpuRamState,
    pub mirroring: Mirroring,
    pub banks: Seq<u8>,
}

/// The state of a freshly built board.
pub open spec fn mmc2_power_on(prg_rom: Seq<u8>, chr_rom: Seq<u8>, mirroring: Mirroring, prg_ram: CpuRamState) -> Mmc2State {
    Mmc2State { prg_rom, chr_rom, prg_ram, mirroring, banks: Seq::new(5, |i: int| 0u8), }
}

impl View for InesMapper009 {
    type V = Mmc2State;

    closed spec fn view(&self) -> Mmc2State {
        Mmc2State {
            prg_rom: self.prg_rom@,
            chr_rom: self.chr_rom@,
            prg_ram: self.prg_ram@,
            mirroring: self.mirroring,
            banks: self.banks@,
        }
    }
}

/// Index in the plain work RAM that the CPU address `addr` uses: the 2 KiB
/// below it repeat over the window.
pub open spec fn volatile_ram_index(addr: u16) -> int {
    ((addr - 0x6000) as usize & 0x07FF) as int
}

proof fn lemma_volatile_index(addr: u16)
    requires
        0x6000 <= addr <= 0x7FFF,
    ensures
        0 <= volatile_ram_index(addr) < 0x800,
{
    let d = (addr - 0x6000) as usize;
    assert(d & 0x07FF < 0x800) by (bit_vector);
}

impl InesMapper009 {
    /// Builds the board; `has_save` holds the battery-backed work RAM of a
    /// cartridge that keeps its saves, and `None` gives it plain work RAM.
    pub fn new(prg_rom: Box<[u8]>, chr_rom: Box<[u8]>, mirroring: Mirroring, has_save: Option<GameSave>) -> (m: Self)
        requires
            has_save matches Some(save) ==> save@.len() == SAVE_RAM_SIZE,
        ensures
            <InesMapper009 as Mapper>::well_formed(m@),
            m@ == mmc2_power_on(prg_rom@, chr_rom@, mirroring, match has_save {
                Some(save) => CpuRamState::Persistent(save@),
                None => CpuRamState::Volatile(Seq::new(SAVE_RAM_SIZE as nat, |i: int| 0u8)),
            }),
    {
        let prg_ram = if let Some(save) = has_save {
            CpuRam::Persistent(save)
        } else {
            CpuRam::Volatile([0u8; 0x2000])
        };
        let m = Self { prg_rom, chr_rom, prg_ram, mirroring, banks: [0u8; 5] };
        proof {
            assert(m@.banks =~= Seq::new(5, |i: int| 0u8));
            if let CpuRamState::Volatile(d) = m@.prg_ram {
                assert(d =~= Seq::new(SAVE_RAM_SIZE as nat, |i: int| 0u8));
            }
        }
        m
    }
}

impl Mapper for InesMapper009 {
    open spec fn well_formed(v: Mmc2State) -> bool {
        &&& v.banks.len() == 5
        &&& match v.prg_ram {
            CpuRamState::Volatile(d) => d.len() == SAVE_RAM_SIZE,
            CpuRamState::Persistent(d) => d.len() == SAVE_RAM_SIZE,
        }
    }

    open spec fn read_defined(v: Mmc2State, addr: u16) -> bool {
        true
    }

    /// Plain work RAM reads as 0: its contents are never served.
    open spec fn read_value(v: Mmc2State, addr: u16) -> u8 {
        if 0x6000 <= addr <= 0x7FFF {
            match v.prg_ram {
                CpuRamState::Persistent(d) => d[save_index(addr)],
                CpuRamState::Volatile(d) => 0,
            }
        } else {
            0
        }
    }

    open spec fn write_defined(v: Mmc2State, addr: u16) -> bool {
        true
    }

    open spec fn written(v: Mmc2State, addr: u16, val: u8) -> Mmc2State {
        if 0x6000 <= addr <= 0x7FFF {
            match v.prg_ram {
                CpuRamState::Persistent(d) => Mmc2State {
                    prg_ram: CpuRamState::Persistent(d.update(save_index(addr), val)),
                    ..v
                },
                CpuRamState::Volatile(d) => Mmc2State {
                    prg_ram: CpuRamState::Volatile(d.update(volatile_ram_index(addr), val)),
                    ..v
                },
            }
        } else {
            v
        }
    }

    open spec fn chr_read_defined(v: Mmc2State, addr: u16) -> bool {
        false
    }

    open spec fn chr_value(v: Mmc2State, addr: u16) -> u8 {
        0
    }

    open spec fn chr_write_defined(v: Mmc2State, addr: u16) -> bool {
        false
    }

    open spec fn chr_written(v: Mmc2State, addr: u16, val: u8) -> Mmc2State {
        v
    }

    open spec fn mirroring_defined(v: Mmc2State) -> bool {
        false
    }

    open spec fn arrangement(v: Mmc2State) -> Mirroring {
        v.mirroring
    }

    open spec fn irq_line(v: Mmc2State) -> bool {
        false
    }

    open spec fn irq_acknowledged(v: Mmc2State) -> Mmc2State {
        v
    }

    open spec fn ppu_address_defined(v: Mmc2State, addr: u16) -> bool {
        true
    }

    open spec fn ppu_address_seen(v: Mmc2State, addr: u16) -> Mmc2State {
        v
    }

    proof fn lemma_ppu_side_keeps_arrangement(v: Mmc2State, addr: u16, val: u8) {
    }

    fn read(&self, addr: u16) -> (r: u8) {
        if 0x6000 <= addr && addr <= 0x7FFF {
            match &self.prg_ram {
                CpuRam::Persistent(save) => save.read(addr),
                CpuRam::Volatile(data) => {
                    if data.len() == 0 {
                        let index = (addr - 0x6000) as usize & 0x07FF;
                        data[index]
                    } else {
                        0
                    }
                },
            }
        } else {
            0
        }
    }

    fn write(&mut self, addr: u16, val: u8) {
        if 0x6000 <= addr && addr <= 0x7FFF {
            proof { lemma_volatile_index(addr); }
            match &mut self.prg_ram {
                CpuRam::Persistent(save) => save.write(addr, val),
                CpuRam::Volatile(data) => {
                    if data.len() != 0 {
                        let index = (addr - 0x6000) as usize & 0x07FF;
                        data[index] = val;
                    }
                },
            }
        }
    }

    /// Not served by this board: callers cannot meet its `requires`.
    fn read_chr(&self, addr: u16) -> (r: u8) {
        0
    }

    /// Not served by this board: callers cannot meet its `requires`.
    fn write_chr(&mut self, addr: u16, val: u8) {
    }

    /// Not served by this board: callers cannot meet its `requires`.
    fn mirroring(&self) -> (m: Mirroring) {
        self.mirroring
    }

    fn irq_pending(&self) -> (r: bool) {
        false
    }

    fn acknowledge_irq(&mut self) {
    }

    fn notify_ppu_address(&mut self, addr: u16) {
    }
}

impl InesMapper009 {
    /// The work RAM when it is battery-backed, to be kept between sessions.
    pub fn game_save(&self) -> (g: Option<&GameSave>)
        ensures
            g matches Some(s) ==> persistent_bytes(self@.prg_ram) == Some(s@),
            g is None ==> persistent_bytes(self@.prg_ram) is None,
    {
        self.prg_ram.persistent()
    }
}

} // verus!
