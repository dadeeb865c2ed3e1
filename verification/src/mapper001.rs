use vstd::prelude::*;

use crate::game_save::{GameSave, SAVE_RAM_SIZE, save_index};
use crate::mapper004::power_on_chr_ram;
use crate::mapper_base::{Mapper, Mirroring};

verus! {

/// Size of the CHR RAM of an MMC1 board without CHR ROM.
pub const MMC1_CHR_RAM_SIZE: usize = 8192;

/// iNES mapper 1 (MMC1), https://www.nesdev.org/wiki/MMC1
///
/// The CPU loads its four registers one bit at a time: each write to
/// $8000-$FFFF shifts bit 0 of the data into a 5-bit shift register, and the
/// fifth write stores it in the register that address bits 13-14 pick
/// (control, CHR bank 0, CHR bank 1, PRG bank). A write with bit 7 set
/// empties the shift register and sets PRG mode 3.
///
/// Control: bits 0-1 arrangement (one-screen lower, one-screen upper,
/// vertical, horizontal), bits 2-3 PRG mode (0/1: 32 KB at $8000; 2: first
/// bank fixed at $8000, 16 KB switched at $C000; 3: 16 KB switched at $8000,
/// last bank fixed at $C000), bit 4 CHR mode (0: one 8 KB bank; 1: two 4 KB
/// banks). Bit 4 of the PRG bank register disables the work RAM at
/// $6000-$7FFF. Bank numbers past the end of a memory wrap around.
pub struct InesMapper001 {
    game_save: GameSave,
    prg_rom: Box<[u8]>,
    chr_rom: Box<[u8]>,
    chr_ram: Vec<u8>,
    shift_register: u8,
    shift_count: u8,
    control: u8,
    chr_bank0: u8,
    chr_bank1: u8,
    prg_bank: u8,
}

/// The state of an MMC1 board.
pub struct Mmc1State {
    pub save: Seq<u8>,
    pub prg_rom: Seq<u8>,
    pub chr_rom: Seq<u8>,
    pub chr_ram: Seq<u8>,
    pub shift_register: u8,
    pub shift_count: u8,
    pub control: u8,
    pub chr_bank0: u8,
    pub chr_bank1: u8,
    pub prg_bank: u8,
}

impl View for InesMapper001 {
    type V = Mmc1State;

    closed spec fn view(&self) -> Mmc1State {
        Mmc1State {
            save: self.game_save@,
            prg_rom: self.prg_rom@,
            chr_rom: self.chr_rom@,
            chr_ram: self.chr_ram@,
            shift_register: self.shift_register,
            shift_count: self.shift_count,
            control: self.control,
            chr_bank0: self.chr_bank0,
            chr_bank1: self.chr_bank1,
            prg_bank: self.prg_bank,
        }
    }
}

/// The state of a freshly built board: empty shift register, PRG mode 3,
/// all banks 0.
pub open spec fn mmc1_power_on(prg_rom: Seq<u8>, chr_rom: Seq<u8>, save: Seq<u8>) -> Mmc1State {
    Mmc1State {
        save,
        prg_rom,
        chr_rom,
        chr_ram: power_on_chr_ram(chr_rom, MMC1_CHR_RAM_SIZE as nat),
        shift_register: 0,
        shift_count: 0,
        control: 0x0C,
        chr_bank0: 0,
        chr_bank1: 0,
        prg_bank: 0,
    }
}

pub open spec fn mmc1_prg_mode(s: Mmc1State) -> u8 {
    (s.control >> 2u8) & 0x03
}

pub open spec fn mmc1_prg_ram_enabled(s: Mmc1State) -> bool {
    s.prg_bank & 0x10 == 0
}

/// Offset in the PRG ROM that the CPU address `addr` (at $8000 or above) selects.
pub open spec fn mmc1_prg_offset(s: Mmc1State, addr: u16) -> int {
    let bank = (s.prg_bank & 0x0F) as int;
    let mode = mmc1_prg_mode(s);
    if mode <= 1 {
        ((s.prg_bank & 0x0E) as int) * 0x4000 + (addr - 0x8000)
    } else if mode == 2 {
        if addr <= 0xBFFF {
            addr - 0x8000
        } else {
            bank * 0x4000 + (addr - 0xC000)
        }
    } else {
        if addr <= 0xBFFF {
            bank * 0x4000 + (addr - 0x8000)
        } else {
            (s.prg_rom.len() / 0x4000 - 1) * 0x4000 + (addr - 0xC000)
        }
    }
}

/// The pattern memory in use: CHR ROM when present, else CHR RAM.
pub open spec fn mmc1_pattern_memory(s: Mmc1State) -> Seq<u8> {
    if s.chr_rom.len() != 0 {
        s.chr_rom
    } else {
        s.chr_ram
    }
}

/// Offset in pattern memory, before wrapping, of the PPU address `addr`.
pub open spec fn mmc1_chr_offset(s: Mmc1State, addr: u16) -> int {
    if s.control & 0x10 == 0 {
        ((s.chr_bank0 & 0x1E) as int) * 0x1000 + addr
    } else if addr <= 0x0FFF {
        s.chr_bank0 * 0x1000 + addr
    } else {
        s.chr_bank1 * 0x1000 + (addr - 0x1000)
    }
}

pub open spec fn mmc1_chr_index(s: Mmc1State, addr: u16) -> int {
    mmc1_chr_offset(s, addr) % (mmc1_pattern_memory(s).len() as int)
}

/// The shift register after bit 0 of `val` is shifted in at its top.
pub open spec fn mmc1_shifted(s: Mmc1State, val: u8) -> u8 {
    (s.shift_register >> 1u8) | ((val & 1) << 4u8)
}

/// The state after the CPU writes `val` at `addr`.
pub open spec fn mmc1_after_write(s: Mmc1State, addr: u16, val: u8) -> Mmc1State {
    if 0x6000 <= addr <= 0x7FFF {
        if mmc1_prg_ram_enabled(s) {
            Mmc1State { save: s.save.update(save_index(addr), val), ..s }
        } else {
            s
        }
    } else if 0x8000 <= addr {
        if val & 0x80 != 0 {
            Mmc1State { shift_register: 0, shift_count: 0, control: s.control | 0x0C, ..s }
        } else {
            let value = mmc1_shifted(s, val);
            if s.shift_count + 1 == 5 {
                let emptied = Mmc1State { shift_register: 0, shift_count: 0, ..s };
                if addr <= 0x9FFF {
                    Mmc1State { control: value, ..emptied }
                } else if addr <= 0xBFFF {
                    Mmc1State { chr_bank0: value, ..emptied }
                } else if addr <= 0xDFFF {
                    Mmc1State { chr_bank1: value, ..emptied }
                } else {
                    Mmc1State { prg_bank: value, ..emptied }
                }
            } else {
                Mmc1State { shift_register: value, shift_count: (s.shift_count + 1) as u8, ..s }
            }
        }
    } else {
        s
    }
}

impl InesMapper001 {
    pub fn new(prg_rom: Box<[u8]>, chr_rom: Box<[u8]>, game_save: GameSave) -> (m: Self)
        requires
            game_save@.len() == SAVE_RAM_SIZE,
        ensures
            <InesMapper001 as Mapper>::well_formed(m@),
            m@ == mmc1_power_on(prg_rom@, chr_rom@, game_save@),
    {
        let chr_ram: Vec<u8> = if chr_rom.len() == 0 { vec![0u8; MMC1_CHR_RAM_SIZE] } else { Vec::new() };
        let m = InesMapper001 {
            game_save,
            prg_rom,
            chr_rom,
            chr_ram,
            shift_register: 0,
            shift_count: 0,
            control: 0x0C,
            chr_bank0: 0,
            chr_bank1: 0,
            prg_bank: 0,
        };
        proof {
            assert(m@.chr_ram =~= power_on_chr_ram(chr_rom@, MMC1_CHR_RAM_SIZE as nat));
        }
        m
    }

    fn prg_offset(&self, addr: u16) -> (offset: usize)
        requires
            0x8000 <= addr,
            <InesMapper001 as Mapper>::read_defined(self@, addr),
        ensures
            offset == mmc1_prg_offset(self@, addr),
    {
        let bank = (self.prg_bank & 0x0F) as usize;
        let mode = (self.control >> 2) & 0x03;
        proof {
            let c = self.control;
            assert((c >> 2u8) & 0x03 <= 3) by (bit_vector);
        }
        if mode <= 1 {
            ((self.prg_bank & 0x0E) as usize) * 0x4000 + (addr - 0x8000) as usize
        } else if mode == 2 {
            if addr <= 0xBFFF {
                (addr - 0x8000) as usize
            } else {
                bank * 0x4000 + (addr - 0xC000) as usize
            }
        } else {
            if addr <= 0xBFFF {
                bank * 0x4000 + (addr - 0x8000) as usize
            } else {
                (self.prg_rom.len() / 0x4000 - 1) * 0x4000 + (addr - 0xC000) as usize
            }
        }
    }

    fn chr_index(&self, addr: u16) -> (i: usize)
        requires
            <InesMapper001 as Mapper>::well_formed(self@),
        ensures
            i == mmc1_chr_index(self@, addr),
            i < mmc1_pattern_memory(self@).len(),
    {
        let offset: usize = if self.control & 0x10 == 0 {
            ((self.chr_bank0 & 0x1E) as usize) * 0x1000 + addr as usize
        } else if addr <= 0x0FFF {
            (self.chr_bank0 as usize) * 0x1000 + addr as usize
        } else {
            (self.chr_bank1 as usize) * 0x1000 + (addr - 0x1000) as usize
        };
        let len = if self.chr_rom.len() != 0 { self.chr_rom.len() } else { self.chr_ram.len() };
        offset % len
    }
}

impl Mapper for InesMapper001 {
    open spec fn well_formed(v: Mmc1State) -> bool {
        &&& v.save.len() == SAVE_RAM_SIZE
        &&& v.chr_rom.len() == 0 ==> v.chr_ram.len() == MMC1_CHR_RAM_SIZE
        &&& v.shift_count < 5
        &&& v.shift_register <= 0x1F
    }

    open spec fn read_defined(v: Mmc1State, addr: u16) -> bool {
        &&& 0x8000 <= addr ==> v.prg_rom.len() > 0
        &&& 0xC000 <= addr && mmc1_prg_mode(v) == 3 ==> v.prg_rom.len() >= 0x4000
    }

    open spec fn read_value(v: Mmc1State, addr: u16) -> u8 {
        if 0x6000 <= addr <= 0x7FFF {
            if mmc1_prg_ram_enabled(v) {
                v.save[save_index(addr)]
            } else {
                0
            }
        } else if 0x8000 <= addr {
            v.prg_rom[mmc1_prg_offset(v, addr) % (v.prg_rom.len() as int)]
        } else {
            0
        }
    }

    open spec fn write_defined(v: Mmc1State, addr: u16) -> bool {
        true
    }

    open spec fn written(v: Mmc1State, addr: u16, val: u8) -> Mmc1State {
        mmc1_after_write(v, addr, val)
    }

    open spec fn chr_read_defined(v: Mmc1State, addr: u16) -> bool {
        true
    }

    open spec fn chr_value(v: Mmc1State, addr: u16) -> u8 {
        mmc1_pattern_memory(v)[mmc1_chr_index(v, addr)]
    }

    open spec fn chr_write_defined(v: Mmc1State, addr: u16) -> bool {
        true
    }

    open spec fn chr_written(v: Mmc1State, addr: u16, val: u8) -> Mmc1State {
        if v.chr_rom.len() == 0 {
            Mmc1State { chr_ram: v.chr_ram.update(mmc1_chr_index(v, addr), val), ..v }
        } else {
            v
        }
    }

    open spec fn mirroring_defined(v: Mmc1State) -> bool {
        true
    }

    open spec fn arrangement(v: Mmc1State) -> Mirroring {
        let m = v.control & 0x03;
        if m == 0 {
            Mirroring::SingleScreenLower
        } else if m == 1 {
            Mirroring::SingleScreenUpper
        } else if m == 2 {
            Mirroring::Vertical
        } else {
            Mirroring::Horizontal
        }
    }

    open spec fn irq_line(v: Mmc1State) -> bool {
        false
    }

    open spec fn irq_acknowledged(v: Mmc1State) -> Mmc1State {
        v
    }

    open spec fn ppu_address_defined(v: Mmc1State, addr: u16) -> bool {
        true
    }

    open spec fn ppu_address_seen(v: Mmc1State, addr: u16) -> Mmc1State {
        v
    }

    proof fn lemma_ppu_side_keeps_arrangement(v: Mmc1State, addr: u16, val: u8) {
    }

    fn read(&self, addr: u16) -> (r: u8) {
        if 0x6000 <= addr && addr <= 0x7FFF {
            if self.prg_bank & 0x10 == 0 {
                self.game_save.read(addr)
            } else {
                0
            }
        } else if 0x8000 <= addr {
            let offset = self.prg_offset(addr);
            self.prg_rom[offset % self.prg_rom.len()]
        } else {
            0
        }
    }

    fn write(&mut self, addr: u16, val: u8) {
        if 0x6000 <= addr && addr <= 0x7FFF {
            if self.prg_bank & 0x10 == 0 {
                self.game_save.write(addr, val);
            }
        } else if 0x8000 <= addr {
            if val & 0x80 != 0 {
                // reset: empty the shift register, PRG mode 3
                self.shift_register = 0;
                self.shift_count = 0;
                self.control = self.control | 0x0C;
            } else {
                let value = (self.shift_register >> 1) | ((val & 1) << 4);
                proof {
                    let r = self.shift_register;
                    assert(r <= 0x1F ==> (r >> 1u8) | ((val & 1) << 4u8) <= 0x1F) by (bit_vector);
                }
                if self.shift_count + 1 == 5 {
                    if addr <= 0x9FFF {
                        self.control = value;
                    } else if addr <= 0xBFFF {
                        self.chr_bank0 = value;
                    } else if addr <= 0xDFFF {
                        self.chr_bank1 = value;
                    } else {
                        self.prg_bank = value;
                    }
                    self.shift_register = 0;
                    self.shift_count = 0;
                } else {
                    self.shift_register = value;
                    self.shift_count = self.shift_count + 1;
                }
            }
        }
    }

    fn read_chr(&self, addr: u16) -> (r: u8) {
        let i = self.chr_index(addr);
        if self.chr_rom.len() != 0 {
            self.chr_rom[i]
        } else {
            self.chr_ram[i]
        }
    }

    fn write_chr(&mut self, addr: u16, val: u8) {
        if self.chr_rom.len() == 0 {
            let i = self.chr_index(addr);
            self.chr_ram.set(i, val);
        }
        // writes to CHR ROM are ignored
    }

    fn mirroring(&self) -> (m: Mirroring) {
        let m = self.control & 0x03;
        if m == 0 {
            Mirroring::SingleScreenLower
        } else if m == 1 {
            Mirroring::SingleScreenUpper
        } else if m == 2 {
            Mirroring::Vertical
        } else {
            Mirroring::Horizontal
        }
    }

    fn irq_pending(&self) -> (r: bool) {
        false
    }

    fn acknowledge_irq(&mut self) {
    }

    fn notify_ppu_address(&mut self, addr: u16) {
    }
}

/// The register that a write to `addr` (at $8000 or above) loads.
pub open spec fn mmc1_register(s: Mmc1State, addr: u16) -> u8 {
    if addr <= 0x9FFF {
        s.control
    } else if addr <= 0xBFFF {
        s.chr_bank0
    } else if addr <= 0xDFFF {
        s.chr_bank1
    } else {
        s.prg_bank
    }
}

/// The value that five serial writes of `v` carry: bit 0 of each, first
/// write lowest.
pub open spec fn mmc1_serial_value(v: Seq<u8>) -> u8 {
    (v[0] & 1) | ((v[1] & 1) << 1u8) | ((v[2] & 1) << 2u8) | ((v[3] & 1) << 3u8) | ((v[4] & 1) << 4u8)
}

/// From an empty shift register, five writes to one register window (none
/// with bit 7 set) load that register with bit 0 of each write, first
/// write lowest, and leave the shift register empty.
pub proof fn law_mmc1_serial_load(s: Mmc1State, addr: u16, v: Seq<u8>)
    requires
        <InesMapper001 as Mapper>::well_formed(s),
        s.shift_count == 0,
        0x8000 <= addr,
        v.len() == 5,
        forall|i: int| 0 <= i < 5 ==> #[trigger] v[i] & 0x80 == 0,
    ensures
        ({
            let t = mmc1_after_write(
                mmc1_after_write(
                    mmc1_after_write(mmc1_after_write(mmc1_after_write(s, addr, v[0]), addr, v[1]), addr, v[2]),
                    addr,
                    v[3],
                ),
                addr,
                v[4],
            );
            &&& mmc1_register(t, addr) == mmc1_serial_value(v)
            &&& t.shift_count == 0
            &&& t.shift_register == 0
        }),
{
    let (a, b, c, d, e) = (v[0], v[1], v[2], v[3], v[4]);
    assert(v[0] & 0x80 == 0 && v[1] & 0x80 == 0 && v[2] & 0x80 == 0 && v[3] & 0x80 == 0 && v[4] & 0x80 == 0);
    let r = s.shift_register;
    assert(r <= 0x1F ==> ((((((((((r >> 1u8) | ((a & 1) << 4u8)) >> 1u8) | ((b & 1) << 4u8)) >> 1u8) | ((c & 1)
        << 4u8)) >> 1u8) | ((d & 1) << 4u8)) >> 1u8) | ((e & 1) << 4u8)) == (a & 1) | ((b & 1) << 1u8) | ((c
        & 1) << 2u8) | ((d & 1) << 3u8) | ((e & 1) << 4u8)) by (bit_vector);
}

/// A write with bit 7 set empties the shift register and sets PRG mode 3,
/// keeping the arrangement and CHR mode bits.
pub proof fn law_mmc1_reset(s: Mmc1State, addr: u16, val: u8)
    requires
        0x8000 <= addr,
        val & 0x80 != 0,
    ensures
        mmc1_after_write(s, addr, val).shift_count == 0,
        mmc1_after_write(s, addr, val).shift_register == 0,
        mmc1_prg_mode(mmc1_after_write(s, addr, val)) == 3,
        mmc1_after_write(s, addr, val).control & 0x13 == s.control & 0x13,
{
    let c = s.control;
    assert((((c | 0x0C) >> 2u8) & 0x03) == 3 && ((c | 0x0C) & 0x13) == (c & 0x13)) by (bit_vector);
}

impl InesMapper001 {
    /// The battery-backed work RAM, to be kept between sessions.
    pub fn game_save(&self) -> (g: &GameSave)
        ensures
            g@ == self@.save,
    {
        &self.game_save
    }
}

/// The MMC1 windows. PRG: modes 0 and 1 show a 32 KB bank (PRG bank
/// register with bit 0 ignored) at $8000; mode 2 fixes the first 16 KB
/// bank at $8000 and switches $C000; mode 3 switches $8000 and fixes the
/// last 16 KB bank at $C000. CHR: mode 0 shows an 8 KB bank (CHR bank 0
/// with bit 0 ignored), mode 1 two 4 KB banks from CHR bank 0 and CHR bank
/// 1. Bits 0-1 of the control register give the arrangement: one-screen
/// lower, one-screen upper, vertical, horizontal.
pub proof fn law_mmc1_windows(s: Mmc1State, x: u16, a: u16)
    requires
        x < 0x4000,
        a < 0x1000,
    ensures
        (s.control / 4) % 4 <= 1 ==> mmc1_prg_offset(s, (0x8000 + x) as u16) == (s.prg_bank % 16 / 2 * 2)
            * 0x4000 + x && mmc1_prg_offset(s, (0xC000 + x) as u16) == (s.prg_bank % 16 / 2 * 2) * 0x4000
            + 0x4000 + x,
        (s.control / 4) % 4 == 2 ==> mmc1_prg_offset(s, (0x8000 + x) as u16) == x && mmc1_prg_offset(
            s,
            (0xC000 + x) as u16,
        ) == (s.prg_bank % 16) * 0x4000 + x,
        (s.control / 4) % 4 == 3 ==> mmc1_prg_offset(s, (0x8000 + x) as u16) == (s.prg_bank % 16) * 0x4000 + x
            && mmc1_prg_offset(s, (0xC000 + x) as u16) == (s.prg_rom.len() / 0x4000 - 1) * 0x4000 + x,
        (s.control / 16) % 2 == 0 ==> mmc1_chr_offset(s, a) == (s.chr_bank0 % 32 / 2 * 2) * 0x1000 + a
            && mmc1_chr_offset(s, (0x1000 + a) as u16) == (s.chr_bank0 % 32 / 2 * 2) * 0x1000 + 0x1000 + a,
        (s.control / 16) % 2 == 1 ==> mmc1_chr_offset(s, a) == s.chr_bank0 * 0x1000 + a && mmc1_chr_offset(
            s,
            (0x1000 + a) as u16,
        ) == s.chr_bank1 * 0x1000 + a,
        <InesMapper001 as Mapper>::arrangement(s) == (if s.control % 4 == 0 {
            Mirroring::SingleScreenLower
        } else if s.control % 4 == 1 {
            Mirroring::SingleScreenUpper
        } else if s.control % 4 == 2 {
            Mirroring::Vertical
        } else {
            Mirroring::Horizontal
        }),
        mmc1_prg_ram_enabled(s) == ((s.prg_bank / 16) % 2 == 0),
{
    let (c, p, b0) = (s.control, s.prg_bank, s.chr_bank0);
    assert(((c >> 2u8) & 0x03) == (c / 4) % 4 && (c & 0x10 == 0) == ((c / 16) % 2 == 0) && (c & 0x03) == c % 4
        && (p & 0x0F) == p % 16 && (p & 0x0E) == p % 16 / 2 * 2 && (b0 & 0x1E) == b0 % 32 / 2 * 2
        && (p & 0x10 == 0) == ((p / 16) % 2 == 0)) by (bit_vector);
}

} // verus!
