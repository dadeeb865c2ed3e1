use vstd::prelude::*;

use crate::game_save::{GameSave, SAVE_RAM_SIZE, save_index};
use crate::mapper_base::{Mapper, Mirroring};
use crate::ppubus::{PpuBusState, ppu_addr, ppubus_after_read, ppubus_after_write, ppubus_value, ppubus_well_formed};

verus! {

/// Size of one switchable PRG ROM bank of the MMC3.
pub const PRG_BANK_SIZE: usize = 8192;

/// Size of the CHR RAM that an MMC3 board carries when it has no CHR ROM.
pub const CHR_RAM_SIZE: usize = 8192;

/// http://nesdev.org/wiki/MMC3
///
/// ### BANKS
///
/// CPU **$6000-$7FFF** 8 KB PRG RAM bank (optional)
///
/// CPU **$8000-$9FFF** (or $C000-$DFFF): 8 KB switchable PRG ROM bank
///
/// CPU **$A000-$BFFF** 8 KB switchable PRG ROM bank
///
/// CPU **$C000-$DFFF** (or $8000-$9FFF): 8 KB PRG ROM bank, fixed to the second-last bank
///
/// CPU **$E000-$FFFF** 8 KB PRG ROM bank, fixed to the last bank
///
/// PPU **$0000-$07FF** (or $1000-$17FF): 2 KB switchable CHR bank
///
/// PPU **$0800-$0FFF** (or $1800-$1FFF): 2 KB switchable CHR bank
///
/// PPU **$1000-$13FF** (or $0000-$03FF): 1 KB switchable CHR bank
///
/// PPU **$1400-$17FF** (or $0400-$07FF): 1 KB switchable CHR bank
///
/// PPU **$1800-$1BFF** (or $0800-$0BFF): 1 KB switchable CHR bank
///
/// PPU **$1C00-$1FFF** (or $0C00-$0FFF): 1 KB switchable CHR bank
pub struct InesMapper004 {
    /// $6000-$7FFF
    game_save: GameSave,
    prg_rom: Box<[u8]>,
    chr_rom: Box<[u8]>,
    chr_ram: Vec<u8>,
    mirroring: Mirroring,
    bank_select_register: u8,
    /// The eight bank registers R0-R7; the low three bits of the bank select
    /// register pick the one that the next write to bank data updates:
    /// R0/R1 select 2 KB CHR banks, R2-R5 select 1 KB CHR banks,
    /// R6/R7 select 8 KB PRG ROM banks.
    bank_registers: [u8; 8],
    bank_select: usize,
    irq_counter: u8,
    irq_latch: u8,
    irq_enabled: bool,
    irq_pending: bool,
    irq_reload: bool,
    last_a12: bool,
    a12_low_counter: u32,
    prg_ram_chip_enable: bool,
    prg_ram_w_protection: bool,
}

/// The state of an MMC3 board.
pub struct Mmc3State {
    pub save: Seq<u8>,
    pub prg_rom: Seq<u8>,
    pub chr_rom: Seq<u8>,
    pub chr_ram: Seq<u8>,
    pub mirroring: Mirroring,
    pub bank_select_register: u8,
    pub bank_registers: Seq<u8>,
    pub bank_select: usize,
    pub irq_counter: u8,
    pub irq_latch: u8,
    pub irq_enabled: bool,
    pub irq_pending: bool,
    pub irq_reload: bool,
    pub last_a12: bool,
    pub a12_low_counter: u32,
    pub prg_ram_chip_enable: bool,
    pub prg_ram_w_protection: bool,
}

impl View for InesMapper004 {
    type V = Mmc3State;

    closed spec fn view(&self) -> Mmc3State {
        Mmc3State {
            save: self.game_save@,
            prg_rom: self.prg_rom@,
            chr_rom: self.chr_rom@,
            chr_ram: self.chr_ram@,
            mirroring: self.mirroring,
            bank_select_register: self.bank_select_register,
            bank_registers: self.bank_registers@,
            bank_select: self.bank_select,
            irq_counter: self.irq_counter,
            irq_latch: self.irq_latch,
            irq_enabled: self.irq_enabled,
            irq_pending: self.irq_pending,
            irq_reload: self.irq_reload,
            last_a12: self.last_a12,
            a12_low_counter: self.a12_low_counter,
            prg_ram_chip_enable: self.prg_ram_chip_enable,
            prg_ram_w_protection: self.prg_ram_w_protection,
        }
    }
}

/// The CHR RAM a board starts with: 8 KB of zeros when it has no CHR ROM.
pub open spec fn power_on_chr_ram(chr_rom: Seq<u8>, size: nat) -> Seq<u8> {
    if chr_rom.len() == 0 {
        Seq::new(size, |i: int| 0u8)
    } else {
        Seq::<u8>::empty()
    }
}

/// The state of a freshly built MMC3 board: all registers clear, interrupts
/// off, PRG RAM disabled.
pub open spec fn mmc3_power_on(prg_rom: Seq<u8>, chr_rom: Seq<u8>, mirroring: Mirroring, save: Seq<u8>) -> Mmc3State {
    Mmc3State {
        save,
        prg_rom,
        chr_rom,
        chr_ram: power_on_chr_ram(chr_rom, CHR_RAM_SIZE as nat),
        mirroring,
        bank_select_register: 0,
        bank_registers: Seq::new(8, |i: int| 0u8),
        bank_select: 0,
        irq_counter: 0,
        irq_latch: 0,
        irq_enabled: false,
        irq_pending: false,
        irq_reload: false,
        last_a12: false,
        a12_low_counter: 0,
        prg_ram_chip_enable: false,
        prg_ram_w_protection: false,
    }
}

/// Number of whole 8 KB banks in the PRG ROM.
pub open spec fn mmc3_total_banks(s: Mmc3State) -> int {
    s.prg_rom.len() as int / PRG_BANK_SIZE as int
}

/// PRG ROM bank mode: set when $C000-$DFFF is the swappable window.
pub open spec fn mmc3_prg_mode(s: Mmc3State) -> bool {
    s.bank_select_register & 0x40 != 0
}

/// CHR A12 inversion: set when the 2 KB banks sit at $1000-$1FFF.
pub open spec fn mmc3_chr_mode(s: Mmc3State) -> bool {
    s.bank_select_register & 0x80 != 0
}

/// The window of `addr` is mapped to the second-last bank.
pub open spec fn mmc3_uses_second_last(s: Mmc3State, addr: u16) -> bool {
    ||| (0x8000 <= addr <= 0x9FFF && mmc3_prg_mode(s))
    ||| (0xC000 <= addr <= 0xDFFF && !mmc3_prg_mode(s))
}

/// Offset in the PRG ROM that the CPU address `addr` selects.
pub open spec fn mmc3_prg_offset(s: Mmc3State, addr: u16) -> int {
    let within = (addr & 0x1FFF) as int;
    if 0x8000 <= addr <= 0x9FFF {
        if !mmc3_prg_mode(s) {
            s.bank_registers[6] * 8192 + within
        } else {
            (mmc3_total_banks(s) - 2) * 8192 + within
        }
    } else if 0xA000 <= addr <= 0xBFFF {
        s.bank_registers[7] * 8192 + within
    } else if 0xC000 <= addr <= 0xDFFF {
        if !mmc3_prg_mode(s) {
            (mmc3_total_banks(s) - 2) * 8192 + within
        } else {
            s.bank_registers[6] * 8192 + within
        }
    } else if 0xE000 <= addr {
        (mmc3_total_banks(s) - 1) * 8192 + within
    } else {
        0
    }
}

/// Offset in pattern memory that a bank register gives for `addr`:
/// a 1 KB bank, or a 2 KB bank whose number ignores its lowest bit.
pub open spec fn mmc3_chr_bank_offset(s: Mmc3State, reg: int, addr: u16, size_kb: int) -> int {
    if size_kb == 1 {
        s.bank_registers[reg] * 1024 + (addr & 0x03FF) as int
    } else {
        (s.bank_registers[reg] & 0xFE) * 1024 + (addr & 0x07FF) as int
    }
}

/// Offset in pattern memory that the PPU address `addr` selects.
pub open spec fn mmc3_chr_offset(s: Mmc3State, addr: u16) -> int {
    if !mmc3_chr_mode(s) {
        if addr <= 0x07FF {
            mmc3_chr_bank_offset(s, 0, addr, 2)
        } else if addr <= 0x0FFF {
            mmc3_chr_bank_offset(s, 1, addr, 2)
        } else if addr <= 0x13FF {
            mmc3_chr_bank_offset(s, 2, addr, 1)
        } else if addr <= 0x17FF {
            mmc3_chr_bank_offset(s, 3, addr, 1)
        } else if addr <= 0x1BFF {
            mmc3_chr_bank_offset(s, 4, addr, 1)
        } else if addr <= 0x1FFF {
            mmc3_chr_bank_offset(s, 5, addr, 1)
        } else {
            0
        }
    } else {
        if addr <= 0x03FF {
            mmc3_chr_bank_offset(s, 2, addr, 1)
        } else if addr <= 0x07FF {
            mmc3_chr_bank_offset(s, 3, addr, 1)
        } else if addr <= 0x0BFF {
            mmc3_chr_bank_offset(s, 4, addr, 1)
        } else if addr <= 0x0FFF {
            mmc3_chr_bank_offset(s, 5, addr, 1)
        } else if addr <= 0x17FF {
            mmc3_chr_bank_offset(s, 0, addr, 2)
        } else if addr <= 0x1FFF {
            mmc3_chr_bank_offset(s, 1, addr, 2)
        } else {
            0
        }
    }
}

/// The board has no CHR ROM and uses its own CHR RAM.
pub open spec fn mmc3_uses_chr_ram(s: Mmc3State) -> bool {
    s.chr_rom.len() == 0
}

/// The state after the MMC3 has seen the PPU address `addr`: the scanline
/// counter is clocked on each rising edge of PPU A12.
pub open spec fn mmc3_after_ppu_address(s: Mmc3State, addr: u16) -> Mmc3State {
    let a12 = addr & 0x1000 != 0;
    if !a12 {
        Mmc3State { a12_low_counter: (s.a12_low_counter + 1) as u32, last_a12: false, ..s }
    } else if !s.last_a12 {
        let reloads = s.irq_counter == 0 || s.irq_reload;
        let counter: u8 = if reloads { s.irq_latch } else { (s.irq_counter - 1) as u8 };
        Mmc3State {
            irq_counter: counter,
            irq_reload: if reloads { false } else { s.irq_reload },
            irq_pending: if counter == 0 && s.irq_enabled { true } else { s.irq_pending },
            a12_low_counter: 0,
            last_a12: true,
            ..s
        }
    } else {
        Mmc3State { a12_low_counter: 0, last_a12: true, ..s }
    }
}

/// The state after the CPU writes `val` at `addr`.
pub open spec fn mmc3_after_write(s: Mmc3State, addr: u16, val: u8) -> Mmc3State {
    let even = addr % 2 == 0;
    if 0x6000 <= addr <= 0x7FFF {
        if s.prg_ram_chip_enable && !s.prg_ram_w_protection {
            Mmc3State { save: s.save.update(save_index(addr), val), ..s }
        } else {
            s
        }
    } else if 0x8000 <= addr <= 0x9FFF {
        if even {
            Mmc3State { bank_select_register: val, bank_select: (val & 0x07) as usize, ..s }
        } else {
            Mmc3State { bank_registers: s.bank_registers.update(s.bank_select as int, val), ..s }
        }
    } else if 0xA000 <= addr <= 0xBFFF {
        if even {
            Mmc3State {
                mirroring: if val & 0x01 == 0 { Mirroring::Vertical } else { Mirroring::Horizontal },
                ..s
            }
        } else {
            Mmc3State {
                prg_ram_w_protection: val & 0x40 != 0,
                prg_ram_chip_enable: val & 0x80 != 0,
                ..s
            }
        }
    } else if 0xC000 <= addr <= 0xDFFF {
        if even {
            Mmc3State { irq_latch: val, ..s }
        } else {
            Mmc3State { irq_counter: 0, irq_reload: true, ..s }
        }
    } else if 0xE000 <= addr {
        if even {
            Mmc3State { irq_enabled: false, irq_pending: false, ..s }
        } else {
            Mmc3State { irq_enabled: true, ..s }
        }
    } else {
        s
    }
}

proof fn lemma_low_bits(addr: u16)
    ensures
        (addr as usize & 0x1FFF) == (addr & 0x1FFF) as usize,
        (addr as usize & 0x03FF) == (addr & 0x03FF) as usize,
        (addr as usize & 0x07FF) == (addr & 0x07FF) as usize,
        (addr & 0x1FFF) < 0x2000,
        (addr & 0x03FF) < 0x400,
        (addr & 0x07FF) < 0x800,
{
    assert(((addr as usize & 0x1FFF) == (addr & 0x1FFF) as usize)
        && ((addr as usize & 0x03FF) == (addr & 0x03FF) as usize)
        && ((addr as usize & 0x07FF) == (addr & 0x07FF) as usize)
        && ((addr & 0x1FFF) < 0x2000)
        && ((addr & 0x03FF) < 0x400)
        && ((addr & 0x07FF) < 0x800)) by (bit_vector);
}


/// PRG RAM reads back what was written while the chip is enabled and not
/// write-protected; while it is disabled or protected a write changes nothing.
pub proof fn law_mmc3_prg_ram_read_after_write(s: Mmc3State, addr: u16, val: u8)
    requires
        <InesMapper004 as Mapper>::well_formed(s),
        0x6000 <= addr <= 0x7FFF,
    ensures
        s.prg_ram_chip_enable && !s.prg_ram_w_protection ==> <InesMapper004 as Mapper>::read_value(
            mmc3_after_write(s, addr, val),
            addr,
        ) == val,
        !(s.prg_ram_chip_enable && !s.prg_ram_w_protection) ==> mmc3_after_write(s, addr, val) == s,
{
}

/// No CPU write, PPU write or PPU address observation changes the PRG ROM or
/// the CHR ROM, and CHR writes on a board with CHR ROM change nothing.
pub proof fn law_mmc3_rom_is_read_only(s: Mmc3State, addr: u16, val: u8)
    requires
        <InesMapper004 as Mapper>::well_formed(s),
    ensures
        mmc3_after_write(s, addr, val).prg_rom == s.prg_rom,
        mmc3_after_write(s, addr, val).chr_rom == s.chr_rom,
        mmc3_after_ppu_address(s, addr).prg_rom == s.prg_rom,
        mmc3_after_ppu_address(s, addr).chr_rom == s.chr_rom,
        !mmc3_uses_chr_ram(s) ==> <InesMapper004 as Mapper>::chr_written(s, addr, val) == s,
{
}

/// On a board with CHR RAM, pattern memory reads back what was written.
pub proof fn law_mmc3_chr_ram_read_after_write(s: Mmc3State, addr: u16, val: u8)
    requires
        <InesMapper004 as Mapper>::well_formed(s),
        mmc3_uses_chr_ram(s),
    ensures
        <InesMapper004 as Mapper>::chr_value(<InesMapper004 as Mapper>::chr_written(s, addr, val), addr) == val,
{
}

/// $E000-$FFFF always shows the last 8 KB bank of the PRG ROM, whatever the
/// bank registers and the PRG bank mode hold.
pub proof fn law_mmc3_last_bank_fixed(s: Mmc3State, addr: u16)
    requires
        <InesMapper004 as Mapper>::well_formed(s),
        0xE000 <= addr,
        s.prg_rom.len() % 8192 == 0,
        s.prg_rom.len() >= 8192,
    ensures
        <InesMapper004 as Mapper>::read_value(s, addr) == s.prg_rom[s.prg_rom.len() - 8192 + (addr & 0x1FFF)],
{
    lemma_low_bits(addr);
    let len = s.prg_rom.len() as int;
    let off = mmc3_prg_offset(s, addr);
    assert(off == len - 8192 + (addr & 0x1FFF) as int);
    assert(0 <= off < len);
    vstd::arithmetic::div_mod::lemma_small_mod(off as nat, len as nat);
}

/// The PRG bank mode swaps the two windows: what $8000-$9FFF shows in one
/// mode, $C000-$DFFF shows in the other, and $A000-$BFFF keeps R7 in both.
pub proof fn law_mmc3_prg_mode_swaps_windows(s: Mmc3State, x: u16)
    requires
        x < 0x2000,
    ensures
        mmc3_prg_offset(Mmc3State { bank_select_register: s.bank_select_register | 0x40, ..s }, (0xC000 + x) as u16)
            == mmc3_prg_offset(Mmc3State { bank_select_register: s.bank_select_register & 0xBF, ..s }, (0x8000 + x) as u16),
        mmc3_prg_offset(Mmc3State { bank_select_register: s.bank_select_register | 0x40, ..s }, (0x8000 + x) as u16)
            == mmc3_prg_offset(Mmc3State { bank_select_register: s.bank_select_register & 0xBF, ..s }, (0xC000 + x) as u16),
        mmc3_prg_offset(s, (0xA000 + x) as u16) == s.bank_registers[7] * 8192 + x,
{
    let b = s.bank_select_register;
    assert(((b | 0x40) & 0x40 != 0)
        && ((b & 0xBF) & 0x40 == 0)
        && (x < 0x2000 ==> ((0xC000 + x) as u16 & 0x1FFF) == x)
        && (x < 0x2000 ==> ((0x8000 + x) as u16 & 0x1FFF) == x)
        && (x < 0x2000 ==> ((0xA000 + x) as u16 & 0x1FFF) == x)) by (bit_vector);
}

/// The interrupt line only rises on a rising edge of PPU A12 while
/// interrupts are enabled; acknowledging, and disabling through $E000, lower it.
pub proof fn law_mmc3_irq(s: Mmc3State, addr: u16, val: u8)
    requires
        <InesMapper004 as Mapper>::well_formed(s),
    ensures
        !s.irq_pending && mmc3_after_ppu_address(s, addr).irq_pending ==> {
            &&& s.irq_enabled
            &&& addr & 0x1000 != 0
            &&& !s.last_a12
            &&& mmc3_after_ppu_address(s, addr).irq_counter == 0
        },
        !<InesMapper004 as Mapper>::irq_line(<InesMapper004 as Mapper>::irq_acknowledged(s)),
        0xE000 <= addr && addr % 2 == 0 ==> !mmc3_after_write(s, addr, val).irq_pending
            && !mmc3_after_write(s, addr, val).irq_enabled,
        0xE000 <= addr && addr % 2 == 1 ==> mmc3_after_write(s, addr, val).irq_enabled,
{
}

/// The state after the MMC3 has seen each address of `addrs` in turn.
pub open spec fn mmc3_after_ppu_addresses(s: Mmc3State, addrs: Seq<u16>) -> Mmc3State
    decreases addrs.len(),
{
    if addrs.len() == 0 {
        s
    } else {
        mmc3_after_ppu_addresses(mmc3_after_ppu_address(s, addrs[0]), addrs.skip(1))
    }
}

proof fn lemma_mmc3_disabled_irq_stays_low(s: Mmc3State, addrs: Seq<u16>)
    requires
        !s.irq_enabled,
        !s.irq_pending,
    ensures
        !mmc3_after_ppu_addresses(s, addrs).irq_enabled,
        !mmc3_after_ppu_addresses(s, addrs).irq_pending,
    decreases addrs.len(),
{
    if addrs.len() > 0 {
        lemma_mmc3_disabled_irq_stays_low(mmc3_after_ppu_address(s, addrs[0]), addrs.skip(1));
    }
}

/// A write to an even address of $E000-$FFFE lowers the interrupt line and
/// keeps it low through any run of PPU address observations, until an odd
/// address of $E001-$FFFF enables interrupts again.
pub proof fn law_mmc3_irq_disabled_until_enabled(s: Mmc3State, addr: u16, val: u8, addrs: Seq<u16>)
    requires
        0xE000 <= addr,
        addr % 2 == 0,
    ensures
        !mmc3_after_ppu_addresses(mmc3_after_write(s, addr, val), addrs).irq_pending,
        !mmc3_after_ppu_addresses(mmc3_after_write(s, addr, val), addrs).irq_enabled,
{
    lemma_mmc3_disabled_irq_stays_low(mmc3_after_write(s, addr, val), addrs);
}

/// Through the PPU bus, pattern memory of an MMC3 board with CHR RAM reads
/// back what was written: watching the address does not switch CHR banks.
pub proof fn law_mmc3_pattern_read_after_write_on_bus(s: PpuBusState<Mmc3State>, addr: u16, val: u8)
    requires
        ppubus_well_formed::<InesMapper004>(s),
        mmc3_uses_chr_ram(s.mapper),
        ppu_addr(addr) <= 0x1FFF,
    ensures
        ppubus_value::<InesMapper004>(
            ppubus_after_read::<InesMapper004>(ppubus_after_write::<InesMapper004>(s, addr, val), addr),
            addr,
        ) == val,
{
    let a = ppu_addr(addr);
    assert(a < 0x3F00);
    let w = ppubus_after_write::<InesMapper004>(s, addr, val);
    assert(w.mapper == <InesMapper004 as Mapper>::chr_written(s.mapper, a, val));
    let r = ppubus_after_read::<InesMapper004>(w, addr);
    assert(r.mapper == mmc3_after_ppu_address(w.mapper, a));
    assert(mmc3_chr_offset(r.mapper, a) == mmc3_chr_offset(w.mapper, a));
    assert(mmc3_chr_offset(w.mapper, a) == mmc3_chr_offset(s.mapper, a));
}

impl InesMapper004 {
    pub fn new(prg_rom: Box<[u8]>, chr_rom: Box<[u8]>, mirroring: Mirroring, game_save: GameSave) -> (m: Self)
        requires
            game_save@.len() == SAVE_RAM_SIZE,
        ensures
            <InesMapper004 as Mapper>::well_formed(m@),
            m@ == mmc3_power_on(prg_rom@, chr_rom@, mirroring, game_save@),
    {
        let chr_ram: Vec<u8> = if chr_rom.len() == 0 { vec![0u8; CHR_RAM_SIZE] } else { Vec::new() };
        let m = InesMapper004 {
            game_save,
            prg_rom,
            chr_rom,
            chr_ram,
            mirroring,
            bank_select_register: 0,
            bank_registers: [0u8; 8],
            bank_select: 0,
            irq_counter: 0,
            irq_latch: 0,
            irq_enabled: false,
            irq_pending: false,
            irq_reload: false,
            last_a12: false,
            a12_low_counter: 0,
            prg_ram_chip_enable: false,
            prg_ram_w_protection: false,
        };
        proof {
            assert(m@.bank_registers =~= Seq::new(8, |i: int| 0u8));
            if chr_rom@.len() == 0 {
                assert(m@.chr_ram =~= Seq::new(CHR_RAM_SIZE as nat, |i: int| 0u8));
            } else {
                assert(m@.chr_ram =~= Seq::<u8>::empty());
            }
        }
        m
    }

    fn bank_switch(&self, addr: u16) -> (offset: usize)
        requires
            0x8000 <= addr,
            <InesMapper004 as Mapper>::well_formed(self@),
            <InesMapper004 as Mapper>::read_defined(self@, addr),
        ensures
            offset == mmc3_prg_offset(self@, addr),
    {
        proof { lemma_low_bits(addr); }
        let prg_mode = (self.bank_select_register & 0x40) != 0;
        let total_banks = self.prg_rom.len() / 8192;
        let within = addr as usize & 0x1FFF;
        if addr <= 0x9FFF {
            if !prg_mode {
                (self.bank_registers[6] as usize) * 8192 + within
            } else {
                (total_banks - 2) * 8192 + within
            }
        } else if addr <= 0xBFFF {
            // R7 always maps here, in both modes
            (self.bank_registers[7] as usize) * 8192 + within
        } else if addr <= 0xDFFF {
            if !prg_mode {
                (total_banks - 2) * 8192 + within
            } else {
                (self.bank_registers[6] as usize) * 8192 + within
            }
        } else {
            (total_banks - 1) * 8192 + within
        }
    }

    fn _get_chr_offset(&self, reg_idx: usize, addr: u16, size_kb: usize) -> (offset: usize)
        requires
            reg_idx < 8,
            <InesMapper004 as Mapper>::well_formed(self@),
        ensures
            offset == mmc3_chr_bank_offset(self@, reg_idx as int, addr, size_kb as int),
    {
        proof { lemma_low_bits(addr); }
        let bank = self.bank_registers[reg_idx] as usize;
        if size_kb == 1 {
            (bank * 1024) + (addr as usize & 0x03FF)
        } else {
            proof {
                let b = self.bank_registers[reg_idx as int];
                assert(((b as usize & 0xFE) == (b & 0xFE) as usize)
                    && ((b & 0xFE) <= 0xFE)) by (bit_vector);
            }
            ((bank & 0xFE) * 1024) + (addr as usize & 0x07FF)
        }
    }

    fn bank_switch_chr(&self, addr: u16) -> (offset: usize)
        requires
            <InesMapper004 as Mapper>::well_formed(self@),
        ensures
            offset == mmc3_chr_offset(self@, addr),
    {
        let chr_mode = self.bank_select_register & 0x80 != 0;
        if !chr_mode {
            // Mode 0
            if addr <= 0x07FF {
                self._get_chr_offset(0, addr, 2)
            } else if addr <= 0x0FFF {
                self._get_chr_offset(1, addr, 2)
            } else if addr <= 0x13FF {
                self._get_chr_offset(2, addr, 1)
            } else if addr <= 0x17FF {
                self._get_chr_offset(3, addr, 1)
            } else if addr <= 0x1BFF {
                self._get_chr_offset(4, addr, 1)
            } else if addr <= 0x1FFF {
                self._get_chr_offset(5, addr, 1)
            } else {
                0
            }
        } else {
            // Mode 1
            if addr <= 0x03FF {
                self._get_chr_offset(2, addr, 1)
            } else if addr <= 0x07FF {
                self._get_chr_offset(3, addr, 1)
            } else if addr <= 0x0BFF {
                self._get_chr_offset(4, addr, 1)
            } else if addr <= 0x0FFF {
                self._get_chr_offset(5, addr, 1)
            } else if addr <= 0x17FF {
                self._get_chr_offset(0, addr, 2)
            } else if addr <= 0x1FFF {
                self._get_chr_offset(1, addr, 2)
            } else {
                0
            }
        }
    }
}

impl Mapper for InesMapper004 {
    open spec fn well_formed(v: Mmc3State) -> bool {
        &&& v.save.len() == SAVE_RAM_SIZE
        &&& v.bank_registers.len() == 8
        &&& v.bank_select < 8
        &&& v.chr_rom.len() == 0 ==> v.chr_ram.len() == CHR_RAM_SIZE
    }

    open spec fn read_defined(v: Mmc3State, addr: u16) -> bool {
        0x8000 <= addr ==> {
            &&& v.prg_rom.len() > 0
            &&& mmc3_uses_second_last(v, addr) ==> mmc3_total_banks(v) >= 2
            &&& 0xE000 <= addr ==> mmc3_total_banks(v) >= 1
        }
    }

    open spec fn read_value(v: Mmc3State, addr: u16) -> u8 {
        if 0x6000 <= addr <= 0x7FFF {
            v.save[save_index(addr)]
        } else if 0x8000 <= addr {
            v.prg_rom[mmc3_prg_offset(v, addr) % (v.prg_rom.len() as int)]
        } else {
            0
        }
    }

    open spec fn write_defined(v: Mmc3State, addr: u16) -> bool {
        true
    }

    open spec fn written(v: Mmc3State, addr: u16, val: u8) -> Mmc3State {
        mmc3_after_write(v, addr, val)
    }

    open spec fn chr_read_defined(v: Mmc3State, addr: u16) -> bool {
        true
    }

    open spec fn chr_value(v: Mmc3State, addr: u16) -> u8 {
        if mmc3_uses_chr_ram(v) {
            v.chr_ram[mmc3_chr_offset(v, addr) % (v.chr_ram.len() as int)]
        } else {
            v.chr_rom[mmc3_chr_offset(v, addr) % (v.chr_rom.len() as int)]
        }
    }

    open spec fn chr_write_defined(v: Mmc3State, addr: u16) -> bool {
        true
    }

    open spec fn chr_written(v: Mmc3State, addr: u16, val: u8) -> Mmc3State {
        if mmc3_uses_chr_ram(v) {
            Mmc3State {
                chr_ram: v.chr_ram.update(mmc3_chr_offset(v, addr) % (v.chr_ram.len() as int), val),
                ..v
            }
        } else {
            v
        }
    }

    open spec fn mirroring_defined(v: Mmc3State) -> bool {
        true
    }

    open spec fn arrangement(v: Mmc3State) -> Mirroring {
        v.mirroring
    }

    open spec fn irq_line(v: Mmc3State) -> bool {
        v.irq_pending
    }

    open spec fn irq_acknowledged(v: Mmc3State) -> Mmc3State {
        Mmc3State { irq_pending: false, ..v }
    }

    open spec fn ppu_address_defined(v: Mmc3State, addr: u16) -> bool {
        addr & 0x1000 == 0 ==> v.a12_low_counter < u32::MAX
    }

    open spec fn ppu_address_seen(v: Mmc3State, addr: u16) -> Mmc3State {
        mmc3_after_ppu_address(v, addr)
    }

    proof fn lemma_ppu_side_keeps_arrangement(v: Mmc3State, addr: u16, val: u8) {
    }

    fn read(&self, addr: u16) -> (r: u8) {
        if 0x6000 <= addr && addr <= 0x7FFF {
            self.game_save.read(addr)
        } else if 0x8000 <= addr {
            // calculates the actual offset within the ROM based on the MMC3 registers
            let mapper_offset = self.bank_switch(addr);
            // the '%' keeps the index inside the loaded PRG ROM: a request for a
            // bank that does not exist mirrors back to the beginning
            self.prg_rom[mapper_offset % self.prg_rom.len()]
        } else {
            0
        }
    }

    /// *REGISTERS:* https://www.nesdev.org/wiki/MMC3#Registers
    fn write(&mut self, addr: u16, val: u8) {
        if 0x6000 <= addr && addr <= 0x7FFF {
            if self.prg_ram_chip_enable && !self.prg_ram_w_protection {
                self.game_save.write(addr, val);
            }
        } else if 0x8000 <= addr && addr <= 0x9FFF {
            // even addr selects the bank register
            if addr % 2 == 0 {
                self.bank_select_register = val;
                proof { assert((val & 0x07) < 8) by (bit_vector); }
                self.bank_select = (val & 0x07) as usize;
            } else {
                // odd addr writes the selected bank register
                self.bank_registers[self.bank_select] = val;
            }
        } else if 0xA000 <= addr && addr <= 0xBFFF {
            // Nametable arrangement ($A000-$BFFE, even)
            if addr % 2 == 0 {
                if val & 0x01 == 0 {
                    self.mirroring = Mirroring::Vertical;
                } else {
                    self.mirroring = Mirroring::Horizontal;
                }
            } else {
                // PRG RAM protect ($A001-$BFFF, odd)
                // Write protection (0: allow writes; 1: deny writes)
                self.prg_ram_w_protection = (val & 0b0100_0000) != 0;
                // PRG RAM chip enable (0: disable; 1: enable)
                self.prg_ram_chip_enable = (val & 0b1000_0000) != 0;
            }
        } else if 0xC000 <= addr && addr <= 0xDFFF {
            if addr % 2 == 0 {
                // IRQ latch ($C000-$DFFE, even)
                self.irq_latch = val;
            } else {
                // IRQ reload ($C001-$DFFF, odd)
                self.irq_counter = 0;
                self.irq_reload = true;
            }
        } else if 0xE000 <= addr {
            if addr % 2 == 0 {
                // IRQ disable ($E000-$FFFE, even): disables MMC3 interrupts
                // and acknowledges any pending interrupt
                self.irq_enabled = false;
                self.acknowledge_irq();
            } else {
                // IRQ enable ($E001-$FFFF, odd)
                self.irq_enabled = true;
            }
        }
        proof {
            assert(self@.bank_registers =~= mmc3_after_write(old(self)@, addr, val).bank_registers);
        }
    }

    fn read_chr(&self, addr: u16) -> (r: u8) {
        let mapper_offset = self.bank_switch_chr(addr);
        if self.chr_rom.len() == 0 {
            self.chr_ram[mapper_offset % self.chr_ram.len()]
        } else {
            self.chr_rom[mapper_offset % self.chr_rom.len()]
        }
    }

    fn write_chr(&mut self, addr: u16, val: u8) {
        if self.chr_rom.len() == 0 {
            let mapper_offset = self.bank_switch_chr(addr);
            let i = mapper_offset % self.chr_ram.len();
            self.chr_ram.set(i, val);
        }
        // writes to CHR ROM are ignored
    }

    fn mirroring(&self) -> (m: Mirroring) {
        self.mirroring
    }

    fn irq_pending(&self) -> (r: bool) {
        self.irq_pending
    }

    fn acknowledge_irq(&mut self) {
        self.irq_pending = false;
    }

    fn notify_ppu_address(&mut self, addr: u16) {
        let a12 = addr & 0x1000 != 0;
        if !a12 {
            self.a12_low_counter += 1;
        } else {
            if !self.last_a12 {
                if self.irq_counter == 0 || self.irq_reload {
                    self.irq_counter = self.irq_latch;
                    self.irq_reload = false;
                } else {
                    self.irq_counter -= 1;
                }
                if self.irq_counter == 0 && self.irq_enabled {
                    self.irq_pending = true;
                }
            }
            self.a12_low_counter = 0;
        }
        self.last_a12 = a12;
    }
}

impl InesMapper004 {
    /// The battery-backed work RAM, to be kept between sessions.
    pub fn game_save(&self) -> (g: &GameSave)
        ensures
            g@ == self@.save,
    {
        &self.game_save
    }
}

proof fn lemma_window_bits(x: u16)
    requires
        x < 0x400,
    ensures
        ((0x0000 + x) as u16) & 0x03FF == x,
        ((0x0400 + x) as u16) & 0x03FF == x,
        ((0x0800 + x) as u16) & 0x03FF == x,
        ((0x0C00 + x) as u16) & 0x03FF == x,
        ((0x1000 + x) as u16) & 0x03FF == x,
        ((0x1400 + x) as u16) & 0x03FF == x,
        ((0x1800 + x) as u16) & 0x03FF == x,
        ((0x1C00 + x) as u16) & 0x03FF == x,
        ((0x0000 + x) as u16) & 0x07FF == x,
        ((0x0400 + x) as u16) & 0x07FF == 0x400 + x,
        ((0x0800 + x) as u16) & 0x07FF == x,
        ((0x0C00 + x) as u16) & 0x07FF == 0x400 + x,
        ((0x1000 + x) as u16) & 0x07FF == x,
        ((0x1400 + x) as u16) & 0x07FF == 0x400 + x,
        ((0x1800 + x) as u16) & 0x07FF == x,
        ((0x1C00 + x) as u16) & 0x07FF == 0x400 + x,
{
    assert(x < 0x400 ==> {
        &&& ((0x0000 + x) as u16) & 0x03FF == x
        &&& ((0x0400 + x) as u16) & 0x03FF == x
        &&& ((0x0800 + x) as u16) & 0x03FF == x
        &&& ((0x0C00 + x) as u16) & 0x03FF == x
        &&& ((0x1000 + x) as u16) & 0x03FF == x
        &&& ((0x1400 + x) as u16) & 0x03FF == x
        &&& ((0x1800 + x) as u16) & 0x03FF == x
        &&& ((0x1C00 + x) as u16) & 0x03FF == x
        &&& ((0x0000 + x) as u16) & 0x07FF == x
        &&& ((0x0400 + x) as u16) & 0x07FF == 0x400 + x
        &&& ((0x0800 + x) as u16) & 0x07FF == x
        &&& ((0x0C00 + x) as u16) & 0x07FF == 0x400 + x
        &&& ((0x1000 + x) as u16) & 0x07FF == x
        &&& ((0x1400 + x) as u16) & 0x07FF == 0x400 + x
        &&& ((0x1800 + x) as u16) & 0x07FF == x
        &&& ((0x1C00 + x) as u16) & 0x07FF == 0x400 + x
    }) by (bit_vector);
}

/// Each 1 KB window of pattern memory reads the bank register the MMC3
/// assigns it. Without CHR A12 inversion R0 and R1 (2 KB banks, lowest bit
/// ignored) show at $0000 and $0800 and R2-R5 (1 KB banks) at $1000,
/// $1400, $1800 and $1C00; with inversion the two halves trade places.
/// A read of pattern memory gives the byte at that offset, wrapped around
/// the CHR ROM (or CHR RAM).
pub proof fn law_mmc3_chr_windows(s: Mmc3State, x: u16)
    requires
        x < 0x400,
    ensures
        !mmc3_chr_mode(s) ==> {
            &&& mmc3_chr_offset(s, (0x0000 + x) as u16) == (s.bank_registers[0] & 0xFE) * 1024 + x
            &&& mmc3_chr_offset(s, (0x0400 + x) as u16) == (s.bank_registers[0] & 0xFE) * 1024 + 0x400 + x
            &&& mmc3_chr_offset(s, (0x0800 + x) as u16) == (s.bank_registers[1] & 0xFE) * 1024 + x
            &&& mmc3_chr_offset(s, (0x0C00 + x) as u16) == (s.bank_registers[1] & 0xFE) * 1024 + 0x400 + x
            &&& mmc3_chr_offset(s, (0x1000 + x) as u16) == s.bank_registers[2] * 1024 + x
            &&& mmc3_chr_offset(s, (0x1400 + x) as u16) == s.bank_registers[3] * 1024 + x
            &&& mmc3_chr_offset(s, (0x1800 + x) as u16) == s.bank_registers[4] * 1024 + x
            &&& mmc3_chr_offset(s, (0x1C00 + x) as u16) == s.bank_registers[5] * 1024 + x
        },
        mmc3_chr_mode(s) ==> {
            &&& mmc3_chr_offset(s, (0x0000 + x) as u16) == s.bank_registers[2] * 1024 + x
            &&& mmc3_chr_offset(s, (0x0400 + x) as u16) == s.bank_registers[3] * 1024 + x
            &&& mmc3_chr_offset(s, (0x0800 + x) as u16) == s.bank_registers[4] * 1024 + x
            &&& mmc3_chr_offset(s, (0x0C00 + x) as u16) == s.bank_registers[5] * 1024 + x
            &&& mmc3_chr_offset(s, (0x1000 + x) as u16) == (s.bank_registers[0] & 0xFE) * 1024 + x
            &&& mmc3_chr_offset(s, (0x1400 + x) as u16) == (s.bank_registers[0] & 0xFE) * 1024 + 0x400 + x
            &&& mmc3_chr_offset(s, (0x1800 + x) as u16) == (s.bank_registers[1] & 0xFE) * 1024 + x
            &&& mmc3_chr_offset(s, (0x1C00 + x) as u16) == (s.bank_registers[1] & 0xFE) * 1024 + 0x400 + x
        },
        forall|a: u16|
            #![trigger <InesMapper004 as Mapper>::chr_value(s, a)]
            s.chr_rom.len() != 0 ==> <InesMapper004 as Mapper>::chr_value(s, a) == s.chr_rom[mmc3_chr_offset(s, a)
                % (s.chr_rom.len() as int)],
{
    lemma_window_bits(x);
}

/// The PRG windows, each 8 KB: with PRG mode 0 R6 shows at $8000 and the
/// second-last bank at $C000, with mode 1 the other way round; R7 always
/// shows at $A000 and the last bank at $E000. A CPU read there gives the
/// byte at that offset, wrapped around the PRG ROM.
pub proof fn law_mmc3_prg_windows(s: Mmc3State, x: u16)
    requires
        x < 0x2000,
    ensures
        !mmc3_prg_mode(s) ==> mmc3_prg_offset(s, (0x8000 + x) as u16) == s.bank_registers[6] * 8192 + x
            && mmc3_prg_offset(s, (0xC000 + x) as u16) == (s.prg_rom.len() / 8192 - 2) * 8192 + x,
        mmc3_prg_mode(s) ==> mmc3_prg_offset(s, (0xC000 + x) as u16) == s.bank_registers[6] * 8192 + x
            && mmc3_prg_offset(s, (0x8000 + x) as u16) == (s.prg_rom.len() / 8192 - 2) * 8192 + x,
        mmc3_prg_offset(s, (0xA000 + x) as u16) == s.bank_registers[7] * 8192 + x,
        mmc3_prg_offset(s, (0xE000 + x) as u16) == (s.prg_rom.len() / 8192 - 1) * 8192 + x,
        mmc3_prg_mode(s) == (s.bank_select_register & 0x40 != 0),
        mmc3_chr_mode(s) == (s.bank_select_register & 0x80 != 0),
        forall|a: u16|
            #![trigger <InesMapper004 as Mapper>::read_value(s, a)]
            0x8000 <= a ==> <InesMapper004 as Mapper>::read_value(s, a) == s.prg_rom[mmc3_prg_offset(s, a)
                % (s.prg_rom.len() as int)],
{
    assert((x < 0x2000 ==> ((0xC000 + x) as u16 & 0x1FFF) == x)
        && (x < 0x2000 ==> ((0x8000 + x) as u16 & 0x1FFF) == x)
        && (x < 0x2000 ==> ((0xE000 + x) as u16 & 0x1FFF) == x)
        && (x < 0x2000 ==> ((0xA000 + x) as u16 & 0x1FFF) == x)) by (bit_vector);
}

/// The registers the CPU writes, by address range and parity: even
/// $8000-$9FFF selects the bank register (low three bits) and the PRG and CHR
/// modes, odd $8000-$9FFF stores the byte in the selected bank register,
/// even $A000-$BFFF sets the arrangement (bit 0 clear: vertical), odd
/// $A000-$BFFF sets PRG RAM protection (bit 6) and enable (bit 7), even
/// $C000-$DFFF the interrupt latch, odd $C000-$DFFF asks for a reload,
/// even $E000-$FFFF disables and acknowledges interrupts and odd $E000-$FFFF
/// enables them.
pub proof fn law_mmc3_register_writes(s: Mmc3State, addr: u16, val: u8)
    ensures
        0x8000 <= addr <= 0x9FFF && addr % 2 == 0 ==> mmc3_after_write(s, addr, val).bank_select == (val & 0x07)
            && mmc3_after_write(s, addr, val).bank_select_register == val
            && mmc3_after_write(s, addr, val).bank_registers == s.bank_registers,
        0x8000 <= addr <= 0x9FFF && addr % 2 == 1 ==> mmc3_after_write(s, addr, val).bank_registers
            == s.bank_registers.update(s.bank_select as int, val)
            && mmc3_after_write(s, addr, val).bank_select == s.bank_select
            && mmc3_after_write(s, addr, val).bank_select_register == s.bank_select_register,
        0xA000 <= addr <= 0xBFFF && addr % 2 == 0 ==> mmc3_after_write(s, addr, val).mirroring == (if val % 2
            == 0 {
            Mirroring::Vertical
        } else {
            Mirroring::Horizontal
        }),
        0xA000 <= addr <= 0xBFFF && addr % 2 == 1 ==> mmc3_after_write(s, addr, val).prg_ram_w_protection == (
        val & 0x40 != 0) && mmc3_after_write(s, addr, val).prg_ram_chip_enable == (val & 0x80 != 0),
        0xC000 <= addr <= 0xDFFF && addr % 2 == 0 ==> mmc3_after_write(s, addr, val).irq_latch == val,
        0xC000 <= addr <= 0xDFFF && addr % 2 == 1 ==> mmc3_after_write(s, addr, val).irq_reload
            && mmc3_after_write(s, addr, val).irq_counter == 0,
        0xE000 <= addr && addr % 2 == 0 ==> !mmc3_after_write(s, addr, val).irq_enabled
            && !mmc3_after_write(s, addr, val).irq_pending,
        0xE000 <= addr && addr % 2 == 1 ==> mmc3_after_write(s, addr, val).irq_enabled,
        !(0x8000 <= addr <= 0x9FFF && addr % 2 == 1) ==> mmc3_after_write(s, addr, val).bank_registers
            == s.bank_registers,
{
    assert((val & 0x01 == 0) == (val % 2 == 0)) by (bit_vector);
}

} // verus!
