use vstd::prelude::*;

use crate::game_save::{GameSave, SAVE_RAM_SIZE, save_index};
use crate::mapper_base::{Mapper, Mirroring};
use crate::mapper004::power_on_chr_ram;
use crate::text::{hex_byte_digits, push_hex_byte};

verus! {

/// Size of the CHR RAM that a mapper 163 board carries when it has no CHR ROM.
pub const CHR_RAM_SIZE_163: usize = 8192;

/// iNES mapper 163 (Nanjing): 32 KB PRG banks picked through $5000/$5200,
/// a protection latch at $5100/$5101 read back at $5500/$5501, optional
/// swapping of the two low data bits, and automatic CHR switching on PPU A13.
pub struct InesMapper163 {
    game_save: GameSave,
    prg_rom: Box<[u8]>,
    chr_rom: Box<[u8]>,
    chr_ram: Vec<u8>,
    mirroring: Mirroring,
    reg_5000: u8,
    reg_5100: u8,
    reg_5101: u8,
    reg_5200: u8,
    reg_5300: u8,
    last_a13: bool,
    trigger_bit: bool,
    auto_chr_switch: bool,
    latched_a9: u16,
}

/// The state of a mapper 163 board.
pub struct Nanjing163State {
    pub save: Seq<u8>,
    pub prg_rom: Seq<u8>,
    pub chr_rom: Seq<u8>,
    pub chr_ram: Seq<u8>,
    pub mirroring: Mirroring,
    pub reg_5000: u8,
    pub reg_5100: u8,
    pub reg_5101: u8,
    pub reg_5200: u8,
    pub reg_5300: u8,
    pub last_a13: bool,
    pub trigger_bit: bool,
    pub auto_chr_switch: bool,
    pub latched_a9: u16,
}

impl View for InesMapper163 {
    type V = Nanjing163State;

    closed spec fn view(&self) -> Nanjing163State {
        Nanjing163State {
            save: self.game_save@,
            prg_rom: self.prg_rom@,
            chr_rom: self.chr_rom@,
            chr_ram: self.chr_ram@,
            mirroring: self.mirroring,
            reg_5000: self.reg_5000,
            reg_5100: self.reg_5100,
            reg_5101: self.reg_5101,
            reg_5200: self.reg_5200,
            reg_5300: self.reg_5300,
            last_a13: self.last_a13,
            trigger_bit: self.trigger_bit,
            auto_chr_switch: self.auto_chr_switch,
            latched_a9: self.latched_a9,
        }
    }
}

/// The state of a freshly built board: registers clear but for $5300 = 1,
/// trigger set, no automatic CHR switching.
pub open spec fn n163_power_on(prg_rom: Seq<u8>, chr_rom: Seq<u8>, mirroring: Mirroring, save: Seq<u8>) -> Nanjing163State {
    Nanjing163State {
        save,
        prg_rom,
        chr_rom,
        chr_ram: power_on_chr_ram(chr_rom, CHR_RAM_SIZE_163 as nat),
        mirroring,
        reg_5000: 0,
        reg_5100: 0,
        reg_5101: 0,
        reg_5200: 0,
        reg_5300: 1,
        last_a13: false,
        trigger_bit: true,
        auto_chr_switch: false,
        latched_a9: 0,
    }
}

/// Exchanges bits 0 and 1 of `v`.
pub open spec fn swap_low_bits(v: u8) -> u8 {
    (v & !0x03u8) | ((v & 1) << 1u8) | ((v >> 1u8) & 1)
}

/// The data lines are scrambled (bits 0 and 1 exchanged) while bit 1 of $5300 is set.
pub open spec fn n163_swaps(s: Nanjing163State) -> bool {
    s.reg_5300 & 0x02 != 0
}

/// The 32 KB PRG bank: $5200 gives the high bits, $5000 the low six; with
/// bit 0 of $5300 clear the low two bits read as set.
pub open spec fn n163_prg_bank(s: Nanjing163State) -> usize {
    let bank = (((s.reg_5200 & 0x0F) as usize) << 6usize) | ((s.reg_5000 & 0x3F) as usize);
    if s.reg_5300 & 0x01 == 0 {
        bank | 0x03
    } else {
        bank
    }
}

/// What $5000-$5FFF reads before any scrambling: the open bus (high byte of
/// the address), and at $5500/$5501 the protection latch with the trigger at bit 2.
pub open spec fn n163_register_read(s: Nanjing163State, addr: u16) -> u8 {
    let open_bus = (addr >> 8u16) as u8;
    if addr == 0x5500 || addr == 0x5501 {
        (s.reg_5100 & 0x0B) | (if s.trigger_bit { 0x04u8 } else { 0x00u8 }) | (open_bus & 0xF0)
    } else {
        open_bus
    }
}

/// Pattern memory address of the PPU address `addr`: with automatic
/// switching, the 4 KB half picked by the latched A9.
pub open spec fn n163_chr_addr(s: Nanjing163State, addr: u16) -> u16 {
    if s.auto_chr_switch {
        (addr & 0x0FFF) | s.latched_a9
    } else {
        addr
    }
}

/// The pattern memory in use: CHR ROM when present, else CHR RAM.
pub open spec fn n163_pattern_memory(s: Nanjing163State) -> Seq<u8> {
    if s.chr_rom.len() != 0 {
        s.chr_rom
    } else {
        s.chr_ram
    }
}

/// The byte the CPU puts on the bus for a write of `val` at `addr`.
pub open spec fn n163_data(s: Nanjing163State, addr: u16, val: u8) -> u8 {
    if 0x5000 <= addr <= 0x5200 && n163_swaps(s) {
        swap_low_bits(val)
    } else {
        val
    }
}

/// The trigger bit flips on a falling edge of bit 0 of a latch register.
pub open spec fn n163_trigger_after(s: Nanjing163State, old_reg: u8, v: u8) -> bool {
    if old_reg & 0x01 == 1 && v & 0x01 == 0 {
        !s.trigger_bit
    } else {
        s.trigger_bit
    }
}

/// The message that a latch register records for the byte `v`.
pub open spec fn n163_latch_message(addr: u16, v: u8) -> Seq<char> {
    (if addr == 0x5100 { "WR 5100: "@ } else { "WR 5101: "@ }) + hex_byte_digits(v)
}

pub open spec fn n163_after_write(s: Nanjing163State, addr: u16, val: u8) -> Nanjing163State {
    let v = n163_data(s, addr, val);
    if addr == 0x5000 {
        Nanjing163State { reg_5000: v, auto_chr_switch: v & 0x80 != 0, ..s }
    } else if addr == 0x5100 {
        Nanjing163State { trigger_bit: n163_trigger_after(s, s.reg_5100, v), reg_5100: v, ..s }
    } else if addr == 0x5101 {
        Nanjing163State { trigger_bit: n163_trigger_after(s, s.reg_5101, v), reg_5101: v, ..s }
    } else if addr == 0x5200 {
        Nanjing163State { reg_5200: v, ..s }
    } else if addr == 0x5300 {
        Nanjing163State { reg_5300: v, ..s }
    } else if 0x6000 <= addr <= 0x7FFF {
        Nanjing163State { save: s.save.update(save_index(addr), v), ..s }
    } else {
        s
    }
}

/// Scrambling the data lines twice gives the byte back, and only bits 0 and 1 move.
pub proof fn law_n163_swap_is_involution(v: u8)
    ensures
        swap_low_bits(swap_low_bits(v)) == v,
        swap_low_bits(v) & 0xFC == v & 0xFC,
        swap_low_bits(v) & 0x01 == (v >> 1u8) & 0x01,
        (swap_low_bits(v) >> 1u8) & 0x01 == v & 0x01,
{
    assert((((((v & !0x03u8) | ((v & 1) << 1u8) | ((v >> 1u8) & 1)) & !0x03u8) | ((((v & !0x03u8) | ((v & 1) << 1u8) | ((v >> 1u8) & 1)) & 1) << 1u8) | (((((v & !0x03u8) | ((v & 1) << 1u8) | ((v >> 1u8) & 1))) >> 1u8) & 1)) == v)
        && (((v & !0x03u8) | ((v & 1) << 1u8) | ((v >> 1u8) & 1)) & 0xFC == v & 0xFC)
        && (((v & !0x03u8) | ((v & 1) << 1u8) | ((v >> 1u8) & 1)) & 0x01 == (v >> 1u8) & 0x01)
        && ((((v & !0x03u8) | ((v & 1) << 1u8) | ((v >> 1u8) & 1)) >> 1u8) & 0x01 == v & 0x01)) by (bit_vector);
}

/// Reading $5500 or $5501 unscrambled reports the trigger at bit 2 and the
/// latch's bits 0, 1 and 3.
pub proof fn law_n163_protection_readback(s: Nanjing163State, addr: u16)
    requires
        addr == 0x5500 || addr == 0x5501,
        !n163_swaps(s),
    ensures
        (<InesMapper163 as Mapper>::read_value(s, addr) & 0x04 != 0) == s.trigger_bit,
        <InesMapper163 as Mapper>::read_value(s, addr) & 0x0B == s.reg_5100 & 0x0B,
        <InesMapper163 as Mapper>::read_value(s, addr) & 0xF0 == 0x50,
{
    let r = s.reg_5100;
    let t: u8 = if s.trigger_bit { 0x04u8 } else { 0x00u8 };
    assert((addr >> 8u16) as u8 == 0x55u8) by (bit_vector) requires addr == 0x5500 || addr == 0x5501;
    assert(((r & 0x0B) | t | (0x55u8 & 0xF0)) & 0x04 != 0 <==> t == 0x04) by (bit_vector)
        requires t == 0x04 || t == 0;
    assert(((r & 0x0B) | t | (0x55u8 & 0xF0)) & 0x0B == r & 0x0B) by (bit_vector)
        requires t == 0x04 || t == 0;
    assert(((r & 0x0B) | t | (0x55u8 & 0xF0)) & 0xF0 == 0x50) by (bit_vector)
        requires t == 0x04 || t == 0;
}

/// The trigger flips exactly when a write to $5100 takes bit 0 of the latch
/// from 1 to 0.
pub proof fn law_n163_trigger_falling_edge(s: Nanjing163State, val: u8)
    ensures
        n163_after_write(s, 0x5100, val).trigger_bit != s.trigger_bit <==> (s.reg_5100 & 0x01 == 1 && n163_data(s, 0x5100, val) & 0x01 == 0),
        n163_after_write(s, 0x5100, val).reg_5100 == n163_data(s, 0x5100, val),
{
}

/// With automatic CHR switching both pattern tables show the same 4 KB
/// half, the one that the last rising edge of A13 latched.
pub proof fn law_n163_auto_chr_switch(s: Nanjing163State, x: u16)
    requires
        <InesMapper163 as Mapper>::well_formed(s),
        s.auto_chr_switch,
        x < 0x1000,
    ensures
        n163_chr_addr(s, x) == n163_chr_addr(s, (x + 0x1000) as u16),
        n163_chr_addr(s, x) == x + s.latched_a9,
{
    let l = s.latched_a9;
    assert((x < 0x1000 && (l == 0 || l == 0x1000) ==> ((x & 0x0FFF) | l) == (((x + 0x1000) as u16 & 0x0FFF) | l))
        && (x < 0x1000 && (l == 0 || l == 0x1000) ==> ((x & 0x0FFF) | l) == x + l)) by (bit_vector);
}

/// $8000-$FFFF shows the 32 KB bank that $5200 (high bits) and $5000 (low
/// six bits) select, with the low two bits forced on while bit 0 of $5300 is
/// clear; the registers keep the bytes written to them.
pub proof fn law_n163_prg_window(s: Nanjing163State, i: u16, v: u8)
    requires
        s.prg_rom.len() > 0,
        i < 0x8000,
    ensures
        n163_prg_bank(s) == (((((s.reg_5200 & 0x0F) as usize) << 6usize) | ((s.reg_5000 & 0x3F) as usize))
            | (if s.reg_5300 & 0x01 == 0 { 3usize } else { 0usize })),
        <InesMapper163 as Mapper>::read_value(s, (0x8000 + i) as u16) == s.prg_rom[(n163_prg_bank(s) * 0x8000 + i)
            % (s.prg_rom.len() as int)],
        n163_after_write(s, 0x5000, v).reg_5000 == n163_data(s, 0x5000, v),
        n163_after_write(s, 0x5200, v).reg_5200 == n163_data(s, 0x5200, v),
        n163_after_write(s, 0x5300, v).reg_5300 == v,
{
    let b = (((s.reg_5200 & 0x0F) as usize) << 6usize) | ((s.reg_5000 & 0x3F) as usize);
    assert(b | 0usize == b) by (bit_vector);
}

/// The three bank registers hold the byte last stored to them: a write
/// elsewhere leaves each of them as it was, and a freshly built board holds
/// 0, 0 and 1, which selects PRG bank 0.
pub proof fn law_n163_prg_registers_keep_last_write(
    s: Nanjing163State,
    addr: u16,
    val: u8,
    prg: Seq<u8>,
    chr: Seq<u8>,
    m: Mirroring,
    save: Seq<u8>,
)
    ensures
        addr != 0x5000 ==> n163_after_write(s, addr, val).reg_5000 == s.reg_5000,
        addr != 0x5200 ==> n163_after_write(s, addr, val).reg_5200 == s.reg_5200,
        addr != 0x5300 ==> n163_after_write(s, addr, val).reg_5300 == s.reg_5300,
        n163_power_on(prg, chr, m, save).reg_5000 == 0,
        n163_power_on(prg, chr, m, save).reg_5200 == 0,
        n163_power_on(prg, chr, m, save).reg_5300 == 1,
        n163_prg_bank(n163_power_on(prg, chr, m, save)) == 0,
{
    let p = n163_power_on(prg, chr, m, save);
    let (r0, r2, r3) = (p.reg_5000, p.reg_5200, p.reg_5300);
    assert((((r2 & 0x0F) as usize) << 6usize) | ((r0 & 0x3F) as usize) == 0usize && r3 & 0x01 != 0)
        by (bit_vector)
        requires r0 == 0 && r2 == 0 && r3 == 1;
}

/// A rising edge of PPU A13 latches A9; other observations only track A13.
pub proof fn law_n163_a13_edge(s: Nanjing163State, addr: u16)
    ensures
        addr & 0x2000 != 0 && !s.last_a13 ==> <InesMapper163 as Mapper>::ppu_address_seen(s, addr).latched_a9
            == (if addr & 0x0200 != 0 { 0x1000u16 } else { 0u16 }),
        !(addr & 0x2000 != 0 && !s.last_a13) ==> <InesMapper163 as Mapper>::ppu_address_seen(s, addr).latched_a9
            == s.latched_a9,
        <InesMapper163 as Mapper>::ppu_address_seen(s, addr).last_a13 == (addr & 0x2000 != 0),
{
}

impl InesMapper163 {
    pub fn new(prg_rom: Box<[u8]>, chr_rom: Box<[u8]>, mirroring: Mirroring, game_save: GameSave) -> (m: Self)
        requires
            game_save@.len() == SAVE_RAM_SIZE,
        ensures
            <InesMapper163 as Mapper>::well_formed(m@),
            m@ == n163_power_on(prg_rom@, chr_rom@, mirroring, game_save@),
    {
        let chr_ram: Vec<u8> = if chr_rom.len() == 0 { vec![0u8; CHR_RAM_SIZE_163] } else { Vec::new() };
        let m = Self {
            game_save,
            prg_rom,
            chr_rom,
            chr_ram,
            mirroring,
            reg_5000: 0u8,
            reg_5100: 0,
            reg_5101: 0,
            reg_5200: 0u8,
            reg_5300: 1,
            last_a13: false,
            trigger_bit: true,
            auto_chr_switch: false,
            latched_a9: 0,
        };
        proof {
            if chr_rom@.len() == 0 {
                assert(m@.chr_ram =~= Seq::new(CHR_RAM_SIZE_163 as nat, |i: int| 0u8));
            } else {
                assert(m@.chr_ram =~= Seq::<u8>::empty());
            }
        }
        m
    }

    /// The 32 KB PRG bank that $8000-$FFFF shows.
    pub fn prg_bank(&self) -> (bank: usize)
        ensures
            bank == n163_prg_bank(self@),
            bank <= 0x3FF,
    {
        let hi = (self.reg_5200 & 0x0F) as usize;
        let lo = (self.reg_5000 & 0x3F) as usize;
        proof {
            let r2 = self.reg_5200;
            let r0 = self.reg_5000;
            assert((r2 & 0x0F) <= 0x0F && (r0 & 0x3F) <= 0x3F) by (bit_vector);
            assert(hi <= 0x0F && lo <= 0x3F ==> (hi << 6usize) | lo <= 0x3FF) by (bit_vector);
            let b = (hi << 6usize) | lo;
            assert(b <= 0x3FF ==> (b | 0x03) <= 0x3FF) by (bit_vector);
        }
        let mut bank = hi << 6 | lo;
        if (self.reg_5300 & 0x01) == 0 {
            bank |= 0x03;
        }
        bank
    }

    /// The Info message that a write of `val` at `addr` records: the
    /// latch registers $5100 and $5101 report each byte they take.
    pub fn latch_write_message(&self, addr: u16, val: u8) -> (m: Option<String>)
        ensures
            addr == 0x5100 || addr == 0x5101 ==> (m matches Some(s) && s@ == n163_latch_message(
                addr,
                n163_data(self@, addr, val),
            )),
            !(addr == 0x5100 || addr == 0x5101) ==> m is None,
    {
        let mut v = val;
        if (self.reg_5300 & 0x02) != 0 {
            v = (v & !0x03) | ((v & 1) << 1) | ((v >> 1) & 1);
        }
        if addr == 0x5100 {
            let mut s = "WR 5100: ".to_owned();
            push_hex_byte(&mut s, v);
            Some(s)
        } else if addr == 0x5101 {
            let mut s = "WR 5101: ".to_owned();
            push_hex_byte(&mut s, v);
            Some(s)
        } else {
            None
        }
    }

    fn chr_addr(&self, addr: u16) -> (a: u16)
        ensures
            a == n163_chr_addr(self@, addr),
    {
        if self.auto_chr_switch {
            (addr & 0x0FFF) | self.latched_a9
        } else {
            addr
        }
    }
}

impl Mapper for InesMapper163 {
    open spec fn well_formed(v: Nanjing163State) -> bool {
        &&& v.save.len() == SAVE_RAM_SIZE
        &&& v.chr_rom.len() == 0 ==> v.chr_ram.len() == CHR_RAM_SIZE_163
        &&& v.latched_a9 == 0 || v.latched_a9 == 0x1000
    }

    open spec fn read_defined(v: Nanjing163State, addr: u16) -> bool {
        0x8000 <= addr ==> v.prg_rom.len() > 0
    }

    open spec fn read_value(v: Nanjing163State, addr: u16) -> u8 {
        if 0x5000 <= addr <= 0x5FFF {
            let raw = n163_register_read(v, addr);
            if n163_swaps(v) {
                swap_low_bits(raw)
            } else {
                raw
            }
        } else if 0x6000 <= addr <= 0x7FFF {
            v.save[save_index(addr)]
        } else if 0x8000 <= addr {
            v.prg_rom[(n163_prg_bank(v) * 0x8000 + (addr - 0x8000)) % (v.prg_rom.len() as int)]
        } else {
            0
        }
    }

    open spec fn write_defined(v: Nanjing163State, addr: u16) -> bool {
        true
    }

    open spec fn written(v: Nanjing163State, addr: u16, val: u8) -> Nanjing163State {
        n163_after_write(v, addr, val)
    }

    open spec fn chr_read_defined(v: Nanjing163State, addr: u16) -> bool {
        n163_chr_addr(v, addr) < n163_pattern_memory(v).len()
    }

    open spec fn chr_value(v: Nanjing163State, addr: u16) -> u8 {
        n163_pattern_memory(v)[n163_chr_addr(v, addr) as int]
    }

    open spec fn chr_write_defined(v: Nanjing163State, addr: u16) -> bool {
        v.chr_rom.len() == 0 ==> n163_chr_addr(v, addr) < v.chr_ram.len()
    }

    open spec fn chr_written(v: Nanjing163State, addr: u16, val: u8) -> Nanjing163State {
        if v.chr_rom.len() == 0 {
            Nanjing163State { chr_ram: v.chr_ram.update(n163_chr_addr(v, addr) as int, val), ..v }
        } else {
            v
        }
    }

    open spec fn mirroring_defined(v: Nanjing163State) -> bool {
        true
    }

    open spec fn arrangement(v: Nanjing163State) -> Mirroring {
        v.mirroring
    }

    open spec fn irq_line(v: Nanjing163State) -> bool {
        false
    }

    open spec fn irq_acknowledged(v: Nanjing163State) -> Nanjing163State {
        v
    }

    open spec fn ppu_address_defined(v: Nanjing163State, addr: u16) -> bool {
        true
    }

    /// On a rising edge of PPU A13 the board latches A9 as the CHR half to show.
    open spec fn ppu_address_seen(v: Nanjing163State, addr: u16) -> Nanjing163State {
        let a13 = addr & 0x2000 != 0;
        if a13 && !v.last_a13 {
            Nanjing163State {
                latched_a9: if addr & 0x0200 != 0 { 0x1000u16 } else { 0x0000u16 },
                last_a13: a13,
                ..v
            }
        } else {
            Nanjing163State { last_a13: a13, ..v }
        }
    }

    proof fn lemma_ppu_side_keeps_arrangement(v: Nanjing163State, addr: u16, val: u8) {
    }

    fn read(&self, addr: u16) -> (r: u8) {
        if 0x5000 <= addr && addr <= 0x5FFF {
            let open_bus = (addr >> 8) as u8;
            let mut val = if addr == 0x5500 || addr == 0x5501 {
                let latch = self.reg_5100 & 0x0B;
                let trigger = if self.trigger_bit { 0x04 } else { 0x00 };
                latch | trigger | (open_bus & 0xF0)
            } else {
                open_bus
            };
            if (self.reg_5300 & 0x02) != 0 {
                val = (val & !0x03) | ((val & 1) << 1) | ((val >> 1) & 1);
            }
            val
        } else if 0x6000 <= addr && addr <= 0x7FFF {
            self.game_save.read(addr)
        } else if 0x8000 <= addr {
            let offset = (self.prg_bank() * 0x8000) + (addr as usize - 0x8000);
            self.prg_rom[offset % self.prg_rom.len()]
        } else {
            0
        }
    }

    fn write(&mut self, addr: u16, val: u8) {
        let mut val = val;
        if 0x5000 <= addr && addr <= 0x5200 && (self.reg_5300 & 0x02) != 0 {
            val = (val & !0x03) | ((val & 1) << 1) | ((val >> 1) & 1);
        }
        if addr == 0x5000 {
            self.reg_5000 = val;
            self.auto_chr_switch = (val & 0x80) != 0;
        } else if addr == 0x5100 {
            if (self.reg_5100 & 0x01) == 1 && (val & 0x01) == 0 {
                self.trigger_bit = !self.trigger_bit;
            }
            self.reg_5100 = val;
        } else if addr == 0x5101 {
            if (self.reg_5101 & 0x01) == 1 && (val & 0x01) == 0 {
                self.trigger_bit = !self.trigger_bit;
            }
            self.reg_5101 = val;
        } else if addr == 0x5200 {
            self.reg_5200 = val;
        } else if addr == 0x5300 {
            self.reg_5300 = val;
        } else if 0x6000 <= addr && addr <= 0x7FFF {
            self.game_save.write(addr, val);
        }
    }

    fn read_chr(&self, addr: u16) -> (r: u8) {
        let mapped_addr = self.chr_addr(addr);
        if self.chr_rom.len() != 0 {
            self.chr_rom[mapped_addr as usize]
        } else {
            self.chr_ram[mapped_addr as usize]
        }
    }

    fn write_chr(&mut self, addr: u16, val: u8) {
        if self.chr_rom.len() == 0 {
            let mapped_addr = self.chr_addr(addr);
            self.chr_ram.set(mapped_addr as usize, val);
        }
    }

    fn mirroring(&self) -> (m: Mirroring) {
        self.mirroring
    }

    fn irq_pending(&self) -> (r: bool) {
        false
    }

    fn acknowledge_irq(&mut self) {
    }

    fn notify_ppu_address(&mut self, addr: u16) {
        let current_a13 = (addr & 0x2000) != 0;
        if current_a13 && !self.last_a13 {
            self.latched_a9 = if (addr & 0x0200) != 0 { 0x1000 } else { 0x0000 };
        }
        self.last_a13 = current_a13;
    }
}

impl InesMapper163 {
    /// The battery-backed work RAM, to be kept between sessions.
    pub fn game_save(&self) -> (g: &GameSave)
        ensures
            g@ == self@.save,
    {
        &self.game_save
    }
}

} // verus!
