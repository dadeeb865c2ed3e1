use selectnes::game_save::GameSave;
use selectnes::mapper000::InesMapper000;
use selectnes::mapper001::InesMapper001;
use selectnes::mapper002::InesMapper002;
use selectnes::mapper003::InesMapper003;
use selectnes::mapper004::InesMapper004;
use selectnes::mapper009::InesMapper009;
use selectnes::mapper010::InesMapper010;
use selectnes::mapper163::InesMapper163;
use selectnes::mapper_base::{Mapper, Mirroring};

/// A PRG ROM of `banks` 8 KB banks, each byte holding its bank number.
fn banked_prg(banks: usize) -> Box<[u8]> {
    let mut v = Vec::new();
    for b in 0..banks {
        for _ in 0..8192 {
            v.push(b as u8);
        }
    }
    v.into_boxed_slice()
}

fn mmc3(banks: usize, chr: Vec<u8>) -> InesMapper004 {
    InesMapper004::new(banked_prg(banks), chr.into_boxed_slice(), Mirroring::Vertical, GameSave::new())
}

#[test]
fn mmc3_fixed_and_switchable_prg_banks() {
    let mut m = mmc3(8, vec![]);
    // power-on: R6 = R7 = 0, mode 0
    assert_eq!(m.read(0x8000), 0);
    assert_eq!(m.read(0xA000), 0);
    assert_eq!(m.read(0xC000), 6);
    assert_eq!(m.read(0xE000), 7);
    assert_eq!(m.read(0xFFFF), 7);
    // R6 = 3, R7 = 5
    m.write(0x8000, 6);
    m.write(0x8001, 3);
    m.write(0x8000, 7);
    m.write(0x8001, 5);
    assert_eq!(m.read(0x8000), 3);
    assert_eq!(m.read(0xA123), 5);
    assert_eq!(m.read(0xC000), 6);
    // PRG mode 1 swaps $8000 and $C000
    m.write(0x8000, 0x40 | 6);
    assert_eq!(m.read(0x8000), 6);
    assert_eq!(m.read(0xC000), 3);
    assert_eq!(m.read(0xE000), 7);
}

#[test]
fn mmc3_bank_number_wraps_around_rom() {
    let mut m = mmc3(4, vec![]);
    m.write(0x8000, 7);
    m.write(0x8001, 6); // bank 6 of a 4-bank ROM wraps to bank 2
    assert_eq!(m.read(0xA000), 2);
}

#[test]
fn mmc3_prg_ram_enable_and_protect() {
    let mut m = mmc3(4, vec![]);
    m.write(0x6000, 0x12); // chip disabled: ignored
    assert_eq!(m.read(0x6000), 0);
    m.write(0xA001, 0x80); // enable, writable
    m.write(0x6000, 0x12);
    m.write(0x7FFF, 0x34);
    assert_eq!(m.read(0x6000), 0x12);
    assert_eq!(m.read(0x7FFF), 0x34);
    m.write(0xA001, 0xC0); // enable, write-protected
    m.write(0x6000, 0x99);
    assert_eq!(m.read(0x6000), 0x12);
    assert_eq!(m.read(0x5000), 0);
}

#[test]
fn mmc3_nametable_arrangement_register() {
    let mut m = mmc3(4, vec![]);
    assert_eq!(m.mirroring(), Mirroring::Vertical);
    m.write(0xA000, 1);
    assert_eq!(m.mirroring(), Mirroring::Horizontal);
    m.write(0xA000, 0);
    assert_eq!(m.mirroring(), Mirroring::Vertical);
}

#[test]
fn mmc3_chr_banks_and_inversion() {
    let mut chr = Vec::new();
    for k in 0..16u32 {
        for _ in 0..1024 {
            chr.push(k as u8);
        }
    }
    let mut m = mmc3(4, chr);
    m.write(0x8000, 0); // R0: 2 KB bank at $0000 (low bit ignored)
    m.write(0x8001, 5);
    m.write(0x8000, 2); // R2: 1 KB bank at $1000
    m.write(0x8001, 9);
    assert_eq!(m.read_chr(0x0000), 4);
    assert_eq!(m.read_chr(0x0400), 5);
    assert_eq!(m.read_chr(0x1000), 9);
    // CHR A12 inversion swaps the halves
    m.write(0x8000, 0x80);
    assert_eq!(m.read_chr(0x0000), 9);
    assert_eq!(m.read_chr(0x1000), 4);
    // CHR ROM ignores writes
    m.write_chr(0x1000, 0xFF);
    assert_eq!(m.read_chr(0x0000), 9);
}

#[test]
fn mmc3_chr_ram_reads_back() {
    let mut m = mmc3(4, vec![]);
    m.write_chr(0x1ABC, 0x5A);
    assert_eq!(m.read_chr(0x1ABC), 0x5A);
}

#[test]
fn mmc3_scanline_irq() {
    let mut m = mmc3(4, vec![]);
    m.write(0xC000, 2); // latch = 2
    m.write(0xC001, 0); // reload
    m.write(0xE001, 0); // enable
    // first rising A12 edge reloads the counter with 2
    m.notify_ppu_address(0x0000);
    m.notify_ppu_address(0x1000);
    assert!(!m.irq_pending());
    // staying high does not clock
    m.notify_ppu_address(0x1000);
    // next edge: 1
    m.notify_ppu_address(0x0000);
    m.notify_ppu_address(0x1000);
    assert!(!m.irq_pending());
    // next edge: 0, interrupt
    m.notify_ppu_address(0x0000);
    m.notify_ppu_address(0x1000);
    assert!(m.irq_pending());
    m.acknowledge_irq();
    assert!(!m.irq_pending());
    // $E000 disables and acknowledges
    m.notify_ppu_address(0x0000);
    m.notify_ppu_address(0x1000);
    m.notify_ppu_address(0x0000);
    m.notify_ppu_address(0x1000);
    m.notify_ppu_address(0x0000);
    m.notify_ppu_address(0x1000);
    assert!(m.irq_pending());
    m.write(0xE000, 0);
    assert!(!m.irq_pending());
}

#[test]
fn mapper009_work_ram() {
    let mut persistent = InesMapper009::new(
        vec![0u8; 0x8000].into_boxed_slice(),
        vec![0u8; 0x2000].into_boxed_slice(),
        Mirroring::Vertical,
        Some(GameSave::new()),
    );
    persistent.write(0x6010, 0x42);
    assert_eq!(persistent.read(0x6010), 0x42);
    assert_eq!(persistent.read(0x8000), 0);

    let mut volatile = InesMapper009::new(
        vec![0u8; 0x8000].into_boxed_slice(),
        vec![0u8; 0x2000].into_boxed_slice(),
        Mirroring::Vertical,
        None,
    );
    volatile.write(0x6010, 0x42);
    // plain work RAM is never read back by this board
    assert_eq!(volatile.read(0x6010), 0);
    assert!(!volatile.irq_pending());
}

#[test]
fn mapper010_arrangement() {
    let m = InesMapper010::new(
        vec![0u8; 0x8000].into_boxed_slice(),
        vec![0u8; 0x2000].into_boxed_slice(),
        Mirroring::Horizontal,
        None,
    );
    assert_eq!(m.mirroring(), Mirroring::Horizontal);
    assert!(!m.irq_pending());
}

fn nanjing(chr: Vec<u8>) -> InesMapper163 {
    let mut prg = Vec::new();
    for b in 0..4u8 {
        for _ in 0..0x8000 {
            prg.push(b);
        }
    }
    InesMapper163::new(prg.into_boxed_slice(), chr.into_boxed_slice(), Mirroring::Vertical, GameSave::new())
}

#[test]
fn mapper163_prg_banks() {
    let mut m = nanjing(vec![]);
    // $5300 = 1 at power-on: the bank is $5200/$5000 as written
    assert_eq!(m.read(0x8000), 0);
    m.write(0x5000, 2);
    assert_eq!(m.read(0x8000), 2);
    // with bit 0 of $5300 clear the low two bank bits read as set
    m.write(0x5300, 0);
    assert_eq!(m.read(0x8000), 3);
    assert_eq!(m.prg_bank(), 3);
}

#[test]
fn mapper163_prg_bank_register_bits() {
    let mut m = nanjing(vec![]);
    assert_eq!(m.prg_bank(), 0);
    m.write(0x5200, 0x12); // low nibble: bank bits 6-9
    m.write(0x5000, 0x45); // low six bits: bank bits 0-5
    assert_eq!(m.prg_bank(), (2 << 6) | 5);
    m.write(0x6000, 0x99); // other writes keep the registers
    assert_eq!(m.prg_bank(), (2 << 6) | 5);
    m.write(0x5300, 0x02); // bit 1 set: writes to $5000-$5200 swap bits 0 and 1
    m.write(0x5000, 0x01);
    assert_eq!(m.prg_bank(), (2 << 6) | 3);
}

#[test]
fn mapper163_protection_latch() {
    let mut m = nanjing(vec![]);
    // trigger set at power-on, open bus $55 in the high nibble
    assert_eq!(m.read(0x5500), 0x54);
    m.write(0x5100, 0x01);
    assert_eq!(m.read(0x5500), 0x55);
    // 1 -> 0 on bit 0 flips the trigger
    m.write(0x5100, 0x00);
    assert_eq!(m.read(0x5501), 0x50);
    // open bus elsewhere
    assert_eq!(m.read(0x5A00), 0x5A);
    // scrambled data lines swap bits 0 and 1
    m.write(0x5300, 0x03);
    assert_eq!(m.read(0x5A00), 0x59);
}

#[test]
fn mapper163_work_ram_and_chr() {
    let mut m = nanjing(vec![]);
    m.write(0x7000, 0x77);
    assert_eq!(m.read(0x7000), 0x77);
    m.write_chr(0x1234, 0xAB);
    assert_eq!(m.read_chr(0x1234), 0xAB);
    // automatic CHR switching shows the half latched on the A13 edge
    m.write(0x5000, 0x80);
    m.notify_ppu_address(0x2200); // A13 rises with A9 set: upper half
    assert_eq!(m.read_chr(0x0234), 0xAB);
    m.notify_ppu_address(0x0000);
    m.notify_ppu_address(0x2000); // A13 rises with A9 clear: lower half
    assert_eq!(m.read_chr(0x1234), 0x00);
}

#[test]
fn mapper163_latch_messages() {
    let mut m = nanjing(vec![]);
    assert_eq!(m.latch_write_message(0x5100, 0x01).as_deref(), Some("WR 5100: 01"));
    m.write(0x5100, 0x01);
    assert_eq!(m.latch_write_message(0x5100, 0x00).as_deref(), Some("WR 5100: 00"));
    m.write(0x5100, 0x00);
    assert_eq!(m.read(0x5500), 0x50);
    m.write(0x5101, 0x01);
    m.write(0x5101, 0x00);
    assert_eq!(m.read(0x5500), 0x54);
    assert_eq!(m.latch_write_message(0x5101, 0xAF).as_deref(), Some("WR 5101: AF"));
    assert_eq!(m.latch_write_message(0x5200, 0x01), None);
    // with scrambled data lines the message shows the byte as stored
    m.write(0x5300, 0x02);
    assert_eq!(m.latch_write_message(0x5100, 0x01).as_deref(), Some("WR 5100: 02"));
}

#[test]
fn nrom_prg_repeat_and_chr_ram() {
    let mut m = InesMapper000::new(banked_prg(2), vec![].into_boxed_slice(), Mirroring::Horizontal);
    assert_eq!(m.read(0x8000), 0);
    assert_eq!(m.read(0xA000), 1);
    assert_eq!(m.read(0xC000), 0);
    assert_eq!(m.read(0xFFFF), 1);
    assert_eq!(m.read(0x6000), 0);
    m.write(0x8000, 0x55); // no registers: ignored
    assert_eq!(m.read(0x8000), 0);
    m.write_chr(0x1FFF, 0x42);
    assert_eq!(m.read_chr(0x1FFF), 0x42);
    assert_eq!(m.mirroring(), Mirroring::Horizontal);
    assert!(!m.irq_pending());
}

/// Loads `value` into the MMC1 register at `addr`, one bit per write.
fn mmc1_load(m: &mut InesMapper001, addr: u16, value: u8) {
    for i in 0..5 {
        m.write(addr, (value >> i) & 1);
    }
}

#[test]
fn mmc1_serial_registers() {
    let mut m = InesMapper001::new(banked_prg(8), vec![].into_boxed_slice(), GameSave::new());
    // power-on PRG mode 3: bank 0 at $8000, last 16 KB bank fixed at $C000
    assert_eq!(m.read(0x8000), 0);
    assert_eq!(m.read(0xC000), 6);
    // control: vertical arrangement, PRG mode 3
    mmc1_load(&mut m, 0x8000, 0x0E);
    assert_eq!(m.mirroring(), Mirroring::Vertical);
    // four writes are not enough to load a register
    for _ in 0..4 {
        m.write(0xE000, 1);
    }
    assert_eq!(m.read(0x8000), 0);
    m.write(0xE000, 0); // fifth bit: PRG bank 0b01111 = 15, wraps to bank 3
    assert_eq!(m.read(0x8000), 6);
    mmc1_load(&mut m, 0xE000, 1);
    assert_eq!(m.read(0x8000), 2);
    assert_eq!(m.read(0xE000), 7);
    // PRG mode 2: first bank fixed at $8000, switched bank at $C000
    mmc1_load(&mut m, 0x8000, 0x0B);
    assert_eq!(m.mirroring(), Mirroring::Horizontal);
    assert_eq!(m.read(0x8000), 0);
    assert_eq!(m.read(0xC000), 2);
    // a write with bit 7 set empties the shift register and sets PRG mode 3
    m.write(0x8000, 1);
    m.write(0x8000, 0x80);
    assert_eq!(m.read(0x8000), 2);
    assert_eq!(m.read(0xC000), 6);
    assert_eq!(m.mirroring(), Mirroring::Horizontal);
}

#[test]
fn mmc1_work_ram_and_chr_ram() {
    let mut m = InesMapper001::new(banked_prg(4), vec![].into_boxed_slice(), GameSave::new());
    m.write(0x6000, 0x77);
    assert_eq!(m.read(0x6000), 0x77);
    // bit 4 of the PRG bank register disables the work RAM
    mmc1_load(&mut m, 0xE000, 0x10);
    assert_eq!(m.read(0x6000), 0);
    m.write(0x6000, 0x12);
    mmc1_load(&mut m, 0xE000, 0x00);
    assert_eq!(m.read(0x6000), 0x77);
    m.write_chr(0x0100, 9);
    assert_eq!(m.read_chr(0x0100), 9);
}

#[test]
fn uxrom_switches_the_low_window() {
    let mut m = InesMapper002::new(banked_prg(8), Mirroring::Horizontal, GameSave::new());
    assert_eq!(m.read(0x8000), 0);
    assert_eq!(m.read(0xC000), 6);
    m.write(0x8000, 2);
    assert_eq!(m.read(0x8000), 4);
    assert_eq!(m.read(0xBFFF), 5);
    assert_eq!(m.read(0xC000), 6);
    m.write(0xFFFF, 5); // bank 5 of 4 wraps to bank 1
    assert_eq!(m.read(0x8000), 2);
    assert_eq!(m.read(0xE000), 7);
    m.write(0x7FFF, 0x31);
    assert_eq!(m.read(0x7FFF), 0x31);
    m.write_chr(0x0800, 0x66);
    assert_eq!(m.read_chr(0x0800), 0x66);
    assert_eq!(m.mirroring(), Mirroring::Horizontal);
}

#[test]
fn cnrom_switches_chr_banks() {
    let mut chr = vec![0x11u8; 0x2000];
    chr.extend(vec![0x22u8; 0x2000]);
    let mut m = InesMapper003::new(banked_prg(2), chr.into_boxed_slice(), Mirroring::Vertical, None);
    assert_eq!(m.read_chr(0x0000), 0x11);
    m.write(0x8000, 1);
    assert_eq!(m.read_chr(0x0000), 0x22);
    assert_eq!(m.read_chr(0x1FFF), 0x22);
    m.write(0x8000, 2); // bank 2 of 2 wraps to bank 0
    assert_eq!(m.read_chr(0x0000), 0x11);
    assert_eq!(m.read(0xC000), 0);
    m.write(0x6000, 0x44);
    assert_eq!(m.read(0x6000), 0x44);
    assert_eq!(m.mirroring(), Mirroring::Vertical);
}
