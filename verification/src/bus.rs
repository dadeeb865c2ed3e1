use vstd::prelude::*;

use crate::mapper_base::Mapper;

verus! {

/// What one step of the system clock raises for the CPU: a non-maskable
/// interrupt from the PPU, and the cartridge's interrupt line.
#[derive(Clone, Copy, Debug, PartialEq, Eq, Structural)]
pub struct TickResult {
    pub nmi: bool,
    pub irq: bool,
}

/// Where a CPU read lands on the system bus
/// ([CPU memory map](https://www.nesdev.org/wiki/CPU_memory_map)).
#[derive(Clone, Copy, Debug, PartialEq, Eq, Structural)]
pub enum CpuReadTarget {
    /// A byte of the 2 KiB CPU RAM.
    Ram(usize),
    /// One of the eight PPU registers.
    PpuRegister(u8),
    /// $4000-$4014: reads as 0.
    Unreadable,
    /// $4015: the APU status.
    ApuStatus,
    Joypad1,
    Joypad2,
    /// A byte of the normally disabled APU and I/O test registers.
    TestRegister(usize),
    /// The cartridge, at the address as given.
    Cartridge,
}

/// Where a CPU write lands on the system bus.
#[derive(Clone, Copy, Debug, PartialEq, Eq, Structural)]
pub enum CpuWriteTarget {
    /// A byte of the 2 KiB CPU RAM.
    Ram(usize),
    /// One of the eight PPU registers.
    PpuRegister(u8),
    /// $4014: copies a 256-byte page to the PPU's sprite memory.
    OamDma,
    /// $4016: the strobe of both controllers.
    Joypads,
    /// $4000-$4013, $4015 and $4017: an APU register.
    ApuRegister,
    /// A byte of the normally disabled APU and I/O test registers.
    TestRegister(usize),
    /// The cartridge, at the address as given.
    Cartridge,
}

/// The RAM byte of `addr`: the 2 KiB repeat over $0000-$1FFF.
pub open spec fn ram_index(addr: u16) -> usize {
    (addr & 0x07FF) as usize
}

/// The PPU register of `addr`: the eight repeat over $2000-$3FFF.
pub open spec fn ppu_register(addr: u16) -> u8 {
    (addr & 0x07) as u8
}

pub open spec fn cpu_read_target(addr: u16) -> CpuReadTarget {
    if addr <= 0x1FFF {
        CpuReadTarget::Ram(ram_index(addr))
    } else if addr <= 0x3FFF {
        CpuReadTarget::PpuRegister(ppu_register(addr))
    } else if addr <= 0x4014 {
        CpuReadTarget::Unreadable
    } else if addr == 0x4015 {
        CpuReadTarget::ApuStatus
    } else if addr == 0x4016 {
        CpuReadTarget::Joypad1
    } else if addr == 0x4017 {
        CpuReadTarget::Joypad2
    } else if addr <= 0x401F {
        CpuReadTarget::TestRegister((addr - 0x4018) as usize)
    } else {
        CpuReadTarget::Cartridge
    }
}

pub open spec fn cpu_write_target(addr: u16) -> CpuWriteTarget {
    if addr <= 0x1FFF {
        CpuWriteTarget::Ram(ram_index(addr))
    } else if addr <= 0x3FFF {
        CpuWriteTarget::PpuRegister(ppu_register(addr))
    } else if addr == 0x4014 {
        CpuWriteTarget::OamDma
    } else if addr == 0x4016 {
        CpuWriteTarget::Joypads
    } else if addr <= 0x4017 {
        CpuWriteTarget::ApuRegister
    } else if addr <= 0x401F {
        CpuWriteTarget::TestRegister((addr - 0x4018) as usize)
    } else {
        CpuWriteTarget::Cartridge
    }
}

/// Decodes the CPU address of a read.
pub fn decode_cpu_read(addr: u16) -> (t: CpuReadTarget)
    ensures
        t == cpu_read_target(addr),
{
    if addr <= 0x1FFF {
        CpuReadTarget::Ram((addr & 0x07FF) as usize)
    } else if addr <= 0x3FFF {
        CpuReadTarget::PpuRegister((addr & 0x07) as u8)
    } else if addr <= 0x4014 {
        CpuReadTarget::Unreadable
    } else if addr == 0x4015 {
        CpuReadTarget::ApuStatus
    } else if addr == 0x4016 {
        CpuReadTarget::Joypad1
    } else if addr == 0x4017 {
        CpuReadTarget::Joypad2
    } else if addr <= 0x401F {
        CpuReadTarget::TestRegister((addr - 0x4018) as usize)
    } else {
        CpuReadTarget::Cartridge
    }
}

/// Decodes the CPU address of a write.
pub fn decode_cpu_write(addr: u16) -> (t: CpuWriteTarget)
    ensures
        t == cpu_write_target(addr),
{
    if addr <= 0x1FFF {
        CpuWriteTarget::Ram((addr & 0x07FF) as usize)
    } else if addr <= 0x3FFF {
        CpuWriteTarget::PpuRegister((addr & 0x07) as u8)
    } else if addr == 0x4014 {
        CpuWriteTarget::OamDma
    } else if addr == 0x4016 {
        CpuWriteTarget::Joypads
    } else if addr <= 0x4017 {
        CpuWriteTarget::ApuRegister
    } else if addr <= 0x401F {
        CpuWriteTarget::TestRegister((addr - 0x4018) as usize)
    } else {
        CpuWriteTarget::Cartridge
    }
}

/// First address of the page that an OAM DMA write of `val` copies.
pub fn oam_dma_page_start(val: u8) -> (start: u16)
    ensures
        start == val * 256,
{
    proof {
        assert((val as u16) << 8u16 == val * 256) by (bit_vector);
    }
    (val as u16) << 8
}

/// CPU RAM repeats every $800 bytes below $2000 and the PPU registers every
/// 8 bytes below $4000, for reads and writes alike; RAM indices and test
/// register indices stay within their memories.
pub proof fn law_cpu_mirrors(a: u16, k: u16)
    ensures
        a <= 0x1FFF ==> ram_index(a) < 0x800 && ram_index(a) == a % 0x800,
        a + 0x800 * k <= 0x1FFF ==> cpu_read_target((a + 0x800 * k) as u16) == cpu_read_target(a)
            && cpu_write_target((a + 0x800 * k) as u16) == cpu_write_target(a),
        0x2000 <= a && a + 8 * k <= 0x3FFF ==> cpu_read_target((a + 8 * k) as u16) == cpu_read_target(a)
            && cpu_write_target((a + 8 * k) as u16) == cpu_write_target(a),
        0x4018 <= a <= 0x401F ==> cpu_read_target(a) == CpuReadTarget::TestRegister((a - 0x4018) as usize)
            && (a - 0x4018) < 8,
{
    assert(a <= 0x1FFF ==> (a & 0x07FF) < 0x800 && (a & 0x07FF) == a % 0x800
        && (k <= 3 && a + 0x800 * k <= 0x1FFF ==> (((a + 0x800 * k) as u16) & 0x07FF) == (a & 0x07FF))) by (bit_vector);
    assert(a + 8 * k <= 0x3FFF ==> (((a + 8 * k) as u16) & 0x07) == (a & 0x07)) by (bit_vector);
    assert(a + 0x800 * k <= 0x1FFF ==> k <= 3) by (nonlinear_arith);
}

/// The memory side of the CPU bus: the 2 KiB of CPU RAM, the normally
/// disabled APU and I/O test registers at $4018-$401F, and the cartridge.
/// $4000-$4014 read as 0. The PPU registers, the APU and the controllers
/// are devices of their own: an access that lands on them is not served
/// here and changes nothing.
pub struct BUS<M: Mapper> {
    cpu_memory: [u8; 0x0800],
    /// APU and I/O functionality that is normally disabled.
    apu_and_io_functionality: [u8; 0x08],
    pub mapper: M,
}

/// The state of the CPU bus.
pub struct CpuBusState<MV> {
    pub ram: Seq<u8>,
    pub test_registers: Seq<u8>,
    pub mapper: MV,
}

impl<M: Mapper> View for BUS<M> {
    type V = CpuBusState<M::V>;

    closed spec fn view(&self) -> CpuBusState<M::V> {
        CpuBusState { ram: self.cpu_memory@, test_registers: self.apu_and_io_functionality@, mapper: self.mapper@ }
    }
}

pub open spec fn cpubus_well_formed<M: Mapper>(s: CpuBusState<M::V>) -> bool {
    &&& s.ram.len() == 0x0800
    &&& s.test_registers.len() == 0x08
    &&& M::well_formed(s.mapper)
}

/// A read of `addr` is defined: the cartridge can serve it when it lands there.
pub open spec fn cpubus_read_defined<M: Mapper>(s: CpuBusState<M::V>, addr: u16) -> bool {
    cpu_read_target(addr) is Cartridge ==> M::read_defined(s.mapper, addr)
}

/// The byte that a read of `addr` gives, or `None` when the address
/// belongs to the PPU, the APU status or a controller.
pub open spec fn cpubus_read_value<M: Mapper>(s: CpuBusState<M::V>, addr: u16) -> Option<u8> {
    match cpu_read_target(addr) {
        CpuReadTarget::Ram(i) => Some(s.ram[i as int]),
        CpuReadTarget::Unreadable => Some(0u8),
        CpuReadTarget::TestRegister(i) => Some(s.test_registers[i as int]),
        CpuReadTarget::Cartridge => Some(M::read_value(s.mapper, addr)),
        _ => None,
    }
}

/// A write of `addr` is defined: the cartridge can take it when it lands there.
pub open spec fn cpubus_write_defined<M: Mapper>(s: CpuBusState<M::V>, addr: u16) -> bool {
    cpu_write_target(addr) is Cartridge ==> M::write_defined(s.mapper, addr)
}

/// The write of `addr` lands on this bus: CPU RAM, a test register or the cartridge.
pub open spec fn cpubus_serves_write(addr: u16) -> bool {
    match cpu_write_target(addr) {
        CpuWriteTarget::Ram(_) | CpuWriteTarget::TestRegister(_) | CpuWriteTarget::Cartridge => true,
        _ => false,
    }
}

/// The state after the CPU writes `val` at `addr`.
pub open spec fn cpubus_after_write<M: Mapper>(s: CpuBusState<M::V>, addr: u16, val: u8) -> CpuBusState<M::V> {
    match cpu_write_target(addr) {
        CpuWriteTarget::Ram(i) => CpuBusState { ram: s.ram.update(i as int, val), ..s },
        CpuWriteTarget::TestRegister(i) => CpuBusState { test_registers: s.test_registers.update(i as int, val), ..s },
        CpuWriteTarget::Cartridge => CpuBusState { mapper: M::written(s.mapper, addr, val), ..s },
        _ => s,
    }
}

/// The little-endian word at `pos` and `pos + 1`, when the bus serves both bytes.
pub open spec fn cpubus_word_value<M: Mapper>(s: CpuBusState<M::V>, pos: u16) -> Option<u16> {
    match (cpubus_read_value::<M>(s, pos), cpubus_read_value::<M>(s, (pos + 1) as u16)) {
        (Some(lo), Some(hi)) => Some((hi * 256 + lo) as u16),
        _ => None,
    }
}

/// The state after the word `data` is written at `pos`: low byte first,
/// then the high byte at `pos + 1`.
pub open spec fn cpubus_after_word_write<M: Mapper>(s: CpuBusState<M::V>, pos: u16, data: u16) -> CpuBusState<M::V> {
    cpubus_after_write::<M>(
        cpubus_after_write::<M>(s, pos, (data % 256) as u8),
        (pos + 1) as u16,
        (data / 256) as u8,
    )
}

proof fn lemma_target_indices(addr: u16)
    ensures
        addr <= 0x1FFF ==> (addr & 0x07FF) < 0x800,
        0x4018 <= addr <= 0x401F ==> addr - 0x4018 < 8,
{
    assert((addr & 0x07FF) < 0x800) by (bit_vector);
}

impl<M: Mapper> BUS<M> {
    /// A bus with cleared RAM and test registers around `mapper`.
    pub fn new(mapper: M) -> (bus: Self)
        ensures
            bus@.ram == Seq::new(0x0800, |i: int| 0u8),
            bus@.test_registers == Seq::new(0x08, |i: int| 0u8),
            bus@.mapper == mapper@,
    {
        let bus = BUS { cpu_memory: [0u8; 0x0800], apu_and_io_functionality: [0u8; 0x08], mapper };
        proof {
            assert(bus@.ram =~= Seq::new(0x0800, |i: int| 0u8));
            assert(bus@.test_registers =~= Seq::new(0x08, |i: int| 0u8));
        }
        bus
    }

    /// Reads `addr`; `None` when the address belongs to another device.
    pub fn mem_read(&self, addr: u16) -> (r: Option<u8>)
        requires
            cpubus_well_formed::<M>(self@),
            cpubus_read_defined::<M>(self@, addr),
        ensures
            r == cpubus_read_value::<M>(self@, addr),
    {
        proof { lemma_target_indices(addr); }
        match decode_cpu_read(addr) {
            CpuReadTarget::Ram(i) => Some(self.cpu_memory[i]),
            CpuReadTarget::Unreadable => Some(0),
            CpuReadTarget::TestRegister(i) => Some(self.apu_and_io_functionality[i]),
            CpuReadTarget::Cartridge => Some(self.mapper.read(addr)),
            _ => None,
        }
    }

    /// Writes `val` at `addr`; tells whether the write landed on this bus.
    pub fn mem_write(&mut self, addr: u16, val: u8) -> (served: bool)
        requires
            cpubus_well_formed::<M>(old(self)@),
            cpubus_write_defined::<M>(old(self)@, addr),
        ensures
            final(self)@ == cpubus_after_write::<M>(old(self)@, addr, val),
            cpubus_well_formed::<M>(final(self)@),
            served == cpubus_serves_write(addr),
    {
        proof { lemma_target_indices(addr); }
        match decode_cpu_write(addr) {
            CpuWriteTarget::Ram(i) => {
                self.cpu_memory[i] = val;
                true
            },
            CpuWriteTarget::TestRegister(i) => {
                self.apu_and_io_functionality[i] = val;
                true
            },
            CpuWriteTarget::Cartridge => {
                // the mapper gets the address as the CPU put it on the bus
                self.mapper.write(addr, val);
                true
            },
            _ => false,
        }
    }

    /// Reads the little-endian word at `pos`.
    pub fn mem_read_u16(&self, pos: u16) -> (r: Option<u16>)
        requires
            pos < 0xFFFF,
            cpubus_well_formed::<M>(self@),
            cpubus_read_defined::<M>(self@, pos),
            cpubus_read_defined::<M>(self@, (pos + 1) as u16),
        ensures
            r == cpubus_word_value::<M>(self@, pos),
    {
        let lo = self.mem_read(pos);
        let hi = self.mem_read(pos + 1);
        match (lo, hi) {
            (Some(lo), Some(hi)) => {
                proof {
                    assert(((hi as u16) << 8u16) | (lo as u16) == hi * 256 + lo) by (bit_vector);
                }
                Some(((hi as u16) << 8) | (lo as u16))
            },
            _ => None,
        }
    }

    /// Writes the word `data` at `pos`, low byte first; tells whether both
    /// bytes landed on this bus.
    pub fn mem_write_u16(&mut self, pos: u16, data: u16) -> (served: bool)
        requires
            pos < 0xFFFF,
            cpubus_well_formed::<M>(old(self)@),
            cpubus_write_defined::<M>(old(self)@, pos),
            cpubus_write_defined::<M>(cpubus_after_write::<M>(old(self)@, pos, (data % 256) as u8), (pos + 1) as u16),
        ensures
            final(self)@ == cpubus_after_word_write::<M>(old(self)@, pos, data),
            cpubus_well_formed::<M>(final(self)@),
            served == (cpubus_serves_write(pos) && cpubus_serves_write((pos + 1) as u16)),
    {
        let hi = (data >> 8) as u8;
        let lo = (data & 0xff) as u8;
        proof {
            assert((data >> 8u16) as u8 == (data / 256) as u8 && (data & 0xff) as u8 == (data % 256) as u8)
                by (bit_vector);
        }
        let first = self.mem_write(pos, lo);
        let second = self.mem_write(pos + 1, hi);
        first && second
    }
}

/// CPU RAM gives back what was last written to the same byte: a write to
/// one address is seen at every address that mirrors it and nowhere else
/// in RAM.
pub proof fn law_cpu_ram_read_after_write<M: Mapper>(s: CpuBusState<M::V>, a: u16, b: u16, v: u8)
    requires
        cpubus_well_formed::<M>(s),
        a <= 0x1FFF,
        b <= 0x1FFF,
    ensures
        cpubus_read_value::<M>(cpubus_after_write::<M>(s, a, v), b) == (if a % 0x800 == b % 0x800 {
            Some(v)
        } else {
            cpubus_read_value::<M>(s, b)
        }),
        cpubus_after_write::<M>(s, a, v).mapper == s.mapper,
        cpubus_after_write::<M>(s, a, v).test_registers == s.test_registers,
        cpubus_well_formed::<M>(cpubus_after_write::<M>(s, a, v)),
{
    law_cpu_mirrors(a, 0);
    law_cpu_mirrors(b, 0);
}

/// The test registers at $4018-$401F give back what was last written to them.
pub proof fn law_test_register_read_after_write<M: Mapper>(s: CpuBusState<M::V>, a: u16, b: u16, v: u8)
    requires
        cpubus_well_formed::<M>(s),
        0x4018 <= a <= 0x401F,
        0x4018 <= b <= 0x401F,
    ensures
        cpubus_read_value::<M>(cpubus_after_write::<M>(s, a, v), b) == (if a == b {
            Some(v)
        } else {
            cpubus_read_value::<M>(s, b)
        }),
        cpubus_after_write::<M>(s, a, v).mapper == s.mapper,
        cpubus_after_write::<M>(s, a, v).ram == s.ram,
{
}

/// Accesses from $4020 up go to the cartridge at the address as given, and
/// a write there leaves RAM and the test registers alone.
pub proof fn law_cartridge_forwarding<M: Mapper>(s: CpuBusState<M::V>, addr: u16, v: u8)
    requires
        0x4020 <= addr,
    ensures
        cpubus_read_value::<M>(s, addr) == Some(M::read_value(s.mapper, addr)),
        cpubus_after_write::<M>(s, addr, v) == (CpuBusState { mapper: M::written(s.mapper, addr, v), ..s }),
{
}

/// A word written to CPU RAM reads back unchanged, at its own address and
/// at every mirror of it.
pub proof fn law_cpu_ram_word_round_trip<M: Mapper>(s: CpuBusState<M::V>, pos: u16, data: u16, k: u16)
    requires
        cpubus_well_formed::<M>(s),
        pos + 1 <= 0x1FFF,
        pos % 0x800 + 0x800 * k + 1 <= 0x1FFF,
    ensures
        cpubus_word_value::<M>(cpubus_after_word_write::<M>(s, pos, data), pos) == Some(data),
        cpubus_word_value::<M>(cpubus_after_word_write::<M>(s, pos, data), (pos % 0x800 + 0x800 * k) as u16)
            == Some(data),
{
    let lo = (data % 256) as u8;
    let hi = (data / 256) as u8;
    let s1 = cpubus_after_write::<M>(s, pos, lo);
    let s2 = cpubus_after_write::<M>(s1, (pos + 1) as u16, hi);
    let q = (pos % 0x800 + 0x800 * k) as u16;
    law_cpu_ram_read_after_write::<M>(s, pos, pos, lo);
    law_cpu_ram_read_after_write::<M>(s, pos, (pos + 1) as u16, lo);
    law_cpu_ram_read_after_write::<M>(s1, (pos + 1) as u16, pos, hi);
    law_cpu_ram_read_after_write::<M>(s1, (pos + 1) as u16, (pos + 1) as u16, hi);
    law_cpu_ram_read_after_write::<M>(s, pos, q, lo);
    law_cpu_ram_read_after_write::<M>(s, pos, (q + 1) as u16, lo);
    law_cpu_ram_read_after_write::<M>(s1, (pos + 1) as u16, q, hi);
    law_cpu_ram_read_after_write::<M>(s1, (pos + 1) as u16, (q + 1) as u16, hi);
    assert(hi * 256 + lo == data);
}

/// The CPU memory map, address by address: RAM below $2000 (every $800
/// bytes), the eight PPU registers up to $3FFF (every 8 bytes), the APU
/// registers $4000-$4013, $4015 and $4017 for writes, the sprite DMA at
/// $4014 alone, both controllers' strobe at $4016, the test registers at
/// $4018-$401F and the cartridge from $4020. Reads of $4000-$4014 give 0,
/// $4015 is the APU status and $4016/$4017 the two controllers.
pub proof fn law_cpu_memory_map(a: u16)
    ensures
        (cpu_write_target(a) is Ram) <==> a <= 0x1FFF,
        a <= 0x1FFF ==> cpu_write_target(a) == CpuWriteTarget::Ram((a % 0x800) as usize)
            && cpu_read_target(a) == CpuReadTarget::Ram((a % 0x800) as usize),
        (cpu_write_target(a) is PpuRegister) <==> 0x2000 <= a <= 0x3FFF,
        0x2000 <= a <= 0x3FFF ==> cpu_write_target(a) == CpuWriteTarget::PpuRegister((a % 8) as u8)
            && cpu_read_target(a) == CpuReadTarget::PpuRegister((a % 8) as u8),
        (cpu_write_target(a) == CpuWriteTarget::OamDma) <==> a == 0x4014,
        (cpu_write_target(a) == CpuWriteTarget::Joypads) <==> a == 0x4016,
        (cpu_write_target(a) == CpuWriteTarget::ApuRegister) <==> (0x4000 <= a <= 0x4017 && a != 0x4014 && a
            != 0x4016),
        (cpu_write_target(a) is TestRegister) <==> 0x4018 <= a <= 0x401F,
        0x4018 <= a <= 0x401F ==> cpu_write_target(a) == CpuWriteTarget::TestRegister((a - 0x4018) as usize)
            && cpu_read_target(a) == CpuReadTarget::TestRegister((a - 0x4018) as usize),
        (cpu_write_target(a) == CpuWriteTarget::Cartridge) <==> 0x4020 <= a,
        (cpu_read_target(a) is Ram) <==> a <= 0x1FFF,
        (cpu_read_target(a) is PpuRegister) <==> 0x2000 <= a <= 0x3FFF,
        (cpu_read_target(a) == CpuReadTarget::Unreadable) <==> 0x4000 <= a <= 0x4014,
        (cpu_read_target(a) == CpuReadTarget::ApuStatus) <==> a == 0x4015,
        (cpu_read_target(a) == CpuReadTarget::Joypad1) <==> a == 0x4016,
        (cpu_read_target(a) == CpuReadTarget::Joypad2) <==> a == 0x4017,
        (cpu_read_target(a) is TestRegister) <==> 0x4018 <= a <= 0x401F,
        (cpu_read_target(a) == CpuReadTarget::Cartridge) <==> 0x4020 <= a,
{
    assert((a & 0x07FF) == a % 0x800 && (a & 0x07) == a % 8) by (bit_vector);
}

/// Words are little-endian: a word written to CPU RAM puts its low byte at
/// its address and its high byte at the next one, and a word read takes the
/// byte at the next address as its high byte.
pub proof fn law_words_little_endian<M: Mapper>(s: CpuBusState<M::V>, pos: u16, data: u16)
    requires
        cpubus_well_formed::<M>(s),
        pos + 1 <= 0x1FFF,
    ensures
        cpubus_read_value::<M>(cpubus_after_word_write::<M>(s, pos, data), pos) == Some((data % 256) as u8),
        cpubus_read_value::<M>(cpubus_after_word_write::<M>(s, pos, data), (pos + 1) as u16) == Some(
            (data / 256) as u8,
        ),
        cpubus_word_value::<M>(s, pos) == Some(
            (s.ram[((pos + 1) % 0x800) as int] * 256 + s.ram[(pos % 0x800) as int]) as u16,
        ),
{
    let s1 = cpubus_after_write::<M>(s, pos, (data % 256) as u8);
    law_cpu_ram_read_after_write::<M>(s, pos, pos, (data % 256) as u8);
    law_cpu_ram_read_after_write::<M>(s1, (pos + 1) as u16, pos, (data / 256) as u8);
    law_cpu_ram_read_after_write::<M>(s1, (pos + 1) as u16, (pos + 1) as u16, (data / 256) as u8);
    law_cpu_mirrors(pos, 0);
    law_cpu_mirrors((pos + 1) as u16, 0);
}

} // verus!
