use vstd::prelude::*;

use crate::mapper_base::{Mapper, Mirroring};

verus! {

/// The PPU's address space: pattern tables on the cartridge, 2 KiB of
/// nametable VRAM and 32 bytes of palette RAM.
pub struct PPUBUS<M: Mapper> {
    /// 32 byte palette: 16 for the background, 16 for sprites
    pub palette_ram: [u8; 0x20],
    /// 2 KiB VRAM
    vram: [u8; 0x0800],
    pub mapper: M,
}

/// The state of the PPU bus.
pub struct PpuBusState<MV> {
    pub palette: Seq<u8>,
    pub vram: Seq<u8>,
    pub mapper: MV,
}

impl<M: Mapper> View for PPUBUS<M> {
    type V = PpuBusState<M::V>;

    closed spec fn view(&self) -> PpuBusState<M::V> {
        PpuBusState { palette: self.palette_ram@, vram: self.vram@, mapper: self.mapper@ }
    }
}

/// The 14-bit PPU address that `addr` stands for.
pub open spec fn ppu_addr(addr: u16) -> u16 {
    addr & 0x3FFF
}

/// Pattern tables, on the cartridge.
pub open spec fn is_pattern_addr(a: u16) -> bool {
    a <= 0x1FFF
}

/// Nametables, in VRAM.
pub open spec fn is_nametable_addr(a: u16) -> bool {
    0x2000 <= a <= 0x3EFF
}

/// Palette RAM.
pub open spec fn is_palette_addr(a: u16) -> bool {
    0x3F00 <= a <= 0x3FFF
}

/// Palette slot that a read of `a` gives: the 32 bytes repeat over
/// $3F00-$3FFF, and $3F10/$3F14/$3F18/$3F1C show $3F00/$3F04/$3F08/$3F0C.
pub open spec fn palette_read_index(a: u16) -> int {
    let p = a & 0x1F;
    if p & 0x13 == 0x10 {
        (p & 0x0F) as int
    } else {
        p as int
    }
}

/// Palette slot that a write of `a` stores to.
pub open spec fn palette_write_index(a: u16) -> int {
    let p = (a & 0x1F) as int;
    if p >= 0x10 && p % 4 == 0 {
        p - 0x10
    } else {
        p
    }
}

/// VRAM offset of the nametable address `a` under the arrangement `m`;
/// $3000-$3EFF repeats $2000-$2EFF.
pub open spec fn nametable_index(m: Mirroring, a: u16) -> int {
    let n = ((a - 0x2000) as u16) & 0x0FFF;
    match m {
        Mirroring::Vertical => (n & 0x07FF) as int,
        Mirroring::Horizontal => ((n & 0x03FF) + ((n & 0x0800) >> 1)) as int,
        Mirroring::SingleScreenLower => (n & 0x03FF) as int,
        Mirroring::SingleScreenUpper => ((n & 0x03FF) + 0x0400) as int,
    }
}

/// The PPU address `addr` is accessible on this bus state without fault
/// for a read (`write == false`) or a write.
pub open spec fn ppubus_access_defined<M: Mapper>(s: PpuBusState<M::V>, addr: u16, write: bool) -> bool {
    let a = ppu_addr(addr);
    &&& is_pattern_addr(a) && !write ==> M::chr_read_defined(s.mapper, a)
    &&& is_pattern_addr(a) && write ==> M::chr_write_defined(s.mapper, a)
    &&& is_nametable_addr(a) ==> M::mirroring_defined(s.mapper)
}

/// The well-formedness of a bus state.
pub open spec fn ppubus_well_formed<M: Mapper>(s: PpuBusState<M::V>) -> bool {
    &&& s.palette.len() == 0x20
    &&& s.vram.len() == 0x0800
    &&& M::well_formed(s.mapper)
}

/// The byte that the bus gives for `addr` without side effects.
pub open spec fn ppubus_value<M: Mapper>(s: PpuBusState<M::V>, addr: u16) -> u8 {
    let a = ppu_addr(addr);
    if is_palette_addr(a) {
        s.palette[palette_read_index(a)]
    } else if is_pattern_addr(a) {
        M::chr_value(s.mapper, a)
    } else {
        s.vram[nametable_index(M::arrangement(s.mapper), a)]
    }
}

/// The bus state after `data` is written at `addr`.
pub open spec fn ppubus_after_write<M: Mapper>(s: PpuBusState<M::V>, addr: u16, data: u8) -> PpuBusState<M::V> {
    let a = ppu_addr(addr);
    if is_pattern_addr(a) {
        PpuBusState { mapper: M::chr_written(s.mapper, a, data), ..s }
    } else if is_nametable_addr(a) {
        PpuBusState { vram: s.vram.update(nametable_index(M::arrangement(s.mapper), a), data), ..s }
    } else {
        PpuBusState { palette: s.palette.update(palette_write_index(a), data), ..s }
    }
}

/// The bus state after a read of `addr`: the cartridge sees every address
/// below the palette.
pub open spec fn ppubus_after_read<M: Mapper>(s: PpuBusState<M::V>, addr: u16) -> PpuBusState<M::V> {
    let a = ppu_addr(addr);
    if a < 0x3F00 {
        PpuBusState { mapper: M::ppu_address_seen(s.mapper, a), ..s }
    } else {
        s
    }
}

/// A read of `addr` is defined: the cartridge can observe the address and
/// then serve it.
pub open spec fn ppubus_read_defined<M: Mapper>(s: PpuBusState<M::V>, addr: u16) -> bool {
    let a = ppu_addr(addr);
    &&& a < 0x3F00 ==> M::ppu_address_defined(s.mapper, a)
    &&& ppubus_access_defined::<M>(ppubus_after_read::<M>(s, addr), addr, false)
}

proof fn lemma_address_bits(addr: u16)
    ensures
        (addr & 0x3FFF) <= 0x3FFF,
        ((addr & 0x3FFF) & 0x1F) < 0x20,
        ((addr & 0x3FFF) & 0x1F) & 0x13 == 0x10 ==> (((addr & 0x3FFF) & 0x1F) & 0x0F) < 0x20,
        ((addr & 0x3FFF) & 0x1F) as usize == ((addr & 0x3FFF) & 0x1F) as int,
{
    assert(((addr & 0x3FFF) <= 0x3FFF)
        && (((addr & 0x3FFF) & 0x1F) < 0x20)
        && ((((addr & 0x3FFF) & 0x1F) & 0x0F) < 0x20)) by (bit_vector);
}

proof fn lemma_nametable_bits(n: u16)
    requires
        n <= 0x0FFF,
    ensures
        (n & 0x07FF) < 0x800,
        (n & 0x03FF) + ((n & 0x0800) >> 1) < 0x800,
        (n & 0x03FF) < 0x400,
{
    assert((n & 0x07FF) < 0x800) by (bit_vector);
    assert((n & 0x03FF) + ((n & 0x0800) >> 1) < 0x800) by (bit_vector)
        requires n <= 0x0FFF;
    assert((n & 0x03FF) < 0x400) by (bit_vector);
}

pub proof fn lemma_nametable_index_in_vram(m: Mirroring, a: u16)
    requires
        is_nametable_addr(a),
    ensures
        0 <= nametable_index(m, a) < 0x800,
{
    let n = ((a - 0x2000) as u16) & 0x0FFF;
    assert(n <= 0x0FFF) by (bit_vector)
        requires n == ((a - 0x2000) as u16) & 0x0FFF;
    lemma_nametable_bits(n);
}

pub proof fn lemma_palette_indices_in_ram(a: u16)
    ensures
        0 <= palette_read_index(a) < 0x20,
        0 <= palette_write_index(a) < 0x20,
{
    let p = a & 0x1F;
    assert(p < 0x20) by (bit_vector) requires p == a & 0x1F;
    assert(p & 0x13 == 0x10 ==> (p & 0x0F) < 0x20) by (bit_vector);
}


/// `a` and `b` name the same byte of nametable VRAM or of palette RAM.
pub open spec fn same_cell(m: Mirroring, a: u16, b: u16) -> bool {
    let pa = ppu_addr(a);
    let pb = ppu_addr(b);
    ||| (is_nametable_addr(pa) && is_nametable_addr(pb) && nametable_index(m, pa) == nametable_index(m, pb))
    ||| (is_palette_addr(pa) && is_palette_addr(pb) && palette_write_index(pa) == palette_read_index(pb))
}

/// Reading back: after `d` is written at a nametable or palette address `a`,
/// a read of any nametable or palette address `b` gives `d` when `b` names
/// the same byte, and what it gave before otherwise.
pub proof fn law_read_after_write<M: Mapper>(s: PpuBusState<M::V>, a: u16, d: u8, b: u16)
    requires
        ppubus_well_formed::<M>(s),
        M::mirroring_defined(s.mapper),
        !is_pattern_addr(ppu_addr(a)),
        !is_pattern_addr(ppu_addr(b)),
    ensures
        ppubus_value::<M>(ppubus_after_read::<M>(ppubus_after_write::<M>(s, a, d), b), b) == (if same_cell(
            M::arrangement(s.mapper),
            a,
            b,
        ) {
            d
        } else {
            ppubus_value::<M>(s, b)
        }),
{
    let pa = ppu_addr(a);
    let pb = ppu_addr(b);
    lemma_address_bits(a);
    lemma_address_bits(b);
    lemma_palette_indices_in_ram(pa);
    lemma_palette_indices_in_ram(pb);
    M::lemma_ppu_side_keeps_arrangement(s.mapper, pb, d);
    if is_nametable_addr(pa) {
        lemma_nametable_index_in_vram(M::arrangement(s.mapper), pa);
    }
    if is_nametable_addr(pb) {
        lemma_nametable_index_in_vram(M::arrangement(s.mapper), pb);
    }
}

/// Reading leaves VRAM and palette RAM as they were, so a nametable or
/// palette address reads the same before and after any read.
pub proof fn law_read_keeps_memory<M: Mapper>(s: PpuBusState<M::V>, a: u16, b: u16)
    requires
        ppubus_well_formed::<M>(s),
        M::mirroring_defined(s.mapper),
        !is_pattern_addr(ppu_addr(b)),
    ensures
        ppubus_after_read::<M>(s, a).vram == s.vram,
        ppubus_after_read::<M>(s, a).palette == s.palette,
        ppubus_value::<M>(ppubus_after_read::<M>(s, a), b) == ppubus_value::<M>(s, b),
{
    lemma_address_bits(a);
    M::lemma_ppu_side_keeps_arrangement(s.mapper, ppu_addr(a), 0);
}

/// Every write to the nametables or the palette, and every read, keeps the
/// bus well formed.
pub proof fn law_well_formed_kept<M: Mapper>(s: PpuBusState<M::V>, a: u16, d: u8)
    requires
        ppubus_well_formed::<M>(s),
        ppubus_access_defined::<M>(s, a, true),
    ensures
        ppubus_well_formed::<M>(ppubus_after_write::<M>(s, a, d)),
        ppubus_well_formed::<M>(ppubus_after_read::<M>(s, a)),
{
    lemma_address_bits(a);
    M::lemma_ppu_side_keeps_arrangement(s.mapper, ppu_addr(a), d);
    let t = ppubus_after_write::<M>(s, a, d);
    if is_pattern_addr(ppu_addr(a)) {
        assert(t.mapper == M::chr_written(s.mapper, ppu_addr(a), d));
    } else if is_nametable_addr(ppu_addr(a)) {
        lemma_nametable_index_in_vram(M::arrangement(s.mapper), ppu_addr(a));
    } else {
        lemma_palette_indices_in_ram(ppu_addr(a));
    }
}

/// The palette repeats every 32 bytes over $3F00-$3FFF.
pub proof fn law_palette_repeats(a: u16)
    requires
        0x3F00 <= a <= 0x3FDF,
    ensures
        palette_read_index((a + 0x20) as u16) == palette_read_index(a),
        palette_write_index((a + 0x20) as u16) == palette_write_index(a),
{
    assert(0x3F00 <= a <= 0x3FDF ==> (((a + 0x20) as u16) & 0x1F) == (a & 0x1F)) by (bit_vector);
}

/// $3F10, $3F14, $3F18 and $3F1C are the same bytes as $3F00, $3F04, $3F08
/// and $3F0C, for reads and for writes; the other 28 slots are distinct.
pub proof fn law_palette_sprite_backdrop_mirror(k: u16)
    requires
        k < 0x20,
    ensures
        k >= 0x10 && k % 4 == 0 ==> palette_write_index((0x3F00 + k) as u16) == k - 0x10
            && palette_read_index((0x3F00 + k) as u16) == k - 0x10,
        !(k >= 0x10 && k % 4 == 0) ==> palette_write_index((0x3F00 + k) as u16) == k
            && palette_read_index((0x3F00 + k) as u16) == k,
{
    let a = (0x3F00 + k) as u16;
    assert((k < 0x20 ==> (((0x3F00 + k) as u16) & 0x1F) == k)
        && (k < 0x20 ==> ((k & 0x13 == 0x10) <==> (k >= 0x10 && k % 4 == 0)))
        && (k < 0x20 && k >= 0x10 ==> (k & 0x0F) == k - 0x10)) by (bit_vector);
}

/// $3000-$3EFF shows the same bytes as $2000-$2EFF, whatever the arrangement.
pub proof fn law_nametable_upper_mirror(m: Mirroring, a: u16)
    requires
        0x2000 <= a <= 0x2EFF,
    ensures
        nametable_index(m, (a + 0x1000) as u16) == nametable_index(m, a),
{
    assert(0x2000 <= a <= 0x2EFF ==> ((((a + 0x1000) as u16 - 0x2000) as u16) & 0x0FFF) == (((a - 0x2000) as u16) & 0x0FFF)) by (bit_vector);
}

/// Horizontal arrangement: $2000 and $2400 are one nametable, $2800 and
/// $2C00 the other, and the two do not overlap.
pub proof fn law_horizontal_arrangement(x: u16, y: u16)
    requires
        x < 0x400,
        y < 0x400,
    ensures
        nametable_index(Mirroring::Horizontal, (0x2000 + x) as u16) == nametable_index(Mirroring::Horizontal, (0x2400 + x) as u16),
        nametable_index(Mirroring::Horizontal, (0x2800 + x) as u16) == nametable_index(Mirroring::Horizontal, (0x2C00 + x) as u16),
        nametable_index(Mirroring::Horizontal, (0x2000 + x) as u16) != nametable_index(Mirroring::Horizontal, (0x2800 + y) as u16),
        nametable_index(Mirroring::Horizontal, (0x2000 + x) as u16) == x,
        nametable_index(Mirroring::Horizontal, (0x2800 + x) as u16) == 0x400 + x,
{
    assert((x < 0x400 ==> ((((((0x2000 + x) as u16 - 0x2000) as u16) & 0x0FFF) & 0x03FF) + ((((((0x2000 + x) as u16
        - 0x2000) as u16) & 0x0FFF) & 0x0800) >> 1) == x)) && (x < 0x400 ==> ((((((0x2400 + x) as u16 - 0x2000) as u16)
        & 0x0FFF) & 0x03FF) + ((((((0x2400 + x) as u16 - 0x2000) as u16) & 0x0FFF) & 0x0800) >> 1) == x)) && (x
        < 0x400 ==> ((((((0x2800 + x) as u16 - 0x2000) as u16) & 0x0FFF) & 0x03FF) + ((((((0x2800 + x) as u16
        - 0x2000) as u16) & 0x0FFF) & 0x0800) >> 1) == 0x400 + x)) && (x < 0x400 ==> ((((((0x2C00 + x) as u16
        - 0x2000) as u16) & 0x0FFF) & 0x03FF) + ((((((0x2C00 + x) as u16 - 0x2000) as u16) & 0x0FFF) & 0x0800)
        >> 1) == 0x400 + x)) && (y < 0x400 ==> ((((((0x2800 + y) as u16 - 0x2000) as u16) & 0x0FFF) & 0x03FF)
        + ((((((0x2800 + y) as u16 - 0x2000) as u16) & 0x0FFF) & 0x0800) >> 1) == 0x400 + y))) by (bit_vector);
}

/// Vertical arrangement: $2000 and $2800 are one nametable, $2400 and
/// $2C00 the other, and the two do not overlap.
pub proof fn law_vertical_arrangement(x: u16, y: u16)
    requires
        x < 0x400,
        y < 0x400,
    ensures
        nametable_index(Mirroring::Vertical, (0x2000 + x) as u16) == nametable_index(Mirroring::Vertical, (0x2800 + x) as u16),
        nametable_index(Mirroring::Vertical, (0x2400 + x) as u16) == nametable_index(Mirroring::Vertical, (0x2C00 + x) as u16),
        nametable_index(Mirroring::Vertical, (0x2000 + x) as u16) != nametable_index(Mirroring::Vertical, (0x2400 + y) as u16),
        nametable_index(Mirroring::Vertical, (0x2000 + x) as u16) == x,
        nametable_index(Mirroring::Vertical, (0x2400 + x) as u16) == 0x400 + x,
{
    assert((x < 0x400 ==> ((((0x2000 + x) as u16 - 0x2000) as u16) & 0x0FFF) & 0x07FF == x)
        && (x < 0x400 ==> ((((0x2800 + x) as u16 - 0x2000) as u16) & 0x0FFF) & 0x07FF == x)
        && (x < 0x400 ==> ((((0x2400 + x) as u16 - 0x2000) as u16) & 0x0FFF) & 0x07FF == 0x400 + x)
        && (x < 0x400 ==> ((((0x2C00 + x) as u16 - 0x2000) as u16) & 0x0FFF) & 0x07FF == 0x400 + x)
        && (y < 0x400 ==> ((((0x2400 + y) as u16 - 0x2000) as u16) & 0x0FFF) & 0x07FF == 0x400 + y)) by (bit_vector);
}

/// Single-screen arrangements show one 1 KiB page at all four nametables.
pub proof fn law_single_screen(a: u16)
    requires
        is_nametable_addr(a),
    ensures
        nametable_index(Mirroring::SingleScreenLower, a) < 0x400,
        0x400 <= nametable_index(Mirroring::SingleScreenUpper, a) < 0x800,
        nametable_index(Mirroring::SingleScreenUpper, a) == nametable_index(Mirroring::SingleScreenLower, a) + 0x400,
{
    let n = ((a - 0x2000) as u16) & 0x0FFF;
    assert((n & 0x03FF) < 0x400) by (bit_vector);
}

impl<M: Mapper> PPUBUS<M> {
    pub fn new(mapper: M) -> (bus: Self)
        ensures
            bus@.palette == Seq::new(0x20, |i: int| 0u8),
            bus@.vram == Seq::new(0x0800, |i: int| 0u8),
            bus@.mapper == mapper@,
    {
        let bus = PPUBUS { palette_ram: [0u8; 0x20], vram: [0u8; 0x0800], mapper };
        proof {
            assert(bus@.palette =~= Seq::new(0x20, |i: int| 0u8));
            assert(bus@.vram =~= Seq::new(0x0800, |i: int| 0u8));
        }
        bus
    }

    /// Reads `addr` without letting the cartridge see the access.
    pub fn peek(&self, addr: u16) -> (r: u8)
        requires
            M::well_formed(self@.mapper),
            ppubus_access_defined::<M>(self@, addr, false),
        ensures
            r == ppubus_value::<M>(self@, addr),
    {
        proof { lemma_address_bits(addr); lemma_palette_indices_in_ram(addr & 0x3FFF); }
        let addr = addr & 0x3FFF;
        if 0x3F00 <= addr {
            let mut palette_addr = (addr & 0x1F) as usize;
            proof {
                assert(((addr & 0x1F) as usize & 0x13 == ((addr & 0x1F) & 0x13) as usize)
                    && ((addr & 0x1F) as usize & 0x0F == ((addr & 0x1F) & 0x0F) as usize)) by (bit_vector);
            }
            if palette_addr & 0x13 == 0x10 {
                palette_addr &= 0x0F;
            }
            self.palette_ram[palette_addr]
        } else if addr <= 0x1FFF {
            self.mapper.read_chr(addr)
        } else {
            self.read_vram(addr)
        }
    }

    pub fn write_ppubus(&mut self, addr: u16, data: u8)
        requires
            M::well_formed(old(self)@.mapper),
            ppubus_access_defined::<M>(old(self)@, addr, true),
        ensures
            final(self)@ == ppubus_after_write::<M>(old(self)@, addr, data),
    {
        proof { lemma_address_bits(addr); lemma_palette_indices_in_ram(addr & 0x3FFF); }
        let addr = addr & 0x3FFF;
        if addr <= 0x1FFF {
            self.mapper.write_chr(addr, data);
        } else if addr <= 0x3EFF {
            // VRAM (nametables)
            self.write_vram(addr, data);
        } else {
            // the sprite palette's first entries mirror the background's
            let mut palette_addr = (addr & 0x1F) as usize;
            if palette_addr >= 0x10 && palette_addr % 4 == 0 {
                palette_addr -= 0x10;
            }
            self.palette_ram[palette_addr] = data;
        }
    }

    pub fn read_ppubus(&mut self, addr: u16) -> (r: u8)
        requires
            M::well_formed(old(self)@.mapper),
            ppubus_read_defined::<M>(old(self)@, addr),
        ensures
            final(self)@ == ppubus_after_read::<M>(old(self)@, addr),
            r == ppubus_value::<M>(final(self)@, addr),
    {
        proof { lemma_address_bits(addr); }
        let a = addr & 0x3FFF;
        if a < 0x3F00 {
            self.mapper.notify_ppu_address(a);
        }
        self.peek(addr)
    }

    fn match_mirroring_addr(&self, addr: u16) -> (i: usize)
        requires
            M::well_formed(self@.mapper),
            M::mirroring_defined(self@.mapper),
            is_nametable_addr(addr),
        ensures
            i == nametable_index(M::arrangement(self@.mapper), addr),
            i < 0x800,
    {
        proof { lemma_nametable_index_in_vram(M::arrangement(self@.mapper), addr); }
        let offset: u16 = addr - 0x2000;
        let addr = offset & 0x0FFF;
        proof {
            assert(addr <= 0x0FFF) by (bit_vector) requires addr == offset & 0x0FFF;
            lemma_nametable_bits(addr);
        }
        match self.mapper.mirroring() {
            Mirroring::Vertical => (addr & 0x07FF) as usize,
            Mirroring::Horizontal => ((addr & 0x03FF) + ((addr & 0x0800) >> 1)) as usize,
            Mirroring::SingleScreenLower => (addr & 0x03FF) as usize,
            Mirroring::SingleScreenUpper => ((addr & 0x03FF) + 0x0400) as usize,
        }
    }

    fn write_vram(&mut self, addr: u16, data: u8)
        requires
            M::well_formed(old(self)@.mapper),
            M::mirroring_defined(old(self)@.mapper),
            is_nametable_addr(addr),
        ensures
            final(self)@ == (PpuBusState {
                vram: old(self)@.vram.update(nametable_index(M::arrangement(old(self)@.mapper), addr), data),
                ..old(self)@
            }),
    {
        let addr = self.match_mirroring_addr(addr);
        self.vram[addr] = data;
    }

    fn read_vram(&self, addr: u16) -> (r: u8)
        requires
            M::well_formed(self@.mapper),
            M::mirroring_defined(self@.mapper),
            is_nametable_addr(addr),
        ensures
            r == self@.vram[nametable_index(M::arrangement(self@.mapper), addr)],
    {
        let addr = self.match_mirroring_addr(addr);
        self.vram[addr]
    }
}

} // verus!
