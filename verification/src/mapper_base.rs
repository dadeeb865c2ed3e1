use vstd::prelude::*;

use crate::game_save::GameSave;

verus! {

/// How the four logical nametables of the PPU are laid onto its 2 KiB of VRAM.
#[derive(Clone, Copy, Debug, PartialEq, Eq, Structural)]
pub enum Mirroring {
    Vertical,
    Horizontal,
    SingleScreenLower,
    SingleScreenUpper,
}

/// The 8 KiB of work RAM that some boards map at CPU `$6000-$7FFF`:
/// either plain RAM or battery-backed RAM that is kept between sessions.
pub enum CpuRam {
    Volatile([u8; 0x2000]),
    Persistent(GameSave),
}

/// What a [`CpuRam`] holds, seen as bytes.
pub enum CpuRamState {
    Volatile(Seq<u8>),
    Persistent(Seq<u8>),
}

impl View for CpuRam {
    type V = CpuRamState;

    open spec fn view(&self) -> CpuRamState {
        match self {
            CpuRam::Volatile(data) => CpuRamState::Volatile(data@),
            CpuRam::Persistent(save) => CpuRamState::Persistent(save@),
        }
    }
}

/// A memory mapper that abstracts over different NES cartridge board configurations.
///
/// NES cartridges use various mapper chips to extend the addressable memory beyond
/// the CPU's and PPU's native limits. Each mapper implements a different bank-switching
/// strategy for PRG ROM (program data) and CHR ROM (graphics data).
///
/// Each board describes its behaviour over its abstract state `Self::V`:
/// which accesses it defines, what a read returns and what a write, an
/// interrupt acknowledgement or a PPU address observation turns the state into.
pub trait Mapper: View + Sized {
    /// The board's internal consistency (buffer sizes, register ranges).
    spec fn well_formed(v: Self::V) -> bool;

    /// The CPU reads `addr` without fault.
    spec fn read_defined(v: Self::V, addr: u16) -> bool;

    /// The byte that a CPU read of `addr` gives.
    spec fn read_value(v: Self::V, addr: u16) -> u8;

    /// The CPU writes `addr` without fault.
    spec fn write_defined(v: Self::V, addr: u16) -> bool;

    /// The state after the CPU writes `val` at `addr`.
    spec fn written(v: Self::V, addr: u16, val: u8) -> Self::V;

    /// The PPU reads pattern memory at `addr` without fault.
    spec fn chr_read_defined(v: Self::V, addr: u16) -> bool;

    /// The byte that a PPU read of pattern memory at `addr` gives.
    spec fn chr_value(v: Self::V, addr: u16) -> u8;

    /// The PPU writes pattern memory at `addr` without fault.
    spec fn chr_write_defined(v: Self::V, addr: u16) -> bool;

    /// The state after the PPU writes `val` to pattern memory at `addr`.
    spec fn chr_written(v: Self::V, addr: u16, val: u8) -> Self::V;

    /// The board reports its nametable arrangement without fault.
    spec fn mirroring_defined(v: Self::V) -> bool;

    /// The nametable arrangement.
    spec fn arrangement(v: Self::V) -> Mirroring;

    /// Whether the board asserts its interrupt line.
    spec fn irq_line(v: Self::V) -> bool;

    /// The state after the pending interrupt is acknowledged.
    spec fn irq_acknowledged(v: Self::V) -> Self::V;

    /// The board can observe the PPU address `addr` without fault.
    spec fn ppu_address_defined(v: Self::V, addr: u16) -> bool;

    /// The state after the board has observed the PPU address `addr`.
    spec fn ppu_address_seen(v: Self::V, addr: u16) -> Self::V;

    /// Watching the PPU address bus, and writes to pattern memory, leave the
    /// nametable arrangement as it was.
    proof fn lemma_ppu_side_keeps_arrangement(v: Self::V, addr: u16, val: u8)
        requires
            Self::well_formed(v),
        ensures
            Self::arrangement(Self::ppu_address_seen(v, addr)) == Self::arrangement(v),
            Self::mirroring_defined(Self::ppu_address_seen(v, addr)) == Self::mirroring_defined(v),
            Self::well_formed(Self::ppu_address_seen(v, addr)),
            Self::chr_write_defined(v, addr) ==> {
                &&& Self::well_formed(Self::chr_written(v, addr, val))
                &&& Self::arrangement(Self::chr_written(v, addr, val)) == Self::arrangement(v)
                &&& Self::mirroring_defined(Self::chr_written(v, addr, val)) == Self::mirroring_defined(v)
            },
    ;

    fn read(&self, addr: u16) -> (r: u8)
        requires
            Self::well_formed(self@),
            Self::read_defined(self@, addr),
        ensures
            r == Self::read_value(self@, addr),
    ;

    fn write(&mut self, addr: u16, val: u8)
        requires
            Self::well_formed(old(self)@),
            Self::write_defined(old(self)@, addr),
        ensures
            final(self)@ == Self::written(old(self)@, addr, val),
            Self::well_formed(final(self)@),
    ;

    fn read_chr(&self, addr: u16) -> (r: u8)
        requires
            Self::well_formed(self@),
            Self::chr_read_defined(self@, addr),
        ensures
            r == Self::chr_value(self@, addr),
    ;

    fn write_chr(&mut self, addr: u16, val: u8)
        requires
            Self::well_formed(old(self)@),
            Self::chr_write_defined(old(self)@, addr),
        ensures
            final(self)@ == Self::chr_written(old(self)@, addr, val),
            Self::well_formed(final(self)@),
    ;

    fn mirroring(&self) -> (m: Mirroring)
        requires
            Self::well_formed(self@),
            Self::mirroring_defined(self@),
        ensures
            m == Self::arrangement(self@),
    ;

    fn irq_pending(&self) -> (r: bool)
        requires
            Self::well_formed(self@),
        ensures
            r == Self::irq_line(self@),
    ;

    fn acknowledge_irq(&mut self)
        requires
            Self::well_formed(old(self)@),
        ensures
            final(self)@ == Self::irq_acknowledged(old(self)@),
            Self::well_formed(final(self)@),
    ;

    fn notify_ppu_address(&mut self, addr: u16)
        requires
            Self::well_formed(old(self)@),
            Self::ppu_address_defined(old(self)@, addr),
        ensures
            final(self)@ == Self::ppu_address_seen(old(self)@, addr),
            Self::well_formed(final(self)@),
    ;
}

/// The bytes of battery-backed work RAM; `None` for plain RAM.
pub open spec fn persistent_bytes(r: CpuRamState) -> Option<Seq<u8>> {
    match r {
        CpuRamState::Persistent(bytes) => Some(bytes),
        CpuRamState::Volatile(_) => None,
    }
}

impl CpuRam {
    /// The save behind battery-backed work RAM; `None` for plain RAM.
    pub fn persistent(&self) -> (g: Option<&GameSave>)
        ensures
            g matches Some(s) ==> persistent_bytes(self@) == Some(s@),
            g is None ==> persistent_bytes(self@) is None,
    {
        match self {
            CpuRam::Persistent(save) => Some(save),
            CpuRam::Volatile(_) => None,
        }
    }
}

} // verus!
