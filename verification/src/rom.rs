use vstd::prelude::*;

use crate::game_save::{GameSave, SAVE_RAM_SIZE};
use crate::mapper000::{InesMapper000, NromState, nrom_power_on};
use crate::mapper001::{InesMapper001, Mmc1State, mmc1_power_on};
use crate::mapper002::{InesMapper002, UxromState, uxrom_power_on};
use crate::mapper003::{InesMapper003, CnromState, cnrom_power_on};
use crate::mapper004::{InesMapper004, Mmc3State, mmc3_power_on};
use crate::mapper009::{InesMapper009, Mmc2State, mmc2_power_on};
use crate::mapper010::{InesMapper010, Mmc4State, mmc4_power_on};
use crate::mapper163::{InesMapper163, Nanjing163State, n163_power_on};
use crate::mapper_base::{CpuRamState, Mapper, Mirroring, persistent_bytes};

verus! {

/// Signature that opens an iNES file: "NES" and the MS-DOS end-of-file marker.
pub const NES_SIGNATURE: [u8; 4] = [0x4E, 0x45, 0x53, 0x1A];

/// Size of the iNES header.
pub const INES_HEADER_SIZE: usize = 16;

/// Size of the optional trainer that follows the header.
pub const TRAINER_SIZE: usize = 512;

/// The fields of the 16-byte iNES header.
///
/// ```text
/// Offset  Size  Description
/// 0-3     4     Magic: $4E $45 $53 $1A ("NES" + MS-DOS EOF marker)
/// 4       1     PRG ROM size in 16 KB units
/// 5       1     CHR ROM size in 8 KB units (0 = board uses CHR RAM)
/// 6       1     Flags 6: [Mapper low nibble | 4-screen | trainer | battery | mirroring]
/// 7       1     Flags 7: [Mapper high nibble | NES 2.0 | PlayChoice | VS Unisystem]
/// ```
pub struct InesHeader {
    pub has_signature: bool,
    pub prg_banks: u8,
    pub chr_banks: u8,
    pub flags6: u8,
    pub flags7: u8,
    pub mapper_id: u8,
    pub has_trainer: bool,
    pub has_persistent_storage: bool,
    pub four_screen: bool,
    pub vertical_arrangement: bool,
}

/// Why a ROM image gives no cartridge.
#[derive(Debug, PartialEq, Eq, Structural)]
pub enum RomError {
    /// No board serves the mapper number.
    UnsupportedMapper(u8),
    /// The header asks for four-screen VRAM, which is not supported.
    FourScreen,
}

/// A cartridge of one of the boards this library serves.
pub enum Cartridge {
    Mapper000(InesMapper000),
    Mapper001(InesMapper001),
    Mapper002(InesMapper002),
    Mapper003(InesMapper003),
    Mapper004(InesMapper004),
    Mapper009(InesMapper009),
    Mapper010(InesMapper010),
    Mapper163(InesMapper163),
}

/// The state of a cartridge.
pub enum CartridgeState {
    Mapper000(NromState),
    Mapper001(Mmc1State),
    Mapper002(UxromState),
    Mapper003(CnromState),
    Mapper004(Mmc3State),
    Mapper009(Mmc2State),
    Mapper010(Mmc4State),
    Mapper163(Nanjing163State),
}

impl View for Cartridge {
    type V = CartridgeState;

    open spec fn view(&self) -> CartridgeState {
        match self {
            Cartridge::Mapper000(m) => CartridgeState::Mapper000(m@),
            Cartridge::Mapper001(m) => CartridgeState::Mapper001(m@),
            Cartridge::Mapper002(m) => CartridgeState::Mapper002(m@),
            Cartridge::Mapper003(m) => CartridgeState::Mapper003(m@),
            Cartridge::Mapper004(m) => CartridgeState::Mapper004(m@),
            Cartridge::Mapper009(m) => CartridgeState::Mapper009(m@),
            Cartridge::Mapper010(m) => CartridgeState::Mapper010(m@),
            Cartridge::Mapper163(m) => CartridgeState::Mapper163(m@),
        }
    }
}

impl Mapper for Cartridge {
    open spec fn well_formed(v: CartridgeState) -> bool {
        match v {
            CartridgeState::Mapper000(m) => <InesMapper000 as Mapper>::well_formed(m),
            CartridgeState::Mapper001(m) => <InesMapper001 as Mapper>::well_formed(m),
            CartridgeState::Mapper002(m) => <InesMapper002 as Mapper>::well_formed(m),
            CartridgeState::Mapper003(m) => <InesMapper003 as Mapper>::well_formed(m),
            CartridgeState::Mapper004(m) => <InesMapper004 as Mapper>::well_formed(m),
            CartridgeState::Mapper009(m) => <InesMapper009 as Mapper>::well_formed(m),
            CartridgeState::Mapper010(m) => <InesMapper010 as Mapper>::well_formed(m),
            CartridgeState::Mapper163(m) => <InesMapper163 as Mapper>::well_formed(m),
        }
    }

    open spec fn read_defined(v: CartridgeState, addr: u16) -> bool {
        match v {
            CartridgeState::Mapper000(m) => <InesMapper000 as Mapper>::read_defined(m, addr),
            CartridgeState::Mapper001(m) => <InesMapper001 as Mapper>::read_defined(m, addr),
            CartridgeState::Mapper002(m) => <InesMapper002 as Mapper>::read_defined(m, addr),
            CartridgeState::Mapper003(m) => <InesMapper003 as Mapper>::read_defined(m, addr),
            CartridgeState::Mapper004(m) => <InesMapper004 as Mapper>::read_defined(m, addr),
            CartridgeState::Mapper009(m) => <InesMapper009 as Mapper>::read_defined(m, addr),
            CartridgeState::Mapper010(m) => <InesMapper010 as Mapper>::read_defined(m, addr),
            CartridgeState::Mapper163(m) => <InesMapper163 as Mapper>::read_defined(m, addr),
        }
    }

    open spec fn read_value(v: CartridgeState, addr: u16) -> u8 {
        match v {
            CartridgeState::Mapper000(m) => <InesMapper000 as Mapper>::read_value(m, addr),
            CartridgeState::Mapper001(m) => <InesMapper001 as Mapper>::read_value(m, addr),
            CartridgeState::Mapper002(m) => <InesMapper002 as Mapper>::read_value(m, addr),
            CartridgeState::Mapper003(m) => <InesMapper003 as Mapper>::read_value(m, addr),
            CartridgeState::Mapper004(m) => <InesMapper004 as Mapper>::read_value(m, addr),
            CartridgeState::Mapper009(m) => <InesMapper009 as Mapper>::read_value(m, addr),
            CartridgeState::Mapper010(m) => <InesMapper010 as Mapper>::read_value(m, addr),
            CartridgeState::Mapper163(m) => <InesMapper163 as Mapper>::read_value(m, addr),
        }
    }

    open spec fn write_defined(v: CartridgeState, addr: u16) -> bool {
        match v {
            CartridgeState::Mapper000(m) => <InesMapper000 as Mapper>::write_defined(m, addr),
            CartridgeState::Mapper001(m) => <InesMapper001 as Mapper>::write_defined(m, addr),
            CartridgeState::Mapper002(m) => <InesMapper002 as Mapper>::write_defined(m, addr),
            CartridgeState::Mapper003(m) => <InesMapper003 as Mapper>::write_defined(m, addr),
            CartridgeState::Mapper004(m) => <InesMapper004 as Mapper>::write_defined(m, addr),
            CartridgeState::Mapper009(m) => <InesMapper009 as Mapper>::write_defined(m, addr),
            CartridgeState::Mapper010(m) => <InesMapper010 as Mapper>::write_defined(m, addr),
            CartridgeState::Mapper163(m) => <InesMapper163 as Mapper>::write_defined(m, addr),
        }
    }

    open spec fn written(v: CartridgeState, addr: u16, val: u8) -> CartridgeState {
        match v {
            CartridgeState::Mapper000(m) => CartridgeState::Mapper000(<InesMapper000 as Mapper>::written(m, addr, val)),
            CartridgeState::Mapper001(m) => CartridgeState::Mapper001(<InesMapper001 as Mapper>::written(m, addr, val)),
            CartridgeState::Mapper002(m) => CartridgeState::Mapper002(<InesMapper002 as Mapper>::written(m, addr, val)),
            CartridgeState::Mapper003(m) => CartridgeState::Mapper003(<InesMapper003 as Mapper>::written(m, addr, val)),
            CartridgeState::Mapper004(m) => CartridgeState::Mapper004(<InesMapper004 as Mapper>::written(m, addr, val)),
            CartridgeState::Mapper009(m) => CartridgeState::Mapper009(<InesMapper009 as Mapper>::written(m, addr, val)),
            CartridgeState::Mapper010(m) => CartridgeState::Mapper010(<InesMapper010 as Mapper>::written(m, addr, val)),
            CartridgeState::Mapper163(m) => CartridgeState::Mapper163(<InesMapper163 as Mapper>::written(m, addr, val)),
        }
    }

    open spec fn chr_read_defined(v: CartridgeState, addr: u16) -> bool {
        match v {
            CartridgeState::Mapper000(m) => <InesMapper000 as Mapper>::chr_read_defined(m, addr),
            CartridgeState::Mapper001(m) => <InesMapper001 as Mapper>::chr_read_defined(m, addr),
            CartridgeState::Mapper002(m) => <InesMapper002 as Mapper>::chr_read_defined(m, addr),
            CartridgeState::Mapper003(m) => <InesMapper003 as Mapper>::chr_read_defined(m, addr),
            CartridgeState::Mapper004(m) => <InesMapper004 as Mapper>::chr_read_defined(m, addr),
            CartridgeState::Mapper009(m) => <InesMapper009 as Mapper>::chr_read_defined(m, addr),
            CartridgeState::Mapper010(m) => <InesMapper010 as Mapper>::chr_read_defined(m, addr),
            CartridgeState::Mapper163(m) => <InesMapper163 as Mapper>::chr_read_defined(m, addr),
        }
    }

    open spec fn chr_value(v: CartridgeState, addr: u16) -> u8 {
        match v {
            CartridgeState::Mapper000(m) => <InesMapper000 as Mapper>::chr_value(m, addr),
            CartridgeState::Mapper001(m) => <InesMapper001 as Mapper>::chr_value(m, addr),
            CartridgeState::Mapper002(m) => <InesMapper002 as Mapper>::chr_value(m, addr),
            CartridgeState::Mapper003(m) => <InesMapper003 as Mapper>::chr_value(m, addr),
            CartridgeState::Mapper004(m) => <InesMapper004 as Mapper>::chr_value(m, addr),
            CartridgeState::Mapper009(m) => <InesMapper009 as Mapper>::chr_value(m, addr),
            CartridgeState::Mapper010(m) => <InesMapper010 as Mapper>::chr_value(m, addr),
            CartridgeState::Mapper163(m) => <InesMapper163 as Mapper>::chr_value(m, addr),
        }
    }

    open spec fn chr_write_defined(v: CartridgeState, addr: u16) -> bool {
        match v {
            CartridgeState::Mapper000(m) => <InesMapper000 as Mapper>::chr_write_defined(m, addr),
            CartridgeState::Mapper001(m) => <InesMapper001 as Mapper>::chr_write_defined(m, addr),
            CartridgeState::Mapper002(m) => <InesMapper002 as Mapper>::chr_write_defined(m, addr),
            CartridgeState::Mapper003(m) => <InesMapper003 as Mapper>::chr_write_defined(m, addr),
            CartridgeState::Mapper004(m) => <InesMapper004 as Mapper>::chr_write_defined(m, addr),
            CartridgeState::Mapper009(m) => <InesMapper009 as Mapper>::chr_write_defined(m, addr),
            CartridgeState::Mapper010(m) => <InesMapper010 as Mapper>::chr_write_defined(m, addr),
            CartridgeState::Mapper163(m) => <InesMapper163 as Mapper>::chr_write_defined(m, addr),
        }
    }

    open spec fn chr_written(v: CartridgeState, addr: u16, val: u8) -> CartridgeState {
        match v {
            CartridgeState::Mapper000(m) => CartridgeState::Mapper000(<InesMapper000 as Mapper>::chr_written(m, addr, val)),
            CartridgeState::Mapper001(m) => CartridgeState::Mapper001(<InesMapper001 as Mapper>::chr_written(m, addr, val)),
            CartridgeState::Mapper002(m) => CartridgeState::Mapper002(<InesMapper002 as Mapper>::chr_written(m, addr, val)),
            CartridgeState::Mapper003(m) => CartridgeState::Mapper003(<InesMapper003 as Mapper>::chr_written(m, addr, val)),
            CartridgeState::Mapper004(m) => CartridgeState::Mapper004(<InesMapper004 as Mapper>::chr_written(m, addr, val)),
            CartridgeState::Mapper009(m) => CartridgeState::Mapper009(<InesMapper009 as Mapper>::chr_written(m, addr, val)),
            CartridgeState::Mapper010(m) => CartridgeState::Mapper010(<InesMapper010 as Mapper>::chr_written(m, addr, val)),
            CartridgeState::Mapper163(m) => CartridgeState::Mapper163(<InesMapper163 as Mapper>::chr_written(m, addr, val)),
        }
    }

    open spec fn mirroring_defined(v: CartridgeState) -> bool {
        match v {
            CartridgeState::Mapper000(m) => <InesMapper000 as Mapper>::mirroring_defined(m),
            CartridgeState::Mapper001(m) => <InesMapper001 as Mapper>::mirroring_defined(m),
            CartridgeState::Mapper002(m) => <InesMapper002 as Mapper>::mirroring_defined(m),
            CartridgeState::Mapper003(m) => <InesMapper003 as Mapper>::mirroring_defined(m),
            CartridgeState::Mapper004(m) => <InesMapper004 as Mapper>::mirroring_defined(m),
            CartridgeState::Mapper009(m) => <InesMapper009 as Mapper>::mirroring_defined(m),
            CartridgeState::Mapper010(m) => <InesMapper010 as Mapper>::mirroring_defined(m),
            CartridgeState::Mapper163(m) => <InesMapper163 as Mapper>::mirroring_defined(m),
        }
    }

    open spec fn arrangement(v: CartridgeState) -> Mirroring {
        match v {
            CartridgeState::Mapper000(m) => <InesMapper000 as Mapper>::arrangement(m),
            CartridgeState::Mapper001(m) => <InesMapper001 as Mapper>::arrangement(m),
            CartridgeState::Mapper002(m) => <InesMapper002 as Mapper>::arrangement(m),
            CartridgeState::Mapper003(m) => <InesMapper003 as Mapper>::arrangement(m),
            CartridgeState::Mapper004(m) => <InesMapper004 as Mapper>::arrangement(m),
            CartridgeState::Mapper009(m) => <InesMapper009 as Mapper>::arrangement(m),
            CartridgeState::Mapper010(m) => <InesMapper010 as Mapper>::arrangement(m),
            CartridgeState::Mapper163(m) => <InesMapper163 as Mapper>::arrangement(m),
        }
    }

    open spec fn irq_line(v: CartridgeState) -> bool {
        match v {
            CartridgeState::Mapper000(m) => <InesMapper000 as Mapper>::irq_line(m),
            CartridgeState::Mapper001(m) => <InesMapper001 as Mapper>::irq_line(m),
            CartridgeState::Mapper002(m) => <InesMapper002 as Mapper>::irq_line(m),
            CartridgeState::Mapper003(m) => <InesMapper003 as Mapper>::irq_line(m),
            CartridgeState::Mapper004(m) => <InesMapper004 as Mapper>::irq_line(m),
            CartridgeState::Mapper009(m) => <InesMapper009 as Mapper>::irq_line(m),
            CartridgeState::Mapper010(m) => <InesMapper010 as Mapper>::irq_line(m),
            CartridgeState::Mapper163(m) => <InesMapper163 as Mapper>::irq_line(m),
        }
    }

    open spec fn irq_acknowledged(v: CartridgeState) -> CartridgeState {
        match v {
            CartridgeState::Mapper000(m) => CartridgeState::Mapper000(<InesMapper000 as Mapper>::irq_acknowledged(m)),
            CartridgeState::Mapper001(m) => CartridgeState::Mapper001(<InesMapper001 as Mapper>::irq_acknowledged(m)),
            CartridgeState::Mapper002(m) => CartridgeState::Mapper002(<InesMapper002 as Mapper>::irq_acknowledged(m)),
            CartridgeState::Mapper003(m) => CartridgeState::Mapper003(<InesMapper003 as Mapper>::irq_acknowledged(m)),
            CartridgeState::Mapper004(m) => CartridgeState::Mapper004(<InesMapper004 as Mapper>::irq_acknowledged(m)),
            CartridgeState::Mapper009(m) => CartridgeState::Mapper009(<InesMapper009 as Mapper>::irq_acknowledged(m)),
            CartridgeState::Mapper010(m) => CartridgeState::Mapper010(<InesMapper010 as Mapper>::irq_acknowledged(m)),
            CartridgeState::Mapper163(m) => CartridgeState::Mapper163(<InesMapper163 as Mapper>::irq_acknowledged(m)),
        }
    }

    open spec fn ppu_address_defined(v: CartridgeState, addr: u16) -> bool {
        match v {
            CartridgeState::Mapper000(m) => <InesMapper000 as Mapper>::ppu_address_defined(m, addr),
            CartridgeState::Mapper001(m) => <InesMapper001 as Mapper>::ppu_address_defined(m, addr),
            CartridgeState::Mapper002(m) => <InesMapper002 as Mapper>::ppu_address_defined(m, addr),
            CartridgeState::Mapper003(m) => <InesMapper003 as Mapper>::ppu_address_defined(m, addr),
            CartridgeState::Mapper004(m) => <InesMapper004 as Mapper>::ppu_address_defined(m, addr),
            CartridgeState::Mapper009(m) => <InesMapper009 as Mapper>::ppu_address_defined(m, addr),
            CartridgeState::Mapper010(m) => <InesMapper010 as Mapper>::ppu_address_defined(m, addr),
            CartridgeState::Mapper163(m) => <InesMapper163 as Mapper>::ppu_address_defined(m, addr),
        }
    }

    open spec fn ppu_address_seen(v: CartridgeState, addr: u16) -> CartridgeState {
        match v {
            CartridgeState::Mapper000(m) => CartridgeState::Mapper000(<InesMapper000 as Mapper>::ppu_address_seen(m, addr)),
            CartridgeState::Mapper001(m) => CartridgeState::Mapper001(<InesMapper001 as Mapper>::ppu_address_seen(m, addr)),
            CartridgeState::Mapper002(m) => CartridgeState::Mapper002(<InesMapper002 as Mapper>::ppu_address_seen(m, addr)),
            CartridgeState::Mapper003(m) => CartridgeState::Mapper003(<InesMapper003 as Mapper>::ppu_address_seen(m, addr)),
            CartridgeState::Mapper004(m) => CartridgeState::Mapper004(<InesMapper004 as Mapper>::ppu_address_seen(m, addr)),
            CartridgeState::Mapper009(m) => CartridgeState::Mapper009(<InesMapper009 as Mapper>::ppu_address_seen(m, addr)),
            CartridgeState::Mapper010(m) => CartridgeState::Mapper010(<InesMapper010 as Mapper>::ppu_address_seen(m, addr)),
            CartridgeState::Mapper163(m) => CartridgeState::Mapper163(<InesMapper163 as Mapper>::ppu_address_seen(m, addr)),
        }
    }

    proof fn lemma_ppu_side_keeps_arrangement(v: CartridgeState, addr: u16, val: u8) {
        match v {
            CartridgeState::Mapper000(m) => <InesMapper000 as Mapper>::lemma_ppu_side_keeps_arrangement(m, addr, val),
            CartridgeState::Mapper001(m) => <InesMapper001 as Mapper>::lemma_ppu_side_keeps_arrangement(m, addr, val),
            CartridgeState::Mapper002(m) => <InesMapper002 as Mapper>::lemma_ppu_side_keeps_arrangement(m, addr, val),
            CartridgeState::Mapper003(m) => <InesMapper003 as Mapper>::lemma_ppu_side_keeps_arrangement(m, addr, val),
            CartridgeState::Mapper004(m) => <InesMapper004 as Mapper>::lemma_ppu_side_keeps_arrangement(m, addr, val),
            CartridgeState::Mapper009(m) => <InesMapper009 as Mapper>::lemma_ppu_side_keeps_arrangement(m, addr, val),
            CartridgeState::Mapper010(m) => <InesMapper010 as Mapper>::lemma_ppu_side_keeps_arrangement(m, addr, val),
            CartridgeState::Mapper163(m) => <InesMapper163 as Mapper>::lemma_ppu_side_keeps_arrangement(m, addr, val),
        }
    }

    fn read(&self, addr: u16) -> (r: u8) {
        match self {
            Cartridge::Mapper000(m) => m.read(addr),
            Cartridge::Mapper001(m) => m.read(addr),
            Cartridge::Mapper002(m) => m.read(addr),
            Cartridge::Mapper003(m) => m.read(addr),
            Cartridge::Mapper004(m) => m.read(addr),
            Cartridge::Mapper009(m) => m.read(addr),
            Cartridge::Mapper010(m) => m.read(addr),
            Cartridge::Mapper163(m) => m.read(addr),
        }
    }

    fn write(&mut self, addr: u16, val: u8) {
        match self {
            Cartridge::Mapper000(m) => m.write(addr, val),
            Cartridge::Mapper001(m) => m.write(addr, val),
            Cartridge::Mapper002(m) => m.write(addr, val),
            Cartridge::Mapper003(m) => m.write(addr, val),
            Cartridge::Mapper004(m) => m.write(addr, val),
            Cartridge::Mapper009(m) => m.write(addr, val),
            Cartridge::Mapper010(m) => m.write(addr, val),
            Cartridge::Mapper163(m) => m.write(addr, val),
        }
    }

    fn read_chr(&self, addr: u16) -> (r: u8) {
        match self {
            Cartridge::Mapper000(m) => m.read_chr(addr),
            Cartridge::Mapper001(m) => m.read_chr(addr),
            Cartridge::Mapper002(m) => m.read_chr(addr),
            Cartridge::Mapper003(m) => m.read_chr(addr),
            Cartridge::Mapper004(m) => m.read_chr(addr),
            Cartridge::Mapper009(m) => m.read_chr(addr),
            Cartridge::Mapper010(m) => m.read_chr(addr),
            Cartridge::Mapper163(m) => m.read_chr(addr),
        }
    }

    fn write_chr(&mut self, addr: u16, val: u8) {
        match self {
            Cartridge::Mapper000(m) => m.write_chr(addr, val),
            Cartridge::Mapper001(m) => m.write_chr(addr, val),
            Cartridge::Mapper002(m) => m.write_chr(addr, val),
            Cartridge::Mapper003(m) => m.write_chr(addr, val),
            Cartridge::Mapper004(m) => m.write_chr(addr, val),
            Cartridge::Mapper009(m) => m.write_chr(addr, val),
            Cartridge::Mapper010(m) => m.write_chr(addr, val),
            Cartridge::Mapper163(m) => m.write_chr(addr, val),
        }
    }

    fn mirroring(&self) -> (m: Mirroring) {
        match self {
            Cartridge::Mapper000(m) => m.mirroring(),
            Cartridge::Mapper001(m) => m.mirroring(),
            Cartridge::Mapper002(m) => m.mirroring(),
            Cartridge::Mapper003(m) => m.mirroring(),
            Cartridge::Mapper004(m) => m.mirroring(),
            Cartridge::Mapper009(m) => m.mirroring(),
            Cartridge::Mapper010(m) => m.mirroring(),
            Cartridge::Mapper163(m) => m.mirroring(),
        }
    }

    fn irq_pending(&self) -> (r: bool) {
        match self {
            Cartridge::Mapper000(m) => m.irq_pending(),
            Cartridge::Mapper001(m) => m.irq_pending(),
            Cartridge::Mapper002(m) => m.irq_pending(),
            Cartridge::Mapper003(m) => m.irq_pending(),
            Cartridge::Mapper004(m) => m.irq_pending(),
            Cartridge::Mapper009(m) => m.irq_pending(),
            Cartridge::Mapper010(m) => m.irq_pending(),
            Cartridge::Mapper163(m) => m.irq_pending(),
        }
    }

    fn acknowledge_irq(&mut self) {
        match self {
            Cartridge::Mapper000(m) => m.acknowledge_irq(),
            Cartridge::Mapper001(m) => m.acknowledge_irq(),
            Cartridge::Mapper002(m) => m.acknowledge_irq(),
            Cartridge::Mapper003(m) => m.acknowledge_irq(),
            Cartridge::Mapper004(m) => m.acknowledge_irq(),
            Cartridge::Mapper009(m) => m.acknowledge_irq(),
            Cartridge::Mapper010(m) => m.acknowledge_irq(),
            Cartridge::Mapper163(m) => m.acknowledge_irq(),
        }
    }

    fn notify_ppu_address(&mut self, addr: u16) {
        match self {
            Cartridge::Mapper000(m) => m.notify_ppu_address(addr),
            Cartridge::Mapper001(m) => m.notify_ppu_address(addr),
            Cartridge::Mapper002(m) => m.notify_ppu_address(addr),
            Cartridge::Mapper003(m) => m.notify_ppu_address(addr),
            Cartridge::Mapper004(m) => m.notify_ppu_address(addr),
            Cartridge::Mapper009(m) => m.notify_ppu_address(addr),
            Cartridge::Mapper010(m) => m.notify_ppu_address(addr),
            Cartridge::Mapper163(m) => m.notify_ppu_address(addr),
        }
    }
}

/// The mapper number: high nibble from flags 7, low nibble from flags 6.
pub open spec fn ines_mapper_id(rom: Seq<u8>) -> u8 {
    (rom[7] & 0xF0) | (rom[6] >> 4u8)
}

pub open spec fn ines_has_trainer(rom: Seq<u8>) -> bool {
    rom[6] & 0x04 != 0
}

pub open spec fn ines_has_battery(rom: Seq<u8>) -> bool {
    rom[6] & 0x02 != 0
}

pub open spec fn ines_four_screen(rom: Seq<u8>) -> bool {
    rom[6] & 0x08 != 0
}

/// Bit 0 of flags 6: vertical arrangement when set, horizontal when clear.
pub open spec fn ines_mirroring(rom: Seq<u8>) -> Mirroring {
    if rom[6] & 0x01 != 0 {
        Mirroring::Vertical
    } else {
        Mirroring::Horizontal
    }
}

/// Where the PRG ROM starts: after the header and the trainer, if any.
pub open spec fn ines_prg_start(rom: Seq<u8>) -> int {
    16 + if ines_has_trainer(rom) { 512int } else { 0int }
}

/// Where the PRG ROM ends and the CHR ROM starts.
pub open spec fn ines_prg_end(rom: Seq<u8>) -> int {
    ines_prg_start(rom) + rom[4] * 0x4000
}

/// Where the CHR ROM ends.
pub open spec fn ines_chr_end(rom: Seq<u8>) -> int {
    ines_prg_end(rom) + rom[5] * 0x2000
}

pub open spec fn ines_prg_rom(rom: Seq<u8>) -> Seq<u8> {
    rom.subrange(ines_prg_start(rom), ines_prg_end(rom))
}

pub open spec fn ines_chr_rom(rom: Seq<u8>) -> Seq<u8> {
    rom.subrange(ines_prg_end(rom), ines_chr_end(rom))
}

/// The image can be cut into its parts: it holds the header, the trainer,
/// the PRG ROM and the CHR ROM that the header announces.
pub open spec fn ines_loadable(rom: Seq<u8>) -> bool {
    &&& rom.len() >= INES_HEADER_SIZE
    &&& rom.len() >= ines_chr_end(rom)
}

/// Whether the board number is one that this library serves.
pub open spec fn ines_board_served(id: u8) -> bool {
    id <= 4 || id == 9 || id == 10 || id == 163
}

/// Work RAM of a board of mapper 3, 9 or 10: the battery-backed save when the
/// header announces a battery, plain zeroed RAM otherwise.
pub open spec fn ines_work_ram(rom: Seq<u8>, save: Seq<u8>) -> CpuRamState {
    if ines_has_battery(rom) {
        CpuRamState::Persistent(save)
    } else {
        CpuRamState::Volatile(Seq::new(SAVE_RAM_SIZE as nat, |i: int| 0u8))
    }
}

/// The cartridge that the image `rom` gives with the save RAM `save`: the
/// board its mapper number names, freshly built on the image's PRG ROM,
/// CHR ROM and arrangement.
pub open spec fn ines_cartridge(c: CartridgeState, rom: Seq<u8>, save: Seq<u8>) -> bool {
    let prg = ines_prg_rom(rom);
    let chr = ines_chr_rom(rom);
    let m = ines_mirroring(rom);
    let id = ines_mapper_id(rom);
    if id == 0 {
        c == CartridgeState::Mapper000(nrom_power_on(prg, chr, m))
    } else if id == 1 {
        c == CartridgeState::Mapper001(mmc1_power_on(prg, chr, save))
    } else if id == 2 {
        c == CartridgeState::Mapper002(uxrom_power_on(prg, m, save))
    } else if id == 3 {
        c == CartridgeState::Mapper003(cnrom_power_on(prg, chr, m, ines_work_ram(rom, save)))
    } else if id == 4 {
        c == CartridgeState::Mapper004(mmc3_power_on(prg, chr, m, save))
    } else if id == 9 {
        c == CartridgeState::Mapper009(mmc2_power_on(prg, chr, m, ines_work_ram(rom, save)))
    } else if id == 10 {
        c == CartridgeState::Mapper010(mmc4_power_on(prg, chr, m, ines_work_ram(rom, save)))
    } else if id == 163 {
        c == CartridgeState::Mapper163(n163_power_on(prg, chr, m, save))
    } else {
        false
    }
}

/// The image is laid out as header, optional 512-byte trainer, PRG ROM in
/// 16 KB units and CHR ROM in 8 KB units, back to back: the two ROMs are
/// the bytes after the header and trainer, in order, and have the sizes the
/// header gives.
pub proof fn law_ines_layout(rom: Seq<u8>)
    requires
        ines_loadable(rom),
    ensures
        ines_prg_rom(rom).len() == rom[4] * 0x4000,
        ines_chr_rom(rom).len() == rom[5] * 0x2000,
        ines_prg_rom(rom) + ines_chr_rom(rom) == rom.subrange(ines_prg_start(rom), ines_chr_end(rom)),
        ines_prg_start(rom) == (if ines_has_trainer(rom) { 528int } else { 16int }),
{
    assert(ines_prg_rom(rom) + ines_chr_rom(rom) =~= rom.subrange(ines_prg_start(rom), ines_chr_end(rom)));
}

/// Copies `bytes` into a boxed slice.
#[verifier::external_body]
fn boxed_bytes(bytes: &[u8]) -> (b: Box<[u8]>)
    ensures
        b@ == bytes@,
{
    Box::<[u8]>::from(bytes)
}

/// Decodes the 16-byte iNES header at the start of `rom_data`.
pub fn parse_ines_header(rom_data: &[u8]) -> (h: InesHeader)
    requires
        rom_data@.len() >= INES_HEADER_SIZE,
    ensures
        h.has_signature == (rom_data@.subrange(0, 4) == NES_SIGNATURE@),
        h.prg_banks == rom_data@[4],
        h.chr_banks == rom_data@[5],
        h.flags6 == rom_data@[6],
        h.flags7 == rom_data@[7],
        h.mapper_id == ines_mapper_id(rom_data@),
        h.has_trainer == ines_has_trainer(rom_data@),
        h.has_persistent_storage == ines_has_battery(rom_data@),
        h.four_screen == ines_four_screen(rom_data@),
        h.vertical_arrangement == (rom_data@[6] & 0x01 != 0),
{
    let has_signature = rom_data[0] == 0x4E && rom_data[1] == 0x45 && rom_data[2] == 0x53 && rom_data[3] == 0x1A;
    proof {
        let sig = NES_SIGNATURE;
        assert(sig@ == seq![0x4Eu8, 0x45u8, 0x53u8, 0x1Au8]);
        if has_signature {
            assert(rom_data@.subrange(0, 4) =~= NES_SIGNATURE@);
        } else {
            if rom_data@.subrange(0, 4) == NES_SIGNATURE@ {
                assert(rom_data@.subrange(0, 4)[0] == rom_data@[0]);
                assert(rom_data@.subrange(0, 4)[1] == rom_data@[1]);
                assert(rom_data@.subrange(0, 4)[2] == rom_data@[2]);
                assert(rom_data@.subrange(0, 4)[3] == rom_data@[3]);
            }
        }
    }
    InesHeader {
        has_signature,
        prg_banks: rom_data[4],
        chr_banks: rom_data[5],
        flags6: rom_data[6],
        flags7: rom_data[7],
        mapper_id: (rom_data[7] & 0xF0) | (rom_data[6] >> 4),
        has_trainer: (rom_data[6] & 0b0000_0100) != 0,
        has_persistent_storage: (rom_data[6] & 0x02) != 0,
        four_screen: (rom_data[6] & 0x08) != 0,
        vertical_arrangement: (rom_data[6] & 0x01) != 0,
    }
}

/// Cuts an iNES image into its PRG ROM and CHR ROM and builds the board that
/// its mapper number names. `save` is the battery-backed work RAM of the
/// cartridge: boards 1, 2, 4 and 163 always carry it, boards 3, 9 and 10
/// only when the header announces a battery. Board 1 takes its arrangement
/// from its own registers and board 2 has CHR RAM, so neither uses the
/// header's arrangement bit or CHR ROM. An image that asks for four-screen
/// VRAM gives [`RomError::FourScreen`].
pub fn load_rom_from_bytes(rom_data: &[u8], save: GameSave) -> (r: Result<Cartridge, RomError>)
    requires
        ines_loadable(rom_data@),
        save@.len() == SAVE_RAM_SIZE,
    ensures
        ines_four_screen(rom_data@) ==> r == Err::<Cartridge, RomError>(RomError::FourScreen),
        !ines_four_screen(rom_data@) && ines_board_served(ines_mapper_id(rom_data@)) ==> (r matches Ok(c)
            && ines_cartridge(c@, rom_data@, save@)),
        !ines_four_screen(rom_data@) && !ines_board_served(ines_mapper_id(rom_data@)) ==> r == Err::<
            Cartridge,
            RomError,
        >(RomError::UnsupportedMapper(ines_mapper_id(rom_data@))),
{
    let h = parse_ines_header(rom_data);
    // the PRG ROM comes in 16 KB units, the CHR ROM in 8 KB units
    let program_size = h.prg_banks as usize * 0x4000;
    let chr_size = h.chr_banks as usize * 0x2000;
    let prg_rom_start: usize = 16 + if h.has_trainer { 512 } else { 0 };
    let prg_rom_end = prg_rom_start + program_size;
    let chr_rom_end = prg_rom_end + chr_size;
    let prg_rom_data = boxed_bytes(&rom_data[prg_rom_start..prg_rom_end]);
    // the CHR ROM starts after the PRG ROM
    let chr_rom_data = boxed_bytes(&rom_data[prg_rom_end..chr_rom_end]);
    if h.four_screen {
        return Err(RomError::FourScreen);
    }
    let mirroring_type = if h.vertical_arrangement { Mirroring::Vertical } else { Mirroring::Horizontal };
    if h.mapper_id == 0 {
        Ok(Cartridge::Mapper000(InesMapper000::new(prg_rom_data, chr_rom_data, mirroring_type)))
    } else if h.mapper_id == 1 {
        Ok(Cartridge::Mapper001(InesMapper001::new(prg_rom_data, chr_rom_data, save)))
    } else if h.mapper_id == 2 {
        Ok(Cartridge::Mapper002(InesMapper002::new(prg_rom_data, mirroring_type, save)))
    } else if h.mapper_id == 3 {
        let battery_save = if h.has_persistent_storage { Some(save) } else { None };
        Ok(Cartridge::Mapper003(InesMapper003::new(prg_rom_data, chr_rom_data, mirroring_type, battery_save)))
    } else if h.mapper_id == 4 {
        Ok(Cartridge::Mapper004(InesMapper004::new(prg_rom_data, chr_rom_data, mirroring_type, save)))
    } else if h.mapper_id == 9 {
        let battery_save = if h.has_persistent_storage { Some(save) } else { None };
        Ok(Cartridge::Mapper009(InesMapper009::new(prg_rom_data, chr_rom_data, mirroring_type, battery_save)))
    } else if h.mapper_id == 10 {
        let battery_save = if h.has_persistent_storage { Some(save) } else { None };
        Ok(Cartridge::Mapper010(InesMapper010::new(prg_rom_data, chr_rom_data, mirroring_type, battery_save)))
    } else if h.mapper_id == 163 {
        Ok(Cartridge::Mapper163(InesMapper163::new(prg_rom_data, chr_rom_data, mirroring_type, save)))
    } else {
        Err(RomError::UnsupportedMapper(h.mapper_id))
    }
}

/// The battery-backed work RAM of a cartridge, when its board has one.
pub open spec fn cartridge_game_save(c: CartridgeState) -> Option<Seq<u8>> {
    match c {
        CartridgeState::Mapper000(_) => None,
        CartridgeState::Mapper001(m) => Some(m.save),
        CartridgeState::Mapper002(m) => Some(m.save),
        CartridgeState::Mapper003(m) => persistent_bytes(m.prg_ram),
        CartridgeState::Mapper004(m) => Some(m.save),
        CartridgeState::Mapper009(m) => persistent_bytes(m.prg_ram),
        CartridgeState::Mapper010(m) => persistent_bytes(m.prg_ram),
        CartridgeState::Mapper163(m) => Some(m.save),
    }
}

impl Cartridge {
    /// The battery-backed work RAM, when the board has one, to be kept
    /// between sessions.
    pub fn game_save(&self) -> (g: Option<&GameSave>)
        ensures
            g matches Some(s) ==> cartridge_game_save(self@) == Some(s@),
            g is None ==> cartridge_game_save(self@) is None,
    {
        match self {
            Cartridge::Mapper000(_) => None,
            Cartridge::Mapper001(m) => Some(m.game_save()),
            Cartridge::Mapper002(m) => Some(m.game_save()),
            Cartridge::Mapper003(m) => m.game_save(),
            Cartridge::Mapper004(m) => Some(m.game_save()),
            Cartridge::Mapper009(m) => m.game_save(),
            Cartridge::Mapper010(m) => m.game_save(),
            Cartridge::Mapper163(m) => Some(m.game_save()),
        }
    }
}

/// A loaded cartridge keeps the save it was given exactly when its board
/// has battery-backed RAM: always on boards 1, 2, 4 and 163, on boards 3, 9
/// and 10 when the header announces a battery, never on board 0.
pub proof fn law_loaded_game_save(c: CartridgeState, rom: Seq<u8>, save: Seq<u8>)
    requires
        ines_cartridge(c, rom, save),
    ensures
        cartridge_game_save(c) == (if ines_mapper_id(rom) == 0 {
            None
        } else if (ines_mapper_id(rom) == 3 || ines_mapper_id(rom) == 9 || ines_mapper_id(rom) == 10)
            && !ines_has_battery(rom) {
            None
        } else {
            Some(save)
        }),
{
}

/// The header fields in arithmetic terms: the mapper number takes its high
/// nibble from byte 7 and its low nibble from the high nibble of byte 6;
/// bits 0, 1, 2 and 3 of byte 6 are the vertical arrangement, the battery,
/// the trainer and four-screen VRAM.
pub proof fn law_ines_header_bits(rom: Seq<u8>)
    requires
        rom.len() >= INES_HEADER_SIZE,
    ensures
        ines_mapper_id(rom) == (rom[7] / 16) * 16 + rom[6] / 16,
        ines_mirroring(rom) == (if rom[6] % 2 == 1 { Mirroring::Vertical } else { Mirroring::Horizontal }),
        ines_has_battery(rom) == ((rom[6] / 2) % 2 == 1),
        ines_has_trainer(rom) == ((rom[6] / 4) % 2 == 1),
        ines_four_screen(rom) == ((rom[6] / 8) % 2 == 1),
        ines_prg_start(rom) == 16 + (if (rom[6] / 4) % 2 == 1 { 512int } else { 0int }),
        ines_prg_end(rom) == ines_prg_start(rom) + rom[4] * 16384,
        ines_chr_end(rom) == ines_prg_end(rom) + rom[5] * 8192,
{
    let (f6, f7) = (rom[6], rom[7]);
    assert(((f7 & 0xF0) | (f6 >> 4u8)) == (f7 / 16) * 16 + f6 / 16
        && ((f6 & 0x01 != 0) == (f6 % 2 == 1))
        && ((f6 & 0x02 != 0) == ((f6 / 2) % 2 == 1))
        && ((f6 & 0x04 != 0) == ((f6 / 4) % 2 == 1))
        && ((f6 & 0x08 != 0) == ((f6 / 8) % 2 == 1))) by (bit_vector);
}

} // verus!
