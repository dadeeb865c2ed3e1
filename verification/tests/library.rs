use selectnes::bus::{decode_cpu_read, decode_cpu_write, oam_dma_page_start, CpuReadTarget, CpuWriteTarget, BUS};
use selectnes::dock_state::Tab;
use selectnes::draw::parse_color;
use selectnes::game_save::GameSave;
use selectnes::input::{apply_input, apply_key, ControllerState, KeyboardKey};
use selectnes::mapper_base::{Mapper, Mirroring};
use selectnes::opcodes::{addressing_mode_from_name, opcodes_map, parse_opcode_byte, AddressingMode, OpCode};
use selectnes::pal_file::{palette_from_dot_pal_bytes, PaletteError};
use selectnes::palettes::{NESColor, PaletteTheme, NTSC_DEFAULT_PALETTE, SHOVEL_KNIGHT_NES_PALETTE};
use selectnes::script_trace::script_line_trace;
use selectnes::rom::{load_rom_from_bytes, parse_ines_header, Cartridge, RomError};
use selectnes::terminal::{print_logs, LogType, Terminal, TERMINAL_CAPACITY};
use selectnes::text::parse_unsigned_bytes;

fn pad(a: bool, b: bool, up: bool, down: bool, left: bool, right: bool) -> ControllerState {
    ControllerState { a, b, up, down, left, right, start: false, select: true }
}

#[test]
fn opposite_directions_cancel_unless_allowed() {
    let keys = pad(true, false, true, true, true, false);
    let mut joypad = pad(false, false, false, false, false, false);
    apply_input(&mut joypad, &keys, false);
    assert!(joypad.a && !joypad.b && joypad.select && !joypad.start);
    assert!(!joypad.up && !joypad.down);
    assert!(joypad.left && !joypad.right);
    apply_input(&mut joypad, &keys, true);
    assert!(joypad.up && joypad.down && joypad.left && !joypad.right);
}

#[test]
fn terminal_filters_and_keeps_last_messages() {
    let mut t = Terminal::new();
    t.debug_enabled = false;
    print_logs(&mut t, LogType::Debug, String::from("hidden"));
    assert_eq!(t.logs.len(), 0);
    for i in 0..(TERMINAL_CAPACITY + 5) {
        print_logs(&mut t, LogType::Info, format!("msg {}", i));
    }
    assert_eq!(t.logs.len(), TERMINAL_CAPACITY);
    assert_eq!(t.logs[0].log_msg, "msg 5");
    assert_eq!(t.logs[TERMINAL_CAPACITY - 1].log_msg, format!("msg {}", TERMINAL_CAPACITY + 4));
    t.warning_enabled = false;
    print_logs(&mut t, LogType::Warning, String::from("dropped"));
    assert_eq!(t.logs[TERMINAL_CAPACITY - 1].log_type, LogType::Info);
}

#[test]
fn tab_titles() {
    assert_eq!(Tab::Emulator.title(), "NES");
    assert_eq!(Tab::MemoryEditor.title(), "Memory");
    assert_eq!(Tab::Terminal.title(), "Terminal");
}

#[test]
fn unsigned_parsing_follows_from_str_radix() {
    assert_eq!(parse_unsigned_bytes(b"255", 10, 255), Some(255));
    assert_eq!(parse_unsigned_bytes(b"256", 10, 255), None);
    assert_eq!(parse_unsigned_bytes(b"+007", 10, 255), Some(7));
    assert_eq!(parse_unsigned_bytes(b"+", 10, 255), None);
    assert_eq!(parse_unsigned_bytes(b"", 10, 255), None);
    assert_eq!(parse_unsigned_bytes(b"-1", 10, 255), None);
    assert_eq!(parse_unsigned_bytes(b"4294967295", 10, u32::MAX), Some(u32::MAX));
    assert_eq!(parse_unsigned_bytes(b"4294967296", 10, u32::MAX), None);
    assert_eq!(parse_unsigned_bytes(b"fF", 16, 255), Some(255));
    assert_eq!(parse_unsigned_bytes(b"1g", 16, 255), None);
}

#[test]
fn opcode_entries() {
    assert_eq!(parse_opcode_byte(b"$A9"), Some(0xA9));
    assert_eq!(parse_opcode_byte(b"$$0a"), Some(0x0A));
    assert_eq!(parse_opcode_byte(b"$1FF"), None);
    assert_eq!(parse_opcode_byte(b"$"), None);
    assert_eq!(addressing_mode_from_name(b"ZeroPage,X"), AddressingMode::ZeroPage_X);
    assert_eq!(addressing_mode_from_name(b"Absolute_Y"), AddressingMode::Absolute_Y);
    assert_eq!(addressing_mode_from_name(b"Indirect,Y"), AddressingMode::Indirect_Y);
    assert_eq!(addressing_mode_from_name(b"Immediate"), AddressingMode::Immediate);
    assert_eq!(addressing_mode_from_name(b"Relative"), AddressingMode::NoneAddressing);
    assert_eq!(addressing_mode_from_name(b"Indirect"), AddressingMode::NoneAddressing);
    let op = OpCode::from_table_entry("$A9", String::from("LDA"), 2, 2, "Immediate").unwrap();
    assert_eq!(op.code, 0xA9);
    assert_eq!(op.mnemonic, "LDA");
    assert_eq!((op.len, op.cycles), (2, 2));
    assert_eq!(op.mode, AddressingMode::Immediate);
    assert!(OpCode::from_table_entry("$ZZ", String::from("???"), 1, 1, "Implied").is_none());
}

#[test]
fn opcode_map_points_at_last_entry() {
    let ops = vec![
        OpCode::from_table_entry("$A9", String::from("LDA"), 2, 2, "Immediate").unwrap(),
        OpCode::from_table_entry("$EA", String::from("NOP"), 1, 2, "Implied").unwrap(),
        OpCode::from_table_entry("$A9", String::from("LDA2"), 2, 2, "Immediate").unwrap(),
    ];
    let map = opcodes_map(&ops);
    assert_eq!(map.len(), 2);
    assert_eq!(map[&0xA9], 2);
    assert_eq!(map[&0xEA], 1);
    assert!(map.get(&0x00).is_none());
}

#[test]
fn builtin_and_custom_themes() {
    let ntsc = PaletteTheme::default().get_collors();
    assert_eq!(ntsc[0], NESColor { r: 84, g: 84, b: 84 });
    assert_eq!(ntsc[1], NESColor { r: 0, g: 30, b: 116 });
    assert_eq!(ntsc[63], NESColor { r: NTSC_DEFAULT_PALETTE[189], g: NTSC_DEFAULT_PALETTE[190], b: NTSC_DEFAULT_PALETTE[191] });
    let sk = PaletteTheme::ShovelKnight.get_collors();
    assert_eq!(sk[0], NESColor { r: SHOVEL_KNIGHT_NES_PALETTE[0], g: 0x2c, b: 0x2c });
    let custom: Vec<NESColor> = (0..64u8).map(|i| NESColor { r: i, g: 1, b: 2 }).collect();
    let theme = PaletteTheme::Custom(String::from("mine"), custom.clone());
    assert_eq!(theme.get_collors().to_vec(), custom);
}

fn jasc(colors: &[&str]) -> Vec<u8> {
    let mut s = String::from("JASC-PAL\r\n0100\r\n64\r\n");
    for c in colors {
        s.push_str(c);
        s.push_str("\r\n");
    }
    s.into_bytes()
}

#[test]
fn jasc_palette_reads_colours_from_seventh_line() {
    let bytes = jasc(&["1 2 3", "4 5 6", "7 8 9", "10 20 30", "+11\t12\u{00A0}13", "300 0 0", "14 15"]);
    let pal = palette_from_dot_pal_bytes(&bytes).unwrap();
    assert_eq!(pal.declared_colors, Some(64));
    assert_eq!(pal.colors[0], NESColor { r: 10, g: 20, b: 30 });
    assert_eq!(pal.colors[1], NESColor { r: 11, g: 12, b: 13 });
    assert_eq!(pal.colors[2], NESColor { r: 0, g: 0, b: 0 });
    assert_eq!(pal.colors[3], NESColor { r: 0, g: 0, b: 0 });
    assert_eq!(pal.colors[63], NESColor { r: 0, g: 0, b: 0 });
}

#[test]
fn jasc_palette_declared_count() {
    let pal = palette_from_dot_pal_bytes(b"JASC-PAL\n0100\n16 \n").unwrap();
    assert_eq!(pal.declared_colors, Some(0));
    let pal = palette_from_dot_pal_bytes(b"JASC-PAL\n0100\n16\n").unwrap();
    assert_eq!(pal.declared_colors, Some(16));
    let pal = palette_from_dot_pal_bytes(b"JASC-PAL").unwrap();
    assert_eq!(pal.declared_colors, Some(0));
}

#[test]
fn raw_palette_and_size_error() {
    let raw: Vec<u8> = (0..192).map(|i| i as u8).collect();
    let pal = palette_from_dot_pal_bytes(&raw).unwrap();
    assert_eq!(pal.declared_colors, None);
    assert_eq!(pal.colors[0], NESColor { r: 0, g: 1, b: 2 });
    assert_eq!(pal.colors[63], NESColor { r: 189, g: 190, b: 191 });
    match palette_from_dot_pal_bytes(&[0u8; 10]) {
        Err(PaletteError::InvalidFormat(msg)) => {
            assert_eq!(msg, "Invalid file size (Expected 192bytes, found: 10)")
        },
        _ => panic!("a 10-byte file is no palette"),
    }
    // a file that is not UTF-8 is read as raw bytes even if it starts with the tag
    let mut not_text = b"JASC-PAL".to_vec();
    not_text.resize(192, 0xFF);
    let pal = palette_from_dot_pal_bytes(&not_text).unwrap();
    assert_eq!(pal.declared_colors, None);
    assert_eq!(pal.colors[0], NESColor { r: 0x4A, g: 0x41, b: 0x53 });
}

#[test]
fn io_errors_convert() {
    let e: PaletteError = std::io::Error::new(std::io::ErrorKind::NotFound, "gone").into();
    assert!(matches!(e, PaletteError::Io(_)));
}

fn ines(mapper: u8, flags6_low: u8, prg_banks: u8, chr_banks: u8, trainer: bool) -> Vec<u8> {
    let mut rom = vec![0x4E, 0x45, 0x53, 0x1A, prg_banks, chr_banks];
    rom.push(((mapper & 0x0F) << 4) | flags6_low | if trainer { 0x04 } else { 0 });
    rom.push(mapper & 0xF0);
    rom.resize(16, 0);
    if trainer {
        rom.resize(16 + 512, 0xEE);
    }
    for b in 0..(prg_banks as usize * 2) {
        rom.extend(std::iter::repeat(b as u8).take(0x2000));
    }
    rom.extend(std::iter::repeat(0xC0).take(chr_banks as usize * 0x2000));
    rom
}

#[test]
fn ines_header_fields() {
    let rom = ines(163, 0x03, 2, 1, true);
    let h = parse_ines_header(&rom);
    assert!(h.has_signature);
    assert_eq!(h.mapper_id, 163);
    assert_eq!((h.prg_banks, h.chr_banks), (2, 1));
    assert!(h.has_trainer && h.has_persistent_storage && h.vertical_arrangement && !h.four_screen);
    let mut unsigned = rom.clone();
    unsigned[0] = 0;
    assert!(!parse_ines_header(&unsigned).has_signature);
}

#[test]
fn ines_builds_mmc3_cartridge() {
    let rom = ines(4, 0x01, 2, 1, true);
    match load_rom_from_bytes(&rom, GameSave::new()) {
        Ok(Cartridge::Mapper004(m)) => {
            // the trainer is skipped: PRG starts with bank 0, the last bank is 3
            assert_eq!(m.read(0x8000), 0);
            assert_eq!(m.read(0xE000), 3);
            assert_eq!(m.read_chr(0x0000), 0xC0);
            assert_eq!(m.mirroring(), Mirroring::Vertical);
        },
        _ => panic!("mapper 4 gives an MMC3 cartridge"),
    }
}

#[test]
fn ines_builds_other_boards() {
    match load_rom_from_bytes(&ines(9, 0x02, 1, 1, false), GameSave::new()) {
        Ok(Cartridge::Mapper009(mut m)) => {
            m.write(0x6001, 0x33);
            assert_eq!(m.read(0x6001), 0x33);
        },
        _ => panic!("mapper 9 gives an MMC2 cartridge"),
    }
    match load_rom_from_bytes(&ines(10, 0x00, 1, 1, false), GameSave::new()) {
        Ok(Cartridge::Mapper010(m)) => assert_eq!(m.mirroring(), Mirroring::Horizontal),
        _ => panic!("mapper 10 gives an MMC4 cartridge"),
    }
    match load_rom_from_bytes(&ines(163, 0x00, 2, 0, false), GameSave::new()) {
        Ok(Cartridge::Mapper163(m)) => assert_eq!(m.read(0x8000), 0),
        _ => panic!("mapper 163 gives a Nanjing cartridge"),
    }
}

#[test]
fn ines_builds_boards_zero_to_three() {
    match load_rom_from_bytes(&ines(0, 0x00, 1, 1, false), GameSave::new()) {
        Ok(Cartridge::Mapper000(m)) => {
            // a 16 KB PRG ROM shows at $8000 and again at $C000
            assert_eq!(m.read(0x8000), 0);
            assert_eq!(m.read(0xA000), 1);
            assert_eq!(m.read(0xC000), 0);
            assert_eq!(m.read(0xE000), 1);
            assert_eq!(m.read_chr(0x1234), 0xC0);
            assert_eq!(m.mirroring(), Mirroring::Horizontal);
        },
        _ => panic!("mapper 0 gives an NROM cartridge"),
    }
    match load_rom_from_bytes(&ines(1, 0x01, 2, 1, false), GameSave::new()) {
        Ok(Cartridge::Mapper001(m)) => {
            // power-on PRG mode 3: bank 0 at $8000, last 16 KB bank at $C000
            assert_eq!(m.read(0x8000), 0);
            assert_eq!(m.read(0xC000), 2);
            assert_eq!(m.read(0xE000), 3);
            assert_eq!(m.read_chr(0x0000), 0xC0);
        },
        _ => panic!("mapper 1 gives an MMC1 cartridge"),
    }
    match load_rom_from_bytes(&ines(2, 0x01, 4, 0, false), GameSave::new()) {
        Ok(Cartridge::Mapper002(mut m)) => {
            assert_eq!(m.read(0x8000), 0);
            assert_eq!(m.read(0xC000), 6);
            assert_eq!(m.mirroring(), Mirroring::Vertical);
            m.write(0x8000, 2);
            assert_eq!(m.read(0x8000), 4);
            assert_eq!(m.read(0xC000), 6);
        },
        _ => panic!("mapper 2 gives a UxROM cartridge"),
    }
    match load_rom_from_bytes(&ines(3, 0x02, 2, 2, false), GameSave::new()) {
        Ok(Cartridge::Mapper003(mut m)) => {
            assert_eq!(m.read(0xC000), 2);
            m.write(0x6010, 0x5A);
            assert_eq!(m.read(0x6010), 0x5A);
            assert_eq!(m.mirroring(), Mirroring::Horizontal);
        },
        _ => panic!("mapper 3 gives a CNROM cartridge"),
    }
}

#[test]
fn ines_unsupported_mapper() {
    match load_rom_from_bytes(&ines(66, 0x00, 1, 1, false), GameSave::new()) {
        Err(e) => assert_eq!(e, RomError::UnsupportedMapper(66)),
        Ok(_) => panic!("mapper 66 is not served"),
    }
}

#[test]
fn ines_four_screen_is_an_error() {
    match load_rom_from_bytes(&ines(4, 0x08, 1, 1, false), GameSave::new()) {
        Err(e) => assert_eq!(e, RomError::FourScreen),
        Ok(_) => panic!("four-screen images are refused"),
    }
    match load_rom_from_bytes(&ines(0, 0x08, 1, 1, false), GameSave::new()) {
        Err(e) => assert_eq!(e, RomError::FourScreen),
        Ok(_) => panic!("four-screen images are refused"),
    }
}

#[test]
fn cartridge_dispatches_to_its_board() {
    let mut c = load_rom_from_bytes(&ines(4, 0x00, 2, 0, false), GameSave::new()).unwrap();
    c.write(0xA000, 0);
    assert_eq!(c.mirroring(), Mirroring::Vertical);
    c.write_chr(0x0010, 0x44);
    assert_eq!(c.read_chr(0x0010), 0x44);
    assert!(!c.irq_pending());
}

#[test]
fn script_draw_colors() {
    assert_eq!(parse_color("#FF8000"), Some((255, 128, 0)));
    assert_eq!(parse_color("#0a0B0c"), Some((10, 11, 12)));
    assert_eq!(parse_color("#+F+F+F"), Some((15, 15, 15)));
    assert_eq!(parse_color("FF8000"), None);
    assert_eq!(parse_color("#FF800"), None);
    assert_eq!(parse_color("#GG0000"), None);
    assert_eq!(parse_color("red"), None);
}

#[test]
fn cpu_address_decoding() {
    assert_eq!(decode_cpu_read(0x0000), CpuReadTarget::Ram(0));
    assert_eq!(decode_cpu_read(0x1801), CpuReadTarget::Ram(1));
    assert_eq!(decode_cpu_read(0x2002), CpuReadTarget::PpuRegister(2));
    assert_eq!(decode_cpu_read(0x3FFF), CpuReadTarget::PpuRegister(7));
    assert_eq!(decode_cpu_read(0x4014), CpuReadTarget::Unreadable);
    assert_eq!(decode_cpu_read(0x4015), CpuReadTarget::ApuStatus);
    assert_eq!(decode_cpu_read(0x4016), CpuReadTarget::Joypad1);
    assert_eq!(decode_cpu_read(0x4017), CpuReadTarget::Joypad2);
    assert_eq!(decode_cpu_read(0x401F), CpuReadTarget::TestRegister(7));
    assert_eq!(decode_cpu_read(0x4020), CpuReadTarget::Cartridge);
    assert_eq!(decode_cpu_write(0x07FF), CpuWriteTarget::Ram(0x7FF));
    assert_eq!(decode_cpu_write(0x2009), CpuWriteTarget::PpuRegister(1));
    assert_eq!(decode_cpu_write(0x4014), CpuWriteTarget::OamDma);
    assert_eq!(decode_cpu_write(0x4015), CpuWriteTarget::ApuRegister);
    assert_eq!(decode_cpu_write(0x4016), CpuWriteTarget::Joypads);
    assert_eq!(decode_cpu_write(0x4017), CpuWriteTarget::ApuRegister);
    assert_eq!(decode_cpu_write(0x4018), CpuWriteTarget::TestRegister(0));
    assert_eq!(decode_cpu_write(0xFFFF), CpuWriteTarget::Cartridge);
    assert_eq!(oam_dma_page_start(0x02), 0x0200);
}

#[test]
fn removing_the_active_custom_palette() {
    let colors = vec![NESColor { r: 1, g: 2, b: 3 }; 64];
    let mut theme = PaletteTheme::Custom(String::from("mine"), colors.clone());
    theme.forget_custom(&String::from("other"));
    assert_eq!(theme, PaletteTheme::Custom(String::from("mine"), colors));
    theme.forget_custom(&String::from("mine"));
    assert_eq!(theme, PaletteTheme::DefaultNtsc);
    let mut fceux = PaletteTheme::Fceux;
    fceux.forget_custom(&String::from("mine"));
    assert_eq!(fceux, PaletteTheme::Fceux);
}

fn nrom_bus() -> BUS<Cartridge> {
    let mut rom = ines(0, 0x00, 1, 1, false);
    // reset vector at $FFFC-$FFFD of the 16 KB image: $8123
    rom[16 + 0x3FFC] = 0x23;
    rom[16 + 0x3FFD] = 0x81;
    BUS::new(load_rom_from_bytes(&rom, GameSave::new()).unwrap())
}

#[test]
fn cpu_bus_ram_mirrors_and_devices() {
    let mut bus = nrom_bus();
    assert_eq!(bus.mem_read(0x0001), Some(0));
    assert!(bus.mem_write(0x0001, 0xAB));
    assert_eq!(bus.mem_read(0x0801), Some(0xAB));
    assert_eq!(bus.mem_read(0x1801), Some(0xAB));
    assert_eq!(bus.mem_read(0x0002), Some(0));
    // PPU registers, APU status and controllers are other devices
    assert_eq!(bus.mem_read(0x2002), None);
    assert_eq!(bus.mem_read(0x4015), None);
    assert_eq!(bus.mem_read(0x4016), None);
    assert!(!bus.mem_write(0x2000, 0x80));
    assert!(!bus.mem_write(0x4014, 0x02));
    assert_eq!(bus.mem_read(0x4000), Some(0));
    // the disabled test registers keep what is written to them
    assert!(bus.mem_write(0x401A, 7));
    assert_eq!(bus.mem_read(0x401A), Some(7));
    assert_eq!(bus.mem_read(0x4019), Some(0));
}

#[test]
fn cpu_bus_cartridge_and_words() {
    let mut bus = nrom_bus();
    assert_eq!(bus.mem_read(0x8000), Some(0));
    assert_eq!(bus.mem_read(0xA000), Some(1));
    assert_eq!(bus.mem_read_u16(0xFFFC), Some(0x8123));
    assert!(bus.mem_write(0x8000, 0x55)); // NROM ignores it
    assert_eq!(bus.mem_read(0x8000), Some(0));
    // a word across the end of RAM: the high byte lands on $0800, a mirror of $0000
    assert!(bus.mem_write_u16(0x07FF, 0x1234));
    assert_eq!(bus.mem_read(0x07FF), Some(0x34));
    assert_eq!(bus.mem_read(0x0000), Some(0x12));
    assert_eq!(bus.mem_read_u16(0x07FF), Some(0x1234));
    assert_eq!(bus.mem_read_u16(0x0FFF), Some(0x1234));
    // a word whose high byte is a PPU register is not served
    assert_eq!(bus.mem_read_u16(0x1FFF), None);
    assert!(!bus.mem_write_u16(0x1FFF, 0xBEEF));
    assert_eq!(bus.mem_read(0x1FFF), Some(0xEF));
}

#[test]
fn script_trace_skips_blank_lines_and_comments() {
    let lines: Vec<String> =
        vec!["local x = 1", "   ", "  -- comment", "\tprint(x)  ", "-", "--", "\u{3000}x\u{A0}"]
            .into_iter()
            .map(String::from)
            .collect();
    assert_eq!(script_line_trace(&lines, "test.lua", 1), Some("  -> [test.lua:1] local x = 1".to_string()));
    assert_eq!(script_line_trace(&lines, "test.lua", 2), None);
    assert_eq!(script_line_trace(&lines, "test.lua", 3), None);
    assert_eq!(script_line_trace(&lines, "test.lua", 4), Some("  -> [test.lua:4] print(x)".to_string()));
    assert_eq!(script_line_trace(&lines, "test.lua", 5), Some("  -> [test.lua:5] -".to_string()));
    assert_eq!(script_line_trace(&lines, "test.lua", 6), None);
    assert_eq!(script_line_trace(&lines, "s.lua", 7), Some("  -> [s.lua:7] x".to_string()));
    assert_eq!(script_line_trace(&lines, "test.lua", 0), None);
    assert_eq!(script_line_trace(&lines, "test.lua", 8), None);
    assert_eq!(script_line_trace(&lines, "test.lua", -3), None);
}

#[test]
fn script_trace_line_numbers_in_decimal() {
    let mut lines: Vec<String> = vec![String::new(); 11];
    lines.push("on_frame()".to_string());
    assert_eq!(script_line_trace(&lines, "a.lua", 12), Some("  -> [a.lua:12] on_frame()".to_string()));
}

#[test]
fn keyboard_keys_drive_controller_buttons() {
    let mut keys = pad(false, false, false, false, false, false);
    apply_key(&mut keys, KeyboardKey::KeyZ, true);
    apply_key(&mut keys, KeyboardKey::ArrowLeft, true);
    apply_key(&mut keys, KeyboardKey::KeyV, false);
    apply_key(&mut keys, KeyboardKey::Other, true);
    assert!(keys.a && keys.left && !keys.select);
    assert!(!keys.b && !keys.start && !keys.up && !keys.down && !keys.right);
    apply_key(&mut keys, KeyboardKey::KeyZ, false);
    apply_key(&mut keys, KeyboardKey::KeyC, true);
    apply_key(&mut keys, KeyboardKey::ArrowDown, true);
    apply_key(&mut keys, KeyboardKey::ArrowRight, true);
    apply_key(&mut keys, KeyboardKey::ArrowUp, true);
    apply_key(&mut keys, KeyboardKey::KeyX, true);
    assert!(!keys.a && keys.b && keys.start && keys.up && keys.down && keys.right && keys.left);
}

#[test]
fn loaded_cartridge_keeps_its_battery_save() {
    let mut c = load_rom_from_bytes(&ines(1, 0x00, 2, 0, false), GameSave::new()).unwrap();
    c.write(0x6005, 0x9C);
    assert_eq!(c.game_save().map(|s| s.bytes()[5]), Some(0x9C));
    // boards 3, 9 and 10 keep it only with the battery bit
    let plain = load_rom_from_bytes(&ines(9, 0x00, 1, 1, false), GameSave::new()).unwrap();
    assert!(plain.game_save().is_none());
    let mut battery = load_rom_from_bytes(&ines(3, 0x02, 1, 1, false), GameSave::new()).unwrap();
    battery.write(0x7FFF, 0x21);
    assert_eq!(battery.game_save().map(|s| s.bytes()[0x1FFF]), Some(0x21));
    let nrom = load_rom_from_bytes(&ines(0, 0x00, 1, 1, false), GameSave::new()).unwrap();
    assert!(nrom.game_save().is_none());
}
