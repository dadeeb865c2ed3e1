use selectnes::game_save::GameSave;
use selectnes::mapper004::InesMapper004;
use selectnes::mapper_base::Mirroring;
use selectnes::ppubus::PPUBUS;

fn cartridge(mirroring: Mirroring) -> InesMapper004 {
    InesMapper004::new(
        vec![0u8; 0x8000].into_boxed_slice(),
        Vec::new().into_boxed_slice(),
        mirroring,
        GameSave::new(),
    )
}

fn make_bus_horizontal() -> PPUBUS<InesMapper004> {
    PPUBUS::new(cartridge(Mirroring::Horizontal))
}

fn make_bus_vertical() -> PPUBUS<InesMapper004> {
    PPUBUS::new(cartridge(Mirroring::Horizontal))
}

// ── Palette RAM ──────────────────────────────────────────────────────

#[test]
fn palette_escrita_e_leitura_basica() {
    let mut bus = make_bus_horizontal();
    bus.write_ppubus(0x3F05, 0x2C);
    assert_eq!(bus.read_ppubus(0x3F05), 0x2C);
}

#[test]
fn palette_mirror_dentro_do_range_3f00_3fff() {
    let mut bus = make_bus_horizontal();
    // $3F25 mirrors $3F05 (0x25 & 0x1F = 0x05)
    bus.write_ppubus(0x3F05, 0xAA);
    assert_eq!(bus.read_ppubus(0x3F25), 0xAA);
}

#[test]
fn palette_mirror_sprite_para_background_em_multiplos_de_4() {
    let mut bus = make_bus_horizontal();
    // $3F10, $3F14, $3F18, $3F1C mirror $3F00, $3F04, $3F08, $3F0C
    bus.write_ppubus(0x3F10, 0x11);
    assert_eq!(bus.read_ppubus(0x3F00), 0x11);

    bus.write_ppubus(0x3F14, 0x22);
    assert_eq!(bus.read_ppubus(0x3F04), 0x22);
}

#[test]
fn palette_slots_independentes() {
    let mut bus = make_bus_horizontal();
    for i in 0u8..32 {
        // skip the mirrored slots ($10, $14, $18, $1C)
        if i >= 0x10 && i % 4 == 0 {
            continue;
        }
        bus.write_ppubus(0x3F00 + i as u16, i);
    }
    for i in 0u8..32 {
        if i >= 0x10 && i % 4 == 0 {
            continue;
        }
        assert_eq!(bus.read_ppubus(0x3F00 + i as u16), i);
    }
}

// ── VRAM, horizontal arrangement ─────────────────────────────────────
// A ($2000) = B ($2400)  ->  low VRAM
// C ($2800) = D ($2C00)  ->  high VRAM

#[test]
fn vram_horizontal_a_espelha_b() {
    let mut bus = make_bus_horizontal();
    bus.write_ppubus(0x2000, 0x42);
    assert_eq!(bus.read_ppubus(0x2400), 0x42);
}

#[test]
fn vram_horizontal_b_espelha_a() {
    let mut bus = make_bus_horizontal();
    bus.write_ppubus(0x2400, 0x99);
    assert_eq!(bus.read_ppubus(0x2000), 0x99);
}

#[test]
fn vram_horizontal_c_espelha_d() {
    let mut bus = make_bus_horizontal();
    bus.write_ppubus(0x2800, 0x77);
    assert_eq!(bus.read_ppubus(0x2C00), 0x77);
}

#[test]
fn vram_horizontal_ab_independente_de_cd() {
    let mut bus = make_bus_horizontal();
    bus.write_ppubus(0x2000, 0x11);
    bus.write_ppubus(0x2800, 0x22);
    assert_eq!(bus.read_ppubus(0x2000), 0x11);
    assert_eq!(bus.read_ppubus(0x2800), 0x22);
}

// ── VRAM, $3000-$3EFF mirrors $2000-$2EFF ────────────────────────────

#[test]
fn vram_mirror_de_3000_para_2000() {
    let mut bus = make_bus_horizontal();
    bus.write_ppubus(0x2005, 0xAB);
    assert_eq!(bus.read_ppubus(0x3005), 0xAB);
}

#[test]
fn vertical_palette_escrita_e_leitura_basica() {
    let mut bus = make_bus_horizontal();
    bus.write_ppubus(0x3F05, 0x2C);
    assert_eq!(bus.read_ppubus(0x3F05), 0x2C);
}

#[test]
fn vertical_palette_mirror_dentro_do_range_3f00_3fff() {
    let mut bus = make_bus_vertical();
    // $3F25 mirrors $3F05 (0x25 & 0x1F = 0x05)
    bus.write_ppubus(0x3F05, 0xAA);
    assert_eq!(bus.read_ppubus(0x3F25), 0xAA);
}

#[test]
fn vertical_palette_mirror_sprite_para_background_em_multiplos_de_4() {
    let mut bus = make_bus_vertical();
    // $3F10, $3F14, $3F18, $3F1C mirror $3F00, $3F04, $3F08, $3F0C
    bus.write_ppubus(0x3F10, 0x11);
    assert_eq!(bus.read_ppubus(0x3F00), 0x11);

    bus.write_ppubus(0x3F14, 0x22);
    assert_eq!(bus.read_ppubus(0x3F04), 0x22);
}

#[test]
fn vertica_palette_slots_independentes() {
    let mut bus = make_bus_vertical();
    for i in 0u8..32 {
        // skip the mirrored slots ($10, $14, $18, $1C)
        if i >= 0x10 && i % 4 == 0 {
            continue;
        }
        bus.write_ppubus(0x3F00 + i as u16, i);
    }
    for i in 0u8..32 {
        if i >= 0x10 && i % 4 == 0 {
            continue;
        }
        assert_eq!(bus.read_ppubus(0x3F00 + i as u16), i);
    }
}

// ── VRAM, the second bus (built with the horizontal arrangement) ─────

#[test]
fn vram_vertical_a_espelha_b() {
    let mut bus = make_bus_vertical();
    bus.write_ppubus(0x2000, 0x42);
    assert_eq!(bus.read_ppubus(0x2400), 0x42);
}

#[test]
fn vram_vertical_b_espelha_a() {
    let mut bus = make_bus_vertical();
    bus.write_ppubus(0x2400, 0x99);
    assert_eq!(bus.read_ppubus(0x2000), 0x99);
}

#[test]
fn vram_vertical_c_espelha_d() {
    let mut bus = make_bus_vertical();
    bus.write_ppubus(0x2800, 0x77);
    assert_eq!(bus.read_ppubus(0x2C00), 0x77);
}

#[test]
fn vram_vertical_ab_independente_de_cd() {
    let mut bus = make_bus_vertical();
    bus.write_ppubus(0x2000, 0x11);
    bus.write_ppubus(0x2800, 0x22);
    assert_eq!(bus.read_ppubus(0x2000), 0x11);
    assert_eq!(bus.read_ppubus(0x2800), 0x22);
}

#[test]
fn vertical_vram_mirror_de_3000_para_2000() {
    let mut bus = make_bus_vertical();
    bus.write_ppubus(0x2005, 0xAB);
    assert_eq!(bus.read_ppubus(0x3005), 0xAB);
}

// ── further scenarios ────────────────────────────────────────────────

#[test]
fn vram_true_vertical_arrangement() {
    let mut bus = PPUBUS::new(cartridge(Mirroring::Vertical));
    bus.write_ppubus(0x2000, 0x42);
    assert_eq!(bus.read_ppubus(0x2800), 0x42);
    assert_eq!(bus.read_ppubus(0x2400), 0x00);
    bus.write_ppubus(0x2C10, 0x5A);
    assert_eq!(bus.read_ppubus(0x2410), 0x5A);
}

#[test]
fn vram_single_screen_arrangements() {
    let mut lower = PPUBUS::new(cartridge(Mirroring::SingleScreenLower));
    lower.write_ppubus(0x2C01, 0x31);
    assert_eq!(lower.read_ppubus(0x2001), 0x31);
    assert_eq!(lower.read_ppubus(0x2401), 0x31);
    let mut upper = PPUBUS::new(cartridge(Mirroring::SingleScreenUpper));
    upper.write_ppubus(0x2001, 0x32);
    assert_eq!(upper.read_ppubus(0x2801), 0x32);
}

#[test]
fn ppu_address_repeats_above_3fff() {
    let mut bus = make_bus_horizontal();
    bus.write_ppubus(0x7F05, 0x19);
    assert_eq!(bus.peek(0x3F05), 0x19);
    assert_eq!(bus.palette_ram[5], 0x19);
}

#[test]
fn pattern_memory_goes_to_chr_ram() {
    let mut bus = make_bus_horizontal();
    bus.write_ppubus(0x0123, 0xEE);
    assert_eq!(bus.read_ppubus(0x0123), 0xEE);
    assert_eq!(bus.peek(0x0124), 0x00);
}

#[test]
fn peek_matches_read_for_palette() {
    let mut bus = make_bus_horizontal();
    bus.write_ppubus(0x3F1C, 0x0C);
    assert_eq!(bus.peek(0x3F0C), 0x0C);
    assert_eq!(bus.peek(0x3F1C), 0x0C);
}
