use vstd::prelude::*;

verus! {

#[derive(Debug, PartialEq, Eq, Clone, Copy, Structural)]
pub struct NESColor {
    pub r: u8,
    pub g: u8,
    pub b: u8,
}

/// The colour themes the emulator can draw with: six built-in tables of the
/// 64 NES colours, or a custom table with its name.
#[derive(Debug, Clone, PartialEq)]
pub enum PaletteTheme {
    DefaultNtsc,
    SonyCxa,
    Fceux,
    InvertedNtsc,
    Nestopia,
    ShovelKnight,
    Custom(String, Vec<NESColor>),
}

impl Default for PaletteTheme {
    fn default() -> (t: Self)
        ensures
            t == PaletteTheme::DefaultNtsc,
    {
        PaletteTheme::DefaultNtsc
    }
}

/// Colour `i` of a table of RGB triples.
pub open spec fn rgb_color(table: Seq<u8>, i: int) -> NESColor {
    NESColor { r: table[3 * i], g: table[3 * i + 1], b: table[3 * i + 2] }
}

/// The 64 colours of a table of RGB triples.
pub open spec fn table_colors(table: Seq<u8>) -> Seq<NESColor> {
    Seq::new(64, |i: int| rgb_color(table, i))
}

/// The 64 colours a theme draws with.
pub open spec fn theme_colors(t: PaletteTheme) -> Seq<NESColor> {
    match t {
        PaletteTheme::DefaultNtsc => table_colors(NTSC_DEFAULT_PALETTE@),
        PaletteTheme::SonyCxa => table_colors(SONY_CXA_PALETTE@),
        PaletteTheme::Fceux => table_colors(FCEUX_PALETTE@),
        PaletteTheme::InvertedNtsc => table_colors(NTSC_INVERTED_PALETTE@),
        PaletteTheme::Nestopia => table_colors(NESTOPIA_PALETTE@),
        PaletteTheme::ShovelKnight => table_colors(SHOVEL_KNIGHT_NES_PALETTE@),
        PaletteTheme::Custom(_, colors) => colors@,
    }
}

/// The theme holds a full table: a custom theme must hold exactly 64 colours.
pub open spec fn theme_complete(t: PaletteTheme) -> bool {
    match t {
        PaletteTheme::Custom(_, colors) => colors@.len() == 64,
        _ => true,
    }
}

fn colors_of_table(table: &[u8; 192]) -> (r: [NESColor; 64])
    ensures
        r@ == table_colors(table@),
{
    let mut out = [NESColor { r: 0, g: 0, b: 0 }; 64];
    let mut i: usize = 0;
    while i < 64
        invariant
            i <= 64,
            out@.len() == 64,
            forall|j: int| 0 <= j < i ==> out@[j] == rgb_color(table@, j),
        decreases 64 - i,
    {
        out[i] = NESColor { r: table[3 * i], g: table[3 * i + 1], b: table[3 * i + 2] };
        i = i + 1;
    }
    proof {
        assert(out@ =~= table_colors(table@));
    }
    out
}

impl PaletteTheme {
    /// Follows the removal of the custom palette `name` from the settings: a
    /// theme that draws with it falls back to the default NTSC theme, any
    /// other theme stays.
    pub fn forget_custom(&mut self, name: &String)
        ensures
            (*old(self) matches PaletteTheme::Custom(active, _) && active@ == name@) ==> *final(self)
                == PaletteTheme::DefaultNtsc,
            !(*old(self) matches PaletteTheme::Custom(active, _) && active@ == name@) ==> *final(self)
                == *old(self),
    {
        let uses_it = match &*self {
            PaletteTheme::Custom(active, _) => active.eq(name),
            _ => false,
        };
        if uses_it {
            *self = PaletteTheme::DefaultNtsc;
        }
    }

    /// The current colour theme: the 64 NES colours as RGB values.
    pub fn get_collors(&self) -> (r: [NESColor; 64])
        requires
            theme_complete(*self),
        ensures
            r@ == theme_colors(*self),
    {
        match self {
            PaletteTheme::DefaultNtsc => colors_of_table(&NTSC_DEFAULT_PALETTE),
            PaletteTheme::Nestopia => colors_of_table(&NESTOPIA_PALETTE),
            PaletteTheme::SonyCxa => colors_of_table(&SONY_CXA_PALETTE),
            PaletteTheme::Fceux => colors_of_table(&FCEUX_PALETTE),
            PaletteTheme::InvertedNtsc => colors_of_table(&NTSC_INVERTED_PALETTE),
            PaletteTheme::ShovelKnight => colors_of_table(&SHOVEL_KNIGHT_NES_PALETTE),
            PaletteTheme::Custom(_, custom_colors) => {
                let mut out = [NESColor { r: 0, g: 0, b: 0 }; 64];
                let mut i: usize = 0;
                while i < 64
                    invariant
                        i <= 64,
                        out@.len() == 64,
                        custom_colors@.len() == 64,
                        forall|j: int| 0 <= j < i ==> out@[j] == custom_colors@[j],
                    decreases 64 - i,
                {
                    out[i] = custom_colors[i];
                    i = i + 1;
                }
                proof {
                    assert(out@ =~= custom_colors@);
                }
                out
            },
        }
    }
}

// --------------HARDCODED PALETTES--------------
// Each table holds the 64 NES colours as consecutive R, G, B bytes.

pub const NTSC_DEFAULT_PALETTE: [u8; 192] = [
    84, 84, 84, 0, 30, 116, 8, 16, 144, 48, 0, 136,
    68, 0, 100, 88, 0, 40, 84, 4, 0, 68, 24, 0,
    32, 42, 0, 0, 58, 0, 0, 64, 0, 0, 60, 0,
    0, 50, 60, 0, 0, 0, 0, 0, 0, 0, 0, 0,
    152, 152, 152, 0, 80, 188, 56, 72, 240, 104, 64, 240,
    140, 48, 224, 160, 32, 176, 160, 32, 100, 144, 48, 32,
    104, 64, 32, 60, 82, 0, 0, 96, 0, 20, 100, 0,
    48, 96, 0, 0, 84, 96, 0, 0, 0, 0, 0, 0,
    240, 240, 240, 124, 136, 252, 188, 188, 252, 216, 176, 252,
    228, 160, 236, 236, 144, 228, 236, 144, 176, 220, 160, 112,
    196, 176, 96, 148, 192, 80, 120, 204, 80, 88, 216, 120,
    116, 208, 196, 160, 160, 160, 0, 0, 0, 0, 0, 0,
    252, 252, 252, 188, 216, 252, 224, 224, 252, 236, 236, 252,
    248, 216, 252, 252, 204, 240, 252, 196, 224, 244, 204, 168,
    228, 212, 148, 204, 224, 132, 184, 232, 144, 152, 240, 180,
    168, 236, 224, 200, 200, 200, 0, 0, 0, 0, 0, 0,
];

pub const SONY_CXA_PALETTE: [u8; 192] = [
    88, 88, 88, 0, 35, 134, 17, 15, 152, 52, 0, 136,
    89, 0, 99, 106, 0, 46, 101, 13, 0, 76, 34, 0,
    41, 57, 0, 3, 74, 0, 0, 79, 0, 0, 71, 35,
    0, 58, 86, 0, 0, 0, 0, 0, 0, 0, 0, 0,
    160, 160, 160, 0, 88, 230, 54, 60, 255, 110, 30, 240,
    161, 21, 182, 187, 30, 104, 180, 55, 23, 144, 85, 0,
    94, 118, 0, 36, 143, 0, 0, 153, 0, 0, 141, 68,
    0, 118, 145, 0, 0, 0, 0, 0, 0, 0, 0, 0,
    255, 255, 255, 60, 168, 255, 109, 144, 255, 166, 116, 255,
    219, 108, 255, 247, 118, 200, 240, 143, 119, 206, 172, 58,
    156, 204, 42, 96, 228, 47, 56, 238, 90, 48, 228, 147,
    48, 204, 204, 0, 0, 0, 0, 0, 0, 0, 0, 0,
    255, 255, 255, 166, 214, 255, 186, 204, 255, 210, 194, 255,
    233, 190, 255, 246, 194, 235, 243, 205, 201, 228, 217, 174,
    207, 230, 168, 183, 240, 169, 166, 244, 187, 162, 240, 211,
    162, 230, 230, 0, 0, 0, 0, 0, 0, 0, 0, 0,
];

pub const FCEUX_PALETTE: [u8; 192] = [
    117, 117, 117, 39, 27, 143, 0, 0, 171, 71, 0, 159,
    143, 0, 119, 171, 0, 19, 167, 0, 0, 127, 11, 0,
    67, 47, 0, 0, 71, 0, 0, 81, 0, 0, 63, 23,
    27, 63, 95, 0, 0, 0, 0, 0, 0, 0, 0, 0,
    188, 188, 188, 0, 115, 239, 35, 59, 239, 131, 0, 243,
    191, 0, 191, 231, 0, 91, 219, 43, 0, 203, 79, 0,
    139, 115, 0, 0, 151, 0, 0, 171, 0, 0, 147, 59,
    0, 131, 139, 0, 0, 0, 0, 0, 0, 0, 0, 0,
    255, 255, 255, 63, 191, 255, 95, 151, 255, 167, 139, 253,
    247, 123, 255, 255, 119, 183, 255, 119, 99, 255, 155, 59,
    243, 191, 63, 131, 211, 19, 79, 223, 75, 88, 248, 152,
    0, 235, 219, 0, 0, 0, 0, 0, 0, 0, 0, 0,
    255, 255, 255, 171, 231, 255, 199, 215, 255, 215, 203, 255,
    255, 199, 255, 255, 199, 219, 255, 191, 179, 255, 219, 171,
    255, 231, 163, 227, 255, 163, 171, 243, 191, 179, 255, 207,
    159, 255, 243, 0, 0, 0, 0, 0, 0, 0, 0, 0,
];

pub const NTSC_INVERTED_PALETTE: [u8; 192] = [
    171, 171, 171, 255, 225, 139, 247, 239, 111, 207, 255, 119,
    187, 255, 155, 167, 255, 215, 171, 251, 255, 187, 231, 255,
    223, 213, 255, 255, 197, 255, 255, 191, 255, 255, 195, 255,
    255, 205, 195, 255, 255, 255, 255, 255, 255, 255, 255, 255,
    103, 103, 103, 255, 175, 67, 199, 183, 15, 151, 191, 15,
    115, 207, 31, 95, 223, 79, 95, 223, 155, 111, 207, 223,
    151, 191, 223, 195, 173, 255, 255, 159, 255, 235, 155, 255,
    207, 159, 255, 255, 171, 159, 255, 255, 255, 255, 255, 255,
    15, 15, 15, 131, 119, 3, 67, 67, 3, 39, 79, 3,
    27, 95, 19, 19, 111, 27, 19, 111, 79, 35, 95, 143,
    59, 79, 159, 107, 63, 175, 135, 51, 175, 167, 39, 135,
    139, 47, 59, 95, 95, 95, 255, 255, 255, 255, 255, 255,
    3, 3, 3, 67, 39, 3, 31, 31, 3, 19, 19, 3,
    7, 39, 3, 3, 51, 15, 3, 59, 31, 11, 51, 87,
    27, 43, 107, 51, 31, 123, 71, 23, 111, 103, 15, 75,
    87, 19, 31, 55, 55, 55, 255, 255, 255, 255, 255, 255,
];

pub const NESTOPIA_PALETTE: [u8; 192] = [
    104, 104, 104, 0, 40, 156, 20, 16, 172, 64, 0, 152,
    100, 0, 108, 112, 0, 48, 104, 16, 0, 76, 36, 0,
    40, 56, 0, 0, 72, 0, 0, 80, 0, 0, 72, 40,
    0, 56, 100, 0, 0, 0, 0, 0, 0, 0, 0, 0,
    176, 176, 176, 24, 104, 232, 84, 76, 252, 140, 52, 252,
    196, 40, 200, 216, 40, 112, 212, 56, 16, 176, 88, 0,
    116, 116, 0, 44, 136, 0, 0, 148, 0, 0, 140, 84,
    0, 116, 176, 0, 0, 0, 0, 0, 0, 0, 0, 0,
    252, 252, 252, 108, 192, 252, 160, 172, 252, 216, 152, 252,
    252, 140, 252, 252, 140, 200, 252, 156, 136, 252, 180, 72,
    212, 204, 40, 160, 224, 40, 112, 236, 56, 80, 236, 132,
    84, 220, 216, 156, 156, 156, 0, 0, 0, 0, 0, 0,
    252, 252, 252, 196, 228, 252, 216, 220, 252, 240, 212, 252,
    252, 208, 252, 252, 208, 232, 252, 216, 204, 252, 228, 176,
    240, 236, 164, 216, 244, 164, 196, 248, 176, 180, 248, 208,
    180, 244, 240, 212, 212, 212, 0, 0, 0, 0, 0, 0,
];

pub const SHOVEL_KNIGHT_NES_PALETTE: [u8; 192] = [
    44, 44, 44, 0, 0, 196, 64, 40, 196, 148, 0, 140,
    172, 0, 40, 172, 16, 0, 140, 24, 0, 80, 48, 0,
    0, 72, 0, 0, 104, 0, 0, 88, 0, 0, 64, 88,
    0, 64, 88, 0, 0, 0, 0, 0, 0, 0, 0, 0,
    96, 96, 96, 0, 120, 252, 104, 72, 252, 220, 0, 212,
    228, 0, 96, 252, 56, 0, 228, 96, 24, 172, 128, 0,
    0, 184, 0, 0, 168, 0, 0, 168, 72, 0, 136, 148,
    0, 64, 88, 0, 0, 0, 0, 0, 0, 0, 0, 0,
    200, 192, 192, 56, 192, 252, 156, 120, 252, 252, 120, 252,
    252, 88, 156, 252, 120, 88, 252, 160, 72, 252, 184, 0,
    188, 248, 24, 88, 216, 88, 88, 248, 156, 1, 232, 228,
    104, 136, 252, 120, 128, 132, 0, 0, 0, 0, 0, 0,
    252, 248, 252, 164, 232, 252, 220, 184, 252, 252, 184, 252,
    244, 192, 224, 244, 208, 180, 252, 224, 180, 252, 216, 132,
    220, 248, 120, 184, 248, 120, 176, 240, 216, 1, 248, 252,
    188, 184, 252, 188, 192, 196, 0, 0, 0, 0, 0, 0,
];

/// Each built-in theme draws with its own table: colour `i` of a theme is
/// the `i`-th red, green, blue triple of that theme's table.
pub proof fn law_builtin_theme_tables(i: int)
    requires
        0 <= i < 64,
    ensures
        theme_colors(PaletteTheme::DefaultNtsc).len() == 64,
        theme_colors(PaletteTheme::DefaultNtsc)[i] == (NESColor {
            r: NTSC_DEFAULT_PALETTE[3 * i],
            g: NTSC_DEFAULT_PALETTE[3 * i + 1],
            b: NTSC_DEFAULT_PALETTE[3 * i + 2],
        }),
        theme_colors(PaletteTheme::SonyCxa)[i] == (NESColor {
            r: SONY_CXA_PALETTE[3 * i],
            g: SONY_CXA_PALETTE[3 * i + 1],
            b: SONY_CXA_PALETTE[3 * i + 2],
        }),
        theme_colors(PaletteTheme::Fceux)[i] == (NESColor {
            r: FCEUX_PALETTE[3 * i],
            g: FCEUX_PALETTE[3 * i + 1],
            b: FCEUX_PALETTE[3 * i + 2],
        }),
        theme_colors(PaletteTheme::InvertedNtsc)[i] == (NESColor {
            r: NTSC_INVERTED_PALETTE[3 * i],
            g: NTSC_INVERTED_PALETTE[3 * i + 1],
            b: NTSC_INVERTED_PALETTE[3 * i + 2],
        }),
        theme_colors(PaletteTheme::Nestopia)[i] == (NESColor {
            r: NESTOPIA_PALETTE[3 * i],
            g: NESTOPIA_PALETTE[3 * i + 1],
            b: NESTOPIA_PALETTE[3 * i + 2],
        }),
        theme_colors(PaletteTheme::ShovelKnight)[i] == (NESColor {
            r: SHOVEL_KNIGHT_NES_PALETTE[3 * i],
            g: SHOVEL_KNIGHT_NES_PALETTE[3 * i + 1],
            b: SHOVEL_KNIGHT_NES_PALETTE[3 * i + 2],
        }),
{
}

/// A custom theme draws with the colours it holds, in order.
pub proof fn law_custom_theme_colors(name: String, colors: Vec<NESColor>, i: int)
    requires
        0 <= i < colors@.len(),
    ensures
        theme_colors(PaletteTheme::Custom(name, colors)).len() == colors@.len(),
        theme_colors(PaletteTheme::Custom(name, colors))[i] == colors@[i],
{
}

} // verus!
