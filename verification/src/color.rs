use vstd::prelude::*;

verus! {

/// One color as the escape-sequence protocol names it: the terminal's
/// default foreground or background, an indexed palette slot, or an
/// explicit RGB triple.
#[derive(Clone, Copy, Debug, PartialEq, Eq, Structural)]
pub enum ColorSpec {
    DefaultFg,
    DefaultBg,
    Indexed(u8),
    Rgb(u8, u8, u8),
}

/// A resolved color, one byte per channel.
#[derive(Clone, Copy, Debug, PartialEq, Eq, Structural)]
pub struct Rgb {
    pub r: u8,
    pub g: u8,
    pub b: u8,
}

/// The packed 0x00RRGGBB form of a color.
pub open spec fn rgb_to_u32(c: Rgb) -> u32 {
    ((c.r as u32) << 16) | ((c.g as u32) << 8) | (c.b as u32)
}

/// One channel of `fg` blended over `bg` with opacity `alpha`.
pub open spec fn blend_channel(fg: u8, bg: u8, alpha: u8) -> int {
    (fg * alpha + bg * (255 - alpha)) / 255
}

impl Rgb {
    pub fn new(r: u8, g: u8, b: u8) -> (c: Rgb)
        ensures
            c == (Rgb { r, g, b }),
    {
        Rgb { r, g, b }
    }

    /// Packs the three channels as 0x00RRGGBB.
    pub fn to_u32(self) -> (v: u32)
        ensures
            v == rgb_to_u32(self),
    {
        ((self.r as u32) << 16) | ((self.g as u32) << 8) | (self.b as u32)
    }

    /// Alpha-blends `self` over `bg`: each channel becomes
    /// `(fg * alpha + bg * (255 - alpha)) / 255`.
    pub fn blend_over(self, bg: Rgb, alpha: u8) -> (c: Rgb)
        ensures
            c.r == blend_channel(self.r, bg.r, alpha),
            c.g == blend_channel(self.g, bg.g, alpha),
            c.b == blend_channel(self.b, bg.b, alpha),
    {
        Rgb {
            r: blend_one(self.r, bg.r, alpha),
            g: blend_one(self.g, bg.g, alpha),
            b: blend_one(self.b, bg.b, alpha),
        }
    }
}

fn blend_one(fg: u8, bg: u8, alpha: u8) -> (v: u8)
    ensures
        v == blend_channel(fg, bg, alpha),
{
    let a = alpha as u16;
    let ia = 255 - a;
    assert(fg * a + bg * ia <= 255 * 255) by (nonlinear_arith)
        requires
            fg <= 255 && a <= 255 && bg <= 255 && ia == 255 - a,
    ;
    let sum = (fg as u16) * a + (bg as u16) * ia;
    (sum / 255) as u8
}

/// The default foreground color of the built-in palette.
pub open spec fn default_fg() -> Rgb {
    Rgb { r: 0xe6, g: 0xe6, b: 0xe6 }
}

/// The default background color of the built-in palette.
pub open spec fn default_bg() -> Rgb {
    Rgb { r: 0x11, g: 0x12, b: 0x14 }
}

/// The background color used for selected cells.
pub open spec fn selection_bg() -> Rgb {
    Rgb { r: 0x33, g: 0x66, b: 0x99 }
}

/// The background color of the cursor cell.
pub open spec fn cursor_bg() -> Rgb {
    Rgb { r: 0xf0, g: 0xf0, b: 0xf0 }
}

/// The foreground color of the cursor cell.
pub open spec fn cursor_fg() -> Rgb {
    Rgb { r: 0x10, g: 0x10, b: 0x10 }
}

pub fn default_fg_color() -> (c: Rgb)
    ensures
        c == default_fg(),
{
    Rgb { r: 0xe6, g: 0xe6, b: 0xe6 }
}

pub fn default_bg_color() -> (c: Rgb)
    ensures
        c == default_bg(),
{
    Rgb { r: 0x11, g: 0x12, b: 0x14 }
}

pub fn selection_bg_color() -> (c: Rgb)
    ensures
        c == selection_bg(),
{
    Rgb { r: 0x33, g: 0x66, b: 0x99 }
}

pub fn cursor_bg_color() -> (c: Rgb)
    ensures
        c == cursor_bg(),
{
    Rgb { r: 0xf0, g: 0xf0, b: 0xf0 }
}

pub fn cursor_fg_color() -> (c: Rgb)
    ensures
        c == cursor_fg(),
{
    Rgb { r: 0x10, g: 0x10, b: 0x10 }
}

/// The fixed 16-color base palette.
pub open spec fn base16(idx: u8) -> Rgb {
    if idx == 0 { Rgb { r: 0x00, g: 0x00, b: 0x00 } }
    else if idx == 1 { Rgb { r: 0xcd, g: 0x31, b: 0x31 } }
    else if idx == 2 { Rgb { r: 0x0d, g: 0xbc, b: 0x79 } }
    else if idx == 3 { Rgb { r: 0xe5, g: 0xe5, b: 0x10 } }
    else if idx == 4 { Rgb { r: 0x24, g: 0x72, b: 0xc8 } }
    else if idx == 5 { Rgb { r: 0xbc, g: 0x3f, b: 0xbc } }
    else if idx == 6 { Rgb { r: 0x11, g: 0xa8, b: 0xcd } }
    else if idx == 7 { Rgb { r: 0xe5, g: 0xe5, b: 0xe5 } }
    else if idx == 8 { Rgb { r: 0x66, g: 0x66, b: 0x66 } }
    else if idx == 9 { Rgb { r: 0xf1, g: 0x4c, b: 0x4c } }
    else if idx == 10 { Rgb { r: 0x23, g: 0xd1, b: 0x8b } }
    else if idx == 11 { Rgb { r: 0xf5, g: 0xf5, b: 0x43 } }
    else if idx == 12 { Rgb { r: 0x3b, g: 0x8e, b: 0xff } }
    else if idx == 13 { Rgb { r: 0xd6, g: 0x70, b: 0xd6 } }
    else if idx == 14 { Rgb { r: 0x29, g: 0xb8, b: 0xdb } }
    else { Rgb { r: 0xff, g: 0xff, b: 0xff } }
}

/// One level of the 6x6x6 color cube: 0 maps to 0, 1..=5 map to 55 + 40*v.
pub open spec fn cube_level(v: u8) -> u8 {
    if v == 0 { 0u8 } else { (55 + v * 40) as u8 }
}

/// The 256-color palette: 16 base colors, a 6x6x6 cube, and a
/// 24-step grayscale ramp.
pub open spec fn ansi256_spec(idx: u8) -> Rgb {
    if idx < 16 {
        base16(idx)
    } else if idx <= 231 {
        let i = (idx - 16) as u8;
        Rgb { r: cube_level(i / 36), g: cube_level(((i % 36) / 6) as u8), b: cube_level(i % 6) }
    } else {
        let c = (8 + (idx - 232) * 10) as u8;
        Rgb { r: c, g: c, b: c }
    }
}

fn cube_level_exec(v: u8) -> (r: u8)
    requires
        v <= 5,
    ensures
        r == cube_level(v),
{
    if v == 0 { 0 } else { 55 + v * 40 }
}

/// Resolves an indexed palette slot to its RGB value.
pub fn ansi256(idx: u8) -> (c: Rgb)
    ensures
        c == ansi256_spec(idx),
{
    if idx < 16 {
        if idx == 0 { Rgb { r: 0x00, g: 0x00, b: 0x00 } }
        else if idx == 1 { Rgb { r: 0xcd, g: 0x31, b: 0x31 } }
        else if idx == 2 { Rgb { r: 0x0d, g: 0xbc, b: 0x79 } }
        else if idx == 3 { Rgb { r: 0xe5, g: 0xe5, b: 0x10 } }
        else if idx == 4 { Rgb { r: 0x24, g: 0x72, b: 0xc8 } }
        else if idx == 5 { Rgb { r: 0xbc, g: 0x3f, b: 0xbc } }
        else if idx == 6 { Rgb { r: 0x11, g: 0xa8, b: 0xcd } }
        else if idx == 7 { Rgb { r: 0xe5, g: 0xe5, b: 0xe5 } }
        else if idx == 8 { Rgb { r: 0x66, g: 0x66, b: 0x66 } }
        else if idx == 9 { Rgb { r: 0xf1, g: 0x4c, b: 0x4c } }
        else if idx == 10 { Rgb { r: 0x23, g: 0xd1, b: 0x8b } }
        else if idx == 11 { Rgb { r: 0xf5, g: 0xf5, b: 0x43 } }
        else if idx == 12 { Rgb { r: 0x3b, g: 0x8e, b: 0xff } }
        else if idx == 13 { Rgb { r: 0xd6, g: 0x70, b: 0xd6 } }
        else if idx == 14 { Rgb { r: 0x29, g: 0xb8, b: 0xdb } }
        else { Rgb { r: 0xff, g: 0xff, b: 0xff } }
    } else if idx <= 231 {
        let i = idx - 16;
        let r = i / 36;
        let g = (i % 36) / 6;
        let b = i % 6;
        Rgb { r: cube_level_exec(r), g: cube_level_exec(g), b: cube_level_exec(b) }
    } else {
        let c = 8 + (idx - 232) * 10;
        Rgb { r: c, g: c, b: c }
    }
}

/// What a color specification resolves to on screen.
pub open spec fn resolve_color_spec(spec: ColorSpec) -> Rgb {
    match spec {
        ColorSpec::DefaultFg => default_fg(),
        ColorSpec::DefaultBg => default_bg(),
        ColorSpec::Rgb(r, g, b) => Rgb { r, g, b },
        ColorSpec::Indexed(idx) => ansi256_spec(idx),
    }
}

/// Resolves any color specification to a concrete RGB value.
pub fn resolve_color(spec: ColorSpec) -> (c: Rgb)
    ensures
        c == resolve_color_spec(spec),
{
    match spec {
        ColorSpec::DefaultFg => default_fg_color(),
        ColorSpec::DefaultBg => default_bg_color(),
        ColorSpec::Rgb(r, g, b) => Rgb { r, g, b },
        ColorSpec::Indexed(idx) => ansi256(idx),
    }
}

} // verus!
