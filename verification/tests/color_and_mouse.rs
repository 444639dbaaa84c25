use moterm::color::ColorSpec;
use moterm::config::ColorConfig;
use moterm::config::CursorConfig;
use moterm::config::WindowConfig;
use moterm::terminal::CursorStyle;
use moterm::color::Rgb;
use moterm::color::ansi256;
use moterm::color::default_bg_color;
use moterm::color::default_fg_color;
use moterm::color::resolve_color;
use moterm::mouse::encode_normal;
use moterm::mouse::encode_sgr;

#[test]
fn base_palette_entries() {
    assert_eq!(ansi256(0), Rgb::new(0x00, 0x00, 0x00));
    assert_eq!(ansi256(1), Rgb::new(0xcd, 0x31, 0x31));
    assert_eq!(ansi256(7), Rgb::new(0xe5, 0xe5, 0xe5));
    assert_eq!(ansi256(15), Rgb::new(0xff, 0xff, 0xff));
}

#[test]
fn color_cube_formula() {
    // 16 is the cube origin; 21 is full blue; 196 full red; 100 mixes.
    assert_eq!(ansi256(16), Rgb::new(0, 0, 0));
    assert_eq!(ansi256(21), Rgb::new(0, 0, 255));
    assert_eq!(ansi256(196), Rgb::new(255, 0, 0));
    assert_eq!(ansi256(100), Rgb::new(135, 135, 0));
}

#[test]
fn grayscale_ramp_formula() {
    assert_eq!(ansi256(232), Rgb::new(8, 8, 8));
    assert_eq!(ansi256(243), Rgb::new(118, 118, 118));
    assert_eq!(ansi256(255), Rgb::new(238, 238, 238));
}

#[test]
fn resolve_each_variant() {
    assert_eq!(resolve_color(ColorSpec::DefaultFg), default_fg_color());
    assert_eq!(resolve_color(ColorSpec::DefaultBg), default_bg_color());
    assert_eq!(resolve_color(ColorSpec::Rgb(9, 8, 7)), Rgb::new(9, 8, 7));
    assert_eq!(resolve_color(ColorSpec::Indexed(21)), Rgb::new(0, 0, 255));
}

#[test]
fn rgb_packing() {
    assert_eq!(Rgb::new(0x12, 0x34, 0x56).to_u32(), 0x123456);
    assert_eq!(Rgb::new(0, 0, 0).to_u32(), 0);
    assert_eq!(Rgb::new(255, 255, 255).to_u32(), 0xffffff);
}

#[test]
fn blending_formula() {
    let fg = Rgb::new(200, 100, 0);
    let bg = Rgb::new(0, 100, 200);
    assert_eq!(fg.blend_over(bg, 255), Rgb::new(200, 100, 0));
    assert_eq!(fg.blend_over(bg, 0), Rgb::new(0, 100, 200));
    // alpha 128: (200*128 + 0*127)/255 = 100; green stays 100;
    // (0*128 + 200*127)/255 = 99.
    assert_eq!(fg.blend_over(bg, 128), Rgb::new(100, 100, 99));
}

#[test]
fn sgr_mouse_report_bytes() {
    assert_eq!(encode_sgr(0, 0, 0, true), b"\x1b[<0;1;1M".to_vec());
    assert_eq!(encode_sgr(2, 14, 9, false), b"\x1b[<2;15;10m".to_vec());
    assert_eq!(encode_sgr(65, 99, 120, true), b"\x1b[<65;100;121M".to_vec());
}

#[test]
fn normal_mouse_report_bytes() {
    assert_eq!(encode_normal(0, 0, 0), vec![0x1b, b'[', b'M', 32, 33, 33]);
    assert_eq!(encode_normal(3, 10, 20), vec![0x1b, b'[', b'M', 35, 43, 53]);
}

#[test]
fn normal_mouse_report_caps_position() {
    let r = encode_normal(0, 5000, 5000);
    assert_eq!(r[4], 32 + 223);
    assert_eq!(r[5], 32 + 223);
}

#[test]
fn config_defaults_and_cursor_style() {
    let w = WindowConfig::default();
    assert_eq!((w.width, w.height), (960, 600));
    let c = CursorConfig::default();
    assert_eq!(c.style, "block");
    assert_eq!(c.initial_cursor_style(), CursorStyle::Block);
    let beam = CursorConfig { style: "bar".to_string() };
    assert_eq!(beam.initial_cursor_style(), CursorStyle::Beam);
    let under = CursorConfig { style: "underline".to_string() };
    assert_eq!(under.initial_cursor_style(), CursorStyle::Underline);
    let odd = CursorConfig { style: "wedge".to_string() };
    assert_eq!(odd.initial_cursor_style(), CursorStyle::Block);
    let colors = ColorConfig::default();
    assert_eq!(colors.background, "#1e1e2e");
    assert_eq!(colors.foreground, "#cdd6f4");
}
