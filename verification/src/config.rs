use vstd::prelude::*;

use crate::terminal::CursorStyle;

verus! {

/// Window dimensions in pixels, as configuration names them. Reading
/// and parsing the configuration file happens outside the library; the
/// library holds the values and the rules over them.
#[derive(Clone, Copy, Debug, PartialEq, Eq, Structural)]
pub struct WindowConfig {
    pub width: u32,
    pub height: u32,
}

impl Default for WindowConfig {
    fn default() -> (c: WindowConfig)
        ensures
            c == (WindowConfig { width: 960u32, height: 600u32 }),
    {
        WindowConfig { width: 960, height: 600 }
    }
}

/// The configured cursor shape, by name.
#[derive(Clone, Debug)]
pub struct CursorConfig {
    pub style: String,
}

impl Default for CursorConfig {
    fn default() -> (c: CursorConfig)
        ensures
            c.style@ == "block"@,
    {
        CursorConfig { style: "block".to_owned() }
    }
}

impl CursorConfig {
    /// The cursor shape the configured name selects: `beam` and `bar`
    /// pick the beam, `underline` the underline, anything else the
    /// block.
    pub fn initial_cursor_style(&self) -> (s: CursorStyle)
        ensures
            s == (if self.style@ == "beam"@ || self.style@ == "bar"@ {
                CursorStyle::Beam
            } else if self.style@ == "underline"@ {
                CursorStyle::Underline
            } else {
                CursorStyle::Block
            }),
    {
        if self.style == "beam".to_owned() || self.style == "bar".to_owned() {
            CursorStyle::Beam
        } else if self.style == "underline".to_owned() {
            CursorStyle::Underline
        } else {
            CursorStyle::Block
        }
    }
}

/// The configured default colors, as hex strings.
#[derive(Clone, Debug)]
pub struct ColorConfig {
    pub background: String,
    pub foreground: String,
}

impl Default for ColorConfig {
    fn default() -> (c: ColorConfig)
        ensures
            c.background@ == "#1e1e2e"@,
            c.foreground@ == "#cdd6f4"@,
    {
        ColorConfig { background: "#1e1e2e".to_owned(), foreground: "#cdd6f4".to_owned() }
    }
}

} // verus!
