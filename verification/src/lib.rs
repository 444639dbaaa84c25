//! A terminal emulation engine: a screen grid with bounded scrollback, an
//! ANSI/VT escape-sequence interpreter driving it, selection and text
//! search over the grid, and the pure protocol encoders around it.
//! Every operation carries a machine-checked contract.

pub mod color;
pub mod config;
pub mod mouse;
pub mod pty;
pub mod renderer;
pub mod search;
pub mod terminal;
pub mod text;
pub mod url;
pub mod vte_handler;
