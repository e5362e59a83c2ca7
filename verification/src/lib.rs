//! SGR colour encoding: named 4-bit colours, 8-bit palette indices and 24-bit
//! RGB triples rendered as ANSI escape sequences for a foreground, background
//! or underline context.
pub mod color;
pub mod decimal;
pub mod laws;
pub mod style;

pub use color::{AnsiColor, AnsiColorFmt, Color, ColorContext, DisplayColor, RgbColor, XTermColor};
pub use style::{Effects, Style};
