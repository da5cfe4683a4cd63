//! Interactive screen-region and window selection for X11.

pub mod config;
pub mod errors;
pub mod geom;
pub mod grab;
pub mod keyboard;
pub mod parse;
pub mod selection;
pub mod window;

pub use config::HackSawConfig;
pub use errors::{KeyboardError, ParseHexError};
pub use geom::{build_guides, min_max, HacksawContainer, Point, Rect};
pub use keyboard::find_escape_keycode;
pub use parse::{parse_hex, parse_hex_slice};
pub use window::{get_window_at_point, HackSawResult, SelectionType};
