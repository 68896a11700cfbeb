//! An interactive list-selection widget for terminals, as a verified core:
//! the selection model, the renderer that turns a state change into terminal
//! draw operations, and the key-driven state machine.
//!
//! The library neither draws on the terminal nor reads its keys; all it asks
//! of the terminal is its size, when a menu is examined. A session is a
//! value: starting it and every key press give back the draw operations to
//! carry out, and the program around the library carries them out and reads
//! the keys.

pub mod cursor;
pub mod draw;
pub mod error;
pub mod input;
pub mod laws;
pub mod layout;
pub mod menu;
pub mod menu_like;
pub mod model;
pub mod multi;
pub mod multi_laws;
pub mod multi_model;
pub mod session;
pub mod style;
pub mod terminal;
pub mod text;

pub use crate::draw::DrawOp;
pub use crate::error::ValidationError;
pub use crate::input::{Command, Direction, KeyCode, KeyPress, Modifiers, Phase};
pub use crate::menu::Menu;
pub use crate::menu_like::{MenuLike, Outcome};
pub use crate::multi::MultiMenu;
pub use crate::style::Color;
pub use crate::terminal::Size;
