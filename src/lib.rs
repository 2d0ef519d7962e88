//! Core logic of a desktop shell for question-bank management: the file-load
//! dispatcher and the transition function of the application state, with the
//! menu, page and locale tables that the presentation layer reads.

pub mod text;
pub mod load_file;
pub mod control_tower;
pub mod menus;
pub mod locales;

pub use control_tower::{ControlTower, Effect, Message};
pub use load_file::{LoadFile, ResultLoadFile};
