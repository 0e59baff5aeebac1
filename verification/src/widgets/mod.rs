//! What a menu looks like once it is laid out, row by row.
pub mod vertical_menu;

pub use vertical_menu::{MenuRow, RowKind, VerticalMenu};
