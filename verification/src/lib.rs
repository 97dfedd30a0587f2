//! A dynamic tabular-data builder.
//!
//! The crate accumulates rows of text cells of possibly varying width,
//! together with an optional header row, repairs jagged shapes by padding
//! short rows with a fill text, supports structural edits (inserting and
//! removing rows and columns, cleaning empty ones), and exports a
//! rectangular grid of cells.  A record-conversion trait turns typed values
//! (scalars, fixed-size arrays, tuples) into a header/row pair of matching
//! width, so typed data can feed the builder directly.

pub mod builder;
pub mod grid;
pub mod laws;
pub mod record;
pub mod text;
