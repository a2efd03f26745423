//! Core logic of a scrollable, resizable, multi-column table widget.
//!
//! The crate verifies the parts of the widget where interaction state and
//! layout arithmetic live: per-column width clamping, the trailing filler
//! that enforces a minimum total width, the divider drag state machine, and
//! the horizontal scroll synchronization payload. Coordinates and widths are
//! whole pixels; the GUI shell converts at the boundary and performs the
//! actual drawing.

pub mod divider;
pub mod geometry;
pub mod layout;
pub mod sample;
pub mod table;
