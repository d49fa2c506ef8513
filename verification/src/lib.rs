//! A resizable multi-pane split-layout engine.
//!
//! A container holds `N` panes in a row or a column, separated by `N - 1`
//! draggable handles. The engine turns pointer input into a vector of pane
//! sizes, kept as fixed-point percentages of the container's length along the
//! active axis: one unit is one hundredth of a percent, so the whole container
//! is [`redistribute::TOTAL`] units. The first `N - 1` pane sizes are stored
//! explicitly; the last pane takes the remainder.
//!
//! The modules:
//! - [`sums`]: summation of pane-size sequences, with its lemmas;
//! - [`redistribute`]: the redistribution law a handle drag obeys, and the
//!   two-pane fast path;
//! - [`bounds`]: the projection of a pointer coordinate onto a percentage
//!   along the container's axis;
//! - [`engine`]: the engine itself, with its drag-session state machine.

pub mod bounds;
pub mod engine;
pub mod redistribute;
pub mod sums;
