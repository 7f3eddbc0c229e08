//! Geometry and hotkey decisions for moving the pointer and the focused
//! window between display monitors.
//!
//! The crate decides; it performs no input or output. A host samples the
//! keyboard, lists the monitors and moves things on screen, and asks the
//! [`hotkeys`] machine what to do next.
//!
//! * [`geometry`]: monitors as rectangles, and which monitor a point is on.
//! * [`placement`]: where pointer and window go on a target monitor.
//! * [`keys`]: key snapshots and the gestures they show.
//! * [`targeting`]: which monitor a gesture selects.
//! * [`hotkeys`]: the state machine that a host drives.
//! * [`runs`]: the machine over whole sequences of events.

pub mod geometry;
pub mod hotkeys;
pub mod keys;
pub mod placement;
pub mod runs;
pub mod targeting;
