//! Decision logic of a per-frame canvas downscale loop.
//!
//! A page shows two drawing surfaces: a source canvas and a smaller
//! destination canvas. Once set up, a callback fires on every display
//! refresh, draws the whole source into the destination (scaled to fill
//! it), reads a fixed region of pixels back, and arms itself again.
//!
//! This crate holds everything that is decided along the way, as a state
//! machine over plain values: which setup step comes next, which failure
//! aborts startup, which rectangles a frame draws into and reads from, and
//! whether the callback is armed again. The embedding program performs the
//! steps against the browser and reports what happened.

pub mod geometry;
pub mod setup;
pub mod frame_loop;
pub mod page;
