//! The policy of a single-window GUI application's frame loop.
//!
//! The crate decides; the program around it performs. It holds the rules by
//! which the loop reacts to platform events, keeps the size of the user
//! interface in step with the window, rebuilds the widget tree, redraws and
//! waits, and the rules by which the assets of the program are searched for,
//! loaded and decoded. Windows, files and the GPU stay with the caller, who
//! reports what it sees and carries out the actions that it is handed.

pub mod asset;
pub mod bitmap;
pub mod error;
pub mod event;
pub mod frame;
pub mod geometry;
pub mod png_frame;
pub mod trace;
