//! Targeting logic of an artillery calculator overlay: decoding of window
//! message words, the gun catalogue, the map grid reference, the placement of
//! map markers, and the small state machines driven by hotkeys and timers.

pub mod words;
pub mod gun;
pub mod grid;
pub mod overlay;
pub mod input;
pub mod timing;
