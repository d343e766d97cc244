//! Decision logic of a small desktop overlay that shows and switches the HDR
//! mode of the connected displays.

pub mod chrome;
pub mod events;
pub mod gateway;
pub mod menu;
pub mod placement;
pub mod pointer;
pub mod rational;
pub mod sizing;
pub mod text;
