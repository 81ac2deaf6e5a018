//! One line of a terminal status bar: the key shortcuts of the current input
//! mode, rendered in the widest of three tile styles that fits the width.
pub mod keys;
pub mod line;
pub mod mode;
pub mod shortcut;
pub mod analysis;
pub mod indicators;
pub mod compose;
pub mod hint_keys;
