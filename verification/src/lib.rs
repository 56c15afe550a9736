//! The logic of an auto clicker for Windows: its random generator and clock
//! arithmetic, the decisions of its click loop, the names of keys and the
//! hotkey, the settings file, the window's texts and decisions, and the
//! wide strings that the Windows API takes.
pub mod clicker;
pub mod controls;
pub mod decimal;
pub mod keys;
pub mod rng;
pub mod settings;
pub mod timing;
pub mod ui;
pub mod wide;
