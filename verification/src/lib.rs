//! Navigation and key-handling state of the Linutil terminal interface.
//!
//! The library keeps what the interface decides: which tab and which directory
//! are shown, which entry is selected, which commands are marked, and what has
//! the focus. Drawing, the search bar, the floating windows' own contents and
//! the loading of tabs are done by the caller, which hands the library plain
//! values and acts on what it returns.
pub mod external;
pub mod node;
pub mod app_state;
pub mod misc;
pub mod keybindings;
pub mod laws;
pub mod hints;
pub mod ui;
