//! Input-backend core of a remote-desktop agent: the press/release
//! discipline for mouse buttons and keys, the keycode translation table, and
//! the session value types, each with a verified contract.

pub mod backend;
pub mod keymap;
pub mod types;
