//! The verified core of a software KVM: the wire types, the planning of how a
//! received input event is replayed on the local machine, the table from key
//! names to key codes, the clipboard bridge and the dashboard's state.

pub mod keycodes;
pub mod text;
pub mod keymap;
pub mod protocol;
pub mod inject;
pub mod clipboard;
pub mod dashboard;
