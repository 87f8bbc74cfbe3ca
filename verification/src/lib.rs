//! Access to the memory of a running process: locating a process and its
//! modules by name, resolving a chain of pointer offsets into an absolute
//! address, and moving bytes to and from that address.
//!
//! Around that core: the steps of loading a module into a process, the table
//! of key and mouse binds with the typing of texts, the rich-presence
//! activity, the source text of files held as constants, and the
//! description of a window before its launch.

pub mod error;
pub mod architecture;
pub mod access;
pub mod image;
pub mod member;
pub mod process;
pub mod manager;
pub mod keybinds;
pub mod inject;
pub mod activity;
pub mod assets;
pub mod gui;
