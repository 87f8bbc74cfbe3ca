//! Key and mouse binds: the keys, the table of what is bound to them, and
//! the typing of a text.

pub mod keys;
pub mod binds;
pub mod sequence;
