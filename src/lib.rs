//! Decision logic of a `touch`-style timestamp utility: which instant(s) to
//! use, and which of a file's access and modification times to overwrite.

pub mod policy;
pub mod time;
pub mod compact;
pub mod source;
pub mod zone;
pub mod target;
