//! Handling of a downloaded media archive: finding it, naming what it
//! holds after the archive's own name, and unpacking that into a
//! destination directory unless it is there already.

pub mod archive;
pub mod email;
pub mod memory;
pub mod naming;
pub mod numbers;
pub mod paths;
pub mod pipeline;
pub mod text;
