//! Mathematical helpers shared by the modules.

pub mod assoc;
