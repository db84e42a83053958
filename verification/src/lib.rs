//! Bridge between a multi-threaded host and an embedded single-threaded
//! runtime: the cross-language value, the per-call dispatcher rules and the
//! workflow registry.

pub mod busy_detector;
pub mod callbacks;
pub mod comm;
pub mod config;
pub mod cross;
pub mod querent;
pub mod util;
