//! The cross-language value and its conversions.

pub mod clrepr;
pub mod clrepr_python;
