//! Escape sequences written out by hand.

pub mod cis;
pub mod csi;
