//! Decision logic of the Tempest weather applet.
pub mod applet;
pub mod config;
pub mod dates;
pub mod descriptions;
pub mod float_bits;
pub mod laws;
pub mod notification;
pub mod pollen;
pub mod pride;
pub mod state;
pub mod text;
pub mod units;
