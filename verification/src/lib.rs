//! A terminal pager: a window at the bottom of the terminal on a buffer of
//! lines that can grow.
//!
//! The library holds the parts that compute. [`pane`] turns the lines, a
//! position and the options into what the terminal is to show. [`keybind`]
//! turns keys into events, and [`app`] takes the events and tells the pane
//! what to do. Nothing here reads or writes: what is to be written is
//! collected in a buffer, and what was read is handed in as plain values.

pub mod app;
pub mod csi;
pub mod escape_seq;
pub mod event;
pub mod keybind;
pub mod pane;
pub mod screen;
pub mod search;
pub mod tab;
pub mod text;
pub mod unicode_divide;
pub mod width;
