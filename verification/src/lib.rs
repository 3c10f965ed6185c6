//! Control logic for a USB-serial panel with three LEDs, four push-buttons and
//! a small text display: the wire protocol, the validation of outbound
//! updates, the per-channel scheduling of scripts, the configuration rules,
//! and the picture of the panel that a windowed demonstration shows.
//!
//! Apart from reading the system clock, the library touches nothing outside
//! itself. Callers hand it what the serial port, the file system and the
//! scripts produced, and carry out what it hands back.

pub mod config;
pub mod demo;
pub mod error;
pub mod manager;
pub mod ports;
pub mod positions;
pub mod rules;
pub mod schedule;
pub mod text;
pub mod tick;
