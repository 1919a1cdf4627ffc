//! Client-side logic for controlling illuminated zones on laptop hardware
//! through a hardware-control service on the system bus.
//!
//! The verified core covers device discovery and ordering, per-device
//! capability filtering, LED mode cycling, and the merge discipline that
//! applies partial state updates without disturbing untouched fields.
//! Talking to the bus itself is left to the surrounding binary.

pub mod capability;
pub mod cli;
pub mod config;
pub mod cycle;
pub mod dispatch;
pub mod error;
pub mod find;
pub mod merge;
pub mod resolve;
pub mod types;
