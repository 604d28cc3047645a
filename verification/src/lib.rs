//! Identifier registry and inspection workflow for Bluetooth Low Energy fitness equipment.
//!
//! The crate knows the assigned numbers of the GATT services and characteristics that indoor
//! bikes, power meters and cadence sensors expose, and it decides, step by step, what a scan
//! or an inspection of one device asks of the radio adapter and what it prints.

pub mod bdaddr;
pub mod bleuuid;
pub mod characteristics;
pub mod gatt;
pub mod inspector;
pub mod scan;
pub mod services;
pub mod session;
