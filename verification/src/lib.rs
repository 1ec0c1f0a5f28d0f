//! A small model of a smart house: switchable and measuring devices, rooms
//! that register devices under unique names, and a house that lists rooms in
//! the order they were added. Every level renders itself as text.
//!
//! Devices and rooms live in stores owned by the caller (`Vec<Device>` and
//! `Vec<Room>`); rooms and houses refer to them by position. A device can
//! therefore be registered in several rooms and still be switched or updated
//! between two reports.

pub mod utils;
pub mod infoprovider;
pub mod devices;
pub mod room;
pub mod house;

pub use crate::house::SmartHouse;
pub use crate::room::Room;
