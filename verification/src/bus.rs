//! The memory bus and the devices on it.

pub mod bus;
