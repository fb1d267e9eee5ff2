//! The cartridge.

pub mod mapper;
pub mod rom;
