//! The SD/MMC host controller.
pub mod eistr;
