//! The Ethernet controller.
pub mod gmac_mft;
pub mod gmac_pefrsl;
pub mod gmac_tbft1518;
