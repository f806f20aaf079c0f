//! Timer counter 0.
pub mod tc_channel;
