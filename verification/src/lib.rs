//! Clock distribution for a family of ARM microcontrollers.
//!
//! The clock tree is assembled from typed nodes: oscillators and loops feed
//! generators, generators feed peripheral channels. Every node owns the token
//! of its register block, and every node that others depend on carries a
//! type-level count of its consumers, so that a node in use cannot be
//! disabled. Nothing here touches the device: each operation appends the
//! register transactions it stands for to a [`bus::Bus`], which the caller
//! carries out in order.
#![allow(non_camel_case_types)]

pub mod bus;
pub mod time;
pub mod typelevel;
pub mod clock;
pub mod eic;
pub mod gpio;
pub mod nvm;
pub mod pac;
