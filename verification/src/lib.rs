//! Host-side implementation of the USB Device Firmware Upgrade (DFU 1.1)
//! protocol with the STMicroelectronics DfuSe extensions.
use vstd::prelude::*;

pub mod error;
pub mod firmware;
pub mod protocol;
pub mod state_machine;
pub mod text;
pub mod transfer;
pub mod usb;

verus! {
}
