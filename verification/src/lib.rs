//! Keeps the backlight brightness of a modular laptop keyboard in sync across
//! several independent brightness endpoints: hardware input modules driven
//! over the vendor HID control protocol, and an optional kernel virtual LED
//! device that lets desktop software read and drive the same backlight.

use vstd::prelude::*;

pub mod brightness;
pub mod classifier;
pub mod config;
pub mod engine;
pub mod modules;
pub mod uleds;

verus! {

/// The fixed USB vendor identifier of the laptop's input modules.
pub const FRAMEWORK_VID: u16 = 0x32ac;

} // verus!
