//! USB-to-UART bridge logic: descriptor assembly, the WebUSB/CDC vendor
//! class, packet framing and the bridge loop's decisions.
use vstd::prelude::*;

pub mod bridge;
pub mod builder;
pub mod class;
pub mod device;
pub mod line_coding;
pub mod packet;

pub use builder::DescriptorBuilder;
pub use class::WebUsbClass;
pub use device::WebUSB;
pub use line_coding::{LineCoding, ParityType, StopBits};

verus! {

} // verus!
