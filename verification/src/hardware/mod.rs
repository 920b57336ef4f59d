//! What the controller needs from the hardware around it.

pub mod net_interface;
pub mod peripherals;
