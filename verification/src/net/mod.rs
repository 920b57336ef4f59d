//! What the controller publishes and serves over the network, less the
//! network itself.

pub mod mqtt_control;
