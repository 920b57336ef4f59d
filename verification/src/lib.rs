//! Control core for an eight-channel RF power amplifier.
//!
//! The amplifier holds up to eight channel modules behind one multiplexed
//! bus. This crate enumerates the modules, drives their bias and power
//! state, trips their interlocks, converts their readings to calibrated
//! quantities and keeps their settings in non-volatile memory.
//!
//! The hardware is reached through the traits of
//! [`hardware::peripherals`] and [`settings::channel_settings`], which
//! drivers implement. Nothing is assumed of what a device answers. What
//! the controller knows without asking is the logical state of a channel,
//! [`rf_channel::ChannelView`]; an operation asks a device and then takes
//! the transition of that state which the answer decides.
//!
//! Identifiers, topics and messages are held in strings of fixed
//! capacity, as the firmware has no heap to grow them in.
//!
//! Every physical quantity is a fixed-point integer: voltages in
//! millivolts, powers in micro-dBm, currents in microamperes and
//! temperatures in milli-degrees Celsius.

pub mod booster_channels;
pub mod bounded_text;
pub mod error;
pub mod hardware;
pub mod linear_transformation;
pub mod mqtt_control;
pub mod net;
pub mod rf_channel;
pub mod settings;
