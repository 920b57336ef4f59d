//! The peripherals of the amplifier, as the controller sees them.
//!
//! Drivers implement these traits. The controller makes no assumption about
//! what a peripheral answers: every operation is verified for all answers.

use vstd::prelude::*;
use crate::booster_channels::Channel;
use crate::error::DeviceFault;

verus! {

/// The two outputs of the interlock threshold converter.
#[derive(Clone, Copy, Debug, PartialEq, Eq, Structural)]
pub enum ThresholdDac {
    /// Sets the comparator level for reflected power.
    Reflected,
    /// Sets the comparator level for output power.
    Output,
}

/// The inputs of the supply monitor that the controller reads.
#[derive(Clone, Copy, Debug, PartialEq, Eq, Structural)]
pub enum MonitorInput {
    /// Current sense of the 28 V rail.
    P28vCurrent,
    /// Current sense of the 5 V rail.
    P5vCurrent,
    /// The 5 V rail behind its divider.
    P5vVoltage,
}

/// The analog inputs of the microcontroller that can carry a detector signal.
#[allow(non_camel_case_types)]
#[derive(Clone, Copy, Debug, PartialEq, Eq, Structural)]
pub enum AdcPin {
    PA0,
    PA1,
    PA2,
    PA3,
    PC0,
    PC1,
    PC2,
    PC3,
    PF3,
    PF4,
    PF5,
    PF6,
    PF7,
    PF8,
    PF9,
    PF10,
}

/// The devices of one channel on the shared bus. Voltages are in millivolts,
/// temperatures in milli-degrees Celsius.
pub trait ModuleBus {
    /// Sets the output of the bias converter. The controller never asks
    /// for more than the 3300 mV of the converter's supply.
    fn write_bias_dac(&mut self, millivolts: u16) -> Result<(), DeviceFault>
        requires
            millivolts <= 3300,
    ;

    /// Brings the supply monitor into its scanning mode.
    fn start_power_monitor(&mut self) -> Result<(), DeviceFault>;

    /// Reads one input of the supply monitor.
    fn read_power_monitor(&mut self, input: MonitorInput) -> Result<u16, DeviceFault>;

    /// Sets the window outside of which the supply monitor raises its alert.
    fn set_power_monitor_window(
        &mut self,
        input: MonitorInput,
        low_millivolts: u16,
        high_millivolts: u16,
    ) -> Result<(), DeviceFault>
        requires
            low_millivolts <= high_millivolts,
    ;

    /// Clears a pending alert of the supply monitor.
    fn clear_power_monitor_alarm(&mut self) -> Result<(), DeviceFault>;

    /// Resets the interlock threshold converter and powers its reference.
    fn start_threshold_dac(&mut self) -> Result<(), DeviceFault>;

    /// Sets one output of the interlock threshold converter. The
    /// controller never asks for more than the converter's full scale of
    /// 2500 mV.
    fn write_threshold_dac(&mut self, dac: ThresholdDac, millivolts: u16) -> Result<
        (),
        DeviceFault,
    >
        requires
            millivolts <= 2500,
    ;

    /// Addresses the identity memory of the module.
    fn probe_identity(&mut self) -> Result<(), DeviceFault>;

    /// Reads the remote diode of the temperature sensor.
    fn read_temperature(&mut self) -> Result<i32, DeviceFault>;

    /// Reads the converter behind the input power detector.
    fn read_input_power_adc(&mut self) -> Result<u16, DeviceFault>;
}

/// The digital lines of one channel. The sense lines are active low.
pub trait ControlLines {
    /// Drives the line that powers the channel.
    fn set_enable_power(&mut self, high: bool);

    /// Drives the line that lets the signal through.
    fn set_signal_on(&mut self, high: bool);

    /// Whether the supply monitor holds its alert line low.
    fn alert_is_low(&self) -> bool;

    /// Whether the input overdrive line is low.
    fn input_overdrive_is_low(&self) -> bool;

    /// Whether the output overdrive line is low.
    fn output_overdrive_is_low(&self) -> bool;
}

/// The analog converter of the microcontroller, shared by all channels.
pub trait SampleConverter {
    /// Converts the signal at `pin` and returns the raw count.
    fn sample(&mut self, pin: AdcPin) -> u16;
}

/// The multiplexer that puts the bus of one channel onto the shared bus.
/// Selecting a bus cannot fail as far as the controller is concerned: an
/// implementation escalates a failure instead of returning.
pub trait BusSwitch {
    /// Connects the bus of the given channel and no other.
    fn select_bus(&mut self, channel: Channel);
}

/// A blocking delay.
pub trait SettleDelay {
    /// Blocks for the given number of microseconds.
    fn delay_us(&mut self, microseconds: u16);
}

} // verus!
