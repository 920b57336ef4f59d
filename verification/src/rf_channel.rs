//! One amplifier channel: its state machine, its bias and interlock
//! settings, and its measurements.
//!
//! Voltages are in millivolts, powers in micro-dBm, currents in
//! microamperes and temperatures in milli-degrees Celsius.

use vstd::prelude::*;
use crate::error::{DeviceFault, Error};
use crate::hardware::peripherals::{
    AdcPin,
    ControlLines,
    ModuleBus,
    MonitorInput,
    SampleConverter,
    SettleDelay,
    ThresholdDac,
};
use crate::linear_transformation::LinearTransformation;
use crate::settings::channel_settings::{
    BoosterChannelData,
    BoosterChannelSettings,
    ConfigStorage,
    PINCH_OFF_MILLIVOLTS,
};

verus! {

/// Full scale of the interlock threshold converter, in millivolts.
pub const THRESHOLD_FULL_SCALE_MILLIVOLTS: i64 = 2500;

/// The bias voltage, in millivolts, above which the amplifier conducts.
/// A channel whose bias is at or below it is pinched off.
pub const BIAS_ACTIVE_ABOVE_MILLIVOLTS: i32 = -3000;

/// The time that the drain current needs to settle after the bias has
/// changed, in microseconds.
pub const BIAS_SETTLE_MICROSECONDS: u16 = 11000;

/// The largest drain current that a channel can be tuned to, in
/// microamperes: the point at which the supply monitor raises its alert.
pub const MAXIMUM_TUNE_CURRENT: i32 = 500_000;

/// The voltage, in millivolts, that a raw count of the analog converter
/// stands for: full scale is 3300 mV at a count of 4095.
pub open spec fn spec_sample_to_millivolts(sample: u16) -> int {
    sample * 3300 / 4095
}

/// Converts a raw count of the analog converter to millivolts.
pub fn sample_to_millivolts(sample: u16) -> (millivolts: u16)
    ensures
        millivolts == spec_sample_to_millivolts(sample),
{
    let scaled: u32 = sample as u32 * 3300 / 4095;
    scaled as u16
}

/// The voltage to set the bias converter to for a bias voltage. The
/// converter works against a negative rail, so that it is set to the
/// inverted voltage.
fn inverted(bias_voltage: i32) -> (millivolts: u16)
    requires
        BoosterChannelData::bias_in_range(bias_voltage as int),
    ensures
        millivolts == -bias_voltage,
{
    (0 - bias_voltage) as u16
}

/// The comparator voltage, in millivolts, that stands for a power threshold
/// under a detector's calibration, or `None` where the calibration cannot be
/// inverted or the voltage is beyond the threshold converter.
pub open spec fn spec_threshold_voltage(transform: LinearTransformation, threshold: i32) -> Option<
    u16,
> {
    if transform.scale != 0 && 0 <= transform.spec_inverse(threshold as int) <= 2500 {
        Some(transform.spec_inverse(threshold as int) as u16)
    } else {
        None
    }
}

/// Converts a power threshold to the comparator voltage that stands for it
/// under a detector's calibration.
pub fn threshold_voltage(transform: &LinearTransformation, threshold: i32) -> (result: Result<
    u16,
    Error,
>)
    ensures
        result == (match spec_threshold_voltage(*transform, threshold) {
            Some(millivolts) => Ok::<u16, Error>(millivolts),
            None => Err::<u16, Error>(Error::Bounds),
        }),
{
    match transform.inverse(threshold as i64) {
        Some(millivolts) => {
            if millivolts < 0 || millivolts > THRESHOLD_FULL_SCALE_MILLIVOLTS {
                Err(Error::Bounds)
            } else {
                Ok(millivolts as u16)
            }
        },
        None => Err(Error::Bounds),
    }
}

/// Supply measurements of a channel.
#[derive(Clone, Copy, Debug, PartialEq, Eq, Structural)]
pub struct PowerMeasurements {
    /// Voltage of the 5 V rail, in millivolts.
    pub v_p5v0mp: i32,
    /// Current drawn from the 5 V rail, in microamperes.
    pub i_p5v0ch: i32,
    /// Current drawn from the 28 V rail, in microamperes.
    pub i_p28v0ch: i32,
}

impl PowerMeasurements {
    /// The current, in microamperes, behind a sense voltage in millivolts.
    ///
    /// The current is sensed across 100 mOhm and amplified by the ratio of
    /// the output resistance to an input resistance of 100 Ohm, so that
    /// `I = V * 100 / 0.1 / output_ohms`.
    pub open spec fn spec_sense_current(millivolts: u16, output_ohms: int) -> int {
        millivolts * 1_000_000 / output_ohms
    }

    /// The measurements behind the three readings of the supply monitor.
    ///
    /// The 5 V rail reaches the monitor through a divider of 15 kOhm over
    /// 10 kOhm, a reduction by 2.5. The current monitor of the 28 V rail has
    /// an output resistance of 4.3 kOhm, that of the 5 V rail 6.2 kOhm.
    pub open spec fn spec_from_sense(
        p5v_voltage: u16,
        p28v_current_sense: u16,
        p5v_current_sense: u16,
    ) -> PowerMeasurements {
        PowerMeasurements {
            v_p5v0mp: (p5v_voltage * 5 / 2) as i32,
            i_p28v0ch: Self::spec_sense_current(p28v_current_sense, 4300) as i32,
            i_p5v0ch: Self::spec_sense_current(p5v_current_sense, 6200) as i32,
        }
    }

    /// Scales the three readings of the supply monitor, in millivolts, to
    /// the rail voltage and the two rail currents.
    pub fn from_sense(p5v_voltage: u16, p28v_current_sense: u16, p5v_current_sense: u16) -> (m:
        Self)
        ensures
            m == Self::spec_from_sense(p5v_voltage, p28v_current_sense, p5v_current_sense),
    {
        let v_p5v0mp: i64 = p5v_voltage as i64 * 5 / 2;
        let i_p28v0ch: i64 = p28v_current_sense as i64 * 1_000_000 / 4300;
        let i_p5v0ch: i64 = p5v_current_sense as i64 * 1_000_000 / 6200;
        PowerMeasurements {
            v_p5v0mp: v_p5v0mp as i32,
            i_p28v0ch: i_p28v0ch as i32,
            i_p5v0ch: i_p5v0ch as i32,
        }
    }

    /// The window of an input of the supply monitor outside of which the
    /// monitor raises its alert, in millivolts at the monitor.
    ///
    /// The 5 V rail must stay within 500 mV of its nominal voltage; it
    /// reaches the monitor divided by 2.5. The 28 V rail may carry up to
    /// 500 mA and the 5 V rail up to 300 mA; a current appears at the
    /// monitor as `I * output_ohms / 1_000_000`.
    pub open spec fn spec_alert_window(input: MonitorInput) -> (u16, u16) {
        match input {
            MonitorInput::P5vVoltage => ((4500 * 2 / 5) as u16, (5500 * 2 / 5) as u16),
            MonitorInput::P28vCurrent => (0u16, (500_000 * 4300 / 1_000_000) as u16),
            MonitorInput::P5vCurrent => (0u16, (300_000 * 6200 / 1_000_000) as u16),
        }
    }

    /// The window of an input of the supply monitor outside of which the
    /// monitor raises its alert: its lower and its upper end, in
    /// millivolts at the monitor.
    pub fn alert_window(input: MonitorInput) -> (window: (u16, u16))
        ensures
            window == Self::spec_alert_window(input),
            window.0 <= window.1,
    {
        match input {
            MonitorInput::P5vVoltage => (1800, 2200),
            MonitorInput::P28vCurrent => (0, 2150),
            MonitorInput::P5vCurrent => (0, 1860),
        }
    }
}

/// What the search for a bias voltage does next.
///
/// The search looks for the bias at which the drain current meets a
/// target. It starts at pinch-off and raises the bias in steps of 20 mV
/// until the current reaches the target. From there it lowers the bias in
/// steps of 1 mV, at most twenty times, until the current no longer
/// exceeds the target. After each step the current is given time to
/// settle and is measured anew.
#[derive(Clone, Copy, Debug, PartialEq, Eq, Structural)]
pub enum TuneStep {
    /// Raise the bias to the given voltage and measure again.
    Raise(i32),
    /// Lower the bias to the given voltage and measure again; so many more
    /// lowering steps may follow.
    Lower(i32, u8),
    /// The search is over; the bias stays where it is.
    Settled,
    /// The bias has reached its ceiling and the current is still below
    /// the target.
    Unreachable,
}

/// The next step of the search for a bias voltage, after `measured` was
/// read at `bias` while aiming at `target`.
pub open spec fn spec_tune_step(
    rising: bool,
    lowerings_left: u8,
    bias: i32,
    measured: i32,
    target: i32,
) -> TuneStep {
    if rising {
        if measured < target {
            if bias + 20 <= 0 {
                TuneStep::Raise((bias + 20) as i32)
            } else {
                TuneStep::Unreachable
            }
        } else if measured == target || bias - 1 < PINCH_OFF_MILLIVOLTS {
            TuneStep::Settled
        } else {
            TuneStep::Lower((bias - 1) as i32, 19)
        }
    } else {
        if measured <= target || lowerings_left == 0 || bias - 1 < PINCH_OFF_MILLIVOLTS {
            TuneStep::Settled
        } else {
            TuneStep::Lower((bias - 1) as i32, (lowerings_left - 1) as u8)
        }
    }
}

/// Whether the search for a bias voltage can stand at `bias` in the given
/// phase with so many lowering steps left. The rising phase stands at
/// pinch-off or a whole number of 20 mV steps above it, up to 0 mV. The
/// falling phase stands below the voltage at which the rising phase
/// ended, by as many millivolts as it has taken lowering steps, of which
/// there are twenty.
pub open spec fn spec_on_search_path(rising: bool, lowerings_left: u8, bias: i32) -> bool {
    if rising {
        &&& -3300 <= bias <= 0
        &&& (bias + 3300) % 20 == 0
    } else {
        let top = bias + 20 - lowerings_left;
        &&& lowerings_left <= 19
        &&& -3280 <= top <= 0
        &&& (top + 3300) % 20 == 0
    }
}

/// Where a search settles. A current above the target is settled on only
/// at pinch-off or a whole number of 20 mV steps above it: at pinch-off
/// itself, or where the twenty lowering steps are used up. A current
/// below the target is settled on only in the falling phase, after the
/// rising phase has seen the target reached.
pub proof fn lemma_where_a_search_settles(
    rising: bool,
    lowerings_left: u8,
    vgs: i32,
    ids: i32,
    target: i32,
)
    requires
        spec_on_search_path(rising, lowerings_left, vgs),
        spec_tune_step(rising, lowerings_left, vgs, ids, target) == TuneStep::Settled,
    ensures
        -3300 <= vgs <= 0,
        ids > target ==> (vgs + 3300) % 20 == 0,
        ids < target ==> !rising && vgs < 0,
{
}

/// Decides the next step of the search for a bias voltage.
pub fn tune_step(rising: bool, lowerings_left: u8, bias: i32, measured: i32, target: i32) -> (step:
    TuneStep)
    ensures
        step == spec_tune_step(rising, lowerings_left, bias, measured, target),
        step matches TuneStep::Raise(next) ==> rising && next == bias + 20 && next <= 0,
        step matches TuneStep::Lower(next, left) ==> next == bias - 1 && next
            >= PINCH_OFF_MILLIVOLTS && (rising ==> left == 19) && (!rising ==> left
            < lowerings_left),
{
    if rising {
        if measured < target {
            if bias <= -20 {
                TuneStep::Raise(bias + 20)
            } else {
                TuneStep::Unreachable
            }
        } else if measured == target || bias <= PINCH_OFF_MILLIVOLTS {
            TuneStep::Settled
        } else {
            TuneStep::Lower(bias - 1, 19)
        }
    } else {
        if measured <= target || lowerings_left == 0 || bias <= PINCH_OFF_MILLIVOLTS {
            TuneStep::Settled
        } else {
            TuneStep::Lower(bias - 1, lowerings_left - 1)
        }
    }
}

/// The analog inputs that carry the detector signals of one channel.
#[derive(Clone, Copy, Debug, PartialEq, Eq, Structural)]
pub struct AnalogPins {
    /// The input that carries the output power detector.
    pub tx_power: AdcPin,
    /// The input that carries the reflected power detector.
    pub reflected_power: AdcPin,
}

impl AnalogPins {
    /// Binds the two detector signals of a channel to their inputs.
    pub fn new(tx_power: AdcPin, reflected_power: AdcPin) -> (pins: Self)
        ensures
            pins.tx_power == tx_power,
            pins.reflected_power == reflected_power,
    {
        Self { tx_power, reflected_power }
    }
}

/// What the three sense lines of a channel report. A field is true where the
/// line is asserted, that is, held low.
#[derive(Clone, Copy, Debug, PartialEq, Eq, Structural)]
pub struct InterlockSense {
    pub input_overdrive: bool,
    pub output_overdrive: bool,
    pub alert: bool,
}

impl InterlockSense {
    /// Whether either overdrive line is asserted.
    pub open spec fn spec_overdriven(self) -> bool {
        self.input_overdrive || self.output_overdrive
    }

    /// Whether any line calls for the interlock to trip.
    pub open spec fn spec_tripped(self) -> bool {
        self.input_overdrive || self.output_overdrive || self.alert
    }

    /// Whether either overdrive line is asserted.
    pub fn overdriven(&self) -> (r: bool)
        ensures
            r == self.spec_overdriven(),
    {
        self.input_overdrive || self.output_overdrive
    }

    /// Whether any line calls for the interlock to trip.
    pub fn tripped(&self) -> (r: bool)
        ensures
            r == self.spec_tripped(),
    {
        self.input_overdrive || self.output_overdrive || self.alert
    }
}

/// The state of a channel. It is derived from the levels of the channel's
/// lines and from its bias voltage, and stored nowhere.
#[derive(Clone, Copy, Debug, PartialEq, Eq, Structural)]
pub enum ChannelState {
    /// The channel is unpowered.
    Disabled,
    /// The channel is powered and its output is muted.
    Powered,
    /// The channel is powered, biased and its output is live.
    Enabled,
    /// The channel is powered while a fault is sensed.
    Tripped,
}

/// The stages of the search for a module, in the order in which they run.
#[derive(Clone, Copy, Debug, PartialEq, Eq, Structural)]
pub enum ProbeStep {
    BiasDac,
    PowerMonitor,
    ThresholdDac,
    Identity,
    Temperature,
    InputPower,
}

impl ProbeStep {
    /// Whether the device addressed at this stage sits on the mainboard,
    /// where it is present whether or not a module is installed.
    pub open spec fn spec_on_mainboard(self) -> bool {
        self == ProbeStep::BiasDac || self == ProbeStep::PowerMonitor
    }

    /// Whether the device addressed at this stage sits on the mainboard.
    pub fn on_mainboard(&self) -> (r: bool)
        ensures
            r == self.spec_on_mainboard(),
    {
        match self {
            ProbeStep::BiasDac => true,
            ProbeStep::PowerMonitor => true,
            _ => false,
        }
    }

    /// What the search for a module ends in when this stage fails.
    pub open spec fn spec_failure<T>(self) -> Result<Option<T>, Error> {
        if self.spec_on_mainboard() {
            Err(Error::Interface)
        } else {
            Ok(None)
        }
    }

    /// What the search for a module ends in when this stage fails: a silent
    /// mainboard device is a hardware fault, a silent module device means
    /// that the slot is empty.
    pub fn failure<T>(&self) -> (r: Result<Option<T>, Error>)
        ensures
            r == self.spec_failure::<T>(),
    {
        if self.on_mainboard() {
            Err(Error::Interface)
        } else {
            Ok(None)
        }
    }

    /// What the answer of the device addressed at this stage means for
    /// the search: `None` where the device has answered and the search
    /// goes on, and otherwise what the search ends in.
    pub open spec fn spec_ended<A, T>(self, answer: Result<A, DeviceFault>) -> Option<
        Result<Option<T>, Error>,
    > {
        match answer {
            Ok(_) => None,
            Err(_) => Some(self.spec_failure::<T>()),
        }
    }

    /// Takes the answer of the device addressed at this stage: the search
    /// goes on where the device has answered, and ends as
    /// [`Self::failure`] says where it has not.
    pub fn ended<A, T>(&self, answer: &Result<A, DeviceFault>) -> (end: Option<
        Result<Option<T>, Error>,
    >)
        ensures
            end == self.spec_ended::<A, T>(*answer),
    {
        match answer {
            Ok(_) => None,
            Err(_) => Some(self.failure()),
        }
    }
}

/// The devices of one channel on the shared bus.
pub struct Devices<B: ModuleBus> {
    bus: B,
}

impl<B: ModuleBus> Devices<B> {
    /// How the result of the search follows from the stage at which the
    /// search ended: the verdict of that stage, or, where every device
    /// has answered, the devices.
    pub open spec fn search_ended(ended: Option<ProbeStep>, result: Result<Option<Self>, Error>) -> bool {
        match ended {
            Some(step) => result == step.spec_failure::<Self>(),
            None => result matches Ok(Some(_)),
        }
    }

    /// Searches the bus for the devices of a channel.
    ///
    /// The bias converter is first driven to pinch-off. Then each device is
    /// addressed in turn, and the search ends at the first that stays
    /// silent: with `Err(Interface)` for a device of the mainboard, with
    /// `Ok(None)`, an empty slot, for a device of the module. The devices
    /// are found exactly when the search ends at no stage.
    pub fn new(bus: B) -> (result: Result<Option<Self>, Error>)
        ensures
            exists|ended: Option<ProbeStep>| #[trigger] Self::search_ended(ended, result),
            result matches Err(error) ==> error == Error::Interface,
    {
        let mut bus = bus;
        let answer = bus.write_bias_dac(inverted(PINCH_OFF_MILLIVOLTS));
        if let Some(end) = ProbeStep::BiasDac.ended(&answer) {
            assert(Self::search_ended(Some(ProbeStep::BiasDac), end));
            return end;
        }
        let answer = bus.start_power_monitor();
        if let Some(end) = ProbeStep::PowerMonitor.ended(&answer) {
            assert(Self::search_ended(Some(ProbeStep::PowerMonitor), end));
            return end;
        }
        let answer = bus.read_power_monitor(MonitorInput::P5vVoltage);
        if let Some(end) = ProbeStep::PowerMonitor.ended(&answer) {
            assert(Self::search_ended(Some(ProbeStep::PowerMonitor), end));
            return end;
        }
        let answer = bus.start_threshold_dac();
        if let Some(end) = ProbeStep::ThresholdDac.ended(&answer) {
            assert(Self::search_ended(Some(ProbeStep::ThresholdDac), end));
            return end;
        }
        let answer = bus.probe_identity();
        if let Some(end) = ProbeStep::Identity.ended(&answer) {
            assert(Self::search_ended(Some(ProbeStep::Identity), end));
            return end;
        }
        let answer = bus.read_temperature();
        if let Some(end) = ProbeStep::Temperature.ended(&answer) {
            assert(Self::search_ended(Some(ProbeStep::Temperature), end));
            return end;
        }
        let answer = bus.read_input_power_adc();
        if let Some(end) = ProbeStep::InputPower.ended(&answer) {
            assert(Self::search_ended(Some(ProbeStep::InputPower), end));
            return end;
        }
        let result = Ok(Some(Devices { bus }));
        assert(Self::search_ended(None, result));
        result
    }
}

/// The control and status lines of one channel, with the levels that the
/// two output lines were last driven to and what the three sense lines
/// reported when they were last read.
pub struct ChannelPins<L: ControlLines> {
    lines: L,
    enable_power: bool,
    signal_on: bool,
    sensed: InterlockSense,
    adc_pins: AnalogPins,
}

impl<L: ControlLines> ChannelPins<L> {
    /// Whether the line that powers the channel is driven high.
    pub closed spec fn power_enabled(&self) -> bool {
        self.enable_power
    }

    /// Whether the line that lets the signal through is driven high.
    pub closed spec fn signal_enabled(&self) -> bool {
        self.signal_on
    }

    /// What the sense lines reported when they were last read. Lines that
    /// were never read count as not asserted.
    pub closed spec fn sensed(&self) -> InterlockSense {
        self.sensed
    }

    /// The analog inputs of the channel.
    pub closed spec fn analog(&self) -> AnalogPins {
        self.adc_pins
    }

    /// Takes over the lines of a channel and powers the channel down.
    pub fn new(lines: L, adc_pins: AnalogPins) -> (pins: Self)
        ensures
            !pins.power_enabled(),
            !pins.signal_enabled(),
            !pins.sensed().spec_tripped(),
            pins.analog() == adc_pins,
    {
        let mut pins = Self {
            lines,
            enable_power: true,
            signal_on: true,
            sensed: InterlockSense { input_overdrive: false, output_overdrive: false, alert: false },
            adc_pins,
        };
        pins.power_down_channel();
        pins
    }

    /// Drives both output lines low, the signal line first, and records
    /// the levels.
    fn drive_down(&mut self)
        ensures
            !final(self).power_enabled(),
            !final(self).signal_enabled(),
            final(self).sensed() == old(self).sensed(),
            final(self).analog() == old(self).analog(),
    {
        self.lines.set_signal_on(false);
        self.signal_on = false;
        self.lines.set_enable_power(false);
        self.enable_power = false;
    }

    /// Drives the power line high and the signal line to `output`, and
    /// records the levels.
    fn drive_up(&mut self, output: bool)
        ensures
            final(self).power_enabled(),
            final(self).signal_enabled() == output,
            final(self).sensed() == old(self).sensed(),
            final(self).analog() == old(self).analog(),
    {
        self.lines.set_enable_power(true);
        self.enable_power = true;
        self.lines.set_signal_on(output);
        self.signal_on = output;
    }

    /// Reads the three sense lines and records what they report. A field
    /// of the reading is true where the line is held low.
    fn read_sense(&mut self) -> (reading: InterlockSense)
        ensures
            final(self).sensed() == reading,
            final(self).power_enabled() == old(self).power_enabled(),
            final(self).signal_enabled() == old(self).signal_enabled(),
            final(self).analog() == old(self).analog(),
    {
        let reading = InterlockSense {
            input_overdrive: self.lines.input_overdrive_is_low(),
            output_overdrive: self.lines.output_overdrive_is_low(),
            alert: self.lines.alert_is_low(),
        };
        self.sensed = reading;
        reading
    }

    /// Powers the channel down.
    fn power_down_channel(&mut self)
        ensures
            !final(self).power_enabled(),
            !final(self).signal_enabled(),
            final(self).sensed() == old(self).sensed(),
            final(self).analog() == old(self).analog(),
    {
        self.drive_down();
    }

    /// Reads the three sense lines. The reading is kept as the latest
    /// one; the levels of the output lines are not touched.
    pub fn sense(&mut self) -> (reading: InterlockSense)
        ensures
            final(self).sensed() == reading,
            final(self).power_enabled() == old(self).power_enabled(),
            final(self).signal_enabled() == old(self).signal_enabled(),
            final(self).analog() == old(self).analog(),
    {
        self.read_sense()
    }

    /// The latest reading of the sense lines.
    pub fn last_sense(&self) -> (reading: InterlockSense)
        ensures
            reading == self.sensed(),
    {
        self.sensed
    }
}

/// The two interlock thresholds of a channel, in micro-dBm.
#[derive(Clone, Copy, Debug, PartialEq, Eq, Structural)]
pub struct InterlockThresholds {
    pub output: i32,
    pub reflected: i32,
}

/// Names a property of a channel.
#[derive(Clone, Copy, Debug, PartialEq, Eq, Structural)]
pub enum PropertyId {
    InterlockThresholds,
    InputPowerTransform,
    OutputPowerTransform,
    ReflectedPowerTransform,
}

/// A property of a channel together with its value.
#[derive(Clone, Copy, Debug, PartialEq, Eq, Structural)]
pub enum Property {
    InterlockThresholds(InterlockThresholds),
    InputPowerTransform(LinearTransformation),
    OutputPowerTransform(LinearTransformation),
    ReflectedPowerTransform(LinearTransformation),
}

impl Property {
    /// The name of this property.
    pub open spec fn spec_id(self) -> PropertyId {
        match self {
            Property::InterlockThresholds(_) => PropertyId::InterlockThresholds,
            Property::InputPowerTransform(_) => PropertyId::InputPowerTransform,
            Property::OutputPowerTransform(_) => PropertyId::OutputPowerTransform,
            Property::ReflectedPowerTransform(_) => PropertyId::ReflectedPowerTransform,
        }
    }

    /// The name of this property.
    pub fn id(&self) -> (id: PropertyId)
        ensures
            id == self.spec_id(),
    {
        match self {
            Property::InterlockThresholds(_) => PropertyId::InterlockThresholds,
            Property::InputPowerTransform(_) => PropertyId::InputPowerTransform,
            Property::OutputPowerTransform(_) => PropertyId::OutputPowerTransform,
            Property::ReflectedPowerTransform(_) => PropertyId::ReflectedPowerTransform,
        }
    }
}

/// The outcome of programming the two interlock thresholds. Each threshold
/// is programmed on its own, and each reports its own failure.
#[derive(Clone, Copy, Debug)]
pub struct ThresholdResults {
    pub output: Result<(), Error>,
    pub reflected: Result<(), Error>,
}

impl ThresholdResults {
    /// The first failure, that of the output threshold before that of the
    /// reflected threshold, or success where both were programmed.
    pub open spec fn spec_combined(self) -> Result<(), Error> {
        if self.output is Err {
            self.output
        } else {
            self.reflected
        }
    }

    /// Folds the two outcomes into one: the first failure, that of the
    /// output threshold before that of the reflected threshold.
    pub fn combined(&self) -> (result: Result<(), Error>)
        ensures
            result == self.spec_combined(),
    {
        match self.output {
            Err(error) => Err(error),
            Ok(()) => self.reflected,
        }
    }

    /// What the outcome of programming the thresholds means for the
    /// search for a module: the search ends, with an empty slot, where the
    /// threshold converter has failed a transaction, and goes on
    /// otherwise.
    pub open spec fn spec_after_programming<T>(self) -> Option<Result<Option<T>, Error>> {
        if self.output == Err::<(), Error>(Error::Interface) || self.reflected == Err::<
            (),
            Error,
        >(Error::Interface) {
            Some(ProbeStep::ThresholdDac.spec_failure::<T>())
        } else {
            None
        }
    }

    /// Takes the outcome of programming the thresholds during the search
    /// for a module. A threshold converter that fails a transaction is a
    /// module that does not answer: the search ends with an empty slot. A
    /// converter that answers lets the search go on, also where it has
    /// refused a voltage: its output then stays at its reset level, at
    /// which the interlock trips at any power.
    pub fn after_programming<T>(&self) -> (end: Option<Result<Option<T>, Error>>)
        ensures
            end == self.spec_after_programming::<T>(),
    {
        let output_failed = match self.output {
            Err(Error::Interface) => true,
            _ => false,
        };
        let reflected_failed = match self.reflected {
            Err(Error::Interface) => true,
            _ => false,
        };
        if output_failed || reflected_failed {
            Some(ProbeStep::ThresholdDac.failure())
        } else {
            None
        }
    }
}

/// The logical state of a channel: what the controller knows of it without
/// asking the hardware.
///
/// Every operation of a channel is a transition of its logical state that
/// the answer of a device decides. The transitions are functions of this
/// type: each takes the state before, what was asked for and what the
/// device answered, and gives the state after and the result to report.
#[derive(Clone, Copy, Debug, PartialEq, Eq, Structural)]
pub struct ChannelView {
    /// The voltage that the bias converter was last set to, in millivolts.
    pub bias_voltage: i32,
    /// The output threshold that was last programmed, in micro-dBm.
    pub output_interlock_threshold: i32,
    /// The reflected threshold that was last programmed, in micro-dBm.
    pub reflected_interlock_threshold: i32,
    /// Whether the line that powers the channel is driven high.
    pub enable_power: bool,
    /// Whether the line that lets the signal through is driven high.
    pub signal_on: bool,
    /// The settings in use.
    pub settings: BoosterChannelData,
}

/// The state of a channel with the given output levels and bias voltage
/// while its sense lines report `sense`.
pub open spec fn spec_derive_state(
    enable_power: bool,
    signal_on: bool,
    bias_voltage: i32,
    sense: InterlockSense,
) -> ChannelState {
    if !enable_power {
        ChannelState::Disabled
    } else if sense.spec_tripped() {
        ChannelState::Tripped
    } else if signal_on && bias_voltage > BIAS_ACTIVE_ABOVE_MILLIVOLTS {
        ChannelState::Enabled
    } else {
        ChannelState::Powered
    }
}

/// Derives the state of a channel from its output levels, its bias voltage
/// and what its sense lines report.
pub fn derive_state(enable_power: bool, signal_on: bool, bias_voltage: i32, sense: InterlockSense) -> (state:
    ChannelState)
    ensures
        state == spec_derive_state(enable_power, signal_on, bias_voltage, sense),
{
    if !enable_power {
        ChannelState::Disabled
    } else if sense.tripped() {
        ChannelState::Tripped
    } else if signal_on && bias_voltage > BIAS_ACTIVE_ABOVE_MILLIVOLTS {
        ChannelState::Enabled
    } else {
        ChannelState::Powered
    }
}

impl ChannelView {
    /// The bias voltage is one that the converter can produce, and the
    /// settings are valid.
    pub open spec fn wf(self) -> bool {
        &&& BoosterChannelData::bias_in_range(self.bias_voltage as int)
        &&& self.settings.valid()
    }

    /// The channel after it was disabled: both output lines low and the
    /// bias at pinch-off.
    pub open spec fn disabled(self) -> ChannelView {
        ChannelView {
            bias_voltage: PINCH_OFF_MILLIVOLTS,
            enable_power: false,
            signal_on: false,
            ..self
        }
    }

    /// The channel after it was powered up: the power line high, the signal
    /// line at `output`, and the configured bias applied.
    pub open spec fn powered(self, output: bool) -> ChannelView {
        ChannelView {
            bias_voltage: self.settings.bias_voltage,
            enable_power: true,
            signal_on: output,
            ..self
        }
    }

    /// The channel after its bias was set: the bias is applied and becomes
    /// the configured bias.
    pub open spec fn biased(self, millivolts: i32) -> ChannelView {
        ChannelView {
            bias_voltage: millivolts,
            settings: BoosterChannelData { bias_voltage: millivolts, ..self.settings },
            ..self
        }
    }

    /// The channel after its output threshold was programmed.
    pub open spec fn with_output_threshold(self, threshold: i32) -> ChannelView {
        ChannelView {
            output_interlock_threshold: threshold,
            settings: BoosterChannelData {
                output_interlock_threshold: threshold,
                ..self.settings
            },
            ..self
        }
    }

    /// The channel after its reflected threshold was programmed.
    pub open spec fn with_reflected_threshold(self, threshold: i32) -> ChannelView {
        ChannelView {
            reflected_interlock_threshold: threshold,
            settings: BoosterChannelData {
                reflected_interlock_threshold: threshold,
                ..self.settings
            },
            ..self
        }
    }

    /// The channel after each threshold whose outcome is a success was
    /// replaced by the value asked for.
    pub open spec fn with_thresholds(
        self,
        results: ThresholdResults,
        output: i32,
        reflected: i32,
    ) -> ChannelView {
        let first = if results.reflected is Ok {
            self.with_reflected_threshold(reflected)
        } else {
            self
        };
        if results.output is Ok {
            first.with_output_threshold(output)
        } else {
            first
        }
    }

    /// The channel after a calibration was replaced as a whole.
    pub open spec fn with_transform(self, property: Property) -> ChannelView {
        match property {
            Property::InterlockThresholds(_) => self,
            Property::InputPowerTransform(transform) => ChannelView {
                settings: BoosterChannelData { input_power_transform: transform, ..self.settings },
                ..self
            },
            Property::OutputPowerTransform(transform) => ChannelView {
                settings: BoosterChannelData {
                    output_power_transform: transform,
                    ..self.settings
                },
                ..self
            },
            Property::ReflectedPowerTransform(transform) => ChannelView {
                settings: BoosterChannelData {
                    reflected_power_transform: transform,
                    ..self.settings
                },
                ..self
            },
        }
    }

    /// The value of a property.
    pub open spec fn property(self, id: PropertyId) -> Property {
        match id {
            PropertyId::InterlockThresholds => Property::InterlockThresholds(
                InterlockThresholds {
                    output: self.output_interlock_threshold,
                    reflected: self.reflected_interlock_threshold,
                },
            ),
            PropertyId::InputPowerTransform => Property::InputPowerTransform(
                self.settings.input_power_transform,
            ),
            PropertyId::OutputPowerTransform => Property::OutputPowerTransform(
                self.settings.output_power_transform,
            ),
            PropertyId::ReflectedPowerTransform => Property::ReflectedPowerTransform(
                self.settings.reflected_power_transform,
            ),
        }
    }

    /// The state of the channel while its sense lines report `sense`.
    pub open spec fn state(self, sense: InterlockSense) -> ChannelState {
        spec_derive_state(self.enable_power, self.signal_on, self.bias_voltage, sense)
    }

    /// Whether the output of the channel is live while its sense lines
    /// report `sense`: both output lines are high, the bias is out of
    /// pinch-off and neither overdrive line is asserted.
    pub open spec fn enabled(self, sense: InterlockSense) -> bool {
        &&& self.enable_power
        &&& self.signal_on
        &&& !sense.spec_overdriven()
        &&& self.bias_voltage > BIAS_ACTIVE_ABOVE_MILLIVOLTS
    }

    /// The channel as enumeration leaves it: well formed, disabled, its
    /// bias at pinch-off and its thresholds those of its settings.
    pub open spec fn freshly_enumerated(self) -> bool {
        &&& self.wf()
        &&& self.bias_voltage == PINCH_OFF_MILLIVOLTS
        &&& !self.enable_power
        &&& !self.signal_on
        &&& self.output_interlock_threshold == self.settings.output_interlock_threshold
        &&& self.reflected_interlock_threshold == self.settings.reflected_interlock_threshold
    }
}

impl ChannelView {
    /// The converter setting for a bias voltage, or `Bounds` for a voltage
    /// that the converter cannot produce.
    pub open spec fn spec_bias_request(bias_voltage: i32) -> Result<u16, Error> {
        if BoosterChannelData::bias_in_range(bias_voltage as int) {
            Ok((-bias_voltage) as u16)
        } else {
            Err(Error::Bounds)
        }
    }

    /// The state and the result after the bias converter has answered a
    /// request for `bias_voltage`.
    pub open spec fn spec_bias_applied(
        self,
        bias_voltage: i32,
        answer: Result<(), DeviceFault>,
    ) -> (ChannelView, Result<(), Error>) {
        match answer {
            Ok(()) => (self.biased(bias_voltage), Ok(())),
            Err(fault) => (self, Err(Error::spec_from_fault(fault))),
        }
    }

    /// The state and the result after the channel was disabled and the
    /// bias converter has answered the request for pinch-off.
    pub open spec fn spec_disable_applied(self, answer: Result<(), DeviceFault>) -> (
        ChannelView,
        Result<(), Error>,
    ) {
        (self.disabled(), Error::spec_surface(answer))
    }

    /// The state and the result after the bias converter has answered the
    /// request for the configured bias at power-up.
    pub open spec fn spec_powerup_applied(self, output: bool, answer: Result<(), DeviceFault>) -> (
        ChannelView,
        Result<(), Error>,
    ) {
        match answer {
            Ok(()) => (self.powered(output), Ok(())),
            Err(fault) => (self, Err(Error::spec_from_fault(fault))),
        }
    }

    /// The calibration of the detector behind an output of the threshold
    /// converter.
    pub open spec fn transform_of(self, dac: ThresholdDac) -> LinearTransformation {
        match dac {
            ThresholdDac::Reflected => self.settings.reflected_power_transform,
            ThresholdDac::Output => self.settings.output_power_transform,
        }
    }

    /// The converter setting for a threshold on the given output, or
    /// `Bounds`.
    pub open spec fn spec_threshold_request(self, dac: ThresholdDac, threshold: i32) -> Result<
        u16,
        Error,
    > {
        match spec_threshold_voltage(self.transform_of(dac), threshold) {
            Some(millivolts) => Ok(millivolts),
            None => Err(Error::Bounds),
        }
    }

    /// The state and the result after the threshold converter has answered
    /// a request for `threshold` on the given output.
    pub open spec fn spec_threshold_applied(
        self,
        dac: ThresholdDac,
        threshold: i32,
        answer: Result<(), DeviceFault>,
    ) -> (ChannelView, Result<(), Error>) {
        match answer {
            Ok(()) => (
                match dac {
                    ThresholdDac::Reflected => self.with_reflected_threshold(threshold),
                    ThresholdDac::Output => self.with_output_threshold(threshold),
                },
                Ok(()),
            ),
            Err(fault) => (self, Err(Error::spec_from_fault(fault))),
        }
    }

    /// The state and the result after one threshold was handled: a
    /// threshold that cannot be converted is refused with `Bounds` and the
    /// converter is not asked; otherwise the answer of the converter
    /// decides.
    pub open spec fn spec_threshold_programmed(
        self,
        dac: ThresholdDac,
        threshold: i32,
        answer: Result<(), DeviceFault>,
    ) -> (ChannelView, Result<(), Error>) {
        match self.spec_threshold_request(dac, threshold) {
            Err(error) => (self, Err(error)),
            Ok(_) => self.spec_threshold_applied(dac, threshold, answer),
        }
    }

    /// The state and the results after both thresholds were handled, the
    /// reflected one first. An answer counts only where the converter was
    /// asked.
    pub open spec fn spec_thresholds_programmed(
        self,
        output: i32,
        reflected: i32,
        output_answer: Result<(), DeviceFault>,
        reflected_answer: Result<(), DeviceFault>,
    ) -> (ChannelView, ThresholdResults) {
        let first = self.spec_threshold_programmed(
            ThresholdDac::Reflected,
            reflected,
            reflected_answer,
        );
        let second = first.0.spec_threshold_programmed(ThresholdDac::Output, output, output_answer);
        (second.0, ThresholdResults { output: second.1, reflected: first.1 })
    }

    /// The input power, in micro-dBm, behind a reading of the input
    /// converter, in millivolts.
    pub open spec fn spec_input_reading(self, millivolts: u16) -> i64 {
        self.settings.input_power_transform.spec_apply(millivolts as int) as i64
    }

    /// The reflected power, in micro-dBm, behind a raw count of the
    /// analog converter.
    pub open spec fn spec_reflected_reading(self, sample: u16) -> i64 {
        self.spec_reflected_power(sample) as i64
    }

    /// The output power, in micro-dBm, behind a raw count of the analog
    /// converter.
    pub open spec fn spec_output_reading(self, sample: u16) -> i64 {
        self.spec_output_power(sample) as i64
    }

    /// The state of a channel that was just found: disabled, its bias at
    /// pinch-off, and its thresholds those of its settings.
    pub open spec fn spec_enumerated(settings: BoosterChannelData) -> ChannelView {
        ChannelView {
            bias_voltage: PINCH_OFF_MILLIVOLTS,
            output_interlock_threshold: settings.output_interlock_threshold,
            reflected_interlock_threshold: settings.reflected_interlock_threshold,
            enable_power: false,
            signal_on: false,
            settings,
        }
    }

    /// The input power behind an answer of the input converter.
    pub open spec fn spec_input_power(self, answer: Result<u16, DeviceFault>) -> Result<
        i64,
        Error,
    > {
        match answer {
            Ok(millivolts) => Ok(
                self.settings.input_power_transform.spec_apply(millivolts as int) as i64,
            ),
            Err(fault) => Err(Error::spec_from_fault(fault)),
        }
    }

    /// The output power behind a raw count of the analog converter.
    pub open spec fn spec_output_power(self, sample: u16) -> int {
        self.settings.output_power_transform.spec_apply(spec_sample_to_millivolts(sample))
    }

    /// The reflected power behind a raw count of the analog converter.
    pub open spec fn spec_reflected_power(self, sample: u16) -> int {
        self.settings.reflected_power_transform.spec_apply(spec_sample_to_millivolts(sample))
    }

    /// The state of a channel that was just found: disabled, its bias at
    /// pinch-off, and its thresholds those of its settings.
    pub fn enumerated(settings: BoosterChannelData) -> (state: ChannelView)
        ensures
            state == Self::spec_enumerated(settings),
            settings.valid() ==> state.freshly_enumerated(),
    {
        ChannelView {
            bias_voltage: PINCH_OFF_MILLIVOLTS,
            output_interlock_threshold: settings.output_interlock_threshold,
            reflected_interlock_threshold: settings.reflected_interlock_threshold,
            enable_power: false,
            signal_on: false,
            settings,
        }
    }

    /// Validates a bias voltage and gives the setting of the converter
    /// for it. The converter works against a negative rail, so that it is
    /// set to the inverted voltage.
    pub fn bias_request(bias_voltage: i32) -> (request: Result<u16, Error>)
        ensures
            request == Self::spec_bias_request(bias_voltage),
    {
        if bias_voltage < PINCH_OFF_MILLIVOLTS || bias_voltage > 0 {
            Err(Error::Bounds)
        } else {
            Ok(inverted(bias_voltage))
        }
    }

    /// Takes the answer of the bias converter to a request for
    /// `bias_voltage`: once the converter has accepted it, the voltage is
    /// the bias in use and the configured bias; a fault changes nothing
    /// and is reported.
    pub fn bias_applied(self, bias_voltage: i32, answer: Result<(), DeviceFault>) -> (after: (
        ChannelView,
        Result<(), Error>,
    ))
        ensures
            after == self.spec_bias_applied(bias_voltage, answer),
    {
        match answer {
            Ok(()) => {
                let mut settings = self.settings;
                settings.bias_voltage = bias_voltage;
                (ChannelView { bias_voltage, settings, ..self }, Ok(()))
            },
            Err(fault) => (self, Err(Error::from_fault(fault))),
        }
    }

    /// Takes the answer of the bias converter to the request for pinch-off
    /// that ends a disable: the channel is disabled whatever the answer,
    /// and a fault is reported.
    pub fn disable_applied(self, answer: Result<(), DeviceFault>) -> (after: (
        ChannelView,
        Result<(), Error>,
    ))
        ensures
            after == self.spec_disable_applied(answer),
    {
        (
            ChannelView {
                bias_voltage: PINCH_OFF_MILLIVOLTS,
                enable_power: false,
                signal_on: false,
                ..self
            },
            Error::surface(answer),
        )
    }

    /// The setting of the bias converter that a power-up asks for: the
    /// configured bias, inverted.
    pub fn powerup_request(&self) -> (millivolts: u16)
        requires
            self.wf(),
        ensures
            millivolts == -self.settings.bias_voltage,
    {
        inverted(self.settings.bias_voltage)
    }

    /// Takes the answer of the bias converter to the request that starts a
    /// power-up: once the converter has accepted the configured bias, the
    /// power line is high and the signal line at `output`; a fault
    /// changes nothing and is reported.
    pub fn powerup_applied(self, output: bool, answer: Result<(), DeviceFault>) -> (after: (
        ChannelView,
        Result<(), Error>,
    ))
        ensures
            after == self.spec_powerup_applied(output, answer),
    {
        match answer {
            Ok(()) => (
                ChannelView {
                    bias_voltage: self.settings.bias_voltage,
                    enable_power: true,
                    signal_on: output,
                    ..self
                },
                Ok(()),
            ),
            Err(fault) => (self, Err(Error::from_fault(fault))),
        }
    }

    /// Converts a threshold to the setting of the given output of the
    /// threshold converter, under the calibration of the detector behind
    /// that output.
    pub fn threshold_request(&self, dac: ThresholdDac, threshold: i32) -> (request: Result<
        u16,
        Error,
    >)
        ensures
            request == self.spec_threshold_request(dac, threshold),
            request matches Ok(millivolts) ==> millivolts <= 2500,
    {
        match dac {
            ThresholdDac::Reflected => threshold_voltage(
                &self.settings.reflected_power_transform,
                threshold,
            ),
            ThresholdDac::Output => threshold_voltage(
                &self.settings.output_power_transform,
                threshold,
            ),
        }
    }

    /// Takes the answer of the threshold converter to a request for
    /// `threshold` on the given output: once the converter has accepted
    /// it, the threshold is the one in use and the configured one; a fault
    /// changes nothing and is reported.
    pub fn threshold_applied(
        self,
        dac: ThresholdDac,
        threshold: i32,
        answer: Result<(), DeviceFault>,
    ) -> (after: (ChannelView, Result<(), Error>))
        ensures
            after == self.spec_threshold_applied(dac, threshold, answer),
    {
        match answer {
            Ok(()) => {
                let mut settings = self.settings;
                match dac {
                    ThresholdDac::Reflected => {
                        settings.reflected_interlock_threshold = threshold;
                        (
                            ChannelView {
                                reflected_interlock_threshold: threshold,
                                settings,
                                ..self
                            },
                            Ok(()),
                        )
                    },
                    ThresholdDac::Output => {
                        settings.output_interlock_threshold = threshold;
                        (
                            ChannelView { output_interlock_threshold: threshold, settings, ..self },
                            Ok(()),
                        )
                    },
                }
            },
            Err(fault) => (self, Err(Error::from_fault(fault))),
        }
    }

    /// Handles one threshold: a threshold that cannot be converted is
    /// refused with `Bounds`, whatever `answer` holds; otherwise `answer`
    /// is what the converter answered, and decides.
    pub fn threshold_programmed(
        self,
        dac: ThresholdDac,
        threshold: i32,
        answer: Result<(), DeviceFault>,
    ) -> (after: (ChannelView, Result<(), Error>))
        ensures
            after == self.spec_threshold_programmed(dac, threshold, answer),
    {
        match self.threshold_request(dac, threshold) {
            Err(error) => (self, Err(error)),
            Ok(_) => self.threshold_applied(dac, threshold, answer),
        }
    }

    /// Handles both thresholds, the reflected one first: each is
    /// programmed on its own, and each reports its own failure. An answer
    /// counts only where the converter was asked.
    pub fn thresholds_programmed(
        self,
        output: i32,
        reflected: i32,
        output_answer: Result<(), DeviceFault>,
        reflected_answer: Result<(), DeviceFault>,
    ) -> (after: (ChannelView, ThresholdResults))
        ensures
            after == self.spec_thresholds_programmed(
                output,
                reflected,
                output_answer,
                reflected_answer,
            ),
    {
        let (first, reflected_result) = self.threshold_programmed(
            ThresholdDac::Reflected,
            reflected,
            reflected_answer,
        );
        let (second, output_result) = first.threshold_programmed(
            ThresholdDac::Output,
            output,
            output_answer,
        );
        (second, ThresholdResults { output: output_result, reflected: reflected_result })
    }

    /// Replaces a calibration as a whole. Thresholds are not a
    /// calibration and leave the state as it is.
    pub fn transform_replaced(self, property: Property) -> (after: ChannelView)
        ensures
            after == self.with_transform(property),
    {
        let mut settings = self.settings;
        match property {
            Property::InterlockThresholds(_) => {},
            Property::InputPowerTransform(transform) => {
                settings.input_power_transform = transform;
            },
            Property::OutputPowerTransform(transform) => {
                settings.output_power_transform = transform;
            },
            Property::ReflectedPowerTransform(transform) => {
                settings.reflected_power_transform = transform;
            },
        }
        ChannelView { settings, ..self }
    }

    /// Reads a property.
    pub fn get_property(&self, id: PropertyId) -> (value: Property)
        ensures
            value == self.property(id),
    {
        match id {
            PropertyId::InterlockThresholds => Property::InterlockThresholds(
                InterlockThresholds {
                    output: self.output_interlock_threshold,
                    reflected: self.reflected_interlock_threshold,
                },
            ),
            PropertyId::InputPowerTransform => Property::InputPowerTransform(
                self.settings.input_power_transform,
            ),
            PropertyId::OutputPowerTransform => Property::OutputPowerTransform(
                self.settings.output_power_transform,
            ),
            PropertyId::ReflectedPowerTransform => Property::ReflectedPowerTransform(
                self.settings.reflected_power_transform,
            ),
        }
    }

    /// Derives the state of the channel from what its sense lines report.
    pub fn get_state(&self, sense: InterlockSense) -> (state: ChannelState)
        ensures
            state == self.state(sense),
    {
        derive_state(self.enable_power, self.signal_on, self.bias_voltage, sense)
    }

    /// Whether the output of the channel is live while its sense lines
    /// report `sense`.
    pub fn is_enabled(&self, sense: InterlockSense) -> (live: bool)
        ensures
            live == self.enabled(sense),
    {
        self.enable_power && self.signal_on && !sense.overdriven() && self.bias_voltage
            > BIAS_ACTIVE_ABOVE_MILLIVOLTS
    }

    /// The input power behind an answer of the input converter, in
    /// millivolts: the voltage under the input calibration.
    pub fn input_power(&self, answer: Result<u16, DeviceFault>) -> (power: Result<i64, Error>)
        ensures
            power == self.spec_input_power(answer),
    {
        match answer {
            Ok(millivolts) => Ok(self.settings.input_power_transform.apply(millivolts as i32)),
            Err(fault) => Err(Error::from_fault(fault)),
        }
    }

    /// The output power behind a raw count of the analog converter: the
    /// count scaled to millivolts, under the output calibration.
    pub fn output_power(&self, sample: u16) -> (power: i64)
        ensures
            power == self.spec_output_power(sample),
    {
        self.settings.output_power_transform.apply(sample_to_millivolts(sample) as i32)
    }

    /// The reflected power behind a raw count of the analog converter:
    /// the count scaled to millivolts, under the reflected calibration.
    pub fn reflected_power(&self, sample: u16) -> (power: i64)
        ensures
            power == self.spec_reflected_power(sample),
    {
        self.settings.reflected_power_transform.apply(sample_to_millivolts(sample) as i32)
    }
}

/// The two thresholds are independent: what becomes of each, and what is
/// reported of it, is what handling it alone would give, whatever the
/// other is set to and whatever the converter answers for the other.
pub proof fn lemma_thresholds_are_independent(
    channel: ChannelView,
    output: i32,
    reflected: i32,
    output_answer: Result<(), DeviceFault>,
    reflected_answer: Result<(), DeviceFault>,
)
    ensures
        ({
            let both = channel.spec_thresholds_programmed(
                output,
                reflected,
                output_answer,
                reflected_answer,
            );
            let output_alone = channel.spec_threshold_programmed(
                ThresholdDac::Output,
                output,
                output_answer,
            );
            let reflected_alone = channel.spec_threshold_programmed(
                ThresholdDac::Reflected,
                reflected,
                reflected_answer,
            );
            &&& both.1.output == output_alone.1
            &&& both.1.reflected == reflected_alone.1
            &&& both.0.output_interlock_threshold == output_alone.0.output_interlock_threshold
            &&& both.0.reflected_interlock_threshold
                == reflected_alone.0.reflected_interlock_threshold
            &&& both.0 == channel.with_thresholds(both.1, output, reflected)
        }),
{
}

/// A module is found exactly when every device has answered: the search
/// for it then ends at no stage, and the channel is left disabled with its
/// bias at pinch-off. A slot is empty exactly when the search ended at a
/// device of the module, and the enumeration fails, with `Interface`,
/// exactly when it ended at a device of the mainboard.
pub proof fn lemma_found_exactly_when_devices_answer<
    B: ModuleBus,
    L: ControlLines,
    S: ConfigStorage,
>(ended: Option<ProbeStep>, result: Result<Option<RfChannel<B, L, S>>, Error>, analog: AnalogPins)
    requires
        RfChannel::enumeration_ended(ended, result, analog),
    ensures
        result matches Ok(Some(_)) <==> ended is None,
        result matches Ok(None) <==> (ended matches Some(step) && !step.spec_on_mainboard()),
        result is Err <==> (ended matches Some(step) && step.spec_on_mainboard()),
        result matches Err(error) ==> error == Error::Interface,
        result matches Ok(Some(channel)) ==> {
            &&& channel@.bias_voltage == PINCH_OFF_MILLIVOLTS
            &&& !channel@.enable_power
            &&& !channel@.signal_on
            &&& channel@.state(channel.sensed()) == ChannelState::Disabled
            &&& channel.analog() == analog
        },
{
}

/// Settings never cost the channel. Whatever the settings that a channel
/// adopts at its start, programming its thresholds leaves it in the state
/// in which it was found, and the search for the module ends there exactly
/// when the threshold converter, asked for a threshold that can be
/// converted, fails the transaction.
pub proof fn lemma_settings_never_cost_the_channel<T>(
    settings: BoosterChannelData,
    output_answer: Result<(), DeviceFault>,
    reflected_answer: Result<(), DeviceFault>,
)
    ensures
        ({
            let found = ChannelView::spec_enumerated(settings);
            let programmed = found.spec_thresholds_programmed(
                settings.output_interlock_threshold,
                settings.reflected_interlock_threshold,
                output_answer,
                reflected_answer,
            );
            let output_failed = found.spec_threshold_request(
                ThresholdDac::Output,
                settings.output_interlock_threshold,
            ) is Ok && output_answer == Err::<(), DeviceFault>(DeviceFault::Bus);
            let reflected_failed = found.spec_threshold_request(
                ThresholdDac::Reflected,
                settings.reflected_interlock_threshold,
            ) is Ok && reflected_answer == Err::<(), DeviceFault>(DeviceFault::Bus);
            &&& programmed.0 == found
            &&& programmed.1.spec_after_programming::<T>() == (if output_failed
                || reflected_failed {
                Some(Ok::<Option<T>, Error>(None))
            } else {
                None
            })
        }),
{
}

/// Disabling a channel leaves it unpowered with its bias at pinch-off,
/// whatever it was before, and disabling it once more changes nothing.
pub proof fn lemma_disable_is_idempotent(channel: ChannelView, sense: InterlockSense)
    ensures
        channel.disabled().bias_voltage == PINCH_OFF_MILLIVOLTS,
        !channel.disabled().enable_power,
        !channel.disabled().signal_on,
        channel.disabled().state(sense) == ChannelState::Disabled,
        channel.disabled().disabled() == channel.disabled(),
        channel.wf() ==> channel.disabled().wf(),
{
}

/// A bias that was set is the bias in use and the configured bias.
pub proof fn lemma_bias_round_trip(channel: ChannelView, millivolts: i32)
    ensures
        channel.biased(millivolts).bias_voltage == millivolts,
        channel.biased(millivolts).settings.bias_voltage == millivolts,
        BoosterChannelData::bias_in_range(millivolts as int) ==> channel.biased(millivolts).wf(),
{
}

/// From any state, powering a channel up with its output live enables it,
/// provided that its configured bias is out of pinch-off and no sense line
/// is asserted; with the output muted, or the bias in pinch-off, it is
/// powered. A sense line that is asserted trips it.
pub proof fn lemma_power_up_state(channel: ChannelView, output: bool, sense: InterlockSense)
    ensures
        channel.powered(output).state(sense) == (if sense.spec_tripped() {
            ChannelState::Tripped
        } else if output && channel.settings.bias_voltage > BIAS_ACTIVE_ABOVE_MILLIVOLTS {
            ChannelState::Enabled
        } else {
            ChannelState::Powered
        }),
{
}

/// Everything that is known and measured of a channel at one moment.
#[derive(Clone, Copy, Debug, PartialEq, Eq, Structural)]
pub struct ChannelStatus {
    pub input_overdrive: bool,
    pub output_overdrive: bool,
    pub alert: bool,
    /// Temperature of the module, in milli-degrees Celsius.
    pub temperature: i32,
    /// Current drawn from the 28 V rail, in microamperes.
    pub p28v_current: i32,
    /// Current drawn from the 5 V rail, in microamperes.
    pub p5v_current: i32,
    /// Voltage of the 5 V rail, in millivolts.
    pub p5v_voltage: i32,
    /// Input power, in micro-dBm.
    pub input_power: i64,
    /// Reflected power, in micro-dBm.
    pub reflected_power: i64,
    /// Output power, in micro-dBm.
    pub output_power: i64,
    /// Interlock threshold on reflected power, in micro-dBm.
    pub reflected_overdrive_threshold: i32,
    /// Interlock threshold on output power, in micro-dBm.
    pub output_overdrive_threshold: i32,
    /// Bias voltage, in millivolts.
    pub bias_voltage: i32,
    pub state: ChannelState,
}

impl ChannelStatus {
    /// What the sense lines reported when the status was taken.
    pub open spec fn sense(self) -> InterlockSense {
        InterlockSense {
            input_overdrive: self.input_overdrive,
            output_overdrive: self.output_overdrive,
            alert: self.alert,
        }
    }

    /// The status of a channel in the given state, behind one reading of
    /// its sense lines and of each of its measurements.
    pub open spec fn spec_assemble(
        state: ChannelView,
        sense: InterlockSense,
        temperature: i32,
        supply: PowerMeasurements,
        input_power: i64,
        reflected_power: i64,
        output_power: i64,
    ) -> ChannelStatus {
        ChannelStatus {
            input_overdrive: sense.input_overdrive,
            output_overdrive: sense.output_overdrive,
            alert: sense.alert,
            temperature,
            p28v_current: supply.i_p28v0ch,
            p5v_current: supply.i_p5v0ch,
            p5v_voltage: supply.v_p5v0mp,
            input_power,
            reflected_power,
            output_power,
            reflected_overdrive_threshold: state.reflected_interlock_threshold,
            output_overdrive_threshold: state.output_interlock_threshold,
            bias_voltage: state.bias_voltage,
            state: state.state(sense),
        }
    }

    /// Whether this is a status taken of a channel in the given state on
    /// the given reading of its sense lines: it is put together from the
    /// state, the reading, some temperature, the supply measurements behind
    /// some readings of the monitor, and the three powers behind some
    /// reading of the input converter and some samples of the two
    /// detectors.
    pub open spec fn taken_of(self, state: ChannelView, reading: InterlockSense) -> bool {
        exists|
            temperature: i32,
            p5v: u16,
            p28v_sense: u16,
            p5v_sense: u16,
            input: u16,
            reflected: u16,
            output: u16,
        |
            self == #[trigger] Self::spec_assemble(
                state,
                reading,
                temperature,
                PowerMeasurements::spec_from_sense(p5v, p28v_sense, p5v_sense),
                state.spec_input_reading(input),
                state.spec_reflected_reading(reflected),
                state.spec_output_reading(output),
            )
    }

    /// Puts the status of a channel together from its state, one reading
    /// of its sense lines and one of each of its measurements.
    pub fn assemble(
        state: &ChannelView,
        sense: InterlockSense,
        temperature: i32,
        supply: PowerMeasurements,
        input_power: i64,
        reflected_power: i64,
        output_power: i64,
    ) -> (status: ChannelStatus)
        ensures
            status == Self::spec_assemble(
                *state,
                sense,
                temperature,
                supply,
                input_power,
                reflected_power,
                output_power,
            ),
    {
        ChannelStatus {
            input_overdrive: sense.input_overdrive,
            output_overdrive: sense.output_overdrive,
            alert: sense.alert,
            temperature,
            p28v_current: supply.i_p28v0ch,
            p5v_current: supply.i_p5v0ch,
            p5v_voltage: supply.v_p5v0mp,
            input_power,
            reflected_power,
            output_power,
            reflected_overdrive_threshold: state.reflected_interlock_threshold,
            output_overdrive_threshold: state.output_interlock_threshold,
            bias_voltage: state.bias_voltage,
            state: state.get_state(sense),
        }
    }
}

/// The part of the logical state that the controller alone decides: the
/// bias, the thresholds and the settings. It is well formed at all times.
struct Shadow {
    bias_voltage: i32,
    output_interlock_threshold: i32,
    reflected_interlock_threshold: i32,
    settings: BoosterChannelData,
}

impl Shadow {
    #[verifier::type_invariant]
    spec fn well_formed(self) -> bool {
        &&& BoosterChannelData::bias_in_range(self.bias_voltage as int)
        &&& self.settings.valid()
    }

    /// The logical state with the output lines at the given levels.
    spec fn state(self, enable_power: bool, signal_on: bool) -> ChannelView {
        ChannelView {
            bias_voltage: self.bias_voltage,
            output_interlock_threshold: self.output_interlock_threshold,
            reflected_interlock_threshold: self.reflected_interlock_threshold,
            enable_power,
            signal_on,
            settings: self.settings,
        }
    }

    fn new(state: ChannelView) -> (shadow: Self)
        requires
            state.wf(),
        ensures
            shadow.state(state.enable_power, state.signal_on) == state,
    {
        Shadow {
            bias_voltage: state.bias_voltage,
            output_interlock_threshold: state.output_interlock_threshold,
            reflected_interlock_threshold: state.reflected_interlock_threshold,
            settings: state.settings,
        }
    }

    fn get(&self, enable_power: bool, signal_on: bool) -> (state: ChannelView)
        ensures
            state == self.state(enable_power, signal_on),
            state.wf(),
    {
        proof {
            use_type_invariant(self);
        }
        ChannelView {
            bias_voltage: self.bias_voltage,
            output_interlock_threshold: self.output_interlock_threshold,
            reflected_interlock_threshold: self.reflected_interlock_threshold,
            enable_power,
            signal_on,
            settings: self.settings,
        }
    }
}

/// One amplifier channel. It owns the devices and the lines of the channel
/// and the storage of its settings, and it keeps the logical state of the
/// channel, which is well formed at all times. The levels of the output
/// lines in that state are those that the lines were last driven to.
pub struct RfChannel<B: ModuleBus, L: ControlLines, S: ConfigStorage> {
    i2c_devices: Devices<B>,
    pins: ChannelPins<L>,
    eeprom: S,
    shadow: Shadow,
}

impl<B: ModuleBus, L: ControlLines, S: ConfigStorage> View for RfChannel<B, L, S> {
    type V = ChannelView;

    closed spec fn view(&self) -> ChannelView {
        self.shadow.state(self.pins.enable_power, self.pins.signal_on)
    }
}

impl<B: ModuleBus, L: ControlLines, S: ConfigStorage> RfChannel<B, L, S> {
    /// The analog inputs of the channel.
    pub closed spec fn analog(&self) -> AnalogPins {
        self.pins.adc_pins
    }

    /// What the sense lines of the channel reported when they were last
    /// read.
    pub closed spec fn sensed(&self) -> InterlockSense {
        self.pins.sensed
    }

    /// The latest reading of the sense lines of the channel.
    pub fn last_sense(&self) -> (reading: InterlockSense)
        ensures
            reading == self.sensed(),
    {
        self.pins.last_sense()
    }

    /// The logical state of the channel. It is well formed.
    pub fn snapshot(&self) -> (state: ChannelView)
        ensures
            state == self@,
            state.wf(),
    {
        self.shadow.get(self.pins.enable_power, self.pins.signal_on)
    }

    /// Takes over the state after a transition. The output lines have
    /// been driven to their levels in that state before.
    fn adopt(&mut self, state: ChannelView)
        requires
            state.wf(),
            state.enable_power == old(self)@.enable_power,
            state.signal_on == old(self)@.signal_on,
        ensures
            final(self)@ == state,
            final(self).analog() == old(self).analog(),
            final(self).sensed() == old(self).sensed(),
    {
        self.shadow = Shadow::new(state);
    }

    /// Whether settings are what a channel adopts at its start for
    /// something that its storage can return: valid settings as they were
    /// stored, or the factory settings.
    pub open spec fn adopted(settings: BoosterChannelData) -> bool {
        exists|stored: Option<[u8; 64]>|
            settings == (#[trigger] BoosterChannelSettings::<S>::spec_resolve(stored)).0
    }

    /// How the result of an enumeration follows from the stage at which
    /// the search for the module ended: the verdict of that stage, or,
    /// where every device has answered, the channel in its initial state
    /// with the given analog inputs and the settings adopted from its
    /// storage.
    pub open spec fn enumeration_ended(
        ended: Option<ProbeStep>,
        result: Result<Option<Self>, Error>,
        analog: AnalogPins,
    ) -> bool {
        match ended {
            Some(step) => result == step.spec_failure::<Self>(),
            None => result matches Ok(Some(channel)) && channel@.freshly_enumerated()
                && channel.analog() == analog && Self::adopted(channel@.settings),
        }
    }

    /// Whether a result is one that an enumeration with the given analog
    /// inputs can end in: the verdict of a stage of the search, or a
    /// channel in its initial state.
    pub open spec fn enumerated_with(result: Result<Option<Self>, Error>, analog: AnalogPins) -> bool {
        exists|ended: Option<ProbeStep>| #[trigger] Self::enumeration_ended(ended, result, analog)
    }

    /// Searches for the module of a channel and brings it into its initial
    /// state.
    ///
    /// Returns `Ok(None)` where a device of the module does not answer,
    /// and `Err(Interface)` where a device of the mainboard fails. A module
    /// that is found has its settings loaded from storage, its interlock
    /// thresholds programmed from them, the alert window of each supply
    /// rail set, and is left disabled with its bias at pinch-off.
    ///
    /// The settings never cost the channel. They are adopted as they were
    /// saved. A threshold among them that cannot be converted under its
    /// calibration is refused and not programmed, which leaves its output
    /// of the converter at its reset level, at which the interlock trips
    /// at any power; only the answers of the devices decide whether the
    /// module is found.
    pub fn new(bus: B, control_pins: ChannelPins<L>, storage: S) -> (result: Result<
        Option<Self>,
        Error,
    >)
        ensures
            exists|ended: Option<ProbeStep>| #[trigger]
                Self::enumeration_ended(ended, result, control_pins.analog()),
            result matches Err(error) ==> error == Error::Interface,
            result matches Ok(Some(channel)) ==> {
                &&& channel@.freshly_enumerated()
                &&& channel.analog() == control_pins.analog()
                &&& Self::adopted(channel@.settings)
            },
    {
        let found = Devices::new(bus);
        let devices = match found {
            Ok(Some(devices)) => devices,
            Ok(None) => {
                proof {
                    let ended = choose|ended: Option<ProbeStep>| #[trigger]
                        Devices::<B>::search_ended(ended, found);
                    assert(Self::enumeration_ended(ended, Ok(None), control_pins.analog()));
                }
                return Ok(None);
            },
            Err(error) => {
                proof {
                    let ended = choose|ended: Option<ProbeStep>| #[trigger]
                        Devices::<B>::search_ended(ended, found);
                    assert(Self::enumeration_ended(ended, Err(error), control_pins.analog()));
                }
                return Err(error);
            },
        };
        let BoosterChannelSettings { eeprom, data } = BoosterChannelSettings::new(storage);
        assert(Self::adopted(data));
        let mut pins = control_pins;
        pins.drive_down();
        let state = ChannelView::enumerated(data);
        let mut channel = RfChannel {
            i2c_devices: devices,
            pins,
            eeprom,
            shadow: Shadow::new(state),
        };
        let programmed = channel.set_interlock_thresholds(
            state.output_interlock_threshold,
            state.reflected_interlock_threshold,
        );
        if let Some(end) = programmed.after_programming() {
            assert(Self::enumeration_ended(
                Some(ProbeStep::ThresholdDac),
                end,
                control_pins.analog(),
            ));
            return end;
        }
        let inputs = [MonitorInput::P5vVoltage, MonitorInput::P28vCurrent, MonitorInput::P5vCurrent];
        let mut index: usize = 0;
        while index < 3
            invariant
                index <= 3,
                channel@.freshly_enumerated(),
                channel.analog() == control_pins.analog(),
                Self::adopted(channel@.settings),
            decreases 3 - index,
        {
            let (low, high) = PowerMeasurements::alert_window(inputs[index]);
            let answer = channel.i2c_devices.bus.set_power_monitor_window(inputs[index], low, high);
            if let Some(end) = ProbeStep::PowerMonitor.ended(&answer) {
                assert(Self::enumeration_ended(
                    Some(ProbeStep::PowerMonitor),
                    end,
                    control_pins.analog(),
                ));
                return end;
            }
            index += 1;
        }
        let answer = channel.i2c_devices.bus.clear_power_monitor_alarm();
        if let Some(end) = ProbeStep::PowerMonitor.ended(&answer) {
            assert(Self::enumeration_ended(
                Some(ProbeStep::PowerMonitor),
                end,
                control_pins.analog(),
            ));
            return end;
        }
        let result = Ok(Some(channel));
        assert(Self::enumeration_ended(None, result, control_pins.analog()));
        result
    }

    /// Asks the threshold converter for one threshold, if the threshold
    /// can be converted. Where it cannot, the converter is not asked, and
    /// the answer returned counts for nothing.
    fn ask_threshold(&mut self, dac: ThresholdDac, threshold: i32) -> (answer: Result<
        (),
        DeviceFault,
    >)
        ensures
            final(self)@ == old(self)@,
            final(self).analog() == old(self).analog(),
            final(self).sensed() == old(self).sensed(),
            old(self)@.spec_threshold_request(dac, threshold) is Err ==> *final(self) == *old(self),
    {
        match self.snapshot().threshold_request(dac, threshold) {
            Ok(millivolts) => self.i2c_devices.bus.write_threshold_dac(dac, millivolts),
            Err(_) => Ok(()),
        }
    }

    /// Sets the interlock thresholds of the channel, in micro-dBm.
    ///
    /// Each threshold is converted to a comparator voltage under the
    /// calibration of its own detector and written to its own converter
    /// output. The two are independent: a failure of one neither stops
    /// nor undoes the other. A threshold that was programmed becomes the
    /// threshold in use and the configured one; one that failed stays as
    /// it was.
    pub fn set_interlock_thresholds(&mut self, output: i32, reflected: i32) -> (results:
        ThresholdResults)
        ensures
            final(self).analog() == old(self).analog(),
            final(self).sensed() == old(self).sensed(),
            exists|output_answer: Result<(), DeviceFault>, reflected_answer: Result<(), DeviceFault>|
                (final(self)@, results) == #[trigger] old(self)@.spec_thresholds_programmed(
                    output,
                    reflected,
                    output_answer,
                    reflected_answer,
                ),
            final(self)@ == old(self)@.with_thresholds(results, output, reflected),
            old(self)@.spec_threshold_request(ThresholdDac::Output, output) is Err && old(self)@.spec_threshold_request(ThresholdDac::Reflected, reflected) is Err ==> *final(self)
                == *old(self),
    {
        let before = self.snapshot();
        let reflected_answer = self.ask_threshold(ThresholdDac::Reflected, reflected);
        let output_answer = self.ask_threshold(ThresholdDac::Output, output);
        let (after, results) = before.thresholds_programmed(
            output,
            reflected,
            output_answer,
            reflected_answer,
        );
        if results.output.is_ok() || results.reflected.is_ok() {
            self.adopt(after);
        }
        assert((self@, results) == old(self)@.spec_thresholds_programmed(
            output,
            reflected,
            output_answer,
            reflected_answer,
        ));
        results
    }

    /// Reads the sense lines and tells whether an overdrive line of the
    /// channel is asserted. The reading is kept as the latest one.
    pub fn is_overdriven(&mut self) -> (overdriven: bool)
        ensures
            overdriven == final(self).sensed().spec_overdriven(),
            final(self)@ == old(self)@,
            final(self).analog() == old(self).analog(),
    {
        self.pins.sense().overdriven()
    }

    /// Reads the sense lines and tells whether the alert line of the
    /// channel is asserted. The reading is kept as the latest one.
    pub fn is_alarmed(&mut self) -> (alarmed: bool)
        ensures
            alarmed == final(self).sensed().alert,
            final(self)@ == old(self)@,
            final(self).analog() == old(self).analog(),
    {
        self.pins.sense().alert
    }

    /// Reads the sense lines and tells whether the channel is powered
    /// with its output live, out of pinch-off and not overdriven. The
    /// reading is kept as the latest one.
    pub fn is_enabled(&mut self) -> (enabled: bool)
        ensures
            enabled == final(self)@.enabled(final(self).sensed()),
            final(self)@ == old(self)@,
            final(self).analog() == old(self).analog(),
    {
        let sense = self.pins.sense();
        self.snapshot().is_enabled(sense)
    }

    /// Reserved for a staged power-up; it does nothing yet.
    pub fn enable(&mut self) -> (result: Result<(), Error>)
        ensures
            result == Err::<(), Error>(Error::NotImplemented),
            *final(self) == *old(self),
    {
        Err(Error::NotImplemented)
    }

    /// Disables the channel: drives both output lines low and forces the
    /// bias converter to pinch-off, whatever state the channel is in.
    ///
    /// The lines are driven before the converter is written, so that a
    /// failure of the converter, which is reported, leaves the channel
    /// unpowered all the same.
    pub fn disable(&mut self) -> (result: Result<(), Error>)
        ensures
            final(self).analog() == old(self).analog(),
            final(self).sensed() == old(self).sensed(),
            exists|answer: Result<(), DeviceFault>|
                (final(self)@, result) == #[trigger] old(self)@.spec_disable_applied(answer),
    {
        let before = self.snapshot();
        self.pins.drive_down();
        let answer = self.i2c_devices.bus.write_bias_dac(inverted(PINCH_OFF_MILLIVOLTS));
        let (after, result) = before.disable_applied(answer);
        self.adopt(after);
        assert((self@, result) == old(self)@.spec_disable_applied(answer));
        result
    }

    /// Powers the channel up: applies the configured bias, drives the
    /// power line high and the signal line to `output`.
    ///
    /// The bias is applied first. If the converter fails, the failure is
    /// reported and the channel stays as it was.
    pub fn start_powerup(&mut self, output: bool) -> (result: Result<(), Error>)
        ensures
            final(self).analog() == old(self).analog(),
            final(self).sensed() == old(self).sensed(),
            exists|answer: Result<(), DeviceFault>|
                (final(self)@, result) == #[trigger] old(self)@.spec_powerup_applied(
                    output,
                    answer,
                ),
    {
        let before = self.snapshot();
        let answer = self.i2c_devices.bus.write_bias_dac(before.powerup_request());
        let (after, result) = before.powerup_applied(output, answer);
        if result.is_ok() {
            self.pins.drive_up(output);
        }
        self.adopt(after);
        assert((self@, result) == old(self)@.spec_powerup_applied(output, answer));
        result
    }

    /// Trips the interlock if a sense line calls for it: the channel is
    /// disabled exactly when `sense` reports a fault, and is not touched
    /// otherwise.
    pub fn react(&mut self, sense: InterlockSense) -> (result: Result<(), Error>)
        ensures
            final(self).analog() == old(self).analog(),
            final(self).sensed() == old(self).sensed(),
            sense.spec_tripped() ==> exists|answer: Result<(), DeviceFault>|
                (final(self)@, result) == #[trigger] old(self)@.spec_disable_applied(answer),
            !sense.spec_tripped() ==> *final(self) == *old(self) && result is Ok,
    {
        if sense.tripped() {
            self.disable()
        } else {
            Ok(())
        }
    }

    /// Reads the sense lines once and trips the interlock if one of them
    /// is asserted: the channel is disabled exactly when the reading, which
    /// is kept as the latest one, reports a fault, and its logical state
    /// is not touched otherwise.
    pub fn update(&mut self) -> (result: Result<(), Error>)
        ensures
            final(self).analog() == old(self).analog(),
            final(self).sensed().spec_tripped() ==> exists|answer: Result<(), DeviceFault>|
                (final(self)@, result) == #[trigger] old(self)@.spec_disable_applied(answer),
            !final(self).sensed().spec_tripped() ==> final(self)@ == old(self)@ && result is Ok,
    {
        let sense = self.pins.sense();
        assert(self@ == old(self)@);
        self.react(sense)
    }

    /// Reads the sense lines and derives the state of the channel from
    /// the reading, the levels of the output lines and the bias. The
    /// reading is kept as the latest one.
    pub fn get_state(&mut self) -> (state: ChannelState)
        ensures
            state == final(self)@.state(final(self).sensed()),
            final(self)@ == old(self)@,
            final(self).analog() == old(self).analog(),
    {
        let sense = self.pins.sense();
        self.snapshot().get_state(sense)
    }

    /// Reads the temperature of the module.
    pub fn get_temperature(&mut self) -> (result: Result<i32, Error>)
        ensures
            final(self)@ == old(self)@,
            final(self).analog() == old(self).analog(),
            final(self).sensed() == old(self).sensed(),
            exists|answer: Result<i32, DeviceFault>|
                result == #[trigger] Error::spec_surface(answer),
    {
        let answer = self.i2c_devices.bus.read_temperature();
        let result = Error::surface(answer);
        assert(result == Error::spec_surface(answer));
        result
    }

    /// Sets the bias voltage of the channel, in millivolts.
    ///
    /// A voltage outside `-3300..=0` is refused with `Bounds` before any
    /// device is addressed. Otherwise the converter, which works against a
    /// negative rail, is set to the inverted voltage; once it has accepted
    /// it, the voltage is the bias in use and the configured bias.
    pub fn set_bias(&mut self, bias_voltage: i32) -> (result: Result<(), Error>)
        ensures
            final(self).analog() == old(self).analog(),
            final(self).sensed() == old(self).sensed(),
            match ChannelView::spec_bias_request(bias_voltage) {
                Err(error) => result == Err::<(), Error>(error) && *final(self) == *old(self),
                Ok(_) => exists|answer: Result<(), DeviceFault>|
                    (final(self)@, result) == #[trigger] old(self)@.spec_bias_applied(
                        bias_voltage,
                        answer,
                    ),
            },
    {
        let millivolts = match ChannelView::bias_request(bias_voltage) {
            Ok(millivolts) => millivolts,
            Err(error) => {
                return Err(error);
            },
        };
        let before = self.snapshot();
        let answer = self.i2c_devices.bus.write_bias_dac(millivolts);
        let (after, result) = before.bias_applied(bias_voltage, answer);
        self.adopt(after);
        assert((self@, result) == old(self)@.spec_bias_applied(bias_voltage, answer));
        result
    }

    /// What holds where a search for a bias voltage has settled at `vgs`
    /// with the current `ids`: the voltage is the bias in use and the
    /// configured bias; the current is one that the monitor can report;
    /// and the search can stand at that voltage, in its rising or in its
    /// falling phase, and there decides to settle on reading that current.
    /// [`lemma_where_a_search_settles`] says what follows for the voltage.
    pub open spec fn settled_at(
        before: ChannelView,
        after: ChannelView,
        target: i32,
        vgs: i32,
        ids: i32,
    ) -> bool {
        &&& BoosterChannelData::bias_in_range(vgs as int)
        &&& after == before.biased(vgs)
        &&& exists|sense: u16| ids == #[trigger] PowerMeasurements::spec_sense_current(sense, 4300)
        &&& exists|rising: bool, lowerings_left: u8|
            {
                &&& spec_on_search_path(rising, lowerings_left, vgs)
                &&& #[trigger] spec_tune_step(rising, lowerings_left, vgs, ids, target)
                    == TuneStep::Settled
            }
    }

    /// Tunes the bias of the channel to a drain current, in microamperes.
    ///
    /// A target outside `1..=500_000` is refused with `Bounds` before any
    /// device is addressed. Otherwise the bias is searched for as
    /// [`TuneStep`] describes, and the bias at which the search settles is
    /// returned with the current measured there; it is then the bias in
    /// use and the configured bias. Where even the ceiling of the bias
    /// does not reach the target, the bias returns to pinch-off and the
    /// result is `Bounds`. A failing device ends the search at once and
    /// leaves the bias at the last voltage that was set.
    pub fn tune<D: SettleDelay>(&mut self, target: i32, delay: &mut D) -> (result: Result<
        (i32, i32),
        Error,
    >)
        ensures
            final(self).analog() == old(self).analog(),
            final(self).sensed() == old(self).sensed(),
            !(0 < target <= MAXIMUM_TUNE_CURRENT) ==> result == Err::<(i32, i32), Error>(
                Error::Bounds,
            ) && *final(self) == *old(self) && *final(delay) == *old(delay),
            0 < target <= MAXIMUM_TUNE_CURRENT ==> (match result {
                Ok((vgs, ids)) => Self::settled_at(old(self)@, final(self)@, target, vgs, ids),
                Err(error) => (error == Error::Bounds || error == Error::Interface) && (final(self)@ == old(self)@ || exists|bias: i32|
                    BoosterChannelData::bias_in_range(bias as int) && final(self)@
                        == #[trigger] old(self)@.biased(bias)),
            }),
    {
        if target <= 0 || target > MAXIMUM_TUNE_CURRENT {
            return Err(Error::Bounds);
        }
        let mut bias: i32 = PINCH_OFF_MILLIVOLTS;
        let mut rising = true;
        let mut lowerings_left: u8 = 0;
        let mut applied = false;
        loop
            invariant
                0 < target <= MAXIMUM_TUNE_CURRENT,
                spec_on_search_path(rising, lowerings_left, bias),
                self.analog() == old(self).analog(),
                self.sensed() == old(self).sensed(),
                BoosterChannelData::bias_in_range(bias as int),
                !applied ==> self@ == old(self)@,
                applied ==> exists|last: i32|
                    BoosterChannelData::bias_in_range(last as int) && self@
                        == #[trigger] old(self)@.biased(last),
            decreases
                    (if rising {
                        21 - bias
                    } else {
                        lowerings_left as int
                    }),
        {
            let ghost before = self@;
            match self.set_bias(bias) {
                Ok(()) => {},
                Err(error) => {
                    return Err(error);
                },
            }
            assert(self@ == old(self)@.biased(bias)) by {
                if applied {
                    let last = choose|last: i32|
                        BoosterChannelData::bias_in_range(last as int) && before
                            == #[trigger] old(self)@.biased(last);
                    assert(before.biased(bias) == old(self)@.biased(bias));
                }
            }
            applied = true;
            delay.delay_us(BIAS_SETTLE_MICROSECONDS);
            let measured = match self.get_p28v_current() {
                Ok(measured) => measured,
                Err(error) => {
                    return Err(error);
                },
            };
            match tune_step(rising, lowerings_left, bias, measured, target) {
                TuneStep::Raise(next) => {
                    bias = next;
                },
                TuneStep::Lower(next, left) => {
                    rising = false;
                    lowerings_left = left;
                    bias = next;
                },
                TuneStep::Settled => {
                    assert(spec_tune_step(rising, lowerings_left, bias, measured, target)
                        == TuneStep::Settled);
                    return Ok((bias, measured));
                },
                TuneStep::Unreachable => {
                    return match self.set_bias(PINCH_OFF_MILLIVOLTS) {
                        Ok(()) => {
                            assert(self@ == old(self)@.biased(PINCH_OFF_MILLIVOLTS));
                            Err(Error::Bounds)
                        },
                        Err(error) => Err(error),
                    };
                },
            }
        }
    }

    /// Reads the three supply inputs of the monitor and scales them to the
    /// voltage of the 5 V rail and the currents of both rails.
    pub fn get_power_measurements(&mut self) -> (result: Result<PowerMeasurements, Error>)
        ensures
            final(self)@ == old(self)@,
            final(self).analog() == old(self).analog(),
            final(self).sensed() == old(self).sensed(),
            result matches Ok(measured) ==> exists|v: u16, i28: u16, i5: u16|
                measured == #[trigger] PowerMeasurements::spec_from_sense(v, i28, i5),
            result matches Err(error) ==> error == Error::Bounds || error == Error::Interface,
    {
        let p5v_voltage = match self.i2c_devices.bus.read_power_monitor(MonitorInput::P5vVoltage) {
            Ok(millivolts) => millivolts,
            Err(fault) => {
                return Err(Error::from_fault(fault));
            },
        };
        let p28v_current_sense = match self.i2c_devices.bus.read_power_monitor(
            MonitorInput::P28vCurrent,
        ) {
            Ok(millivolts) => millivolts,
            Err(fault) => {
                return Err(Error::from_fault(fault));
            },
        };
        let p5v_current_sense = match self.i2c_devices.bus.read_power_monitor(
            MonitorInput::P5vCurrent,
        ) {
            Ok(millivolts) => millivolts,
            Err(fault) => {
                return Err(Error::from_fault(fault));
            },
        };
        Ok(PowerMeasurements::from_sense(p5v_voltage, p28v_current_sense, p5v_current_sense))
    }

    /// Reads the current drawn from the 28 V rail, in microamperes.
    pub fn get_p28v_current(&mut self) -> (result: Result<i32, Error>)
        ensures
            final(self)@ == old(self)@,
            final(self).analog() == old(self).analog(),
            final(self).sensed() == old(self).sensed(),
            result matches Ok(current) ==> exists|sense: u16|
                current == #[trigger] PowerMeasurements::spec_sense_current(sense, 4300),
            result matches Err(error) ==> error == Error::Bounds || error == Error::Interface,
    {
        match self.i2c_devices.bus.read_power_monitor(MonitorInput::P28vCurrent) {
            Ok(millivolts) => {
                let measured = PowerMeasurements::from_sense(0, millivolts, 0);
                assert(measured.i_p28v0ch == PowerMeasurements::spec_sense_current(
                    millivolts,
                    4300,
                ));
                Ok(measured.i_p28v0ch)
            },
            Err(fault) => Err(Error::from_fault(fault)),
        }
    }

    /// Measures the input power: the voltage of the input detector under
    /// the input calibration.
    pub fn get_input_power(&mut self) -> (result: Result<i64, Error>)
        ensures
            final(self)@ == old(self)@,
            final(self).analog() == old(self).analog(),
            final(self).sensed() == old(self).sensed(),
            exists|answer: Result<u16, DeviceFault>|
                result == #[trigger] old(self)@.spec_input_power(answer),
    {
        let answer = self.i2c_devices.bus.read_input_power_adc();
        let result = self.snapshot().input_power(answer);
        assert(result == old(self)@.spec_input_power(answer));
        result
    }

    /// Measures the reflected power: samples the channel's reflected
    /// detector, scales the count to millivolts and applies the reflected
    /// calibration.
    pub fn get_reflected_power<A: SampleConverter>(&mut self, adc: &mut A) -> (power: i64)
        ensures
            *final(self) == *old(self),
            exists|sample: u16| power == #[trigger] old(self)@.spec_reflected_power(sample),
    {
        let sample = adc.sample(self.pins.adc_pins.reflected_power);
        let power = self.snapshot().reflected_power(sample);
        assert(power == old(self)@.spec_reflected_power(sample));
        power
    }

    /// Measures the output power: samples the channel's output detector,
    /// scales the count to millivolts and applies the output calibration.
    pub fn get_output_power<A: SampleConverter>(&mut self, adc: &mut A) -> (power: i64)
        ensures
            *final(self) == *old(self),
            exists|sample: u16| power == #[trigger] old(self)@.spec_output_power(sample),
    {
        let sample = adc.sample(self.pins.adc_pins.tx_power);
        let power = self.snapshot().output_power(sample);
        assert(power == old(self)@.spec_output_power(sample));
        power
    }

    /// The output threshold that was last programmed, in micro-dBm.
    pub fn get_output_interlock_threshold(&self) -> (threshold: i32)
        ensures
            threshold == self@.output_interlock_threshold,
    {
        self.snapshot().output_interlock_threshold
    }

    /// The reflected threshold that was last programmed, in micro-dBm.
    pub fn get_reflected_interlock_threshold(&self) -> (threshold: i32)
        ensures
            threshold == self@.reflected_interlock_threshold,
    {
        self.snapshot().reflected_interlock_threshold
    }

    /// The voltage that the bias converter was last set to, in millivolts.
    /// The converter cannot be read back.
    pub fn get_bias_voltage(&self) -> (millivolts: i32)
        ensures
            millivolts == self@.bias_voltage,
    {
        self.snapshot().bias_voltage
    }

    /// The settings in use.
    pub fn get_settings(&self) -> (settings: BoosterChannelData)
        ensures
            settings == self@.settings,
    {
        self.snapshot().settings
    }

    /// Takes a snapshot of the channel: one reading of the sense lines and
    /// of every measurement, together with the thresholds, the bias and
    /// the state that follows from them.
    pub fn get_status<A: SampleConverter>(&mut self, adc: &mut A) -> (result: Result<
        ChannelStatus,
        Error,
    >)
        ensures
            final(self)@ == old(self)@,
            final(self).analog() == old(self).analog(),
            result matches Ok(status) ==> status.taken_of(old(self)@, final(self).sensed()),
            result matches Err(error) ==> error == Error::Bounds || error == Error::Interface,
    {
        let sense = self.pins.sense();
        let temperature = match self.get_temperature() {
            Ok(temperature) => temperature,
            Err(error) => {
                return Err(error);
            },
        };
        let supply = match self.get_power_measurements() {
            Ok(supply) => supply,
            Err(error) => {
                return Err(error);
            },
        };
        let measured = self.get_input_power();
        let input_power = match measured {
            Ok(power) => power,
            Err(error) => {
                return Err(error);
            },
        };
        let reflected_power = self.get_reflected_power(adc);
        let output_power = self.get_output_power(adc);
        let state = self.snapshot();
        let status = ChannelStatus::assemble(
            &state,
            sense,
            temperature,
            supply,
            input_power,
            reflected_power,
            output_power,
        );
        proof {
            let (p5v, p28v_sense, p5v_sense) = choose|p5v: u16, p28v_sense: u16, p5v_sense: u16|
                supply == #[trigger] PowerMeasurements::spec_from_sense(p5v, p28v_sense, p5v_sense);
            let answer = choose|answer: Result<u16, DeviceFault>|
                measured == #[trigger] state.spec_input_power(answer);
            let input = answer->Ok_0;
            let reflected = choose|sample: u16|
                reflected_power == #[trigger] state.spec_reflected_power(sample);
            let output = choose|sample: u16|
                output_power == #[trigger] state.spec_output_power(sample);
            assert(status == ChannelStatus::spec_assemble(
                state,
                sense,
                temperature,
                PowerMeasurements::spec_from_sense(p5v, p28v_sense, p5v_sense),
                state.spec_input_reading(input),
                state.spec_reflected_reading(reflected),
                state.spec_output_reading(output),
            ));
        }
        Ok(status)
    }

    /// Writes the settings in use to the channel's storage.
    pub fn save_configuration(&mut self) -> (result: Result<(), Error>)
        ensures
            final(self)@ == old(self)@,
            final(self).analog() == old(self).analog(),
            final(self).sensed() == old(self).sensed(),
            exists|answer: Result<(), DeviceFault>|
                result == #[trigger] Error::spec_surface(answer),
    {
        let data = self.snapshot().settings;
        BoosterChannelSettings::<S>::persist(&mut self.eeprom, &data)
    }

    /// Reads a property of the channel.
    pub fn get_property(&self, property: PropertyId) -> (value: Property)
        ensures
            value == self@.property(property),
    {
        self.snapshot().get_property(property)
    }

    /// Writes a property of the channel.
    ///
    /// A calibration replaces the one in use as a whole, and the write
    /// cannot fail. Interlock thresholds are programmed as by
    /// [`Self::set_interlock_thresholds`]; of two failures that of the
    /// output threshold is reported.
    pub fn set_property(&mut self, property: Property) -> (result: Result<(), Error>)
        ensures
            final(self).analog() == old(self).analog(),
            final(self).sensed() == old(self).sensed(),
            match property {
                Property::InterlockThresholds(thresholds) => exists|results: ThresholdResults|
                    {
                        &&& result == #[trigger] results.spec_combined()
                        &&& final(self)@ == old(self)@.with_thresholds(
                            results,
                            thresholds.output,
                            thresholds.reflected,
                        )
                    },
                _ => result is Ok && final(self)@ == old(self)@.with_transform(property),
            },
            result matches Err(error) ==> error == Error::Bounds || error == Error::Interface,
    {
        match property {
            Property::InterlockThresholds(thresholds) => {
                let results = self.set_interlock_thresholds(
                    thresholds.output,
                    thresholds.reflected,
                );
                results.combined()
            },
            _ => {
                let after = self.snapshot().transform_replaced(property);
                self.adopt(after);
                Ok(())
            },
        }
    }
}

} // verus!
