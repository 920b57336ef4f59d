use std::cell::RefCell;
use std::rc::Rc;

use booster::booster_channels::{BoosterChannels, Channel, ChannelResources};
use booster::error::{DeviceFault, Error};
use booster::hardware::peripherals::{
    AdcPin, BusSwitch, ControlLines, ModuleBus, MonitorInput, SampleConverter, SettleDelay,
    ThresholdDac,
};
use booster::linear_transformation::LinearTransformation;
use booster::mqtt_control::{
    handle_channel_property_read, handle_channel_property_write, handle_channel_tune,
    handle_channel_update, ChannelAction, ChannelRequest, ChannelTuneRequest,
    ChannelTuneResponse, PropertyReadRequest, PropertyWriteRequest,
};
use booster::net::mqtt_control::{read_bias, save_settings, ChannelBiasResponse};
use booster::rf_channel::{
    AnalogPins, ChannelPins, ChannelState, InterlockSense, InterlockThresholds, Property,
    PropertyId, RfChannel,
};
use booster::settings::channel_settings::{BoosterChannelData, ConfigStorage};

/// One slot of the test bench.
#[derive(Clone)]
struct Module {
    installed: bool,
    mainboard_ok: bool,
    bias_dac_fails: bool,
    threshold_dac_fails: bool,
    monitor_fails: bool,
    store_fails: bool,
    bias_dac: Option<u16>,
    reflected_dac: Option<u16>,
    output_dac: Option<u16>,
    temperature: i32,
    input_millivolts: u16,
    p5v_millivolts: u16,
    p5v_current_millivolts: u16,
    enable_power: bool,
    signal_on: bool,
    alert_low: bool,
    input_overdrive_low: bool,
    output_overdrive_low: bool,
    payload: [u8; 64],
    checksum: u32,
}

fn checksum(payload: &[u8; 64]) -> u32 {
    payload
        .iter()
        .fold(17u32, |sum, byte| sum.wrapping_mul(31).wrapping_add(*byte as u32))
}

impl Module {
    fn new(installed: bool) -> Self {
        Module {
            installed,
            mainboard_ok: true,
            bias_dac_fails: false,
            threshold_dac_fails: false,
            monitor_fails: false,
            store_fails: false,
            bias_dac: None,
            reflected_dac: None,
            output_dac: None,
            temperature: 25_000,
            input_millivolts: 700,
            p5v_millivolts: 2000,
            p5v_current_millivolts: 620,
            enable_power: true,
            signal_on: true,
            alert_low: false,
            input_overdrive_low: false,
            output_overdrive_low: false,
            payload: [0xFF; 64],
            checksum: 0,
        }
    }

    /// The drain current, in microamperes, that flows at the present bias.
    fn drain_current(&self) -> i64 {
        let bias = -(self.bias_dac.unwrap_or(3300) as i64);
        if bias <= -2500 {
            0
        } else {
            (bias + 2500) * 400
        }
    }

    /// What the monitor reads on the current sense of the 28 V rail.
    fn p28v_current_millivolts(&self) -> u16 {
        ((self.drain_current() * 4300 + 999_999) / 1_000_000) as u16
    }
}

struct Bench {
    modules: Vec<Module>,
    selected: Option<usize>,
    samples: [u16; 16],
    log: Vec<String>,
}

type Shared = Rc<RefCell<Bench>>;

fn bench(installed: [bool; 8]) -> Shared {
    Rc::new(RefCell::new(Bench {
        modules: installed.iter().map(|present| Module::new(*present)).collect(),
        selected: None,
        samples: [0; 16],
        log: Vec::new(),
    }))
}

struct Bus {
    bench: Shared,
    slot: usize,
}

impl Bus {
    fn module<T>(
        &self,
        entry: String,
        mainboard: bool,
        act: impl FnOnce(&mut Module) -> Result<T, DeviceFault>,
    ) -> Result<T, DeviceFault> {
        let mut bench = self.bench.borrow_mut();
        bench.log.push(format!("{}:{}", self.slot, entry));
        assert_eq!(bench.selected, Some(self.slot), "the bus of the slot is connected");
        let module = &mut bench.modules[self.slot];
        if mainboard {
            if !module.mainboard_ok {
                return Err(DeviceFault::Bus);
            }
        } else if !module.installed {
            return Err(DeviceFault::Bus);
        }
        act(module)
    }
}

impl ModuleBus for Bus {
    fn write_bias_dac(&mut self, millivolts: u16) -> Result<(), DeviceFault> {
        self.module(format!("bias={}", millivolts), true, |module| {
            if module.bias_dac_fails {
                return Err(DeviceFault::Bus);
            }
            if millivolts > 3300 {
                return Err(DeviceFault::Range);
            }
            module.bias_dac = Some(millivolts);
            Ok(())
        })
    }

    fn start_power_monitor(&mut self) -> Result<(), DeviceFault> {
        self.module("monitor-start".to_string(), true, |_| Ok(()))
    }

    fn read_power_monitor(&mut self, input: MonitorInput) -> Result<u16, DeviceFault> {
        self.module(format!("monitor-read={:?}", input), true, |module| {
            if module.monitor_fails {
                return Err(DeviceFault::Bus);
            }
            Ok(match input {
                MonitorInput::P28vCurrent => module.p28v_current_millivolts(),
                MonitorInput::P5vCurrent => module.p5v_current_millivolts,
                MonitorInput::P5vVoltage => module.p5v_millivolts,
            })
        })
    }

    fn set_power_monitor_window(
        &mut self,
        input: MonitorInput,
        low_millivolts: u16,
        high_millivolts: u16,
    ) -> Result<(), DeviceFault> {
        self.module(
            format!("monitor-window={:?},{},{}", input, low_millivolts, high_millivolts),
            true,
            |_| Ok(()),
        )
    }

    fn clear_power_monitor_alarm(&mut self) -> Result<(), DeviceFault> {
        self.module("monitor-clear".to_string(), true, |_| Ok(()))
    }

    fn start_threshold_dac(&mut self) -> Result<(), DeviceFault> {
        self.module("threshold-start".to_string(), false, |_| Ok(()))
    }

    fn write_threshold_dac(
        &mut self,
        dac: ThresholdDac,
        millivolts: u16,
    ) -> Result<(), DeviceFault> {
        self.module(format!("threshold={:?},{}", dac, millivolts), false, |module| {
            if module.threshold_dac_fails {
                return Err(DeviceFault::Bus);
            }
            match dac {
                ThresholdDac::Reflected => module.reflected_dac = Some(millivolts),
                ThresholdDac::Output => module.output_dac = Some(millivolts),
            }
            Ok(())
        })
    }

    fn probe_identity(&mut self) -> Result<(), DeviceFault> {
        self.module("identity".to_string(), false, |_| Ok(()))
    }

    fn read_temperature(&mut self) -> Result<i32, DeviceFault> {
        self.module("temperature".to_string(), false, |module| Ok(module.temperature))
    }

    fn read_input_power_adc(&mut self) -> Result<u16, DeviceFault> {
        self.module("input-power".to_string(), false, |module| Ok(module.input_millivolts))
    }
}

struct Lines {
    bench: Shared,
    slot: usize,
}

impl ControlLines for Lines {
    fn set_enable_power(&mut self, high: bool) {
        let mut bench = self.bench.borrow_mut();
        bench.log.push(format!("{}:enable-power={}", self.slot, high));
        bench.modules[self.slot].enable_power = high;
    }

    fn set_signal_on(&mut self, high: bool) {
        let mut bench = self.bench.borrow_mut();
        bench.log.push(format!("{}:signal-on={}", self.slot, high));
        bench.modules[self.slot].signal_on = high;
    }

    fn alert_is_low(&self) -> bool {
        self.bench.borrow().modules[self.slot].alert_low
    }

    fn input_overdrive_is_low(&self) -> bool {
        self.bench.borrow().modules[self.slot].input_overdrive_low
    }

    fn output_overdrive_is_low(&self) -> bool {
        self.bench.borrow().modules[self.slot].output_overdrive_low
    }
}

struct Storage {
    bench: Shared,
    slot: usize,
}

impl ConfigStorage for Storage {
    fn load(&mut self) -> Option<[u8; 64]> {
        let mut bench = self.bench.borrow_mut();
        bench.log.push(format!("{}:load", self.slot));
        let module = &bench.modules[self.slot];
        if checksum(&module.payload) == module.checksum {
            Some(module.payload)
        } else {
            None
        }
    }

    fn store(&mut self, payload: &[u8; 64]) -> Result<(), DeviceFault> {
        let mut bench = self.bench.borrow_mut();
        bench.log.push(format!("{}:store", self.slot));
        let module = &mut bench.modules[self.slot];
        if module.store_fails {
            return Err(DeviceFault::Bus);
        }
        module.payload = *payload;
        module.checksum = checksum(payload);
        Ok(())
    }
}

struct Mux {
    bench: Shared,
}

impl BusSwitch for Mux {
    fn select_bus(&mut self, channel: Channel) {
        let mut bench = self.bench.borrow_mut();
        bench.log.push(format!("select={}", channel.index()));
        bench.selected = Some(channel.index());
    }
}

struct Adc {
    bench: Shared,
}

impl SampleConverter for Adc {
    fn sample(&mut self, pin: AdcPin) -> u16 {
        let mut bench = self.bench.borrow_mut();
        bench.log.push(format!("sample={:?}", pin));
        bench.samples[pin as usize]
    }
}

struct Delay {
    bench: Shared,
}

impl SettleDelay for Delay {
    fn delay_us(&mut self, microseconds: u16) {
        self.bench.borrow_mut().log.push(format!("delay={}", microseconds));
    }
}

type Registry = BoosterChannels<Bus, Lines, Storage, Mux, Adc>;

const ANALOG: [(AdcPin, AdcPin); 8] = [
    (AdcPin::PA0, AdcPin::PF3),
    (AdcPin::PA1, AdcPin::PF4),
    (AdcPin::PA2, AdcPin::PF5),
    (AdcPin::PA3, AdcPin::PF6),
    (AdcPin::PC0, AdcPin::PF7),
    (AdcPin::PC1, AdcPin::PF8),
    (AdcPin::PC2, AdcPin::PF9),
    (AdcPin::PC3, AdcPin::PF10),
];

fn enumerate(bench: &Shared) -> Result<Registry, Error> {
    let mut resources = Vec::new();
    for slot in 0..8 {
        let lines = Lines { bench: bench.clone(), slot };
        let (tx, reflected) = ANALOG[slot];
        resources.push(ChannelResources {
            bus: Bus { bench: bench.clone(), slot },
            pins: ChannelPins::new(lines, AnalogPins::new(tx, reflected)),
            storage: Storage { bench: bench.clone(), slot },
        });
    }
    BoosterChannels::new(Mux { bench: bench.clone() }, Adc { bench: bench.clone() }, resources)
}

fn log_len(bench: &Shared) -> usize {
    bench.borrow().log.len()
}

fn one_channel() -> (Shared, RfChannel<Bus, Lines, Storage>) {
    let bench = bench([true, false, false, false, false, false, false, false]);
    bench.borrow_mut().selected = Some(0);
    let lines = Lines { bench: bench.clone(), slot: 0 };
    let channel = RfChannel::new(
        Bus { bench: bench.clone(), slot: 0 },
        ChannelPins::new(lines, AnalogPins::new(AdcPin::PA0, AdcPin::PF3)),
        Storage { bench: bench.clone(), slot: 0 },
    )
    .expect("the mainboard answers")
    .expect("the module answers");
    (bench, channel)
}

#[test]
fn enumeration_finds_the_installed_modules() {
    let bench = bench([true, false, true, false, false, false, false, true]);
    let registry = enumerate(&bench).unwrap();
    let found: Vec<bool> = (0..8)
        .map(|index| registry.is_present(Channel::from_index(index).unwrap()))
        .collect();
    assert_eq!(found, vec![true, false, true, false, false, false, false, true]);
}

#[test]
fn enumeration_leaves_every_channel_disabled_at_pinch_off() {
    let bench = bench([true; 8]);
    let mut registry = enumerate(&bench).unwrap();
    for index in 0..8 {
        let channel = Channel::from_index(index).unwrap();
        assert_eq!(registry.get_channel_state(channel), Ok(ChannelState::Disabled));
        let module = bench.borrow().modules[index].clone();
        assert!(!module.enable_power);
        assert!(!module.signal_on);
        assert_eq!(module.bias_dac, Some(3300));
    }
}

#[test]
fn enumeration_selects_each_bus_before_it_probes() {
    let bench = bench([true, false, false, false, false, false, false, false]);
    enumerate(&bench).unwrap();
    let log = bench.borrow().log.clone();
    for slot in 0..8 {
        let select = log.iter().position(|entry| entry == &format!("select={}", slot)).unwrap();
        let first = log
            .iter()
            .position(|entry| entry.starts_with(&format!("{}:bias", slot)))
            .unwrap();
        assert!(select < first);
    }
    // An empty slot is given up at the first module device that stays silent.
    assert!(!log.contains(&"1:identity".to_string()));
    assert!(log.contains(&"1:threshold-start".to_string()));
}

#[test]
fn enumeration_programs_the_factory_thresholds_and_alert_windows() {
    let bench = bench([true, false, false, false, false, false, false, false]);
    enumerate(&bench).unwrap();
    let module = bench.borrow().modules[0].clone();
    // (0 + 5_800_000) / 28571 = 203 and (0 + 5_800_000) / 42857 = 135
    assert_eq!(module.output_dac, Some(203));
    assert_eq!(module.reflected_dac, Some(135));
    let log = bench.borrow().log.clone();
    assert!(log.contains(&"0:monitor-window=P5vVoltage,1800,2200".to_string()));
    assert!(log.contains(&"0:monitor-window=P28vCurrent,0,2150".to_string()));
    assert!(log.contains(&"0:monitor-window=P5vCurrent,0,1860".to_string()));
    assert!(log.contains(&"0:monitor-clear".to_string()));
}

#[test]
fn a_failing_mainboard_device_ends_the_enumeration() {
    let bench = bench([true; 8]);
    bench.borrow_mut().modules[5].mainboard_ok = false;
    assert!(matches!(enumerate(&bench), Err(Error::Interface)));
}

#[test]
fn every_operation_on_an_empty_slot_is_refused_without_a_transaction() {
    let bench = bench([true, true, true, false, true, true, true, true]);
    let mut registry = enumerate(&bench).unwrap();
    let mut delay = Delay { bench: bench.clone() };
    let before = log_len(&bench);
    let absent = Channel::Three;
    assert_eq!(registry.enable_channel(absent), Err(Error::NotPresent));
    assert_eq!(registry.power_channel(absent), Err(Error::NotPresent));
    assert_eq!(registry.disable_channel(absent), Err(Error::NotPresent));
    assert_eq!(registry.get_temperature(absent), Err(Error::NotPresent));
    assert_eq!(registry.set_bias(absent, -1600, &mut delay), Err(Error::NotPresent));
    assert_eq!(registry.tune_channel(absent, 100_000, &mut delay), Err(Error::NotPresent));
    assert_eq!(registry.get_channel_state(absent), Err(Error::NotPresent));
    assert!(matches!(registry.get_status(absent), Err(Error::NotPresent)));
    assert_eq!(registry.save_configuration(absent), Err(Error::NotPresent));
    assert_eq!(
        registry.read_property(absent, PropertyId::InterlockThresholds),
        Err(Error::NotPresent)
    );
    assert_eq!(
        registry.write_property(
            absent,
            Property::InputPowerTransform(LinearTransformation::new(1, 2))
        ),
        Err(Error::NotPresent)
    );
    let called = registry.map_channel(absent, |_, _| -> Result<(), Error> {
        panic!("an empty slot has no channel to work on")
    });
    assert_eq!(called, Err(Error::NotPresent));
    assert_eq!(log_len(&bench), before);
}

#[test]
fn a_failed_probe_and_a_bias_that_survives_a_restart() {
    let bench = bench([true, true, true, false, true, true, true, true]);
    let mut registry = enumerate(&bench).unwrap();
    let mut delay = Delay { bench: bench.clone() };
    assert_eq!(registry.enable_channel(Channel::Three), Err(Error::NotPresent));

    let (vgs, _) = registry.set_bias(Channel::Zero, -1600, &mut delay).unwrap();
    assert_eq!(vgs, -1600);
    assert_eq!(registry.get_status(Channel::Zero).unwrap().bias_voltage, -1600);
    assert_eq!(registry.save_configuration(Channel::Zero), Ok(()));

    // A restart enumerates the same hardware again.
    let mut restarted = enumerate(&bench).unwrap();
    assert_eq!(restarted.get_status(Channel::Zero).unwrap().bias_voltage, -3300);
    assert_eq!(restarted.power_channel(Channel::Zero), Ok(()));
    assert_eq!(restarted.get_status(Channel::Zero).unwrap().bias_voltage, -1600);
    assert_eq!(bench.borrow().modules[0].bias_dac, Some(1600));
    // The other channels still hold the factory bias.
    assert_eq!(restarted.power_channel(Channel::One), Ok(()));
    assert_eq!(restarted.get_status(Channel::One).unwrap().bias_voltage, -3200);
}

#[test]
fn a_sweep_trips_the_overdriven_channel_and_no_other() {
    let bench = bench([true, true, false, false, false, false, false, false]);
    let mut registry = enumerate(&bench).unwrap();
    let mut delay = Delay { bench: bench.clone() };
    for channel in [Channel::Zero, Channel::One] {
        registry.set_bias(channel, -1600, &mut delay).unwrap();
        registry.enable_channel(channel).unwrap();
        assert_eq!(registry.get_channel_state(channel), Ok(ChannelState::Enabled));
    }
    bench.borrow_mut().modules[0].output_overdrive_low = true;
    assert_eq!(registry.get_channel_state(Channel::Zero), Ok(ChannelState::Tripped));

    registry.update();

    assert_eq!(registry.get_channel_state(Channel::Zero), Ok(ChannelState::Disabled));
    assert_eq!(registry.get_status(Channel::Zero).unwrap().bias_voltage, -3300);
    let tripped = bench.borrow().modules[0].clone();
    assert!(!tripped.enable_power);
    assert!(!tripped.signal_on);
    assert_eq!(tripped.bias_dac, Some(3300));

    assert_eq!(registry.get_channel_state(Channel::One), Ok(ChannelState::Enabled));
    assert_eq!(registry.get_status(Channel::One).unwrap().bias_voltage, -1600);
    let quiet = bench.borrow().modules[1].clone();
    assert!(quiet.enable_power);
    assert!(quiet.signal_on);
    assert_eq!(quiet.bias_dac, Some(1600));
}

#[test]
fn a_sweep_trips_on_each_sense_line() {
    for line in 0..3 {
        let bench = bench([true; 8]);
        let mut registry = enumerate(&bench).unwrap();
        registry.power_channel(Channel::Four).unwrap();
        {
            let module = &mut bench.borrow_mut().modules[4];
            match line {
                0 => module.alert_low = true,
                1 => module.input_overdrive_low = true,
                _ => module.output_overdrive_low = true,
            }
        }
        registry.update();
        assert_eq!(registry.get_channel_state(Channel::Four), Ok(ChannelState::Disabled));
        assert!(!bench.borrow().modules[4].enable_power);
    }
}

#[test]
fn a_sweep_passes_over_empty_slots_and_goes_on_after_a_failure() {
    let bench = bench([true, false, true, false, false, false, false, false]);
    let mut registry = enumerate(&bench).unwrap();
    registry.power_channel(Channel::Zero).unwrap();
    registry.power_channel(Channel::Two).unwrap();
    {
        let mut bench = bench.borrow_mut();
        bench.modules[0].alert_low = true;
        bench.modules[0].bias_dac_fails = true;
        bench.modules[2].alert_low = true;
    }
    let before = log_len(&bench);
    registry.update();
    // The failing converter of channel 0 keeps neither its own lines from
    // going low nor the sweep from reaching channel 2.
    assert!(!bench.borrow().modules[0].enable_power);
    assert!(!bench.borrow().modules[2].enable_power);
    assert_eq!(bench.borrow().modules[2].bias_dac, Some(3300));
    let log = bench.borrow().log[before..].to_vec();
    assert!(!log.iter().any(|entry| entry == "select=1" || entry.starts_with("1:")));
}

#[test]
fn a_sweep_does_not_touch_a_quiet_channel() {
    let bench = bench([true; 8]);
    let mut registry = enumerate(&bench).unwrap();
    registry.enable_channel(Channel::Six).unwrap();
    let before = log_len(&bench);
    registry.update();
    let log = bench.borrow().log[before..].to_vec();
    assert!(log.iter().all(|entry| entry.starts_with("select=")));
    assert_eq!(log.len(), 8);
}

#[test]
fn set_bias_round_trips_within_the_range() {
    let (bench, mut channel) = one_channel();
    for bias in [-3300, -3000, -1600, -1, 0] {
        assert_eq!(channel.set_bias(bias), Ok(()));
        assert_eq!(channel.get_bias_voltage(), bias);
        assert_eq!(channel.get_settings().bias_voltage, bias);
        // The converter works against a negative rail.
        assert_eq!(bench.borrow().modules[0].bias_dac, Some((-bias) as u16));
    }
}

#[test]
fn set_bias_outside_the_range_is_refused_and_changes_nothing() {
    let (bench, mut channel) = one_channel();
    channel.set_bias(-1600).unwrap();
    let before = log_len(&bench);
    for bias in [-3301, 1, 3300, i32::MIN, i32::MAX] {
        assert_eq!(channel.set_bias(bias), Err(Error::Bounds));
        assert_eq!(channel.get_bias_voltage(), -1600);
        assert_eq!(channel.get_settings().bias_voltage, -1600);
    }
    assert_eq!(log_len(&bench), before);
    assert_eq!(bench.borrow().modules[0].bias_dac, Some(1600));
}

#[test]
fn a_failing_bias_converter_is_an_interface_error_and_changes_nothing() {
    let (bench, mut channel) = one_channel();
    channel.set_bias(-1600).unwrap();
    bench.borrow_mut().modules[0].bias_dac_fails = true;
    assert_eq!(channel.set_bias(-2000), Err(Error::Interface));
    assert_eq!(channel.get_bias_voltage(), -1600);
    assert_eq!(channel.start_powerup(true), Err(Error::Interface));
    assert_eq!(channel.get_state(), ChannelState::Disabled);
    assert!(!bench.borrow().modules[0].enable_power);
}

#[test]
fn disable_always_ends_at_pinch_off_with_both_lines_low() {
    for prior in 0..3 {
        let (bench, mut channel) = one_channel();
        channel.set_bias(-1600).unwrap();
        match prior {
            0 => {}
            1 => channel.start_powerup(false).unwrap(),
            _ => channel.start_powerup(true).unwrap(),
        }
        assert_eq!(channel.disable(), Ok(()));
        let once = (
            channel.get_bias_voltage(),
            channel.get_state(),
            bench.borrow().modules[0].clone(),
        );
        assert_eq!(once.0, -3300);
        assert_eq!(once.1, ChannelState::Disabled);
        assert!(!once.2.enable_power);
        assert!(!once.2.signal_on);
        assert_eq!(once.2.bias_dac, Some(3300));

        // Disabling once more writes pinch-off again and ends in the same state.
        let before = log_len(&bench);
        assert_eq!(channel.disable(), Ok(()));
        assert!(bench.borrow().log[before..].contains(&"0:bias=3300".to_string()));
        assert_eq!(channel.get_bias_voltage(), once.0);
        assert_eq!(channel.get_state(), once.1);
        let twice = bench.borrow().modules[0].clone();
        assert_eq!(twice.enable_power, once.2.enable_power);
        assert_eq!(twice.signal_on, once.2.signal_on);
        assert_eq!(twice.bias_dac, once.2.bias_dac);
        // The configured bias is kept for the next power-up.
        assert_eq!(channel.get_settings().bias_voltage, -1600);
    }
}

#[test]
fn disable_lowers_the_lines_even_if_the_converter_fails() {
    let (bench, mut channel) = one_channel();
    channel.set_bias(-1600).unwrap();
    channel.start_powerup(true).unwrap();
    bench.borrow_mut().modules[0].bias_dac_fails = true;
    assert_eq!(channel.disable(), Err(Error::Interface));
    assert!(!bench.borrow().modules[0].enable_power);
    assert!(!bench.borrow().modules[0].signal_on);
    assert_eq!(channel.get_bias_voltage(), -3300);
    assert_eq!(channel.get_state(), ChannelState::Disabled);
    // The signal line goes low before the power line.
    let log = bench.borrow().log.clone();
    let signal = log.iter().rposition(|entry| entry == "0:signal-on=false").unwrap();
    let power = log.iter().rposition(|entry| entry == "0:enable-power=false").unwrap();
    assert!(signal < power);
}

#[test]
fn the_state_follows_the_lines_and_the_bias() {
    let (bench, mut channel) = one_channel();
    assert_eq!(channel.get_state(), ChannelState::Disabled);
    assert!(!channel.is_enabled());

    // With the factory bias, which is pinched off, the output cannot be live.
    channel.start_powerup(true).unwrap();
    assert_eq!(channel.get_bias_voltage(), -3200);
    assert_eq!(channel.get_state(), ChannelState::Powered);
    assert!(!channel.is_enabled());
    channel.disable().unwrap();

    channel.set_bias(-1600).unwrap();
    assert_eq!(channel.get_state(), ChannelState::Disabled);
    channel.start_powerup(false).unwrap();
    assert_eq!(channel.get_state(), ChannelState::Powered);
    assert!(bench.borrow().modules[0].enable_power);
    assert!(!bench.borrow().modules[0].signal_on);
    channel.start_powerup(true).unwrap();
    assert_eq!(channel.get_state(), ChannelState::Enabled);
    assert!(channel.is_enabled());
    assert!(bench.borrow().modules[0].signal_on);
    channel.start_powerup(false).unwrap();
    assert_eq!(channel.get_state(), ChannelState::Powered);

    bench.borrow_mut().modules[0].input_overdrive_low = true;
    assert_eq!(channel.get_state(), ChannelState::Tripped);
    assert!(channel.is_overdriven());
    assert!(!channel.is_alarmed());
    assert_eq!(channel.update(), Ok(()));
    assert_eq!(channel.get_state(), ChannelState::Disabled);
    bench.borrow_mut().modules[0].input_overdrive_low = false;
    bench.borrow_mut().modules[0].alert_low = true;
    assert!(channel.is_alarmed());
    assert!(!channel.is_overdriven());
    assert_eq!(channel.get_state(), ChannelState::Disabled);
}

#[test]
fn bias_at_the_edge_of_pinch_off_does_not_enable() {
    let (_bench, mut channel) = one_channel();
    channel.set_bias(-3000).unwrap();
    channel.start_powerup(true).unwrap();
    assert_eq!(channel.get_state(), ChannelState::Powered);
    channel.set_bias(-2999).unwrap();
    assert_eq!(channel.get_state(), ChannelState::Enabled);
}

#[test]
fn the_staged_enable_is_not_implemented() {
    let (bench, mut channel) = one_channel();
    let before = log_len(&bench);
    assert_eq!(channel.enable(), Err(Error::NotImplemented));
    assert_eq!(log_len(&bench), before);
    assert_eq!(channel.get_state(), ChannelState::Disabled);
}

#[test]
fn thresholds_are_converted_by_the_calibration_of_their_own_detector() {
    let (bench, mut channel) = one_channel();
    let results = channel.set_interlock_thresholds(30_000_000, 20_000_000);
    assert_eq!(results.output, Ok(()));
    assert_eq!(results.reflected, Ok(()));
    // (30_000_000 + 5_800_000) / 28571 = 1253.01...
    assert_eq!(bench.borrow().modules[0].output_dac, Some(1253));
    // (20_000_000 + 5_800_000) / 42857 = 602.002...
    assert_eq!(bench.borrow().modules[0].reflected_dac, Some(602));
    assert_eq!(channel.get_output_interlock_threshold(), 30_000_000);
    assert_eq!(channel.get_reflected_interlock_threshold(), 20_000_000);
    assert_eq!(channel.get_settings().output_interlock_threshold, 30_000_000);
    assert_eq!(channel.get_settings().reflected_interlock_threshold, 20_000_000);
}

#[test]
fn each_threshold_fails_on_its_own() {
    let (bench, mut channel) = one_channel();
    channel.set_interlock_thresholds(10_000_000, 10_000_000);
    // 100 dBm is beyond the converter on the output path only:
    // (100_000_000 + 5_800_000) / 28571 = 3703 > 2500
    // (100_000_000 + 5_800_000) / 42857 = 2468
    let results = channel.set_interlock_thresholds(100_000_000, 100_000_000);
    assert_eq!(results.output, Err(Error::Bounds));
    assert_eq!(results.reflected, Ok(()));
    assert_eq!(results.combined(), Err(Error::Bounds));
    assert_eq!(channel.get_output_interlock_threshold(), 10_000_000);
    assert_eq!(channel.get_reflected_interlock_threshold(), 100_000_000);
    assert_eq!(bench.borrow().modules[0].reflected_dac, Some(2468));
    // (10_000_000 + 5_800_000) / 28571 = 553
    assert_eq!(bench.borrow().modules[0].output_dac, Some(553));

    // A threshold below what the detector can report is out of bounds too.
    let results = channel.set_interlock_thresholds(0, -5_900_000);
    assert_eq!(results.output, Ok(()));
    assert_eq!(results.reflected, Err(Error::Bounds));
    assert_eq!(channel.get_reflected_interlock_threshold(), 100_000_000);
    assert_eq!(channel.get_output_interlock_threshold(), 0);
}

#[test]
fn the_ends_of_the_threshold_converter_are_in_range() {
    let (bench, mut channel) = one_channel();
    channel
        .set_property(Property::OutputPowerTransform(LinearTransformation::new(1000, 0)))
        .unwrap();
    assert_eq!(channel.set_interlock_thresholds(2_500_000, 0).output, Ok(()));
    assert_eq!(bench.borrow().modules[0].output_dac, Some(2500));
    assert_eq!(channel.set_interlock_thresholds(0, 0).output, Ok(()));
    assert_eq!(bench.borrow().modules[0].output_dac, Some(0));
    assert_eq!(channel.set_interlock_thresholds(2_501_000, 0).output, Err(Error::Bounds));
    assert_eq!(channel.set_interlock_thresholds(-1000, 0).output, Err(Error::Bounds));
    assert_eq!(bench.borrow().modules[0].output_dac, Some(0));
}

#[test]
fn a_failing_threshold_converter_is_an_interface_error() {
    let (bench, mut channel) = one_channel();
    bench.borrow_mut().modules[0].threshold_dac_fails = true;
    let results = channel.set_interlock_thresholds(10_000_000, 10_000_000);
    assert_eq!(results.output, Err(Error::Interface));
    assert_eq!(results.reflected, Err(Error::Interface));
    assert_eq!(channel.get_output_interlock_threshold(), 0);
    assert_eq!(channel.get_reflected_interlock_threshold(), 0);
}

#[test]
fn a_calibration_without_inverse_puts_thresholds_out_of_bounds() {
    let (bench, mut channel) = one_channel();
    channel
        .set_property(Property::ReflectedPowerTransform(LinearTransformation::new(0, 0)))
        .unwrap();
    let before = log_len(&bench);
    let results = channel.set_interlock_thresholds(100_000_000, 0);
    assert_eq!(results.reflected, Err(Error::Bounds));
    assert_eq!(results.output, Err(Error::Bounds));
    assert_eq!(log_len(&bench), before);
}

#[test]
fn measurements_apply_the_calibration_to_the_voltage() {
    let (bench, mut channel) = one_channel();
    let mut adc = Adc { bench: bench.clone() };
    assert_eq!(channel.get_temperature(), Ok(25_000));
    // 42857 * 700 - 26_700_000
    assert_eq!(channel.get_input_power(), Ok(3_299_900));
    bench.borrow_mut().samples[AdcPin::PA0 as usize] = 1241;
    bench.borrow_mut().samples[AdcPin::PF3 as usize] = 4095;
    // 1241 * 3300 / 4095 = 1000; 28571 * 1000 - 5_800_000
    assert_eq!(channel.get_output_power(&mut adc), 22_771_000);
    // 4095 * 3300 / 4095 = 3300; 42857 * 3300 - 5_800_000
    assert_eq!(channel.get_reflected_power(&mut adc), 135_628_100);
    let log = bench.borrow().log.clone();
    assert!(log.contains(&"sample=PA0".to_string()));
    assert!(log.contains(&"sample=PF3".to_string()));
}

#[test]
fn supply_measurements_are_scaled_by_the_fixed_geometry() {
    let (_bench, mut channel) = one_channel();
    channel.set_bias(-1600).unwrap();
    // 900 * 400 = 360_000 uA flow; the monitor reads 1548 mV.
    let measured = channel.get_power_measurements().unwrap();
    assert_eq!(measured.v_p5v0mp, 5000);
    assert_eq!(measured.i_p28v0ch, 360_000);
    assert_eq!(measured.i_p5v0ch, 100_000);
    assert_eq!(channel.get_p28v_current(), Ok(360_000));
}

#[test]
fn a_failing_monitor_is_an_interface_error() {
    let (bench, mut channel) = one_channel();
    let mut adc = Adc { bench: bench.clone() };
    bench.borrow_mut().modules[0].monitor_fails = true;
    assert_eq!(channel.get_power_measurements(), Err(Error::Interface));
    assert_eq!(channel.get_p28v_current(), Err(Error::Interface));
    assert!(matches!(channel.get_status(&mut adc), Err(Error::Interface)));
}

#[test]
fn the_status_is_a_snapshot_of_everything() {
    let bench = bench([true; 8]);
    let mut registry = enumerate(&bench).unwrap();
    let mut delay = Delay { bench: bench.clone() };
    registry.set_bias(Channel::Seven, -1600, &mut delay).unwrap();
    registry.enable_channel(Channel::Seven).unwrap();
    registry
        .write_property(
            Channel::Seven,
            Property::InterlockThresholds(InterlockThresholds {
                output: 30_000_000,
                reflected: 20_000_000,
            }),
        )
        .unwrap();
    bench.borrow_mut().samples[AdcPin::PC3 as usize] = 1241;
    bench.borrow_mut().samples[AdcPin::PF10 as usize] = 2482;
    bench.borrow_mut().modules[7].alert_low = true;
    let status = registry.get_status(Channel::Seven).unwrap();
    assert!(status.alert);
    assert!(!status.input_overdrive);
    assert!(!status.output_overdrive);
    assert_eq!(status.temperature, 25_000);
    assert_eq!(status.p28v_current, 360_000);
    assert_eq!(status.p5v_current, 100_000);
    assert_eq!(status.p5v_voltage, 5000);
    assert_eq!(status.input_power, 3_299_900);
    assert_eq!(status.output_power, 22_771_000);
    // 2482 * 3300 / 4095 = 2000; 42857 * 2000 - 5_800_000
    assert_eq!(status.reflected_power, 79_914_000);
    assert_eq!(status.output_overdrive_threshold, 30_000_000);
    assert_eq!(status.reflected_overdrive_threshold, 20_000_000);
    assert_eq!(status.bias_voltage, -1600);
    assert_eq!(status.state, ChannelState::Tripped);
}

#[test]
fn properties_are_read_as_they_were_written() {
    let bench = bench([true; 8]);
    let mut registry = enumerate(&bench).unwrap();
    let channel = Channel::Two;
    assert_eq!(
        registry.read_property(channel, PropertyId::InterlockThresholds),
        Ok(Property::InterlockThresholds(InterlockThresholds { output: 0, reflected: 0 }))
    );
    assert_eq!(
        registry.read_property(channel, PropertyId::OutputPowerTransform),
        Ok(Property::OutputPowerTransform(LinearTransformation::new(28571, -5_800_000)))
    );
    let written = [
        Property::InputPowerTransform(LinearTransformation::new(11, -12)),
        Property::OutputPowerTransform(LinearTransformation::new(21000, -22)),
        Property::ReflectedPowerTransform(LinearTransformation::new(31000, -32)),
        Property::InterlockThresholds(InterlockThresholds {
            output: 1_000_000,
            reflected: 2_000_000,
        }),
    ];
    for property in written {
        assert_eq!(registry.write_property(channel, property), Ok(()));
    }
    for property in written {
        assert_eq!(registry.read_property(channel, property.id()), Ok(property));
    }
    // No other channel has changed.
    assert_eq!(
        registry.read_property(Channel::One, PropertyId::InputPowerTransform),
        Ok(Property::InputPowerTransform(LinearTransformation::new(42857, -26_700_000)))
    );
}

#[test]
fn saved_settings_hold_every_property() {
    let bench = bench([true; 8]);
    let mut registry = enumerate(&bench).unwrap();
    let mut delay = Delay { bench: bench.clone() };
    let channel = Channel::Five;
    registry
        .write_property(
            channel,
            Property::OutputPowerTransform(LinearTransformation::new(30000, -6_000_000)),
        )
        .unwrap();
    registry
        .write_property(
            channel,
            Property::InterlockThresholds(InterlockThresholds {
                output: 10_000_000,
                reflected: 5_000_000,
            }),
        )
        .unwrap();
    registry.set_bias(channel, -2000, &mut delay).unwrap();
    registry.save_configuration(channel).unwrap();

    let stored = BoosterChannelData::deserialize(&bench.borrow().modules[5].payload).unwrap();
    assert_eq!(stored.bias_voltage, -2000);
    assert_eq!(stored.output_interlock_threshold, 10_000_000);
    assert_eq!(stored.reflected_interlock_threshold, 5_000_000);
    assert_eq!(stored.output_power_transform, LinearTransformation::new(30000, -6_000_000));

    let mut restarted = enumerate(&bench).unwrap();
    assert_eq!(
        restarted.read_property(channel, PropertyId::InterlockThresholds),
        Ok(Property::InterlockThresholds(InterlockThresholds {
            output: 10_000_000,
            reflected: 5_000_000,
        }))
    );
    // (10_000_000 + 6_000_000) / 30000 = 533
    assert_eq!(bench.borrow().modules[5].output_dac, Some(533));
}

#[test]
fn a_failing_store_is_reported_and_changes_nothing() {
    let (bench, mut channel) = one_channel();
    channel.set_bias(-1600).unwrap();
    bench.borrow_mut().modules[0].store_fails = true;
    assert_eq!(channel.save_configuration(), Err(Error::Interface));
    assert_eq!(channel.get_settings().bias_voltage, -1600);
}

#[test]
fn set_bias_on_the_registry_waits_and_measures() {
    let bench = bench([true; 8]);
    let mut registry = enumerate(&bench).unwrap();
    let mut delay = Delay { bench: bench.clone() };
    let before = log_len(&bench);
    assert_eq!(registry.set_bias(Channel::One, -1600, &mut delay), Ok((-1600, 360_000)));
    let log = bench.borrow().log[before..].to_vec();
    assert_eq!(
        log,
        vec![
            "select=1".to_string(),
            "1:bias=1600".to_string(),
            "delay=11000".to_string(),
            "1:monitor-read=P28vCurrent".to_string(),
        ]
    );
    assert_eq!(registry.set_bias(Channel::One, -3301, &mut delay), Err(Error::Bounds));
    assert_eq!(registry.get_status(Channel::One).unwrap().bias_voltage, -1600);
}

#[test]
fn tuning_finds_the_bias_for_a_drain_current() {
    let bench = bench([true; 8]);
    let mut registry = enumerate(&bench).unwrap();
    let mut delay = Delay { bench: bench.clone() };
    // The bench draws 400 uA per millivolt above -2500 mV.
    // Rising in steps of 20 mV from -3300 mV, -2240 mV is the first bias
    // that draws at least 100 mA (104 mA); ten steps of 1 mV down end at
    // -2250 mV, which draws exactly 100 mA.
    assert_eq!(registry.tune_channel(Channel::Zero, 100_000, &mut delay), Ok((-2250, 100_000)));
    assert_eq!(bench.borrow().modules[0].bias_dac, Some(2250));
    assert_eq!(registry.get_status(Channel::Zero).unwrap().bias_voltage, -2250);
    let settles = bench.borrow().log.iter().filter(|entry| *entry == "delay=11000").count();
    assert_eq!(settles, 54 + 10);
}

#[test]
fn tuning_stops_after_twenty_steps_down() {
    let bench = bench([true; 8]);
    let mut registry = enumerate(&bench).unwrap();
    let mut delay = Delay { bench: bench.clone() };
    // A target of 1 uA is met at the first bias above -2500 mV, that is
    // at -2480 mV with 8 mA. Twenty steps down end at -2500 mV, where no
    // current flows.
    assert_eq!(registry.tune_channel(Channel::Zero, 1, &mut delay), Ok((-2500, 0)));
    // A target of 7.9 mA is met at -2480 mV too; the first step down, to
    // 7.6 mA, is already below it. The monitor resolves 1 mV, so that the
    // current reads as 33 mV * 1_000_000 / 4300.
    assert_eq!(registry.tune_channel(Channel::Zero, 7_900, &mut delay), Ok((-2481, 7_674)));
}

#[test]
fn tuning_refuses_a_target_out_of_range() {
    let bench = bench([true; 8]);
    let mut registry = enumerate(&bench).unwrap();
    let mut delay = Delay { bench: bench.clone() };
    let before = log_len(&bench);
    for target in [0, -1, 500_001, i32::MAX, i32::MIN] {
        assert_eq!(registry.tune_channel(Channel::Zero, target, &mut delay), Err(Error::Bounds));
    }
    let log = bench.borrow().log[before..].to_vec();
    assert!(log.iter().all(|entry| entry == "select=0"));
    assert_eq!(bench.borrow().modules[0].bias_dac, Some(3300));
}

/// A bus whose current sense reads nothing, whatever the bias.
struct Dry(Bus);

impl ModuleBus for Dry {
    fn write_bias_dac(&mut self, millivolts: u16) -> Result<(), DeviceFault> {
        self.0.write_bias_dac(millivolts)
    }

    fn start_power_monitor(&mut self) -> Result<(), DeviceFault> {
        self.0.start_power_monitor()
    }

    fn read_power_monitor(&mut self, input: MonitorInput) -> Result<u16, DeviceFault> {
        self.0.read_power_monitor(input).map(|_| 0)
    }

    fn set_power_monitor_window(
        &mut self,
        input: MonitorInput,
        low_millivolts: u16,
        high_millivolts: u16,
    ) -> Result<(), DeviceFault> {
        self.0.set_power_monitor_window(input, low_millivolts, high_millivolts)
    }

    fn clear_power_monitor_alarm(&mut self) -> Result<(), DeviceFault> {
        self.0.clear_power_monitor_alarm()
    }

    fn start_threshold_dac(&mut self) -> Result<(), DeviceFault> {
        self.0.start_threshold_dac()
    }

    fn write_threshold_dac(
        &mut self,
        dac: ThresholdDac,
        millivolts: u16,
    ) -> Result<(), DeviceFault> {
        self.0.write_threshold_dac(dac, millivolts)
    }

    fn probe_identity(&mut self) -> Result<(), DeviceFault> {
        self.0.probe_identity()
    }

    fn read_temperature(&mut self) -> Result<i32, DeviceFault> {
        self.0.read_temperature()
    }

    fn read_input_power_adc(&mut self) -> Result<u16, DeviceFault> {
        self.0.read_input_power_adc()
    }
}

#[test]
fn tuning_reaches_the_largest_target() {
    let (bench, mut channel) = one_channel();
    let mut delay = Delay { bench: bench.clone() };
    // 500 mA flow at -1250 mV, which the rising search does not hit: it
    // passes to -1240 mV and comes back in ten steps.
    assert_eq!(channel.tune(500_000, &mut delay), Ok((-1250, 500_000)));
    assert_eq!(channel.get_settings().bias_voltage, -1250);
}

#[test]
fn tuning_gives_up_at_the_ceiling_and_returns_to_pinch_off() {
    let bench = bench([true, false, false, false, false, false, false, false]);
    bench.borrow_mut().selected = Some(0);
    let mut delay = Delay { bench: bench.clone() };
    let lines = Lines { bench: bench.clone(), slot: 0 };
    let mut dry = RfChannel::new(
        Dry(Bus { bench: bench.clone(), slot: 0 }),
        ChannelPins::new(lines, AnalogPins::new(AdcPin::PA0, AdcPin::PF3)),
        Storage { bench: bench.clone(), slot: 0 },
    )
    .unwrap()
    .unwrap();
    assert_eq!(dry.tune(100_000, &mut delay), Err(Error::Bounds));
    assert_eq!(dry.get_bias_voltage(), -3300);
    assert_eq!(bench.borrow().modules[0].bias_dac, Some(3300));
    // The search went all the way up to 0 mV before it gave up.
    assert!(bench.borrow().log.contains(&"0:bias=0".to_string()));
}

#[test]
fn tuning_ends_at_once_when_a_device_fails() {
    let (bench, mut channel) = one_channel();
    let mut delay = Delay { bench: bench.clone() };
    bench.borrow_mut().modules[0].monitor_fails = true;
    assert_eq!(channel.tune(100_000, &mut delay), Err(Error::Interface));
    assert_eq!(channel.get_bias_voltage(), -3300);
    assert_eq!(bench.borrow().modules[0].bias_dac, Some(3300));
}

#[test]
fn map_channel_hands_over_the_channel_with_its_bus_connected() {
    let bench = bench([true; 8]);
    let mut registry = enumerate(&bench).unwrap();
    let seen = registry.map_channel(Channel::Four, |channel, adc| {
        channel.set_bias(-1000)?;
        Ok(channel.get_output_power(adc))
    });
    // A count of 0 reads as 0 mV, that is, as the offset.
    assert_eq!(seen, Ok(-5_800_000));
    assert_eq!(bench.borrow().selected, Some(4));
    assert_eq!(bench.borrow().modules[4].bias_dac, Some(1000));
    assert!(bench.borrow().log.contains(&"sample=PC0".to_string()));
}

fn wire(content: &str) -> heapless::String<64> {
    let mut data = heapless::String::new();
    data.push_str(content).unwrap();
    data
}

#[test]
fn an_action_request_is_carried_out_and_confirmed() {
    let bench = bench([true, false, false, false, false, false, false, false]);
    let mut registry = enumerate(&bench).unwrap();
    let mut delay = Delay { bench: bench.clone() };
    registry.set_bias(Channel::Zero, -1600, &mut delay).unwrap();
    let steps = [
        (ChannelAction::Powerup, "Channel powered", ChannelState::Powered),
        (ChannelAction::Enable, "Channel enabled", ChannelState::Enabled),
        (ChannelAction::Save, "Configuration saved", ChannelState::Enabled),
        (ChannelAction::Disable, "Channel disabled", ChannelState::Disabled),
    ];
    for (action, confirmation, state) in steps {
        let request = ChannelRequest { channel: Channel::Zero, action };
        let response = handle_channel_update(Some(request), &mut registry);
        assert_eq!((response.code, response.msg.as_str()), (200, confirmation));
        assert_eq!(registry.get_channel_state(Channel::Zero), Ok(state));
    }
    let stored = BoosterChannelData::deserialize(&bench.borrow().modules[0].payload).unwrap();
    assert_eq!(stored.bias_voltage, -1600);
}

#[test]
fn an_action_request_that_fails_is_answered_with_the_error() {
    let bench = bench([true, false, false, false, false, false, false, false]);
    let mut registry = enumerate(&bench).unwrap();
    for action in [
        ChannelAction::Enable,
        ChannelAction::Disable,
        ChannelAction::Powerup,
        ChannelAction::Save,
    ] {
        let request = ChannelRequest { channel: Channel::One, action };
        let response = handle_channel_update(Some(request), &mut registry);
        assert_eq!((response.code, response.msg.as_str()), (400, "NotPresent"));
    }
    bench.borrow_mut().modules[0].bias_dac_fails = true;
    let request = ChannelRequest { channel: Channel::Zero, action: ChannelAction::Enable };
    let response = handle_channel_update(Some(request), &mut registry);
    assert_eq!((response.code, response.msg.as_str()), (400, "Interface"));
    assert_eq!(registry.get_channel_state(Channel::Zero), Ok(ChannelState::Disabled));
}

#[test]
fn an_undecodable_request_is_answered_and_touches_nothing() {
    let bench = bench([true; 8]);
    let mut registry = enumerate(&bench).unwrap();
    let mut delay = Delay { bench: bench.clone() };
    let before = log_len(&bench);
    let response = handle_channel_update(None, &mut registry);
    assert_eq!((response.code, response.msg.as_str()), (400, "Failed to decode data"));
    let response = handle_channel_property_read(None, &mut registry).unwrap_err();
    assert_eq!((response.code, response.msg.as_str()), (400, "Failed to decode read request"));
    let response = handle_channel_property_write(None, None, None, &mut registry);
    assert_eq!((response.code, response.msg.as_str()), (400, "Failed to decode read request"));
    let response = handle_channel_tune(None, &mut registry, &mut delay).unwrap_err();
    assert_eq!((response.code, response.msg.as_str()), (400, "Failed to decode data"));
    assert_eq!(log_len(&bench), before);
}

#[test]
fn a_property_is_written_and_read_through_the_handlers() {
    let bench = bench([true; 8]);
    let mut registry = enumerate(&bench).unwrap();
    let transform = LinearTransformation::new(30000, -6_000_000);
    let request = PropertyWriteRequest {
        channel: Channel::Two,
        prop: PropertyId::OutputPowerTransform,
        data: wire("{'scale':30.0,'offset':-6.0}"),
    };
    assert_eq!(request.json().as_str(), r#"{"scale":30.0,"offset":-6.0}"#);
    let response =
        handle_channel_property_write(Some(request), None, Some(transform), &mut registry);
    assert_eq!((response.code, response.msg.as_str()), (200, "Property update successful"));

    let request =
        PropertyReadRequest { channel: Channel::Two, prop: PropertyId::OutputPowerTransform };
    assert_eq!(
        handle_channel_property_read(Some(request), &mut registry).ok(),
        Some(Property::OutputPowerTransform(transform))
    );
    let request =
        PropertyReadRequest { channel: Channel::Two, prop: PropertyId::InputPowerTransform };
    assert_eq!(
        handle_channel_property_read(Some(request), &mut registry).ok(),
        Some(Property::InputPowerTransform(LinearTransformation::new(42857, -26_700_000)))
    );
}

#[test]
fn a_property_that_cannot_be_decoded_is_refused() {
    let bench = bench([true; 8]);
    let mut registry = enumerate(&bench).unwrap();
    let before = log_len(&bench);
    let request = PropertyWriteRequest {
        channel: Channel::Two,
        prop: PropertyId::InterlockThresholds,
        data: wire("{'scale':30.0,'offset':-6.0}"),
    };
    let transform = LinearTransformation::new(30000, -6_000_000);
    let response =
        handle_channel_property_write(Some(request), None, Some(transform), &mut registry);
    assert_eq!((response.code, response.msg.as_str()), (400, "Failed to decode property"));
    assert_eq!(log_len(&bench), before);
}

#[test]
fn property_requests_on_an_empty_slot_are_answered_with_the_error() {
    let bench = bench([false, true, true, true, true, true, true, true]);
    let mut registry = enumerate(&bench).unwrap();
    let request =
        PropertyReadRequest { channel: Channel::Zero, prop: PropertyId::InterlockThresholds };
    let response = handle_channel_property_read(Some(request), &mut registry).unwrap_err();
    assert_eq!((response.code, response.msg.as_str()), (400, "NotPresent"));
    let request = PropertyWriteRequest {
        channel: Channel::Zero,
        prop: PropertyId::InterlockThresholds,
        data: wire("{'output':1.0,'reflected':2.0}"),
    };
    let thresholds = InterlockThresholds { output: 1_000_000, reflected: 2_000_000 };
    let response =
        handle_channel_property_write(Some(request), Some(thresholds), None, &mut registry);
    assert_eq!((response.code, response.msg.as_str()), (400, "NotPresent"));
}

#[test]
fn thresholds_written_out_of_bounds_are_answered_with_the_error() {
    let bench = bench([true; 8]);
    let mut registry = enumerate(&bench).unwrap();
    let request = PropertyWriteRequest {
        channel: Channel::Zero,
        prop: PropertyId::InterlockThresholds,
        data: wire("{'output':100.0,'reflected':10.0}"),
    };
    let thresholds = InterlockThresholds { output: 100_000_000, reflected: 10_000_000 };
    let response =
        handle_channel_property_write(Some(request), Some(thresholds), None, &mut registry);
    assert_eq!((response.code, response.msg.as_str()), (400, "Bounds"));
    // The reflected threshold was programmed all the same.
    assert_eq!(
        registry.read_property(Channel::Zero, PropertyId::InterlockThresholds),
        Ok(Property::InterlockThresholds(InterlockThresholds {
            output: 0,
            reflected: 10_000_000
        }))
    );
}

#[test]
fn a_tune_request_is_answered_with_voltage_and_current() {
    let bench = bench([true, false, false, false, false, false, false, false]);
    let mut registry = enumerate(&bench).unwrap();
    let mut delay = Delay { bench: bench.clone() };
    let request = ChannelTuneRequest { channel: Channel::Zero, current: 100_000 };
    assert_eq!(
        handle_channel_tune(Some(request), &mut registry, &mut delay).ok(),
        Some(ChannelTuneResponse { code: 200, vgs: -2250, ids: 100_000 })
    );
    let request = ChannelTuneRequest { channel: Channel::Zero, current: 0 };
    let response = handle_channel_tune(Some(request), &mut registry, &mut delay).unwrap_err();
    assert_eq!((response.code, response.msg.as_str()), (400, "Bounds"));
    let request = ChannelTuneRequest { channel: Channel::One, current: 100_000 };
    let response = handle_channel_tune(Some(request), &mut registry, &mut delay).unwrap_err();
    assert_eq!((response.code, response.msg.as_str()), (400, "NotPresent"));
}

#[test]
fn the_bias_of_a_channel_is_read_with_its_current() {
    let bench = bench([true, false, false, false, false, false, false, false]);
    let mut registry = enumerate(&bench).unwrap();
    let mut delay = Delay { bench: bench.clone() };
    registry.set_bias(Channel::Zero, -1600, &mut delay).unwrap();
    assert_eq!(registry.read_bias(Channel::Zero), Ok((-1600, 360_000)));
    assert_eq!(registry.read_bias(Channel::One), Err(Error::NotPresent));

    let request = booster::net::mqtt_control::ChannelRequest { channel: Channel::Zero };
    assert_eq!(
        read_bias(&mut registry, request).ok(),
        Some(ChannelBiasResponse { vgs: -1600, ids: 360_000 })
    );
    let request = booster::net::mqtt_control::ChannelRequest { channel: Channel::One };
    let response = read_bias(&mut registry, request).unwrap_err();
    assert_eq!((response.code, response.msg.as_str()), (400, "Channel not found"));
    bench.borrow_mut().modules[0].monitor_fails = true;
    let request = booster::net::mqtt_control::ChannelRequest { channel: Channel::Zero };
    let response = read_bias(&mut registry, request).unwrap_err();
    assert_eq!((response.code, response.msg.as_str()), (400, "Interface"));
}

#[test]
fn settings_are_saved_on_request() {
    let bench = bench([true, false, false, false, false, false, false, false]);
    let mut registry = enumerate(&bench).unwrap();
    let mut delay = Delay { bench: bench.clone() };
    registry.set_bias(Channel::Zero, -1600, &mut delay).unwrap();
    let request = booster::net::mqtt_control::ChannelRequest { channel: Channel::Zero };
    let response = save_settings(&mut registry, request);
    assert_eq!((response.code, response.msg.as_str()), (200, ""));
    let stored = BoosterChannelData::deserialize(&bench.borrow().modules[0].payload).unwrap();
    assert_eq!(stored.bias_voltage, -1600);

    let request = booster::net::mqtt_control::ChannelRequest { channel: Channel::Five };
    let response = save_settings(&mut registry, request);
    assert_eq!((response.code, response.msg.as_str()), (400, "Channel not found"));
    bench.borrow_mut().modules[0].store_fails = true;
    let request = booster::net::mqtt_control::ChannelRequest { channel: Channel::Zero };
    let response = save_settings(&mut registry, request);
    assert_eq!((response.code, response.msg.as_str()), (400, "Interface"));
}

#[test]
fn a_message_under_an_unserved_topic_is_answered() {
    let response = booster::mqtt_control::handle_unexpected_topic();
    assert_eq!((response.code, response.msg.as_str()), (400, "Unexpected topic"));
}

#[test]
fn a_sweep_over_empty_slots_touches_nothing() {
    let bench = bench([false; 8]);
    let mut registry = enumerate(&bench).unwrap();
    let before = log_len(&bench);
    registry.update();
    registry.update();
    assert_eq!(log_len(&bench), before);
    for index in 0..8 {
        assert!(!registry.is_present(Channel::from_index(index).unwrap()));
    }
}

#[test]
fn the_logical_state_of_a_channel_is_read_in_one_piece() {
    let (_bench, mut channel) = one_channel();
    channel.set_bias(-1600).unwrap();
    channel.start_powerup(true).unwrap();
    let state = channel.snapshot();
    assert_eq!(state.bias_voltage, -1600);
    assert!(state.enable_power);
    assert!(state.signal_on);
    assert_eq!(state.settings, channel.get_settings());
    assert_eq!(state.output_interlock_threshold, channel.get_output_interlock_threshold());
    assert_eq!(state.reflected_interlock_threshold, channel.get_reflected_interlock_threshold());
}

const QUIET: InterlockSense =
    InterlockSense { input_overdrive: false, output_overdrive: false, alert: false };

#[test]
fn the_pins_keep_the_latest_reading_of_the_sense_lines() {
    let bench = bench([true; 8]);
    let lines = Lines { bench: bench.clone(), slot: 2 };
    let mut pins = ChannelPins::new(lines, AnalogPins::new(AdcPin::PA2, AdcPin::PF5));
    assert_eq!(pins.last_sense(), QUIET);
    assert!(!bench.borrow().modules[2].enable_power);
    assert!(!bench.borrow().modules[2].signal_on);

    bench.borrow_mut().modules[2].alert_low = true;
    bench.borrow_mut().modules[2].output_overdrive_low = true;
    // Until the lines are read, the latest reading is the one before.
    assert_eq!(pins.last_sense(), QUIET);
    let reading = pins.sense();
    assert_eq!(
        reading,
        InterlockSense { input_overdrive: false, output_overdrive: true, alert: true }
    );
    assert_eq!(pins.last_sense(), reading);

    bench.borrow_mut().modules[2].alert_low = false;
    bench.borrow_mut().modules[2].output_overdrive_low = false;
    bench.borrow_mut().modules[2].input_overdrive_low = true;
    assert_eq!(pins.sense(), InterlockSense { input_overdrive: true, ..QUIET });
    assert_eq!(pins.last_sense(), InterlockSense { input_overdrive: true, ..QUIET });
}

#[test]
fn every_query_of_the_lines_renews_the_latest_reading() {
    let (bench, mut channel) = one_channel();
    assert_eq!(channel.last_sense(), QUIET);
    bench.borrow_mut().modules[0].input_overdrive_low = true;
    assert_eq!(channel.last_sense(), QUIET);
    assert!(channel.is_overdriven());
    assert_eq!(channel.last_sense(), InterlockSense { input_overdrive: true, ..QUIET });

    bench.borrow_mut().modules[0].input_overdrive_low = false;
    bench.borrow_mut().modules[0].alert_low = true;
    assert!(channel.is_alarmed());
    assert_eq!(channel.last_sense(), InterlockSense { alert: true, ..QUIET });

    bench.borrow_mut().modules[0].alert_low = false;
    bench.borrow_mut().modules[0].output_overdrive_low = true;
    assert!(!channel.is_enabled());
    assert_eq!(channel.last_sense(), InterlockSense { output_overdrive: true, ..QUIET });

    bench.borrow_mut().modules[0].output_overdrive_low = false;
    assert_eq!(channel.get_state(), ChannelState::Disabled);
    assert_eq!(channel.last_sense(), QUIET);
}

#[test]
fn a_sweep_acts_on_the_reading_that_it_takes() {
    let (bench, mut channel) = one_channel();
    channel.set_bias(-1600).unwrap();
    channel.start_powerup(true).unwrap();

    // Quiet lines: the reading is quiet and the channel is not touched.
    let before = channel.snapshot();
    let writes = log_len(&bench);
    assert_eq!(channel.update(), Ok(()));
    assert_eq!(channel.last_sense(), QUIET);
    assert_eq!(channel.snapshot(), before);
    assert_eq!(log_len(&bench), writes);

    // A fault: the reading reports it and the channel is disabled.
    bench.borrow_mut().modules[0].alert_low = true;
    assert_eq!(channel.update(), Ok(()));
    assert_eq!(channel.last_sense(), InterlockSense { alert: true, ..QUIET });
    let mut disabled = before;
    disabled.bias_voltage = -3300;
    disabled.enable_power = false;
    disabled.signal_on = false;
    assert_eq!(channel.snapshot(), disabled);
    assert_eq!(bench.borrow().modules[0].bias_dac, Some(3300));

    // Setting the bias or powering up does not touch the reading.
    bench.borrow_mut().modules[0].alert_low = false;
    channel.set_bias(-2000).unwrap();
    channel.start_powerup(false).unwrap();
    assert_eq!(channel.last_sense(), InterlockSense { alert: true, ..QUIET });
    assert_eq!(channel.update(), Ok(()));
    assert_eq!(channel.last_sense(), QUIET);
    assert_eq!(channel.get_state(), ChannelState::Powered);
}

#[test]
fn a_sweep_that_trips_reports_the_failure_of_the_converter() {
    let (bench, mut channel) = one_channel();
    channel.set_bias(-1600).unwrap();
    channel.start_powerup(true).unwrap();
    bench.borrow_mut().modules[0].output_overdrive_low = true;
    bench.borrow_mut().modules[0].bias_dac_fails = true;
    assert_eq!(channel.update(), Err(Error::Interface));
    assert_eq!(channel.get_bias_voltage(), -3300);
    assert!(!bench.borrow().modules[0].enable_power);
    assert!(!bench.borrow().modules[0].signal_on);
    assert_eq!(channel.last_sense(), InterlockSense { output_overdrive: true, ..QUIET });
}

#[test]
fn the_status_carries_the_reading_that_it_took() {
    let (bench, mut channel) = one_channel();
    let mut adc = Adc { bench: bench.clone() };
    bench.borrow_mut().modules[0].input_overdrive_low = true;
    let status = channel.get_status(&mut adc).unwrap();
    assert!(status.input_overdrive);
    assert!(!status.output_overdrive);
    assert!(!status.alert);
    assert_eq!(channel.last_sense(), InterlockSense { input_overdrive: true, ..QUIET });
}

fn store(bench: &Shared, slot: usize, data: &BoosterChannelData) {
    let mut payload = [0u8; 64];
    data.serialize_into(&mut payload);
    let mut bench = bench.borrow_mut();
    bench.modules[slot].payload = payload;
    bench.modules[slot].checksum = checksum(&payload);
}

#[test]
fn settings_that_cannot_be_converted_cost_neither_the_channel_nor_themselves() {
    let bench = bench([true; 8]);
    // A calibration without inverse, and a threshold beyond the converter.
    let mut flat = BoosterChannelData::default();
    flat.output_power_transform = LinearTransformation::new(0, 0);
    flat.bias_voltage = -1600;
    store(&bench, 1, &flat);
    let mut high = BoosterChannelData::default();
    high.reflected_interlock_threshold = i32::MAX;
    store(&bench, 2, &high);
    let mut kept = BoosterChannelData::default();
    kept.output_interlock_threshold = 10_000_000;
    kept.bias_voltage = -1600;
    store(&bench, 3, &kept);

    let mut registry = enumerate(&bench).unwrap();
    for (slot, saved) in [(1, flat), (2, high), (3, kept)] {
        let channel = Channel::from_index(slot).unwrap();
        assert!(registry.is_present(channel));
        assert_eq!(
            registry.read_property(channel, PropertyId::OutputPowerTransform),
            Ok(Property::OutputPowerTransform(saved.output_power_transform))
        );
        assert_eq!(
            registry.read_property(channel, PropertyId::InterlockThresholds),
            Ok(Property::InterlockThresholds(InterlockThresholds {
                output: saved.output_interlock_threshold,
                reflected: saved.reflected_interlock_threshold,
            }))
        );
        // Storage still holds what was saved.
        assert_eq!(BoosterChannelData::deserialize(&bench.borrow().modules[slot].payload), Ok(saved));
        assert_eq!(registry.get_channel_state(channel), Ok(ChannelState::Disabled));
    }
    // A threshold that cannot be converted is not programmed; the other is.
    assert_eq!(bench.borrow().modules[1].output_dac, None);
    assert_eq!(bench.borrow().modules[1].reflected_dac, Some(135));
    assert_eq!(bench.borrow().modules[2].output_dac, Some(203));
    assert_eq!(bench.borrow().modules[2].reflected_dac, None);
    // (10_000_000 + 5_800_000) / 28571
    assert_eq!(bench.borrow().modules[3].output_dac, Some(553));
    // The configured bias is there for the next power-up.
    assert_eq!(registry.power_channel(Channel::One), Ok(()));
    assert_eq!(registry.get_status(Channel::One).unwrap().bias_voltage, -1600);
}

#[test]
fn a_saved_configuration_survives_a_restart_whatever_its_calibration() {
    let bench = bench([true; 8]);
    let mut registry = enumerate(&bench).unwrap();
    let mut delay = Delay { bench: bench.clone() };
    let shifted = LinearTransformation::new(28571, 1_000_000);
    registry.set_bias(Channel::Zero, -1600, &mut delay).unwrap();
    registry.write_property(Channel::Zero, Property::OutputPowerTransform(shifted)).unwrap();
    let reflected = LinearTransformation::new(40000, -6_000_000);
    registry.write_property(Channel::Zero, Property::ReflectedPowerTransform(reflected)).unwrap();
    registry.save_configuration(Channel::Zero).unwrap();

    let mut restarted = enumerate(&bench).unwrap();
    assert!(restarted.is_present(Channel::Zero));
    assert_eq!(
        restarted.read_property(Channel::Zero, PropertyId::OutputPowerTransform),
        Ok(Property::OutputPowerTransform(shifted))
    );
    assert_eq!(
        restarted.read_property(Channel::Zero, PropertyId::ReflectedPowerTransform),
        Ok(Property::ReflectedPowerTransform(reflected))
    );
    assert_eq!(
        restarted.read_property(Channel::Zero, PropertyId::InputPowerTransform),
        Ok(Property::InputPowerTransform(LinearTransformation::new(42857, -26_700_000)))
    );
    assert_eq!(restarted.power_channel(Channel::Zero), Ok(()));
    assert_eq!(restarted.get_status(Channel::Zero).unwrap().bias_voltage, -1600);
}

#[test]
fn a_threshold_converter_that_fails_leaves_the_slot_empty() {
    let bench = bench([true; 8]);
    bench.borrow_mut().modules[6].threshold_dac_fails = true;
    let registry = enumerate(&bench).unwrap();
    for index in 0..8 {
        assert_eq!(registry.is_present(Channel::from_index(index).unwrap()), index != 6);
    }
}

#[test]
fn enumeration_goes_on_after_an_empty_slot_and_after_a_fault() {
    // Empty slots at the start and in the middle keep no later slot from
    // being found.
    let bench_a = bench([false, true, false, false, true, false, true, true]);
    let registry = enumerate(&bench_a).unwrap();
    let found: Vec<bool> = (0..8)
        .map(|index| registry.is_present(Channel::from_index(index).unwrap()))
        .collect();
    assert_eq!(found, vec![false, true, false, false, true, false, true, true]);

    // A fault of the mainboard on one slot ends in an error, once every
    // slot was searched and every bias converter driven to pinch-off.
    let bench_b = bench([true; 8]);
    bench_b.borrow_mut().modules[2].monitor_fails = true;
    assert!(matches!(enumerate(&bench_b), Err(Error::Interface)));
    for slot in 0..8 {
        assert_eq!(bench_b.borrow().modules[slot].bias_dac, Some(3300));
        assert!(bench_b.borrow().log.contains(&format!("select={}", slot)));
    }
}

#[test]
fn the_registry_holds_what_each_search_came_to() {
    let bench = bench([true; 8]);
    let mut outcomes = Vec::new();
    for slot in 0..8 {
        bench.borrow_mut().selected = Some(slot);
        let lines = Lines { bench: bench.clone(), slot };
        let (tx, reflected) = ANALOG[slot];
        let found = RfChannel::new(
            Bus { bench: bench.clone(), slot },
            ChannelPins::new(lines, AnalogPins::new(tx, reflected)),
            Storage { bench: bench.clone(), slot },
        );
        outcomes.push(if slot % 3 == 0 { Ok(None) } else { found });
    }
    let before = log_len(&bench);
    let mut registry =
        BoosterChannels::from_outcomes(Mux { bench: bench.clone() }, Adc { bench: bench.clone() }, outcomes)
            .unwrap();
    assert_eq!(log_len(&bench), before);
    for index in 0..8 {
        assert_eq!(registry.is_present(Channel::from_index(index).unwrap()), index % 3 != 0);
    }
    // Each channel sits in the slot of its own resources.
    bench.borrow_mut().samples[AdcPin::PC0 as usize] = 1241;
    assert_eq!(registry.get_status(Channel::Four).unwrap().output_power, 22_771_000);
    assert_eq!(registry.get_status(Channel::Five).unwrap().output_power, -5_800_000);
}

#[test]
fn the_first_error_among_the_outcomes_ends_the_enumeration() {
    let bench = bench([true; 8]);
    let mut outcomes: Vec<Result<Option<RfChannel<Bus, Lines, Storage>>, Error>> = Vec::new();
    for slot in 0..8 {
        outcomes.push(match slot {
            3 => Err(Error::Interface),
            5 => Err(Error::Bounds),
            _ => Ok(None),
        });
    }
    let result = BoosterChannels::from_outcomes(
        Mux { bench: bench.clone() },
        Adc { bench: bench.clone() },
        outcomes,
    );
    assert!(matches!(result, Err(Error::Interface)));
}
