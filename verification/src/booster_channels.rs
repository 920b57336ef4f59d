//! The registry of the eight channels and the single way to reach them.
//!
//! The registry owns the channels, the bus multiplexer and the analog
//! converter. Every operation on a channel first connects the bus of that
//! channel and then works on that channel alone, so that the bus is never
//! shared between two channels.

use vstd::prelude::*;
use crate::error::Error;
use crate::hardware::peripherals::{
    BusSwitch,
    ControlLines,
    ModuleBus,
    SampleConverter,
    SettleDelay,
};
use crate::rf_channel::{
    BIAS_SETTLE_MICROSECONDS,
    MAXIMUM_TUNE_CURRENT,
    ChannelPins,
    ChannelState,
    ChannelStatus,
    ChannelView,
    InterlockSense,
    PowerMeasurements,
    Property,
    PropertyId,
    RfChannel,
    ThresholdResults,
};
use crate::settings::channel_settings::{BoosterChannelData, ConfigStorage};

verus! {

/// Names one of the eight channel slots.
#[derive(Clone, Copy, Debug, PartialEq, Eq, Structural)]
pub enum Channel {
    Zero,
    One,
    Two,
    Three,
    Four,
    Five,
    Six,
    Seven,
}

impl Channel {
    /// The number of the slot, which is also the number of its bus.
    pub open spec fn spec_index(self) -> int {
        match self {
            Channel::Zero => 0,
            Channel::One => 1,
            Channel::Two => 2,
            Channel::Three => 3,
            Channel::Four => 4,
            Channel::Five => 5,
            Channel::Six => 6,
            Channel::Seven => 7,
        }
    }

    /// The channel with the given number, if there is one.
    pub open spec fn spec_from_index(index: int) -> Option<Channel> {
        if index == 0 {
            Some(Channel::Zero)
        } else if index == 1 {
            Some(Channel::One)
        } else if index == 2 {
            Some(Channel::Two)
        } else if index == 3 {
            Some(Channel::Three)
        } else if index == 4 {
            Some(Channel::Four)
        } else if index == 5 {
            Some(Channel::Five)
        } else if index == 6 {
            Some(Channel::Six)
        } else if index == 7 {
            Some(Channel::Seven)
        } else {
            None
        }
    }

    /// The number of the slot, which is also the number of its bus.
    pub fn index(self) -> (index: usize)
        ensures
            index == self.spec_index(),
            index < 8,
    {
        match self {
            Channel::Zero => 0,
            Channel::One => 1,
            Channel::Two => 2,
            Channel::Three => 3,
            Channel::Four => 4,
            Channel::Five => 5,
            Channel::Six => 6,
            Channel::Seven => 7,
        }
    }

    /// All channels, in the order of their numbers.
    pub fn all() -> (channels: [Channel; 8])
        ensures
            forall|i: int| 0 <= i < 8 ==> (#[trigger] channels@[i]).spec_index() == i,
    {
        [
            Channel::Zero,
            Channel::One,
            Channel::Two,
            Channel::Three,
            Channel::Four,
            Channel::Five,
            Channel::Six,
            Channel::Seven,
        ]
    }

    /// The channel with the given number: `Some` exactly for `0..=7`.
    pub fn from_index(index: usize) -> (channel: Option<Channel>)
        ensures
            channel == Self::spec_from_index(index as int),
            index < 8 <==> channel is Some,
            channel matches Some(found) ==> found.spec_index() == index,
    {
        match index {
            0 => Some(Channel::Zero),
            1 => Some(Channel::One),
            2 => Some(Channel::Two),
            3 => Some(Channel::Three),
            4 => Some(Channel::Four),
            5 => Some(Channel::Five),
            6 => Some(Channel::Six),
            7 => Some(Channel::Seven),
            _ => None,
        }
    }
}

/// Channels and bus numbers `0..=7` correspond one to one.
pub proof fn lemma_channel_index_bijective(channel: Channel, other: Channel, index: int)
    ensures
        0 <= channel.spec_index() < 8,
        Channel::spec_from_index(channel.spec_index()) == Some(channel),
        channel.spec_index() == other.spec_index() ==> channel == other,
        0 <= index < 8 ==> Channel::spec_from_index(index) is Some && Channel::spec_from_index(
            index,
        )->0.spec_index() == index,
        !(0 <= index < 8) ==> Channel::spec_from_index(index) is None,
{
}

/// What the enumeration of one slot needs: the handle to the slot's devices
/// on the shared bus, the lines of the slot and the storage of its settings.
pub struct ChannelResources<B: ModuleBus, L: ControlLines, S: ConfigStorage> {
    pub bus: B,
    pub pins: ChannelPins<L>,
    pub storage: S,
}

/// The eight channel slots with the multiplexer and the analog converter
/// that they share.
pub struct BoosterChannels<
    B: ModuleBus,
    L: ControlLines,
    S: ConfigStorage,
    M: BusSwitch,
    A: SampleConverter,
> {
    channels: [Option<RfChannel<B, L, S>>; 8],
    adc: A,
    mux: M,
    /// The channel whose bus the multiplexer was last asked to connect.
    connected: Ghost<Option<Channel>>,
}

/// What one sweep does to a slot: an empty slot stays empty; a channel
/// whose sense lines, as the sweep read them, report a fault is disabled,
/// and the logical state of a channel whose lines are quiet is not
/// touched.
pub open spec fn swept<B: ModuleBus, L: ControlLines, S: ConfigStorage>(
    before: Option<RfChannel<B, L, S>>,
    after: Option<RfChannel<B, L, S>>,
) -> bool {
    match before {
        None => after is None,
        Some(channel) => after matches Some(now) && now.analog() == channel.analog() && now@
            == (if now.sensed().spec_tripped() {
            channel@.disabled()
        } else {
            channel@
        }),
    }
}

impl<
    B: ModuleBus,
    L: ControlLines,
    S: ConfigStorage,
    M: BusSwitch,
    A: SampleConverter,
> BoosterChannels<B, L, S, M, A> {
    /// What the slot of a channel holds: the channel, or `None` where no
    /// module was found at enumeration.
    pub closed spec fn slot(&self, channel: Channel) -> Option<RfChannel<B, L, S>> {
        self.channels@[channel.spec_index()]
    }

    /// The logical state of a channel, or `None` for an empty slot.
    pub open spec fn channel(&self, channel: Channel) -> Option<ChannelView> {
        match self.slot(channel) {
            Some(present) => Some(present@),
            None => None,
        }
    }

    /// The channel whose bus the multiplexer was last asked to connect, or
    /// `None` where the registry has not asked for any.
    pub closed spec fn connected(&self) -> Option<Channel> {
        self.connected@
    }

    /// Whether the bus stands as an operation on `channel` leaves it: the
    /// bus of a channel that is present was connected before the channel
    /// was touched, and is the one connected; for an empty slot the
    /// multiplexer was not asked.
    pub open spec fn bus_connected(&self, before: &Self, channel: Channel) -> bool {
        match before.slot(channel) {
            Some(_) => self.connected() == Some(channel),
            None => self.connected() == before.connected(),
        }
    }

    /// Whether an operation on `channel` was kept to that channel: its bus
    /// is the one connected, and every other slot holds what it held in
    /// `before`.
    pub open spec fn operated_on(&self, before: &Self, channel: Channel) -> bool {
        &&& self.bus_connected(before, channel)
        &&& self.others_kept(before, channel)
    }

    /// Whether every slot but that of `channel` holds what it held in
    /// `before`.
    pub open spec fn others_kept(&self, before: &Self, channel: Channel) -> bool {
        forall|other: Channel| other != channel ==> self.slot(other) == before.slot(other)
    }

    /// What powering a channel up leaves behind: an empty slot refuses and
    /// nothing is touched; a channel is powered with its signal line at
    /// `output`, or, where its bias converter fails, stays as it was.
    pub open spec fn power_outcome(
        &self,
        before: &Self,
        channel: Channel,
        output: bool,
        result: Result<(), Error>,
    ) -> bool {
        &&& self.operated_on(before, channel)
        &&& match before.channel(channel) {
            None => result == Err::<(), Error>(Error::NotPresent) && *self == *before,
            Some(was) => match result {
                Ok(()) => self.channel(channel) == Some(was.powered(output)),
                Err(error) => self.channel(channel) == Some(was) && (error == Error::Bounds
                    || error == Error::Interface),
            },
        }
    }

    /// What disabling a channel leaves behind: an empty slot refuses and
    /// nothing is touched; a channel is disabled whether or not its bias
    /// converter reports a failure.
    pub open spec fn disable_outcome(
        &self,
        before: &Self,
        channel: Channel,
        result: Result<(), Error>,
    ) -> bool {
        &&& self.operated_on(before, channel)
        &&& match before.channel(channel) {
            None => result == Err::<(), Error>(Error::NotPresent) && *self == *before,
            Some(was) => self.channel(channel) == Some(was.disabled()) && (result matches Err(
                error,
            ) ==> error == Error::Bounds || error == Error::Interface),
        }
    }

    /// What saving the settings of a channel leaves behind: an empty slot
    /// refuses and nothing is touched; the logical state of a channel does
    /// not change.
    pub open spec fn save_outcome(
        &self,
        before: &Self,
        channel: Channel,
        result: Result<(), Error>,
    ) -> bool {
        &&& self.operated_on(before, channel)
        &&& self.channel(channel) == before.channel(channel)
        &&& match before.channel(channel) {
            None => result == Err::<(), Error>(Error::NotPresent) && *self == *before,
            Some(_) => result matches Err(error) ==> error == Error::Bounds || error
                == Error::Interface,
        }
    }

    /// What reading a property leaves behind: nothing changes; an empty
    /// slot refuses, a channel yields the value of the property.
    pub open spec fn read_outcome(
        &self,
        before: &Self,
        channel: Channel,
        property: PropertyId,
        result: Result<Property, Error>,
    ) -> bool {
        &&& self.operated_on(before, channel)
        &&& self.slot(channel) == before.slot(channel)
        &&& match before.channel(channel) {
            None => result == Err::<Property, Error>(Error::NotPresent) && *self == *before,
            Some(was) => result == Ok::<Property, Error>(was.property(property)),
        }
    }

    /// What writing a property leaves behind: an empty slot refuses and
    /// nothing is touched; a calibration is replaced as a whole; each
    /// interlock threshold is replaced where its own programming
    /// succeeded.
    pub open spec fn write_outcome(
        &self,
        before: &Self,
        channel: Channel,
        property: Property,
        result: Result<(), Error>,
    ) -> bool {
        &&& self.operated_on(before, channel)
        &&& match before.channel(channel) {
            None => result == Err::<(), Error>(Error::NotPresent) && *self == *before,
            Some(was) => self.channel(channel) matches Some(now) && (match property {
                Property::InterlockThresholds(thresholds) => exists|results: ThresholdResults|
                    {
                        &&& result == #[trigger] results.spec_combined()
                        &&& now == was.with_thresholds(
                            results,
                            thresholds.output,
                            thresholds.reflected,
                        )
                    },
                _ => result is Ok && now == was.with_transform(property),
            }),
        }
    }

    /// What setting the bias of a channel leaves behind, and what it
    /// returns: the bias in use and the current of the 28 V rail.
    pub open spec fn bias_outcome(
        &self,
        before: &Self,
        channel: Channel,
        bias_voltage: i32,
        result: Result<(i32, i32), Error>,
    ) -> bool {
        &&& self.operated_on(before, channel)
        &&& match before.channel(channel) {
            None => result == Err::<(i32, i32), Error>(Error::NotPresent) && *self == *before,
            Some(was) => if !BoosterChannelData::bias_in_range(bias_voltage as int) {
                result == Err::<(i32, i32), Error>(Error::Bounds) && self.slot(channel)
                    == before.slot(channel)
            } else {
                match result {
                    Ok((vgs, ids)) => vgs == bias_voltage && self.channel(channel) == Some(
                        was.biased(bias_voltage),
                    ) && exists|sense: u16|
                        ids == #[trigger] PowerMeasurements::spec_sense_current(sense, 4300),
                    Err(error) => (self.channel(channel) == Some(was) || self.channel(channel)
                        == Some(was.biased(bias_voltage))) && (error == Error::Bounds || error
                        == Error::Interface),
                }
            },
        }
    }

    /// What tuning a channel to a drain current leaves behind, and what it
    /// returns: the bias at which the search settled and the current
    /// measured there.
    pub open spec fn tune_outcome(
        &self,
        before: &Self,
        channel: Channel,
        target: i32,
        result: Result<(i32, i32), Error>,
    ) -> bool {
        &&& self.operated_on(before, channel)
        &&& match before.channel(channel) {
            None => result == Err::<(i32, i32), Error>(Error::NotPresent) && *self == *before,
            Some(was) => if !(0 < target <= MAXIMUM_TUNE_CURRENT) {
                result == Err::<(i32, i32), Error>(Error::Bounds) && self.slot(channel)
                    == before.slot(channel)
            } else {
                match result {
                    Ok((vgs, ids)) => self.channel(channel) matches Some(now)
                        && RfChannel::<B, L, S>::settled_at(was, now, target, vgs, ids),
                    Err(error) => (error == Error::Bounds || error == Error::Interface) && (
                    self.channel(channel) == Some(was) || exists|bias: i32|
                        BoosterChannelData::bias_in_range(bias as int) && self.channel(channel)
                            == Some(#[trigger] was.biased(bias))),
                }
            },
        }
    }

    /// What reading the bias of a channel leaves behind, and what it
    /// returns: the bias in use and the current of the 28 V rail.
    pub open spec fn bias_reading(
        &self,
        before: &Self,
        channel: Channel,
        result: Result<(i32, i32), Error>,
    ) -> bool {
        &&& self.operated_on(before, channel)
        &&& self.channel(channel) == before.channel(channel)
        &&& match before.channel(channel) {
            None => result == Err::<(i32, i32), Error>(Error::NotPresent) && *self == *before,
            Some(was) => match result {
                Ok((vgs, ids)) => vgs == was.bias_voltage && exists|sense: u16|
                    ids == #[trigger] PowerMeasurements::spec_sense_current(sense, 4300),
                Err(error) => error == Error::Bounds || error == Error::Interface,
            },
        }
    }

    /// How the registry follows from the outcomes of the eight slots: the
    /// first error among them is the result; where there is none, each
    /// slot holds what the search of that slot came to.
    pub open spec fn spec_assembled(
        outcomes: Seq<Result<Option<RfChannel<B, L, S>>, Error>>,
        result: Result<Self, Error>,
    ) -> bool {
        match result {
            Err(error) => exists|i: int|
                {
                    &&& 0 <= i < outcomes.len()
                    &&& #[trigger] outcomes[i] == Err::<Option<RfChannel<B, L, S>>, Error>(error)
                    &&& forall|j: int| 0 <= j < i ==> (#[trigger] outcomes[j]) is Ok
                },
            Ok(registry) => {
                &&& forall|i: int| 0 <= i < outcomes.len() ==> (#[trigger] outcomes[i]) is Ok
                &&& forall|channel: Channel| #[trigger]
                    registry.slot(channel) == outcomes[channel.spec_index()]->Ok_0
            },
        }
    }

    /// Builds the registry from the outcomes of the eight slots, in the
    /// order of the slots. The first error among the outcomes ends the
    /// enumeration; where there is none, each slot holds what the search
    /// of that slot came to, a channel or nothing, whatever the other
    /// slots hold.
    pub fn from_outcomes(
        mux: M,
        adc: A,
        outcomes: Vec<Result<Option<RfChannel<B, L, S>>, Error>>,
    ) -> (result: Result<Self, Error>)
        requires
            outcomes@.len() == 8,
        ensures
            Self::spec_assembled(outcomes@, result),
            result matches Ok(registry) ==> registry.connected() is None,
    {
        Self::assemble(mux, adc, outcomes, Ghost(None))
    }

    /// Builds the registry from the outcomes of the eight slots, with the
    /// multiplexer as it was last asked to stand.
    fn assemble(
        mux: M,
        adc: A,
        outcomes: Vec<Result<Option<RfChannel<B, L, S>>, Error>>,
        connected: Ghost<Option<Channel>>,
    ) -> (result: Result<Self, Error>)
        requires
            outcomes@.len() == 8,
        ensures
            Self::spec_assembled(outcomes@, result),
            result matches Ok(registry) ==> registry.connected() == connected@,
    {
        let ghost given = outcomes@;
        let mut rest = outcomes;
        let mut channels: [Option<RfChannel<B, L, S>>; 8] = [
            None,
            None,
            None,
            None,
            None,
            None,
            None,
            None,
        ];
        let mut index: usize = 0;
        while index < 8
            invariant
                index <= 8,
                given.len() == 8,
                given == outcomes@,
                rest@ == given.skip(index as int),
                forall|i: int| 0 <= i < index ==> (#[trigger] given[i]) is Ok,
                forall|i: int| 0 <= i < index ==> #[trigger] channels@[i] == given[i]->Ok_0,
            decreases 8 - index,
        {
            let outcome = rest.remove(0);
            assert(rest@ =~= given.skip(index + 1));
            assert(outcome == given[index as int]);
            match outcome {
                Ok(found) => {
                    channels[index] = found;
                },
                Err(error) => {
                    assert(given[index as int] == Err::<Option<RfChannel<B, L, S>>, Error>(error));
                    return Err(error);
                },
            }
            index += 1;
        }
        let registry = BoosterChannels { channels, adc, mux, connected };
        proof {
            assert forall|channel: Channel| #[trigger]
                registry.slot(channel) == given[channel.spec_index()]->Ok_0 by {
                lemma_channel_index_bijective(channel, channel, 0);
            }
        }
        Ok(registry)
    }

    /// Enumerates the eight slots in order.
    ///
    /// For each slot the bus of the slot is connected and then the module
    /// is searched for with the resources of that slot. A slot whose module
    /// does not answer stays empty for good, and the enumeration goes on
    /// with the next. A failing device of the mainboard makes the
    /// enumeration end in `Err(Interface)`, once every slot was searched
    /// and with it every bias converter driven to pinch-off.
    /// [`Self::from_outcomes`] says how the registry follows from what the
    /// eight searches came to.
    pub fn new(mux: M, adc: A, resources: Vec<ChannelResources<B, L, S>>) -> (result: Result<
        Self,
        Error,
    >)
        requires
            resources@.len() == 8,
        ensures
            exists|outcomes: Seq<Result<Option<RfChannel<B, L, S>>, Error>>|
                {
                    &&& outcomes.len() == 8
                    &&& forall|i: int|
                        0 <= i < 8 ==> RfChannel::enumerated_with(
                            #[trigger] outcomes[i],
                            resources@[i].pins.analog(),
                        )
                    &&& #[trigger] Self::spec_assembled(outcomes, result)
                },
            result matches Err(error) ==> error == Error::Interface,
            result matches Ok(registry) ==> registry.connected() == Some(Channel::Seven),
            result matches Ok(registry) ==> forall|channel: Channel| #[trigger]
                registry.slot(channel) matches Some(found) ==> {
                    &&& found@.freshly_enumerated()
                    &&& found.analog() == resources@[channel.spec_index()].pins.analog()
                },
    {
        let ghost given = resources@;
        let ghost mut connected: Option<Channel> = None;
        let mut mux = mux;
        let mut resources = resources;
        let mut outcomes: Vec<Result<Option<RfChannel<B, L, S>>, Error>> = Vec::new();
        let order = Channel::all();
        let mut index: usize = 0;
        while index < 8
            invariant
                index <= 8,
                given.len() == 8,
                resources@ == given.skip(index as int),
                outcomes@.len() == index,
                forall|i: int| 0 <= i < 8 ==> (#[trigger] order@[i]).spec_index() == i,
                index > 0 ==> connected == Some(order@[index - 1]),
                forall|i: int|
                    0 <= i < index ==> RfChannel::enumerated_with(
                        #[trigger] outcomes@[i],
                        given[i].pins.analog(),
                    ),
                forall|i: int|
                    0 <= i < index ==> (#[trigger] outcomes@[i] matches Err(error) ==> error
                        == Error::Interface),
                forall|i: int|
                    0 <= i < index ==> (#[trigger] outcomes@[i] matches Ok(Some(found)) ==> {
                        &&& found@.freshly_enumerated()
                        &&& found.analog() == given[i].pins.analog()
                    }),
            decreases 8 - index,
        {
            mux.select_bus(order[index]);
            proof {
                connected = Some(order@[index as int]);
            }
            let parts = resources.remove(0);
            assert(resources@ =~= given.skip(index + 1));
            let outcome = RfChannel::new(parts.bus, parts.pins, parts.storage);
            outcomes.push(outcome);
            index += 1;
        }
        let ghost searched = outcomes@;
        let result = Self::assemble(mux, adc, outcomes, Ghost(connected));
        proof {
            assert(order@[7].spec_index() == 7);
            assert(Self::spec_assembled(searched, result));
            if result is Ok {
                let registry = result->Ok_0;
                assert forall|channel: Channel| #[trigger]
                    registry.slot(channel) is Some implies registry.slot(
                    channel,
                )->0@.freshly_enumerated() && registry.slot(channel)->0.analog()
                    == given[channel.spec_index()].pins.analog() by {
                    lemma_channel_index_bijective(channel, channel, 0);
                    assert(searched[channel.spec_index()] is Ok);
                }
            }
        }
        result
    }

    /// Enables a channel: powers it up with its output live.
    pub fn enable_channel(&mut self, channel: Channel) -> (result: Result<(), Error>)
        ensures
            final(self).power_outcome(old(self), channel, true, result),
    {
        let power_up = |ch: &mut RfChannel<B, L, S>, _adc: &mut A| -> (r: Result<(), Error>)
            ensures
                r is Ok ==> final(ch)@ == old(ch)@.powered(true),
                r matches Err(error) ==> final(ch)@ == old(ch)@ && (error == Error::Bounds
                    || error == Error::Interface),
            {
                ch.start_powerup(true)
            };
        self.map_channel(channel, power_up)
    }

    /// Powers a channel up with its output muted.
    pub fn power_channel(&mut self, channel: Channel) -> (result: Result<(), Error>)
        ensures
            final(self).power_outcome(old(self), channel, false, result),
    {
        let power_up = |ch: &mut RfChannel<B, L, S>, _adc: &mut A| -> (r: Result<(), Error>)
            ensures
                r is Ok ==> final(ch)@ == old(ch)@.powered(false),
                r matches Err(error) ==> final(ch)@ == old(ch)@ && (error == Error::Bounds
                    || error == Error::Interface),
            {
                ch.start_powerup(false)
            };
        self.map_channel(channel, power_up)
    }

    /// Disables a channel. A present channel ends unpowered with its bias
    /// at pinch-off even where the bias converter reports a failure.
    pub fn disable_channel(&mut self, channel: Channel) -> (result: Result<(), Error>)
        ensures
            final(self).disable_outcome(old(self), channel, result),
    {
        let disable = |ch: &mut RfChannel<B, L, S>, _adc: &mut A| -> (r: Result<(), Error>)
            ensures
                final(ch)@ == old(ch)@.disabled(),
                r matches Err(error) ==> error == Error::Bounds || error == Error::Interface,
            {
                ch.disable()
            };
        self.map_channel(channel, disable)
    }

    /// Reads the temperature of a channel, in milli-degrees Celsius.
    pub fn get_temperature(&mut self, channel: Channel) -> (result: Result<i32, Error>)
        ensures
            final(self).operated_on(old(self), channel),
            final(self).channel(channel) == old(self).channel(channel),
            match old(self).channel(channel) {
                None => result == Err::<i32, Error>(Error::NotPresent) && *final(self) == *old(self),
                Some(_) => result matches Err(error) ==> error == Error::Bounds || error
                    == Error::Interface,
            },
    {
        let read = |ch: &mut RfChannel<B, L, S>, _adc: &mut A| -> (r: Result<i32, Error>)
            ensures
                final(ch)@ == old(ch)@,
                r matches Err(error) ==> error == Error::Bounds || error == Error::Interface,
            {
                ch.get_temperature()
            };
        self.map_channel(channel, read)
    }

    /// Sets the bias voltage of a channel, in millivolts, waits for the
    /// drain current to settle and reads it.
    ///
    /// Returns the bias voltage now in use and the current drawn from the
    /// 28 V rail, in microamperes. A voltage outside `-3300..=0` is refused
    /// with `Bounds`. Where the bias was set and the reading of the
    /// current then fails, the new bias stays in place and the failure is
    /// reported.
    pub fn set_bias<D: SettleDelay>(
        &mut self,
        channel: Channel,
        bias_voltage: i32,
        delay: &mut D,
    ) -> (result: Result<(i32, i32), Error>)
        ensures
            final(self).bias_outcome(old(self), channel, bias_voltage, result),
            old(self).channel(channel) is None || !BoosterChannelData::bias_in_range(
                bias_voltage as int,
            ) ==> *final(delay) == *old(delay),
    {
        let index = channel.index();
        if self.channels[index].is_none() {
            return Err(Error::NotPresent);
        }
        self.mux.select_bus(channel);
        self.connected = Ghost(Some(channel));
        let result = match &mut self.channels[index] {
            Some(present) => match present.set_bias(bias_voltage) {
                Ok(()) => {
                    // Let the drain current settle before it is measured.
                    delay.delay_us(BIAS_SETTLE_MICROSECONDS);
                    match present.get_p28v_current() {
                        Ok(ids) => Ok((present.get_bias_voltage(), ids)),
                        Err(error) => Err(error),
                    }
                },
                Err(error) => Err(error),
            },
            None => Err(Error::NotPresent),
        };
        proof {
            assert forall|other: Channel| other != channel implies final(self).slot(other) == old(self).slot(other) by {
                lemma_channel_index_bijective(channel, other, 0);
            }
        }
        result
    }

    /// Tunes the bias of a channel to a drain current, in microamperes,
    /// and returns the bias found and the current measured at it.
    pub fn tune_channel<D: SettleDelay>(
        &mut self,
        channel: Channel,
        desired_current: i32,
        delay: &mut D,
    ) -> (result: Result<(i32, i32), Error>)
        ensures
            final(self).tune_outcome(old(self), channel, desired_current, result),
            old(self).channel(channel) is None || !(0 < desired_current <= MAXIMUM_TUNE_CURRENT)
                ==> *final(delay) == *old(delay),
    {
        let index = channel.index();
        if self.channels[index].is_none() {
            return Err(Error::NotPresent);
        }
        self.mux.select_bus(channel);
        self.connected = Ghost(Some(channel));
        let result = match &mut self.channels[index] {
            Some(present) => present.tune(desired_current, delay),
            None => Err(Error::NotPresent),
        };
        proof {
            assert forall|other: Channel| other != channel implies final(self).slot(other) == old(self).slot(other) by {
                lemma_channel_index_bijective(channel, other, 0);
            }
        }
        result
    }

    /// Reads the bias voltage in use on a channel, in millivolts, and the
    /// current that the channel draws from the 28 V rail, in microamperes.
    pub fn read_bias(&mut self, channel: Channel) -> (result: Result<(i32, i32), Error>)
        ensures
            final(self).bias_reading(old(self), channel, result),
    {
        let index = channel.index();
        if self.channels[index].is_none() {
            return Err(Error::NotPresent);
        }
        self.mux.select_bus(channel);
        self.connected = Ghost(Some(channel));
        let result = match &mut self.channels[index] {
            Some(present) => match present.get_p28v_current() {
                Ok(ids) => Ok((present.get_bias_voltage(), ids)),
                Err(error) => Err(error),
            },
            None => Err(Error::NotPresent),
        };
        proof {
            assert forall|other: Channel| other != channel implies final(self).slot(other) == old(self).slot(other) by {
                lemma_channel_index_bijective(channel, other, 0);
            }
        }
        result
    }

    /// Reads the sense lines of a channel and derives the state of the
    /// channel from the reading, the levels of its output lines and its
    /// bias. The logical state of the channel is not touched.
    pub fn get_channel_state(&mut self, channel: Channel) -> (result: Result<
        ChannelState,
        Error,
    >)
        ensures
            final(self).operated_on(old(self), channel),
            final(self).channel(channel) == old(self).channel(channel),
            match old(self).slot(channel) {
                None => result == Err::<ChannelState, Error>(Error::NotPresent) && *final(self)
                    == *old(self),
                Some(before) => final(self).slot(channel) matches Some(now) && result == Ok::<
                    ChannelState,
                    Error,
                >(before@.state(now.sensed())),
            },
    {
        let index = channel.index();
        if self.channels[index].is_none() {
            return Err(Error::NotPresent);
        }
        self.mux.select_bus(channel);
        self.connected = Ghost(Some(channel));
        let result = match &mut self.channels[index] {
            Some(present) => Ok(present.get_state()),
            None => Err(Error::NotPresent),
        };
        proof {
            assert forall|other: Channel| other != channel implies final(self).slot(other) == old(self).slot(other) by {
                lemma_channel_index_bijective(channel, other, 0);
            }
        }
        result
    }

    /// Takes a snapshot of a channel: one reading of its sense lines and
    /// of each of its measurements, with its thresholds, its bias and the
    /// state that follows from them.
    pub fn get_status(&mut self, channel: Channel) -> (result: Result<ChannelStatus, Error>)
        ensures
            final(self).operated_on(old(self), channel),
            final(self).channel(channel) == old(self).channel(channel),
            match old(self).channel(channel) {
                None => result == Err::<ChannelStatus, Error>(Error::NotPresent) && *final(self)
                    == *old(self),
                Some(before) => match result {
                    Ok(status) => final(self).slot(channel) matches Some(now) && status.taken_of(
                        before,
                        now.sensed(),
                    ),
                    Err(error) => error == Error::Bounds || error == Error::Interface,
                },
            },
    {
        let snapshot = |ch: &mut RfChannel<B, L, S>, adc: &mut A| -> (r: Result<
            ChannelStatus,
            Error,
        >)
            ensures
                final(ch)@ == old(ch)@,
                r matches Ok(status) ==> status.taken_of(old(ch)@, final(ch).sensed()),
                r matches Err(error) ==> error == Error::Bounds || error == Error::Interface,
            {
                ch.get_status(adc)
            };
        self.map_channel(channel, snapshot)
    }

    /// Writes the settings of a channel to the channel's storage.
    pub fn save_configuration(&mut self, channel: Channel) -> (result: Result<(), Error>)
        ensures
            final(self).save_outcome(old(self), channel, result),
    {
        let save = |ch: &mut RfChannel<B, L, S>, _adc: &mut A| -> (r: Result<(), Error>)
            ensures
                final(ch)@ == old(ch)@,
                r matches Err(error) ==> error == Error::Bounds || error == Error::Interface,
            {
                ch.save_configuration()
            };
        self.map_channel(channel, save)
    }

    /// Sweeps all slots once, in order: for each channel that is present,
    /// connects its bus, reads its sense lines and trips its interlock if
    /// one of them is asserted.
    ///
    /// Empty slots are passed over. A channel is disabled exactly when its
    /// lines, as the sweep read them, report a fault. A failure on one
    /// channel does not stop the sweep. The bus that stays connected is
    /// that of the last channel that is present.
    pub fn update(&mut self)
        ensures
            forall|channel: Channel| #[trigger]
                swept(old(self).slot(channel), final(self).slot(channel)),
            (forall|channel: Channel| old(self).slot(channel) is None) ==> *final(self) == *old(self),
            forall|channel: Channel| (#[trigger] old(self).slot(channel)) is Some ==> {
                &&& final(self).connected() matches Some(last)
                &&& old(self).slot(last) is Some
                &&& channel.spec_index() <= last.spec_index()
            },
    {
        let order = Channel::all();
        let mut index: usize = 0;
        while index < 8
            invariant
                index <= 8,
                forall|i: int| 0 <= i < 8 ==> (#[trigger] order@[i]).spec_index() == i,
                forall|i: int|
                    0 <= i < index && (#[trigger] old(self).channels@[i]) is Some ==> {
                        &&& self.connected@ matches Some(last)
                        &&& last.spec_index() < index
                        &&& old(self).channels@[last.spec_index()] is Some
                        &&& i <= last.spec_index()
                    },
                forall|i: int|
                    0 <= i < index ==> swept(old(self).channels@[i], #[trigger] self.channels@[i]),
                forall|i: int|
                    index <= i < 8 ==> #[trigger] self.channels@[i] == old(self).channels@[i],
                (forall|i: int| 0 <= i < index ==> old(self).channels@[i] is None) ==> *self
                    == *old(self),
            decreases 8 - index,
        {
            if self.channels[index].is_some() {
                self.mux.select_bus(order[index]);
                self.connected = Ghost(Some(order@[index as int]));
                match &mut self.channels[index] {
                    Some(present) => {
                        // A failure on one channel must not keep the
                        // sweep from the others.
                        let _ = present.update();
                    },
                    None => {},
                }
            }
            index += 1;
        }
        proof {
            assert forall|channel: Channel| #[trigger]
                swept(old(self).slot(channel), final(self).slot(channel)) by {
                lemma_channel_index_bijective(channel, channel, 0);
            }
            assert forall|channel: Channel| (#[trigger] old(self).slot(channel)) is Some implies {
                &&& self.connected() matches Some(last)
                &&& old(self).slot(last) is Some
                &&& channel.spec_index() <= last.spec_index()
            } by {
                lemma_channel_index_bijective(channel, channel, 0);
                assert(old(self).channels@[channel.spec_index()] is Some);
            }
            if forall|channel: Channel| old(self).slot(channel) is None {
                assert forall|i: int| 0 <= i < 8 implies old(self).channels@[i] is None by {
                    lemma_channel_index_bijective(Channel::Zero, Channel::Zero, i);
                    assert(old(self).slot(Channel::spec_from_index(i)->0) is None);
                }
            }
        }
    }

    /// Reads a property of a channel.
    pub fn read_property(&mut self, channel: Channel, property: PropertyId) -> (result: Result<
        Property,
        Error,
    >)
        ensures
            final(self).read_outcome(old(self), channel, property, result),
    {
        let read = |ch: &mut RfChannel<B, L, S>, _adc: &mut A| -> (r: Result<Property, Error>)
            ensures
                *final(ch) == *old(ch),
                r == Ok::<Property, Error>(old(ch)@.property(property)),
            {
                Ok(ch.get_property(property))
            };
        self.map_channel(channel, read)
    }

    /// Writes a property of a channel.
    ///
    /// A calibration replaces the one in use as a whole. Interlock
    /// thresholds are programmed one by one, each keeping its old value
    /// where its own programming fails.
    pub fn write_property(&mut self, channel: Channel, property: Property) -> (result: Result<
        (),
        Error,
    >)
        ensures
            final(self).write_outcome(old(self), channel, property, result),
    {
        let write = |ch: &mut RfChannel<B, L, S>, _adc: &mut A| -> (r: Result<(), Error>)
            ensures
                match property {
                    Property::InterlockThresholds(thresholds) => exists|
                        results: ThresholdResults,
                    |
                        {
                            &&& r == #[trigger] results.spec_combined()
                            &&& final(ch)@ == old(ch)@.with_thresholds(
                                results,
                                thresholds.output,
                                thresholds.reflected,
                            )
                        },
                    _ => r is Ok && final(ch)@ == old(ch)@.with_transform(property),
                },
            {
                ch.set_property(property)
            };
        self.map_channel(channel, write)
    }

    /// Whether a module was found in the slot of a channel.
    pub fn is_present(&self, channel: Channel) -> (present: bool)
        ensures
            present == self.slot(channel) is Some,
    {
        self.channels[channel.index()].is_some()
    }

    /// Works on one channel: connects the bus of the channel and hands the
    /// channel and the analog converter to `f`.
    ///
    /// For an empty slot, `f` is not called, nothing is touched and the
    /// result is `NotPresent`. Otherwise the result is that of `f`, and no
    /// other slot changes.
    pub fn map_channel<F, R>(&mut self, channel: Channel, f: F) -> (result: Result<R, Error>) where
        F: FnOnce(&mut RfChannel<B, L, S>, &mut A) -> Result<R, Error>,

        requires
            forall|present: &mut RfChannel<B, L, S>, adc: &mut A| #[trigger]
                f.requires((present, adc)),
        ensures
            final(self).operated_on(old(self), channel),
            match old(self).slot(channel) {
                None => result matches Err(error) && error == Error::NotPresent && *final(self)
                    == *old(self),
                Some(before) => final(self).slot(channel) matches Some(after) && exists|
                    present: &mut RfChannel<B, L, S>,
                    adc: &mut A,
                |
                    *present == before && *final(present) == after && #[trigger] f.ensures(
                        (present, adc),
                        result,
                    ),
            },
    {
        let index = channel.index();
        if self.channels[index].is_none() {
            return Err(Error::NotPresent);
        }
        self.mux.select_bus(channel);
        self.connected = Ghost(Some(channel));
        let result = match &mut self.channels[index] {
            Some(present) => f(present, &mut self.adc),
            None => Err(Error::NotPresent),
        };
        proof {
            lemma_channel_index_bijective(channel, channel, 0);
            assert forall|other: Channel| other != channel implies final(self).slot(other) == old(self).slot(other) by {
                lemma_channel_index_bijective(channel, other, 0);
            }
        }
        result
    }
}

} // verus!
