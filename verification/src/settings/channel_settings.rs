//! Per-channel settings and their image in non-volatile memory.
//!
//! The settings of a channel occupy the first [`ENCODED_SIZE`] bytes of the
//! 64-byte payload region of the channel's storage container. Every 32-bit
//! field is stored in two's complement, least significant byte first; the
//! `enabled` flag is one byte holding 0 or 1.

use vstd::prelude::*;
use crate::error::{DeviceFault, Error};
use crate::linear_transformation::LinearTransformation;

verus! {

/// Size of the payload region of a storage container, in bytes.
pub const PAYLOAD_SIZE: usize = 64;

/// Number of payload bytes that the channel settings occupy.
pub const ENCODED_SIZE: usize = 37;

/// The most negative bias voltage, in millivolts: the amplifier is pinched
/// off and conducts no current.
pub const PINCH_OFF_MILLIVOLTS: i32 = -3300;

/// The storage container of one channel: a checksummed record in the
/// channel's EEPROM of which this crate uses only the payload region.
pub trait ConfigStorage {
    /// Reads the container and returns its payload region, or `None` if the
    /// container cannot be read or fails its own validation.
    fn load(&mut self) -> Option<[u8; 64]>;

    /// Replaces the payload region of the container, recomputes the
    /// container's checksum and writes the container back. Where no valid
    /// container is stored, a fresh one is written.
    fn store(&mut self, payload: &[u8; 64]) -> Result<(), DeviceFault>;
}

/// The unsigned value of the two's complement image of `value`.
pub open spec fn word_image(value: i32) -> int {
    if value < 0 {
        value + 0x1_0000_0000
    } else {
        value as int
    }
}

/// The four bytes that store `value`, least significant first.
#[verifier::opaque]
pub open spec fn word_bytes(value: i32) -> Seq<u8> {
    let image = word_image(value);
    seq![
        (image % 256) as u8,
        (image / 256 % 256) as u8,
        (image / 65536 % 256) as u8,
        (image / 16777216) as u8,
    ]
}

/// The value stored in the four bytes of `bytes` that start at `at`.
pub open spec fn word_at(bytes: Seq<u8>, at: int) -> i32
    recommends
        0 <= at,
        at + 4 <= bytes.len(),
{
    let image = bytes[at] + 256 * bytes[at + 1] + 65536 * bytes[at + 2] + 16777216 * bytes[at + 3];
    if image >= 0x8000_0000 {
        (image - 0x1_0000_0000) as i32
    } else {
        image as i32
    }
}

/// The byte that stores a flag.
pub open spec fn flag_byte(flag: bool) -> u8 {
    if flag {
        1u8
    } else {
        0u8
    }
}

/// Stores `value` in the four bytes of `payload` that start at `at`.
fn put_word(payload: &mut [u8; 64], at: usize, value: i32)
    requires
        at + 4 <= 64,
    ensures
        final(payload)@ == old(payload)@.subrange(0, at as int) + word_bytes(value) + old(payload)@.subrange(at + 4, 64),
{
    let image: i64 = if value < 0 {
        value as i64 + 0x1_0000_0000
    } else {
        value as i64
    };
    proof {
        reveal(word_bytes);
    }
    payload[at] = (image % 256) as u8;
    payload[at + 1] = (image / 256 % 256) as u8;
    payload[at + 2] = (image / 65536 % 256) as u8;
    payload[at + 3] = (image / 16777216) as u8;
    assert(payload@ =~= old(payload)@.subrange(0, at as int) + word_bytes(value) + old(payload)@.subrange(at + 4, 64));
}

/// Reads the value stored in the four bytes of `payload` that start at `at`.
fn get_word(payload: &[u8; 64], at: usize) -> (value: i32)
    requires
        at + 4 <= 64,
    ensures
        value == word_at(payload@, at as int),
{
    let image: i64 = payload[at] as i64 + 256 * (payload[at + 1] as i64) + 65536 * (payload[at
        + 2] as i64) + 16777216 * (payload[at + 3] as i64);
    if image >= 0x8000_0000 {
        (image - 0x1_0000_0000) as i32
    } else {
        image as i32
    }
}

/// A word is stored in four bytes.
pub proof fn lemma_word_bytes_len(value: i32)
    ensures
        word_bytes(value).len() == 4,
{
    reveal(word_bytes);
}

/// The four bytes of an image put together give the image again.
proof fn lemma_image_bytes(image: int)
    requires
        0 <= image < 0x1_0000_0000,
    ensures
        0 <= image % 256 < 256,
        0 <= image / 256 % 256 < 256,
        0 <= image / 65536 % 256 < 256,
        0 <= image / 16777216 < 256,
        image % 256 + 256 * (image / 256 % 256) + 65536 * (image / 65536 % 256) + 16777216 * (
        image / 16777216) == image,
{
    let q1 = image / 256;
    let q2 = q1 / 256;
    let q3 = q2 / 256;
    assert(image == 256 * q1 + image % 256);
    assert(q1 == 256 * q2 + q1 % 256);
    assert(q2 == 256 * q3 + q2 % 256);
    assert(q2 == image / 65536);
    assert(q3 == image / 16777216);
}

/// Reading back a stored word gives the value that was stored.
pub proof fn lemma_word_round_trip(payload: Seq<u8>, at: int, value: i32)
    requires
        0 <= at,
        at + 4 <= payload.len(),
        payload.subrange(at, at + 4) == word_bytes(value),
    ensures
        word_at(payload, at) == value,
{
    reveal(word_bytes);
    let stored = payload.subrange(at, at + 4);
    let image = word_image(value);
    lemma_image_bytes(image);
    assert(payload[at] == stored[0] == (image % 256) as u8);
    assert(payload[at + 1] == stored[1] == (image / 256 % 256) as u8);
    assert(payload[at + 2] == stored[2] == (image / 65536 % 256) as u8);
    assert(payload[at + 3] == stored[3] == (image / 16777216) as u8);
    assert(payload[at] + 256 * payload[at + 1] + 65536 * payload[at + 2] + 16777216 * payload[at
        + 3] == image);
}

/// The settings of one channel that are kept in non-volatile memory.
#[derive(Clone, Copy, Debug, PartialEq, Eq, Structural)]
pub struct BoosterChannelData {
    /// Interlock threshold on reflected power, in micro-dBm.
    pub reflected_interlock_threshold: i32,
    /// Interlock threshold on output power, in micro-dBm.
    pub output_interlock_threshold: i32,
    /// Gate bias applied when the channel is powered, in millivolts.
    pub bias_voltage: i32,
    /// Whether the channel is meant to be enabled.
    pub enabled: bool,
    /// Calibration of the input power detector.
    pub input_power_transform: LinearTransformation,
    /// Calibration of the output power detector.
    pub output_power_transform: LinearTransformation,
    /// Calibration of the reflected power detector.
    pub reflected_power_transform: LinearTransformation,
}

impl BoosterChannelData {
    /// The factory settings.
    ///
    /// At 100 MHz the power detectors follow `dBm = V / 0.035 V/dB - 35.6 dBm`;
    /// the attenuators in front of each detector are folded into the offset.
    /// The input and reflected detectors pass an amplifier of gain 1.5.
    pub open spec fn spec_default() -> BoosterChannelData {
        BoosterChannelData {
            reflected_interlock_threshold: 0,
            output_interlock_threshold: 0,
            bias_voltage: -3200i32,
            enabled: false,
            input_power_transform: LinearTransformation { scale: 42857, offset: -26_700_000i32 },
            output_power_transform: LinearTransformation { scale: 28571, offset: -5_800_000i32 },
            reflected_power_transform: LinearTransformation {
                scale: 42857,
                offset: -5_800_000i32,
            },
        }
    }

    /// Whether a bias voltage, in millivolts, lies in the range of the bias
    /// converter.
    pub open spec fn bias_in_range(millivolts: int) -> bool {
        PINCH_OFF_MILLIVOLTS <= millivolts <= 0
    }

    /// Settings are valid when their bias voltage is one that the bias
    /// converter can produce.
    pub open spec fn valid(self) -> bool {
        Self::bias_in_range(self.bias_voltage as int)
    }

    /// The payload bytes that store these settings.
    pub open spec fn spec_serialize(self) -> Seq<u8> {
        word_bytes(self.reflected_interlock_threshold) + word_bytes(
            self.output_interlock_threshold,
        ) + word_bytes(self.bias_voltage) + seq![flag_byte(self.enabled)] + word_bytes(
            self.input_power_transform.scale,
        ) + word_bytes(self.input_power_transform.offset) + word_bytes(
            self.output_power_transform.scale,
        ) + word_bytes(self.output_power_transform.offset) + word_bytes(
            self.reflected_power_transform.scale,
        ) + word_bytes(self.reflected_power_transform.offset)
    }

    /// The settings that a payload stores, whether valid or not.
    pub open spec fn spec_decode(payload: Seq<u8>) -> BoosterChannelData {
        BoosterChannelData {
            reflected_interlock_threshold: word_at(payload, 0),
            output_interlock_threshold: word_at(payload, 4),
            bias_voltage: word_at(payload, 8),
            enabled: payload[12] == 1,
            input_power_transform: LinearTransformation {
                scale: word_at(payload, 13),
                offset: word_at(payload, 17),
            },
            output_power_transform: LinearTransformation {
                scale: word_at(payload, 21),
                offset: word_at(payload, 25),
            },
            reflected_power_transform: LinearTransformation {
                scale: word_at(payload, 29),
                offset: word_at(payload, 33),
            },
        }
    }

    /// What reading a payload yields: the stored settings, or `Invalid` where
    /// the flag byte is neither 0 nor 1 or the bias voltage is out of range.
    pub open spec fn spec_deserialize(payload: Seq<u8>) -> Result<BoosterChannelData, Error> {
        if payload[12] <= 1 && Self::spec_decode(payload).valid() {
            Ok(Self::spec_decode(payload))
        } else {
            Err(Error::Invalid)
        }
    }

    /// The factory settings.
    pub fn default() -> (data: Self)
        ensures
            data == Self::spec_default(),
            data.valid(),
    {
        BoosterChannelData {
            reflected_interlock_threshold: 0,
            output_interlock_threshold: 0,
            bias_voltage: -3200,
            enabled: false,
            input_power_transform: LinearTransformation::new(42857, -26_700_000),
            output_power_transform: LinearTransformation::new(28571, -5_800_000),
            reflected_power_transform: LinearTransformation::new(42857, -5_800_000),
        }
    }

    /// Reads settings from the payload region of a storage container.
    ///
    /// A payload whose flag byte is malformed, or whose bias voltage lies
    /// outside the range of the bias converter, is rejected as `Invalid`.
    pub fn deserialize(data: &[u8; 64]) -> (result: Result<Self, Error>)
        ensures
            result == Self::spec_deserialize(data@),
            result matches Ok(settings) ==> settings.valid(),
    {
        let flag: u8 = data[12];
        let config = BoosterChannelData {
            reflected_interlock_threshold: get_word(data, 0),
            output_interlock_threshold: get_word(data, 4),
            bias_voltage: get_word(data, 8),
            enabled: flag == 1,
            input_power_transform: LinearTransformation::new(
                get_word(data, 13),
                get_word(data, 17),
            ),
            output_power_transform: LinearTransformation::new(
                get_word(data, 21),
                get_word(data, 25),
            ),
            reflected_power_transform: LinearTransformation::new(
                get_word(data, 29),
                get_word(data, 33),
            ),
        };
        if flag > 1 || config.bias_voltage < PINCH_OFF_MILLIVOLTS || config.bias_voltage > 0 {
            return Err(Error::Invalid);
        }
        Ok(config)
    }

    /// Writes the settings over the head of a payload region; the bytes
    /// behind them stay as they are. Valid settings read back from the
    /// payload as they were written.
    pub fn serialize_into(&self, payload: &mut [u8; 64])
        ensures
            final(payload)@ == self.spec_serialize() + old(payload)@.subrange(37, 64),
            self.valid() ==> Self::spec_deserialize(final(payload)@) == Ok::<Self, Error>(*self),
    {
        proof {
            lemma_word_bytes_len(self.reflected_interlock_threshold);
            lemma_word_bytes_len(self.output_interlock_threshold);
            lemma_word_bytes_len(self.bias_voltage);
            lemma_word_bytes_len(self.input_power_transform.scale);
            lemma_word_bytes_len(self.input_power_transform.offset);
            lemma_word_bytes_len(self.output_power_transform.scale);
            lemma_word_bytes_len(self.output_power_transform.offset);
            lemma_word_bytes_len(self.reflected_power_transform.scale);
            lemma_word_bytes_len(self.reflected_power_transform.offset);
        }
        put_word(payload, 0, self.reflected_interlock_threshold);
        put_word(payload, 4, self.output_interlock_threshold);
        put_word(payload, 8, self.bias_voltage);
        payload[12] = if self.enabled {
            1
        } else {
            0
        };
        put_word(payload, 13, self.input_power_transform.scale);
        put_word(payload, 17, self.input_power_transform.offset);
        put_word(payload, 21, self.output_power_transform.scale);
        put_word(payload, 25, self.output_power_transform.offset);
        put_word(payload, 29, self.reflected_power_transform.scale);
        put_word(payload, 33, self.reflected_power_transform.offset);
        assert(payload@ =~= self.spec_serialize() + old(payload)@.subrange(37, 64));
        proof {
            lemma_settings_round_trip(*self, old(payload)@.subrange(37, 64));
        }
    }
}

/// The settings of a channel together with the storage that keeps them.
pub struct BoosterChannelSettings<S: ConfigStorage> {
    /// The container that keeps the settings.
    pub eeprom: S,
    /// The settings in use. They reach storage only through [`Self::save`].
    pub data: BoosterChannelData,
}

impl<S: ConfigStorage> BoosterChannelSettings<S> {
    /// What a channel adopts after its container was read as `stored`, and
    /// whether it must write the adopted settings back at once.
    ///
    /// A payload that holds valid settings is adopted as it is, so that
    /// what was saved is what a later start finds. An unreadable container
    /// and an invalid payload are replaced by the factory settings, which
    /// are then persisted so that the channel finds them in place at its
    /// next start.
    pub open spec fn spec_resolve(stored: Option<[u8; 64]>) -> (BoosterChannelData, bool) {
        match stored {
            Some(payload) => match BoosterChannelData::spec_deserialize(payload@) {
                Ok(data) => (data, false),
                Err(_) => (BoosterChannelData::spec_default(), true),
            },
            None => (BoosterChannelData::spec_default(), true),
        }
    }

    /// Decides what a channel adopts after its container was read as
    /// `stored`, and whether it must write the adopted settings back.
    pub fn resolve(stored: Option<[u8; 64]>) -> (outcome: (BoosterChannelData, bool))
        ensures
            outcome == Self::spec_resolve(stored),
            outcome.0.valid(),
    {
        match stored {
            Some(payload) => match BoosterChannelData::deserialize(&payload) {
                Ok(data) => (data, false),
                Err(_) => (BoosterChannelData::default(), true),
            },
            None => (BoosterChannelData::default(), true),
        }
    }

    /// Loads the settings of a channel from its storage: they are what
    /// [`Self::resolve`] adopts for what the storage returned. Where that
    /// is the factory settings, they are written to storage.
    pub fn new(eeprom: S) -> (settings: Self)
        ensures
            settings.data.valid(),
            exists|stored: Option<[u8; 64]>|
                settings.data == (#[trigger] Self::spec_resolve(stored)).0,
    {
        let mut eeprom = eeprom;
        let stored = eeprom.load();
        let (data, heal) = Self::resolve(stored);
        let mut settings = BoosterChannelSettings { eeprom, data };
        if heal {
            let _ = settings.save();
        }
        assert(settings.data == Self::spec_resolve(stored).0);
        settings
    }

    /// The payload that a save writes where the container was read as
    /// `stored`: the settings over the head of what the container holds,
    /// or over zeros where the container cannot be read.
    pub open spec fn spec_payload_for(stored: Option<[u8; 64]>, data: BoosterChannelData) -> Seq<
        u8,
    > {
        data.spec_serialize() + (match stored {
            Some(payload) => payload@.subrange(37, 64),
            None => Seq::new(27, |i: int| 0u8),
        })
    }

    /// Builds the payload that a save writes where the container was read
    /// as `stored`. Valid settings read back from it as they are.
    pub fn payload_for(stored: Option<[u8; 64]>, data: &BoosterChannelData) -> (payload: [u8; 64])
        ensures
            payload@ == Self::spec_payload_for(stored, *data),
            data.valid() ==> BoosterChannelData::spec_deserialize(payload@) == Ok::<
                BoosterChannelData,
                Error,
            >(*data),
    {
        let mut payload: [u8; 64] = match stored {
            Some(stored) => stored,
            None => [0; 64],
        };
        data.serialize_into(&mut payload);
        assert(payload@ =~= Self::spec_payload_for(stored, *data));
        payload
    }

    /// Writes settings to a storage container. The payload region is
    /// replaced as a whole: it starts from what the container holds, or
    /// from zeros where the container cannot be read.
    pub fn persist(eeprom: &mut S, data: &BoosterChannelData) -> (result: Result<(), Error>)
        ensures
            exists|answer: Result<(), DeviceFault>|
                result == #[trigger] Error::spec_surface(answer),
    {
        let stored = eeprom.load();
        let payload = Self::payload_for(stored, data);
        let answer = eeprom.store(&payload);
        let result = Error::surface(answer);
        assert(result == Error::spec_surface(answer));
        result
    }

    /// Writes the settings in use to storage. They do not change.
    pub fn save(&mut self) -> (result: Result<(), Error>)
        ensures
            final(self).data == old(self).data,
            exists|answer: Result<(), DeviceFault>|
                result == #[trigger] Error::spec_surface(answer),
    {
        let data = self.data;
        Self::persist(&mut self.eeprom, &data)
    }
}

/// What was saved is what a later start adopts: the payload that a save
/// writes for valid settings, whatever the container held before, resolves
/// to those settings, and calls for no repair.
pub proof fn lemma_saved_settings_survive_a_restart<S: ConfigStorage>(
    data: BoosterChannelData,
    held: Option<[u8; 64]>,
    saved: [u8; 64],
)
    requires
        data.valid(),
        saved@ == BoosterChannelSettings::<S>::spec_payload_for(held, data),
    ensures
        BoosterChannelSettings::<S>::spec_resolve(Some(saved)) == (data, false),
{
    let rest = match held {
        Some(payload) => payload@.subrange(37, 64),
        None => Seq::new(27, |i: int| 0u8),
    };
    lemma_settings_round_trip(data, rest);
}

/// A channel whose storage is unreadable starts from the factory settings and
/// persists them; once they are in storage, the next start adopts them and
/// has nothing to repair.
pub proof fn lemma_fallback_heals<S: ConfigStorage>(healed: [u8; 64])
    requires
        healed@.subrange(0, 37) == BoosterChannelData::spec_default().spec_serialize(),
    ensures
        BoosterChannelSettings::<S>::spec_resolve(None) == (
            BoosterChannelData::spec_default(),
            true,
        ),
        BoosterChannelSettings::<S>::spec_resolve(Some(healed)) == (
            BoosterChannelData::spec_default(),
            false,
        ),
{
    let image = BoosterChannelData::spec_default().spec_serialize();
    let rest = healed@.subrange(37, 64);
    assert(healed@ =~= image + rest);
    lemma_settings_round_trip(BoosterChannelData::spec_default(), rest);
}

/// Settings survive storage: a payload that holds the image of some settings,
/// whatever follows the image, reads back as the same settings if they are
/// valid, and is rejected as `Invalid` if they are not.
pub proof fn lemma_settings_round_trip(data: BoosterChannelData, rest: Seq<u8>)
    ensures
        BoosterChannelData::spec_deserialize(data.spec_serialize() + rest) == (if data.valid() {
            Ok::<BoosterChannelData, Error>(data)
        } else {
            Err::<BoosterChannelData, Error>(Error::Invalid)
        }),
{
    let payload = data.spec_serialize() + rest;
    lemma_word_bytes_len(data.reflected_interlock_threshold);
    lemma_word_bytes_len(data.output_interlock_threshold);
    lemma_word_bytes_len(data.bias_voltage);
    lemma_word_bytes_len(data.input_power_transform.scale);
    lemma_word_bytes_len(data.input_power_transform.offset);
    lemma_word_bytes_len(data.output_power_transform.scale);
    lemma_word_bytes_len(data.output_power_transform.offset);
    lemma_word_bytes_len(data.reflected_power_transform.scale);
    lemma_word_bytes_len(data.reflected_power_transform.offset);
    assert(payload.subrange(0, 4) =~= word_bytes(data.reflected_interlock_threshold));
    lemma_word_round_trip(payload, 0, data.reflected_interlock_threshold);
    assert(payload.subrange(4, 8) =~= word_bytes(data.output_interlock_threshold));
    lemma_word_round_trip(payload, 4, data.output_interlock_threshold);
    assert(payload.subrange(8, 12) =~= word_bytes(data.bias_voltage));
    lemma_word_round_trip(payload, 8, data.bias_voltage);
    assert(payload[12] == flag_byte(data.enabled));
    assert(payload.subrange(13, 17) =~= word_bytes(data.input_power_transform.scale));
    lemma_word_round_trip(payload, 13, data.input_power_transform.scale);
    assert(payload.subrange(17, 21) =~= word_bytes(data.input_power_transform.offset));
    lemma_word_round_trip(payload, 17, data.input_power_transform.offset);
    assert(payload.subrange(21, 25) =~= word_bytes(data.output_power_transform.scale));
    lemma_word_round_trip(payload, 21, data.output_power_transform.scale);
    assert(payload.subrange(25, 29) =~= word_bytes(data.output_power_transform.offset));
    lemma_word_round_trip(payload, 25, data.output_power_transform.offset);
    assert(payload.subrange(29, 33) =~= word_bytes(data.reflected_power_transform.scale));
    lemma_word_round_trip(payload, 29, data.reflected_power_transform.scale);
    assert(payload.subrange(33, 37) =~= word_bytes(data.reflected_power_transform.offset));
    lemma_word_round_trip(payload, 33, data.reflected_power_transform.offset);
    assert(BoosterChannelData::spec_decode(payload) == data);
}

} // verus!
