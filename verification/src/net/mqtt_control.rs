//! Telemetry and the requests that read or store the state of a channel.
//!
//! The client that carries the messages belongs to the caller. This
//! module names the topics, decides when the metadata of the device is
//! due, and serves the requests.

use vstd::prelude::*;
use crate::booster_channels::{BoosterChannels, Channel};
use crate::bounded_text::{
    lemma_utf8_len_ascii,
    lemma_utf8_len_bound,
    lemma_utf8_len_concat,
    text_128,
    text_128_as_str,
    text_128_from,
    text_256,
    text_64_from,
};
use crate::error::Error;
use crate::hardware::peripherals::{BusSwitch, ControlLines, ModuleBus, SampleConverter};
use crate::mqtt_control::{utf8_len, wire_text, Response};
use crate::settings::channel_settings::ConfigStorage;

verus! {

/// The default telemetry period.
pub const DEFAULT_TELEMETRY_PERIOD_SECS: u64 = 10;

/// A request that names a channel.
#[derive(Clone, Copy, Debug)]
pub struct ChannelRequest {
    pub channel: Channel,
}

/// The bias of a channel: its bias voltage, in millivolts, and the drain
/// current at it, in microamperes.
#[derive(Clone, Copy, Debug, PartialEq, Eq, Structural)]
pub struct ChannelBiasResponse {
    pub vgs: i32,
    pub ids: i32,
}

/// The number of a channel as it appears in a topic.
pub open spec fn spec_channel_digit(channel: Channel) -> Seq<char> {
    match channel {
        Channel::Zero => "0"@,
        Channel::One => "1"@,
        Channel::Two => "2"@,
        Channel::Three => "3"@,
        Channel::Four => "4"@,
        Channel::Five => "5"@,
        Channel::Six => "6"@,
        Channel::Seven => "7"@,
    }
}

/// The number of a channel as it appears in a topic.
pub fn channel_digit(channel: Channel) -> (digit: &'static str)
    ensures
        digit@ == spec_channel_digit(channel),
        utf8_len(digit@) == 1,
{
    proof {
        reveal_strlit("0");
        reveal_strlit("1");
        reveal_strlit("2");
        reveal_strlit("3");
        reveal_strlit("4");
        reveal_strlit("5");
        reveal_strlit("6");
        reveal_strlit("7");
        lemma_utf8_len_ascii("0"@);
        lemma_utf8_len_ascii("1"@);
        lemma_utf8_len_ascii("2"@);
        lemma_utf8_len_ascii("3"@);
        lemma_utf8_len_ascii("4"@);
        lemma_utf8_len_ascii("5"@);
        lemma_utf8_len_ascii("6"@);
        lemma_utf8_len_ascii("7"@);
    }
    match channel {
        Channel::Zero => "0",
        Channel::One => "1",
        Channel::Two => "2",
        Channel::Three => "3",
        Channel::Four => "4",
        Channel::Five => "5",
        Channel::Six => "6",
        Channel::Seven => "7",
    }
}

/// What the telemetry interface keeps between messages.
pub struct TelemetryClient {
    /// The topic below which the device publishes, of at most 128 bytes.
    pub prefix: heapless::String<128>,
    /// The time between two reports of telemetry, in seconds.
    pub telemetry_period: u64,
    /// Whether the metadata of the device has been published since the
    /// connection was made.
    pub meta_published: bool,
}

impl TelemetryClient {
    /// The name under which the device with identifier `id` connects. A
    /// name has 64 bytes, of which the identifier may take 52.
    pub fn client_id(id: &str) -> (name: heapless::String<64>)
        requires
            utf8_len(id@) <= 52,
        ensures
            wire_text(name) == "booster-"@ + id@ + "-tlm"@,
    {
        let mut name = "booster-".to_owned();
        proof {
            reveal_strlit("booster-");
            reveal_strlit("-tlm");
            lemma_utf8_len_ascii("booster-"@);
            lemma_utf8_len_ascii("-tlm"@);
            lemma_utf8_len_concat("booster-"@, id@);
            lemma_utf8_len_concat("booster-"@ + id@, "-tlm"@);
        }
        name.append(id);
        name.append("-tlm");
        text_64_from(name.as_str()).unwrap()
    }

    /// The telemetry state of the device with identifier `id`, before
    /// anything was published. The prefix has 128 bytes, of which the
    /// identifier may take 110.
    pub fn new(id: &str) -> (client: Self)
        requires
            utf8_len(id@) <= 110,
        ensures
            text_128(client.prefix) == "dt/sinara/booster/"@ + id@,
            client.telemetry_period == DEFAULT_TELEMETRY_PERIOD_SECS,
            !client.meta_published,
    {
        let mut prefix = "dt/sinara/booster/".to_owned();
        proof {
            reveal_strlit("dt/sinara/booster/");
            lemma_utf8_len_ascii("dt/sinara/booster/"@);
            lemma_utf8_len_concat("dt/sinara/booster/"@, id@);
        }
        prefix.append(id);
        TelemetryClient {
            prefix: text_128_from(prefix.as_str()).unwrap(),
            telemetry_period: DEFAULT_TELEMETRY_PERIOD_SECS,
            meta_published: false,
        }
    }

    /// The topic under which the telemetry of a channel is reported, or
    /// `None` where the prefix leaves no room for it: a topic has 64
    /// bytes, of which the prefix may take 50.
    pub fn telemetry_topic(&self, channel: Channel) -> (topic: Option<heapless::String<64>>)
        ensures
            topic is Some <==> utf8_len(text_128(self.prefix)) <= 50,
            topic matches Some(name) ==> wire_text(name) == text_128(self.prefix)
                + "/telemetry/ch"@ + spec_channel_digit(channel),
    {
        let prefix = text_128_as_str(&self.prefix);
        let digit = channel_digit(channel);
        let mut topic = prefix.to_owned();
        proof {
            reveal_strlit("/telemetry/ch");
            lemma_utf8_len_ascii("/telemetry/ch"@);
            lemma_utf8_len_concat(prefix@, "/telemetry/ch"@);
            lemma_utf8_len_concat(prefix@ + "/telemetry/ch"@, digit@);
        }
        topic.append("/telemetry/ch");
        topic.append(digit);
        text_64_from(topic.as_str())
    }

    /// The topic under which the metadata of the device is published, or
    /// `None` where the prefix leaves no room for it: a topic has 64
    /// bytes, of which the prefix may take 53.
    pub fn meta_topic(&self) -> (topic: Option<heapless::String<64>>)
        ensures
            topic is Some <==> utf8_len(text_128(self.prefix)) <= 53,
            topic matches Some(name) ==> wire_text(name) == text_128(self.prefix)
                + "/alive/meta"@,
    {
        let prefix = text_128_as_str(&self.prefix);
        let mut topic = prefix.to_owned();
        proof {
            reveal_strlit("/alive/meta");
            lemma_utf8_len_ascii("/alive/meta"@);
            lemma_utf8_len_concat(prefix@, "/alive/meta"@);
        }
        topic.append("/alive/meta");
        text_64_from(topic.as_str())
    }

    /// Takes note of the state of the connection and decides whether the
    /// metadata of the device is to be published now: it is, once per
    /// connection, as long as it has not been delivered.
    pub fn update(&mut self, connected: bool) -> (publish: bool)
        ensures
            publish == (connected && !old(self).meta_published),
            final(self).meta_published == (connected && old(self).meta_published),
            final(self).prefix == old(self).prefix,
            final(self).telemetry_period == old(self).telemetry_period,
    {
        if connected {
            !self.meta_published
        } else {
            self.meta_published = false;
            false
        }
    }

    /// Records whether the metadata was delivered.
    pub fn meta_sent(&mut self, delivered: bool)
        ensures
            final(self).meta_published == (old(self).meta_published || delivered),
            final(self).prefix == old(self).prefix,
            final(self).telemetry_period == old(self).telemetry_period,
    {
        if delivered {
            self.meta_published = true;
        }
    }

    /// The time between two reports of telemetry, in seconds.
    pub fn telemetry_period_secs(&self) -> (period: u64)
        ensures
            period == self.telemetry_period,
    {
        self.telemetry_period
    }

    /// The period that is kept for a period asked for: the period itself,
    /// or one second, the shortest there is, for a period of none.
    pub open spec fn spec_kept_period(period: u64) -> u64 {
        if period < 1 {
            1
        } else {
            period
        }
    }

    /// Sets the time between two reports of telemetry, in seconds. The
    /// period is at least one second: a period of none is kept as one.
    pub fn set_telemetry_period(&mut self, period: u64)
        ensures
            final(self).telemetry_period == Self::spec_kept_period(period),
            final(self).telemetry_period >= 1,
            final(self).prefix == old(self).prefix,
            final(self).meta_published == old(self).meta_published,
    {
        self.telemetry_period = if period < 1 {
            1
        } else {
            period
        };
    }
}

/// Reads the bias of a channel.
///
/// Returns the bias voltage in use and the drain current, or the response
/// that reports why there is none: `Channel not found` for an empty slot,
/// the name of the error for a device that fails.
pub fn read_bias<
    B: ModuleBus,
    L: ControlLines,
    S: ConfigStorage,
    M: BusSwitch,
    A: SampleConverter,
>(channels: &mut BoosterChannels<B, L, S, M, A>, request: ChannelRequest) -> (result: Result<
    ChannelBiasResponse,
    Response,
>)
    ensures
        exists|outcome: Result<(i32, i32), Error>|
            {
                &&& #[trigger] final(channels).bias_reading(
                    old(channels),
                    request.channel,
                    outcome,
                )
                &&& match outcome {
                    Ok((vgs, ids)) => result matches Ok(response) && response == (
                    ChannelBiasResponse { vgs, ids }),
                    Err(Error::NotPresent) => result matches Err(response) && response.code == 400
                        && text_256(response.msg) == "Channel not found"@,
                    Err(error) => result matches Err(response) && response.code == 400
                        && text_256(response.msg) == error.spec_name(),
                }
            },
{
    let outcome = channels.read_bias(request.channel);
    assert(final(channels).bias_reading(old(channels), request.channel, outcome));
    match outcome {
        Ok((vgs, ids)) => Ok(ChannelBiasResponse { vgs, ids }),
        Err(Error::NotPresent) => {
            proof {
                reveal_strlit("Channel not found");
                lemma_utf8_len_bound("Channel not found"@);
            }
            Err(Response::error_msg("Channel not found"))
        },
        Err(error) => Err(Response::error(error)),
    }
}

/// Writes the settings of a channel to the channel's storage.
///
/// Answers with code 200 and no message once the settings are stored,
/// with `Channel not found` for an empty slot, and with the name of the
/// error where the storage fails.
pub fn save_settings<
    B: ModuleBus,
    L: ControlLines,
    S: ConfigStorage,
    M: BusSwitch,
    A: SampleConverter,
>(channels: &mut BoosterChannels<B, L, S, M, A>, request: ChannelRequest) -> (response: Response)
    ensures
        exists|outcome: Result<(), Error>|
            {
                &&& #[trigger] final(channels).save_outcome(
                    old(channels),
                    request.channel,
                    outcome,
                )
                &&& match outcome {
                    Ok(()) => response.code == 200 && text_256(response.msg) == ""@,
                    Err(Error::NotPresent) => response.code == 400 && text_256(response.msg)
                        == "Channel not found"@,
                    Err(error) => response.code == 400 && text_256(response.msg) == error.spec_name(),
                }
            },
{
    let outcome = channels.save_configuration(request.channel);
    assert(final(channels).save_outcome(old(channels), request.channel, outcome));
    match outcome {
        Ok(()) => {
            proof {
                reveal_strlit("");
                lemma_utf8_len_bound(""@);
            }
            Response::okay("")
        },
        Err(Error::NotPresent) => {
            proof {
                reveal_strlit("Channel not found");
                lemma_utf8_len_bound("Channel not found"@);
            }
            Response::error_msg("Channel not found")
        },
        Err(error) => Response::error(error),
    }
}

} // verus!
