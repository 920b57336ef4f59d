//! The payloads of the control interface: requests, responses and the
//! handlers that connect them to the channels.
//!
//! Encoding and decoding of JSON is left to the caller. This module
//! decides what a request does and what is answered, and it frames the
//! `data` field of property payloads: that field holds JSON inside JSON,
//! and since the encoder in use cannot escape a double quote, every
//! double quote of the inner text travels as a single quote.

use vstd::prelude::*;
use vstd::utf8::{encode_scalar, encode_utf8};
use crate::booster_channels::{BoosterChannels, Channel};
use crate::bounded_text::{
    lemma_utf8_len_ascii,
    lemma_utf8_len_bound,
    lemma_utf8_len_concat,
    text_256,
    text_256_from,
    text_32,
    text_32_as_str,
    text_32_from,
    text_64_from,
};
use crate::error::Error;
use crate::hardware::peripherals::{
    BusSwitch,
    ControlLines,
    ModuleBus,
    SampleConverter,
    SettleDelay,
};
use crate::linear_transformation::LinearTransformation;
use crate::rf_channel::{InterlockThresholds, Property, PropertyId};
use crate::settings::channel_settings::ConfigStorage;

verus! {

/// The text that a bounded string of capacity 64 holds.
pub uninterp spec fn wire_text(data: heapless::String<64>) -> Seq<char>;

/// A string of fixed capacity: `heapless::String`.
#[verifier::external_type_specification]
#[verifier::external_body]
pub struct ExBoundedString<const N: usize>(heapless::String<N>);

/// The number of bytes that a character takes in UTF-8.
pub open spec fn utf8_width(c: char) -> nat {
    encode_scalar(c as u32).len()
}

/// The number of bytes that a text takes in UTF-8.
pub open spec fn utf8_len(text: Seq<char>) -> nat {
    encode_utf8(text).len()
}

/// `heapless::String::new`: the new string is empty.
#[verifier::external_body]
fn wire_new() -> (data: heapless::String<64>)
    ensures
        wire_text(data) == Seq::<char>::empty(),
{
    heapless::String::new()
}

/// `heapless::String::push`: the character is appended if its UTF-8
/// encoding fits into what is left of the 64 bytes; otherwise the string
/// stays as it is. Returns whether the character was appended.
#[verifier::external_body]
fn wire_push(data: &mut heapless::String<64>, c: char) -> (pushed: bool)
    ensures
        pushed == (utf8_len(wire_text(*old(data))) + utf8_width(c) <= 64),
        pushed ==> wire_text(*final(data)) == wire_text(*old(data)).push(c),
        !pushed ==> wire_text(*final(data)) == wire_text(*old(data)),
{
    data.push(c).is_ok()
}

/// `heapless::String::as_str`: the text that the string holds, which
/// takes no more than the 64 bytes of the string's capacity.
#[verifier::external_body]
fn wire_as_str(data: &heapless::String<64>) -> (text: &str)
    ensures
        text@ == wire_text(*data),
        utf8_len(text@) <= 64,
{
    data.as_str()
}

/// The text with every occurrence of `from` replaced by `to`.
pub open spec fn spec_substitute(text: Seq<char>, from: char, to: char) -> Seq<char> {
    text.map_values(
        |c: char|
            if c == from {
                to
            } else {
                c
            },
    )
}

/// The form in which the inner JSON text travels: every double quote is
/// replaced by a single quote.
pub open spec fn spec_to_wire(text: Seq<char>) -> Seq<char> {
    spec_substitute(text, '"', '\'')
}

/// The inner JSON text behind its travelling form: every single quote is
/// replaced by a double quote.
pub open spec fn spec_from_wire(text: Seq<char>) -> Seq<char> {
    spec_substitute(text, '\'', '"')
}

/// Appending a character to a text adds the width of the character to the
/// length of the text's encoding.
pub proof fn lemma_utf8_len_push(text: Seq<char>, c: char)
    ensures
        utf8_len(text.push(c)) == utf8_len(text) + utf8_width(c),
    decreases text.len(),
{
    if text.len() == 0 {
        assert(text.push(c).drop_first() =~= Seq::<char>::empty());
        assert(encode_utf8(text.push(c).drop_first()) =~= Seq::<u8>::empty());
        assert(encode_utf8(text) =~= Seq::<u8>::empty());
    } else {
        assert(text.push(c).drop_first() =~= text.drop_first().push(c));
        lemma_utf8_len_push(text.drop_first(), c);
    }
}

/// The encoding of a prefix of a text is no longer than that of the text.
pub proof fn lemma_utf8_len_prefix(text: Seq<char>, n: int)
    requires
        0 <= n <= text.len(),
    ensures
        utf8_len(text.take(n)) <= utf8_len(text),
    decreases text.len() - n,
{
    if n == text.len() {
        assert(text.take(n) =~= text);
    } else {
        assert(text.take(n + 1) =~= text.take(n).push(text[n]));
        lemma_utf8_len_push(text.take(n), text[n]);
        lemma_utf8_len_prefix(text, n + 1);
    }
}

/// Both quote characters take one byte.
pub proof fn lemma_quotes_have_width_one()
    ensures
        utf8_width('"') == 1,
        utf8_width('\'') == 1,
{
}

/// Replaces every occurrence of `from` in `data` by `to`. The two
/// characters must take the same number of bytes, so that the result
/// fits where the input did.
fn substitute(data: &heapless::String<64>, from: char, to: char) -> (result: heapless::String<64>)
    requires
        utf8_width(from) == utf8_width(to),
    ensures
        wire_text(result) == spec_substitute(wire_text(*data), from, to),
{
    let text = wire_as_str(data);
    let count = text.unicode_len();
    let mut result = wire_new();
    let mut index: usize = 0;
    while index < count
        invariant
            index <= count,
            count == text@.len(),
            text@ == wire_text(*data),
            utf8_len(text@) <= 64,
            utf8_width(from) == utf8_width(to),
            wire_text(result) == spec_substitute(text@.take(index as int), from, to),
            utf8_len(wire_text(result)) == utf8_len(text@.take(index as int)),
        decreases count - index,
    {
        let c = text.get_char(index);
        let replaced = if c == from {
            to
        } else {
            c
        };
        proof {
            assert(text@.take(index + 1) =~= text@.take(index as int).push(c));
            lemma_utf8_len_push(text@.take(index as int), c);
            lemma_utf8_len_push(wire_text(result), replaced);
            lemma_utf8_len_prefix(text@, index + 1);
            assert(spec_substitute(text@.take(index + 1), from, to) =~= spec_substitute(
                text@.take(index as int),
                from,
                to,
            ).push(replaced));
        }
        let pushed = wire_push(&mut result, replaced);
        assert(pushed);
        index += 1;
    }
    assert(text@.take(count as int) =~= text@);
    result
}

/// Brings inner JSON text into its travelling form: every double quote
/// becomes a single quote.
pub fn to_wire(data: &heapless::String<64>) -> (result: heapless::String<64>)
    ensures
        wire_text(result) == spec_to_wire(wire_text(*data)),
{
    proof {
        lemma_quotes_have_width_one();
    }
    substitute(data, '"', '\'')
}

/// Recovers inner JSON text from its travelling form: every single quote
/// becomes a double quote.
pub fn from_wire(data: &heapless::String<64>) -> (result: heapless::String<64>)
    ensures
        wire_text(result) == spec_from_wire(wire_text(*data)),
{
    proof {
        lemma_quotes_have_width_one();
    }
    substitute(data, '\'', '"')
}

/// Text without a single quote survives the journey: bringing it into its
/// travelling form and back recovers it exactly, each double quote
/// included.
pub proof fn lemma_wire_round_trip(text: Seq<char>)
    requires
        !text.contains('\''),
    ensures
        spec_from_wire(spec_to_wire(text)) == text,
{
    assert forall|i: int| 0 <= i < text.len() implies spec_from_wire(spec_to_wire(text))[i]
        == text[i] by {
        assert(text.contains(text[i]));
    }
    assert(spec_from_wire(spec_to_wire(text)) =~= text);
}

/// Text without a double quote survives the journey in the other
/// direction: recovering it and bringing it into its travelling form
/// again gives the same text.
pub proof fn lemma_wire_round_trip_inbound(text: Seq<char>)
    requires
        !text.contains('"'),
    ensures
        spec_to_wire(spec_from_wire(text)) == text,
{
    assert forall|i: int| 0 <= i < text.len() implies spec_to_wire(spec_from_wire(text))[i]
        == text[i] by {
        assert(text.contains(text[i]));
    }
    assert(spec_to_wire(spec_from_wire(text)) =~= text);
}

/// A request to read a property of a channel.
#[derive(Clone, Copy, Debug)]
pub struct PropertyReadRequest {
    pub channel: Channel,
    pub prop: PropertyId,
}

/// The answer to a property that was read.
pub struct PropertyReadResponse {
    pub code: u32,
    /// The property as JSON text, in its travelling form.
    pub data: heapless::String<64>,
}

impl PropertyReadResponse {
    /// Answers a read request with the property's JSON text, which is
    /// brought into its travelling form.
    pub fn okay(serialized: &heapless::String<64>) -> (response: Self)
        ensures
            response.code == 200,
            wire_text(response.data) == spec_to_wire(wire_text(*serialized)),
    {
        PropertyReadResponse { code: 200, data: to_wire(serialized) }
    }
}

/// A request to write a property of a channel.
pub struct PropertyWriteRequest {
    pub channel: Channel,
    pub prop: PropertyId,
    /// The property as JSON text, in its travelling form.
    pub data: heapless::String<64>,
}

impl PropertyWriteRequest {
    /// The property that a request names, given what its JSON text reads
    /// as: the thresholds or the calibration of that name, or `Invalid`
    /// where the text does not read as what the name asks for.
    pub open spec fn spec_property(
        prop: PropertyId,
        thresholds: Option<InterlockThresholds>,
        transform: Option<LinearTransformation>,
    ) -> Result<Property, Error> {
        match prop {
            PropertyId::InterlockThresholds => match thresholds {
                Some(value) => Ok(Property::InterlockThresholds(value)),
                None => Err(Error::Invalid),
            },
            PropertyId::OutputPowerTransform => match transform {
                Some(value) => Ok(Property::OutputPowerTransform(value)),
                None => Err(Error::Invalid),
            },
            PropertyId::InputPowerTransform => match transform {
                Some(value) => Ok(Property::InputPowerTransform(value)),
                None => Err(Error::Invalid),
            },
            PropertyId::ReflectedPowerTransform => match transform {
                Some(value) => Ok(Property::ReflectedPowerTransform(value)),
                None => Err(Error::Invalid),
            },
        }
    }

    /// The JSON text of the property, recovered from its travelling form.
    pub fn json(&self) -> (text: heapless::String<64>)
        ensures
            wire_text(text) == spec_from_wire(wire_text(self.data)),
    {
        from_wire(&self.data)
    }

    /// The property that the request carries.
    ///
    /// The caller decodes the text that [`Self::json`] returns, once as
    /// thresholds and once as a calibration, and hands over what each
    /// attempt gave. The request's name selects between them.
    pub fn property(
        &self,
        thresholds: Option<InterlockThresholds>,
        transform: Option<LinearTransformation>,
    ) -> (result: Result<Property, Error>)
        ensures
            result == Self::spec_property(self.prop, thresholds, transform),
    {
        match self.prop {
            PropertyId::InterlockThresholds => match thresholds {
                Some(value) => Ok(Property::InterlockThresholds(value)),
                None => Err(Error::Invalid),
            },
            PropertyId::OutputPowerTransform => match transform {
                Some(value) => Ok(Property::OutputPowerTransform(value)),
                None => Err(Error::Invalid),
            },
            PropertyId::InputPowerTransform => match transform {
                Some(value) => Ok(Property::InputPowerTransform(value)),
                None => Err(Error::Invalid),
            },
            PropertyId::ReflectedPowerTransform => match transform {
                Some(value) => Ok(Property::ReflectedPowerTransform(value)),
                None => Err(Error::Invalid),
            },
        }
    }
}

/// What a request asks a channel to do.
#[derive(Clone, Copy, Debug, PartialEq, Eq, Structural)]
pub enum ChannelAction {
    Enable,
    Disable,
    Powerup,
    Save,
}

impl ChannelAction {
    /// The message that confirms the action.
    pub open spec fn spec_confirmation(self) -> Seq<char> {
        match self {
            ChannelAction::Enable => "Channel enabled"@,
            ChannelAction::Disable => "Channel disabled"@,
            ChannelAction::Powerup => "Channel powered"@,
            ChannelAction::Save => "Configuration saved"@,
        }
    }

    /// The message that confirms the action.
    pub fn confirmation(&self) -> (text: &'static str)
        ensures
            text@ == self.spec_confirmation(),
            utf8_len(text@) <= 256,
    {
        proof {
            reveal_strlit("Channel enabled");
            reveal_strlit("Channel disabled");
            reveal_strlit("Channel powered");
            reveal_strlit("Configuration saved");
            lemma_utf8_len_bound("Channel enabled"@);
            lemma_utf8_len_bound("Channel disabled"@);
            lemma_utf8_len_bound("Channel powered"@);
            lemma_utf8_len_bound("Configuration saved"@);
        }
        match self {
            ChannelAction::Enable => "Channel enabled",
            ChannelAction::Disable => "Channel disabled",
            ChannelAction::Powerup => "Channel powered",
            ChannelAction::Save => "Configuration saved",
        }
    }
}

/// A request for an action on a channel.
#[derive(Clone, Copy, Debug)]
pub struct ChannelRequest {
    pub channel: Channel,
    pub action: ChannelAction,
}

/// A request to tune the bias of a channel to a drain current.
#[derive(Clone, Copy, Debug)]
pub struct ChannelTuneRequest {
    pub channel: Channel,
    /// The drain current to tune to, in microamperes.
    pub current: i32,
}

/// The answer to a tuning request that succeeded.
#[derive(Clone, Copy, Debug, PartialEq, Eq, Structural)]
pub struct ChannelTuneResponse {
    pub code: u32,
    /// The bias voltage at which the search settled, in millivolts.
    pub vgs: i32,
    /// The drain current measured at it, in microamperes.
    pub ids: i32,
}

impl ChannelTuneResponse {
    /// Answers a tuning request with the bias voltage at which the search
    /// settled and the drain current measured at it.
    pub fn okay(vgs: i32, ids: i32) -> (response: Self)
        ensures
            response == (ChannelTuneResponse { code: 200, vgs, ids }),
    {
        ChannelTuneResponse { code: 200, vgs, ids }
    }
}

/// The general answer to a request: a code and a message of at most 256
/// bytes.
pub struct Response {
    pub code: u32,
    pub msg: heapless::String<256>,
}

impl Response {
    /// Whether the response reports the given outcome: code 200 with the
    /// confirmation, or code 400 with the name of the error.
    pub open spec fn reports(&self, outcome: Result<(), Error>, confirmation: Seq<char>) -> bool {
        match outcome {
            Ok(()) => self.code == 200 && text_256(self.msg) == confirmation,
            Err(error) => self.code == 400 && text_256(self.msg) == error.spec_name(),
        }
    }

    /// A response with the given code and message. The message must fit
    /// into the 256 bytes that a response has for it.
    fn with(code: u32, msg: &str) -> (response: Self)
        requires
            utf8_len(msg@) <= 256,
        ensures
            response.code == code,
            text_256(response.msg) == msg@,
    {
        Response { code, msg: text_256_from(msg).unwrap() }
    }

    /// Reports success, with a message for the reader. The message must
    /// fit into the 256 bytes that a response has for it.
    pub fn okay(msg: &str) -> (response: Self)
        requires
            utf8_len(msg@) <= 256,
        ensures
            response.code == 200,
            text_256(response.msg) == msg@,
    {
        Self::with(200, msg)
    }

    /// Reports failure, with a message for the reader. The message must
    /// fit into the 256 bytes that a response has for it.
    pub fn error_msg(msg: &str) -> (response: Self)
        requires
            utf8_len(msg@) <= 256,
        ensures
            response.code == 400,
            text_256(response.msg) == msg@,
    {
        Self::with(400, msg)
    }

    /// Reports the failure of an operation; the message is the name of
    /// the error.
    pub fn error(error: Error) -> (response: Self)
        ensures
            response.code == 400,
            text_256(response.msg) == error.spec_name(),
    {
        let name = error.name();
        proof {
            lemma_utf8_len_bound(name@);
        }
        Self::with(400, name)
    }

    /// Reports the outcome of an operation: success with the given
    /// confirmation, which must fit into 256 bytes, or the failure.
    pub fn from_result(outcome: Result<(), Error>, confirmation: &str) -> (response: Self)
        requires
            utf8_len(confirmation@) <= 256,
        ensures
            response.reports(outcome, confirmation@),
    {
        match outcome {
            Ok(()) => Response::okay(confirmation),
            Err(error) => Response::error(error),
        }
    }
}

/// Answers a message under a topic that the device does not serve.
pub fn handle_unexpected_topic() -> (response: Response)
    ensures
        response.code == 400,
        text_256(response.msg) == "Unexpected topic"@,
{
    proof {
        reveal_strlit("Unexpected topic");
        lemma_utf8_len_bound("Unexpected topic"@);
    }
    Response::error_msg("Unexpected topic")
}

/// Handles a request for an action on a channel. `request` is `None` where
/// the message could not be decoded.
///
/// An undecodable message is answered with code 400 and touches nothing.
/// Otherwise the action is carried out and its outcome reported.
pub fn handle_channel_update<
    B: ModuleBus,
    L: ControlLines,
    S: ConfigStorage,
    M: BusSwitch,
    A: SampleConverter,
>(request: Option<ChannelRequest>, channels: &mut BoosterChannels<B, L, S, M, A>) -> (response:
    Response)
    ensures
        match request {
            None => response.code == 400 && text_256(response.msg) == "Failed to decode data"@
                && *final(channels) == *old(channels),
            Some(request) => exists|outcome: Result<(), Error>|
                {
                    &&& #[trigger] response.reports(outcome, request.action.spec_confirmation())
                    &&& match request.action {
                        ChannelAction::Enable => final(channels).power_outcome(
                            old(channels),
                            request.channel,
                            true,
                            outcome,
                        ),
                        ChannelAction::Disable => final(channels).disable_outcome(
                            old(channels),
                            request.channel,
                            outcome,
                        ),
                        ChannelAction::Powerup => final(channels).power_outcome(
                            old(channels),
                            request.channel,
                            false,
                            outcome,
                        ),
                        ChannelAction::Save => final(channels).save_outcome(
                            old(channels),
                            request.channel,
                            outcome,
                        ),
                    }
                },
        },
{
    let request = match request {
        Some(request) => request,
        None => {
            proof {
                reveal_strlit("Failed to decode data");
                lemma_utf8_len_bound("Failed to decode data"@);
            }
            return Response::error_msg("Failed to decode data");
        },
    };
    let outcome = match request.action {
        ChannelAction::Enable => channels.enable_channel(request.channel),
        ChannelAction::Disable => channels.disable_channel(request.channel),
        ChannelAction::Powerup => channels.power_channel(request.channel),
        ChannelAction::Save => channels.save_configuration(request.channel),
    };
    Response::from_result(outcome, request.action.confirmation())
}

/// Handles a request to read a property. `request` is `None` where the
/// message could not be decoded.
///
/// Returns the property, which the caller encodes and answers with
/// [`PropertyReadResponse::okay`], or the response that reports why there
/// is none.
pub fn handle_channel_property_read<
    B: ModuleBus,
    L: ControlLines,
    S: ConfigStorage,
    M: BusSwitch,
    A: SampleConverter,
>(request: Option<PropertyReadRequest>, channels: &mut BoosterChannels<B, L, S, M, A>) -> (result:
    Result<Property, Response>)
    ensures
        match request {
            None => *final(channels) == *old(channels) && (result matches Err(response)
                && response.code == 400 && text_256(response.msg) == "Failed to decode read request"@),
            Some(request) => exists|outcome: Result<Property, Error>|
                {
                    &&& #[trigger] final(channels).read_outcome(
                        old(channels),
                        request.channel,
                        request.prop,
                        outcome,
                    )
                    &&& match outcome {
                        Ok(value) => result matches Ok(property) && property == value,
                        Err(error) => result matches Err(response) && response.code == 400
                            && text_256(response.msg) == error.spec_name(),
                    }
                },
        },
{
    let request = match request {
        Some(request) => request,
        None => {
            proof {
                reveal_strlit("Failed to decode read request");
                lemma_utf8_len_bound("Failed to decode read request"@);
            }
            return Err(Response::error_msg("Failed to decode read request"));
        },
    };
    let outcome = channels.read_property(request.channel, request.prop);
    match outcome {
        Ok(property) => Ok(property),
        Err(error) => Err(Response::error(error)),
    }
}

/// Handles a request to write a property. `request` is `None` where the
/// message could not be decoded; `thresholds` and `transform` are what
/// the text of [`PropertyWriteRequest::json`] reads as.
///
/// A message or a property that cannot be decoded is answered with code
/// 400 and touches nothing. Otherwise the property is written and the
/// outcome reported.
pub fn handle_channel_property_write<
    B: ModuleBus,
    L: ControlLines,
    S: ConfigStorage,
    M: BusSwitch,
    A: SampleConverter,
>(
    request: Option<PropertyWriteRequest>,
    thresholds: Option<InterlockThresholds>,
    transform: Option<LinearTransformation>,
    channels: &mut BoosterChannels<B, L, S, M, A>,
) -> (response: Response)
    ensures
        match request {
            None => response.code == 400 && text_256(response.msg) == "Failed to decode read request"@
                && *final(channels) == *old(channels),
            Some(request) => match PropertyWriteRequest::spec_property(
                request.prop,
                thresholds,
                transform,
            ) {
                Err(_) => response.code == 400 && text_256(response.msg) == "Failed to decode property"@
                    && *final(channels) == *old(channels),
                Ok(property) => exists|outcome: Result<(), Error>|
                    {
                        &&& #[trigger] response.reports(outcome, "Property update successful"@)
                        &&& final(channels).write_outcome(
                            old(channels),
                            request.channel,
                            property,
                            outcome,
                        )
                    },
            },
        },
{
    let request = match request {
        Some(request) => request,
        None => {
            proof {
                reveal_strlit("Failed to decode read request");
                lemma_utf8_len_bound("Failed to decode read request"@);
            }
            return Response::error_msg("Failed to decode read request");
        },
    };
    let property = match request.property(thresholds, transform) {
        Ok(property) => property,
        Err(_) => {
            proof {
                reveal_strlit("Failed to decode property");
                lemma_utf8_len_bound("Failed to decode property"@);
            }
            return Response::error_msg("Failed to decode property");
        },
    };
    let outcome = channels.write_property(request.channel, property);
    proof {
        reveal_strlit("Property update successful");
        lemma_utf8_len_bound("Property update successful"@);
    }
    Response::from_result(outcome, "Property update successful")
}

/// Handles a request to tune the bias of a channel. `request` is `None`
/// where the message could not be decoded.
///
/// Returns the answer with the bias voltage at which the search settled
/// and the drain current measured at it, or the response that reports
/// why there is none.
pub fn handle_channel_tune<
    B: ModuleBus,
    L: ControlLines,
    S: ConfigStorage,
    M: BusSwitch,
    A: SampleConverter,
    D: SettleDelay,
>(
    request: Option<ChannelTuneRequest>,
    channels: &mut BoosterChannels<B, L, S, M, A>,
    delay: &mut D,
) -> (result: Result<ChannelTuneResponse, Response>)
    ensures
        match request {
            None => *final(channels) == *old(channels) && *final(delay) == *old(delay) && (
            result matches Err(response) && response.code == 400 && text_256(response.msg)
                == "Failed to decode data"@),
            Some(request) => exists|outcome: Result<(i32, i32), Error>|
                {
                    &&& #[trigger] final(channels).tune_outcome(
                        old(channels),
                        request.channel,
                        request.current,
                        outcome,
                    )
                    &&& match outcome {
                        Ok((vgs, ids)) => result matches Ok(response) && response == (
                        ChannelTuneResponse { code: 200, vgs, ids }),
                        Err(error) => result matches Err(response) && response.code == 400
                            && text_256(response.msg) == error.spec_name(),
                    }
                },
        },
{
    let request = match request {
        Some(request) => request,
        None => {
            proof {
                reveal_strlit("Failed to decode data");
                lemma_utf8_len_bound("Failed to decode data"@);
            }
            return Err(Response::error_msg("Failed to decode data"));
        },
    };
    let outcome = channels.tune_channel(request.channel, request.current, delay);
    assert(final(channels).tune_outcome(
        old(channels),
        request.channel,
        request.current,
        outcome,
    ));
    match outcome {
        Ok((vgs, ids)) => Ok(ChannelTuneResponse::okay(vgs, ids)),
        Err(error) => Err(Response::error(error)),
    }
}

/// The requests that the control interface serves, each under its own
/// topic.
#[derive(Clone, Copy, Debug, PartialEq, Eq, Structural)]
pub enum Route {
    /// `channel/state`: an action on a channel.
    ChannelState,
    /// `channel/tune`: tuning of the bias.
    ChannelTune,
    /// `channel/read`: reading of a property.
    ChannelRead,
    /// `channel/write`: writing of a property.
    ChannelWrite,
}

impl Route {
    /// The topic of the route, below the identifier of the device.
    pub open spec fn spec_postfix(self) -> Seq<char> {
        match self {
            Route::ChannelState => "channel/state"@,
            Route::ChannelTune => "channel/tune"@,
            Route::ChannelRead => "channel/read"@,
            Route::ChannelWrite => "channel/write"@,
        }
    }

    /// The topic of the route, below the identifier of the device.
    pub fn postfix(&self) -> (text: &'static str)
        ensures
            text@ == self.spec_postfix(),
            utf8_len(text@) <= 13,
    {
        proof {
            reveal_strlit("channel/state");
            reveal_strlit("channel/tune");
            reveal_strlit("channel/read");
            reveal_strlit("channel/write");
            lemma_utf8_len_ascii("channel/state"@);
            lemma_utf8_len_ascii("channel/tune"@);
            lemma_utf8_len_ascii("channel/read"@);
            lemma_utf8_len_ascii("channel/write"@);
        }
        match self {
            Route::ChannelState => "channel/state",
            Route::ChannelTune => "channel/tune",
            Route::ChannelRead => "channel/read",
            Route::ChannelWrite => "channel/write",
        }
    }
}

/// Where an incoming message goes.
#[derive(Clone, Copy, Debug, PartialEq, Eq, Structural)]
pub enum Routed {
    /// The message is a request of the given kind.
    To(Route),
    /// The message is addressed to this device under a topic that it does
    /// not serve.
    Unexpected,
    /// The message is addressed to another device and is ignored.
    Foreign,
}

/// The position of the first slash in a text, or the length of the text
/// where it has none.
pub open spec fn first_slash(topic: Seq<char>) -> int
    decreases topic.len(),
{
    if topic.len() == 0 || topic[0] == '/' {
        0
    } else {
        1 + first_slash(topic.drop_first())
    }
}

/// Where a message under `topic` goes on the device with identifier `id`.
///
/// A topic is the identifier of a device, a slash and the topic of a
/// route. A topic without a slash addresses no device.
pub open spec fn spec_route(id: Seq<char>, topic: Seq<char>) -> Routed {
    let slash = first_slash(topic);
    if slash >= topic.len() || topic.take(slash) != id {
        Routed::Foreign
    } else {
        let route = topic.skip(slash + 1);
        if route == Route::ChannelState.spec_postfix() {
            Routed::To(Route::ChannelState)
        } else if route == Route::ChannelTune.spec_postfix() {
            Routed::To(Route::ChannelTune)
        } else if route == Route::ChannelRead.spec_postfix() {
            Routed::To(Route::ChannelRead)
        } else if route == Route::ChannelWrite.spec_postfix() {
            Routed::To(Route::ChannelWrite)
        } else {
            Routed::Unexpected
        }
    }
}

/// The first slash lies within the text or at its end; no slash lies
/// before it, and where it lies within the text, a slash is there.
pub proof fn lemma_first_slash(topic: Seq<char>)
    ensures
        0 <= first_slash(topic) <= topic.len(),
        forall|i: int| 0 <= i < first_slash(topic) ==> topic[i] != '/',
        first_slash(topic) < topic.len() ==> topic[first_slash(topic)] == '/',
    decreases topic.len(),
{
    if topic.len() == 0 || topic[0] == '/' {
    } else {
        lemma_first_slash(topic.drop_first());
        assert forall|i: int| 0 <= i < first_slash(topic) implies topic[i] != '/' by {
            if i > 0 {
                assert(topic[i] == topic.drop_first()[i - 1]);
            }
        }
    }
}

/// A position is that of the first slash if no slash lies before it and
/// it is the end of the text or holds a slash.
pub proof fn lemma_first_slash_is(topic: Seq<char>, at: int)
    requires
        0 <= at <= topic.len(),
        forall|i: int| 0 <= i < at ==> topic[i] != '/',
        at < topic.len() ==> topic[at] == '/',
    ensures
        first_slash(topic) == at,
{
    lemma_first_slash(topic);
    let found = first_slash(topic);
    if found < at {
        assert(topic[found] == '/');
    } else if found > at {
        assert(topic[at] != '/');
    }
}

/// Finds the first slash of a text.
fn find_slash(topic: &str) -> (at: usize)
    ensures
        at == first_slash(topic@),
        at <= topic@.len(),
{
    let count = topic.unicode_len();
    let mut at: usize = 0;
    while at < count && topic.get_char(at) != '/'
        invariant
            at <= count,
            count == topic@.len(),
            forall|i: int| 0 <= i < at ==> topic@[i] != '/',
        decreases count - at,
    {
        at += 1;
    }
    proof {
        lemma_first_slash_is(topic@, at as int);
    }
    at
}

/// Whether the part of `text` from `from` up to `to` reads `expected`.
fn part_reads(text: &str, from: usize, to: usize, expected: &str) -> (same: bool)
    requires
        from <= to <= text@.len(),
    ensures
        same == (text@.subrange(from as int, to as int) == expected@),
{
    let length = expected.unicode_len();
    if to - from != length {
        return false;
    }
    let mut index: usize = 0;
    while index < length
        invariant
            index <= length,
            length == expected@.len(),
            from + length == to,
            to <= text@.len(),
            forall|i: int| 0 <= i < index ==> text@[from + i] == expected@[i],
        decreases length - index,
    {
        if text.get_char(from + index) != expected.get_char(index) {
            assert(text@.subrange(from as int, to as int)[index as int] != expected@[index as int]);
            return false;
        }
        index += 1;
    }
    assert(text@.subrange(from as int, to as int) =~= expected@);
    true
}

/// What the control interface keeps between messages: whether its
/// subscriptions are in place, and the identifier of the device, of at
/// most 32 bytes.
pub struct ControlState {
    pub subscribed: bool,
    pub id: heapless::String<32>,
}

impl ControlState {
    /// The state of a device that has not subscribed yet. The identifier
    /// must fit into 32 bytes.
    pub fn new(id: &str) -> (state: Self)
        requires
            utf8_len(id@) <= 32,
        ensures
            !state.subscribed,
            text_32(state.id) == id@,
    {
        ControlState { subscribed: false, id: text_32_from(id).unwrap() }
    }

    /// The topic of an identifier and a postfix: the identifier, a slash
    /// and the postfix, which together must fit into the 64 bytes of a
    /// topic.
    fn topic_of(id: &str, topic_postfix: &str) -> (topic: heapless::String<64>)
        requires
            utf8_len(id@) + 1 + utf8_len(topic_postfix@) <= 64,
        ensures
            wire_text(topic) == id@ + seq!['/'] + topic_postfix@,
    {
        let mut topic = id.to_owned();
        proof {
            reveal_strlit("/");
            assert("/"@ =~= seq!['/']);
            lemma_utf8_len_ascii("/"@);
            lemma_utf8_len_concat(id@, "/"@);
            lemma_utf8_len_concat(id@ + "/"@, topic_postfix@);
        }
        topic.append("/");
        topic.append(topic_postfix);
        text_64_from(topic.as_str()).unwrap()
    }

    /// The topic below the identifier of the device: the identifier, a
    /// slash and `topic_postfix`, which together must fit into the 64
    /// bytes of a topic.
    pub fn generate_topic_string(&self, topic_postfix: &str) -> (topic: heapless::String<64>)
        requires
            utf8_len(text_32(self.id)) + 1 + utf8_len(topic_postfix@) <= 64,
        ensures
            wire_text(topic) == text_32(self.id) + seq!['/'] + topic_postfix@,
    {
        Self::topic_of(text_32_as_str(&self.id), topic_postfix)
    }

    /// The topic below the identifier of the device, or `None` where the
    /// identifier, a slash and `topic_postfix` do not fit into the 64
    /// bytes of a topic.
    pub fn topic_string(&self, topic_postfix: &str) -> (topic: Option<heapless::String<64>>)
        ensures
            topic is Some <==> utf8_len(text_32(self.id)) + 1 + utf8_len(topic_postfix@) <= 64,
            topic matches Some(name) ==> wire_text(name) == text_32(self.id) + seq!['/']
                + topic_postfix@,
    {
        let id = text_32_as_str(&self.id).as_bytes().len();
        let postfix = topic_postfix.as_bytes().len();
        if postfix <= 63 && id <= 63 - postfix {
            Some(self.generate_topic_string(topic_postfix))
        } else {
            None
        }
    }

    /// Whether the subscriptions have to be made now: they are missing
    /// and the client is connected.
    pub fn must_subscribe(&self, connected: bool) -> (due: bool)
        ensures
            due == (!self.subscribed && connected),
    {
        !self.subscribed && connected
    }

    /// The four topics to subscribe to, one for each route.
    pub fn subscriptions(&self) -> (topics: Vec<heapless::String<64>>)
        ensures
            topics@.len() == 4,
            wire_text(topics@[0]) == text_32(self.id) + seq!['/']
                + Route::ChannelState.spec_postfix(),
            wire_text(topics@[1]) == text_32(self.id) + seq!['/']
                + Route::ChannelTune.spec_postfix(),
            wire_text(topics@[2]) == text_32(self.id) + seq!['/']
                + Route::ChannelRead.spec_postfix(),
            wire_text(topics@[3]) == text_32(self.id) + seq!['/']
                + Route::ChannelWrite.spec_postfix(),
    {
        // The identifier takes at most 32 bytes and the topic of a route
        // at most 13.
        let id = text_32_as_str(&self.id);
        let mut topics: Vec<heapless::String<64>> = Vec::new();
        topics.push(Self::topic_of(id, Route::ChannelState.postfix()));
        topics.push(Self::topic_of(id, Route::ChannelTune.postfix()));
        topics.push(Self::topic_of(id, Route::ChannelRead.postfix()));
        topics.push(Self::topic_of(id, Route::ChannelWrite.postfix()));
        topics
    }

    /// Records that the subscriptions are in place.
    pub fn subscriptions_made(&mut self)
        ensures
            final(self).subscribed,
            final(self).id == old(self).id,
    {
        self.subscribed = true;
    }

    /// Records that the connection was lost, and with it the
    /// subscriptions: they are made anew once the client is connected
    /// again.
    pub fn connection_lost(&mut self)
        ensures
            !final(self).subscribed,
            final(self).id == old(self).id,
    {
        self.subscribed = false;
    }

    /// Decides where a message under `topic` goes.
    pub fn route(&self, topic: &str) -> (routed: Routed)
        ensures
            routed == spec_route(text_32(self.id), topic@),
    {
        let length = topic.unicode_len();
        let slash = find_slash(topic);
        if slash >= length {
            return Routed::Foreign;
        }
        proof {
            assert(topic@.take(slash as int) =~= topic@.subrange(0, slash as int));
            assert(topic@.skip(slash + 1) =~= topic@.subrange(slash + 1, length as int));
        }
        if !part_reads(topic, 0, slash, text_32_as_str(&self.id)) {
            return Routed::Foreign;
        }
        if part_reads(topic, slash + 1, length, Route::ChannelState.postfix()) {
            Routed::To(Route::ChannelState)
        } else if part_reads(topic, slash + 1, length, Route::ChannelTune.postfix()) {
            Routed::To(Route::ChannelTune)
        } else if part_reads(topic, slash + 1, length, Route::ChannelRead.postfix()) {
            Routed::To(Route::ChannelRead)
        } else if part_reads(topic, slash + 1, length, Route::ChannelWrite.postfix()) {
            Routed::To(Route::ChannelWrite)
        } else {
            Routed::Unexpected
        }
    }

    /// The topic under which a request is answered: the one that the
    /// request asks for, or, where it asks for none, the log of the
    /// device.
    pub fn response_topic(&self, requested: Option<&str>) -> (topic: String)
        ensures
            topic@ == (match requested {
                Some(wanted) => wanted@,
                None => text_32(self.id) + seq!['/'] + "log"@,
            }),
    {
        match requested {
            Some(wanted) => wanted.to_owned(),
            None => {
                proof {
                    reveal_strlit("log");
                    lemma_utf8_len_ascii("log"@);
                }
                let log = Self::topic_of(text_32_as_str(&self.id), "log");
                wire_as_str(&log).to_owned()
            },
        }
    }
}

} // verus!
