use vstd::prelude::*;
use vstd::string::StringSliceAdditionalSpecFns;

use crate::client::EventHandlerError;
use crate::data::quality_of_service::QualityOfService;
use crate::packets::publish::ApplicationMessage;

verus! {

// The messages of a device with a button and a LED: it publishes the state of its button,
// and follows the state of its LED as published to it, each as a JSON boolean.

/// The topic on which the device publishes the state of its button
pub const TOPIC_BUTTON: &'static str = "embassy-example-rp2040w-button";

/// The topic on which the device receives the state of its LED
pub const TOPIC_LED: &'static str = "embassy-example-rp2040w-led";

/// Whether a byte is JSON whitespace: space, line feed, tab or carriage return
pub open spec fn json_whitespace(b: u8) -> bool {
    b == 0x20u8 || b == 0x0au8 || b == 0x09u8 || b == 0x0du8
}

/// Whether bytes are all JSON whitespace
pub open spec fn json_blank(s: Seq<u8>) -> bool {
    forall|i: int| 0 <= i < s.len() ==> json_whitespace(#[trigger] s[i])
}

/// Whether JSON text is a word, with nothing but whitespace around it
pub open spec fn json_word(text: Seq<u8>, word: Seq<u8>) -> bool {
    exists|a: int|
        0 <= a && a + word.len() <= text.len() && json_blank(#[trigger] text.subrange(0, a))
            && text.subrange(a, a + word.len()) == word && json_blank(text.subrange(a + word.len(), text.len() as int))
}

/// The bytes of the JSON word `true`
pub open spec fn json_true() -> Seq<u8> {
    seq![0x74u8, 0x72u8, 0x75u8, 0x65u8]
}

/// The bytes of the JSON word `false`
pub open spec fn json_false() -> Seq<u8> {
    seq![0x66u8, 0x61u8, 0x6cu8, 0x73u8, 0x65u8]
}

/// Read a JSON boolean. Calls `serde_json_core::from_slice_escaped` of the serde-json-core
/// crate for a `bool`, with a buffer for unescaping strings, which a boolean does not use.
/// That function skips whitespace, reads the word `true` or `false`, and fails unless only
/// whitespace follows; so the text gives a boolean exactly when it is that word with nothing
/// but whitespace around it.
#[verifier::external_body]
fn parse_json_bool(text: &[u8]) -> (r: Option<bool>)
    ensures
        r == Some(true) <==> json_word(text@, json_true()),
        r == Some(false) <==> json_word(text@, json_false()),
{
    let mut unescape = [0u8; 64];
    match serde_json_core::from_slice_escaped::<bool>(text, &mut unescape) {
        Ok((value, _)) => Some(value),
        Err(_) => None,
    }
}

/// Whether two byte sequences are equal
pub fn bytes_equal(a: &[u8], b: &[u8]) -> (r: bool)
    ensures
        r == (a@ == b@),
{
    if a.len() != b.len() {
        return false;
    }
    let mut i: usize = 0;
    while i < a.len()
        invariant
            a@.len() == b@.len(),
            i <= a@.len(),
            forall|j: int| 0 <= j < i ==> a@[j] == b@[j],
        decreases a@.len() - i,
    {
        if a[i] != b[i] {
            return false;
        }
        i = i + 1;
    }
    assert(a@ =~= b@);
    true
}

/// An action of the device: publishing the state of its button
#[derive(Debug, PartialEq, Eq, Clone, Copy, Structural)]
pub enum Action {
    /// The button is pressed (`true`) or released
    Button(bool),
}

impl Action {
    /// What performing the action publishes: the topic, the payload, the quality of service
    /// and the retain flag. A button state is published on [TOPIC_BUTTON] as the JSON
    /// boolean `true` or `false`, with quality of service 1, not retained.
    pub fn publication(&self) -> (r: (&'static str, &'static str, QualityOfService, bool))
        ensures
            r.0 == TOPIC_BUTTON,
            r.1@ == (match *self {
                Action::Button(pressed) => if pressed {
                    "true"@
                } else {
                    "false"@
                },
            }),
            r.2 == QualityOfService::Qos1,
            !r.3,
    {
        match self {
            Action::Button(pressed) => {
                let payload = if *pressed {
                    "true"
                } else {
                    "false"
                };
                (TOPIC_BUTTON, payload, QualityOfService::Qos1, false)
            },
        }
    }
}

/// An event of the device: the state that its LED is to take
#[derive(Debug, PartialEq, Eq, Clone, Copy, Structural)]
pub enum Event {
    /// The LED is to be on (`true`) or off
    Led(bool),
}

/// The event that a payload for the LED gives, once read as a JSON boolean: a boolean is
/// the state of the LED; anything else is [EventHandlerError::InvalidApplicationMessage]
pub fn led_event(parsed: Option<bool>) -> (r: Result<Event, EventHandlerError>)
    ensures
        r == match parsed {
            Some(on) => Ok::<Event, EventHandlerError>(Event::Led(on)),
            None => Err::<Event, EventHandlerError>(EventHandlerError::InvalidApplicationMessage),
        },
{
    match parsed {
        Some(on) => Ok(Event::Led(on)),
        None => Err(EventHandlerError::InvalidApplicationMessage),
    }
}

impl Event {
    /// The event that an application message gives: a message on [TOPIC_LED] whose payload
    /// is the JSON boolean `true` or `false` sets the LED; another payload there is
    /// [EventHandlerError::InvalidApplicationMessage]; a message on any other topic is
    /// [EventHandlerError::UnexpectedApplicationMessageTopic]
    pub fn from_application_message<const P: usize>(message: &ApplicationMessage<P>) -> (r: Result<Event, EventHandlerError>)
        ensures
            message.topic_name.spec_bytes() != TOPIC_LED.spec_bytes() ==> r == Err::<Event, EventHandlerError>(EventHandlerError::UnexpectedApplicationMessageTopic),
            message.topic_name.spec_bytes() == TOPIC_LED.spec_bytes() ==> {
                &&& json_word(message.payload@, json_true()) ==> r == Ok::<Event, EventHandlerError>(Event::Led(true))
                &&& json_word(message.payload@, json_false()) ==> r == Ok::<Event, EventHandlerError>(Event::Led(false))
                &&& !json_word(message.payload@, json_true()) && !json_word(message.payload@, json_false())
                    ==> r == Err::<Event, EventHandlerError>(EventHandlerError::InvalidApplicationMessage)
            },
    {
        if bytes_equal(message.topic_name.as_bytes(), TOPIC_LED.as_bytes()) {
            led_event(parse_json_bool(message.payload))
        } else {
            Err(EventHandlerError::UnexpectedApplicationMessageTopic)
        }
    }
}

} // verus!
