use vstd::prelude::*;
use vstd::string::StringSliceAdditionalSpecFns;

use crate::codec::encoding::{binary_steps, enc_u16, enc_u32, str_steps, vbi_steps, WriteStep};
use crate::codec::encoding::{lemma_dec_vbi_bound, read_vbi};
use crate::codec::mqtt_reader::{
    advanced, lemma_advanced_trans, parse_binary, parse_str, parse_string_pair, parse_u16,
    parse_u32, parse_u8, lemma_parse_str_len, lemma_str_utf8_valid, utf8_valid, MqttBufReader,
};
use crate::codec::mqtt_writer::{put_outcome, MqttWriter, Result};
use crate::codec::encoding::{steps_bytes, steps_failure};
use crate::codec::roundtrip::{
    lemma_binary_steps_roundtrip, lemma_steps_append, lemma_steps_one,
    lemma_str_steps_roundtrip, lemma_string_pair_steps_roundtrip, lemma_uint_steps_roundtrip,
    lemma_vbi_steps_roundtrip,
};
use crate::error::PacketReadError;
use crate::codec::write::{lemma_put_stop, lemma_put_then, Write};
use crate::data::string_pair::StringPair;

verus! {

/// The kind of value that a property holds, as section 2.2.2.2 of the MQTT v5 spec gives it
#[derive(Debug, PartialEq, Eq, Clone, Copy, Structural)]
pub enum PropertyKind {
    Byte,
    TwoByteInteger,
    FourByteInteger,
    VariableByteInteger,
    Text,
    Binary,
    Pair,
}

/// The value of a property, with strings and binary data given by their bytes
pub enum PropertyValue {
    Byte(u8),
    TwoByteInteger(u16),
    FourByteInteger(u32),
    VariableByteInteger(u32),
    Text(Seq<u8>),
    Binary(Seq<u8>),
    Pair(Seq<u8>, Seq<u8>),
}

/// A property as a mathematical value: its identifier and its value
pub struct PropertyView {
    pub id: nat,
    pub value: PropertyValue,
}

/// The value of a property, borrowed from the data it was read from
#[derive(Debug, PartialEq, Eq, Clone, Copy)]
pub enum PropertyValueRef<'a> {
    Byte(u8),
    TwoByteInteger(u16),
    FourByteInteger(u32),
    VariableByteInteger(u32),
    Text(&'a str),
    Binary(&'a [u8]),
    Pair(StringPair<'a>),
}

/// The value of a borrowed property value
pub open spec fn value_ref_view(v: PropertyValueRef) -> PropertyValue {
    match v {
        PropertyValueRef::Byte(x) => PropertyValue::Byte(x),
        PropertyValueRef::TwoByteInteger(x) => PropertyValue::TwoByteInteger(x),
        PropertyValueRef::FourByteInteger(x) => PropertyValue::FourByteInteger(x),
        PropertyValueRef::VariableByteInteger(x) => PropertyValue::VariableByteInteger(x),
        PropertyValueRef::Text(s) => PropertyValue::Text(s.spec_bytes()),
        PropertyValueRef::Binary(b) => PropertyValue::Binary(b@),
        PropertyValueRef::Pair(p) => PropertyValue::Pair(
            p.spec_name().spec_bytes(),
            p.spec_value().spec_bytes(),
        ),
    }
}

/// The kind of a borrowed property value
pub open spec fn value_ref_kind(v: PropertyValueRef) -> PropertyKind {
    match v {
        PropertyValueRef::Byte(_) => PropertyKind::Byte,
        PropertyValueRef::TwoByteInteger(_) => PropertyKind::TwoByteInteger,
        PropertyValueRef::FourByteInteger(_) => PropertyKind::FourByteInteger,
        PropertyValueRef::VariableByteInteger(_) => PropertyKind::VariableByteInteger,
        PropertyValueRef::Text(_) => PropertyKind::Text,
        PropertyValueRef::Binary(_) => PropertyKind::Binary,
        PropertyValueRef::Pair(_) => PropertyKind::Pair,
    }
}

/// The kind of a property value
pub open spec fn value_kind(v: PropertyValue) -> PropertyKind {
    match v {
        PropertyValue::Byte(_) => PropertyKind::Byte,
        PropertyValue::TwoByteInteger(_) => PropertyKind::TwoByteInteger,
        PropertyValue::FourByteInteger(_) => PropertyKind::FourByteInteger,
        PropertyValue::VariableByteInteger(_) => PropertyKind::VariableByteInteger,
        PropertyValue::Text(_) => PropertyKind::Text,
        PropertyValue::Binary(_) => PropertyKind::Binary,
        PropertyValue::Pair(_, _) => PropertyKind::Pair,
    }
}

/// The packets (and the will of a Connect packet) whose property lists a property may
/// appear in; acknowledgements of publishing (Puback, Pubrec, Pubrel, Pubcomp) and of
/// subscribing (Suback, Unsuback) all accept the same properties
#[derive(Debug, PartialEq, Eq, Clone, Copy, Structural)]
pub enum PropertyContext {
    Connect,
    Connack,
    Publish,
    Will,
    Acknowledgement,
    Subscribe,
    Unsubscribe,
    Disconnect,
    Auth,
}

/// The properties of a Connect packet
pub type ConnectProperty<'a> = Property<'a>;
/// The properties of the will of a Connect packet
pub type WillProperty<'a> = Property<'a>;
/// The properties of a Connack packet
pub type ConnackProperty<'a> = Property<'a>;
/// The properties of a Publish packet
pub type PublishProperty<'a> = Property<'a>;
/// The properties of a Puback packet
pub type PubackProperty<'a> = Property<'a>;
/// The properties of a Pubrec packet
pub type PubrecProperty<'a> = Property<'a>;
/// The properties of a Pubrel packet
pub type PubrelProperty<'a> = Property<'a>;
/// The properties of a Pubcomp packet
pub type PubcompProperty<'a> = Property<'a>;
/// The properties of a Subscribe packet
pub type SubscribeProperty<'a> = Property<'a>;
/// The properties of a Suback packet
pub type SubackProperty<'a> = Property<'a>;
/// The properties of an Unsubscribe packet
pub type UnsubscribeProperty<'a> = Property<'a>;
/// The properties of an Unsuback packet
pub type UnsubackProperty<'a> = Property<'a>;
/// The properties of a Disconnect packet
pub type DisconnectProperty<'a> = Property<'a>;
/// The properties of an Auth packet
pub type AuthProperty<'a> = Property<'a>;

/// A property of an MQTT v5 packet: each variant holds the value of the property with that
/// name, as listed in section 2.2.2.2 of the MQTT v5 spec. Each packet accepts only some
/// of the properties: see [PropertyContext].
#[derive(Debug, PartialEq, Eq, Clone, Copy)]
pub enum Property<'a> {
    PayloadFormatIndicator(u8),
    MessageExpiryInterval(u32),
    ContentType(&'a str),
    ResponseTopic(&'a str),
    CorrelationData(&'a [u8]),
    SubscriptionIdentifier(u32),
    SessionExpiryInterval(u32),
    AssignedClientIdentifier(&'a str),
    ServerKeepAlive(u16),
    AuthenticationMethod(&'a str),
    AuthenticationData(&'a [u8]),
    RequestProblemInformation(u8),
    WillDelayInterval(u32),
    RequestResponseInformation(u8),
    ResponseInformation(&'a str),
    ServerReference(&'a str),
    ReasonString(&'a str),
    ReceiveMaximum(u16),
    TopicAliasMaximum(u16),
    TopicAlias(u16),
    MaximumQoS(u8),
    RetainAvailable(u8),
    UserProperty(StringPair<'a>),
    MaximumPacketSize(u32),
    WildcardSubscriptionAvailable(u8),
    SubscriptionIdentifierAvailable(u8),
    SharedSubscriptionAvailable(u8),
}

/// The identifier of each property
pub open spec fn property_view(p: Property) -> PropertyView {
    match p {
        Property::PayloadFormatIndicator(v) => PropertyView { id: 0x01, value: PropertyValue::Byte(v) },
        Property::MessageExpiryInterval(v) => PropertyView { id: 0x02, value: PropertyValue::FourByteInteger(v) },
        Property::ContentType(v) => PropertyView { id: 0x03, value: PropertyValue::Text(v.spec_bytes()) },
        Property::ResponseTopic(v) => PropertyView { id: 0x08, value: PropertyValue::Text(v.spec_bytes()) },
        Property::CorrelationData(v) => PropertyView { id: 0x09, value: PropertyValue::Binary(v@) },
        Property::SubscriptionIdentifier(v) => PropertyView { id: 0x0B, value: PropertyValue::VariableByteInteger(v) },
        Property::SessionExpiryInterval(v) => PropertyView { id: 0x11, value: PropertyValue::FourByteInteger(v) },
        Property::AssignedClientIdentifier(v) => PropertyView { id: 0x12, value: PropertyValue::Text(v.spec_bytes()) },
        Property::ServerKeepAlive(v) => PropertyView { id: 0x13, value: PropertyValue::TwoByteInteger(v) },
        Property::AuthenticationMethod(v) => PropertyView { id: 0x15, value: PropertyValue::Text(v.spec_bytes()) },
        Property::AuthenticationData(v) => PropertyView { id: 0x16, value: PropertyValue::Binary(v@) },
        Property::RequestProblemInformation(v) => PropertyView { id: 0x17, value: PropertyValue::Byte(v) },
        Property::WillDelayInterval(v) => PropertyView { id: 0x18, value: PropertyValue::FourByteInteger(v) },
        Property::RequestResponseInformation(v) => PropertyView { id: 0x19, value: PropertyValue::Byte(v) },
        Property::ResponseInformation(v) => PropertyView { id: 0x1A, value: PropertyValue::Text(v.spec_bytes()) },
        Property::ServerReference(v) => PropertyView { id: 0x1C, value: PropertyValue::Text(v.spec_bytes()) },
        Property::ReasonString(v) => PropertyView { id: 0x1F, value: PropertyValue::Text(v.spec_bytes()) },
        Property::ReceiveMaximum(v) => PropertyView { id: 0x21, value: PropertyValue::TwoByteInteger(v) },
        Property::TopicAliasMaximum(v) => PropertyView { id: 0x22, value: PropertyValue::TwoByteInteger(v) },
        Property::TopicAlias(v) => PropertyView { id: 0x23, value: PropertyValue::TwoByteInteger(v) },
        Property::MaximumQoS(v) => PropertyView { id: 0x24, value: PropertyValue::Byte(v) },
        Property::RetainAvailable(v) => PropertyView { id: 0x25, value: PropertyValue::Byte(v) },
        Property::UserProperty(v) => PropertyView { id: 0x26, value: PropertyValue::Pair(v.spec_name().spec_bytes(), v.spec_value().spec_bytes()) },
        Property::MaximumPacketSize(v) => PropertyView { id: 0x27, value: PropertyValue::FourByteInteger(v) },
        Property::WildcardSubscriptionAvailable(v) => PropertyView { id: 0x28, value: PropertyValue::Byte(v) },
        Property::SubscriptionIdentifierAvailable(v) => PropertyView { id: 0x29, value: PropertyValue::Byte(v) },
        Property::SharedSubscriptionAvailable(v) => PropertyView { id: 0x2A, value: PropertyValue::Byte(v) },
    }
}

/// The kind of value of the property with an identifier, when it is a property identifier
pub open spec fn property_kind(id: nat) -> Option<PropertyKind> {
    if id == 0x01 {
        Some(PropertyKind::Byte)
    } else if id == 0x02 {
        Some(PropertyKind::FourByteInteger)
    } else if id == 0x03 {
        Some(PropertyKind::Text)
    } else if id == 0x08 {
        Some(PropertyKind::Text)
    } else if id == 0x09 {
        Some(PropertyKind::Binary)
    } else if id == 0x0B {
        Some(PropertyKind::VariableByteInteger)
    } else if id == 0x11 {
        Some(PropertyKind::FourByteInteger)
    } else if id == 0x12 {
        Some(PropertyKind::Text)
    } else if id == 0x13 {
        Some(PropertyKind::TwoByteInteger)
    } else if id == 0x15 {
        Some(PropertyKind::Text)
    } else if id == 0x16 {
        Some(PropertyKind::Binary)
    } else if id == 0x17 {
        Some(PropertyKind::Byte)
    } else if id == 0x18 {
        Some(PropertyKind::FourByteInteger)
    } else if id == 0x19 {
        Some(PropertyKind::Byte)
    } else if id == 0x1A {
        Some(PropertyKind::Text)
    } else if id == 0x1C {
        Some(PropertyKind::Text)
    } else if id == 0x1F {
        Some(PropertyKind::Text)
    } else if id == 0x21 {
        Some(PropertyKind::TwoByteInteger)
    } else if id == 0x22 {
        Some(PropertyKind::TwoByteInteger)
    } else if id == 0x23 {
        Some(PropertyKind::TwoByteInteger)
    } else if id == 0x24 {
        Some(PropertyKind::Byte)
    } else if id == 0x25 {
        Some(PropertyKind::Byte)
    } else if id == 0x26 {
        Some(PropertyKind::Pair)
    } else if id == 0x27 {
        Some(PropertyKind::FourByteInteger)
    } else if id == 0x28 {
        Some(PropertyKind::Byte)
    } else if id == 0x29 {
        Some(PropertyKind::Byte)
    } else if id == 0x2A {
        Some(PropertyKind::Byte)
    } else {
        None
    }
}

/// Whether a property identifier is accepted in a context, as section 2.2.2.2 of the
/// MQTT v5 spec lists them
pub open spec fn property_allowed(context: PropertyContext, id: nat) -> bool {
    match context {
        PropertyContext::Connect => id == 0x11 || id == 0x21 || id == 0x27 || id == 0x22 || id == 0x19 || id == 0x17 || id == 0x26 || id == 0x15 || id == 0x16,
        PropertyContext::Connack => id == 0x11 || id == 0x21 || id == 0x24 || id == 0x25 || id == 0x27 || id == 0x12 || id == 0x22 || id == 0x1F || id == 0x26 || id == 0x28 || id == 0x29 || id == 0x2A || id == 0x13 || id == 0x1A || id == 0x1C || id == 0x15 || id == 0x16,
        PropertyContext::Publish => id == 0x01 || id == 0x02 || id == 0x23 || id == 0x08 || id == 0x09 || id == 0x26 || id == 0x0B || id == 0x03,
        PropertyContext::Will => id == 0x18 || id == 0x01 || id == 0x02 || id == 0x03 || id == 0x08 || id == 0x09 || id == 0x26,
        PropertyContext::Acknowledgement => id == 0x1F || id == 0x26,
        PropertyContext::Subscribe => id == 0x0B || id == 0x26,
        PropertyContext::Unsubscribe => id == 0x26,
        PropertyContext::Disconnect => id == 0x11 || id == 0x1F || id == 0x26 || id == 0x1C,
        PropertyContext::Auth => id == 0x15 || id == 0x16 || id == 0x1F || id == 0x26,
    }
}

/// The packets in which each property may stand, property by property, as section 2.2.2.2
/// of the MQTT v5 spec lists them (Acknowledgement stands for Puback, Pubrec, Pubrel,
/// Pubcomp, Suback and Unsuback); no other identifier is a property anywhere.
pub proof fn lemma_property_contexts()
    ensures
        forall|c: PropertyContext| #[trigger] property_allowed(c, 0x01) <==> (c == PropertyContext::Publish || c == PropertyContext::Will),
        forall|c: PropertyContext| #[trigger] property_allowed(c, 0x02) <==> (c == PropertyContext::Publish || c == PropertyContext::Will),
        forall|c: PropertyContext| #[trigger] property_allowed(c, 0x03) <==> (c == PropertyContext::Publish || c == PropertyContext::Will),
        forall|c: PropertyContext| #[trigger] property_allowed(c, 0x08) <==> (c == PropertyContext::Publish || c == PropertyContext::Will),
        forall|c: PropertyContext| #[trigger] property_allowed(c, 0x09) <==> (c == PropertyContext::Publish || c == PropertyContext::Will),
        forall|c: PropertyContext| #[trigger] property_allowed(c, 0x0B) <==> (c == PropertyContext::Publish || c == PropertyContext::Subscribe),
        forall|c: PropertyContext| #[trigger] property_allowed(c, 0x11) <==> (c == PropertyContext::Connect || c == PropertyContext::Connack || c == PropertyContext::Disconnect),
        forall|c: PropertyContext| #[trigger] property_allowed(c, 0x12) <==> (c == PropertyContext::Connack),
        forall|c: PropertyContext| #[trigger] property_allowed(c, 0x13) <==> (c == PropertyContext::Connack),
        forall|c: PropertyContext| #[trigger] property_allowed(c, 0x15) <==> (c == PropertyContext::Connect || c == PropertyContext::Connack || c == PropertyContext::Auth),
        forall|c: PropertyContext| #[trigger] property_allowed(c, 0x16) <==> (c == PropertyContext::Connect || c == PropertyContext::Connack || c == PropertyContext::Auth),
        forall|c: PropertyContext| #[trigger] property_allowed(c, 0x17) <==> (c == PropertyContext::Connect),
        forall|c: PropertyContext| #[trigger] property_allowed(c, 0x18) <==> (c == PropertyContext::Will),
        forall|c: PropertyContext| #[trigger] property_allowed(c, 0x19) <==> (c == PropertyContext::Connect),
        forall|c: PropertyContext| #[trigger] property_allowed(c, 0x1A) <==> (c == PropertyContext::Connack),
        forall|c: PropertyContext| #[trigger] property_allowed(c, 0x1C) <==> (c == PropertyContext::Connack || c == PropertyContext::Disconnect),
        forall|c: PropertyContext| #[trigger] property_allowed(c, 0x1F) <==> (c == PropertyContext::Connack || c == PropertyContext::Acknowledgement || c == PropertyContext::Disconnect || c == PropertyContext::Auth),
        forall|c: PropertyContext| #[trigger] property_allowed(c, 0x21) <==> (c == PropertyContext::Connect || c == PropertyContext::Connack),
        forall|c: PropertyContext| #[trigger] property_allowed(c, 0x22) <==> (c == PropertyContext::Connect || c == PropertyContext::Connack),
        forall|c: PropertyContext| #[trigger] property_allowed(c, 0x23) <==> (c == PropertyContext::Publish),
        forall|c: PropertyContext| #[trigger] property_allowed(c, 0x24) <==> (c == PropertyContext::Connack),
        forall|c: PropertyContext| #[trigger] property_allowed(c, 0x25) <==> (c == PropertyContext::Connack),
        forall|c: PropertyContext| #[trigger] property_allowed(c, 0x26) <==> (c == PropertyContext::Connect || c == PropertyContext::Connack || c == PropertyContext::Publish || c == PropertyContext::Will || c == PropertyContext::Acknowledgement || c == PropertyContext::Subscribe || c == PropertyContext::Unsubscribe || c == PropertyContext::Disconnect || c == PropertyContext::Auth),
        forall|c: PropertyContext| #[trigger] property_allowed(c, 0x27) <==> (c == PropertyContext::Connect || c == PropertyContext::Connack),
        forall|c: PropertyContext| #[trigger] property_allowed(c, 0x28) <==> (c == PropertyContext::Connack),
        forall|c: PropertyContext| #[trigger] property_allowed(c, 0x29) <==> (c == PropertyContext::Connack),
        forall|c: PropertyContext| #[trigger] property_allowed(c, 0x2A) <==> (c == PropertyContext::Connack),
        forall|c: PropertyContext, id: nat| id != 0x01 && id != 0x02 && id != 0x03 && id != 0x08 && id != 0x09 && id != 0x0B && id != 0x11 && id != 0x12 && id != 0x13 && id != 0x15 && id != 0x16 && id != 0x17 && id != 0x18 && id != 0x19 && id != 0x1A && id != 0x1C && id != 0x1F && id != 0x21 && id != 0x22 && id != 0x23 && id != 0x24 && id != 0x25 && id != 0x26 && id != 0x27 && id != 0x28 && id != 0x29 && id != 0x2A ==> !#[trigger] property_allowed(c, id),
{
}

impl PropertyContext {
    /// Whether a property identifier is accepted in this context
    pub fn allows(&self, id: u32) -> (r: bool)
        ensures
            r == property_allowed(*self, id as nat),
    {
        match self {
            PropertyContext::Connect => id == 0x11 || id == 0x21 || id == 0x27 || id == 0x22 || id == 0x19 || id == 0x17 || id == 0x26 || id == 0x15 || id == 0x16,
            PropertyContext::Connack => id == 0x11 || id == 0x21 || id == 0x24 || id == 0x25 || id == 0x27 || id == 0x12 || id == 0x22 || id == 0x1F || id == 0x26 || id == 0x28 || id == 0x29 || id == 0x2A || id == 0x13 || id == 0x1A || id == 0x1C || id == 0x15 || id == 0x16,
            PropertyContext::Publish => id == 0x01 || id == 0x02 || id == 0x23 || id == 0x08 || id == 0x09 || id == 0x26 || id == 0x0B || id == 0x03,
            PropertyContext::Will => id == 0x18 || id == 0x01 || id == 0x02 || id == 0x03 || id == 0x08 || id == 0x09 || id == 0x26,
            PropertyContext::Acknowledgement => id == 0x1F || id == 0x26,
            PropertyContext::Subscribe => id == 0x0B || id == 0x26,
            PropertyContext::Unsubscribe => id == 0x26,
            PropertyContext::Disconnect => id == 0x11 || id == 0x1F || id == 0x26 || id == 0x1C,
            PropertyContext::Auth => id == 0x15 || id == 0x16 || id == 0x1F || id == 0x26,
        }
    }
}

impl<'a> Property<'a> {
    /// The identifier of this property
    pub fn identifier(&self) -> (r: u32)
        ensures
            r == property_view(*self).id,
    {
        match self {
            Property::PayloadFormatIndicator(_) => 0x01,
            Property::MessageExpiryInterval(_) => 0x02,
            Property::ContentType(_) => 0x03,
            Property::ResponseTopic(_) => 0x08,
            Property::CorrelationData(_) => 0x09,
            Property::SubscriptionIdentifier(_) => 0x0B,
            Property::SessionExpiryInterval(_) => 0x11,
            Property::AssignedClientIdentifier(_) => 0x12,
            Property::ServerKeepAlive(_) => 0x13,
            Property::AuthenticationMethod(_) => 0x15,
            Property::AuthenticationData(_) => 0x16,
            Property::RequestProblemInformation(_) => 0x17,
            Property::WillDelayInterval(_) => 0x18,
            Property::RequestResponseInformation(_) => 0x19,
            Property::ResponseInformation(_) => 0x1A,
            Property::ServerReference(_) => 0x1C,
            Property::ReasonString(_) => 0x1F,
            Property::ReceiveMaximum(_) => 0x21,
            Property::TopicAliasMaximum(_) => 0x22,
            Property::TopicAlias(_) => 0x23,
            Property::MaximumQoS(_) => 0x24,
            Property::RetainAvailable(_) => 0x25,
            Property::UserProperty(_) => 0x26,
            Property::MaximumPacketSize(_) => 0x27,
            Property::WildcardSubscriptionAvailable(_) => 0x28,
            Property::SubscriptionIdentifierAvailable(_) => 0x29,
            Property::SharedSubscriptionAvailable(_) => 0x2A,
        }
    }

    /// Build a property from its identifier and a value of the identifier's kind
    fn from_value(id: u32, value: PropertyValueRef<'a>) -> (r: Option<Property<'a>>)
        ensures
            r matches Some(p) ==> property_view(p) == (PropertyView { id: id as nat, value: value_ref_view(value) }),
            r is Some <==> property_kind(id as nat) == Some(value_ref_kind(value)),
    {
        match value {
            PropertyValueRef::Byte(v) => {
                if id == 0x01 {
                    Some(Property::PayloadFormatIndicator(v))
                } else if id == 0x17 {
                    Some(Property::RequestProblemInformation(v))
                } else if id == 0x19 {
                    Some(Property::RequestResponseInformation(v))
                } else if id == 0x24 {
                    Some(Property::MaximumQoS(v))
                } else if id == 0x25 {
                    Some(Property::RetainAvailable(v))
                } else if id == 0x28 {
                    Some(Property::WildcardSubscriptionAvailable(v))
                } else if id == 0x29 {
                    Some(Property::SubscriptionIdentifierAvailable(v))
                } else if id == 0x2A {
                    Some(Property::SharedSubscriptionAvailable(v))
                } else {
                    None
                }
            },
            PropertyValueRef::TwoByteInteger(v) => {
                if id == 0x13 {
                    Some(Property::ServerKeepAlive(v))
                } else if id == 0x21 {
                    Some(Property::ReceiveMaximum(v))
                } else if id == 0x22 {
                    Some(Property::TopicAliasMaximum(v))
                } else if id == 0x23 {
                    Some(Property::TopicAlias(v))
                } else {
                    None
                }
            },
            PropertyValueRef::FourByteInteger(v) => {
                if id == 0x02 {
                    Some(Property::MessageExpiryInterval(v))
                } else if id == 0x11 {
                    Some(Property::SessionExpiryInterval(v))
                } else if id == 0x18 {
                    Some(Property::WillDelayInterval(v))
                } else if id == 0x27 {
                    Some(Property::MaximumPacketSize(v))
                } else {
                    None
                }
            },
            PropertyValueRef::VariableByteInteger(v) => {
                if id == 0x0B {
                    Some(Property::SubscriptionIdentifier(v))
                } else {
                    None
                }
            },
            PropertyValueRef::Text(v) => {
                if id == 0x03 {
                    Some(Property::ContentType(v))
                } else if id == 0x08 {
                    Some(Property::ResponseTopic(v))
                } else if id == 0x12 {
                    Some(Property::AssignedClientIdentifier(v))
                } else if id == 0x15 {
                    Some(Property::AuthenticationMethod(v))
                } else if id == 0x1A {
                    Some(Property::ResponseInformation(v))
                } else if id == 0x1C {
                    Some(Property::ServerReference(v))
                } else if id == 0x1F {
                    Some(Property::ReasonString(v))
                } else {
                    None
                }
            },
            PropertyValueRef::Binary(v) => {
                if id == 0x09 {
                    Some(Property::CorrelationData(v))
                } else if id == 0x16 {
                    Some(Property::AuthenticationData(v))
                } else {
                    None
                }
            },
            PropertyValueRef::Pair(v) => {
                if id == 0x26 {
                    Some(Property::UserProperty(v))
                } else {
                    None
                }
            },
        }
    }

    /// The value of this property, by kind
    pub fn value_ref(&self) -> (r: PropertyValueRef<'a>)
        ensures
            value_ref_view(r) == property_view(*self).value,
            property_kind(property_view(*self).id as nat) == Some(value_ref_kind(r)),
    {
        match self {
            Property::PayloadFormatIndicator(v) => PropertyValueRef::Byte(*v),
            Property::MessageExpiryInterval(v) => PropertyValueRef::FourByteInteger(*v),
            Property::ContentType(v) => PropertyValueRef::Text(*v),
            Property::ResponseTopic(v) => PropertyValueRef::Text(*v),
            Property::CorrelationData(v) => PropertyValueRef::Binary(*v),
            Property::SubscriptionIdentifier(v) => PropertyValueRef::VariableByteInteger(*v),
            Property::SessionExpiryInterval(v) => PropertyValueRef::FourByteInteger(*v),
            Property::AssignedClientIdentifier(v) => PropertyValueRef::Text(*v),
            Property::ServerKeepAlive(v) => PropertyValueRef::TwoByteInteger(*v),
            Property::AuthenticationMethod(v) => PropertyValueRef::Text(*v),
            Property::AuthenticationData(v) => PropertyValueRef::Binary(*v),
            Property::RequestProblemInformation(v) => PropertyValueRef::Byte(*v),
            Property::WillDelayInterval(v) => PropertyValueRef::FourByteInteger(*v),
            Property::RequestResponseInformation(v) => PropertyValueRef::Byte(*v),
            Property::ResponseInformation(v) => PropertyValueRef::Text(*v),
            Property::ServerReference(v) => PropertyValueRef::Text(*v),
            Property::ReasonString(v) => PropertyValueRef::Text(*v),
            Property::ReceiveMaximum(v) => PropertyValueRef::TwoByteInteger(*v),
            Property::TopicAliasMaximum(v) => PropertyValueRef::TwoByteInteger(*v),
            Property::TopicAlias(v) => PropertyValueRef::TwoByteInteger(*v),
            Property::MaximumQoS(v) => PropertyValueRef::Byte(*v),
            Property::RetainAvailable(v) => PropertyValueRef::Byte(*v),
            Property::UserProperty(v) => PropertyValueRef::Pair(*v),
            Property::MaximumPacketSize(v) => PropertyValueRef::FourByteInteger(*v),
            Property::WildcardSubscriptionAvailable(v) => PropertyValueRef::Byte(*v),
            Property::SubscriptionIdentifierAvailable(v) => PropertyValueRef::Byte(*v),
            Property::SharedSubscriptionAvailable(v) => PropertyValueRef::Byte(*v),
        }
    }
}


/// The steps of writing a property value in its encoding
pub open spec fn value_steps(v: PropertyValue) -> Seq<WriteStep> {
    match v {
        PropertyValue::Byte(x) => seq![WriteStep::Bytes(seq![x])],
        PropertyValue::TwoByteInteger(x) => seq![WriteStep::Bytes(enc_u16(x))],
        PropertyValue::FourByteInteger(x) => seq![WriteStep::Bytes(enc_u32(x))],
        PropertyValue::VariableByteInteger(x) => vbi_steps(x as nat),
        PropertyValue::Text(b) => str_steps(b),
        PropertyValue::Binary(b) => binary_steps(b),
        PropertyValue::Pair(a, b) => str_steps(a) + str_steps(b),
    }
}

/// The steps of writing a property: its identifier as a variable byte integer, then its value
pub open spec fn property_steps(p: PropertyView) -> Seq<WriteStep> {
    vbi_steps(p.id) + value_steps(p.value)
}

/// Write a property value in its encoding
pub fn write_value<W: MqttWriter>(writer: &mut W, value: PropertyValueRef) -> (r: Result<()>)
    ensures
        put_outcome(
            old(writer).written(),
            old(writer).room(),
            final(writer).written(),
            final(writer).room(),
            r,
            value_steps(value_ref_view(value)),
        ),
{
    match value {
        PropertyValueRef::Byte(x) => writer.put_u8(x),
        PropertyValueRef::TwoByteInteger(x) => writer.put_u16(x),
        PropertyValueRef::FourByteInteger(x) => writer.put_u32(x),
        PropertyValueRef::VariableByteInteger(x) => writer.put_variable_u32(x),
        PropertyValueRef::Text(s) => writer.put_str(s),
        PropertyValueRef::Binary(b) => writer.put_binary_data(b),
        PropertyValueRef::Pair(p) => {
            let ghost w0 = writer.written();
            let ghost m0 = writer.room();
            let name = p.name();
            let value = p.value();
            let r1 = writer.put_str(name);
            let ghost w1 = writer.written();
            let ghost m1 = writer.room();
            match r1 {
                Ok(()) => {},
                Err(e) => {
                    proof {
                        lemma_put_stop(w0, m0, w1, m1, r1, str_steps(name.spec_bytes()), str_steps(value.spec_bytes()));
                    }
                    return Err(e);
                },
            }
            let r2 = writer.put_str(value);
            proof {
                lemma_put_then(w0, m0, w1, m1, r1, str_steps(name.spec_bytes()), writer.written(), writer.room(), r2, str_steps(value.spec_bytes()));
            }
            r2
        },
    }
}

impl<'a> Write for Property<'a> {
    open spec fn write_steps(&self) -> Seq<WriteStep> {
        property_steps(property_view(*self))
    }

    fn write<W: MqttWriter>(&self, writer: &mut W) -> (r: Result<()>) {
        let ghost w0 = writer.written();
        let ghost m0 = writer.room();
        let ghost v = property_view(*self);
        let r1 = writer.put_variable_u32(self.identifier());
        let ghost w1 = writer.written();
        let ghost m1 = writer.room();
        match r1 {
            Ok(()) => {},
            Err(e) => {
                proof {
                    lemma_put_stop(w0, m0, w1, m1, r1, vbi_steps(v.id), value_steps(v.value));
                }
                return Err(e);
            },
        }
        let r2 = write_value(writer, self.value_ref());
        proof {
            lemma_put_then(w0, m0, w1, m1, r1, vbi_steps(v.id), writer.written(), writer.room(), r2, value_steps(v.value));
        }
        r2
    }
}


/// Reading a property value of a kind from the start of the data: gives the value and the
/// number of bytes read
pub open spec fn parse_value(kind: PropertyKind, s: Seq<u8>) -> core::result::Result<(PropertyValue, nat), PacketReadError> {
    match kind {
        PropertyKind::Byte => match parse_u8(s) {
            Ok((v, n)) => Ok((PropertyValue::Byte(v), n)),
            Err(e) => Err(e),
        },
        PropertyKind::TwoByteInteger => match parse_u16(s) {
            Ok((v, n)) => Ok((PropertyValue::TwoByteInteger(v), n)),
            Err(e) => Err(e),
        },
        PropertyKind::FourByteInteger => match parse_u32(s) {
            Ok((v, n)) => Ok((PropertyValue::FourByteInteger(v), n)),
            Err(e) => Err(e),
        },
        PropertyKind::VariableByteInteger => match read_vbi(s) {
            Ok((v, n)) => Ok((PropertyValue::VariableByteInteger(v as u32), n)),
            Err(e) => Err(e),
        },
        PropertyKind::Text => match parse_str(s) {
            Ok((v, n)) => Ok((PropertyValue::Text(v), n)),
            Err(e) => Err(e),
        },
        PropertyKind::Binary => match parse_binary(s) {
            Ok((v, n)) => Ok((PropertyValue::Binary(v), n)),
            Err(e) => Err(e),
        },
        PropertyKind::Pair => match parse_string_pair(s) {
            Ok(((a, b), n)) => Ok((PropertyValue::Pair(a, b), n)),
            Err(e) => Err(e),
        },
    }
}

/// Reading a property in a context: its identifier as a variable byte integer, which must
/// be accepted in the context (otherwise [PacketReadError::UnexpectedPropertyIdentifier]),
/// then a value of the identifier's kind
#[verifier::opaque]
pub open spec fn parse_property(s: Seq<u8>, context: PropertyContext) -> core::result::Result<(PropertyView, nat), PacketReadError> {
    match read_vbi(s) {
        Err(e) => Err(e),
        Ok((id, n)) => if !property_allowed(context, id) {
            Err(PacketReadError::UnexpectedPropertyIdentifier)
        } else {
            match property_kind(id) {
                None => Err(PacketReadError::UnexpectedPropertyIdentifier),
                Some(kind) => match parse_value(kind, s.skip(n as int)) {
                    Ok((v, m)) => Ok((PropertyView { id, value: v }, n + m)),
                    Err(e) => Err(e),
                },
            }
        },
    }
}

/// A property that is read takes at least one byte, and no more than the data holds.
pub proof fn lemma_parse_property_len(s: Seq<u8>, context: PropertyContext)
    ensures
        parse_property(s, context) matches Ok((_, n)) ==> 1 <= n <= s.len(),
{
    reveal(parse_property);
    if read_vbi(s) is Ok {
        lemma_dec_vbi_bound(s, 4);
        let (id, n) = read_vbi(s)->Ok_0;
        if let Some(kind) = property_kind(id) {
            lemma_parse_value_len(kind, s.skip(n as int));
        }
    }
}

/// A property value that is read takes no more bytes than the data holds.
pub proof fn lemma_parse_value_len(kind: PropertyKind, s: Seq<u8>)
    ensures
        parse_value(kind, s) matches Ok((_, n)) ==> n <= s.len(),
{
    match kind {
        PropertyKind::VariableByteInteger => {
            if read_vbi(s) is Ok {
                lemma_dec_vbi_bound(s, 4);
            }
        },
        PropertyKind::Text => {
            lemma_parse_str_len(s);
        },
        PropertyKind::Pair => {
            lemma_parse_str_len(s);
            if parse_str(s) is Ok {
                lemma_parse_str_len(s.skip(parse_str(s)->Ok_0.1 as int));
            }
        },
        _ => {},
    }
}

/// Reading properties from the start of the data while fewer than `budget` bytes have been
/// read (the last property may end beyond the budget), each in the context, with room for
/// `room` more of them; one more property than there is room for gives
/// [PacketReadError::TooManyProperties]
#[verifier::opaque]
pub open spec fn parse_properties(s: Seq<u8>, budget: int, context: PropertyContext, room: nat) -> core::result::Result<(Seq<PropertyView>, nat), PacketReadError>
    decreases s.len(),
{
    if budget <= 0 {
        Ok((Seq::empty(), 0))
    } else {
        match parse_property(s, context) {
            Err(e) => Err(e),
            Ok((p, n)) => if room == 0 {
                Err(PacketReadError::TooManyProperties)
            } else {
                proof {
                    lemma_parse_property_len(s, context);
                }
                match parse_properties(s.skip(n as int), budget - n, context, (room - 1) as nat) {
                    Ok((ps, m)) => Ok((seq![p] + ps, n + m)),
                    Err(e) => Err(e),
                }
            },
        }
    }
}

/// Reading a property list: its length in bytes as a variable byte integer, then the
/// properties, with room for `capacity` of them
pub open spec fn parse_property_list(s: Seq<u8>, context: PropertyContext, capacity: nat) -> core::result::Result<(Seq<PropertyView>, nat), PacketReadError> {
    match read_vbi(s) {
        Err(e) => Err(e),
        Ok((len, n)) => match parse_properties(s.skip(n as int), len as int, context, capacity) {
            Ok((ps, m)) => Ok((ps, n + m)),
            Err(e) => Err(e),
        },
    }
}


/// The result of reading more properties after `prefix` was read in `consumed` bytes
pub open spec fn properties_after(prefix: Seq<PropertyView>, consumed: nat, r: core::result::Result<(Seq<PropertyView>, nat), PacketReadError>) -> core::result::Result<(Seq<PropertyView>, nat), PacketReadError> {
    match r {
        Ok((ps, m)) => Ok((prefix + ps, consumed + m)),
        Err(e) => Err(e),
    }
}

/// One step of reading properties: a property that is read, with room for it, is followed
/// by the properties read after it.
pub proof fn lemma_parse_properties_step(s: Seq<u8>, budget: int, context: PropertyContext, room: nat, prefix: Seq<PropertyView>, consumed: nat)
    requires
        budget > 0,
        parse_property(s, context) is Ok,
        room > 0,
    ensures
        ({
            let (p, n) = parse_property(s, context)->Ok_0;
            properties_after(prefix, consumed, parse_properties(s, budget, context, room)) == properties_after(prefix.push(p), consumed + n, parse_properties(s.skip(n as int), budget - n, context, (room - 1) as nat))
        }),
{
    reveal(parse_properties);
    let (p, n) = parse_property(s, context)->Ok_0;
    lemma_parse_property_len(s, context);
    let r = parse_properties(s.skip(n as int), budget - n, context, (room - 1) as nat);
    if r is Ok {
        let (ps, m) = r->Ok_0;
        assert(prefix + (seq![p] + ps) =~= prefix.push(p) + ps);
    }
}


/// Reading properties stops when the budget is used up, fails with the error of a property
/// that cannot be read, and fails with [PacketReadError::TooManyProperties] when a property
/// is read with no room left.
pub proof fn lemma_parse_properties_stop(s: Seq<u8>, budget: int, context: PropertyContext, room: nat)
    ensures
        budget <= 0 ==> parse_properties(s, budget, context, room) == Ok::<(Seq<PropertyView>, nat), PacketReadError>((Seq::empty(), 0)),
        budget > 0 && parse_property(s, context) is Err ==> parse_properties(s, budget, context, room) == Err::<(Seq<PropertyView>, nat), PacketReadError>(parse_property(s, context)->Err_0),
        budget > 0 && parse_property(s, context) is Ok && room == 0 ==> parse_properties(s, budget, context, room) == Err::<(Seq<PropertyView>, nat), PacketReadError>(PacketReadError::TooManyProperties),
{
    reveal(parse_properties);
}

/// The views of a list of properties
pub open spec fn properties_view(ps: Seq<Property>) -> Seq<PropertyView> {
    ps.map_values(|p: Property| property_view(p))
}

impl<'a> MqttBufReader<'a> {
    /// Get a property value of a kind
    pub fn get_property_value(&mut self, kind: PropertyKind) -> (r: core::result::Result<PropertyValueRef<'a>, PacketReadError>)
        ensures
            final(self).data() == old(self).data(),
            match parse_value(kind, old(self).rest()) {
                Ok((v, n)) => r is Ok && value_ref_view(r->Ok_0) == v && value_ref_kind(r->Ok_0) == kind && advanced(*old(self), *final(self), n),
                Err(e) => r == Err::<PropertyValueRef, PacketReadError>(e),
            },
    {
        match kind {
            PropertyKind::Byte => match self.get_u8() {
                Ok(v) => Ok(PropertyValueRef::Byte(v)),
                Err(e) => Err(e),
            },
            PropertyKind::TwoByteInteger => match self.get_u16() {
                Ok(v) => Ok(PropertyValueRef::TwoByteInteger(v)),
                Err(e) => Err(e),
            },
            PropertyKind::FourByteInteger => match self.get_u32() {
                Ok(v) => Ok(PropertyValueRef::FourByteInteger(v)),
                Err(e) => Err(e),
            },
            PropertyKind::VariableByteInteger => match self.get_variable_u32() {
                Ok(v) => Ok(PropertyValueRef::VariableByteInteger(v)),
                Err(e) => Err(e),
            },
            PropertyKind::Text => match self.get_str() {
                Ok(v) => Ok(PropertyValueRef::Text(v)),
                Err(e) => Err(e),
            },
            PropertyKind::Binary => match self.get_binary_data() {
                Ok(v) => Ok(PropertyValueRef::Binary(v)),
                Err(e) => Err(e),
            },
            PropertyKind::Pair => match self.get_string_pair() {
                Ok(p) => Ok(PropertyValueRef::Pair(p)),
                Err(e) => Err(e),
            },
        }
    }

    /// Get a property that is accepted in a context, failing with
    /// [PacketReadError::UnexpectedPropertyIdentifier] for any other identifier
    pub fn get_property(&mut self, context: PropertyContext) -> (r: core::result::Result<Property<'a>, PacketReadError>)
        ensures
            final(self).data() == old(self).data(),
            match parse_property(old(self).rest(), context) {
                Ok((v, n)) => r is Ok && property_view(r->Ok_0) == v && advanced(*old(self), *final(self), n),
                Err(e) => r == Err::<Property, PacketReadError>(e),
            },
    {
        proof {
            reveal(parse_property);
        }
        let ghost s0 = old(self).rest();
        let id = match self.get_variable_u32() {
            Ok(id) => id,
            Err(e) => return Err(e),
        };
        let ghost mid = *self;
        let ghost n = read_vbi(s0)->Ok_0.1;
        proof {
            lemma_dec_vbi_bound(s0, 4);
        }
        if !context.allows(id) {
            return Err(PacketReadError::UnexpectedPropertyIdentifier);
        }
        let kind = match property_kind_of(id) {
            Some(k) => k,
            None => return Err(PacketReadError::UnexpectedPropertyIdentifier),
        };
        let value = match self.get_property_value(kind) {
            Ok(v) => v,
            Err(e) => return Err(e),
        };
        proof {
            let m = parse_value(kind, mid.rest())->Ok_0.1;
            lemma_advanced_trans(*old(self), mid, *self, n, m);
        }
        match Property::from_value(id, value) {
            Some(p) => Ok(p),
            None => Err(PacketReadError::UnexpectedPropertyIdentifier),
        }
    }

    /// Get a property list: its length in bytes as a variable byte integer, then properties
    /// accepted in a context until that many bytes have been read. Fails with
    /// [PacketReadError::TooManyProperties] when the list holds more than `capacity`
    /// properties.
    pub fn get_property_list(&mut self, context: PropertyContext, capacity: usize) -> (r: core::result::Result<Vec<Property<'a>>, PacketReadError>)
        ensures
            final(self).data() == old(self).data(),
            match parse_property_list(old(self).rest(), context, capacity as nat) {
                Ok((ps, n)) => r is Ok && properties_view(r->Ok_0@) == ps && advanced(*old(self), *final(self), n),
                Err(e) => r == Err::<Vec<Property>, PacketReadError>(e),
            },
    {
        let ghost s0 = old(self).rest();
        let len = match self.get_variable_u32() {
            Ok(len) => len,
            Err(e) => return Err(e),
        };
        proof {
            lemma_dec_vbi_bound(s0, 4);
        }
        let ghost n0 = read_vbi(s0)->Ok_0.1;
        let ghost first = *self;
        let start = self.position();
        let mut consumed: usize = 0;
        let mut properties: Vec<Property<'a>> = Vec::new();
        let mut failure: Option<PacketReadError> = None;
        proof {
            assert(first.rest().skip(0) =~= first.rest());
            let whole = parse_properties(first.rest(), len as int, context, capacity as nat);
            if whole is Ok {
                assert(properties_view(properties@) + whole->Ok_0.0 =~= whole->Ok_0.0);
            }
        }
        while consumed < len as usize
            invariant_except_break
                failure is None,
                advanced(first, *self, consumed as nat),
            invariant
                self.data() == first.data(),
                start == first.pos(),
                properties@.len() <= capacity,
                failure is None ==> parse_properties(first.rest(), len as int, context, capacity as nat) == properties_after(properties_view(properties@), consumed as nat, parse_properties(self.rest(), len - consumed, context, (capacity - properties@.len()) as nat)),
                failure matches Some(e) ==> parse_properties(first.rest(), len as int, context, capacity as nat) == Err::<(Seq<PropertyView>, nat), PacketReadError>(e),
            ensures
                failure is None ==> consumed >= len,
                failure is None ==> advanced(first, *self, consumed as nat),
            decreases self.rest().len(),
        {
            let ghost before = *self;
            let ghost consumed_before = consumed;
            let ghost room = (capacity - properties@.len()) as nat;
            let p = match self.get_property(context) {
                Ok(p) => p,
                Err(e) => {
                    proof {
                        lemma_parse_properties_stop(before.rest(), len - consumed, context, room);
                    }
                    failure = Some(e);
                    break;
                },
            };
            let ghost n = parse_property(before.rest(), context)->Ok_0.1;
            proof {
                lemma_parse_property_len(before.rest(), context);
                lemma_advanced_trans(first, before, *self, consumed as nat, n);
            }
            if properties.len() >= capacity {
                proof {
                    lemma_parse_properties_stop(before.rest(), len - consumed, context, room);
                }
                failure = Some(PacketReadError::TooManyProperties);
                break;
            }
            let ghost old_props = properties@;
            properties.push(p);
            consumed = self.position() - start;
            proof {
                assert(properties_view(properties@) =~= properties_view(old_props).push(property_view(p)));
                lemma_parse_properties_step(before.rest(), len - (consumed_before as int), context, room, properties_view(old_props), consumed_before as nat);
            }
        }
        match failure {
            Some(e) => Err(e),
            None => {
                proof {
                    lemma_parse_properties_stop(self.rest(), len - consumed, context, (capacity - properties@.len()) as nat);
                    lemma_advanced_trans(*old(self), first, *self, n0, consumed as nat);
                    assert(properties_view(properties@) + Seq::<PropertyView>::empty() =~= properties_view(properties@));
                }
                Ok(properties)
            },
        }
    }
}


/// A property view that a property can have: its value is of the kind of its identifier,
/// and its strings are valid UTF-8
pub open spec fn property_wf(p: PropertyView) -> bool {
    &&& property_kind(p.id) == Some(value_kind(p.value))
    &&& match p.value {
        PropertyValue::Text(b) => utf8_valid(b),
        PropertyValue::Pair(a, b) => utf8_valid(a) && utf8_valid(b),
        _ => true,
    }
}

/// Every property has a well-formed view.
pub proof fn lemma_property_view_wf(p: Property)
    ensures
        property_wf(property_view(p)),
{
    match p {
        Property::ContentType(s) | Property::ResponseTopic(s) | Property::AssignedClientIdentifier(s)
        | Property::AuthenticationMethod(s) | Property::ResponseInformation(s)
        | Property::ServerReference(s) | Property::ReasonString(s) => {
            lemma_str_utf8_valid(s);
        },
        Property::UserProperty(pair) => {
            lemma_str_utf8_valid(pair.spec_name());
            lemma_str_utf8_valid(pair.spec_value());
        },
        _ => {},
    }
}

/// A text property value written without failure reads back as the same value.
#[verifier::spinoff_prover]
proof fn lemma_text_value_roundtrip(b: Seq<u8>, rest: Seq<u8>)
    requires
        steps_failure(str_steps(b)) is None,
        utf8_valid(b),
    ensures
        parse_value(PropertyKind::Text, steps_bytes(str_steps(b)) + rest) == Ok::<(PropertyValue, nat), PacketReadError>((PropertyValue::Text(b), steps_bytes(str_steps(b)).len())),
{
    lemma_str_steps_roundtrip(b, rest);
}

/// A binary property value written without failure reads back as the same value.
#[verifier::spinoff_prover]
proof fn lemma_binary_value_roundtrip(b: Seq<u8>, rest: Seq<u8>)
    requires
        steps_failure(binary_steps(b)) is None,
    ensures
        parse_value(PropertyKind::Binary, steps_bytes(binary_steps(b)) + rest) == Ok::<(PropertyValue, nat), PacketReadError>((PropertyValue::Binary(b), steps_bytes(binary_steps(b)).len())),
{
    lemma_binary_steps_roundtrip(b, rest);
}

/// A string pair property value written without failure reads back as the same value.
#[verifier::spinoff_prover]
proof fn lemma_pair_value_roundtrip(a: Seq<u8>, b: Seq<u8>, rest: Seq<u8>)
    requires
        steps_failure(str_steps(a) + str_steps(b)) is None,
        utf8_valid(a),
        utf8_valid(b),
    ensures
        parse_value(PropertyKind::Pair, steps_bytes(str_steps(a) + str_steps(b)) + rest) == Ok::<(PropertyValue, nat), PacketReadError>((PropertyValue::Pair(a, b), steps_bytes(str_steps(a) + str_steps(b)).len())),
{
    lemma_string_pair_steps_roundtrip(a, b, rest);
}

/// A property value that is written without failure reads back as the same value.
pub proof fn lemma_value_roundtrip(v: PropertyValue, rest: Seq<u8>)
    requires
        steps_failure(value_steps(v)) is None,
        match v {
            PropertyValue::Text(b) => utf8_valid(b),
            PropertyValue::Pair(a, b) => utf8_valid(a) && utf8_valid(b),
            _ => true,
        },
    ensures
        parse_value(value_kind(v), steps_bytes(value_steps(v)) + rest) == Ok::<(PropertyValue, nat), PacketReadError>((v, steps_bytes(value_steps(v)).len())),
{
    match v {
        PropertyValue::Byte(x) => {
            lemma_steps_one(seq![x]);
            lemma_uint_steps_roundtrip(x, 0, 0, rest);
        },
        PropertyValue::TwoByteInteger(x) => {
            lemma_steps_one(crate::codec::encoding::enc_u16(x));
            lemma_uint_steps_roundtrip(0, x, 0, rest);
        },
        PropertyValue::FourByteInteger(x) => {
            lemma_steps_one(crate::codec::encoding::enc_u32(x));
            lemma_uint_steps_roundtrip(0, 0, x, rest);
        },
        PropertyValue::VariableByteInteger(x) => {
            lemma_vbi_steps_roundtrip(x as nat, rest);
        },
        PropertyValue::Text(b) => {
            lemma_text_value_roundtrip(b, rest);
        },
        PropertyValue::Binary(b) => {
            lemma_binary_value_roundtrip(b, rest);
        },
        PropertyValue::Pair(a, b) => {
            lemma_pair_value_roundtrip(a, b, rest);
        },
    }
}

/// The law of properties: a well-formed property accepted in a context, written without
/// failure, reads back in that context as the same property, whatever data follows it.
pub proof fn lemma_property_roundtrip(p: PropertyView, context: PropertyContext, rest: Seq<u8>)
    requires
        property_wf(p),
        property_allowed(context, p.id),
        steps_failure(property_steps(p)) is None,
    ensures
        parse_property(steps_bytes(property_steps(p)) + rest, context) == Ok::<(PropertyView, nat), PacketReadError>((p, steps_bytes(property_steps(p)).len())),
{
    reveal(parse_property);
    lemma_steps_append(vbi_steps(p.id), value_steps(p.value));
    let vb = steps_bytes(value_steps(p.value));
    lemma_vbi_steps_roundtrip(p.id, vb + rest);
    lemma_value_roundtrip(p.value, rest);
    let s = steps_bytes(property_steps(p)) + rest;
    let n = crate::codec::encoding::enc_vbi(p.id).len();
    assert(s =~= crate::codec::encoding::enc_vbi(p.id) + (vb + rest));
    assert(s.skip(n as int) =~= vb + rest);
}

/// The kind of value of a property identifier, when it is one
pub fn property_kind_of(id: u32) -> (r: Option<PropertyKind>)
    ensures
        r == property_kind(id as nat),
{
    if id == 0x01 {
        Some(PropertyKind::Byte)
    } else if id == 0x02 {
        Some(PropertyKind::FourByteInteger)
    } else if id == 0x03 {
        Some(PropertyKind::Text)
    } else if id == 0x08 {
        Some(PropertyKind::Text)
    } else if id == 0x09 {
        Some(PropertyKind::Binary)
    } else if id == 0x0B {
        Some(PropertyKind::VariableByteInteger)
    } else if id == 0x11 {
        Some(PropertyKind::FourByteInteger)
    } else if id == 0x12 {
        Some(PropertyKind::Text)
    } else if id == 0x13 {
        Some(PropertyKind::TwoByteInteger)
    } else if id == 0x15 {
        Some(PropertyKind::Text)
    } else if id == 0x16 {
        Some(PropertyKind::Binary)
    } else if id == 0x17 {
        Some(PropertyKind::Byte)
    } else if id == 0x18 {
        Some(PropertyKind::FourByteInteger)
    } else if id == 0x19 {
        Some(PropertyKind::Byte)
    } else if id == 0x1A {
        Some(PropertyKind::Text)
    } else if id == 0x1C {
        Some(PropertyKind::Text)
    } else if id == 0x1F {
        Some(PropertyKind::Text)
    } else if id == 0x21 {
        Some(PropertyKind::TwoByteInteger)
    } else if id == 0x22 {
        Some(PropertyKind::TwoByteInteger)
    } else if id == 0x23 {
        Some(PropertyKind::TwoByteInteger)
    } else if id == 0x24 {
        Some(PropertyKind::Byte)
    } else if id == 0x25 {
        Some(PropertyKind::Byte)
    } else if id == 0x26 {
        Some(PropertyKind::Pair)
    } else if id == 0x27 {
        Some(PropertyKind::FourByteInteger)
    } else if id == 0x28 {
        Some(PropertyKind::Byte)
    } else if id == 0x29 {
        Some(PropertyKind::Byte)
    } else if id == 0x2A {
        Some(PropertyKind::Byte)
    } else {
        None
    }
}

} // verus!
