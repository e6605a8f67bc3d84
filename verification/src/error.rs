use vstd::prelude::*;

verus! {

/// An error occurring while attempting to read/receive/decode an MQTT packet.
///
/// It can occur at several levels: reading data from a connection, reading data from a
/// buffer (running out of data), decoding bytes as expected types (for example an invalid
/// boolean encoding), building a packet structure (too many properties or requests for
/// the capacity of the packet) and validating that the packet matches the MQTT v5
/// specification (for example reserved bits of the first header byte).
///
/// It does not cover errors that are encoded in a packet itself (reason codes); as long as
/// such a packet is decoded correctly this is not a read error.
#[derive(Copy, Clone, Debug, PartialEq, Eq, Structural)]
pub enum PacketReadError {
    /// No more data was available at a point where more data must be present in the packet
    InsufficientData,
    /// Data contained bytes that could not be converted to a valid utf8 string
    InvalidUtf8,
    /// A decoded string contained a null character, which is not permitted in MQTT strings
    NullCharacterInString,
    /// A variable byte integer was encoded with more than 4 bytes
    InvalidVariableByteIntegerEncoding,
    /// Data was expected to be of a known packet type, but the first header byte did not match
    IncorrectPacketType,
    /// Data contained an unknown reason code
    UnknownReasonCode,
    /// A byte that must encode a boolean as 0 or 1 held another value
    InvalidBooleanValue,
    /// A list of properties was longer than the capacity of the packet
    TooManyProperties,
    /// An encoded quality of service value was not 0, 1 or 2
    InvalidQosValue,
    /// A Connect packet did not hold the protocol name "MQTT" and version 5
    UnsupportedProtocolVersion,
    /// A list of requests (or of reason codes) was longer than the capacity of the packet
    TooManyRequests,
    /// The first header byte could not be decoded as a packet type, or its reserved bits
    /// held invalid values
    InvalidPacketType,
    /// Failure to receive via a connection
    ConnectionReceive,
    /// A packet was too large to place in the provided buffer
    PacketTooLargeForBuffer,
    /// A property identifier was not expected in the packet being decoded
    UnexpectedPropertyIdentifier,
    /// The "retain handling" subscription option held the invalid value 3
    InvalidRetainHandlingValue,
    /// The connect flags of a Connect packet were invalid (reserved bit set)
    InvalidConnectFlags,
    /// The "remaining length" in the packet header did not match the packet contents
    IncorrectPacketLength,
    /// A Subscribe packet must hold at least one subscription request [MQTT-3.8.3-2]
    SubscribeWithoutValidSubscriptionRequest,
    /// A Suback packet must hold at least one reason code
    SubackWithoutValidReasonCode,
    /// An Unsubscribe packet must hold at least one request [MQTT-3.10.3-2]
    UnsubscribeWithoutValidSubscriptionRequest,
    /// An Unsuback packet must hold at least one reason code
    UnsubackWithoutValidReasonCode,
    /// A Connect packet without a will must have will quality of service bits 0 [MQTT-3.1.2-11]
    WillQosSpecifiedWithoutWill,
    /// A Connect packet without a will must have the will retain bit 0 [MQTT-3.1.2-13]
    WillRetainSpecifiedWithoutWill,
    /// Subscription options must not have reserved bits set [MQTT-3.8.3-5]
    SubscriptionOptionsReservedBitsNonZero,
}

/// An error occurring while attempting to write/send/encode an MQTT packet
#[derive(Copy, Clone, Debug, PartialEq, Eq, Structural)]
pub enum PacketWriteError {
    /// On attempt to put data that will not fit in the buffer
    Overflow,
    /// On attempt to put a string containing a null character
    NullCharacterInString,
    /// On attempt to put a value as a variable byte integer that is too large to encode
    VariableByteIntegerTooLarge,
    /// On attempt to put binary data with too many bytes to encode
    DataTooLarge,
    /// On attempt to put a string whose encoded form has too many bytes to encode
    StringTooLarge,
    /// Failure to send via a connection
    ConnectionSend,
}

/// Errors of the reader layer: decoding primitive values from a buffer
#[derive(Copy, Clone, Debug, PartialEq, Eq, Structural)]
pub enum MqttReaderError {
    InsufficientData,
    InvalidUtf8,
    NullCharacterInString,
    InvalidVariableByteIntegerEncoding,
    MalformedPacket,
}

/// An error of a conversion between values of the library
#[derive(Copy, Clone, Debug, PartialEq, Eq, Structural)]
pub enum Error {
    /// A byte is not the first header byte of any packet type
    InvalidFixedHeaderFirstByte,
}

} // verus!

verus! {

/// The text of a [PacketReadError]: its variant's name, but for
/// [PacketReadError::SubscriptionOptionsReservedBitsNonZero]
pub open spec fn packet_read_error_text(e: PacketReadError) -> Seq<char> {
    match e {
        PacketReadError::InsufficientData => "InsufficientData"@,
        PacketReadError::InvalidUtf8 => "InvalidUtf8"@,
        PacketReadError::NullCharacterInString => "NullCharacterInString"@,
        PacketReadError::InvalidVariableByteIntegerEncoding => "InvalidVariableByteIntegerEncoding"@,
        PacketReadError::IncorrectPacketType => "IncorrectPacketType"@,
        PacketReadError::UnknownReasonCode => "UnknownReasonCode"@,
        PacketReadError::InvalidBooleanValue => "InvalidBooleanValue"@,
        PacketReadError::TooManyProperties => "TooManyProperties"@,
        PacketReadError::InvalidQosValue => "InvalidQosValue"@,
        PacketReadError::UnsupportedProtocolVersion => "UnsupportedProtocolVersion"@,
        PacketReadError::TooManyRequests => "TooManyRequests"@,
        PacketReadError::InvalidPacketType => "InvalidPacketType"@,
        PacketReadError::ConnectionReceive => "ConnectionReceive"@,
        PacketReadError::PacketTooLargeForBuffer => "PacketTooLargeForBuffer"@,
        PacketReadError::UnexpectedPropertyIdentifier => "UnexpectedPropertyIdentifier"@,
        PacketReadError::InvalidRetainHandlingValue => "InvalidRetainHandlingValue"@,
        PacketReadError::InvalidConnectFlags => "InvalidConnectFlags"@,
        PacketReadError::IncorrectPacketLength => "IncorrectPacketLength"@,
        PacketReadError::SubscribeWithoutValidSubscriptionRequest => "SubscribeWithoutValidSubscriptionRequest"@,
        PacketReadError::SubackWithoutValidReasonCode => "SubackWithoutValidReasonCode"@,
        PacketReadError::UnsubscribeWithoutValidSubscriptionRequest => "UnsubscribeWithoutValidSubscriptionRequest"@,
        PacketReadError::UnsubackWithoutValidReasonCode => "UnsubackWithoutValidReasonCode"@,
        PacketReadError::WillQosSpecifiedWithoutWill => "WillQosSpecifiedWithoutWill"@,
        PacketReadError::WillRetainSpecifiedWithoutWill => "WillRetainSpecifiedWithoutWill"@,
        PacketReadError::SubscriptionOptionsReservedBitsNonZero => "ReservedBitsSetInSubscriptionOptions"@,
    }
}

/// The text of a [PacketWriteError]: its variant's name
pub open spec fn packet_write_error_text(e: PacketWriteError) -> Seq<char> {
    match e {
        PacketWriteError::Overflow => "Overflow"@,
        PacketWriteError::NullCharacterInString => "NullCharacterInString"@,
        PacketWriteError::VariableByteIntegerTooLarge => "VariableByteIntegerTooLarge"@,
        PacketWriteError::DataTooLarge => "DataTooLarge"@,
        PacketWriteError::StringTooLarge => "StringTooLarge"@,
        PacketWriteError::ConnectionSend => "ConnectionSend"@,
    }
}

impl PacketReadError {
    /// The error as text
    pub fn to_string(&self) -> (r: String)
        ensures
            r@ == packet_read_error_text(*self),
    {
        let s: &str = match self {
            PacketReadError::InsufficientData => "InsufficientData",
            PacketReadError::InvalidUtf8 => "InvalidUtf8",
            PacketReadError::NullCharacterInString => "NullCharacterInString",
            PacketReadError::InvalidVariableByteIntegerEncoding => "InvalidVariableByteIntegerEncoding",
            PacketReadError::IncorrectPacketType => "IncorrectPacketType",
            PacketReadError::UnknownReasonCode => "UnknownReasonCode",
            PacketReadError::InvalidBooleanValue => "InvalidBooleanValue",
            PacketReadError::TooManyProperties => "TooManyProperties",
            PacketReadError::InvalidQosValue => "InvalidQosValue",
            PacketReadError::UnsupportedProtocolVersion => "UnsupportedProtocolVersion",
            PacketReadError::TooManyRequests => "TooManyRequests",
            PacketReadError::InvalidPacketType => "InvalidPacketType",
            PacketReadError::ConnectionReceive => "ConnectionReceive",
            PacketReadError::PacketTooLargeForBuffer => "PacketTooLargeForBuffer",
            PacketReadError::UnexpectedPropertyIdentifier => "UnexpectedPropertyIdentifier",
            PacketReadError::InvalidRetainHandlingValue => "InvalidRetainHandlingValue",
            PacketReadError::InvalidConnectFlags => "InvalidConnectFlags",
            PacketReadError::IncorrectPacketLength => "IncorrectPacketLength",
            PacketReadError::SubscribeWithoutValidSubscriptionRequest => "SubscribeWithoutValidSubscriptionRequest",
            PacketReadError::SubackWithoutValidReasonCode => "SubackWithoutValidReasonCode",
            PacketReadError::UnsubscribeWithoutValidSubscriptionRequest => "UnsubscribeWithoutValidSubscriptionRequest",
            PacketReadError::UnsubackWithoutValidReasonCode => "UnsubackWithoutValidReasonCode",
            PacketReadError::WillQosSpecifiedWithoutWill => "WillQosSpecifiedWithoutWill",
            PacketReadError::WillRetainSpecifiedWithoutWill => "WillRetainSpecifiedWithoutWill",
            PacketReadError::SubscriptionOptionsReservedBitsNonZero => "ReservedBitsSetInSubscriptionOptions",
        };
        s.to_owned()
    }
}

impl PacketWriteError {
    /// The error as text
    pub fn to_string(&self) -> (r: String)
        ensures
            r@ == packet_write_error_text(*self),
    {
        let s: &str = match self {
            PacketWriteError::Overflow => "Overflow",
            PacketWriteError::NullCharacterInString => "NullCharacterInString",
            PacketWriteError::VariableByteIntegerTooLarge => "VariableByteIntegerTooLarge",
            PacketWriteError::DataTooLarge => "DataTooLarge",
            PacketWriteError::StringTooLarge => "StringTooLarge",
            PacketWriteError::ConnectionSend => "ConnectionSend",
        };
        s.to_owned()
    }
}

/// The text `prefix(inner)`, as an error's text shows the error that it holds
pub(crate) fn parenthesized(prefix: &str, inner: &str) -> (r: String)
    ensures
        r@ == prefix@ + "("@ + inner@ + ")"@,
{
    let mut s = prefix.to_owned();
    s.append("(");
    s.append(inner);
    s.append(")");
    s
}

} // verus!
