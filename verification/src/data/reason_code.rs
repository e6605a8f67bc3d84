use vstd::prelude::*;

use crate::error::PacketReadError;

verus! {
/// A Reason Code is a one byte unsigned value that indicates the result of an operation.
/// Reason Codes less than 128 indicate successful completion of an operation. The normal
/// Reason Code for success is 0. Reason Code values of 128 or greater indicate failure.
#[derive(Clone, Copy, PartialEq, Eq, Debug, Structural)]
pub enum ReasonCode {
    Success,
    GrantedQos1,
    GrantedQos2,
    DisconnectWithWillMessage,
    NoMatchingSubscribers,
    NoSubscriptionExisted,
    ContinueAuthentication,
    ReAuthenticate,
    UnspecifiedError,
    MalformedPacket,
    ProtocolError,
    ImplementationSpecificError,
    UnsupportedProtocolVersion,
    ClientIdentifierNotValid,
    BadUserNameOrPassword,
    NotAuthorized,
    ServerUnavailable,
    ServerBusy,
    Banned,
    ServerShuttingDown,
    BadAuthenticationMethod,
    KeepAliveTimeout,
    SessionTakenOver,
    TopicFilterInvalid,
    TopicNameInvalid,
    PacketIdentifierInUse,
    PacketIdentifierNotFound,
    ReceiveMaximumExceeded,
    TopicAliasInvalid,
    PacketTooLarge,
    MessageRateTooHigh,
    QuotaExceeded,
    AdministrativeAction,
    PayloadFormatInvalid,
    RetainNotSupported,
    QosNotSupported,
    UseAnotherServer,
    ServerMoved,
    SharedSubscriptionsNotSupported,
    ConnectionRateExceeded,
    MaximumConnectTime,
    SubscriptionIdentifiersNotSupported,
    WildcardSubscriptionsNotSupported,
}

/// The name of a reason code
pub open spec fn reason_code_name(c: ReasonCode) -> Seq<char> {
    match c {
        ReasonCode::Success => "Success"@,
        ReasonCode::GrantedQos1 => "GrantedQos1"@,
        ReasonCode::GrantedQos2 => "GrantedQos2"@,
        ReasonCode::DisconnectWithWillMessage => "DisconnectWithWillMessage"@,
        ReasonCode::NoMatchingSubscribers => "NoMatchingSubscribers"@,
        ReasonCode::NoSubscriptionExisted => "NoSubscriptionExisted"@,
        ReasonCode::ContinueAuthentication => "ContinueAuthentication"@,
        ReasonCode::ReAuthenticate => "ReAuthenticate"@,
        ReasonCode::UnspecifiedError => "UnspecifiedError"@,
        ReasonCode::MalformedPacket => "MalformedPacket"@,
        ReasonCode::ProtocolError => "ProtocolError"@,
        ReasonCode::ImplementationSpecificError => "ImplementationSpecificError"@,
        ReasonCode::UnsupportedProtocolVersion => "UnsupportedProtocolVersion"@,
        ReasonCode::ClientIdentifierNotValid => "ClientIdentifierNotValid"@,
        ReasonCode::BadUserNameOrPassword => "BadUserNameOrPassword"@,
        ReasonCode::NotAuthorized => "NotAuthorized"@,
        ReasonCode::ServerUnavailable => "ServerUnavailable"@,
        ReasonCode::ServerBusy => "ServerBusy"@,
        ReasonCode::Banned => "Banned"@,
        ReasonCode::ServerShuttingDown => "ServerShuttingDown"@,
        ReasonCode::BadAuthenticationMethod => "BadAuthenticationMethod"@,
        ReasonCode::KeepAliveTimeout => "KeepAliveTimeout"@,
        ReasonCode::SessionTakenOver => "SessionTakenOver"@,
        ReasonCode::TopicFilterInvalid => "TopicFilterInvalid"@,
        ReasonCode::TopicNameInvalid => "TopicNameInvalid"@,
        ReasonCode::PacketIdentifierInUse => "PacketIdentifierInUse"@,
        ReasonCode::PacketIdentifierNotFound => "PacketIdentifierNotFound"@,
        ReasonCode::ReceiveMaximumExceeded => "ReceiveMaximumExceeded"@,
        ReasonCode::TopicAliasInvalid => "TopicAliasInvalid"@,
        ReasonCode::PacketTooLarge => "PacketTooLarge"@,
        ReasonCode::MessageRateTooHigh => "MessageRateTooHigh"@,
        ReasonCode::QuotaExceeded => "QuotaExceeded"@,
        ReasonCode::AdministrativeAction => "AdministrativeAction"@,
        ReasonCode::PayloadFormatInvalid => "PayloadFormatInvalid"@,
        ReasonCode::RetainNotSupported => "RetainNotSupported"@,
        ReasonCode::QosNotSupported => "QosNotSupported"@,
        ReasonCode::UseAnotherServer => "UseAnotherServer"@,
        ReasonCode::ServerMoved => "ServerMoved"@,
        ReasonCode::SharedSubscriptionsNotSupported => "SharedSubscriptionsNotSupported"@,
        ReasonCode::ConnectionRateExceeded => "ConnectionRateExceeded"@,
        ReasonCode::MaximumConnectTime => "MaximumConnectTime"@,
        ReasonCode::SubscriptionIdentifiersNotSupported => "SubscriptionIdentifiersNotSupported"@,
        ReasonCode::WildcardSubscriptionsNotSupported => "WildcardSubscriptionsNotSupported"@,
    }
}

impl ReasonCode {
    /// The name of this reason code, as its text shows it
    pub fn name(&self) -> (r: &'static str)
        ensures
            r@ == reason_code_name(*self),
    {
        match self {
            ReasonCode::Success => "Success",
            ReasonCode::GrantedQos1 => "GrantedQos1",
            ReasonCode::GrantedQos2 => "GrantedQos2",
            ReasonCode::DisconnectWithWillMessage => "DisconnectWithWillMessage",
            ReasonCode::NoMatchingSubscribers => "NoMatchingSubscribers",
            ReasonCode::NoSubscriptionExisted => "NoSubscriptionExisted",
            ReasonCode::ContinueAuthentication => "ContinueAuthentication",
            ReasonCode::ReAuthenticate => "ReAuthenticate",
            ReasonCode::UnspecifiedError => "UnspecifiedError",
            ReasonCode::MalformedPacket => "MalformedPacket",
            ReasonCode::ProtocolError => "ProtocolError",
            ReasonCode::ImplementationSpecificError => "ImplementationSpecificError",
            ReasonCode::UnsupportedProtocolVersion => "UnsupportedProtocolVersion",
            ReasonCode::ClientIdentifierNotValid => "ClientIdentifierNotValid",
            ReasonCode::BadUserNameOrPassword => "BadUserNameOrPassword",
            ReasonCode::NotAuthorized => "NotAuthorized",
            ReasonCode::ServerUnavailable => "ServerUnavailable",
            ReasonCode::ServerBusy => "ServerBusy",
            ReasonCode::Banned => "Banned",
            ReasonCode::ServerShuttingDown => "ServerShuttingDown",
            ReasonCode::BadAuthenticationMethod => "BadAuthenticationMethod",
            ReasonCode::KeepAliveTimeout => "KeepAliveTimeout",
            ReasonCode::SessionTakenOver => "SessionTakenOver",
            ReasonCode::TopicFilterInvalid => "TopicFilterInvalid",
            ReasonCode::TopicNameInvalid => "TopicNameInvalid",
            ReasonCode::PacketIdentifierInUse => "PacketIdentifierInUse",
            ReasonCode::PacketIdentifierNotFound => "PacketIdentifierNotFound",
            ReasonCode::ReceiveMaximumExceeded => "ReceiveMaximumExceeded",
            ReasonCode::TopicAliasInvalid => "TopicAliasInvalid",
            ReasonCode::PacketTooLarge => "PacketTooLarge",
            ReasonCode::MessageRateTooHigh => "MessageRateTooHigh",
            ReasonCode::QuotaExceeded => "QuotaExceeded",
            ReasonCode::AdministrativeAction => "AdministrativeAction",
            ReasonCode::PayloadFormatInvalid => "PayloadFormatInvalid",
            ReasonCode::RetainNotSupported => "RetainNotSupported",
            ReasonCode::QosNotSupported => "QosNotSupported",
            ReasonCode::UseAnotherServer => "UseAnotherServer",
            ReasonCode::ServerMoved => "ServerMoved",
            ReasonCode::SharedSubscriptionsNotSupported => "SharedSubscriptionsNotSupported",
            ReasonCode::ConnectionRateExceeded => "ConnectionRateExceeded",
            ReasonCode::MaximumConnectTime => "MaximumConnectTime",
            ReasonCode::SubscriptionIdentifiersNotSupported => "SubscriptionIdentifiersNotSupported",
            ReasonCode::WildcardSubscriptionsNotSupported => "WildcardSubscriptionsNotSupported",
        }
    }
}

/// The one byte value that encodes a reason code
pub open spec fn reason_code_value(c: ReasonCode) -> u8 {
    match c {
        ReasonCode::Success => 0,
        ReasonCode::GrantedQos1 => 1,
        ReasonCode::GrantedQos2 => 2,
        ReasonCode::DisconnectWithWillMessage => 4,
        ReasonCode::NoMatchingSubscribers => 16,
        ReasonCode::NoSubscriptionExisted => 17,
        ReasonCode::ContinueAuthentication => 24,
        ReasonCode::ReAuthenticate => 25,
        ReasonCode::UnspecifiedError => 128,
        ReasonCode::MalformedPacket => 129,
        ReasonCode::ProtocolError => 130,
        ReasonCode::ImplementationSpecificError => 131,
        ReasonCode::UnsupportedProtocolVersion => 132,
        ReasonCode::ClientIdentifierNotValid => 133,
        ReasonCode::BadUserNameOrPassword => 134,
        ReasonCode::NotAuthorized => 135,
        ReasonCode::ServerUnavailable => 136,
        ReasonCode::ServerBusy => 137,
        ReasonCode::Banned => 138,
        ReasonCode::ServerShuttingDown => 139,
        ReasonCode::BadAuthenticationMethod => 140,
        ReasonCode::KeepAliveTimeout => 141,
        ReasonCode::SessionTakenOver => 142,
        ReasonCode::TopicFilterInvalid => 143,
        ReasonCode::TopicNameInvalid => 144,
        ReasonCode::PacketIdentifierInUse => 145,
        ReasonCode::PacketIdentifierNotFound => 146,
        ReasonCode::ReceiveMaximumExceeded => 147,
        ReasonCode::TopicAliasInvalid => 148,
        ReasonCode::PacketTooLarge => 149,
        ReasonCode::MessageRateTooHigh => 150,
        ReasonCode::QuotaExceeded => 151,
        ReasonCode::AdministrativeAction => 152,
        ReasonCode::PayloadFormatInvalid => 153,
        ReasonCode::RetainNotSupported => 154,
        ReasonCode::QosNotSupported => 155,
        ReasonCode::UseAnotherServer => 156,
        ReasonCode::ServerMoved => 157,
        ReasonCode::SharedSubscriptionsNotSupported => 158,
        ReasonCode::ConnectionRateExceeded => 159,
        ReasonCode::MaximumConnectTime => 160,
        ReasonCode::SubscriptionIdentifiersNotSupported => 161,
        ReasonCode::WildcardSubscriptionsNotSupported => 162,
    }
}

/// The reason code that a byte value encodes, if any
pub open spec fn reason_code_from_value(v: u8) -> Option<ReasonCode> {
    match v {
        0u8 => Some(ReasonCode::Success),
        1u8 => Some(ReasonCode::GrantedQos1),
        2u8 => Some(ReasonCode::GrantedQos2),
        4u8 => Some(ReasonCode::DisconnectWithWillMessage),
        16u8 => Some(ReasonCode::NoMatchingSubscribers),
        17u8 => Some(ReasonCode::NoSubscriptionExisted),
        24u8 => Some(ReasonCode::ContinueAuthentication),
        25u8 => Some(ReasonCode::ReAuthenticate),
        128u8 => Some(ReasonCode::UnspecifiedError),
        129u8 => Some(ReasonCode::MalformedPacket),
        130u8 => Some(ReasonCode::ProtocolError),
        131u8 => Some(ReasonCode::ImplementationSpecificError),
        132u8 => Some(ReasonCode::UnsupportedProtocolVersion),
        133u8 => Some(ReasonCode::ClientIdentifierNotValid),
        134u8 => Some(ReasonCode::BadUserNameOrPassword),
        135u8 => Some(ReasonCode::NotAuthorized),
        136u8 => Some(ReasonCode::ServerUnavailable),
        137u8 => Some(ReasonCode::ServerBusy),
        138u8 => Some(ReasonCode::Banned),
        139u8 => Some(ReasonCode::ServerShuttingDown),
        140u8 => Some(ReasonCode::BadAuthenticationMethod),
        141u8 => Some(ReasonCode::KeepAliveTimeout),
        142u8 => Some(ReasonCode::SessionTakenOver),
        143u8 => Some(ReasonCode::TopicFilterInvalid),
        144u8 => Some(ReasonCode::TopicNameInvalid),
        145u8 => Some(ReasonCode::PacketIdentifierInUse),
        146u8 => Some(ReasonCode::PacketIdentifierNotFound),
        147u8 => Some(ReasonCode::ReceiveMaximumExceeded),
        148u8 => Some(ReasonCode::TopicAliasInvalid),
        149u8 => Some(ReasonCode::PacketTooLarge),
        150u8 => Some(ReasonCode::MessageRateTooHigh),
        151u8 => Some(ReasonCode::QuotaExceeded),
        152u8 => Some(ReasonCode::AdministrativeAction),
        153u8 => Some(ReasonCode::PayloadFormatInvalid),
        154u8 => Some(ReasonCode::RetainNotSupported),
        155u8 => Some(ReasonCode::QosNotSupported),
        156u8 => Some(ReasonCode::UseAnotherServer),
        157u8 => Some(ReasonCode::ServerMoved),
        158u8 => Some(ReasonCode::SharedSubscriptionsNotSupported),
        159u8 => Some(ReasonCode::ConnectionRateExceeded),
        160u8 => Some(ReasonCode::MaximumConnectTime),
        161u8 => Some(ReasonCode::SubscriptionIdentifiersNotSupported),
        162u8 => Some(ReasonCode::WildcardSubscriptionsNotSupported),
        _ => None,
    }
}

impl ReasonCode {
    /// The one byte value that encodes this reason code
    pub fn value(&self) -> (r: u8)
        ensures
            r == reason_code_value(*self),
    {
        match self {
            ReasonCode::Success => 0,
            ReasonCode::GrantedQos1 => 1,
            ReasonCode::GrantedQos2 => 2,
            ReasonCode::DisconnectWithWillMessage => 4,
            ReasonCode::NoMatchingSubscribers => 16,
            ReasonCode::NoSubscriptionExisted => 17,
            ReasonCode::ContinueAuthentication => 24,
            ReasonCode::ReAuthenticate => 25,
            ReasonCode::UnspecifiedError => 128,
            ReasonCode::MalformedPacket => 129,
            ReasonCode::ProtocolError => 130,
            ReasonCode::ImplementationSpecificError => 131,
            ReasonCode::UnsupportedProtocolVersion => 132,
            ReasonCode::ClientIdentifierNotValid => 133,
            ReasonCode::BadUserNameOrPassword => 134,
            ReasonCode::NotAuthorized => 135,
            ReasonCode::ServerUnavailable => 136,
            ReasonCode::ServerBusy => 137,
            ReasonCode::Banned => 138,
            ReasonCode::ServerShuttingDown => 139,
            ReasonCode::BadAuthenticationMethod => 140,
            ReasonCode::KeepAliveTimeout => 141,
            ReasonCode::SessionTakenOver => 142,
            ReasonCode::TopicFilterInvalid => 143,
            ReasonCode::TopicNameInvalid => 144,
            ReasonCode::PacketIdentifierInUse => 145,
            ReasonCode::PacketIdentifierNotFound => 146,
            ReasonCode::ReceiveMaximumExceeded => 147,
            ReasonCode::TopicAliasInvalid => 148,
            ReasonCode::PacketTooLarge => 149,
            ReasonCode::MessageRateTooHigh => 150,
            ReasonCode::QuotaExceeded => 151,
            ReasonCode::AdministrativeAction => 152,
            ReasonCode::PayloadFormatInvalid => 153,
            ReasonCode::RetainNotSupported => 154,
            ReasonCode::QosNotSupported => 155,
            ReasonCode::UseAnotherServer => 156,
            ReasonCode::ServerMoved => 157,
            ReasonCode::SharedSubscriptionsNotSupported => 158,
            ReasonCode::ConnectionRateExceeded => 159,
            ReasonCode::MaximumConnectTime => 160,
            ReasonCode::SubscriptionIdentifiersNotSupported => 161,
            ReasonCode::WildcardSubscriptionsNotSupported => 162,
        }
    }

    /// Decode a reason code from its one byte value
    pub fn try_from_u8(v: u8) -> (r: Result<ReasonCode, PacketReadError>)
        ensures
            r == (match reason_code_from_value(v) {
                Some(c) => Ok(c),
                None => Err(PacketReadError::UnknownReasonCode),
            }),
    {
        match v {
            0 => Ok(ReasonCode::Success),
            1 => Ok(ReasonCode::GrantedQos1),
            2 => Ok(ReasonCode::GrantedQos2),
            4 => Ok(ReasonCode::DisconnectWithWillMessage),
            16 => Ok(ReasonCode::NoMatchingSubscribers),
            17 => Ok(ReasonCode::NoSubscriptionExisted),
            24 => Ok(ReasonCode::ContinueAuthentication),
            25 => Ok(ReasonCode::ReAuthenticate),
            128 => Ok(ReasonCode::UnspecifiedError),
            129 => Ok(ReasonCode::MalformedPacket),
            130 => Ok(ReasonCode::ProtocolError),
            131 => Ok(ReasonCode::ImplementationSpecificError),
            132 => Ok(ReasonCode::UnsupportedProtocolVersion),
            133 => Ok(ReasonCode::ClientIdentifierNotValid),
            134 => Ok(ReasonCode::BadUserNameOrPassword),
            135 => Ok(ReasonCode::NotAuthorized),
            136 => Ok(ReasonCode::ServerUnavailable),
            137 => Ok(ReasonCode::ServerBusy),
            138 => Ok(ReasonCode::Banned),
            139 => Ok(ReasonCode::ServerShuttingDown),
            140 => Ok(ReasonCode::BadAuthenticationMethod),
            141 => Ok(ReasonCode::KeepAliveTimeout),
            142 => Ok(ReasonCode::SessionTakenOver),
            143 => Ok(ReasonCode::TopicFilterInvalid),
            144 => Ok(ReasonCode::TopicNameInvalid),
            145 => Ok(ReasonCode::PacketIdentifierInUse),
            146 => Ok(ReasonCode::PacketIdentifierNotFound),
            147 => Ok(ReasonCode::ReceiveMaximumExceeded),
            148 => Ok(ReasonCode::TopicAliasInvalid),
            149 => Ok(ReasonCode::PacketTooLarge),
            150 => Ok(ReasonCode::MessageRateTooHigh),
            151 => Ok(ReasonCode::QuotaExceeded),
            152 => Ok(ReasonCode::AdministrativeAction),
            153 => Ok(ReasonCode::PayloadFormatInvalid),
            154 => Ok(ReasonCode::RetainNotSupported),
            155 => Ok(ReasonCode::QosNotSupported),
            156 => Ok(ReasonCode::UseAnotherServer),
            157 => Ok(ReasonCode::ServerMoved),
            158 => Ok(ReasonCode::SharedSubscriptionsNotSupported),
            159 => Ok(ReasonCode::ConnectionRateExceeded),
            160 => Ok(ReasonCode::MaximumConnectTime),
            161 => Ok(ReasonCode::SubscriptionIdentifiersNotSupported),
            162 => Ok(ReasonCode::WildcardSubscriptionsNotSupported),
            _ => Err(PacketReadError::UnknownReasonCode),
        }
    }

    /// True when this reason code indicates failure, that is its value is 128 or greater
    pub fn is_error(&self) -> (r: bool)
        ensures
            r == (reason_code_value(*self) >= 128),
    {
        self.value() >= 128
    }
}

/// Every reason code is decoded from its own value, and a decoded value is the value of
/// the reason code it decodes to: the two functions are inverse on reason codes.
pub proof fn lemma_reason_code_value_roundtrip(c: ReasonCode, v: u8)
    ensures
        reason_code_from_value(reason_code_value(c)) == Some(c),
        reason_code_from_value(v) == Some(c) ==> reason_code_value(c) == v,
{
}

/// The byte values of the reason codes, as table 2-6 of the MQTT v5 spec assigns them;
/// with [lemma_reason_code_value_roundtrip], these also fix which code each byte reads as.
pub proof fn lemma_reason_code_values()
    ensures
        reason_code_value(ReasonCode::Success) == 0,
        reason_code_value(ReasonCode::GrantedQos1) == 1,
        reason_code_value(ReasonCode::GrantedQos2) == 2,
        reason_code_value(ReasonCode::DisconnectWithWillMessage) == 4,
        reason_code_value(ReasonCode::NoMatchingSubscribers) == 16,
        reason_code_value(ReasonCode::NoSubscriptionExisted) == 17,
        reason_code_value(ReasonCode::ContinueAuthentication) == 24,
        reason_code_value(ReasonCode::ReAuthenticate) == 25,
        reason_code_value(ReasonCode::UnspecifiedError) == 128,
        reason_code_value(ReasonCode::MalformedPacket) == 129,
        reason_code_value(ReasonCode::ProtocolError) == 130,
        reason_code_value(ReasonCode::ImplementationSpecificError) == 131,
        reason_code_value(ReasonCode::UnsupportedProtocolVersion) == 132,
        reason_code_value(ReasonCode::ClientIdentifierNotValid) == 133,
        reason_code_value(ReasonCode::BadUserNameOrPassword) == 134,
        reason_code_value(ReasonCode::NotAuthorized) == 135,
        reason_code_value(ReasonCode::ServerUnavailable) == 136,
        reason_code_value(ReasonCode::ServerBusy) == 137,
        reason_code_value(ReasonCode::Banned) == 138,
        reason_code_value(ReasonCode::ServerShuttingDown) == 139,
        reason_code_value(ReasonCode::BadAuthenticationMethod) == 140,
        reason_code_value(ReasonCode::KeepAliveTimeout) == 141,
        reason_code_value(ReasonCode::SessionTakenOver) == 142,
        reason_code_value(ReasonCode::TopicFilterInvalid) == 143,
        reason_code_value(ReasonCode::TopicNameInvalid) == 144,
        reason_code_value(ReasonCode::PacketIdentifierInUse) == 145,
        reason_code_value(ReasonCode::PacketIdentifierNotFound) == 146,
        reason_code_value(ReasonCode::ReceiveMaximumExceeded) == 147,
        reason_code_value(ReasonCode::TopicAliasInvalid) == 148,
        reason_code_value(ReasonCode::PacketTooLarge) == 149,
        reason_code_value(ReasonCode::MessageRateTooHigh) == 150,
        reason_code_value(ReasonCode::QuotaExceeded) == 151,
        reason_code_value(ReasonCode::AdministrativeAction) == 152,
        reason_code_value(ReasonCode::PayloadFormatInvalid) == 153,
        reason_code_value(ReasonCode::RetainNotSupported) == 154,
        reason_code_value(ReasonCode::QosNotSupported) == 155,
        reason_code_value(ReasonCode::UseAnotherServer) == 156,
        reason_code_value(ReasonCode::ServerMoved) == 157,
        reason_code_value(ReasonCode::SharedSubscriptionsNotSupported) == 158,
        reason_code_value(ReasonCode::ConnectionRateExceeded) == 159,
        reason_code_value(ReasonCode::MaximumConnectTime) == 160,
        reason_code_value(ReasonCode::SubscriptionIdentifiersNotSupported) == 161,
        reason_code_value(ReasonCode::WildcardSubscriptionsNotSupported) == 162,
{
}

/// The subset of [ReasonCode] that is permitted as the reason code of a Connack packet
#[derive(Clone, Copy, PartialEq, Eq, Debug, Structural)]
pub enum ConnectReasonCode {
    Success,
    UnspecifiedError,
    MalformedPacket,
    ProtocolError,
    ImplementationSpecificError,
    UnsupportedProtocolVersion,
    ClientIdentifierNotValid,
    BadUserNameOrPassword,
    NotAuthorized,
    ServerUnavailable,
    ServerBusy,
    Banned,
    BadAuthenticationMethod,
    TopicNameInvalid,
    PacketTooLarge,
    QuotaExceeded,
    PayloadFormatInvalid,
    RetainNotSupported,
    QosNotSupported,
    UseAnotherServer,
    ServerMoved,
    ConnectionRateExceeded,
}

/// The general reason code of a [ConnectReasonCode]
pub open spec fn connect_reason_code_general(c: ConnectReasonCode) -> ReasonCode {
    match c {
        ConnectReasonCode::Success => ReasonCode::Success,
        ConnectReasonCode::UnspecifiedError => ReasonCode::UnspecifiedError,
        ConnectReasonCode::MalformedPacket => ReasonCode::MalformedPacket,
        ConnectReasonCode::ProtocolError => ReasonCode::ProtocolError,
        ConnectReasonCode::ImplementationSpecificError => ReasonCode::ImplementationSpecificError,
        ConnectReasonCode::UnsupportedProtocolVersion => ReasonCode::UnsupportedProtocolVersion,
        ConnectReasonCode::ClientIdentifierNotValid => ReasonCode::ClientIdentifierNotValid,
        ConnectReasonCode::BadUserNameOrPassword => ReasonCode::BadUserNameOrPassword,
        ConnectReasonCode::NotAuthorized => ReasonCode::NotAuthorized,
        ConnectReasonCode::ServerUnavailable => ReasonCode::ServerUnavailable,
        ConnectReasonCode::ServerBusy => ReasonCode::ServerBusy,
        ConnectReasonCode::Banned => ReasonCode::Banned,
        ConnectReasonCode::BadAuthenticationMethod => ReasonCode::BadAuthenticationMethod,
        ConnectReasonCode::TopicNameInvalid => ReasonCode::TopicNameInvalid,
        ConnectReasonCode::PacketTooLarge => ReasonCode::PacketTooLarge,
        ConnectReasonCode::QuotaExceeded => ReasonCode::QuotaExceeded,
        ConnectReasonCode::PayloadFormatInvalid => ReasonCode::PayloadFormatInvalid,
        ConnectReasonCode::RetainNotSupported => ReasonCode::RetainNotSupported,
        ConnectReasonCode::QosNotSupported => ReasonCode::QosNotSupported,
        ConnectReasonCode::UseAnotherServer => ReasonCode::UseAnotherServer,
        ConnectReasonCode::ServerMoved => ReasonCode::ServerMoved,
        ConnectReasonCode::ConnectionRateExceeded => ReasonCode::ConnectionRateExceeded,
    }
}

/// The [ConnectReasonCode] of a general reason code, when it is in the subset
pub open spec fn connect_reason_code_from_general(c: ReasonCode) -> Option<ConnectReasonCode> {
    match c {
        ReasonCode::Success => Some(ConnectReasonCode::Success),
        ReasonCode::UnspecifiedError => Some(ConnectReasonCode::UnspecifiedError),
        ReasonCode::MalformedPacket => Some(ConnectReasonCode::MalformedPacket),
        ReasonCode::ProtocolError => Some(ConnectReasonCode::ProtocolError),
        ReasonCode::ImplementationSpecificError => Some(ConnectReasonCode::ImplementationSpecificError),
        ReasonCode::UnsupportedProtocolVersion => Some(ConnectReasonCode::UnsupportedProtocolVersion),
        ReasonCode::ClientIdentifierNotValid => Some(ConnectReasonCode::ClientIdentifierNotValid),
        ReasonCode::BadUserNameOrPassword => Some(ConnectReasonCode::BadUserNameOrPassword),
        ReasonCode::NotAuthorized => Some(ConnectReasonCode::NotAuthorized),
        ReasonCode::ServerUnavailable => Some(ConnectReasonCode::ServerUnavailable),
        ReasonCode::ServerBusy => Some(ConnectReasonCode::ServerBusy),
        ReasonCode::Banned => Some(ConnectReasonCode::Banned),
        ReasonCode::BadAuthenticationMethod => Some(ConnectReasonCode::BadAuthenticationMethod),
        ReasonCode::TopicNameInvalid => Some(ConnectReasonCode::TopicNameInvalid),
        ReasonCode::PacketTooLarge => Some(ConnectReasonCode::PacketTooLarge),
        ReasonCode::QuotaExceeded => Some(ConnectReasonCode::QuotaExceeded),
        ReasonCode::PayloadFormatInvalid => Some(ConnectReasonCode::PayloadFormatInvalid),
        ReasonCode::RetainNotSupported => Some(ConnectReasonCode::RetainNotSupported),
        ReasonCode::QosNotSupported => Some(ConnectReasonCode::QosNotSupported),
        ReasonCode::UseAnotherServer => Some(ConnectReasonCode::UseAnotherServer),
        ReasonCode::ServerMoved => Some(ConnectReasonCode::ServerMoved),
        ReasonCode::ConnectionRateExceeded => Some(ConnectReasonCode::ConnectionRateExceeded),
        _ => None,
    }
}

impl ConnectReasonCode {
    /// The general reason code
    pub fn reason_code(&self) -> (r: ReasonCode)
        ensures
            r == connect_reason_code_general(*self),
    {
        match self {
            ConnectReasonCode::Success => ReasonCode::Success,
            ConnectReasonCode::UnspecifiedError => ReasonCode::UnspecifiedError,
            ConnectReasonCode::MalformedPacket => ReasonCode::MalformedPacket,
            ConnectReasonCode::ProtocolError => ReasonCode::ProtocolError,
            ConnectReasonCode::ImplementationSpecificError => ReasonCode::ImplementationSpecificError,
            ConnectReasonCode::UnsupportedProtocolVersion => ReasonCode::UnsupportedProtocolVersion,
            ConnectReasonCode::ClientIdentifierNotValid => ReasonCode::ClientIdentifierNotValid,
            ConnectReasonCode::BadUserNameOrPassword => ReasonCode::BadUserNameOrPassword,
            ConnectReasonCode::NotAuthorized => ReasonCode::NotAuthorized,
            ConnectReasonCode::ServerUnavailable => ReasonCode::ServerUnavailable,
            ConnectReasonCode::ServerBusy => ReasonCode::ServerBusy,
            ConnectReasonCode::Banned => ReasonCode::Banned,
            ConnectReasonCode::BadAuthenticationMethod => ReasonCode::BadAuthenticationMethod,
            ConnectReasonCode::TopicNameInvalid => ReasonCode::TopicNameInvalid,
            ConnectReasonCode::PacketTooLarge => ReasonCode::PacketTooLarge,
            ConnectReasonCode::QuotaExceeded => ReasonCode::QuotaExceeded,
            ConnectReasonCode::PayloadFormatInvalid => ReasonCode::PayloadFormatInvalid,
            ConnectReasonCode::RetainNotSupported => ReasonCode::RetainNotSupported,
            ConnectReasonCode::QosNotSupported => ReasonCode::QosNotSupported,
            ConnectReasonCode::UseAnotherServer => ReasonCode::UseAnotherServer,
            ConnectReasonCode::ServerMoved => ReasonCode::ServerMoved,
            ConnectReasonCode::ConnectionRateExceeded => ReasonCode::ConnectionRateExceeded,
        }
    }

    /// Convert a general reason code to this subset, failing with
    /// [PacketReadError::UnknownReasonCode] when it is not in the subset
    pub fn try_from_reason_code(c: ReasonCode) -> (r: Result<ConnectReasonCode, PacketReadError>)
        ensures
            r == (match connect_reason_code_from_general(c) {
                Some(x) => Ok(x),
                None => Err(PacketReadError::UnknownReasonCode),
            }),
    {
        match c {
            ReasonCode::Success => Ok(ConnectReasonCode::Success),
            ReasonCode::UnspecifiedError => Ok(ConnectReasonCode::UnspecifiedError),
            ReasonCode::MalformedPacket => Ok(ConnectReasonCode::MalformedPacket),
            ReasonCode::ProtocolError => Ok(ConnectReasonCode::ProtocolError),
            ReasonCode::ImplementationSpecificError => Ok(ConnectReasonCode::ImplementationSpecificError),
            ReasonCode::UnsupportedProtocolVersion => Ok(ConnectReasonCode::UnsupportedProtocolVersion),
            ReasonCode::ClientIdentifierNotValid => Ok(ConnectReasonCode::ClientIdentifierNotValid),
            ReasonCode::BadUserNameOrPassword => Ok(ConnectReasonCode::BadUserNameOrPassword),
            ReasonCode::NotAuthorized => Ok(ConnectReasonCode::NotAuthorized),
            ReasonCode::ServerUnavailable => Ok(ConnectReasonCode::ServerUnavailable),
            ReasonCode::ServerBusy => Ok(ConnectReasonCode::ServerBusy),
            ReasonCode::Banned => Ok(ConnectReasonCode::Banned),
            ReasonCode::BadAuthenticationMethod => Ok(ConnectReasonCode::BadAuthenticationMethod),
            ReasonCode::TopicNameInvalid => Ok(ConnectReasonCode::TopicNameInvalid),
            ReasonCode::PacketTooLarge => Ok(ConnectReasonCode::PacketTooLarge),
            ReasonCode::QuotaExceeded => Ok(ConnectReasonCode::QuotaExceeded),
            ReasonCode::PayloadFormatInvalid => Ok(ConnectReasonCode::PayloadFormatInvalid),
            ReasonCode::RetainNotSupported => Ok(ConnectReasonCode::RetainNotSupported),
            ReasonCode::QosNotSupported => Ok(ConnectReasonCode::QosNotSupported),
            ReasonCode::UseAnotherServer => Ok(ConnectReasonCode::UseAnotherServer),
            ReasonCode::ServerMoved => Ok(ConnectReasonCode::ServerMoved),
            ReasonCode::ConnectionRateExceeded => Ok(ConnectReasonCode::ConnectionRateExceeded),
            _ => Err(PacketReadError::UnknownReasonCode),
        }
    }

    /// Decode from a one byte value, failing with [PacketReadError::UnknownReasonCode]
    /// when the value is not the value of a reason code in this subset
    pub fn try_from_u8(v: u8) -> (r: Result<ConnectReasonCode, PacketReadError>)
        ensures
            r == (match reason_code_from_value(v) {
                Some(c) => match connect_reason_code_from_general(c) {
                    Some(x) => Ok(x),
                    None => Err(PacketReadError::UnknownReasonCode),
                },
                None => Err(PacketReadError::UnknownReasonCode),
            }),
    {
        let c = match ReasonCode::try_from_u8(v) {
            Ok(c) => c,
            Err(e) => return Err(e),
        };
        ConnectReasonCode::try_from_reason_code(c)
    }

    /// The one byte value that encodes this reason code
    pub fn value(&self) -> (r: u8)
        ensures
            r == reason_code_value(connect_reason_code_general(*self)),
    {
        self.reason_code().value()
    }

    /// True when this reason code indicates failure (value 128 or greater)
    pub fn is_error(&self) -> (r: bool)
        ensures
            r == (reason_code_value(connect_reason_code_general(*self)) >= 128),
    {
        self.value() >= 128
    }
}

/// Converting a [ConnectReasonCode] to a general reason code and back gives the same code, and a
/// general code converts to the subset exactly when it is the general code of a member.
pub proof fn lemma_connect_reason_code_roundtrip(x: ConnectReasonCode, c: ReasonCode)
    ensures
        connect_reason_code_from_general(connect_reason_code_general(x)) == Some(x),
        connect_reason_code_from_general(c) == Some(x) ==> connect_reason_code_general(x) == c,
{
}

/// The subset of [ReasonCode] that is permitted as the reason code of a Disconnect packet
#[derive(Clone, Copy, PartialEq, Eq, Debug, Structural)]
pub enum DisconnectReasonCode {
    Success,
    DisconnectWithWillMessage,
    UnspecifiedError,
    MalformedPacket,
    ProtocolError,
    ImplementationSpecificError,
    NotAuthorized,
    ServerBusy,
    ServerShuttingDown,
    KeepAliveTimeout,
    SessionTakenOver,
    TopicFilterInvalid,
    TopicNameInvalid,
    ReceiveMaximumExceeded,
    TopicAliasInvalid,
    PacketTooLarge,
    MessageRateTooHigh,
    QuotaExceeded,
    AdministrativeAction,
    PayloadFormatInvalid,
    RetainNotSupported,
    QosNotSupported,
    UseAnotherServer,
    ServerMoved,
    SharedSubscriptionsNotSupported,
    ConnectionRateExceeded,
    MaximumConnectTime,
    SubscriptionIdentifiersNotSupported,
    WildcardSubscriptionsNotSupported,
}

/// The general reason code of a [DisconnectReasonCode]
pub open spec fn disconnect_reason_code_general(c: DisconnectReasonCode) -> ReasonCode {
    match c {
        DisconnectReasonCode::Success => ReasonCode::Success,
        DisconnectReasonCode::DisconnectWithWillMessage => ReasonCode::DisconnectWithWillMessage,
        DisconnectReasonCode::UnspecifiedError => ReasonCode::UnspecifiedError,
        DisconnectReasonCode::MalformedPacket => ReasonCode::MalformedPacket,
        DisconnectReasonCode::ProtocolError => ReasonCode::ProtocolError,
        DisconnectReasonCode::ImplementationSpecificError => ReasonCode::ImplementationSpecificError,
        DisconnectReasonCode::NotAuthorized => ReasonCode::NotAuthorized,
        DisconnectReasonCode::ServerBusy => ReasonCode::ServerBusy,
        DisconnectReasonCode::ServerShuttingDown => ReasonCode::ServerShuttingDown,
        DisconnectReasonCode::KeepAliveTimeout => ReasonCode::KeepAliveTimeout,
        DisconnectReasonCode::SessionTakenOver => ReasonCode::SessionTakenOver,
        DisconnectReasonCode::TopicFilterInvalid => ReasonCode::TopicFilterInvalid,
        DisconnectReasonCode::TopicNameInvalid => ReasonCode::TopicNameInvalid,
        DisconnectReasonCode::ReceiveMaximumExceeded => ReasonCode::ReceiveMaximumExceeded,
        DisconnectReasonCode::TopicAliasInvalid => ReasonCode::TopicAliasInvalid,
        DisconnectReasonCode::PacketTooLarge => ReasonCode::PacketTooLarge,
        DisconnectReasonCode::MessageRateTooHigh => ReasonCode::MessageRateTooHigh,
        DisconnectReasonCode::QuotaExceeded => ReasonCode::QuotaExceeded,
        DisconnectReasonCode::AdministrativeAction => ReasonCode::AdministrativeAction,
        DisconnectReasonCode::PayloadFormatInvalid => ReasonCode::PayloadFormatInvalid,
        DisconnectReasonCode::RetainNotSupported => ReasonCode::RetainNotSupported,
        DisconnectReasonCode::QosNotSupported => ReasonCode::QosNotSupported,
        DisconnectReasonCode::UseAnotherServer => ReasonCode::UseAnotherServer,
        DisconnectReasonCode::ServerMoved => ReasonCode::ServerMoved,
        DisconnectReasonCode::SharedSubscriptionsNotSupported => ReasonCode::SharedSubscriptionsNotSupported,
        DisconnectReasonCode::ConnectionRateExceeded => ReasonCode::ConnectionRateExceeded,
        DisconnectReasonCode::MaximumConnectTime => ReasonCode::MaximumConnectTime,
        DisconnectReasonCode::SubscriptionIdentifiersNotSupported => ReasonCode::SubscriptionIdentifiersNotSupported,
        DisconnectReasonCode::WildcardSubscriptionsNotSupported => ReasonCode::WildcardSubscriptionsNotSupported,
    }
}

/// The [DisconnectReasonCode] of a general reason code, when it is in the subset
pub open spec fn disconnect_reason_code_from_general(c: ReasonCode) -> Option<DisconnectReasonCode> {
    match c {
        ReasonCode::Success => Some(DisconnectReasonCode::Success),
        ReasonCode::DisconnectWithWillMessage => Some(DisconnectReasonCode::DisconnectWithWillMessage),
        ReasonCode::UnspecifiedError => Some(DisconnectReasonCode::UnspecifiedError),
        ReasonCode::MalformedPacket => Some(DisconnectReasonCode::MalformedPacket),
        ReasonCode::ProtocolError => Some(DisconnectReasonCode::ProtocolError),
        ReasonCode::ImplementationSpecificError => Some(DisconnectReasonCode::ImplementationSpecificError),
        ReasonCode::NotAuthorized => Some(DisconnectReasonCode::NotAuthorized),
        ReasonCode::ServerBusy => Some(DisconnectReasonCode::ServerBusy),
        ReasonCode::ServerShuttingDown => Some(DisconnectReasonCode::ServerShuttingDown),
        ReasonCode::KeepAliveTimeout => Some(DisconnectReasonCode::KeepAliveTimeout),
        ReasonCode::SessionTakenOver => Some(DisconnectReasonCode::SessionTakenOver),
        ReasonCode::TopicFilterInvalid => Some(DisconnectReasonCode::TopicFilterInvalid),
        ReasonCode::TopicNameInvalid => Some(DisconnectReasonCode::TopicNameInvalid),
        ReasonCode::ReceiveMaximumExceeded => Some(DisconnectReasonCode::ReceiveMaximumExceeded),
        ReasonCode::TopicAliasInvalid => Some(DisconnectReasonCode::TopicAliasInvalid),
        ReasonCode::PacketTooLarge => Some(DisconnectReasonCode::PacketTooLarge),
        ReasonCode::MessageRateTooHigh => Some(DisconnectReasonCode::MessageRateTooHigh),
        ReasonCode::QuotaExceeded => Some(DisconnectReasonCode::QuotaExceeded),
        ReasonCode::AdministrativeAction => Some(DisconnectReasonCode::AdministrativeAction),
        ReasonCode::PayloadFormatInvalid => Some(DisconnectReasonCode::PayloadFormatInvalid),
        ReasonCode::RetainNotSupported => Some(DisconnectReasonCode::RetainNotSupported),
        ReasonCode::QosNotSupported => Some(DisconnectReasonCode::QosNotSupported),
        ReasonCode::UseAnotherServer => Some(DisconnectReasonCode::UseAnotherServer),
        ReasonCode::ServerMoved => Some(DisconnectReasonCode::ServerMoved),
        ReasonCode::SharedSubscriptionsNotSupported => Some(DisconnectReasonCode::SharedSubscriptionsNotSupported),
        ReasonCode::ConnectionRateExceeded => Some(DisconnectReasonCode::ConnectionRateExceeded),
        ReasonCode::MaximumConnectTime => Some(DisconnectReasonCode::MaximumConnectTime),
        ReasonCode::SubscriptionIdentifiersNotSupported => Some(DisconnectReasonCode::SubscriptionIdentifiersNotSupported),
        ReasonCode::WildcardSubscriptionsNotSupported => Some(DisconnectReasonCode::WildcardSubscriptionsNotSupported),
        _ => None,
    }
}

impl DisconnectReasonCode {
    /// The general reason code
    pub fn reason_code(&self) -> (r: ReasonCode)
        ensures
            r == disconnect_reason_code_general(*self),
    {
        match self {
            DisconnectReasonCode::Success => ReasonCode::Success,
            DisconnectReasonCode::DisconnectWithWillMessage => ReasonCode::DisconnectWithWillMessage,
            DisconnectReasonCode::UnspecifiedError => ReasonCode::UnspecifiedError,
            DisconnectReasonCode::MalformedPacket => ReasonCode::MalformedPacket,
            DisconnectReasonCode::ProtocolError => ReasonCode::ProtocolError,
            DisconnectReasonCode::ImplementationSpecificError => ReasonCode::ImplementationSpecificError,
            DisconnectReasonCode::NotAuthorized => ReasonCode::NotAuthorized,
            DisconnectReasonCode::ServerBusy => ReasonCode::ServerBusy,
            DisconnectReasonCode::ServerShuttingDown => ReasonCode::ServerShuttingDown,
            DisconnectReasonCode::KeepAliveTimeout => ReasonCode::KeepAliveTimeout,
            DisconnectReasonCode::SessionTakenOver => ReasonCode::SessionTakenOver,
            DisconnectReasonCode::TopicFilterInvalid => ReasonCode::TopicFilterInvalid,
            DisconnectReasonCode::TopicNameInvalid => ReasonCode::TopicNameInvalid,
            DisconnectReasonCode::ReceiveMaximumExceeded => ReasonCode::ReceiveMaximumExceeded,
            DisconnectReasonCode::TopicAliasInvalid => ReasonCode::TopicAliasInvalid,
            DisconnectReasonCode::PacketTooLarge => ReasonCode::PacketTooLarge,
            DisconnectReasonCode::MessageRateTooHigh => ReasonCode::MessageRateTooHigh,
            DisconnectReasonCode::QuotaExceeded => ReasonCode::QuotaExceeded,
            DisconnectReasonCode::AdministrativeAction => ReasonCode::AdministrativeAction,
            DisconnectReasonCode::PayloadFormatInvalid => ReasonCode::PayloadFormatInvalid,
            DisconnectReasonCode::RetainNotSupported => ReasonCode::RetainNotSupported,
            DisconnectReasonCode::QosNotSupported => ReasonCode::QosNotSupported,
            DisconnectReasonCode::UseAnotherServer => ReasonCode::UseAnotherServer,
            DisconnectReasonCode::ServerMoved => ReasonCode::ServerMoved,
            DisconnectReasonCode::SharedSubscriptionsNotSupported => ReasonCode::SharedSubscriptionsNotSupported,
            DisconnectReasonCode::ConnectionRateExceeded => ReasonCode::ConnectionRateExceeded,
            DisconnectReasonCode::MaximumConnectTime => ReasonCode::MaximumConnectTime,
            DisconnectReasonCode::SubscriptionIdentifiersNotSupported => ReasonCode::SubscriptionIdentifiersNotSupported,
            DisconnectReasonCode::WildcardSubscriptionsNotSupported => ReasonCode::WildcardSubscriptionsNotSupported,
        }
    }

    /// Convert a general reason code to this subset, failing with
    /// [PacketReadError::UnknownReasonCode] when it is not in the subset
    pub fn try_from_reason_code(c: ReasonCode) -> (r: Result<DisconnectReasonCode, PacketReadError>)
        ensures
            r == (match disconnect_reason_code_from_general(c) {
                Some(x) => Ok(x),
                None => Err(PacketReadError::UnknownReasonCode),
            }),
    {
        match c {
            ReasonCode::Success => Ok(DisconnectReasonCode::Success),
            ReasonCode::DisconnectWithWillMessage => Ok(DisconnectReasonCode::DisconnectWithWillMessage),
            ReasonCode::UnspecifiedError => Ok(DisconnectReasonCode::UnspecifiedError),
            ReasonCode::MalformedPacket => Ok(DisconnectReasonCode::MalformedPacket),
            ReasonCode::ProtocolError => Ok(DisconnectReasonCode::ProtocolError),
            ReasonCode::ImplementationSpecificError => Ok(DisconnectReasonCode::ImplementationSpecificError),
            ReasonCode::NotAuthorized => Ok(DisconnectReasonCode::NotAuthorized),
            ReasonCode::ServerBusy => Ok(DisconnectReasonCode::ServerBusy),
            ReasonCode::ServerShuttingDown => Ok(DisconnectReasonCode::ServerShuttingDown),
            ReasonCode::KeepAliveTimeout => Ok(DisconnectReasonCode::KeepAliveTimeout),
            ReasonCode::SessionTakenOver => Ok(DisconnectReasonCode::SessionTakenOver),
            ReasonCode::TopicFilterInvalid => Ok(DisconnectReasonCode::TopicFilterInvalid),
            ReasonCode::TopicNameInvalid => Ok(DisconnectReasonCode::TopicNameInvalid),
            ReasonCode::ReceiveMaximumExceeded => Ok(DisconnectReasonCode::ReceiveMaximumExceeded),
            ReasonCode::TopicAliasInvalid => Ok(DisconnectReasonCode::TopicAliasInvalid),
            ReasonCode::PacketTooLarge => Ok(DisconnectReasonCode::PacketTooLarge),
            ReasonCode::MessageRateTooHigh => Ok(DisconnectReasonCode::MessageRateTooHigh),
            ReasonCode::QuotaExceeded => Ok(DisconnectReasonCode::QuotaExceeded),
            ReasonCode::AdministrativeAction => Ok(DisconnectReasonCode::AdministrativeAction),
            ReasonCode::PayloadFormatInvalid => Ok(DisconnectReasonCode::PayloadFormatInvalid),
            ReasonCode::RetainNotSupported => Ok(DisconnectReasonCode::RetainNotSupported),
            ReasonCode::QosNotSupported => Ok(DisconnectReasonCode::QosNotSupported),
            ReasonCode::UseAnotherServer => Ok(DisconnectReasonCode::UseAnotherServer),
            ReasonCode::ServerMoved => Ok(DisconnectReasonCode::ServerMoved),
            ReasonCode::SharedSubscriptionsNotSupported => Ok(DisconnectReasonCode::SharedSubscriptionsNotSupported),
            ReasonCode::ConnectionRateExceeded => Ok(DisconnectReasonCode::ConnectionRateExceeded),
            ReasonCode::MaximumConnectTime => Ok(DisconnectReasonCode::MaximumConnectTime),
            ReasonCode::SubscriptionIdentifiersNotSupported => Ok(DisconnectReasonCode::SubscriptionIdentifiersNotSupported),
            ReasonCode::WildcardSubscriptionsNotSupported => Ok(DisconnectReasonCode::WildcardSubscriptionsNotSupported),
            _ => Err(PacketReadError::UnknownReasonCode),
        }
    }

    /// Decode from a one byte value, failing with [PacketReadError::UnknownReasonCode]
    /// when the value is not the value of a reason code in this subset
    pub fn try_from_u8(v: u8) -> (r: Result<DisconnectReasonCode, PacketReadError>)
        ensures
            r == (match reason_code_from_value(v) {
                Some(c) => match disconnect_reason_code_from_general(c) {
                    Some(x) => Ok(x),
                    None => Err(PacketReadError::UnknownReasonCode),
                },
                None => Err(PacketReadError::UnknownReasonCode),
            }),
    {
        let c = match ReasonCode::try_from_u8(v) {
            Ok(c) => c,
            Err(e) => return Err(e),
        };
        DisconnectReasonCode::try_from_reason_code(c)
    }

    /// The one byte value that encodes this reason code
    pub fn value(&self) -> (r: u8)
        ensures
            r == reason_code_value(disconnect_reason_code_general(*self)),
    {
        self.reason_code().value()
    }

    /// True when this reason code indicates failure (value 128 or greater)
    pub fn is_error(&self) -> (r: bool)
        ensures
            r == (reason_code_value(disconnect_reason_code_general(*self)) >= 128),
    {
        self.value() >= 128
    }
}

/// Converting a [DisconnectReasonCode] to a general reason code and back gives the same code, and a
/// general code converts to the subset exactly when it is the general code of a member.
pub proof fn lemma_disconnect_reason_code_roundtrip(x: DisconnectReasonCode, c: ReasonCode)
    ensures
        disconnect_reason_code_from_general(disconnect_reason_code_general(x)) == Some(x),
        disconnect_reason_code_from_general(c) == Some(x) ==> disconnect_reason_code_general(x) == c,
{
}

/// The subset of [ReasonCode] that is permitted as the reason code of a Puback or Pubrec packet, replying to a Publish packet
#[derive(Clone, Copy, PartialEq, Eq, Debug, Structural)]
pub enum PublishReasonCode {
    Success,
    NoMatchingSubscribers,
    UnspecifiedError,
    ImplementationSpecificError,
    NotAuthorized,
    TopicNameInvalid,
    PacketIdentifierInUse,
    QuotaExceeded,
    PayloadFormatInvalid,
}

/// The general reason code of a [PublishReasonCode]
pub open spec fn publish_reason_code_general(c: PublishReasonCode) -> ReasonCode {
    match c {
        PublishReasonCode::Success => ReasonCode::Success,
        PublishReasonCode::NoMatchingSubscribers => ReasonCode::NoMatchingSubscribers,
        PublishReasonCode::UnspecifiedError => ReasonCode::UnspecifiedError,
        PublishReasonCode::ImplementationSpecificError => ReasonCode::ImplementationSpecificError,
        PublishReasonCode::NotAuthorized => ReasonCode::NotAuthorized,
        PublishReasonCode::TopicNameInvalid => ReasonCode::TopicNameInvalid,
        PublishReasonCode::PacketIdentifierInUse => ReasonCode::PacketIdentifierInUse,
        PublishReasonCode::QuotaExceeded => ReasonCode::QuotaExceeded,
        PublishReasonCode::PayloadFormatInvalid => ReasonCode::PayloadFormatInvalid,
    }
}

/// The [PublishReasonCode] of a general reason code, when it is in the subset
pub open spec fn publish_reason_code_from_general(c: ReasonCode) -> Option<PublishReasonCode> {
    match c {
        ReasonCode::Success => Some(PublishReasonCode::Success),
        ReasonCode::NoMatchingSubscribers => Some(PublishReasonCode::NoMatchingSubscribers),
        ReasonCode::UnspecifiedError => Some(PublishReasonCode::UnspecifiedError),
        ReasonCode::ImplementationSpecificError => Some(PublishReasonCode::ImplementationSpecificError),
        ReasonCode::NotAuthorized => Some(PublishReasonCode::NotAuthorized),
        ReasonCode::TopicNameInvalid => Some(PublishReasonCode::TopicNameInvalid),
        ReasonCode::PacketIdentifierInUse => Some(PublishReasonCode::PacketIdentifierInUse),
        ReasonCode::QuotaExceeded => Some(PublishReasonCode::QuotaExceeded),
        ReasonCode::PayloadFormatInvalid => Some(PublishReasonCode::PayloadFormatInvalid),
        _ => None,
    }
}

impl PublishReasonCode {
    /// The general reason code
    pub fn reason_code(&self) -> (r: ReasonCode)
        ensures
            r == publish_reason_code_general(*self),
    {
        match self {
            PublishReasonCode::Success => ReasonCode::Success,
            PublishReasonCode::NoMatchingSubscribers => ReasonCode::NoMatchingSubscribers,
            PublishReasonCode::UnspecifiedError => ReasonCode::UnspecifiedError,
            PublishReasonCode::ImplementationSpecificError => ReasonCode::ImplementationSpecificError,
            PublishReasonCode::NotAuthorized => ReasonCode::NotAuthorized,
            PublishReasonCode::TopicNameInvalid => ReasonCode::TopicNameInvalid,
            PublishReasonCode::PacketIdentifierInUse => ReasonCode::PacketIdentifierInUse,
            PublishReasonCode::QuotaExceeded => ReasonCode::QuotaExceeded,
            PublishReasonCode::PayloadFormatInvalid => ReasonCode::PayloadFormatInvalid,
        }
    }

    /// Convert a general reason code to this subset, failing with
    /// [PacketReadError::UnknownReasonCode] when it is not in the subset
    pub fn try_from_reason_code(c: ReasonCode) -> (r: Result<PublishReasonCode, PacketReadError>)
        ensures
            r == (match publish_reason_code_from_general(c) {
                Some(x) => Ok(x),
                None => Err(PacketReadError::UnknownReasonCode),
            }),
    {
        match c {
            ReasonCode::Success => Ok(PublishReasonCode::Success),
            ReasonCode::NoMatchingSubscribers => Ok(PublishReasonCode::NoMatchingSubscribers),
            ReasonCode::UnspecifiedError => Ok(PublishReasonCode::UnspecifiedError),
            ReasonCode::ImplementationSpecificError => Ok(PublishReasonCode::ImplementationSpecificError),
            ReasonCode::NotAuthorized => Ok(PublishReasonCode::NotAuthorized),
            ReasonCode::TopicNameInvalid => Ok(PublishReasonCode::TopicNameInvalid),
            ReasonCode::PacketIdentifierInUse => Ok(PublishReasonCode::PacketIdentifierInUse),
            ReasonCode::QuotaExceeded => Ok(PublishReasonCode::QuotaExceeded),
            ReasonCode::PayloadFormatInvalid => Ok(PublishReasonCode::PayloadFormatInvalid),
            _ => Err(PacketReadError::UnknownReasonCode),
        }
    }

    /// Decode from a one byte value, failing with [PacketReadError::UnknownReasonCode]
    /// when the value is not the value of a reason code in this subset
    pub fn try_from_u8(v: u8) -> (r: Result<PublishReasonCode, PacketReadError>)
        ensures
            r == (match reason_code_from_value(v) {
                Some(c) => match publish_reason_code_from_general(c) {
                    Some(x) => Ok(x),
                    None => Err(PacketReadError::UnknownReasonCode),
                },
                None => Err(PacketReadError::UnknownReasonCode),
            }),
    {
        let c = match ReasonCode::try_from_u8(v) {
            Ok(c) => c,
            Err(e) => return Err(e),
        };
        PublishReasonCode::try_from_reason_code(c)
    }

    /// The one byte value that encodes this reason code
    pub fn value(&self) -> (r: u8)
        ensures
            r == reason_code_value(publish_reason_code_general(*self)),
    {
        self.reason_code().value()
    }

    /// True when this reason code indicates failure (value 128 or greater)
    pub fn is_error(&self) -> (r: bool)
        ensures
            r == (reason_code_value(publish_reason_code_general(*self)) >= 128),
    {
        self.value() >= 128
    }
}

/// Converting a [PublishReasonCode] to a general reason code and back gives the same code, and a
/// general code converts to the subset exactly when it is the general code of a member.
pub proof fn lemma_publish_reason_code_roundtrip(x: PublishReasonCode, c: ReasonCode)
    ensures
        publish_reason_code_from_general(publish_reason_code_general(x)) == Some(x),
        publish_reason_code_from_general(c) == Some(x) ==> publish_reason_code_general(x) == c,
{
}

/// The subset of [ReasonCode] that is permitted as the reason code of a Pubrel or Pubcomp packet
#[derive(Clone, Copy, PartialEq, Eq, Debug, Structural)]
pub enum PubrelReasonCode {
    Success,
    PacketIdentifierNotFound,
}

/// The general reason code of a [PubrelReasonCode]
pub open spec fn pubrel_reason_code_general(c: PubrelReasonCode) -> ReasonCode {
    match c {
        PubrelReasonCode::Success => ReasonCode::Success,
        PubrelReasonCode::PacketIdentifierNotFound => ReasonCode::PacketIdentifierNotFound,
    }
}

/// The [PubrelReasonCode] of a general reason code, when it is in the subset
pub open spec fn pubrel_reason_code_from_general(c: ReasonCode) -> Option<PubrelReasonCode> {
    match c {
        ReasonCode::Success => Some(PubrelReasonCode::Success),
        ReasonCode::PacketIdentifierNotFound => Some(PubrelReasonCode::PacketIdentifierNotFound),
        _ => None,
    }
}

impl PubrelReasonCode {
    /// The general reason code
    pub fn reason_code(&self) -> (r: ReasonCode)
        ensures
            r == pubrel_reason_code_general(*self),
    {
        match self {
            PubrelReasonCode::Success => ReasonCode::Success,
            PubrelReasonCode::PacketIdentifierNotFound => ReasonCode::PacketIdentifierNotFound,
        }
    }

    /// Convert a general reason code to this subset, failing with
    /// [PacketReadError::UnknownReasonCode] when it is not in the subset
    pub fn try_from_reason_code(c: ReasonCode) -> (r: Result<PubrelReasonCode, PacketReadError>)
        ensures
            r == (match pubrel_reason_code_from_general(c) {
                Some(x) => Ok(x),
                None => Err(PacketReadError::UnknownReasonCode),
            }),
    {
        match c {
            ReasonCode::Success => Ok(PubrelReasonCode::Success),
            ReasonCode::PacketIdentifierNotFound => Ok(PubrelReasonCode::PacketIdentifierNotFound),
            _ => Err(PacketReadError::UnknownReasonCode),
        }
    }

    /// Decode from a one byte value, failing with [PacketReadError::UnknownReasonCode]
    /// when the value is not the value of a reason code in this subset
    pub fn try_from_u8(v: u8) -> (r: Result<PubrelReasonCode, PacketReadError>)
        ensures
            r == (match reason_code_from_value(v) {
                Some(c) => match pubrel_reason_code_from_general(c) {
                    Some(x) => Ok(x),
                    None => Err(PacketReadError::UnknownReasonCode),
                },
                None => Err(PacketReadError::UnknownReasonCode),
            }),
    {
        let c = match ReasonCode::try_from_u8(v) {
            Ok(c) => c,
            Err(e) => return Err(e),
        };
        PubrelReasonCode::try_from_reason_code(c)
    }

    /// The one byte value that encodes this reason code
    pub fn value(&self) -> (r: u8)
        ensures
            r == reason_code_value(pubrel_reason_code_general(*self)),
    {
        self.reason_code().value()
    }

    /// True when this reason code indicates failure (value 128 or greater)
    pub fn is_error(&self) -> (r: bool)
        ensures
            r == (reason_code_value(pubrel_reason_code_general(*self)) >= 128),
    {
        self.value() >= 128
    }
}

/// Converting a [PubrelReasonCode] to a general reason code and back gives the same code, and a
/// general code converts to the subset exactly when it is the general code of a member.
pub proof fn lemma_pubrel_reason_code_roundtrip(x: PubrelReasonCode, c: ReasonCode)
    ensures
        pubrel_reason_code_from_general(pubrel_reason_code_general(x)) == Some(x),
        pubrel_reason_code_from_general(c) == Some(x) ==> pubrel_reason_code_general(x) == c,
{
}

/// The subset of [ReasonCode] that is permitted as a reason code of a Suback packet, replying to one subscription request
#[derive(Clone, Copy, PartialEq, Eq, Debug, Structural)]
pub enum SubscribeReasonCode {
    Success,
    GrantedQos1,
    GrantedQos2,
    UnspecifiedError,
    ImplementationSpecificError,
    NotAuthorized,
    TopicFilterInvalid,
    PacketIdentifierInUse,
    QuotaExceeded,
    SharedSubscriptionsNotSupported,
    SubscriptionIdentifiersNotSupported,
    WildcardSubscriptionsNotSupported,
}

/// The general reason code of a [SubscribeReasonCode]
pub open spec fn subscribe_reason_code_general(c: SubscribeReasonCode) -> ReasonCode {
    match c {
        SubscribeReasonCode::Success => ReasonCode::Success,
        SubscribeReasonCode::GrantedQos1 => ReasonCode::GrantedQos1,
        SubscribeReasonCode::GrantedQos2 => ReasonCode::GrantedQos2,
        SubscribeReasonCode::UnspecifiedError => ReasonCode::UnspecifiedError,
        SubscribeReasonCode::ImplementationSpecificError => ReasonCode::ImplementationSpecificError,
        SubscribeReasonCode::NotAuthorized => ReasonCode::NotAuthorized,
        SubscribeReasonCode::TopicFilterInvalid => ReasonCode::TopicFilterInvalid,
        SubscribeReasonCode::PacketIdentifierInUse => ReasonCode::PacketIdentifierInUse,
        SubscribeReasonCode::QuotaExceeded => ReasonCode::QuotaExceeded,
        SubscribeReasonCode::SharedSubscriptionsNotSupported => ReasonCode::SharedSubscriptionsNotSupported,
        SubscribeReasonCode::SubscriptionIdentifiersNotSupported => ReasonCode::SubscriptionIdentifiersNotSupported,
        SubscribeReasonCode::WildcardSubscriptionsNotSupported => ReasonCode::WildcardSubscriptionsNotSupported,
    }
}

/// The [SubscribeReasonCode] of a general reason code, when it is in the subset
pub open spec fn subscribe_reason_code_from_general(c: ReasonCode) -> Option<SubscribeReasonCode> {
    match c {
        ReasonCode::Success => Some(SubscribeReasonCode::Success),
        ReasonCode::GrantedQos1 => Some(SubscribeReasonCode::GrantedQos1),
        ReasonCode::GrantedQos2 => Some(SubscribeReasonCode::GrantedQos2),
        ReasonCode::UnspecifiedError => Some(SubscribeReasonCode::UnspecifiedError),
        ReasonCode::ImplementationSpecificError => Some(SubscribeReasonCode::ImplementationSpecificError),
        ReasonCode::NotAuthorized => Some(SubscribeReasonCode::NotAuthorized),
        ReasonCode::TopicFilterInvalid => Some(SubscribeReasonCode::TopicFilterInvalid),
        ReasonCode::PacketIdentifierInUse => Some(SubscribeReasonCode::PacketIdentifierInUse),
        ReasonCode::QuotaExceeded => Some(SubscribeReasonCode::QuotaExceeded),
        ReasonCode::SharedSubscriptionsNotSupported => Some(SubscribeReasonCode::SharedSubscriptionsNotSupported),
        ReasonCode::SubscriptionIdentifiersNotSupported => Some(SubscribeReasonCode::SubscriptionIdentifiersNotSupported),
        ReasonCode::WildcardSubscriptionsNotSupported => Some(SubscribeReasonCode::WildcardSubscriptionsNotSupported),
        _ => None,
    }
}

impl SubscribeReasonCode {
    /// The general reason code
    pub fn reason_code(&self) -> (r: ReasonCode)
        ensures
            r == subscribe_reason_code_general(*self),
    {
        match self {
            SubscribeReasonCode::Success => ReasonCode::Success,
            SubscribeReasonCode::GrantedQos1 => ReasonCode::GrantedQos1,
            SubscribeReasonCode::GrantedQos2 => ReasonCode::GrantedQos2,
            SubscribeReasonCode::UnspecifiedError => ReasonCode::UnspecifiedError,
            SubscribeReasonCode::ImplementationSpecificError => ReasonCode::ImplementationSpecificError,
            SubscribeReasonCode::NotAuthorized => ReasonCode::NotAuthorized,
            SubscribeReasonCode::TopicFilterInvalid => ReasonCode::TopicFilterInvalid,
            SubscribeReasonCode::PacketIdentifierInUse => ReasonCode::PacketIdentifierInUse,
            SubscribeReasonCode::QuotaExceeded => ReasonCode::QuotaExceeded,
            SubscribeReasonCode::SharedSubscriptionsNotSupported => ReasonCode::SharedSubscriptionsNotSupported,
            SubscribeReasonCode::SubscriptionIdentifiersNotSupported => ReasonCode::SubscriptionIdentifiersNotSupported,
            SubscribeReasonCode::WildcardSubscriptionsNotSupported => ReasonCode::WildcardSubscriptionsNotSupported,
        }
    }

    /// Convert a general reason code to this subset, failing with
    /// [PacketReadError::UnknownReasonCode] when it is not in the subset
    pub fn try_from_reason_code(c: ReasonCode) -> (r: Result<SubscribeReasonCode, PacketReadError>)
        ensures
            r == (match subscribe_reason_code_from_general(c) {
                Some(x) => Ok(x),
                None => Err(PacketReadError::UnknownReasonCode),
            }),
    {
        match c {
            ReasonCode::Success => Ok(SubscribeReasonCode::Success),
            ReasonCode::GrantedQos1 => Ok(SubscribeReasonCode::GrantedQos1),
            ReasonCode::GrantedQos2 => Ok(SubscribeReasonCode::GrantedQos2),
            ReasonCode::UnspecifiedError => Ok(SubscribeReasonCode::UnspecifiedError),
            ReasonCode::ImplementationSpecificError => Ok(SubscribeReasonCode::ImplementationSpecificError),
            ReasonCode::NotAuthorized => Ok(SubscribeReasonCode::NotAuthorized),
            ReasonCode::TopicFilterInvalid => Ok(SubscribeReasonCode::TopicFilterInvalid),
            ReasonCode::PacketIdentifierInUse => Ok(SubscribeReasonCode::PacketIdentifierInUse),
            ReasonCode::QuotaExceeded => Ok(SubscribeReasonCode::QuotaExceeded),
            ReasonCode::SharedSubscriptionsNotSupported => Ok(SubscribeReasonCode::SharedSubscriptionsNotSupported),
            ReasonCode::SubscriptionIdentifiersNotSupported => Ok(SubscribeReasonCode::SubscriptionIdentifiersNotSupported),
            ReasonCode::WildcardSubscriptionsNotSupported => Ok(SubscribeReasonCode::WildcardSubscriptionsNotSupported),
            _ => Err(PacketReadError::UnknownReasonCode),
        }
    }

    /// Decode from a one byte value, failing with [PacketReadError::UnknownReasonCode]
    /// when the value is not the value of a reason code in this subset
    pub fn try_from_u8(v: u8) -> (r: Result<SubscribeReasonCode, PacketReadError>)
        ensures
            r == (match reason_code_from_value(v) {
                Some(c) => match subscribe_reason_code_from_general(c) {
                    Some(x) => Ok(x),
                    None => Err(PacketReadError::UnknownReasonCode),
                },
                None => Err(PacketReadError::UnknownReasonCode),
            }),
    {
        let c = match ReasonCode::try_from_u8(v) {
            Ok(c) => c,
            Err(e) => return Err(e),
        };
        SubscribeReasonCode::try_from_reason_code(c)
    }

    /// The one byte value that encodes this reason code
    pub fn value(&self) -> (r: u8)
        ensures
            r == reason_code_value(subscribe_reason_code_general(*self)),
    {
        self.reason_code().value()
    }

    /// True when this reason code indicates failure (value 128 or greater)
    pub fn is_error(&self) -> (r: bool)
        ensures
            r == (reason_code_value(subscribe_reason_code_general(*self)) >= 128),
    {
        self.value() >= 128
    }
}

/// Converting a [SubscribeReasonCode] to a general reason code and back gives the same code, and a
/// general code converts to the subset exactly when it is the general code of a member.
pub proof fn lemma_subscribe_reason_code_roundtrip(x: SubscribeReasonCode, c: ReasonCode)
    ensures
        subscribe_reason_code_from_general(subscribe_reason_code_general(x)) == Some(x),
        subscribe_reason_code_from_general(c) == Some(x) ==> subscribe_reason_code_general(x) == c,
{
}

/// The subset of [ReasonCode] that is permitted as a reason code of an Unsuback packet, replying to one unsubscription request
#[derive(Clone, Copy, PartialEq, Eq, Debug, Structural)]
pub enum UnsubscribeReasonCode {
    Success,
    NoSubscriptionExisted,
    UnspecifiedError,
    ImplementationSpecificError,
    NotAuthorized,
    TopicFilterInvalid,
    PacketIdentifierInUse,
}

/// The general reason code of a [UnsubscribeReasonCode]
pub open spec fn unsubscribe_reason_code_general(c: UnsubscribeReasonCode) -> ReasonCode {
    match c {
        UnsubscribeReasonCode::Success => ReasonCode::Success,
        UnsubscribeReasonCode::NoSubscriptionExisted => ReasonCode::NoSubscriptionExisted,
        UnsubscribeReasonCode::UnspecifiedError => ReasonCode::UnspecifiedError,
        UnsubscribeReasonCode::ImplementationSpecificError => ReasonCode::ImplementationSpecificError,
        UnsubscribeReasonCode::NotAuthorized => ReasonCode::NotAuthorized,
        UnsubscribeReasonCode::TopicFilterInvalid => ReasonCode::TopicFilterInvalid,
        UnsubscribeReasonCode::PacketIdentifierInUse => ReasonCode::PacketIdentifierInUse,
    }
}

/// The [UnsubscribeReasonCode] of a general reason code, when it is in the subset
pub open spec fn unsubscribe_reason_code_from_general(c: ReasonCode) -> Option<UnsubscribeReasonCode> {
    match c {
        ReasonCode::Success => Some(UnsubscribeReasonCode::Success),
        ReasonCode::NoSubscriptionExisted => Some(UnsubscribeReasonCode::NoSubscriptionExisted),
        ReasonCode::UnspecifiedError => Some(UnsubscribeReasonCode::UnspecifiedError),
        ReasonCode::ImplementationSpecificError => Some(UnsubscribeReasonCode::ImplementationSpecificError),
        ReasonCode::NotAuthorized => Some(UnsubscribeReasonCode::NotAuthorized),
        ReasonCode::TopicFilterInvalid => Some(UnsubscribeReasonCode::TopicFilterInvalid),
        ReasonCode::PacketIdentifierInUse => Some(UnsubscribeReasonCode::PacketIdentifierInUse),
        _ => None,
    }
}

impl UnsubscribeReasonCode {
    /// The general reason code
    pub fn reason_code(&self) -> (r: ReasonCode)
        ensures
            r == unsubscribe_reason_code_general(*self),
    {
        match self {
            UnsubscribeReasonCode::Success => ReasonCode::Success,
            UnsubscribeReasonCode::NoSubscriptionExisted => ReasonCode::NoSubscriptionExisted,
            UnsubscribeReasonCode::UnspecifiedError => ReasonCode::UnspecifiedError,
            UnsubscribeReasonCode::ImplementationSpecificError => ReasonCode::ImplementationSpecificError,
            UnsubscribeReasonCode::NotAuthorized => ReasonCode::NotAuthorized,
            UnsubscribeReasonCode::TopicFilterInvalid => ReasonCode::TopicFilterInvalid,
            UnsubscribeReasonCode::PacketIdentifierInUse => ReasonCode::PacketIdentifierInUse,
        }
    }

    /// Convert a general reason code to this subset, failing with
    /// [PacketReadError::UnknownReasonCode] when it is not in the subset
    pub fn try_from_reason_code(c: ReasonCode) -> (r: Result<UnsubscribeReasonCode, PacketReadError>)
        ensures
            r == (match unsubscribe_reason_code_from_general(c) {
                Some(x) => Ok(x),
                None => Err(PacketReadError::UnknownReasonCode),
            }),
    {
        match c {
            ReasonCode::Success => Ok(UnsubscribeReasonCode::Success),
            ReasonCode::NoSubscriptionExisted => Ok(UnsubscribeReasonCode::NoSubscriptionExisted),
            ReasonCode::UnspecifiedError => Ok(UnsubscribeReasonCode::UnspecifiedError),
            ReasonCode::ImplementationSpecificError => Ok(UnsubscribeReasonCode::ImplementationSpecificError),
            ReasonCode::NotAuthorized => Ok(UnsubscribeReasonCode::NotAuthorized),
            ReasonCode::TopicFilterInvalid => Ok(UnsubscribeReasonCode::TopicFilterInvalid),
            ReasonCode::PacketIdentifierInUse => Ok(UnsubscribeReasonCode::PacketIdentifierInUse),
            _ => Err(PacketReadError::UnknownReasonCode),
        }
    }

    /// Decode from a one byte value, failing with [PacketReadError::UnknownReasonCode]
    /// when the value is not the value of a reason code in this subset
    pub fn try_from_u8(v: u8) -> (r: Result<UnsubscribeReasonCode, PacketReadError>)
        ensures
            r == (match reason_code_from_value(v) {
                Some(c) => match unsubscribe_reason_code_from_general(c) {
                    Some(x) => Ok(x),
                    None => Err(PacketReadError::UnknownReasonCode),
                },
                None => Err(PacketReadError::UnknownReasonCode),
            }),
    {
        let c = match ReasonCode::try_from_u8(v) {
            Ok(c) => c,
            Err(e) => return Err(e),
        };
        UnsubscribeReasonCode::try_from_reason_code(c)
    }

    /// The one byte value that encodes this reason code
    pub fn value(&self) -> (r: u8)
        ensures
            r == reason_code_value(unsubscribe_reason_code_general(*self)),
    {
        self.reason_code().value()
    }

    /// True when this reason code indicates failure (value 128 or greater)
    pub fn is_error(&self) -> (r: bool)
        ensures
            r == (reason_code_value(unsubscribe_reason_code_general(*self)) >= 128),
    {
        self.value() >= 128
    }
}

/// Converting a [UnsubscribeReasonCode] to a general reason code and back gives the same code, and a
/// general code converts to the subset exactly when it is the general code of a member.
pub proof fn lemma_unsubscribe_reason_code_roundtrip(x: UnsubscribeReasonCode, c: ReasonCode)
    ensures
        unsubscribe_reason_code_from_general(unsubscribe_reason_code_general(x)) == Some(x),
        unsubscribe_reason_code_from_general(c) == Some(x) ==> unsubscribe_reason_code_general(x) == c,
{
}

} // verus!
