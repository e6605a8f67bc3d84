use mountain_mqtt::client::ClientError;
use mountain_mqtt::client_state::ClientStateError;
use mountain_mqtt::data::quality_of_service::QualityOfService;
use mountain_mqtt::data::reason_code::{
    ConnectReasonCode, DisconnectReasonCode, ReasonCode, SubscribeReasonCode,
};
use mountain_mqtt::error::{PacketReadError, PacketWriteError};

#[test]
fn packet_read_error_text_is_variant_name() {
    assert_eq!(PacketReadError::InsufficientData.to_string(), "InsufficientData");
    assert_eq!(
        PacketReadError::InvalidVariableByteIntegerEncoding.to_string(),
        "InvalidVariableByteIntegerEncoding"
    );
}

#[test]
fn packet_read_error_text_for_reserved_subscription_bits() {
    assert_eq!(
        PacketReadError::SubscriptionOptionsReservedBitsNonZero.to_string(),
        "ReservedBitsSetInSubscriptionOptions"
    );
}

#[test]
fn packet_write_error_text_is_variant_name() {
    assert_eq!(PacketWriteError::Overflow.to_string(), "Overflow");
    assert_eq!(PacketWriteError::ConnectionSend.to_string(), "ConnectionSend");
}

#[test]
fn quality_of_service_text() {
    assert_eq!(QualityOfService::Qos0.to_string(), "QoS0");
    assert_eq!(QualityOfService::Qos1.to_string(), "QoS1");
    assert_eq!(QualityOfService::Qos2.to_string(), "QoS2");
}

#[test]
fn reason_code_name() {
    assert_eq!(ReasonCode::ServerMoved.name(), "ServerMoved");
    assert_eq!(ReasonCode::Success.name(), "Success");
}

#[test]
fn client_state_error_text_nests_inner_error() {
    assert_eq!(
        ClientStateError::PacketWrite(PacketWriteError::Overflow).to_string(),
        "PacketWrite(Overflow)"
    );
    assert_eq!(
        ClientStateError::PacketRead(PacketReadError::InvalidUtf8).to_string(),
        "PacketRead(InvalidUtf8)"
    );
    assert_eq!(
        ClientStateError::Connect(ConnectReasonCode::NotAuthorized).to_string(),
        "Connect(NotAuthorized)"
    );
    assert_eq!(
        ClientStateError::Subscribe(SubscribeReasonCode::GrantedQos1).to_string(),
        "Subscribe(GrantedQos1)"
    );
}

#[test]
fn client_state_error_text_renamed_variants() {
    assert_eq!(
        ClientStateError::ReceivedPacketOtherThanConnackOrAuthWhenConnecting.to_string(),
        "ReceivedPacketOtherThanConnackWhenConnecting"
    );
    assert_eq!(ClientStateError::NotIdle.to_string(), "NotIdle");
}

#[test]
fn client_error_text() {
    let e: ClientError<u8> =
        ClientError::ClientState(ClientStateError::PacketRead(PacketReadError::InsufficientData));
    assert_eq!(e.to_string(), "ClientState(PacketRead(InsufficientData))");
    let e: ClientError<u8> = ClientError::MessageHandler(7);
    assert_eq!(e.to_string(), "MessageHandlerError");
    let e: ClientError<u8> = ClientError::Disconnected(DisconnectReasonCode::ServerShuttingDown);
    assert_eq!(e.to_string(), "Disconnected(ServerShuttingDown)");
    let e: ClientError<u8> = ClientError::EmptyTopicNameWithAliasesDisabled;
    assert_eq!(e.to_string(), "EmptyTopicWithAliasesDisabled");
}
