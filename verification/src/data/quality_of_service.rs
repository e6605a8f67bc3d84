use vstd::prelude::*;

use crate::error::PacketReadError;

verus! {

/// Quality of service of a published message: at most once (0), at least once (1),
/// exactly once (2)
#[derive(Clone, Copy, PartialEq, Eq, Debug, Hash, Structural)]
pub enum QualityOfService {
    Qos0,
    Qos1,
    Qos2,
}

/// The value that encodes a quality of service
pub open spec fn qos_value(q: QualityOfService) -> u8 {
    match q {
        QualityOfService::Qos0 => 0,
        QualityOfService::Qos1 => 1,
        QualityOfService::Qos2 => 2,
    }
}

/// The text of a quality of service
pub open spec fn qos_text(q: QualityOfService) -> Seq<char> {
    match q {
        QualityOfService::Qos0 => "QoS0"@,
        QualityOfService::Qos1 => "QoS1"@,
        QualityOfService::Qos2 => "QoS2"@,
    }
}

/// The quality of service that a value encodes, if any
pub open spec fn qos_from_value(v: u8) -> Option<QualityOfService> {
    if v == 0 {
        Some(QualityOfService::Qos0)
    } else if v == 1 {
        Some(QualityOfService::Qos1)
    } else if v == 2 {
        Some(QualityOfService::Qos2)
    } else {
        None
    }
}

impl QualityOfService {
    /// This quality of service as text
    pub fn to_string(&self) -> (r: String)
        ensures
            r@ == qos_text(*self),
    {
        let s: &str = match self {
            QualityOfService::Qos0 => "QoS0",
            QualityOfService::Qos1 => "QoS1",
            QualityOfService::Qos2 => "QoS2",
        };
        s.to_owned()
    }

    /// The value that encodes this quality of service
    pub fn value(&self) -> (r: u8)
        ensures
            r == qos_value(*self),
    {
        match self {
            QualityOfService::Qos0 => 0,
            QualityOfService::Qos1 => 1,
            QualityOfService::Qos2 => 2,
        }
    }

    /// Decode a quality of service from its value, failing with
    /// [PacketReadError::InvalidQosValue] for values other than 0, 1 and 2
    pub fn try_from_u8(value: u8) -> (r: Result<QualityOfService, PacketReadError>)
        ensures
            r == (match qos_from_value(value) {
                Some(q) => Ok(q),
                None => Err(PacketReadError::InvalidQosValue),
            }),
    {
        match value {
            0 => Ok(QualityOfService::Qos0),
            1 => Ok(QualityOfService::Qos1),
            2 => Ok(QualityOfService::Qos2),
            _ => Err(PacketReadError::InvalidQosValue),
        }
    }
}

/// Encoding then decoding a quality of service gives it back, and a value decodes only
/// to the quality of service that it encodes.
pub proof fn lemma_qos_value_roundtrip(q: QualityOfService, v: u8)
    ensures
        qos_from_value(qos_value(q)) == Some(q),
        qos_from_value(v) == Some(q) ==> qos_value(q) == v,
        qos_from_value(v) is Some <==> v <= 2,
{
}

} // verus!
