use vstd::prelude::*;

use crate::data::quality_of_service::{qos_from_value, qos_value, QualityOfService};
use crate::error::PacketReadError;

verus! {

/// Whether retained messages are sent when a subscription is established
#[derive(Debug, PartialEq, Eq, Copy, Clone, Structural)]
pub enum RetainHandling {
    SendOnSubscribe,
    SendOnNewSubscribe,
    DoNotSend,
}

/// The options of a subscription request, encoded as one byte
#[derive(Debug, PartialEq, Eq, Copy, Clone, Structural)]
pub struct SubscriptionOptions {
    pub maximum_qos: QualityOfService,
    pub no_local: bool,
    pub retain_as_published: bool,
    pub retain_handling: RetainHandling,
}

/// The value (bits 4 and 5 of the options byte) of a retain handling option
pub open spec fn retain_handling_value(r: RetainHandling) -> u8 {
    match r {
        RetainHandling::SendOnSubscribe => 0,
        RetainHandling::SendOnNewSubscribe => 1,
        RetainHandling::DoNotSend => 2,
    }
}

/// The encoded byte of subscription options: maximum quality of service in bits 0 and 1,
/// no local in bit 2, retain as published in bit 3, retain handling in bits 4 and 5, and
/// the reserved bits 6 and 7 zero
#[verifier::opaque]
pub open spec fn subscription_options_byte(o: SubscriptionOptions) -> u8 {
    (qos_value(o.maximum_qos) + (if o.no_local { 4int } else { 0int }) + (if o.retain_as_published {
        8int
    } else {
        0int
    }) + 16 * retain_handling_value(o.retain_handling)) as u8
}

/// The result of decoding a subscription options byte: an invalid quality of service
/// fails first, then an invalid retain handling value (3), then non-zero reserved bits
#[verifier::opaque]
pub open spec fn subscription_options_from_byte(v: u8) -> Result<SubscriptionOptions, PacketReadError> {
    match qos_from_value(v % 4) {
        None => Err(PacketReadError::InvalidQosValue),
        Some(maximum_qos) => {
            let rh = (v / 16) % 4;
            if rh == 3 {
                Err(PacketReadError::InvalidRetainHandlingValue)
            } else if v / 64 != 0 {
                Err(PacketReadError::SubscriptionOptionsReservedBitsNonZero)
            } else {
                Ok(
                    SubscriptionOptions {
                        maximum_qos,
                        no_local: (v / 4) % 2 == 1,
                        retain_as_published: (v / 8) % 2 == 1,
                        retain_handling: if rh == 0 {
                            RetainHandling::SendOnSubscribe
                        } else if rh == 1 {
                            RetainHandling::SendOnNewSubscribe
                        } else {
                            RetainHandling::DoNotSend
                        },
                    },
                )
            }
        },
    }
}

impl SubscriptionOptions {
    /// Encode these options as one byte
    pub fn to_u8(&self) -> (r: u8)
        ensures
            r == subscription_options_byte(*self),
    {
        proof {
            reveal(subscription_options_byte);
        }
        let mut encoded = self.maximum_qos.value();
        if self.no_local {
            encoded = encoded + 4;
        }
        if self.retain_as_published {
            encoded = encoded + 8;
        }
        let rh: u8 = match self.retain_handling {
            RetainHandling::SendOnSubscribe => 0,
            RetainHandling::SendOnNewSubscribe => 1,
            RetainHandling::DoNotSend => 2,
        };
        encoded + 16 * rh
    }

    /// Decode options from one byte
    pub fn try_from_u8(value: u8) -> (r: Result<SubscriptionOptions, PacketReadError>)
        ensures
            r == subscription_options_from_byte(value),
    {
        proof {
            reveal(subscription_options_from_byte);
        }
        let maximum_qos = match QualityOfService::try_from_u8(value % 4) {
            Ok(q) => q,
            Err(e) => return Err(e),
        };
        let no_local = (value / 4) % 2 == 1;
        let retain_as_published = (value / 8) % 2 == 1;
        let rh = (value / 16) % 4;
        let retain_handling = if rh == 0 {
            RetainHandling::SendOnSubscribe
        } else if rh == 1 {
            RetainHandling::SendOnNewSubscribe
        } else if rh == 2 {
            RetainHandling::DoNotSend
        } else {
            return Err(PacketReadError::InvalidRetainHandlingValue);
        };
        if value / 64 != 0 {
            return Err(PacketReadError::SubscriptionOptionsReservedBitsNonZero);
        }
        Ok(SubscriptionOptions { maximum_qos, no_local, retain_as_published, retain_handling })
    }
}

/// Encoding subscription options and decoding the byte gives back the same options, and a
/// byte that decodes to some options is the encoding of those options.
pub proof fn lemma_subscription_options_roundtrip(o: SubscriptionOptions, v: u8)
    ensures
        subscription_options_from_byte(subscription_options_byte(o)) == Ok::<
            SubscriptionOptions,
            PacketReadError,
        >(o),
        subscription_options_from_byte(v) == Ok::<SubscriptionOptions, PacketReadError>(o)
            ==> subscription_options_byte(o) == v,
{
    reveal(subscription_options_byte);
    reveal(subscription_options_from_byte);
}

} // verus!
