use vstd::prelude::*;

use crate::codec::encoding::{lemma_dec_vbi_bound, read_vbi};
use crate::codec::mqtt_reader::{advanced, lemma_advanced_trans, parse_u8, MqttBufReader};
use crate::codec::framing::check_first_header_byte;
use crate::data::packet_type::{packet_type_from_number, valid_first_header_byte, PacketType};
use crate::data::property::PropertyContext;
use crate::data::reason_code::{ReasonCode, SubscribeReasonCode, UnsubscribeReasonCode};
use crate::error::PacketReadError;
use crate::packets::acknowledgement::{parse_acknowledgement, AcknowledgementView};
use crate::packets::auth::{Auth, AuthView};
use crate::packets::connack::{parse_connack, Connack, ConnackView};
use crate::packets::connect::{parse_connect, Connect, ConnectView};
use crate::packets::disconnect::{Disconnect, DisconnectView};
use crate::packets::packet::{PacketRead, ReasonCodeSubset};
use crate::packets::payload_list::{parse_item_packet, ItemPacketView};
use crate::packets::pingreq::Pingreq;
use crate::packets::pingresp::Pingresp;
use crate::packets::puback::Puback;
use crate::packets::pubcomp::{parse_pubcomp, Pubcomp};
use crate::packets::publish::{parse_publish, Publish, PublishView};
use crate::packets::pubrec::Pubrec;
use crate::packets::pubrel::Pubrel;
use crate::packets::suback::Suback;
use crate::packets::subscribe::{Subscribe, SubscriptionRequest, SubscriptionRequestView};
use crate::packets::unsuback::Unsuback;
use crate::packets::unsubscribe::Unsubscribe;

verus! {

/// A packet of any type as a mathematical value
pub enum PacketGenericView {
    Connect(ConnectView),
    Connack(ConnackView),
    Publish(PublishView),
    Puback(AcknowledgementView),
    Pubrec(AcknowledgementView),
    Pubrel(AcknowledgementView),
    Pubcomp(AcknowledgementView),
    Subscribe(ItemPacketView<SubscriptionRequestView>),
    Suback(ItemPacketView<ReasonCode>),
    Unsubscribe(ItemPacketView<Seq<u8>>),
    Unsuback(ItemPacketView<ReasonCode>),
    Pingreq,
    Pingresp,
    Disconnect(DisconnectView),
    Auth(AuthView),
}

/// Reading the variable header and payload of a packet of type `t`, with room for `p`
/// properties and `s` items after the first in the payload, as that type of packet reads it
#[verifier::opaque]
pub open spec fn parse_generic_body(t: PacketType, s: Seq<u8>, first: u8, len: nat, p: nat, w: nat, sn: nat) -> Result<(PacketGenericView, nat), PacketReadError> {
    match t {
        PacketType::Connect => match parse_connect(s, p, w) {
            Err(e) => Err(e),
            Ok((v, n)) => Ok((PacketGenericView::Connect(v), n)),
        },
        PacketType::Connack => match parse_connack(s, p) {
            Err(e) => Err(e),
            Ok((v, n)) => Ok((PacketGenericView::Connack(v), n)),
        },
        PacketType::Publish => match parse_publish(s, first, len, p) {
            Err(e) => Err(e),
            Ok((v, n)) => Ok((PacketGenericView::Publish(v), n)),
        },
        PacketType::Puback => match parse_acknowledgement(s, len, ReasonCodeSubset::Publish, p) {
            Err(e) => Err(e),
            Ok((v, n)) => Ok((PacketGenericView::Puback(v), n)),
        },
        PacketType::Pubrec => match parse_acknowledgement(s, len, ReasonCodeSubset::Publish, p) {
            Err(e) => Err(e),
            Ok((v, n)) => Ok((PacketGenericView::Pubrec(v), n)),
        },
        PacketType::Pubrel => match parse_acknowledgement(s, len, ReasonCodeSubset::Pubrel, p) {
            Err(e) => Err(e),
            Ok((v, n)) => Ok((PacketGenericView::Pubrel(v), n)),
        },
        PacketType::Pubcomp => match parse_pubcomp(s, len, p) {
            Err(e) => Err(e),
            Ok((v, n)) => Ok((PacketGenericView::Pubcomp(v), n)),
        },
        PacketType::Subscribe => match parse_item_packet::<SubscriptionRequest<'static>>(s, len, PropertyContext::Subscribe, PacketReadError::SubscribeWithoutValidSubscriptionRequest, p, sn) {
            Err(e) => Err(e),
            Ok((v, n)) => Ok((PacketGenericView::Subscribe(v), n)),
        },
        PacketType::Suback => match parse_item_packet::<SubscribeReasonCode>(s, len, PropertyContext::Acknowledgement, PacketReadError::SubackWithoutValidReasonCode, p, sn) {
            Err(e) => Err(e),
            Ok((v, n)) => Ok((PacketGenericView::Suback(v), n)),
        },
        PacketType::Unsubscribe => match parse_item_packet::<&'static str>(s, len, PropertyContext::Unsubscribe, PacketReadError::UnsubscribeWithoutValidSubscriptionRequest, p, sn) {
            Err(e) => Err(e),
            Ok((v, n)) => Ok((PacketGenericView::Unsubscribe(v), n)),
        },
        PacketType::Unsuback => match parse_item_packet::<UnsubscribeReasonCode>(s, len, PropertyContext::Acknowledgement, PacketReadError::UnsubackWithoutValidReasonCode, p, sn) {
            Err(e) => Err(e),
            Ok((v, n)) => Ok((PacketGenericView::Unsuback(v), n)),
        },
        PacketType::Pingreq => if len == 0 {
            Ok((PacketGenericView::Pingreq, 0))
        } else {
            Err(PacketReadError::IncorrectPacketLength)
        },
        PacketType::Pingresp => if len == 0 {
            Ok((PacketGenericView::Pingresp, 0))
        } else {
            Err(PacketReadError::IncorrectPacketLength)
        },
        PacketType::Disconnect => match crate::packets::packet::parse_code_properties(s, len == 0, len == 1, ReasonCodeSubset::Disconnect, PropertyContext::Disconnect, p) {
            Err(e) => Err(e),
            Ok(((c, ps), n)) => Ok((PacketGenericView::Disconnect(DisconnectView { reason_code: c, properties: ps }), n)),
        },
        PacketType::Auth => match crate::packets::packet::parse_code_properties(s, len == 0, len == 1, ReasonCodeSubset::Auth, PropertyContext::Auth, p) {
            Err(e) => Err(e),
            Ok(((c, ps), n)) => Ok((PacketGenericView::Auth(AuthView { reason_code: c, properties: ps }), n)),
        },
    }
}

/// Reading a whole packet of any type: the first header byte, which must be a valid first
/// header byte, encoding a packet type with valid reserved flag bits (otherwise
/// [PacketReadError::InvalidPacketType]), the remaining length, then the
/// variable header and payload of that type of packet, which must take exactly the
/// remaining length (otherwise [PacketReadError::IncorrectPacketLength])
pub open spec fn parse_packet_generic(s: Seq<u8>, p: nat, w: nat, sn: nat) -> Result<(PacketGenericView, nat), PacketReadError> {
    match parse_u8(s) {
        Err(e) => Err(e),
        Ok((first, n0)) => if !valid_first_header_byte(first) {
            Err(PacketReadError::InvalidPacketType)
        } else {
            match packet_type_from_number(first / 16) {
                None => Err(PacketReadError::InvalidPacketType),
                Some(t) => match read_vbi(s.skip(n0 as int)) {
                    Err(e) => Err(e),
                    Ok((len, n1)) => match parse_generic_body(t, s.skip((n0 + n1) as int), first, len, p, w, sn) {
                        Err(e) => Err(e),
                        Ok((v, n2)) => if n2 != len {
                            Err(PacketReadError::IncorrectPacketLength)
                        } else {
                            Ok((v, n0 + n1 + n2))
                        },
                    },
                },
            }
        },
    }
}

/// A packet of any type, so that data holding a packet of unknown type can be decoded and
/// matched. `P` is the maximum number of properties, `WP` that of will properties and `S`
/// the maximum number of items after the first in the payload of Subscribe, Suback, Unsubscribe
/// and Unsuback packets.
#[derive(Debug, PartialEq)]
pub enum PacketGeneric<'a, const P: usize, const WP: usize, const S: usize> {
    Connect(Connect<'a, P, WP>),
    Connack(Connack<'a, P>),
    Publish(Publish<'a, P>),
    Puback(Puback<'a, P>),
    Pubrec(Pubrec<'a, P>),
    Pubrel(Pubrel<'a, P>),
    Pubcomp(Pubcomp<'a, P>),
    Subscribe(Subscribe<'a, P, S>),
    Suback(Suback<'a, P, S>),
    Unsubscribe(Unsubscribe<'a, P, S>),
    Unsuback(Unsuback<'a, P, S>),
    Pingreq(Pingreq),
    Pingresp(Pingresp),
    Disconnect(Disconnect<'a, P>),
    Auth(Auth<'a, P>),
}

impl<'a, const P: usize, const WP: usize, const S: usize> View for PacketGeneric<'a, P, WP, S> {
    type V = PacketGenericView;

    closed spec fn view(&self) -> PacketGenericView {
        match self {
            PacketGeneric::Connect(x) => PacketGenericView::Connect(x@),
            PacketGeneric::Connack(x) => PacketGenericView::Connack(x@),
            PacketGeneric::Publish(x) => PacketGenericView::Publish(x@),
            PacketGeneric::Puback(x) => PacketGenericView::Puback(x@),
            PacketGeneric::Pubrec(x) => PacketGenericView::Pubrec(x@),
            PacketGeneric::Pubrel(x) => PacketGenericView::Pubrel(x@),
            PacketGeneric::Pubcomp(x) => PacketGenericView::Pubcomp(x@),
            PacketGeneric::Subscribe(x) => PacketGenericView::Subscribe(x@),
            PacketGeneric::Suback(x) => PacketGenericView::Suback(x@),
            PacketGeneric::Unsubscribe(x) => PacketGenericView::Unsubscribe(x@),
            PacketGeneric::Unsuback(x) => PacketGenericView::Unsuback(x@),
            PacketGeneric::Pingreq(_) => PacketGenericView::Pingreq,
            PacketGeneric::Pingresp(_) => PacketGenericView::Pingresp,
            PacketGeneric::Disconnect(x) => PacketGenericView::Disconnect(x@),
            PacketGeneric::Auth(x) => PacketGenericView::Auth(x@),
        }
    }
}

/// The packet type of a packet of any type
pub open spec fn generic_view_type(v: PacketGenericView) -> PacketType {
    match v {
        PacketGenericView::Connect(_) => PacketType::Connect,
        PacketGenericView::Connack(_) => PacketType::Connack,
        PacketGenericView::Publish(_) => PacketType::Publish,
        PacketGenericView::Puback(_) => PacketType::Puback,
        PacketGenericView::Pubrec(_) => PacketType::Pubrec,
        PacketGenericView::Pubrel(_) => PacketType::Pubrel,
        PacketGenericView::Pubcomp(_) => PacketType::Pubcomp,
        PacketGenericView::Subscribe(_) => PacketType::Subscribe,
        PacketGenericView::Suback(_) => PacketType::Suback,
        PacketGenericView::Unsubscribe(_) => PacketType::Unsubscribe,
        PacketGenericView::Unsuback(_) => PacketType::Unsuback,
        PacketGenericView::Pingreq => PacketType::Pingreq,
        PacketGenericView::Pingresp => PacketType::Pingresp,
        PacketGenericView::Disconnect(_) => PacketType::Disconnect,
        PacketGenericView::Auth(_) => PacketType::Auth,
    }
}

impl<'a, const P: usize, const WP: usize, const S: usize> PacketGeneric<'a, P, WP, S> {
    /// The type of this packet
    pub fn packet_type(&self) -> (r: PacketType)
        ensures
            r == generic_view_type(self@),
    {
        match self {
            PacketGeneric::Connect(_) => PacketType::Connect,
            PacketGeneric::Connack(_) => PacketType::Connack,
            PacketGeneric::Publish(_) => PacketType::Publish,
            PacketGeneric::Puback(_) => PacketType::Puback,
            PacketGeneric::Pubrec(_) => PacketType::Pubrec,
            PacketGeneric::Pubrel(_) => PacketType::Pubrel,
            PacketGeneric::Pubcomp(_) => PacketType::Pubcomp,
            PacketGeneric::Subscribe(_) => PacketType::Subscribe,
            PacketGeneric::Suback(_) => PacketType::Suback,
            PacketGeneric::Unsubscribe(_) => PacketType::Unsubscribe,
            PacketGeneric::Unsuback(_) => PacketType::Unsuback,
            PacketGeneric::Pingreq(_) => PacketType::Pingreq,
            PacketGeneric::Pingresp(_) => PacketType::Pingresp,
            PacketGeneric::Disconnect(_) => PacketType::Disconnect,
            PacketGeneric::Auth(_) => PacketType::Auth,
        }
    }


    /// Read the variable header and payload of a packet of one of some types
    #[verifier::spinoff_prover]
    #[verifier::rlimit(40)]
    fn get_body_connection(reader: &mut MqttBufReader<'a>, packet_type: PacketType, first: u8, ulen: usize) -> (r: Result<Self, PacketReadError>)
        requires
            packet_type == PacketType::Connect || packet_type == PacketType::Connack || packet_type == PacketType::Publish || packet_type == PacketType::Puback || packet_type == PacketType::Pubrec,
        ensures
            final(reader).data() == old(reader).data(),
            match parse_generic_body(packet_type, old(reader).rest(), first, ulen as nat, P as nat, WP as nat, S as nat) {
                Ok((v, n)) => r is Ok && r->Ok_0@ == v && advanced(*old(reader), *final(reader), n),
                Err(e) => r == Err::<Self, PacketReadError>(e),
            },
    {
        proof {
            reveal(parse_generic_body);
        }
        let packet = match packet_type {
            PacketType::Connect => match <Connect<'a, P, WP> as PacketRead<'a>>::get_variable_header_and_payload(reader, first, ulen) {
                Ok(x) => PacketGeneric::Connect(x),
                Err(e) => return Err(e),
            },
            PacketType::Connack => match <Connack<'a, P> as PacketRead<'a>>::get_variable_header_and_payload(reader, first, ulen) {
                Ok(x) => PacketGeneric::Connack(x),
                Err(e) => return Err(e),
            },
            PacketType::Publish => match <Publish<'a, P> as PacketRead<'a>>::get_variable_header_and_payload(reader, first, ulen) {
                Ok(x) => PacketGeneric::Publish(x),
                Err(e) => return Err(e),
            },
            PacketType::Puback => match <Puback<'a, P> as PacketRead<'a>>::get_variable_header_and_payload(reader, first, ulen) {
                Ok(x) => PacketGeneric::Puback(x),
                Err(e) => return Err(e),
            },
            PacketType::Pubrec => match <Pubrec<'a, P> as PacketRead<'a>>::get_variable_header_and_payload(reader, first, ulen) {
                Ok(x) => PacketGeneric::Pubrec(x),
                Err(e) => return Err(e),
            },
            _ => return Err(PacketReadError::InvalidPacketType),
        };
        Ok(packet)
    }

    /// Read the variable header and payload of a packet of one of some types
    #[verifier::spinoff_prover]
    #[verifier::rlimit(40)]
    fn get_body_requests(reader: &mut MqttBufReader<'a>, packet_type: PacketType, first: u8, ulen: usize) -> (r: Result<Self, PacketReadError>)
        requires
            packet_type == PacketType::Pubrel || packet_type == PacketType::Pubcomp || packet_type == PacketType::Subscribe || packet_type == PacketType::Suback || packet_type == PacketType::Unsubscribe,
        ensures
            final(reader).data() == old(reader).data(),
            match parse_generic_body(packet_type, old(reader).rest(), first, ulen as nat, P as nat, WP as nat, S as nat) {
                Ok((v, n)) => r is Ok && r->Ok_0@ == v && advanced(*old(reader), *final(reader), n),
                Err(e) => r == Err::<Self, PacketReadError>(e),
            },
    {
        proof {
            reveal(parse_generic_body);
        }
        let packet = match packet_type {
            PacketType::Pubrel => match <Pubrel<'a, P> as PacketRead<'a>>::get_variable_header_and_payload(reader, first, ulen) {
                Ok(x) => PacketGeneric::Pubrel(x),
                Err(e) => return Err(e),
            },
            PacketType::Pubcomp => match <Pubcomp<'a, P> as PacketRead<'a>>::get_variable_header_and_payload(reader, first, ulen) {
                Ok(x) => PacketGeneric::Pubcomp(x),
                Err(e) => return Err(e),
            },
            PacketType::Subscribe => match <Subscribe<'a, P, S> as PacketRead<'a>>::get_variable_header_and_payload(reader, first, ulen) {
                Ok(x) => PacketGeneric::Subscribe(x),
                Err(e) => return Err(e),
            },
            PacketType::Suback => match <Suback<'a, P, S> as PacketRead<'a>>::get_variable_header_and_payload(reader, first, ulen) {
                Ok(x) => PacketGeneric::Suback(x),
                Err(e) => return Err(e),
            },
            PacketType::Unsubscribe => match <Unsubscribe<'a, P, S> as PacketRead<'a>>::get_variable_header_and_payload(reader, first, ulen) {
                Ok(x) => PacketGeneric::Unsubscribe(x),
                Err(e) => return Err(e),
            },
            _ => return Err(PacketReadError::InvalidPacketType),
        };
        Ok(packet)
    }

    /// Read the variable header and payload of a packet of one of some types
    #[verifier::spinoff_prover]
    #[verifier::rlimit(40)]
    fn get_body_others(reader: &mut MqttBufReader<'a>, packet_type: PacketType, first: u8, ulen: usize) -> (r: Result<Self, PacketReadError>)
        requires
            packet_type == PacketType::Unsuback || packet_type == PacketType::Pingreq || packet_type == PacketType::Pingresp || packet_type == PacketType::Disconnect || packet_type == PacketType::Auth,
        ensures
            final(reader).data() == old(reader).data(),
            match parse_generic_body(packet_type, old(reader).rest(), first, ulen as nat, P as nat, WP as nat, S as nat) {
                Ok((v, n)) => r is Ok && r->Ok_0@ == v && advanced(*old(reader), *final(reader), n),
                Err(e) => r == Err::<Self, PacketReadError>(e),
            },
    {
        proof {
            reveal(parse_generic_body);
        }
        let packet = match packet_type {
            PacketType::Unsuback => match <Unsuback<'a, P, S> as PacketRead<'a>>::get_variable_header_and_payload(reader, first, ulen) {
                Ok(x) => PacketGeneric::Unsuback(x),
                Err(e) => return Err(e),
            },
            PacketType::Pingreq => match <Pingreq as PacketRead<'a>>::get_variable_header_and_payload(reader, first, ulen) {
                Ok(x) => PacketGeneric::Pingreq(x),
                Err(e) => return Err(e),
            },
            PacketType::Pingresp => match <Pingresp as PacketRead<'a>>::get_variable_header_and_payload(reader, first, ulen) {
                Ok(x) => PacketGeneric::Pingresp(x),
                Err(e) => return Err(e),
            },
            PacketType::Disconnect => match <Disconnect<'a, P> as PacketRead<'a>>::get_variable_header_and_payload(reader, first, ulen) {
                Ok(x) => PacketGeneric::Disconnect(x),
                Err(e) => return Err(e),
            },
            PacketType::Auth => match <Auth<'a, P> as PacketRead<'a>>::get_variable_header_and_payload(reader, first, ulen) {
                Ok(x) => PacketGeneric::Auth(x),
                Err(e) => return Err(e),
            },
            _ => return Err(PacketReadError::InvalidPacketType),
        };
        Ok(packet)
    }

    /// Read the variable header and payload of a packet of a type
    fn get_body(reader: &mut MqttBufReader<'a>, packet_type: PacketType, first: u8, ulen: usize) -> (r: Result<Self, PacketReadError>)
        ensures
            final(reader).data() == old(reader).data(),
            match parse_generic_body(packet_type, old(reader).rest(), first, ulen as nat, P as nat, WP as nat, S as nat) {
                Ok((v, n)) => r is Ok && r->Ok_0@ == v && advanced(*old(reader), *final(reader), n),
                Err(e) => r == Err::<Self, PacketReadError>(e),
            },
    {
        match packet_type {
            PacketType::Connect | PacketType::Connack | PacketType::Publish | PacketType::Puback
            | PacketType::Pubrec => Self::get_body_connection(reader, packet_type, first, ulen),
            PacketType::Pubrel | PacketType::Pubcomp | PacketType::Subscribe | PacketType::Suback
            | PacketType::Unsubscribe => Self::get_body_requests(reader, packet_type, first, ulen),
            _ => Self::get_body_others(reader, packet_type, first, ulen),
        }
    }

    /// Read a whole packet of any type
    #[verifier::rlimit(60)]
    pub fn read(reader: &mut MqttBufReader<'a>) -> (r: Result<Self, PacketReadError>)
        ensures
            final(reader).data() == old(reader).data(),
            match parse_packet_generic(old(reader).rest(), P as nat, WP as nat, S as nat) {
                Ok((v, n)) => r is Ok && r->Ok_0@ == v && advanced(*old(reader), *final(reader), n),
                Err(e) => r == Err::<Self, PacketReadError>(e),
            },
    {
        let ghost s0 = reader.rest();
        let first = match reader.get_u8() {
            Ok(b) => b,
            Err(e) => return Err(e),
        };
        let ghost r1 = *reader;
        match check_first_header_byte(first) {
            Ok(()) => {},
            Err(e) => return Err(e),
        }
        let packet_type = match PacketType::try_from_u8(first) {
            Ok(t) => t,
            Err(e) => return Err(e),
        };
        let len = match reader.get_variable_u32() {
            Ok(len) => len,
            Err(e) => return Err(e),
        };
        let ghost r2 = *reader;
        proof {
            lemma_dec_vbi_bound(r1.rest(), 4);
            let n1 = read_vbi(r1.rest())->Ok_0.1;
            lemma_advanced_trans(*old(reader), r1, r2, 1, n1);
            assert(r1.rest() =~= s0.skip(1));
            assert(r2.rest() =~= s0.skip((1 + n1) as int));
        }
        let start = reader.position();
        let ulen = len as usize;
        let packet = match Self::get_body(reader, packet_type, first, ulen) {
            Ok(p) => p,
            Err(e) => return Err(e),
        };
        let consumed = reader.position() - start;
        if consumed != ulen {
            return Err(PacketReadError::IncorrectPacketLength);
        }
        proof {
            let n1 = read_vbi(r1.rest())->Ok_0.1;
            lemma_advanced_trans(*old(reader), r2, *reader, 1 + n1, consumed as nat);
        }
        Ok(packet)
    }
}

} // verus!
