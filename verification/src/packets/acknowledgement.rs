use vstd::prelude::*;

use crate::codec::encoding::{enc_u16, WriteStep};
use crate::codec::mqtt_reader::{advanced, lemma_advanced_trans, parse_u16, MqttBufReader};
use crate::codec::mqtt_writer::{put_outcome, MqttWriter};
use crate::codec::write::{lemma_put_stop, lemma_put_then};
use crate::data::property::{properties_view, Property, PropertyContext, PropertyView};
use crate::data::reason_code::ReasonCode;
use crate::error::{PacketReadError, PacketWriteError};
use crate::packets::packet::{
    code_properties_steps, parse_code_properties, put_code_and_properties, ReasonCodeSubset,
};

verus! {

/// An acknowledgement of publishing (Puback, Pubrec, Pubrel or Pubcomp) as a mathematical
/// value: the packet identifier, the reason code and the properties
pub struct AcknowledgementView {
    pub packet_identifier: u16,
    pub reason_code: ReasonCode,
    pub properties: Seq<PropertyView>,
}

/// The steps of writing the variable header of an acknowledgement: the packet identifier,
/// then the reason code and properties, leaving out what can be left out
pub open spec fn acknowledgement_steps(v: AcknowledgementView) -> Seq<WriteStep> {
    seq![WriteStep::Bytes(enc_u16(v.packet_identifier))] + code_properties_steps(
        v.reason_code,
        v.properties,
    )
}

/// Reading the variable header of an acknowledgement with remaining length `len`: the
/// packet identifier, then, when the length is 2, nothing more (success, no properties),
/// when it is 3, the reason code alone, otherwise the reason code and the properties
pub open spec fn parse_acknowledgement(s: Seq<u8>, len: nat, subset: ReasonCodeSubset, capacity: nat) -> Result<(AcknowledgementView, nat), PacketReadError> {
    match parse_u16(s) {
        Err(e) => Err(e),
        Ok((id, n1)) => match parse_code_properties(
            s.skip(n1 as int),
            len == 2,
            len == 3,
            subset,
            PropertyContext::Acknowledgement,
            capacity,
        ) {
            Err(e) => Err(e),
            Ok(((c, ps), n2)) => Ok(
                (AcknowledgementView { packet_identifier: id, reason_code: c, properties: ps }, n1 + n2),
            ),
        },
    }
}

/// Put the variable header of an acknowledgement
pub fn put_acknowledgement<W: MqttWriter>(
    writer: &mut W,
    packet_identifier: u16,
    reason_code: ReasonCode,
    properties: &Vec<Property>,
) -> (r: Result<(), PacketWriteError>)
    ensures
        put_outcome(
            old(writer).written(),
            old(writer).room(),
            final(writer).written(),
            final(writer).room(),
            r,
            acknowledgement_steps(
                AcknowledgementView {
                    packet_identifier,
                    reason_code,
                    properties: properties_view(properties@),
                },
            ),
        ),
{
    let ghost w0 = writer.written();
    let ghost m0 = writer.room();
    let ghost first = seq![WriteStep::Bytes(enc_u16(packet_identifier))];
    let ghost rest = code_properties_steps(reason_code, properties_view(properties@));
    let r1 = writer.put_u16(packet_identifier);
    let ghost w1 = writer.written();
    let ghost m1 = writer.room();
    match r1 {
        Ok(()) => {},
        Err(e) => {
            proof {
                lemma_put_stop(w0, m0, w1, m1, r1, first, rest);
            }
            return Err(e);
        },
    }
    let r2 = put_code_and_properties(writer, reason_code, properties);
    proof {
        lemma_put_then(w0, m0, w1, m1, r1, first, writer.written(), writer.room(), r2, rest);
    }
    r2
}

impl<'a> MqttBufReader<'a> {
    /// Get the variable header of an acknowledgement, as [parse_acknowledgement] reads it
    pub fn get_acknowledgement(&mut self, len: usize, subset: ReasonCodeSubset, capacity: usize) -> (r: Result<(u16, ReasonCode, Vec<Property<'a>>), PacketReadError>)
        ensures
            final(self).data() == old(self).data(),
            match parse_acknowledgement(old(self).rest(), len as nat, subset, capacity as nat) {
                Ok((v, n)) => r is Ok && r->Ok_0.0 == v.packet_identifier && r->Ok_0.1 == v.reason_code
                    && properties_view(r->Ok_0.2@) == v.properties && advanced(*old(self), *final(self), n),
                Err(e) => r == Err::<(u16, ReasonCode, Vec<Property>), PacketReadError>(e),
            },
    {
        let id = match self.get_u16() {
            Ok(id) => id,
            Err(e) => return Err(e),
        };
        let ghost mid = *self;
        let ghost n1 = parse_u16(old(self).rest())->Ok_0.1;
        let (code, properties) = match self.get_code_and_properties(
            len == 2,
            len == 3,
            subset,
            PropertyContext::Acknowledgement,
            capacity,
        ) {
            Ok(x) => x,
            Err(e) => return Err(e),
        };
        proof {
            let n2 = parse_code_properties(mid.rest(), len == 2, len == 3, subset, PropertyContext::Acknowledgement, capacity as nat)->Ok_0.1;
            lemma_advanced_trans(*old(self), mid, *self, n1, n2);
        }
        Ok((id, code, properties))
    }
}

} // verus!
