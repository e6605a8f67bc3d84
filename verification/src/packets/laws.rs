use vstd::prelude::*;

use crate::codec::encoding::{
    enc_u16, enc_vbi, lemma_dec_vbi_bound, lemma_run_steps_outcome, read_vbi, run_steps,
    steps_bytes, steps_failure, vbi_steps, WriteStep,
};
use crate::codec::roundtrip::{
    lemma_steps_append, lemma_steps_one, lemma_uint_steps_roundtrip, lemma_vbi_steps_roundtrip,
};
use crate::data::packet_type::packet_type_from_number;
use crate::data::property::{
    lemma_parse_properties_step, lemma_parse_properties_stop, lemma_parse_property_len,
    lemma_property_roundtrip, parse_properties, parse_property, parse_property_list,
    property_allowed, property_steps, property_wf, properties_after, PropertyContext,
    PropertyView,
};
use crate::data::reason_code::{lemma_reason_code_value_roundtrip, reason_code_value, ReasonCode};
use crate::error::PacketReadError;
use crate::packets::acknowledgement::{acknowledgement_steps, parse_acknowledgement, AcknowledgementView};
use crate::packets::packet::{
    code_properties_steps, parse_code_properties, parse_packet, parse_reason_code,
    packet_steps, properties_steps, property_list_steps, reason_code_in, PacketRead,
    PacketWrite, ReasonCodeSubset,
};

verus! {

/// Every property of a list is well formed and accepted in a context
pub open spec fn properties_accepted(ps: Seq<PropertyView>, context: PropertyContext) -> bool {
    forall|i: int| 0 <= i < ps.len() ==> property_wf(#[trigger] ps[i]) && property_allowed(context, ps[i].id)
}

/// Writing a property and then a list of properties is writing the longer list.
pub proof fn lemma_properties_steps_front(p: PropertyView, ps: Seq<PropertyView>)
    ensures
        properties_steps(seq![p] + ps) == property_steps(p) + properties_steps(ps),
    decreases ps.len(),
{
    let whole = seq![p] + ps;
    if ps.len() == 0 {
        assert(whole =~= seq![p]);
        assert(whole.drop_last() =~= Seq::<PropertyView>::empty());
        assert(properties_steps(whole.drop_last()) == Seq::<WriteStep>::empty());
        assert(properties_steps(whole) == properties_steps(whole.drop_last()) + property_steps(whole.last()));
        assert(Seq::<WriteStep>::empty() + property_steps(p) =~= property_steps(p));
        assert(property_steps(p) + Seq::<WriteStep>::empty() =~= property_steps(p));
    } else {
        assert(whole.drop_last() =~= seq![p] + ps.drop_last());
        assert(whole.last() == ps.last());
        lemma_properties_steps_front(p, ps.drop_last());
        assert(properties_steps(whole) == properties_steps(whole.drop_last()) + property_steps(whole.last()));
        assert(property_steps(p) + properties_steps(ps.drop_last()) + property_steps(ps.last()) =~= property_steps(p) + (properties_steps(ps.drop_last()) + property_steps(ps.last())));
    }
}

/// Properties written one after the other without failure read back as the same
/// properties, when they are accepted in the context and there is room for them.
pub proof fn lemma_properties_roundtrip(ps: Seq<PropertyView>, context: PropertyContext, room: nat, rest: Seq<u8>)
    requires
        properties_accepted(ps, context),
        ps.len() <= room,
        steps_failure(properties_steps(ps)) is None,
    ensures
        parse_properties(steps_bytes(properties_steps(ps)) + rest, steps_bytes(properties_steps(ps)).len() as int, context, room) == Ok::<(Seq<PropertyView>, nat), PacketReadError>((ps, steps_bytes(properties_steps(ps)).len())),
    decreases ps.len(),
{
    let bytes = steps_bytes(properties_steps(ps));
    if ps.len() == 0 {
        assert(bytes + rest =~= rest);
        assert(ps =~= Seq::<PropertyView>::empty());
        lemma_parse_properties_stop(rest, 0, context, room);
    } else {
        let p = ps[0];
        let tail = ps.drop_first();
        assert(ps =~= seq![p] + tail);
        lemma_properties_steps_front(p, tail);
        lemma_steps_append(property_steps(p), properties_steps(tail));
        let bp = steps_bytes(property_steps(p));
        let bt = steps_bytes(properties_steps(tail));
        assert(properties_accepted(tail, context)) by {
            assert forall|i: int| 0 <= i < tail.len() implies property_wf(#[trigger] tail[i]) && property_allowed(context, tail[i].id) by {
                assert(tail[i] == ps[i + 1]);
            }
        }
        assert(property_wf(ps[0]) && property_allowed(context, ps[0].id));
        lemma_property_roundtrip(p, context, bt + rest);
        lemma_parse_property_len(bp + (bt + rest), context);
        lemma_properties_roundtrip(tail, context, (room - 1) as nat, rest);
        let s = bytes + rest;
        assert(s =~= bp + (bt + rest));
        assert(s.skip(bp.len() as int) =~= bt + rest);
        lemma_parse_properties_step(s, bytes.len() as int, context, room, Seq::empty(), 0);
        assert(Seq::<PropertyView>::empty().push(p) =~= seq![p]);
        assert(bytes == bp + bt);
        assert(parse_property(s, context) == Ok::<(PropertyView, nat), PacketReadError>((p, bp.len())));
        assert(bytes.len() - bp.len() == bt.len());
        assert(parse_properties(bt + rest, bt.len() as int, context, (room - 1) as nat) == Ok::<(Seq<PropertyView>, nat), PacketReadError>((tail, bt.len())));
        assert(properties_after(seq![p], bp.len(), parse_properties(s.skip(bp.len() as int), bytes.len() - bp.len(), context, (room - 1) as nat)) == Ok::<(Seq<PropertyView>, nat), PacketReadError>((ps, bytes.len())));
        let r = parse_properties(s, bytes.len() as int, context, room);
        if r is Ok {
            assert(Seq::<PropertyView>::empty() + r->Ok_0.0 =~= r->Ok_0.0);
        }
        assert(r == Ok::<(Seq<PropertyView>, nat), PacketReadError>((ps, bytes.len())));
    }
}

/// The law of property lists: a list of properties accepted in a context, with room for
/// them, written without failure, reads back as the same list, whatever data follows it.
pub proof fn lemma_property_list_roundtrip(ps: Seq<PropertyView>, context: PropertyContext, capacity: nat, rest: Seq<u8>)
    requires
        properties_accepted(ps, context),
        ps.len() <= capacity,
        steps_failure(property_list_steps(ps)) is None,
    ensures
        parse_property_list(steps_bytes(property_list_steps(ps)) + rest, context, capacity) == Ok::<(Seq<PropertyView>, nat), PacketReadError>((ps, steps_bytes(property_list_steps(ps)).len())),
{
    let inner = properties_steps(ps);
    lemma_run_steps_outcome(inner, usize::MAX as nat);
    let len = steps_bytes(inner).len();
    assert(property_list_steps(ps) == vbi_steps(len) + inner);
    lemma_steps_append(vbi_steps(len), inner);
    lemma_vbi_steps_roundtrip(len, steps_bytes(inner) + rest);
    lemma_properties_roundtrip(ps, context, capacity, rest);
    let s = steps_bytes(property_list_steps(ps)) + rest;
    assert(s =~= enc_vbi(len) + (steps_bytes(inner) + rest));
    assert(s.skip(enc_vbi(len).len() as int) =~= steps_bytes(inner) + rest);
}

/// A reason code of a subset, written as its value, reads back as the same code.
pub proof fn lemma_reason_code_roundtrip(c: ReasonCode, subset: ReasonCodeSubset, rest: Seq<u8>)
    requires
        reason_code_in(subset, c),
    ensures
        parse_reason_code(seq![reason_code_value(c)] + rest, subset) == Ok::<(ReasonCode, nat), PacketReadError>((c, 1)),
{
    lemma_reason_code_value_roundtrip(c, 0);
    lemma_uint_steps_roundtrip(reason_code_value(c), 0, 0, rest);
}

/// A packet whose variable header and payload read back from their encoding reads back
/// whole from its encoding, with its fixed header, when its first header byte encodes its
/// packet type and writing it does not fail.
pub proof fn lemma_packet_roundtrip<'a, P: PacketRead<'a> + PacketWrite>(p: P, rest: Seq<u8>)
    requires
        steps_failure(packet_steps(p.spec_first_byte(), p.body_steps())) is None,
        packet_type_from_number(p.spec_first_byte() / 16) == Some(P::spec_packet_type()),
        P::parse_body(steps_bytes(p.body_steps()) + rest, p.spec_first_byte(), steps_bytes(p.body_steps()).len()) == Ok::<(P::V, nat), PacketReadError>((p@, steps_bytes(p.body_steps()).len())),
    ensures
        parse_packet::<P>(steps_bytes(packet_steps(p.spec_first_byte(), p.body_steps())) + rest) == Ok::<(P::V, nat), PacketReadError>((p@, steps_bytes(packet_steps(p.spec_first_byte(), p.body_steps())).len())),
{
    let first = p.spec_first_byte();
    let body = p.body_steps();
    lemma_run_steps_outcome(body, usize::MAX as nat);
    let len = steps_bytes(body).len();
    let header = seq![WriteStep::Bytes(seq![first])];
    assert(packet_steps(first, body) == header + vbi_steps(len) + body);
    lemma_steps_append(header, vbi_steps(len));
    lemma_steps_append(header + vbi_steps(len), body);
    lemma_steps_one(seq![first]);
    lemma_vbi_steps_roundtrip(len, steps_bytes(body) + rest);
    let s = steps_bytes(packet_steps(first, body)) + rest;
    assert(s =~= seq![first] + (enc_vbi(len) + (steps_bytes(body) + rest)));
    assert(s.skip(1) =~= enc_vbi(len) + (steps_bytes(body) + rest));
    assert(s.skip(1 + enc_vbi(len).len() as int) =~= steps_bytes(body) + rest);
}

/// Writing a reason code and a property list, leaving out what can be left out, without
/// failure: the bytes, and how they read back when the length of what was written decides
/// what was left out.
pub proof fn lemma_code_properties_roundtrip(
    c: ReasonCode,
    ps: Seq<PropertyView>,
    subset: ReasonCodeSubset,
    context: PropertyContext,
    capacity: nat,
    rest: Seq<u8>,
)
    requires
        reason_code_in(subset, c),
        properties_accepted(ps, context),
        ps.len() <= capacity,
        steps_failure(code_properties_steps(c, ps)) is None,
    ensures
        ({
            let n = steps_bytes(code_properties_steps(c, ps)).len();
            &&& n == 0 <==> (ps.len() == 0 && c == ReasonCode::Success)
            &&& n == 1 <==> (ps.len() == 0 && c != ReasonCode::Success)
            &&& parse_code_properties(steps_bytes(code_properties_steps(c, ps)) + rest, n == 0, n == 1, subset, context, capacity) == Ok::<((ReasonCode, Seq<PropertyView>), nat), PacketReadError>(((c, ps), n))
        }),
{
    let code = seq![WriteStep::Bytes(seq![reason_code_value(c)])];
    lemma_steps_one(seq![reason_code_value(c)]);
    if ps.len() == 0 {
        assert(ps =~= Seq::<PropertyView>::empty());
        if c != ReasonCode::Success {
            lemma_reason_code_roundtrip(c, subset, rest);
            assert(seq![reason_code_value(c)] + rest =~= steps_bytes(code_properties_steps(c, ps)) + rest);
        } else {
            assert(steps_bytes(Seq::<WriteStep>::empty()) == Seq::<u8>::empty());
        }
    } else {
        let list = property_list_steps(ps);
        lemma_steps_append(code, list);
        let inner = properties_steps(ps);
        lemma_run_steps_outcome(inner, usize::MAX as nat);
        assert(run_steps(inner, usize::MAX as nat).0 is Ok);
        let len = steps_bytes(inner).len();
        assert(list == vbi_steps(len) + inner);
        lemma_steps_append(vbi_steps(len), inner);
        lemma_vbi_steps_roundtrip(len, Seq::empty());
        assert(enc_vbi(len).len() >= 1);
        lemma_property_list_roundtrip(ps, context, capacity, rest);
        let lb = steps_bytes(list);
        assert(lb == enc_vbi(len) + steps_bytes(inner));
        assert(lb.len() >= 1);
        lemma_reason_code_roundtrip(c, subset, lb + rest);
        let s = steps_bytes(code_properties_steps(c, ps)) + rest;
        assert(s =~= seq![reason_code_value(c)] + (lb + rest));
        assert(s.skip(1) =~= lb + rest);
    }
}

/// The variable header of an acknowledgement, with a reason code of its subset and
/// properties accepted in acknowledgements, with room for them, written without failure,
/// reads back as the same acknowledgement when the remaining length is the length written.
pub proof fn lemma_acknowledgement_roundtrip(v: AcknowledgementView, subset: ReasonCodeSubset, capacity: nat, rest: Seq<u8>)
    requires
        reason_code_in(subset, v.reason_code),
        properties_accepted(v.properties, PropertyContext::Acknowledgement),
        v.properties.len() <= capacity,
        steps_failure(acknowledgement_steps(v)) is None,
    ensures
        parse_acknowledgement(steps_bytes(acknowledgement_steps(v)) + rest, steps_bytes(acknowledgement_steps(v)).len(), subset, capacity) == Ok::<(AcknowledgementView, nat), PacketReadError>((v, steps_bytes(acknowledgement_steps(v)).len())),
{
    let id = seq![WriteStep::Bytes(enc_u16(v.packet_identifier))];
    let cps = code_properties_steps(v.reason_code, v.properties);
    lemma_steps_append(id, cps);
    lemma_steps_one(enc_u16(v.packet_identifier));
    lemma_code_properties_roundtrip(v.reason_code, v.properties, subset, PropertyContext::Acknowledgement, capacity, rest);
    let cb = steps_bytes(cps);
    lemma_uint_steps_roundtrip(0, v.packet_identifier, 0, cb + rest);
    crate::codec::encoding::lemma_uint_roundtrip(v.packet_identifier, 0);
    let s = steps_bytes(acknowledgement_steps(v)) + rest;
    assert(s =~= enc_u16(v.packet_identifier) + (cb + rest));
    assert(s.skip(2) =~= cb + rest);
}

/// Writing a packet without failure writes its variable header and payload without failure.
pub proof fn lemma_packet_body_written(first: u8, body: Seq<WriteStep>)
    requires
        steps_failure(packet_steps(first, body)) is None,
    ensures
        steps_failure(body) is None,
{
    lemma_run_steps_outcome(body, usize::MAX as nat);
    if run_steps(body, usize::MAX as nat).0 is Err {
        let e = run_steps(body, usize::MAX as nat).0->Err_0;
        assert(packet_steps(first, body) == seq![WriteStep::Fail(e)]);
        assert(steps_failure(seq![WriteStep::Fail(e)]) == Some(e));
    }
}

} // verus!
