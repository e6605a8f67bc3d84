use vstd::prelude::*;

use crate::codec::encoding::{enc_u16, steps_bytes, steps_failure, WriteStep};
use crate::codec::mqtt_reader::{advanced, lemma_advanced_trans, parse_u16, MqttBufReader};
use crate::data::property::{
    parse_property_list, properties_view, Property, PropertyContext, PropertyView,
};
use crate::packets::packet::{property_list_steps, put_properties};
use crate::codec::mqtt_writer::{put_outcome, MqttWriter};
use crate::codec::write::{lemma_put_nothing, lemma_put_stop, lemma_put_then};
use crate::error::{PacketReadError, PacketWriteError};
use crate::codec::roundtrip::{lemma_steps_append, lemma_steps_one, lemma_uint_steps_roundtrip};
use crate::packets::laws::{lemma_property_list_roundtrip, properties_accepted};

verus! {

/// An item of the payload of a Subscribe, Suback, Unsubscribe or Unsuback packet, which
/// holds a list of such items
pub trait PayloadItem<'a>: Sized {
    /// The item as a mathematical value
    type ItemView;

    /// The view of this item
    spec fn item_view(&self) -> Self::ItemView;

    /// Reading an item from the start of the data: gives the item and the number of bytes
    /// read
    spec fn parse_item(s: Seq<u8>) -> Result<(Self::ItemView, nat), PacketReadError>;

    /// The steps of writing an item
    spec fn item_steps(v: Self::ItemView) -> Seq<WriteStep>;

    /// An item that is read takes at least one byte, and no more than the data holds.
    proof fn lemma_parse_item_len(s: Seq<u8>)
        ensures
            Self::parse_item(s) matches Ok((_, n)) ==> 1 <= n <= s.len(),
    ;

    /// Whether an item view is one that items of this kind have
    spec fn item_wf(v: Self::ItemView) -> bool;

    /// The view of every item is one that items of this kind have.
    proof fn lemma_item_view_wf(&self)
        ensures
            Self::item_wf(self.item_view()),
    ;

    /// An item written without failure reads back as the same item, whatever data follows
    /// it.
    proof fn lemma_item_roundtrip(v: Self::ItemView, rest: Seq<u8>)
        requires
            Self::item_wf(v),
            steps_failure(Self::item_steps(v)) is None,
        ensures
            Self::parse_item(steps_bytes(Self::item_steps(v)) + rest) == Ok::<(Self::ItemView, nat), PacketReadError>((v, steps_bytes(Self::item_steps(v)).len())),
    ;

    /// Read an item
    fn read_item(reader: &mut MqttBufReader<'a>) -> (r: Result<Self, PacketReadError>)
        ensures
            final(reader).data() == old(reader).data(),
            match Self::parse_item(old(reader).rest()) {
                Ok((v, n)) => r is Ok && r->Ok_0.item_view() == v && advanced(*old(reader), *final(reader), n),
                Err(e) => r == Err::<Self, PacketReadError>(e),
            },
    ;

    /// Write this item
    fn write_item<W: MqttWriter>(&self, writer: &mut W) -> (r: Result<(), PacketWriteError>)
        ensures
            put_outcome(
                old(writer).written(),
                old(writer).room(),
                final(writer).written(),
                final(writer).room(),
                r,
                Self::item_steps(self.item_view()),
            ),
    ;
}

/// The views of a list of items
pub open spec fn items_view<'a, T: PayloadItem<'a>>(items: Seq<T>) -> Seq<T::ItemView> {
    items.map_values(|t: T| t.item_view())
}

/// The steps of writing items one after the other
pub open spec fn payload_steps<'a, T: PayloadItem<'a>>(vs: Seq<T::ItemView>) -> Seq<WriteStep>
    decreases vs.len(),
{
    if vs.len() == 0 {
        Seq::empty()
    } else {
        payload_steps::<T>(vs.drop_last()) + T::item_steps(vs.last())
    }
}

/// Reading items from the start of the data while fewer than `budget` bytes have been read
/// (the last item may end beyond the budget), with room for `room` more of them; one more
/// item than there is room for gives [PacketReadError::TooManyRequests]
#[verifier::opaque]
pub open spec fn parse_payload_items<'a, T: PayloadItem<'a>>(s: Seq<u8>, budget: int, room: nat) -> Result<(Seq<T::ItemView>, nat), PacketReadError>
    decreases s.len(),
{
    if budget <= 0 {
        Ok((Seq::empty(), 0))
    } else {
        match T::parse_item(s) {
            Err(e) => Err(e),
            Ok((v, n)) => if room == 0 {
                Err(PacketReadError::TooManyRequests)
            } else {
                proof {
                    T::lemma_parse_item_len(s);
                }
                match parse_payload_items::<T>(s.skip(n as int), budget - n, (room - 1) as nat) {
                    Ok((vs, m)) => Ok((seq![v] + vs, n + m)),
                    Err(e) => Err(e),
                }
            },
        }
    }
}

/// The result of reading more items after `prefix` was read in `consumed` bytes
pub open spec fn items_after<V>(prefix: Seq<V>, consumed: nat, r: Result<(Seq<V>, nat), PacketReadError>) -> Result<(Seq<V>, nat), PacketReadError> {
    match r {
        Ok((vs, m)) => Ok((prefix + vs, consumed + m)),
        Err(e) => Err(e),
    }
}

/// One step of reading items, and when reading them stops.
pub proof fn lemma_parse_payload_items_step<'a, T: PayloadItem<'a>>(s: Seq<u8>, budget: int, room: nat, prefix: Seq<T::ItemView>, consumed: nat)
    ensures
        budget <= 0 ==> parse_payload_items::<T>(s, budget, room) == Ok::<(Seq<T::ItemView>, nat), PacketReadError>((Seq::empty(), 0)),
        budget > 0 && T::parse_item(s) is Err ==> parse_payload_items::<T>(s, budget, room) == Err::<(Seq<T::ItemView>, nat), PacketReadError>(T::parse_item(s)->Err_0),
        budget > 0 && T::parse_item(s) is Ok && room == 0 ==> parse_payload_items::<T>(s, budget, room) == Err::<(Seq<T::ItemView>, nat), PacketReadError>(PacketReadError::TooManyRequests),
        budget > 0 && T::parse_item(s) is Ok && room > 0 ==> ({
            let (v, n) = T::parse_item(s)->Ok_0;
            items_after(prefix, consumed, parse_payload_items::<T>(s, budget, room)) == items_after(prefix.push(v), consumed + n, parse_payload_items::<T>(s.skip(n as int), budget - n, (room - 1) as nat))
        }),
{
    reveal(parse_payload_items);
    if budget > 0 && T::parse_item(s) is Ok && room > 0 {
        let (v, n) = T::parse_item(s)->Ok_0;
        T::lemma_parse_item_len(s);
        let r = parse_payload_items::<T>(s.skip(n as int), budget - n, (room - 1) as nat);
        if r is Ok {
            let (vs, m) = r->Ok_0;
            assert(prefix + (seq![v] + vs) =~= prefix.push(v) + vs);
        }
    }
}

/// Write items one after the other
pub fn put_payload_items<'a, T: PayloadItem<'a>, W: MqttWriter>(writer: &mut W, items: &Vec<T>) -> (r: Result<(), PacketWriteError>)
    ensures
        put_outcome(
            old(writer).written(),
            old(writer).room(),
            final(writer).written(),
            final(writer).room(),
            r,
            payload_steps::<T>(items_view(items@)),
        ),
{
    let ghost w0 = writer.written();
    let ghost m0 = writer.room();
    let mut i: usize = 0;
    let mut failure: Option<PacketWriteError> = None;
    proof {
        lemma_put_nothing(w0, m0);
        assert(items_view(items@.take(0)) =~= Seq::<T::ItemView>::empty());
    }
    while i < items.len()
        invariant_except_break
            failure is None,
        invariant
            i <= items@.len(),
            failure is None ==> put_outcome(w0, m0, writer.written(), writer.room(), Ok(()), payload_steps::<T>(items_view(items@.take(i as int)))),
            failure matches Some(e) ==> put_outcome(w0, m0, writer.written(), writer.room(), Err(e), payload_steps::<T>(items_view(items@))),
        ensures
            failure is None ==> i == items@.len(),
        decreases items@.len() - i,
    {
        let ghost w1 = writer.written();
        let ghost m1 = writer.room();
        let ghost before = items_view(items@.take(i as int));
        let ghost item = items@[i as int].item_view();
        proof {
            assert(items_view(items@.take(i + 1)) =~= before.push(item));
            assert(before.push(item).drop_last() =~= before);
            assert(payload_steps::<T>(before.push(item)) == payload_steps::<T>(before) + T::item_steps(item));
        }
        let r = items[i].write_item(writer);
        proof {
            lemma_put_then(w0, m0, w1, m1, Ok(()), payload_steps::<T>(before), writer.written(), writer.room(), r, T::item_steps(item));
        }
        match r {
            Ok(()) => {
                proof {
                    crate::codec::encoding::lemma_ok_unit(r);
                }
            },
            Err(e) => {
                proof {
                    let rest = items_view(items@.skip(i + 1));
                    assert(items_view(items@) =~= before.push(item) + rest);
                    lemma_payload_steps_append::<T>(before.push(item), rest);
                    lemma_put_stop(w0, m0, writer.written(), writer.room(), r, payload_steps::<T>(before.push(item)), payload_steps::<T>(rest));
                }
                failure = Some(e);
                break;
            },
        }
        i = i + 1;
        assert(items_view(items@.take(i as int)) == before.push(item));
    }
    match failure {
        Some(e) => Err(e),
        None => {
            proof {
                assert(items@.take(items@.len() as int) =~= items@);
            }
            Ok(())
        },
    }
}

/// Writing a list of items is writing each part of it in turn.
pub proof fn lemma_payload_steps_append<'a, T: PayloadItem<'a>>(a: Seq<T::ItemView>, b: Seq<T::ItemView>)
    ensures
        payload_steps::<T>(a + b) == payload_steps::<T>(a) + payload_steps::<T>(b),
    decreases b.len(),
{
    if b.len() == 0 {
        assert(a + b =~= a);
        assert(payload_steps::<T>(a) + Seq::<WriteStep>::empty() =~= payload_steps::<T>(a));
    } else {
        assert((a + b).drop_last() =~= a + b.drop_last());
        lemma_payload_steps_append::<T>(a, b.drop_last());
        assert(payload_steps::<T>(a) + payload_steps::<T>(b.drop_last()) + T::item_steps(b.last()) =~= payload_steps::<T>(a) + (payload_steps::<T>(b.drop_last()) + T::item_steps(b.last())));
    }
}

impl<'a> MqttBufReader<'a> {
    /// Get items while fewer than `budget` bytes have been read, failing with
    /// [PacketReadError::TooManyRequests] when there are more than `capacity` of them
    pub fn get_payload_items<T: PayloadItem<'a>>(&mut self, budget: usize, capacity: usize) -> (r: Result<Vec<T>, PacketReadError>)
        ensures
            final(self).data() == old(self).data(),
            match parse_payload_items::<T>(old(self).rest(), budget as int, capacity as nat) {
                Ok((vs, n)) => r is Ok && items_view(r->Ok_0@) == vs && advanced(*old(self), *final(self), n),
                Err(e) => r == Err::<Vec<T>, PacketReadError>(e),
            },
    {
        let ghost first = *self;
        let start = self.position();
        let mut consumed: usize = 0;
        let mut items: Vec<T> = Vec::new();
        let mut failure: Option<PacketReadError> = None;
        proof {
            assert(first.rest().skip(0) =~= first.rest());
            let whole = parse_payload_items::<T>(first.rest(), budget as int, capacity as nat);
            if whole is Ok {
                assert(items_view(items@) + whole->Ok_0.0 =~= whole->Ok_0.0);
            }
        }
        while consumed < budget
            invariant_except_break
                failure is None,
                advanced(first, *self, consumed as nat),
            invariant
                self.data() == first.data(),
                start == first.pos(),
                items@.len() <= capacity,
                failure is None ==> parse_payload_items::<T>(first.rest(), budget as int, capacity as nat) == items_after(items_view(items@), consumed as nat, parse_payload_items::<T>(self.rest(), budget - consumed, (capacity - items@.len()) as nat)),
                failure matches Some(e) ==> parse_payload_items::<T>(first.rest(), budget as int, capacity as nat) == Err::<(Seq<T::ItemView>, nat), PacketReadError>(e),
            ensures
                failure is None ==> consumed >= budget,
                failure is None ==> advanced(first, *self, consumed as nat),
            decreases self.rest().len(),
        {
            let ghost before = *self;
            let ghost room = (capacity - items@.len()) as nat;
            let ghost old_items = items_view(items@);
            proof {
                lemma_parse_payload_items_step::<T>(before.rest(), budget - consumed, room, old_items, consumed as nat);
            }
            let item = match T::read_item(self) {
                Ok(item) => item,
                Err(e) => {
                    failure = Some(e);
                    break;
                },
            };
            let ghost n = T::parse_item(before.rest())->Ok_0.1;
            proof {
                T::lemma_parse_item_len(before.rest());
                lemma_advanced_trans(first, before, *self, consumed as nat, n);
            }
            if items.len() >= capacity {
                failure = Some(PacketReadError::TooManyRequests);
                break;
            }
            items.push(item);
            consumed = self.position() - start;
            proof {
                assert(items_view(items@) =~= old_items.push(item.item_view()));
            }
        }
        match failure {
            Some(e) => Err(e),
            None => {
                proof {
                    lemma_parse_payload_items_step::<T>(self.rest(), budget - consumed, (capacity - items@.len()) as nat, items_view(items@), consumed as nat);
                    assert(items_view(items@) + Seq::<T::ItemView>::empty() =~= items_view(items@));
                }
                Ok(items)
            },
        }
    }
}

/// A packet holding a list of items (Subscribe, Suback, Unsubscribe, Unsuback) as a
/// mathematical value: the packet identifier, the first item (which must be present), the
/// other items and the properties
pub struct ItemPacketView<V> {
    pub packet_identifier: u16,
    pub first: V,
    pub others: Seq<V>,
    pub properties: Seq<PropertyView>,
}

/// The steps of writing the variable header and payload of a packet holding items: the
/// packet identifier, the property list, then the items
pub open spec fn item_packet_steps<'a, T: PayloadItem<'a>>(v: ItemPacketView<T::ItemView>) -> Seq<WriteStep> {
    seq![WriteStep::Bytes(enc_u16(v.packet_identifier))] + property_list_steps(v.properties)
        + T::item_steps(v.first) + payload_steps::<T>(v.others)
}

/// Reading the variable header and payload of a packet holding items, with remaining
/// length `len`: the packet identifier, the property list in a context with room for `p`
/// properties, the first item (any failure to read it gives `first_error`), then items
/// with room for `s` of them until the remaining length has been read
pub open spec fn parse_item_packet<'a, T: PayloadItem<'a>>(
    data: Seq<u8>,
    len: nat,
    context: PropertyContext,
    first_error: PacketReadError,
    p: nat,
    s: nat,
) -> Result<(ItemPacketView<T::ItemView>, nat), PacketReadError> {
    match parse_u16(data) {
        Err(e) => Err(e),
        Ok((id, n1)) => match parse_property_list(data.skip(n1 as int), context, p) {
            Err(e) => Err(e),
            Ok((ps, n2)) => match T::parse_item(data.skip((n1 + n2) as int)) {
                Err(_) => Err(first_error),
                Ok((first, n3)) => {
                    let read = n1 + n2 + n3;
                    match parse_payload_items::<T>(data.skip(read as int), len - read, s) {
                        Err(e) => Err(e),
                        Ok((others, n4)) => Ok((ItemPacketView { packet_identifier: id, first, others, properties: ps }, read + n4)),
                    }
                },
            },
        },
    }
}

/// Put the variable header and payload of a packet holding items
pub fn put_item_packet<'a, T: PayloadItem<'a>, W: MqttWriter>(
    writer: &mut W,
    packet_identifier: u16,
    properties: &Vec<Property>,
    first: &T,
    others: &Vec<T>,
) -> (r: Result<(), PacketWriteError>)
    ensures
        put_outcome(
            old(writer).written(),
            old(writer).room(),
            final(writer).written(),
            final(writer).room(),
            r,
            item_packet_steps::<T>(ItemPacketView {
                packet_identifier,
                first: first.item_view(),
                others: items_view(others@),
                properties: properties_view(properties@),
            }),
        ),
{
    let ghost w0 = writer.written();
    let ghost m0 = writer.room();
    let ghost a = seq![WriteStep::Bytes(enc_u16(packet_identifier))];
    let ghost b = property_list_steps(properties_view(properties@));
    let ghost c = T::item_steps(first.item_view());
    let ghost d = payload_steps::<T>(items_view(others@));
    let r1 = writer.put_u16(packet_identifier);
    let ghost w1 = writer.written();
    let ghost m1 = writer.room();
    if r1.is_err() {
        proof {
            lemma_put_stop(w0, m0, w1, m1, r1, a, b + c + d);
            assert(a + (b + c + d) =~= a + b + c + d);
        }
        return r1;
    }
    let r2 = put_properties(writer, properties);
    let ghost w2 = writer.written();
    let ghost m2 = writer.room();
    proof {
        lemma_put_then(w0, m0, w1, m1, r1, a, w2, m2, r2, b);
    }
    if r2.is_err() {
        proof {
            lemma_put_stop(w0, m0, w2, m2, r2, a + b, c + d);
            assert(a + b + (c + d) =~= a + b + c + d);
        }
        return r2;
    }
    let r3 = first.write_item(writer);
    let ghost w3 = writer.written();
    let ghost m3 = writer.room();
    proof {
        lemma_put_then(w0, m0, w2, m2, r2, a + b, w3, m3, r3, c);
    }
    if r3.is_err() {
        proof {
            lemma_put_stop(w0, m0, w3, m3, r3, a + b + c, d);
        }
        return r3;
    }
    let r4 = put_payload_items(writer, others);
    proof {
        lemma_put_then(w0, m0, w3, m3, r3, a + b + c, writer.written(), writer.room(), r4, d);
    }
    r4
}

impl<'a> MqttBufReader<'a> {
    /// Get the variable header and payload of a packet holding items, as
    /// [parse_item_packet] reads them
    pub fn get_item_packet<T: PayloadItem<'a>>(
        &mut self,
        len: usize,
        context: PropertyContext,
        first_error: PacketReadError,
        p: usize,
        s: usize,
    ) -> (r: Result<(u16, Vec<Property<'a>>, T, Vec<T>), PacketReadError>)
        ensures
            final(self).data() == old(self).data(),
            match parse_item_packet::<T>(old(self).rest(), len as nat, context, first_error, p as nat, s as nat) {
                Ok((v, n)) => r is Ok && r->Ok_0.0 == v.packet_identifier && properties_view(r->Ok_0.1@) == v.properties
                    && r->Ok_0.2.item_view() == v.first && items_view(r->Ok_0.3@) == v.others
                    && advanced(*old(self), *final(self), n),
                Err(e) => r == Err::<(u16, Vec<Property>, T, Vec<T>), PacketReadError>(e),
            },
    {
        let ghost s0 = self.rest();
        let start = self.position();
        let id = match self.get_u16() {
            Ok(id) => id,
            Err(e) => return Err(e),
        };
        let ghost r1 = *self;
        let ghost n1 = parse_u16(s0)->Ok_0.1;
        let properties = match self.get_property_list(context, p) {
            Ok(ps) => ps,
            Err(e) => return Err(e),
        };
        let ghost r2 = *self;
        let ghost n2 = parse_property_list(r1.rest(), context, p as nat)->Ok_0.1;
        proof {
            lemma_advanced_trans(*old(self), r1, r2, n1, n2);
            assert(r2.rest() =~= s0.skip((n1 + n2) as int));
        }
        let first = match T::read_item(self) {
            Ok(item) => item,
            Err(_) => return Err(first_error),
        };
        let ghost r3 = *self;
        proof {
            let n3 = T::parse_item(r2.rest())->Ok_0.1;
            lemma_advanced_trans(*old(self), r2, r3, n1 + n2, n3);
            assert(r3.rest() =~= s0.skip((n1 + n2 + n3) as int));
        }
        let read = self.position() - start;
        let budget: usize = if read < len {
            len - read
        } else {
            0
        };
        proof {
            lemma_parse_payload_items_step::<T>(r3.rest(), len - read, s as nat, Seq::empty(), 0);
            lemma_parse_payload_items_step::<T>(r3.rest(), budget as int, s as nat, Seq::empty(), 0);
        }
        let others = match self.get_payload_items::<T>(budget, s) {
            Ok(items) => items,
            Err(e) => return Err(e),
        };
        proof {
            let n4 = parse_payload_items::<T>(r3.rest(), budget as int, s as nat)->Ok_0.1;
            lemma_advanced_trans(*old(self), r3, *self, read as nat, n4);
        }
        Ok((id, properties, first, others))
    }
}

/// Every item view of a list is one that items of its kind have
pub open spec fn items_wf<'a, T: PayloadItem<'a>>(vs: Seq<T::ItemView>) -> bool {
    forall|i: int| 0 <= i < vs.len() ==> T::item_wf(#[trigger] vs[i])
}

/// Writing an item and then a list of items is writing the longer list.
pub proof fn lemma_payload_steps_front<'a, T: PayloadItem<'a>>(v: T::ItemView, vs: Seq<T::ItemView>)
    ensures
        payload_steps::<T>(seq![v] + vs) == T::item_steps(v) + payload_steps::<T>(vs),
{
    lemma_payload_steps_append::<T>(seq![v], vs);
    let one = seq![v];
    assert(one.drop_last() =~= Seq::<T::ItemView>::empty());
    assert(payload_steps::<T>(one.drop_last()) == Seq::<WriteStep>::empty());
    assert(payload_steps::<T>(one) == payload_steps::<T>(one.drop_last()) + T::item_steps(one.last()));
    assert(Seq::<WriteStep>::empty() + T::item_steps(v) =~= T::item_steps(v));
}

/// Items written one after the other without failure read back as the same items, with
/// room for them, when the budget is the length written, whatever data follows them.
pub proof fn lemma_payload_roundtrip<'a, T: PayloadItem<'a>>(vs: Seq<T::ItemView>, room: nat, rest: Seq<u8>)
    requires
        items_wf::<T>(vs),
        vs.len() <= room,
        steps_failure(payload_steps::<T>(vs)) is None,
    ensures
        parse_payload_items::<T>(steps_bytes(payload_steps::<T>(vs)) + rest, steps_bytes(payload_steps::<T>(vs)).len() as int, room)
            == Ok::<(Seq<T::ItemView>, nat), PacketReadError>((vs, steps_bytes(payload_steps::<T>(vs)).len())),
    decreases vs.len(),
{
    let bytes = steps_bytes(payload_steps::<T>(vs));
    if vs.len() == 0 {
        assert(bytes + rest =~= rest);
        assert(vs =~= Seq::<T::ItemView>::empty());
        lemma_parse_payload_items_step::<T>(rest, 0, room, Seq::empty(), 0);
    } else {
        let v = vs[0];
        let tail = vs.drop_first();
        assert(vs =~= seq![v] + tail);
        lemma_payload_steps_front::<T>(v, tail);
        lemma_steps_append(T::item_steps(v), payload_steps::<T>(tail));
        let bv = steps_bytes(T::item_steps(v));
        let bt = steps_bytes(payload_steps::<T>(tail));
        assert(items_wf::<T>(tail)) by {
            assert forall|i: int| 0 <= i < tail.len() implies T::item_wf(#[trigger] tail[i]) by {
                assert(tail[i] == vs[i + 1]);
            }
        }
        assert(T::item_wf(vs[0]));
        T::lemma_item_roundtrip(v, bt + rest);
        T::lemma_parse_item_len(bv + (bt + rest));
        lemma_payload_roundtrip::<T>(tail, (room - 1) as nat, rest);
        let s = bytes + rest;
        assert(s =~= bv + (bt + rest));
        assert(s.skip(bv.len() as int) =~= bt + rest);
        assert(bytes.len() - bv.len() == bt.len());
        lemma_parse_payload_items_step::<T>(s, bytes.len() as int, room, Seq::empty(), 0);
        assert(Seq::<T::ItemView>::empty().push(v) =~= seq![v]);
        let r = parse_payload_items::<T>(s, bytes.len() as int, room);
        if r is Ok {
            assert(Seq::<T::ItemView>::empty() + r->Ok_0.0 =~= r->Ok_0.0);
        }
        assert(r == Ok::<(Seq<T::ItemView>, nat), PacketReadError>((vs, bytes.len())));
    }
}

/// The variable header and payload of a packet holding items, with properties accepted in
/// its context, items that items of their kind have, and room for the properties and the
/// items after the first, written without failure, read back as the same packet when the
/// remaining length is the length written, whatever data follows them.
#[verifier::spinoff_prover]
pub proof fn lemma_item_packet_roundtrip<'a, T: PayloadItem<'a>>(
    v: ItemPacketView<T::ItemView>,
    context: PropertyContext,
    first_error: PacketReadError,
    p: nat,
    s: nat,
    rest: Seq<u8>,
)
    requires
        properties_accepted(v.properties, context),
        v.properties.len() <= p,
        T::item_wf(v.first),
        items_wf::<T>(v.others),
        v.others.len() <= s,
        steps_failure(item_packet_steps::<T>(v)) is None,
    ensures
        parse_item_packet::<T>(steps_bytes(item_packet_steps::<T>(v)) + rest, steps_bytes(item_packet_steps::<T>(v)).len(), context, first_error, p, s)
            == Ok::<(ItemPacketView<T::ItemView>, nat), PacketReadError>((v, steps_bytes(item_packet_steps::<T>(v)).len())),
{
    let a = seq![WriteStep::Bytes(enc_u16(v.packet_identifier))];
    let b = property_list_steps(v.properties);
    let c = T::item_steps(v.first);
    let d = payload_steps::<T>(v.others);
    lemma_steps_append(a + b + c, d);
    lemma_steps_append(a + b, c);
    lemma_steps_append(a, b);
    lemma_steps_one(enc_u16(v.packet_identifier));
    let bb = steps_bytes(b);
    let cb = steps_bytes(c);
    let db = steps_bytes(d);
    let body = steps_bytes(item_packet_steps::<T>(v));
    assert(body == enc_u16(v.packet_identifier) + bb + cb + db);
    let data = body + rest;
    lemma_uint_steps_roundtrip(0, v.packet_identifier, 0, bb + cb + db + rest);
    crate::codec::encoding::lemma_uint_roundtrip(v.packet_identifier, 0);
    assert(data =~= enc_u16(v.packet_identifier) + (bb + cb + db + rest));
    assert(data.skip(2) =~= bb + (cb + db + rest));
    lemma_property_list_roundtrip(v.properties, context, p, cb + db + rest);
    assert(data.skip(2 + bb.len() as int) =~= cb + (db + rest));
    T::lemma_item_roundtrip(v.first, db + rest);
    let read: int = 2int + bb.len() + cb.len();
    assert(data.skip(read) =~= db + rest);
    lemma_payload_roundtrip::<T>(v.others, s, rest);
    assert(body.len() - read == db.len());
}

/// The views of a list of items are items that items of their kind have.
pub proof fn lemma_items_view_wf<'a, T: PayloadItem<'a>>(items: Seq<T>)
    ensures
        items_wf::<T>(items_view(items)),
{
    assert forall|i: int| 0 <= i < items_view(items).len() implies T::item_wf(#[trigger] items_view(items)[i]) by {
        items[i].lemma_item_view_wf();
    }
}

} // verus!
