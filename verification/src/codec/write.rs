use vstd::prelude::*;

use crate::codec::encoding::{
    lemma_run_steps_append, lemma_run_steps_len, run_steps, vbi_steps, WriteStep,
    VARIABLE_BYTE_INTEGER_MAX_VALUE,
};
use crate::codec::mqtt_writer::{put_outcome, MqttLenWriter, MqttWriter, Result};
use crate::error::PacketWriteError;

verus! {

/// Performing steps `a` and, when they succeed, steps `b` after them is performing `a + b`.
pub proof fn lemma_put_then(
    w0: Seq<u8>,
    m0: nat,
    w1: Seq<u8>,
    m1: nat,
    r1: Result<()>,
    a: Seq<WriteStep>,
    w2: Seq<u8>,
    m2: nat,
    r2: Result<()>,
    b: Seq<WriteStep>,
)
    requires
        put_outcome(w0, m0, w1, m1, r1, a),
        r1 is Ok,
        put_outcome(w1, m1, w2, m2, r2, b),
    ensures
        put_outcome(w0, m0, w2, m2, r2, a + b),
{
    lemma_run_steps_append(a, b, m0);
    let ra = run_steps(a, m0);
    let rb = run_steps(b, m1);
    assert(w2 =~= w0 + (ra.1 + rb.1));
}

/// Steps `a` that failed stop the steps `a + b` with the same outcome.
pub proof fn lemma_put_stop(
    w0: Seq<u8>,
    m0: nat,
    w1: Seq<u8>,
    m1: nat,
    r1: Result<()>,
    a: Seq<WriteStep>,
    b: Seq<WriteStep>,
)
    requires
        put_outcome(w0, m0, w1, m1, r1, a),
        r1 is Err,
    ensures
        put_outcome(w0, m0, w1, m1, r1, a + b),
{
    lemma_run_steps_append(a, b, m0);
}

/// Performing no steps succeeds and writes nothing.
pub proof fn lemma_put_nothing(w0: Seq<u8>, m0: nat)
    ensures
        put_outcome(w0, m0, w0, m0, Ok(()), Seq::empty()),
{
    assert(w0 + Seq::<u8>::empty() =~= w0);
}

/// Something that can be written to an [MqttWriter] as MQTT v5 encoded data
pub trait Write {
    /// The steps that writing this performs: the pieces of bytes it puts, in order, and
    /// where it fails
    spec fn write_steps(&self) -> Seq<WriteStep>;

    /// Write this to a writer
    fn write<W: MqttWriter>(&self, writer: &mut W) -> (r: Result<()>)
        ensures
            put_outcome(
                old(writer).written(),
                old(writer).room(),
                final(writer).written(),
                final(writer).room(),
                r,
                self.write_steps(),
            ),
    ;
}

/// The steps of writing each item of a list in order
pub open spec fn items_steps<T: Write>(items: Seq<T>) -> Seq<WriteStep>
    decreases items.len(),
{
    if items.len() == 0 {
        Seq::empty()
    } else {
        items_steps(items.drop_last()) + items.last().write_steps()
    }
}

/// The steps of writing a list prefixed with its total encoded length as a variable byte
/// integer: the items are first measured (failing as writing them would fail, with all the
/// room a usize allows), then the length is put, then the items
pub open spec fn delimited_steps<T: Write>(items: Seq<T>) -> Seq<WriteStep> {
    let inner = items_steps(items);
    let measured = run_steps(inner, usize::MAX as nat);
    match measured.0 {
        Err(e) => seq![WriteStep::Fail(e)],
        Ok(_) => vbi_steps(measured.1.len()) + inner,
    }
}

/// Writing a list is writing each item in order: the steps of two lists one after the
/// other are those of the joined list.
pub proof fn lemma_items_steps_append<T: Write>(a: Seq<T>, b: Seq<T>)
    ensures
        items_steps(a + b) == items_steps(a) + items_steps(b),
    decreases b.len(),
{
    if b.len() == 0 {
        assert(a + b =~= a);
        assert(items_steps(a) + Seq::empty() =~= items_steps(a));
    } else {
        assert((a + b).drop_last() =~= a + b.drop_last());
        assert((a + b).last() == b.last());
        lemma_items_steps_append(a, b.drop_last());
        assert(items_steps(a) + items_steps(b.drop_last()) + b.last().write_steps() =~= items_steps(
            a,
        ) + (items_steps(b.drop_last()) + b.last().write_steps()));
    }
}

/// Write each item of a list in order, stopping at the first error
pub fn put_items<T: Write, W: MqttWriter>(writer: &mut W, items: &Vec<T>) -> (r: Result<()>)
    ensures
        put_outcome(
            old(writer).written(),
            old(writer).room(),
            final(writer).written(),
            final(writer).room(),
            r,
            items_steps(items@),
        ),
{
    let ghost w0 = old(writer).written();
    let ghost room0 = old(writer).room();
    let mut i: usize = 0;
    let mut failure: Option<PacketWriteError> = None;
    proof {
        assert(items@.take(0) =~= Seq::<T>::empty());
        assert(items_steps(Seq::<T>::empty()) =~= Seq::<WriteStep>::empty());
    }
    while i < items.len()
        invariant_except_break
            failure is None,
        invariant
            i <= items@.len(),
            failure is None ==> run_steps(items_steps(items@.take(i as int)), room0).0 is Ok,
            failure is None ==> writer.written() == w0 + run_steps(
                items_steps(items@.take(i as int)),
                room0,
            ).1,
            failure is None ==> writer.room() == room0 - run_steps(
                items_steps(items@.take(i as int)),
                room0,
            ).1.len(),
            failure matches Some(e) ==> run_steps(items_steps(items@), room0).0 == Err::<
                (),
                PacketWriteError,
            >(e),
            failure is Some ==> writer.written() == w0 + run_steps(items_steps(items@), room0).1,
            failure is Some ==> writer.room() == room0 - run_steps(items_steps(items@), room0).1.len(),
        ensures
            failure is None ==> i == items@.len(),
        decreases items@.len() - i,
    {
        let ghost before = items@.take(i as int);
        let ghost after = items@.take(i + 1);
        let ghost item = items@[i as int];
        proof {
            assert(after =~= before + seq![item]);
            assert(seq![item].drop_last() =~= Seq::<T>::empty());
            assert(items_steps(Seq::<T>::empty()) =~= Seq::<WriteStep>::empty());
            assert(items_steps(seq![item]) =~= item.write_steps());
            lemma_items_steps_append(before, seq![item]);
            lemma_run_steps_append(items_steps(before), item.write_steps(), room0);
            lemma_run_steps_len(items_steps(before), room0);
        }
        let ri = items[i].write(writer);
        match ri {
            Ok(()) => {},
            Err(e) => {
                proof {
                    let rest = items@.skip(i + 1);
                    assert(items@ =~= after + rest);
                    lemma_items_steps_append(after, rest);
                    lemma_run_steps_append(items_steps(after), items_steps(rest), room0);
                    assert(writer.written() =~= w0 + run_steps(items_steps(after), room0).1);
                }
                failure = Some(e);
                break ;
            },
        }
        assert(writer.written() =~= w0 + run_steps(items_steps(after), room0).1);
        i = i + 1;
    }
    match failure {
        Some(e) => Err(e),
        None => {
            proof {
                assert(items@.take(items@.len() as int) =~= items@);
                crate::codec::encoding::lemma_ok_unit(run_steps(items_steps(items@), room0).0);
            }
            Ok(())
        },
    }
}

/// Put a list of writable items, prefixed with their total encoded length as a variable
/// byte integer
pub fn put_variable_u32_delimited_vec<T: Write, W: MqttWriter>(writer: &mut W, items: &Vec<T>) -> (r:
    Result<()>)
    ensures
        put_outcome(
            old(writer).written(),
            old(writer).room(),
            final(writer).written(),
            final(writer).room(),
            r,
            delimited_steps(items@),
        ),
{
    let ghost w0 = old(writer).written();
    let ghost room0 = old(writer).room();
    let ghost inner = items_steps(items@);
    let mut lw = MqttLenWriter::new();
    let measured = put_items(&mut lw, items);
    match measured {
        Ok(()) => {},
        Err(e) => {
            proof {
                crate::codec::encoding::lemma_run_fail(e, room0);
            }
            return Err(e);
        },
    }
    let len = lw.position();
    let ghost vbi = vbi_steps(len as nat);
    proof {
        lemma_run_steps_append(vbi, inner, room0);
    }
    if len > VARIABLE_BYTE_INTEGER_MAX_VALUE as usize {
        proof {
            crate::codec::encoding::lemma_run_fail(
                PacketWriteError::VariableByteIntegerTooLarge,
                room0,
            );
        }
        return Err(PacketWriteError::VariableByteIntegerTooLarge);
    }
    let r1 = writer.put_variable_u32(len as u32);
    match r1 {
        Ok(()) => {},
        Err(e) => {
            return Err(e);
        },
    }
    let ghost mid_written = writer.written();
    let r2 = put_items(writer, items);
    proof {
        let rv = run_steps(vbi, room0);
        assert(writer.written() =~= w0 + run_steps(vbi + inner, room0).1);
    }
    r2
}

} // verus!
