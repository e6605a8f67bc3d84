use vstd::prelude::*;
use vstd::string::StringSliceAdditionalSpecFns;

use crate::codec::encoding::{
    binary_steps, byte_steps, enc_u16, enc_u32, enc_vbi, lemma_byte_steps, lemma_run_fail,
    lemma_run_one, lemma_run_steps_append, lemma_run_steps_len, lemma_run_steps_more_room,
    lemma_run_two, run_steps, str_steps,
    vbi_steps, WriteStep, DATA_MAX_LEN, VARIABLE_BYTE_INTEGER_MAX_VALUE,
};
use crate::data::reason_code::{reason_code_value, ReasonCode};
use crate::data::string_pair::StringPair;
use crate::data::subscription_options::{subscription_options_byte, SubscriptionOptions};
use crate::error::PacketWriteError;

verus! {

pub type Result<A> = core::result::Result<A, PacketWriteError>;

/// The relation between a writer before and after performing write steps with result `r`:
/// the result and the bytes put are those of running the steps in the room the writer had
pub open spec fn put_outcome(
    before_written: Seq<u8>,
    before_room: nat,
    after_written: Seq<u8>,
    after_room: nat,
    r: Result<()>,
    steps: Seq<WriteStep>,
) -> bool {
    let run = run_steps(steps, before_room);
    &&& r == run.0
    &&& after_written == before_written + run.1
    &&& after_room == before_room - run.1.len()
}

/// A sequence of puts on one writer: before put `i` the writer had written `written[i]`
/// with `rooms[i]` bytes of room (and `written[n]`, `rooms[n]` after the last of the `n`
/// puts), and put `i` performed the write steps `steps[i]` with result `results[i]`, as
/// [put_outcome] states
pub open spec fn puts_chain(
    written: Seq<Seq<u8>>,
    rooms: Seq<nat>,
    results: Seq<Result<()>>,
    steps: Seq<Seq<WriteStep>>,
) -> bool {
    &&& written.len() == results.len() + 1
    &&& rooms.len() == results.len() + 1
    &&& steps.len() == results.len()
    &&& forall|i: int|
        #![trigger steps[i]]
        0 <= i < results.len() ==> put_outcome(
            written[i],
            rooms[i],
            written[i + 1],
            rooms[i + 1],
            results[i],
            steps[i],
        )
}

proof fn lemma_puts_keep_capacity_at(
    written: Seq<Seq<u8>>,
    rooms: Seq<nat>,
    results: Seq<Result<()>>,
    steps: Seq<Seq<WriteStep>>,
    k: int,
)
    requires
        puts_chain(written, rooms, results, steps),
        0 <= k < written.len(),
    ensures
        written[k].len() + rooms[k] == written[0].len() + rooms[0],
    decreases k,
{
    if k > 0 {
        lemma_puts_keep_capacity_at(written, rooms, results, steps, k - 1);
        let _ = steps[k - 1];
        lemma_run_steps_len(steps[k - 1], rooms[k - 1]);
    }
}

/// The law of room: through any sequence of puts on a writer, whatever their results, the
/// number of bytes written plus the room left stays what it was at the start. A buffer
/// writer starts with nothing written and the buffer's length as room, so its position
/// plus what remains is always the buffer's length.
pub proof fn lemma_puts_keep_capacity(
    written: Seq<Seq<u8>>,
    rooms: Seq<nat>,
    results: Seq<Result<()>>,
    steps: Seq<Seq<WriteStep>>,
)
    requires
        puts_chain(written, rooms, results, steps),
    ensures
        forall|i: int| 0 <= i < written.len() ==> #[trigger] written[i].len() + rooms[i] == written[0].len() + rooms[0],
{
    assert forall|i: int| 0 <= i < written.len() implies #[trigger] written[i].len() + rooms[i] == written[0].len() + rooms[0] by {
        lemma_puts_keep_capacity_at(written, rooms, results, steps, i);
    }
}

proof fn lemma_roomier_writer_tracks_at(
    written_a: Seq<Seq<u8>>,
    rooms_a: Seq<nat>,
    results_a: Seq<Result<()>>,
    written_b: Seq<Seq<u8>>,
    rooms_b: Seq<nat>,
    results_b: Seq<Result<()>>,
    steps: Seq<Seq<WriteStep>>,
    k: int,
)
    requires
        puts_chain(written_a, rooms_a, results_a, steps),
        puts_chain(written_b, rooms_b, results_b, steps),
        written_a[0] == written_b[0],
        rooms_a[0] <= rooms_b[0],
        forall|i: int| 0 <= i < results_a.len() ==> #[trigger] results_a[i] is Ok,
        0 <= k < written_a.len(),
    ensures
        written_b[k] == written_a[k],
        rooms_a[k] <= rooms_b[k],
        forall|i: int| 0 <= i < k ==> #[trigger] results_b[i] == results_a[i],
    decreases k,
{
    if k > 0 {
        lemma_roomier_writer_tracks_at(written_a, rooms_a, results_a, written_b, rooms_b, results_b, steps, k - 1);
        let j = k - 1;
        let _ = steps[j];
        assert(results_a[j] is Ok);
        lemma_run_steps_more_room(steps[j], rooms_a[j], rooms_b[j]);
        lemma_run_steps_len(steps[j], rooms_a[j]);
        assert(results_b[j] == results_a[j]);
    }
}

/// The law of the length writer: two writers given the same puts, from the same bytes
/// written, the second with at least as much room as the first (as an [MqttLenWriter],
/// whose room is the largest position, has beside a buffer writer): when every put on the
/// first succeeds, every put on the second succeeds too, and after each the second holds
/// the same bytes, so its position is the same.
pub proof fn lemma_roomier_writer_tracks(
    written_a: Seq<Seq<u8>>,
    rooms_a: Seq<nat>,
    results_a: Seq<Result<()>>,
    written_b: Seq<Seq<u8>>,
    rooms_b: Seq<nat>,
    results_b: Seq<Result<()>>,
    steps: Seq<Seq<WriteStep>>,
)
    requires
        puts_chain(written_a, rooms_a, results_a, steps),
        puts_chain(written_b, rooms_b, results_b, steps),
        written_a[0] == written_b[0],
        rooms_a[0] <= rooms_b[0],
        forall|i: int| 0 <= i < results_a.len() ==> #[trigger] results_a[i] is Ok,
    ensures
        forall|i: int| 0 <= i < results_b.len() ==> #[trigger] results_b[i] is Ok,
        forall|i: int| 0 <= i < written_b.len() ==> #[trigger] written_b[i] == written_a[i],
{
    let n = results_a.len() as int;
    lemma_roomier_writer_tracks_at(written_a, rooms_a, results_a, written_b, rooms_b, results_b, steps, n);
    assert forall|i: int| 0 <= i < results_b.len() implies #[trigger] results_b[i] is Ok by {
        assert(results_b[i] == results_a[i]);
        assert(results_a[i] is Ok);
    }
    assert forall|i: int| 0 <= i < written_b.len() implies #[trigger] written_b[i] == written_a[i] by {
        lemma_roomier_writer_tracks_at(written_a, rooms_a, results_a, written_b, rooms_b, results_b, steps, i);
    }
}

/// True when a slice of bytes holds the byte 0
pub fn contains_zero(bytes: &[u8]) -> (r: bool)
    ensures
        r == bytes@.contains(0u8),
{
    let mut i: usize = 0;
    while i < bytes.len()
        invariant
            i <= bytes@.len(),
            forall|j: int| 0 <= j < i ==> bytes@[j] != 0u8,
        decreases bytes@.len() - i,
    {
        if bytes[i] == 0 {
            assert(bytes@[i as int] == 0u8);
            return true;
        }
        i = i + 1;
    }
    false
}

/// A writer putting data to an underlying buffer in MQTT v5 encodings.
/// Each `put` method puts encoded data, advancing its position. If a method fails (returns
/// an [Err]), partial data may have been written before the error was detected: exactly the
/// pieces that fitted before the failure, as [put_outcome] states.
pub trait MqttWriter: Sized {
    /// The bytes written so far
    spec fn written(&self) -> Seq<u8>;

    /// How many more bytes can be written
    spec fn room(&self) -> nat;

    /// Put the whole of a slice as raw data, failing with [PacketWriteError::Overflow] and
    /// writing nothing when it does not fit
    fn put_slice(&mut self, slice: &[u8]) -> (r: Result<()>)
        ensures
            put_outcome(
                old(self).written(),
                old(self).room(),
                final(self).written(),
                final(self).room(),
                r, seq![WriteStep::Bytes(slice@)]),
    ;

    /// Put one byte
    fn put_u8(&mut self, n: u8) -> (r: Result<()>)
        ensures
            put_outcome(
                old(self).written(),
                old(self).room(),
                final(self).written(),
                final(self).room(),
                r, seq![WriteStep::Bytes(seq![n])]),
    {
        let data: [u8; 1] = [n];
        assert(data@ =~= seq![n]);
        self.put_slice(&data)
    }

    /// Put a bool as one byte, 0 for false, 1 for true
    fn put_bool_zero_one(&mut self, b: bool) -> (r: Result<()>)
        ensures
            put_outcome(
                old(self).written(),
                old(self).room(),
                final(self).written(),
                final(self).room(),
                r,
                seq![WriteStep::Bytes(seq![if b { 1u8 } else { 0u8 }])],
            ),
    {
        let value: u8 = if b {
            1
        } else {
            0
        };
        self.put_u8(value)
    }

    /// Put two bytes, a u16 in big-endian order
    fn put_u16(&mut self, n: u16) -> (r: Result<()>)
        ensures
            put_outcome(
                old(self).written(),
                old(self).room(),
                final(self).written(),
                final(self).room(),
                r, seq![WriteStep::Bytes(enc_u16(n))]),
    {
        let data: [u8; 2] = [(n / 256) as u8, (n % 256) as u8];
        assert(data@ =~= enc_u16(n));
        self.put_slice(&data)
    }

    /// Put four bytes, a u32 in big-endian order
    fn put_u32(&mut self, n: u32) -> (r: Result<()>)
        ensures
            put_outcome(
                old(self).written(),
                old(self).room(),
                final(self).written(),
                final(self).room(),
                r, seq![WriteStep::Bytes(enc_u32(n))]),
    {
        let data: [u8; 4] = [
            (n / 0x100_0000) as u8,
            ((n / 0x1_0000) % 256) as u8,
            ((n / 256) % 256) as u8,
            (n % 256) as u8,
        ];
        assert(data@ =~= enc_u32(n));
        self.put_slice(&data)
    }

    /// Put 1-4 bytes, a variable byte integer as specified by MQTT v5. Fails with
    /// [PacketWriteError::VariableByteIntegerTooLarge], writing nothing, when the value is
    /// larger than [VARIABLE_BYTE_INTEGER_MAX_VALUE]. In case of an overflow the bytes that
    /// fitted are written.
    fn put_variable_u32(&mut self, n: u32) -> (r: Result<()>)
        ensures
            put_outcome(
                old(self).written(),
                old(self).room(),
                final(self).written(),
                final(self).room(),
                r, vbi_steps(n as nat)),
    {
        if n > VARIABLE_BYTE_INTEGER_MAX_VALUE {
            proof {
                lemma_run_fail(PacketWriteError::VariableByteIntegerTooLarge, old(self).room());
            }
            Err(PacketWriteError::VariableByteIntegerTooLarge)
        } else {
            let ghost full = enc_vbi(n as nat);
            let ghost start_written = old(self).written();
            let ghost start_room = old(self).room();
            let ghost mut done: Seq<u8> = Seq::empty();
            let mut m = n;
            let mut failure: Option<PacketWriteError> = None;
            proof {
                lemma_byte_steps(full, start_room);
            }
            loop
                invariant_except_break
                    full == done + enc_vbi(m as nat),
                    failure is None,
                invariant
                    full == enc_vbi(n as nat),
                    done.len() <= start_room,
                    self.written() == start_written + done,
                    self.room() == start_room - done.len(),
                    m <= n,
                    n <= VARIABLE_BYTE_INTEGER_MAX_VALUE,
                ensures
                    failure is None ==> full == done,
                    failure matches Some(e) ==> e == PacketWriteError::Overflow && full.len()
                        > start_room && done == full.take(start_room as int),
                decreases m,
            {
                let ghost before_room = self.room();
                let ghost m_old = m;
                assert(enc_vbi(m_old as nat).len() > 0);
                let mut encoded_byte = (m % 128) as u8;
                m = m / 128;
                // if there is more data to encode, set the top bit of this byte
                if m > 0 {
                    encoded_byte = encoded_byte + 128;
                }
                assert(enc_vbi((m * 128 + encoded_byte % 128) as nat) == seq![encoded_byte] + (if m
                    > 0 {
                    enc_vbi(m as nat)
                } else {
                    Seq::empty()
                })) by {
                    let k = (m * 128 + encoded_byte % 128) as nat;
                    if m > 0 {
                        assert(k >= 128);
                        assert(k / 128 == m);
                    } else {
                        assert(k < 128);
                    }
                }
                proof {
                    lemma_run_one(seq![encoded_byte], before_room);
                }
                let res = self.put_u8(encoded_byte);
                match res {
                    Ok(()) => {},
                    Err(e) => {
                        assert(done =~= full.take(start_room as int));
                        assert(self.written() =~= start_written + done);
                        failure = Some(e);
                        break ;
                    },
                }
                proof {
                    done = done + seq![encoded_byte];
                    if m > 0 {
                        assert(full =~= done + enc_vbi(m as nat));
                    } else {
                        assert(full =~= done);
                    }
                }
                if m == 0 {
                    break ;
                }
            }
            match failure {
                Some(e) => Err(e),
                None => Ok(()),
            }
        }
    }

    /// Put a string: its length in bytes as a u16, then its UTF-8 bytes, as specified by
    /// MQTT v5. Fails with [PacketWriteError::StringTooLarge] when it is longer than
    /// [DATA_MAX_LEN] bytes and with [PacketWriteError::NullCharacterInString] when it holds
    /// a null character, writing nothing in both cases.
    fn put_str(&mut self, s: &str) -> (r: Result<()>)
        ensures
            put_outcome(
                old(self).written(),
                old(self).room(),
                final(self).written(),
                final(self).room(),
                r, str_steps(s.spec_bytes())),
    {
        let bytes = s.as_bytes();
        let len = bytes.len();
        proof {
            lemma_run_fail(PacketWriteError::StringTooLarge, old(self).room());
            lemma_run_fail(PacketWriteError::NullCharacterInString, old(self).room());
            lemma_run_two(enc_u16(len as u16), bytes@, old(self).room());
            lemma_run_one(enc_u16(len as u16), old(self).room());
        }
        if len > DATA_MAX_LEN {
            Err(PacketWriteError::StringTooLarge)
        } else if contains_zero(bytes) {
            Err(PacketWriteError::NullCharacterInString)
        } else {
            let ghost start_written = old(self).written();
            let ghost start_room = old(self).room();
            let r1 = self.put_u16(len as u16);
            match r1 {
                Ok(()) => {},
                Err(e) => {
                    assert(self.written() =~= start_written);
                    return Err(e);
                },
            }
            let ghost mid_room = self.room();
            let ghost mid_written = self.written();
            proof {
                lemma_run_one(bytes@, mid_room);
            }
            let r2 = self.put_slice(bytes);
            assert(self.written() =~= start_written + run_steps(
                str_steps(s.spec_bytes()),
                start_room,
            ).1);
            r2
        }
    }

    /// Put delimited binary data: its length as a u16, then the data, as specified by
    /// MQTT v5. Fails with [PacketWriteError::DataTooLarge], writing nothing, when it is
    /// longer than [DATA_MAX_LEN] bytes.
    fn put_binary_data(&mut self, data: &[u8]) -> (r: Result<()>)
        ensures
            put_outcome(
                old(self).written(),
                old(self).room(),
                final(self).written(),
                final(self).room(),
                r, binary_steps(data@)),
    {
        let len = data.len();
        proof {
            lemma_run_fail(PacketWriteError::DataTooLarge, old(self).room());
            lemma_run_two(enc_u16(len as u16), data@, old(self).room());
            lemma_run_one(enc_u16(len as u16), old(self).room());
        }
        if len > DATA_MAX_LEN {
            Err(PacketWriteError::DataTooLarge)
        } else {
            let ghost start_written = old(self).written();
            let ghost start_room = old(self).room();
            let r1 = self.put_u16(len as u16);
            match r1 {
                Ok(()) => {},
                Err(e) => {
                    assert(self.written() =~= start_written);
                    return Err(e);
                },
            }
            let ghost mid_room = self.room();
            proof {
                lemma_run_one(data@, mid_room);
            }
            let r2 = self.put_slice(data);
            assert(self.written() =~= start_written + run_steps(binary_steps(data@), start_room).1);
            r2
        }
    }

    /// Put a reason code as its one byte value
    fn put_reason_code(&mut self, c: &ReasonCode) -> (r: Result<()>)
        ensures
            put_outcome(
                old(self).written(),
                old(self).room(),
                final(self).written(),
                final(self).room(),
                r,
                seq![WriteStep::Bytes(seq![reason_code_value(*c)])],
            ),
    {
        self.put_u8(c.value())
    }

    /// Put a pair of strings, name then value
    fn put_string_pair(&mut self, pair: &StringPair) -> (r: Result<()>)
        ensures
            put_outcome(
                old(self).written(),
                old(self).room(),
                final(self).written(),
                final(self).room(),
                r,
                str_steps(pair.spec_name().spec_bytes()) + str_steps(pair.spec_value().spec_bytes()),
            ),
    {
        let ghost w0 = self.written();
        let ghost m0 = self.room();
        let ghost a = str_steps(pair.spec_name().spec_bytes());
        let ghost b = str_steps(pair.spec_value().spec_bytes());
        proof {
            lemma_run_steps_append(a, b, m0);
        }
        let r1 = self.put_str(pair.name());
        match r1 {
            Ok(()) => {},
            Err(e) => {
                return Err(e);
            },
        }
        let ghost w1 = self.written();
        let r2 = self.put_str(pair.value());
        assert(self.written() =~= w0 + run_steps(a + b, m0).1);
        r2
    }

    /// Put subscription options as one byte
    fn put_subscription_options(&mut self, o: &SubscriptionOptions) -> (r: Result<()>)
        ensures
            put_outcome(
                old(self).written(),
                old(self).room(),
                final(self).written(),
                final(self).room(),
                r,
                seq![WriteStep::Bytes(seq![subscription_options_byte(*o)])],
            ),
    {
        self.put_u8(o.to_u8())
    }
}

} // verus!

verus! {

/// An [MqttWriter] putting data to a buffer of bytes
pub struct MqttBufWriter {
    buf: Vec<u8>,
    position: usize,
}

impl MqttBufWriter {
    #[verifier::type_invariant]
    spec fn position_in_buffer(&self) -> bool {
        self.position <= self.buf@.len()
    }

    /// The whole buffer, including what has not been written yet
    pub closed spec fn buffer(&self) -> Seq<u8> {
        self.buf@
    }

    /// Create a writer that puts data to `buf`, starting at its beginning
    pub fn new(buf: Vec<u8>) -> (r: MqttBufWriter)
        ensures
            r.written() == Seq::<u8>::empty(),
            r.room() == buf@.len(),
            r.buffer() == buf@,
    {
        MqttBufWriter { buf, position: 0 }
    }

    /// How many bytes can still be written
    pub fn remaining(&self) -> (r: usize)
        ensures
            r == self.room(),
    {
        proof {
            use_type_invariant(self);
        }
        self.buf.len() - self.position
    }

    /// How many bytes have been written
    pub fn position(&self) -> (r: usize)
        ensures
            r == self.written().len(),
    {
        proof {
            use_type_invariant(self);
        }
        self.position
    }

    /// The bytes written so far
    pub fn contents(&self) -> (r: &[u8])
        ensures
            r@ == self.written(),
    {
        proof {
            use_type_invariant(self);
        }
        let r = &self.buf[0..self.position];
        assert(r@ =~= self.buf@.subrange(0, self.position as int));
        r
    }

    /// Consume the writer, giving back the whole buffer
    pub fn into_inner(self) -> (r: Vec<u8>)
        ensures
            r@ == self.buffer(),
            self.written() == r@.subrange(0, self.written().len() as int),
            r@.len() == self.written().len() + self.room(),
    {
        proof {
            use_type_invariant(&self);
        }
        self.buf
    }
}

impl MqttWriter for MqttBufWriter {
    closed spec fn written(&self) -> Seq<u8> {
        self.buf@.subrange(0, self.position as int)
    }

    closed spec fn room(&self) -> nat {
        (self.buf@.len() - self.position) as nat
    }

    fn put_slice(&mut self, slice: &[u8]) -> (r: Result<()>) {
        proof {
            use_type_invariant(&*self);
            lemma_run_one(slice@, old(self).room());
        }
        let len = slice.len();
        if len > self.buf.len() - self.position {
            Err(PacketWriteError::Overflow)
        } else {
            let start = self.position;
            let mut i: usize = 0;
            while i < len
                invariant
                    start == old(self).position,
                    self.position == start,
                    len == slice@.len(),
                    start + len <= self.buf@.len(),
                    start + len <= usize::MAX,
                    self.buf@.len() == old(self).buf@.len(),
                    i <= len,
                    forall|j: int| 0 <= j < start ==> self.buf@[j] == old(self).buf@[j],
                    forall|j: int| 0 <= j < i ==> self.buf@[start + j] == slice@[j],
                decreases len - i,
            {
                self.buf[start + i] = slice[i];
                i = i + 1;
            }
            self.position = start + len;
            assert(self.buf@.subrange(0, self.position as int) =~= old(self).buf@.subrange(
                0,
                start as int,
            ) + slice@);
            Ok(())
        }
    }
}

/// An [MqttWriter] that discards data and just adjusts its position, used for quickly
/// finding the size of data for headers etc. The bytes that were put are tracked as a
/// ghost value, so that its position is known to be that of an [MqttBufWriter] given the
/// same data.
pub struct MqttLenWriter {
    position: usize,
    bytes: Ghost<Seq<u8>>,
}

impl MqttLenWriter {
    #[verifier::type_invariant]
    spec fn position_counts_bytes(&self) -> bool {
        self.bytes@.len() == self.position
    }

    /// Create a writer at position 0
    pub fn new() -> (r: MqttLenWriter)
        ensures
            r.written() == Seq::<u8>::empty(),
            r.room() == usize::MAX,
    {
        MqttLenWriter { position: 0, bytes: Ghost(Seq::empty()) }
    }

    /// Advance the position by `len` bytes, failing with [PacketWriteError::Overflow] when
    /// the position would not fit in a usize
    fn advance(&mut self, len: usize, data: Ghost<Seq<u8>>) -> (r: Result<()>)
        requires
            data@.len() == len,
        ensures
            put_outcome(
                old(self).written(),
                old(self).room(),
                final(self).written(),
                final(self).room(),
                r,
                seq![WriteStep::Bytes(data@)],
            ),
    {
        proof {
            use_type_invariant(&*self);
            lemma_run_one(data@, old(self).room());
        }
        if len > usize::MAX - self.position {
            Err(PacketWriteError::Overflow)
        } else {
            *self = MqttLenWriter {
                position: self.position + len,
                bytes: Ghost(self.bytes@ + data@),
            };
            Ok(())
        }
    }

    /// How many bytes have been put
    pub fn position(&self) -> (r: usize)
        ensures
            r == self.written().len(),
    {
        proof {
            use_type_invariant(self);
        }
        self.position
    }
}

impl Default for MqttLenWriter {
    /// A writer at position 0
    fn default() -> (r: MqttLenWriter)
        ensures
            r.written() == Seq::<u8>::empty(),
            r.room() == usize::MAX,
    {
        MqttLenWriter::new()
    }
}

impl MqttWriter for MqttLenWriter {
    closed spec fn written(&self) -> Seq<u8> {
        self.bytes@
    }

    closed spec fn room(&self) -> nat {
        (usize::MAX - self.position) as nat
    }

    fn put_slice(&mut self, slice: &[u8]) -> (r: Result<()>) {
        self.advance(slice.len(), Ghost(slice@))
    }
}

} // verus!
