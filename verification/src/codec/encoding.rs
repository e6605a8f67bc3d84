use vstd::prelude::*;

use crate::error::{PacketReadError, PacketWriteError};

verus! {

/// The largest value that can be encoded as a variable byte integer (four bytes of seven bits)
pub const VARIABLE_BYTE_INTEGER_MAX_VALUE: u32 = 268_435_455;

/// The largest length of delimited binary data or of a string's encoded bytes
pub const DATA_MAX_LEN: usize = 65535;

/// Big-endian encoding of a u16
pub open spec fn enc_u16(n: u16) -> Seq<u8> {
    seq![(n / 256) as u8, (n % 256) as u8]
}

/// Big-endian encoding of a u32
pub open spec fn enc_u32(n: u32) -> Seq<u8> {
    seq![(n / 0x100_0000) as u8, ((n / 0x1_0000) % 256) as u8, ((n / 256) % 256) as u8, (n % 256) as u8]
}

/// Big-endian decoding of two bytes
pub open spec fn dec_u16(b0: u8, b1: u8) -> u16 {
    (b0 * 256 + b1) as u16
}

/// Big-endian decoding of four bytes
pub open spec fn dec_u32(b0: u8, b1: u8, b2: u8, b3: u8) -> u32 {
    (b0 * 0x100_0000 + b1 * 0x1_0000 + b2 * 256 + b3) as u32
}

/// "Variable byte integer" encoding as specified by MQTT v5: seven bits of the value per
/// byte, least significant group first, with the top bit set on every byte but the last
pub open spec fn enc_vbi(n: nat) -> Seq<u8>
    decreases n,
{
    if n < 128 {
        seq![n as u8]
    } else {
        seq![(n % 128 + 128) as u8] + enc_vbi(n / 128)
    }
}

/// Decoding of a variable byte integer from the start of `s`, reading at most `budget`
/// bytes: gives the value and the number of bytes read, fails with
/// [PacketReadError::InsufficientData] when the data ends before the last byte, and with
/// [PacketReadError::InvalidVariableByteIntegerEncoding] when the budget is used up by
/// bytes that all have the continuation bit set
pub open spec fn dec_vbi(s: Seq<u8>, budget: nat) -> Result<(nat, nat), PacketReadError>
    decreases budget,
{
    if s.len() == 0 {
        Err(PacketReadError::InsufficientData)
    } else if s[0] < 128 {
        Ok((s[0] as nat, 1))
    } else if budget <= 1 {
        Err(PacketReadError::InvalidVariableByteIntegerEncoding)
    } else {
        match dec_vbi(s.drop_first(), (budget - 1) as nat) {
            Ok((v, n)) => Ok((((s[0] - 128) + 128 * v) as nat, n + 1)),
            Err(e) => Err(e),
        }
    }
}

/// Decoding of a variable byte integer as MQTT v5 reads it: at most four bytes
pub open spec fn read_vbi(s: Seq<u8>) -> Result<(nat, nat), PacketReadError> {
    dec_vbi(s, 4)
}

/// One step of writing: either some bytes to put in one piece, or a failure found before
/// anything more is put
pub enum WriteStep {
    Bytes(Seq<u8>),
    Fail(PacketWriteError),
}

/// The outcome of performing write steps in order with `room` bytes of space left: each
/// piece of bytes is put whole when it fits, and writing stops with
/// [PacketWriteError::Overflow] at the first piece that does not fit, or with the error of
/// the first failure step. Gives the result and the bytes put before stopping.
pub open spec fn run_steps(steps: Seq<WriteStep>, room: nat) -> (Result<(), PacketWriteError>, Seq<u8>)
    decreases steps.len(),
{
    if steps.len() == 0 {
        (Ok(()), Seq::empty())
    } else {
        match steps[0] {
            WriteStep::Fail(e) => (Err(e), Seq::empty()),
            WriteStep::Bytes(b) => {
                if b.len() <= room {
                    let rest = run_steps(steps.drop_first(), (room - b.len()) as nat);
                    (rest.0, b + rest.1)
                } else {
                    (Err(PacketWriteError::Overflow), Seq::empty())
                }
            },
        }
    }
}

/// The bytes of write steps when none of them fails, in order
pub open spec fn steps_bytes(steps: Seq<WriteStep>) -> Seq<u8>
    decreases steps.len(),
{
    if steps.len() == 0 {
        Seq::empty()
    } else {
        match steps[0] {
            WriteStep::Fail(_) => steps_bytes(steps.drop_first()),
            WriteStep::Bytes(b) => b + steps_bytes(steps.drop_first()),
        }
    }
}

/// The first failure among write steps, if any
pub open spec fn steps_failure(steps: Seq<WriteStep>) -> Option<PacketWriteError>
    decreases steps.len(),
{
    if steps.len() == 0 {
        None
    } else {
        match steps[0] {
            WriteStep::Fail(e) => Some(e),
            WriteStep::Bytes(_) => steps_failure(steps.drop_first()),
        }
    }
}

/// Each byte put as a piece of its own, so that running out of room leaves the bytes that
/// fitted written
pub open spec fn byte_steps(b: Seq<u8>) -> Seq<WriteStep>
    decreases b.len(),
{
    if b.len() == 0 {
        Seq::empty()
    } else {
        seq![WriteStep::Bytes(seq![b[0]])] + byte_steps(b.drop_first())
    }
}

/// Writing a variable byte integer: fails when the value is too large, otherwise puts its
/// encoding one byte at a time
pub open spec fn vbi_steps(n: nat) -> Seq<WriteStep> {
    if n > VARIABLE_BYTE_INTEGER_MAX_VALUE {
        seq![WriteStep::Fail(PacketWriteError::VariableByteIntegerTooLarge)]
    } else {
        byte_steps(enc_vbi(n))
    }
}

/// Writing delimited binary data: fails when it is too long, otherwise puts its length as
/// a u16 and then the data
pub open spec fn binary_steps(data: Seq<u8>) -> Seq<WriteStep> {
    if data.len() > DATA_MAX_LEN {
        seq![WriteStep::Fail(PacketWriteError::DataTooLarge)]
    } else {
        seq![WriteStep::Bytes(enc_u16(data.len() as u16)), WriteStep::Bytes(data)]
    }
}

/// Writing a string given by its UTF-8 bytes: fails when they are too long, or hold a null
/// character (the byte 0), otherwise puts the length as a u16 and then the bytes
pub open spec fn str_steps(bytes: Seq<u8>) -> Seq<WriteStep> {
    if bytes.len() > DATA_MAX_LEN {
        seq![WriteStep::Fail(PacketWriteError::StringTooLarge)]
    } else if bytes.contains(0u8) {
        seq![WriteStep::Fail(PacketWriteError::NullCharacterInString)]
    } else {
        seq![WriteStep::Bytes(enc_u16(bytes.len() as u16)), WriteStep::Bytes(bytes)]
    }
}

/// A successful result without a value is `Ok(())`.
pub proof fn lemma_ok_unit(r: Result<(), PacketWriteError>)
    requires
        r is Ok,
    ensures
        r == Ok::<(), PacketWriteError>(()),
{
    let u: () = r->Ok_0;
    assert(u == ());
}

/// Running a single piece of bytes puts it when it fits, otherwise nothing.
pub proof fn lemma_run_one(b: Seq<u8>, room: nat)
    ensures
        run_steps(seq![WriteStep::Bytes(b)], room) == (if b.len() <= room {
            (Ok::<(), PacketWriteError>(()), b)
        } else {
            (Err::<(), PacketWriteError>(PacketWriteError::Overflow), Seq::<u8>::empty())
        }),
{
    let s = seq![WriteStep::Bytes(b)];
    assert(s.drop_first() =~= Seq::<WriteStep>::empty());
    assert(run_steps(Seq::<WriteStep>::empty(), (room - b.len()) as nat) == (
    Ok::<(), PacketWriteError>(()), Seq::<u8>::empty()));
    assert(b + Seq::<u8>::empty() =~= b);
}

/// Running a failure step fails with its error and puts nothing.
pub proof fn lemma_run_fail(e: PacketWriteError, room: nat)
    ensures
        run_steps(seq![WriteStep::Fail(e)], room) == (Err::<(), PacketWriteError>(e), Seq::<u8>::empty()),
{
}

/// Running two pieces of bytes puts the first when it fits, then the second when it fits too.
pub proof fn lemma_run_two(a: Seq<u8>, b: Seq<u8>, room: nat)
    ensures
        run_steps(seq![WriteStep::Bytes(a), WriteStep::Bytes(b)], room) == (if a.len() <= room {
            if a.len() + b.len() <= room {
                (Ok::<(), PacketWriteError>(()), a + b)
            } else {
                (Err::<(), PacketWriteError>(PacketWriteError::Overflow), a)
            }
        } else {
            (Err::<(), PacketWriteError>(PacketWriteError::Overflow), Seq::<u8>::empty())
        }),
{
    let s = seq![WriteStep::Bytes(a), WriteStep::Bytes(b)];
    assert(s.drop_first() =~= seq![WriteStep::Bytes(b)]);
    if a.len() <= room {
        lemma_run_one(b, (room - a.len()) as nat);
        assert(a + Seq::<u8>::empty() =~= a);
    }
}

/// Running two sequences of steps one after the other is running the first, then, if it
/// succeeded, running the second in the room that is left.
pub proof fn lemma_run_steps_append(a: Seq<WriteStep>, b: Seq<WriteStep>, room: nat)
    ensures
        run_steps(a + b, room) == (match run_steps(a, room).0 {
            Ok(_) => {
                let rb = run_steps(b, (room - run_steps(a, room).1.len()) as nat);
                (rb.0, run_steps(a, room).1 + rb.1)
            },
            Err(e) => (Err(e), run_steps(a, room).1),
        }),
        run_steps(a, room).1.len() <= room,
    decreases a.len(),
{
    if a.len() == 0 {
        assert(a + b =~= b);
        lemma_run_steps_len(b, room);
    } else {
        assert((a + b).drop_first() =~= a.drop_first() + b);
        match a[0] {
            WriteStep::Fail(e) => {},
            WriteStep::Bytes(x) => {
                if x.len() <= room {
                    lemma_run_steps_append(a.drop_first(), b, (room - x.len()) as nat);
                    let ra = run_steps(a.drop_first(), (room - x.len()) as nat);
                    assert(x + ra.1 + run_steps(b, (room - x.len() - ra.1.len()) as nat).1 =~= x + (
                    ra.1 + run_steps(b, (room - x.len() - ra.1.len()) as nat).1));
                }
            },
        }
    }
}

/// Running steps never puts more bytes than there is room for.
pub proof fn lemma_run_steps_len(steps: Seq<WriteStep>, room: nat)
    ensures
        run_steps(steps, room).1.len() <= room,
    decreases steps.len(),
{
    if steps.len() > 0 {
        match steps[0] {
            WriteStep::Fail(_) => {},
            WriteStep::Bytes(x) => {
                if x.len() <= room {
                    lemma_run_steps_len(steps.drop_first(), (room - x.len()) as nat);
                }
            },
        }
    }
}

/// Steps succeed exactly when none of them fails and all their bytes fit, and then they put
/// all their bytes; a failure step stops them with its error when the bytes before it fit.
pub proof fn lemma_run_steps_outcome(steps: Seq<WriteStep>, room: nat)
    ensures
        run_steps(steps, room).0 is Ok <==> (steps_failure(steps) is None && steps_bytes(steps).len()
            <= room),
        run_steps(steps, room).0 is Ok ==> run_steps(steps, room).1 == steps_bytes(steps),
        steps_failure(steps) is None && steps_bytes(steps).len() > room ==> run_steps(
            steps,
            room,
        ).0 == Err::<(), PacketWriteError>(PacketWriteError::Overflow),
    decreases steps.len(),
{
    if steps.len() > 0 {
        match steps[0] {
            WriteStep::Fail(_) => {},
            WriteStep::Bytes(x) => {
                if x.len() <= room {
                    lemma_run_steps_outcome(steps.drop_first(), (room - x.len()) as nat);
                }
            },
        }
    }
}

/// With more room, steps that succeeded still succeed and put the same bytes: the outcome
/// of a successful write does not depend on how much room was left over.
pub proof fn lemma_run_steps_more_room(steps: Seq<WriteStep>, room: nat, more: nat)
    requires
        run_steps(steps, room).0 is Ok,
        room <= more,
    ensures
        run_steps(steps, more) == run_steps(steps, room),
{
    lemma_run_steps_outcome(steps, room);
    lemma_run_steps_outcome(steps, more);
    let a = run_steps(steps, more);
    let b = run_steps(steps, room);
    assert(a.0 == Ok::<(), PacketWriteError>(())) by {
        let u: () = a.0->Ok_0;
        assert(u == ());
    }
    assert(b.0 == Ok::<(), PacketWriteError>(())) by {
        let u: () = b.0->Ok_0;
        assert(u == ());
    }
    assert(a.1 == b.1);
}

/// Putting bytes one at a time puts as many of them as fit.
pub proof fn lemma_byte_steps(b: Seq<u8>, room: nat)
    ensures
        run_steps(byte_steps(b), room) == (if b.len() <= room {
            (Ok::<(), PacketWriteError>(()), b)
        } else {
            (Err::<(), PacketWriteError>(PacketWriteError::Overflow), b.take(room as int))
        }),
        steps_failure(byte_steps(b)) is None,
        steps_bytes(byte_steps(b)) == b,
    decreases b.len(),
{
    if b.len() > 0 {
        let s = byte_steps(b);
        assert(s.drop_first() =~= byte_steps(b.drop_first()));
        if room >= 1 {
            lemma_byte_steps(b.drop_first(), (room - 1) as nat);
            assert(seq![b[0]] + b.drop_first() =~= b);
            if b.len() > room {
                assert(seq![b[0]] + b.drop_first().take(room - 1) =~= b.take(room as int));
            }
        } else {
            lemma_byte_steps(b.drop_first(), 0);
            assert(b.take(0) =~= Seq::<u8>::empty());
        }
        assert(seq![b[0]] + b.drop_first() =~= b);
    } else {
        assert(b.take(0) =~= b);
    }
}

/// The encoding of a variable byte integer no greater than the maximum has one to four
/// bytes: one for values below 128, two below 16384, three below 2097152, otherwise four.
pub proof fn lemma_enc_vbi_len(n: nat)
    requires
        n <= VARIABLE_BYTE_INTEGER_MAX_VALUE,
    ensures
        enc_vbi(n).len() == (if n < 128 {
            1int
        } else if n < 16384 {
            2int
        } else if n < 2097152 {
            3int
        } else {
            4int
        }),
    decreases n,
{
    if n >= 128 {
        lemma_enc_vbi_len(n / 128);
    }
}

/// Decoding the encoding of a variable byte integer, followed by any data, gives back the
/// value and the length of its encoding, whenever that length is within the budget.
pub proof fn lemma_vbi_decode_encode(n: nat, rest: Seq<u8>, budget: nat)
    requires
        enc_vbi(n).len() <= budget,
    ensures
        dec_vbi(enc_vbi(n) + rest, budget) == Ok::<(nat, nat), PacketReadError>(
            (n, enc_vbi(n).len()),
        ),
    decreases n,
{
    let s = enc_vbi(n) + rest;
    if n < 128 {
    } else {
        let m = n / 128;
        lemma_vbi_decode_encode(m, rest, (budget - 1) as nat);
        assert(s.drop_first() =~= enc_vbi(m) + rest);
        assert(s[0] == (n % 128 + 128) as u8);
    }
}

/// The law of variable byte integers: every value up to the maximum is read back from its
/// encoding, whatever data follows it.
pub proof fn lemma_vbi_roundtrip(n: nat, rest: Seq<u8>)
    requires
        n <= VARIABLE_BYTE_INTEGER_MAX_VALUE,
    ensures
        read_vbi(enc_vbi(n) + rest) == Ok::<(nat, nat), PacketReadError>((n, enc_vbi(n).len())),
{
    lemma_enc_vbi_len(n);
    lemma_vbi_decode_encode(n, rest, 4);
}

/// Values decoded from at most `budget` bytes are below 128 to the power of the bytes read,
/// and the bytes read are within the data and the budget.
pub proof fn lemma_dec_vbi_bound(s: Seq<u8>, budget: nat)
    requires
        dec_vbi(s, budget) is Ok,
    ensures
        ({
            let (v, n) = dec_vbi(s, budget)->Ok_0;
            &&& 1 <= n <= budget || (n == 1 && budget == 0)
            &&& n <= s.len()
            &&& (n == 1 ==> v < 128)
            &&& (n == 2 ==> v < 16384)
            &&& (n == 3 ==> v < 2097152)
            &&& (n <= 4 ==> v <= VARIABLE_BYTE_INTEGER_MAX_VALUE)
        }),
    decreases budget,
{
    if s.len() > 0 && s[0] >= 128 && budget > 1 {
        lemma_dec_vbi_bound(s.drop_first(), (budget - 1) as nat);
    }
}

/// The u16 and u32 encodings are read back by their decodings.
pub proof fn lemma_uint_roundtrip(a: u16, b: u32)
    ensures
        dec_u16(enc_u16(a)[0], enc_u16(a)[1]) == a,
        dec_u32(enc_u32(b)[0], enc_u32(b)[1], enc_u32(b)[2], enc_u32(b)[3]) == b,
{
}

} // verus!
