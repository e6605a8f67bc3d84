use vstd::prelude::*;

use crate::codec::encoding::{
    binary_steps, byte_steps, enc_u16, enc_u32, enc_vbi, lemma_byte_steps, lemma_vbi_roundtrip,
    read_vbi, steps_bytes, steps_failure, str_steps, vbi_steps, WriteStep,
};
use crate::codec::mqtt_reader::{
    parse_binary, parse_bool, parse_str, parse_string_pair, parse_u16, parse_u32, parse_u8, utf8_valid,
};
use crate::error::PacketReadError;

verus! {

/// Writing steps one after the other: the bytes of joined steps are the bytes of each part,
/// and the first failure of joined steps is the first failure of the first part, if any,
/// otherwise that of the second.
pub proof fn lemma_steps_append(a: Seq<WriteStep>, b: Seq<WriteStep>)
    ensures
        steps_bytes(a + b) == steps_bytes(a) + steps_bytes(b),
        steps_failure(a + b) == (if steps_failure(a) is Some {
            steps_failure(a)
        } else {
            steps_failure(b)
        }),
    decreases a.len(),
{
    if a.len() == 0 {
        assert(a + b =~= b);
        assert(Seq::<u8>::empty() + steps_bytes(b) =~= steps_bytes(b));
    } else {
        assert((a + b).drop_first() =~= a.drop_first() + b);
        lemma_steps_append(a.drop_first(), b);
        match a[0] {
            WriteStep::Fail(_) => {},
            WriteStep::Bytes(x) => {
                assert(x + (steps_bytes(a.drop_first()) + steps_bytes(b)) =~= x + steps_bytes(
                    a.drop_first(),
                ) + steps_bytes(b));
            },
        }
    }
}

/// The bytes of a single piece of bytes
pub proof fn lemma_steps_one(x: Seq<u8>)
    ensures
        steps_bytes(seq![WriteStep::Bytes(x)]) == x,
        steps_failure(seq![WriteStep::Bytes(x)]) is None,
{
    let s = seq![WriteStep::Bytes(x)];
    assert(s.drop_first() =~= Seq::<WriteStep>::empty());
    assert(steps_bytes(s.drop_first()) == Seq::<u8>::empty());
    assert(steps_failure(s.drop_first()) is None);
    assert(x + Seq::<u8>::empty() =~= x);
}

/// Writing a variable byte integer without failure puts its encoding, which reads back as
/// the value.
pub proof fn lemma_vbi_steps_roundtrip(n: nat, rest: Seq<u8>)
    requires
        steps_failure(vbi_steps(n)) is None,
    ensures
        steps_bytes(vbi_steps(n)) == enc_vbi(n),
        read_vbi(enc_vbi(n) + rest) == Ok::<(nat, nat), PacketReadError>((n, enc_vbi(n).len())),
{
    lemma_byte_steps(enc_vbi(n), 0);
    lemma_vbi_roundtrip(n, rest);
}

/// A byte, a u16 and a u32 read back from their encodings.
pub proof fn lemma_uint_steps_roundtrip(b: u8, x: u16, y: u32, rest: Seq<u8>)
    ensures
        parse_u8(seq![b] + rest) == Ok::<(u8, nat), PacketReadError>((b, 1)),
        parse_u16(enc_u16(x) + rest) == Ok::<(u16, nat), PacketReadError>((x, 2)),
        parse_u32(enc_u32(y) + rest) == Ok::<(u32, nat), PacketReadError>((y, 4)),
        parse_bool(seq![if b == 1 { 1u8 } else { 0u8 }] + rest) == Ok::<(bool, nat), PacketReadError>((b == 1, 1)),
{
    crate::codec::encoding::lemma_uint_roundtrip(x, y);
}

/// Writing binary data without failure puts its length and the data, which read back as
/// the data.
pub proof fn lemma_binary_steps_roundtrip(data: Seq<u8>, rest: Seq<u8>)
    requires
        steps_failure(binary_steps(data)) is None,
    ensures
        steps_bytes(binary_steps(data)) == enc_u16(data.len() as u16) + data,
        parse_binary(enc_u16(data.len() as u16) + data + rest) == Ok::<(Seq<u8>, nat), PacketReadError>((data, data.len() + 2)),
{
    lemma_steps_append(seq![WriteStep::Bytes(enc_u16(data.len() as u16))], seq![WriteStep::Bytes(data)]);
    assert(seq![WriteStep::Bytes(enc_u16(data.len() as u16))] + seq![WriteStep::Bytes(data)] =~= binary_steps(data));
    lemma_steps_one(enc_u16(data.len() as u16));
    lemma_steps_one(data);
    let s = enc_u16(data.len() as u16) + data + rest;
    crate::codec::encoding::lemma_uint_roundtrip(data.len() as u16, 0);
    assert(s.subrange(2, 2 + data.len() as int) =~= data);
}

/// Writing a string (given by its bytes) without failure puts its length and its bytes,
/// which read back as the string, when the bytes are valid UTF-8.
pub proof fn lemma_str_steps_roundtrip(bytes: Seq<u8>, rest: Seq<u8>)
    requires
        steps_failure(str_steps(bytes)) is None,
        utf8_valid(bytes),
    ensures
        steps_bytes(str_steps(bytes)) == enc_u16(bytes.len() as u16) + bytes,
        parse_str(enc_u16(bytes.len() as u16) + bytes + rest) == Ok::<(Seq<u8>, nat), PacketReadError>((bytes, bytes.len() + 2)),
{
    reveal(parse_str);
    assert(str_steps(bytes) == binary_steps(bytes));
    lemma_binary_steps_roundtrip(bytes, rest);
}

/// Writing a pair of strings without failure puts both, which read back as the pair.
pub proof fn lemma_string_pair_steps_roundtrip(a: Seq<u8>, b: Seq<u8>, rest: Seq<u8>)
    requires
        steps_failure(str_steps(a) + str_steps(b)) is None,
        utf8_valid(a),
        utf8_valid(b),
    ensures
        steps_bytes(str_steps(a) + str_steps(b)) == enc_u16(a.len() as u16) + a + (enc_u16(b.len() as u16) + b),
        steps_bytes(str_steps(a) + str_steps(b)).len() == a.len() + 2 + b.len() + 2,
        parse_string_pair(steps_bytes(str_steps(a) + str_steps(b)) + rest) == Ok::<((Seq<u8>, Seq<u8>), nat), PacketReadError>(((a, b), a.len() + 2 + b.len() + 2)),
{
    lemma_steps_append(str_steps(a), str_steps(b));
    let ea = enc_u16(a.len() as u16) + a;
    let eb = enc_u16(b.len() as u16) + b;
    lemma_str_steps_roundtrip(a, eb + rest);
    lemma_str_steps_roundtrip(b, rest);
    let s = steps_bytes(str_steps(a) + str_steps(b)) + rest;
    assert(s =~= ea + (eb + rest));
    let n1: int = a.len() + 2int;
    assert(parse_str(s) == Ok::<(Seq<u8>, nat), PacketReadError>((a, n1 as nat)));
    assert(s.skip(n1) =~= eb + rest);
    assert(parse_str(s.skip(n1)) == Ok::<(Seq<u8>, nat), PacketReadError>((b, b.len() + 2)));
}

} // verus!
