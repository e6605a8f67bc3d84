use vstd::prelude::*;
use vstd::string::StringSliceAdditionalSpecFns;
use vstd::utf8::valid_utf8;

use crate::codec::encoding::{dec_u16, dec_u32, dec_vbi, read_vbi, lemma_dec_vbi_bound};
use crate::data::string_pair::StringPair;
use crate::error::PacketReadError;

verus! {

pub type Result<A> = core::result::Result<A, PacketReadError>;

/// Reading one byte: the first byte of the data
pub open spec fn parse_u8(s: Seq<u8>) -> Result<(u8, nat)> {
    if s.len() >= 1 {
        Ok((s[0], 1))
    } else {
        Err(PacketReadError::InsufficientData)
    }
}

/// Reading a big-endian u16 from the first two bytes of the data
pub open spec fn parse_u16(s: Seq<u8>) -> Result<(u16, nat)> {
    if s.len() >= 2 {
        Ok((dec_u16(s[0], s[1]), 2))
    } else {
        Err(PacketReadError::InsufficientData)
    }
}

/// Reading a big-endian u32 from the first four bytes of the data
pub open spec fn parse_u32(s: Seq<u8>) -> Result<(u32, nat)> {
    if s.len() >= 4 {
        Ok((dec_u32(s[0], s[1], s[2], s[3]), 4))
    } else {
        Err(PacketReadError::InsufficientData)
    }
}

/// Reading a boolean encoded as one byte, 0 for false and 1 for true
pub open spec fn parse_bool(s: Seq<u8>) -> Result<(bool, nat)> {
    match parse_u8(s) {
        Ok((v, n)) => if v == 0 {
            Ok((false, n))
        } else if v == 1 {
            Ok((true, n))
        } else {
            Err(PacketReadError::InvalidBooleanValue)
        },
        Err(e) => Err(e),
    }
}

/// Reading delimited binary data: a u16 length, then that many bytes
pub open spec fn parse_binary(s: Seq<u8>) -> Result<(Seq<u8>, nat)> {
    match parse_u16(s) {
        Ok((len, n)) => if n + len <= s.len() {
            Ok((s.subrange(n as int, n + len), (n + len) as nat))
        } else {
            Err(PacketReadError::InsufficientData)
        },
        Err(e) => Err(e),
    }
}

/// Whether bytes are valid UTF-8, as vstd defines it. Opaque, so that reasoning about
/// strings that are read does not unfold the definition of UTF-8.
#[verifier::opaque]
pub open spec fn utf8_valid(bytes: Seq<u8>) -> bool {
    valid_utf8(bytes)
}

/// The bytes of every string slice are valid UTF-8.
pub proof fn lemma_str_utf8_valid(s: &str)
    ensures
        utf8_valid(s.spec_bytes()),
{
    reveal(utf8_valid);
    vstd::utf8::encode_utf8_valid_utf8(s@);
}

/// Reading a string, given by its UTF-8 bytes: delimited data that must be valid UTF-8 and
/// must not hold a null character
#[verifier::opaque]
pub open spec fn parse_str(s: Seq<u8>) -> Result<(Seq<u8>, nat)> {
    match parse_binary(s) {
        Ok((bytes, n)) => if !utf8_valid(bytes) {
            Err(PacketReadError::InvalidUtf8)
        } else if bytes.contains(0u8) {
            Err(PacketReadError::NullCharacterInString)
        } else {
            Ok((bytes, n))
        },
        Err(e) => Err(e),
    }
}

/// A string that is read takes its two length bytes and its bytes, and no more than the
/// data holds.
pub proof fn lemma_parse_str_len(s: Seq<u8>)
    ensures
        parse_str(s) matches Ok((v, n)) ==> n == v.len() + 2 && n <= s.len(),
{
    reveal(parse_str);
}

/// Reading a pair of strings, name then value
pub open spec fn parse_string_pair(s: Seq<u8>) -> Result<((Seq<u8>, Seq<u8>), nat)> {
    match parse_str(s) {
        Ok((name, n1)) => match parse_str(s.skip(n1 as int)) {
            Ok((value, n2)) => Ok(((name, value), n1 + n2)),
            Err(e) => Err(e),
        },
        Err(e) => Err(e),
    }
}

/// The reader `after` has read `n` more bytes of the same data than `before`
pub open spec fn advanced(before: MqttBufReader, after: MqttBufReader, n: nat) -> bool {
    &&& after.data() == before.data()
    &&& after.pos() == before.pos() + n
    &&& n <= before.rest().len()
    &&& after.rest() == before.rest().skip(n as int)
}

/// Reading `n1` bytes and then `n2` more is reading `n1 + n2` bytes.
pub proof fn lemma_advanced_trans(a: MqttBufReader, b: MqttBufReader, c: MqttBufReader, n1: nat, n2: nat)
    requires
        advanced(a, b, n1),
        advanced(b, c, n2),
    ensures
        advanced(a, c, n1 + n2),
{
    assert(a.rest().skip(n1 as int).skip(n2 as int) =~= a.rest().skip((n1 + n2) as int));
}

/// Converts bytes to a string slice, when they are valid UTF-8
///
/// This calls `core::str::from_utf8`, which std documents as returning the bytes as a
/// string slice when they are valid UTF-8 and an error otherwise; the contract states
/// exactly that, with validity as vstd defines it.
#[verifier::external_body]
fn str_from_utf8<'b>(bytes: &'b [u8]) -> (r: Option<&'b str>)
    ensures
        r is Some <==> valid_utf8(bytes@),
        r matches Some(s) ==> s.spec_bytes() == bytes@,
{
    core::str::from_utf8(bytes).ok()
}

/// A reader providing access to an underlying buffer in the form of MQTT v5 encoded data.
/// Each `get` method retrieves data from the buffer, advancing the position. If a method
/// fails, partial data may have been read before the error was detected; since an error
/// always indicates invalid data the reader should not be used further.
pub struct MqttBufReader<'a> {
    buf: &'a [u8],
    position: usize,
}

impl<'a> MqttBufReader<'a> {
    #[verifier::type_invariant]
    spec fn position_in_buffer(&self) -> bool {
        self.position <= self.buf@.len()
    }

    /// The whole buffer being read
    pub closed spec fn data(&self) -> Seq<u8> {
        self.buf@
    }

    /// The number of bytes read so far
    pub closed spec fn pos(&self) -> nat {
        self.position as nat
    }

    /// The data that has not been read yet
    pub open spec fn rest(&self) -> Seq<u8> {
        self.data().subrange(self.pos() as int, self.data().len() as int)
    }

    /// Create a reader at the start of a buffer
    pub fn new(buf: &'a [u8]) -> (r: MqttBufReader<'a>)
        ensures
            r.data() == buf@,
            r.pos() == 0,
            r.rest() == buf@,
    {
        let r = MqttBufReader { buf, position: 0 };
        assert(r.rest() =~= buf@);
        r
    }

    /// The number of bytes not read yet
    pub fn remaining(&self) -> (r: usize)
        ensures
            r == self.rest().len(),
            self.pos() + r == self.data().len(),
    {
        proof {
            use_type_invariant(self);
        }
        self.buf.len() - self.position
    }

    /// The current position: 0 when the reader is created, then advanced by the number of
    /// bytes read by each successful `get` method
    pub fn position(&self) -> (r: usize)
        ensures
            r == self.pos(),
            r <= self.data().len(),
    {
        proof {
            use_type_invariant(self);
        }
        self.position
    }

    /// Get a slice with given length, as a view of this reader's buffer, advancing the
    /// position by that length. Fails with [PacketReadError::InsufficientData], leaving
    /// the position unchanged, when less data remains.
    pub fn get_slice(&mut self, len: usize) -> (r: Result<&'a [u8]>)
        ensures
            final(self).data() == old(self).data(),
            len <= old(self).rest().len() ==> r is Ok && r->Ok_0@ == old(self).rest().take(
                len as int,
            ) && advanced(*old(self), *final(self), len as nat),
            len > old(self).rest().len() ==> r == Err::<&[u8], PacketReadError>(
                PacketReadError::InsufficientData,
            ) && final(self).pos() == old(self).pos(),
    {
        proof {
            use_type_invariant(&*self);
        }
        if len > self.buf.len() - self.position {
            Err(PacketReadError::InsufficientData)
        } else {
            let end = self.position + len;
            let buf: &'a [u8] = self.buf;
            let slice = &buf[self.position..end];
            assert(slice@ =~= old(self).rest().take(len as int));
            self.position = end;
            assert(self.rest() =~= old(self).rest().skip(len as int));
            Ok(slice)
        }
    }

    /// Get the next byte
    pub fn get_u8(&mut self) -> (r: Result<u8>)
        ensures
            final(self).data() == old(self).data(),
            match parse_u8(old(self).rest()) {
                Ok((v, n)) => r == Ok::<u8, PacketReadError>(v) && advanced(*old(self), *final(self), n),
                Err(e) => r == Err::<u8, PacketReadError>(e) && final(self).pos() == old(self).pos(),
            },
    {
        match self.get_slice(1) {
            Ok(s) => Ok(s[0]),
            Err(e) => Err(e),
        }
    }

    /// Get the next byte as a bool, where false is encoded as 0 and true as 1; any other
    /// value gives [PacketReadError::InvalidBooleanValue]
    pub fn get_bool_zero_one(&mut self) -> (r: Result<bool>)
        ensures
            final(self).data() == old(self).data(),
            match parse_bool(old(self).rest()) {
                Ok((v, n)) => r == Ok::<bool, PacketReadError>(v) && advanced(*old(self), *final(self), n),
                Err(e) => r == Err::<bool, PacketReadError>(e),
            },
    {
        let value = match self.get_u8() {
            Ok(v) => v,
            Err(e) => return Err(e),
        };
        if value == 0 {
            Ok(false)
        } else if value == 1 {
            Ok(true)
        } else {
            Err(PacketReadError::InvalidBooleanValue)
        }
    }

    /// Get the next two bytes as a big-endian u16
    pub fn get_u16(&mut self) -> (r: Result<u16>)
        ensures
            final(self).data() == old(self).data(),
            match parse_u16(old(self).rest()) {
                Ok((v, n)) => r == Ok::<u16, PacketReadError>(v) && advanced(*old(self), *final(self), n),
                Err(e) => r == Err::<u16, PacketReadError>(e) && final(self).pos() == old(
                    self,
                ).pos(),
            },
    {
        match self.get_slice(2) {
            Ok(s) => {
                let v = (s[0] as u16) * 256 + (s[1] as u16);
                Ok(v)
            },
            Err(e) => Err(e),
        }
    }

    /// Get the next four bytes as a big-endian u32
    pub fn get_u32(&mut self) -> (r: Result<u32>)
        ensures
            final(self).data() == old(self).data(),
            match parse_u32(old(self).rest()) {
                Ok((v, n)) => r == Ok::<u32, PacketReadError>(v) && advanced(*old(self), *final(self), n),
                Err(e) => r == Err::<u32, PacketReadError>(e) && final(self).pos() == old(
                    self,
                ).pos(),
            },
    {
        match self.get_slice(4) {
            Ok(s) => {
                let v = (s[0] as u32) * 0x100_0000 + (s[1] as u32) * 0x1_0000 + (s[2] as u32) * 256
                    + (s[3] as u32);
                Ok(v)
            },
            Err(e) => Err(e),
        }
    }

    /// Get the next 1-4 bytes as a "variable byte integer" as specified by MQTT v5. Fails
    /// with [PacketReadError::InsufficientData] when the data ends first, or with
    /// [PacketReadError::InvalidVariableByteIntegerEncoding] when four bytes all have the
    /// continuation bit set.
    pub fn get_variable_u32(&mut self) -> (r: Result<u32>)
        ensures
            final(self).data() == old(self).data(),
            match read_vbi(old(self).rest()) {
                Ok((v, n)) => r == Ok::<u32, PacketReadError>(v as u32) && advanced(*old(self), *final(self), n),
                Err(e) => r == Err::<u32, PacketReadError>(e),
            },
    {
        proof {
            use_type_invariant(&*self);
        }
        let ghost s0 = old(self).rest();
        let ghost start = *self;
        let mut multiplier: u32 = 1;
        let mut value: u32 = 0;
        let mut encoded_len: usize = 0;
        let mut outcome: Option<Result<u32>> = None;
        assert(s0.skip(0) =~= s0);
        loop
            invariant_except_break
                outcome is None,
            invariant
                encoded_len <= 3 || outcome is Some,
                (encoded_len == 0 && multiplier == 1) || (encoded_len == 1 && multiplier == 128) || (
                encoded_len == 2 && multiplier == 16384) || (encoded_len == 3 && multiplier
                    == 2097152) || outcome is Some,
                value < multiplier || outcome is Some,
                self.data() == start.data(),
                s0 == start.rest(),
                outcome is None ==> advanced(start, *self, encoded_len as nat),
                outcome is None ==> read_vbi(s0) == (match dec_vbi(
                    s0.skip(encoded_len as int),
                    (4 - encoded_len) as nat,
                ) {
                    Ok((v, n)) => Ok::<(nat, nat), PacketReadError>(
                        ((value + multiplier * v) as nat, (encoded_len + n) as nat),
                    ),
                    Err(e) => Err(e),
                }),
                outcome matches Some(r) ==> match read_vbi(s0) {
                    Ok((v, n)) => r == Ok::<u32, PacketReadError>(v as u32) && advanced(start, *self, n),
                    Err(e) => r == Err::<u32, PacketReadError>(e),
                },
            ensures
                outcome is Some,
            decreases 4 - encoded_len,
        {
            let ghost k = encoded_len;
            let ghost sk = s0.skip(k as int);
            let ghost before = *self;
            let encoded = match self.get_u8() {
                Ok(b) => b,
                Err(e) => {
                    assert(before.rest() == sk);
                    assert(sk.len() == 0);
                    outcome = Some(Err(e));
                    break ;
                },
            };
            assert(before.rest() == sk);
            assert(encoded == sk[0]);
            let ghost after = *self;
            proof {
                lemma_advanced_trans(start, before, after, k as nat, 1);
            }
            encoded_len = encoded_len + 1;
            if encoded < 128 {
                assert(dec_vbi(sk, (4 - k) as nat) == Ok::<(nat, nat), PacketReadError>(
                    (encoded as nat, 1),
                ));
                value = value + (encoded as u32) * multiplier;
                assert(sk.drop_first() =~= s0.skip(encoded_len as int));
                outcome = Some(Ok(value));
                break ;
            } else {
                let ghost old_value = value;
                let ghost old_mult = multiplier;
                value = value + ((encoded - 128) as u32) * multiplier;
                multiplier = multiplier * 128;
                if encoded_len > 3 {
                    outcome = Some(Err(PacketReadError::InvalidVariableByteIntegerEncoding));
                    break ;
                }
                proof {
                    assert(sk.drop_first() =~= s0.skip(encoded_len as int));
                    let inner = dec_vbi(s0.skip(encoded_len as int), (4 - encoded_len) as nat);
                    match inner {
                        Ok((v, n)) => {
                            assert(old_value + old_mult * ((encoded - 128) + 128 * v) == (
                            old_value + (encoded - 128) * old_mult) + (old_mult * 128) * v)
                                by (nonlinear_arith);
                        },
                        Err(_) => {},
                    }
                }
            }
        }
        match outcome {
            Some(r) => r,
            None => Err(PacketReadError::InsufficientData),
        }
    }

    /// Get the next bytes as delimited binary data: a u16 length, then that many bytes
    pub fn get_binary_data(&mut self) -> (r: Result<&'a [u8]>)
        ensures
            final(self).data() == old(self).data(),
            match parse_binary(old(self).rest()) {
                Ok((v, n)) => r is Ok && r->Ok_0@ == v && advanced(*old(self), *final(self), n),
                Err(e) => r == Err::<&[u8], PacketReadError>(e),
            },
    {
        let ghost s0 = old(self).rest();
        let len = match self.get_u16() {
            Ok(v) => v,
            Err(e) => return Err(e),
        };
        let ghost mid = *self;
        let r = self.get_slice(len as usize);
        proof {
            assert(mid.rest() == s0.skip(2));
            if r is Ok {
                assert(r->Ok_0@ =~= s0.subrange(2, 2 + len));
                lemma_advanced_trans(*old(self), mid, *self, 2, len as nat);
            }
        }
        r
    }

    /// Get the next bytes as a string: a u16 length, then that many bytes of UTF-8 data,
    /// as specified by MQTT v5. Fails with [PacketReadError::InvalidUtf8] when the data is
    /// not valid UTF-8 and with [PacketReadError::NullCharacterInString] when the string
    /// holds a null character.
    pub fn get_str(&mut self) -> (r: Result<&'a str>)
        ensures
            final(self).data() == old(self).data(),
            match parse_str(old(self).rest()) {
                Ok((v, n)) => r is Ok && r->Ok_0.spec_bytes() == v && advanced(*old(self), *final(self), n),
                Err(e) => r == Err::<&str, PacketReadError>(e),
            },
    {
        proof {
            reveal(parse_str);
        }
        let slice = match self.get_binary_data() {
            Ok(s) => s,
            Err(e) => return Err(e),
        };
        proof {
            reveal(utf8_valid);
        }
        match str_from_utf8(slice) {
            None => Err(PacketReadError::InvalidUtf8),
            Some(s) => {
                if crate::codec::mqtt_writer::contains_zero(slice) {
                    Err(PacketReadError::NullCharacterInString)
                } else {
                    Ok(s)
                }
            },
        }
    }

    /// Get a pair of strings, name then value
    pub fn get_string_pair(&mut self) -> (r: Result<StringPair<'a>>)
        ensures
            final(self).data() == old(self).data(),
            match parse_string_pair(old(self).rest()) {
                Ok(((a, b), n)) => r is Ok && r->Ok_0.spec_name().spec_bytes() == a
                    && r->Ok_0.spec_value().spec_bytes() == b && advanced(*old(self), *final(self), n),
                Err(e) => r == Err::<StringPair, PacketReadError>(e),
            },
    {
        let ghost s0 = old(self).rest();
        let name = match self.get_str() {
            Ok(s) => s,
            Err(e) => return Err(e),
        };
        let ghost mid = *self;
        let ghost n1 = parse_str(s0)->Ok_0.1;
        let value = match self.get_str() {
            Ok(s) => s,
            Err(e) => return Err(e),
        };
        proof {
            let n2 = parse_str(mid.rest())->Ok_0.1;
            lemma_advanced_trans(*old(self), mid, *self, n1, n2);
        }
        Ok(StringPair::new(name, value))
    }
}

} // verus!
