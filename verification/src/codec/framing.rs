use vstd::prelude::*;

use crate::codec::encoding::{
    enc_vbi, lemma_dec_vbi_bound, lemma_enc_vbi_len, lemma_vbi_roundtrip, read_vbi,
    VARIABLE_BYTE_INTEGER_MAX_VALUE,
};
use crate::codec::mqtt_reader::MqttBufReader;
use crate::data::packet_type::{valid_first_header_byte, PacketType};
use crate::error::PacketReadError;

verus! {

// Receiving a packet from a stream is done in steps, each reading some bytes and then
// deciding what to read next: the first header byte, then the bytes of the remaining length
// one at a time, then the rest of the packet. The functions here make those decisions.

/// Check the first header byte of a packet as soon as it is received, so that reading can
/// stop early: [PacketReadError::InvalidPacketType] when it is not a valid first header byte
pub fn check_first_header_byte(b: u8) -> (r: Result<(), PacketReadError>)
    ensures
        r == (if valid_first_header_byte(b) {
            Ok::<(), PacketReadError>(())
        } else {
            Err::<(), PacketReadError>(PacketReadError::InvalidPacketType)
        }),
{
    if PacketType::is_valid_first_header_byte(b) {
        Ok(())
    } else {
        Err(PacketReadError::InvalidPacketType)
    }
}

/// Whether another byte of the remaining length must be read, given the bytes of it read so
/// far (at least one): not when the last has its continuation bit clear; otherwise another
/// is read when fewer than four were read, and four bytes that all continue are
/// [PacketReadError::InvalidVariableByteIntegerEncoding]
pub fn length_continues(length_bytes: &[u8]) -> (r: Result<bool, PacketReadError>)
    requires
        length_bytes@.len() >= 1,
    ensures
        r == (if length_bytes@.last() < 128 {
            Ok::<bool, PacketReadError>(false)
        } else if length_bytes@.len() < 4 {
            Ok::<bool, PacketReadError>(true)
        } else {
            Err::<bool, PacketReadError>(PacketReadError::InvalidVariableByteIntegerEncoding)
        }),
{
    let last = length_bytes[length_bytes.len() - 1];
    if last & 128 == 0 {
        assert(last & 128 == 0 <==> last < 128) by (bit_vector);
        Ok(false)
    } else {
        assert(last & 128 == 0 <==> last < 128) by (bit_vector);
        if length_bytes.len() < 4 {
            Ok(true)
        } else {
            Err(PacketReadError::InvalidVariableByteIntegerEncoding)
        }
    }
}

/// The remaining length that the bytes of a remaining length encode, once all of them were
/// read, checked against the room that a buffer has for the packet: `position` bytes of
/// the packet were read, and the rest must fit in `capacity` bytes in all (otherwise
/// [PacketReadError::PacketTooLargeForBuffer]); a malformed length gives the error of
/// reading it
pub fn frame_remaining_length(length_bytes: &[u8], position: usize, capacity: usize) -> (r: Result<usize, PacketReadError>)
    ensures
        r == match read_vbi(length_bytes@) {
            Ok((len, _)) => if position + len > capacity {
                Err::<usize, PacketReadError>(PacketReadError::PacketTooLargeForBuffer)
            } else {
                Ok::<usize, PacketReadError>(len as usize)
            },
            Err(e) => Err::<usize, PacketReadError>(e),
        },
{
    let mut reader = MqttBufReader::new(length_bytes);
    let len = match reader.get_variable_u32() {
        Ok(len) => len,
        Err(e) => return Err(e),
    };
    proof {
        lemma_dec_vbi_bound(length_bytes@, 4);
    }
    if capacity < position || (len as usize) > capacity - position {
        Err(PacketReadError::PacketTooLargeForBuffer)
    } else {
        Ok(len as usize)
    }
}

/// Every byte of the encoding of a variable byte integer but the last has its continuation
/// bit set, and the last has it clear.
pub proof fn lemma_vbi_continuation_bits(n: nat)
    ensures
        forall|k: int| 0 <= k < enc_vbi(n).len() - 1 ==> enc_vbi(n)[k] >= 128,
        enc_vbi(n).last() < 128,
    decreases n,
{
    if n >= 128 {
        lemma_vbi_continuation_bits(n / 128);
        let rest = enc_vbi(n / 128);
        let e = enc_vbi(n);
        assert(e == seq![(n % 128 + 128) as u8] + rest);
        assert forall|k: int| 0 <= k < e.len() - 1 implies e[k] >= 128 by {
            if k > 0 {
                assert(e[k] == rest[k - 1]);
            }
        }
    }
}

/// The law of framing: the remaining length of a written packet, whatever it is up to the
/// largest variable byte integer, is received whole by [length_continues], which asks for
/// one more byte after each of its bytes but the last, and stops at the last, and the bytes
/// then decode to that remaining length.
pub proof fn lemma_frame_written_length(n: nat)
    requires
        n <= VARIABLE_BYTE_INTEGER_MAX_VALUE,
    ensures
        1 <= enc_vbi(n).len() <= 4,
        forall|k: int| 1 <= k < enc_vbi(n).len() ==> #[trigger] enc_vbi(n).take(k).last() >= 128 && enc_vbi(n).take(k).len() < 4,
        enc_vbi(n).last() < 128,
        read_vbi(enc_vbi(n)) == Ok::<(nat, nat), PacketReadError>((n, enc_vbi(n).len())),
{
    lemma_enc_vbi_len(n);
    lemma_vbi_continuation_bits(n);
    lemma_vbi_roundtrip(n, Seq::empty());
    assert(enc_vbi(n) + Seq::<u8>::empty() =~= enc_vbi(n));
    assert forall|k: int| 1 <= k < enc_vbi(n).len() implies #[trigger] enc_vbi(n).take(k).last() >= 128 && enc_vbi(n).take(k).len() < 4 by {
        assert(enc_vbi(n).take(k).last() == enc_vbi(n)[k - 1]);
    }
}

} // verus!
