//! The variable-length integer: seven bits of payload in each byte, the
//! eighth bit set on every byte but the last, low groups first.

use vstd::prelude::*;
use crate::types::cursor::{Cursor, IoError};
use crate::types::field::{Field, write_bytes};
use crate::types::packet::{PacketError, PacketResult};

verus! {

/// The bytes that a 32-bit pattern is written as.
pub open spec fn varint_bytes(bits: u32) -> Seq<u8>
    decreases bits,
{
    if bits < 0x80 {
        seq![bits as u8]
    } else {
        proof {
            assert(bits >= 0x80 ==> bits >> 7 < bits) by (bit_vector);
        }
        seq![((bits & 0x7f) | 0x80) as u8] + varint_bytes(bits >> 7)
    }
}

/// The number of bytes that a 32-bit pattern is written as.
pub open spec fn varint_len(bits: u32) -> nat {
    if bits < 0x80 {
        1
    } else if bits < 0x4000 {
        2
    } else if bits < 0x20_0000 {
        3
    } else if bits < 0x1000_0000 {
        4
    } else {
        5
    }
}

/// The pattern with the payload of `byte` put in as group number `group`.
pub open spec fn with_group(acc: u32, byte: u8, group: nat) -> u32 {
    acc | (((byte & 0x7f) as u32) << ((7 * group) as u32))
}

/// Reading goes on from the byte at index `read`, with `acc` holding the
/// groups read so far: a byte without the eighth bit ends the number, a
/// missing byte is a short read, and a sixth byte is one too many.
pub open spec fn varint_scan(bytes: Seq<u8>, read: nat, acc: u32) -> (
    Result<u32, PacketError>,
    nat,
)
    decreases bytes.len() - read,
{
    if read >= bytes.len() {
        (Err(PacketError::Io(IoError::UnexpectedEof)), bytes.len())
    } else if read >= 5 {
        (Err(PacketError::BadVarInt((read + 1) as usize)), read + 1)
    } else if bytes[read as int] & 0x80 == 0 {
        (Ok(with_group(acc, bytes[read as int], read)), read + 1)
    } else {
        varint_scan(bytes, read + 1, with_group(acc, bytes[read as int], read))
    }
}

/// What reading a VarInt makes of the bytes ahead.
pub open spec fn varint_parse(bytes: Seq<u8>) -> (Result<i32, PacketError>, nat) {
    let scanned = varint_scan(bytes, 0, 0);
    (
        match scanned.0 {
            Ok(bits) => Ok(bits as i32),
            Err(e) => Err(e),
        },
        scanned.1,
    )
}

/// Reading takes no more bytes than there are.
pub proof fn lemma_scan_taken(bytes: Seq<u8>, read: nat, acc: u32)
    requires
        read <= bytes.len(),
    ensures
        varint_scan(bytes, read, acc).1 <= bytes.len(),
    decreases bytes.len() - read,
{
    if read < bytes.len() && read < 5 && bytes[read as int] & 0x80 != 0 {
        lemma_scan_taken(bytes, read + 1, with_group(acc, bytes[read as int], read));
    }
}

/// A pattern is written as between one and five bytes, as few as hold it.
pub proof fn lemma_varint_len(bits: u32)
    ensures
        varint_bytes(bits).len() == varint_len(bits),
        1 <= varint_len(bits) <= 5,
    decreases bits,
{
    if bits >= 0x80 {
        let rest = bits >> 7;
        assert(bits >= 0x80 ==> bits >> 7 < bits) by (bit_vector);
        assert((bits >> 7 < 0x80) == (bits < 0x4000)) by (bit_vector);
        assert((bits >> 7 < 0x4000) == (bits < 0x20_0000)) by (bit_vector);
        assert((bits >> 7 < 0x20_0000) == (bits < 0x1000_0000)) by (bit_vector);
        assert(bits >> 7 < 0x1000_0000) by (bit_vector);
        lemma_varint_len(rest);
    }
}

/// The low `7 * group` bits of a pattern.
pub open spec fn low_groups(bits: u32, group: nat) -> u32 {
    if group == 0 {
        0
    } else if group == 1 {
        bits & 0x7f
    } else if group == 2 {
        bits & 0x3fff
    } else if group == 3 {
        bits & 0x1f_ffff
    } else if group == 4 {
        bits & 0xfff_ffff
    } else {
        bits
    }
}

/// The pattern left when `group` groups of seven bits have been taken off.
pub open spec fn high_groups(bits: u32, group: nat) -> u32 {
    if group == 0 {
        bits
    } else if group == 1 {
        bits >> 7
    } else if group == 2 {
        bits >> 14
    } else if group == 3 {
        bits >> 21
    } else if group == 4 {
        bits >> 28
    } else {
        0
    }
}

/// One step of reading back what was written: the facts about bits that
/// relate a group to the pattern it was taken from.
proof fn lemma_group_step(bits: u32, group: nat)
    requires
        group <= 4,
    ensures
        high_groups(bits, group) < 0x80 ==> with_group(
            low_groups(bits, group),
            high_groups(bits, group) as u8,
            group,
        ) == bits,
        high_groups(bits, group) < 0x80 ==> (high_groups(bits, group) as u8) & 0x80 == 0,
        high_groups(bits, group) >= 0x80 ==> {
            &&& group < 4
            &&& with_group(
                low_groups(bits, group),
                ((high_groups(bits, group) & 0x7f) | 0x80) as u8,
                group,
            ) == low_groups(bits, group + 1)
            &&& (((high_groups(bits, group) & 0x7f) | 0x80) as u8) & 0x80 != 0
            &&& high_groups(bits, group) >> 7 == high_groups(bits, group + 1)
        },
{
    if group == 0 {
        assert(bits < 0x80 ==> (0u32 | ((((bits as u8) & 0x7f) as u32) << 0u32)) == bits
            && (bits as u8) & 0x80 == 0) by (bit_vector);
        assert(bits >= 0x80 ==> (0u32 | ((((((bits & 0x7f) | 0x80) as u8) & 0x7f) as u32) << 0u32))
            == bits & 0x7f && ((((bits & 0x7f) | 0x80) as u8) & 0x80 != 0)) by (bit_vector);
    } else if group == 1 {
        assert(bits >> 7 < 0x80 ==> ((bits & 0x7f) | (((((bits >> 7) as u8) & 0x7f) as u32)
            << 7u32)) == bits && ((bits >> 7) as u8) & 0x80 == 0) by (bit_vector);
        assert(bits >> 7 >= 0x80 ==> ((bits & 0x7f) | (((((((bits >> 7) & 0x7f) | 0x80) as u8)
            & 0x7f) as u32) << 7u32)) == bits & 0x3fff && ((((((bits >> 7) & 0x7f) | 0x80) as u8))
            & 0x80 != 0) && (bits >> 7) >> 7 == bits >> 14) by (bit_vector);
    } else if group == 2 {
        assert(bits >> 14 < 0x80 ==> ((bits & 0x3fff) | (((((bits >> 14) as u8) & 0x7f) as u32)
            << 14u32)) == bits && ((bits >> 14) as u8) & 0x80 == 0) by (bit_vector);
        assert(bits >> 14 >= 0x80 ==> ((bits & 0x3fff) | (((((((bits >> 14) & 0x7f) | 0x80) as u8)
            & 0x7f) as u32) << 14u32)) == bits & 0x1f_ffff && ((((((bits >> 14) & 0x7f)
            | 0x80) as u8)) & 0x80 != 0) && (bits >> 14) >> 7 == bits >> 21) by (bit_vector);
    } else if group == 3 {
        assert(bits >> 21 < 0x80 ==> ((bits & 0x1f_ffff) | (((((bits >> 21) as u8) & 0x7f) as u32)
            << 21u32)) == bits && ((bits >> 21) as u8) & 0x80 == 0) by (bit_vector);
        assert(bits >> 21 >= 0x80 ==> ((bits & 0x1f_ffff) | (((((((bits >> 21) & 0x7f)
            | 0x80) as u8) & 0x7f) as u32) << 21u32)) == bits & 0xfff_ffff && ((((((bits >> 21)
            & 0x7f) | 0x80) as u8)) & 0x80 != 0) && (bits >> 21) >> 7 == bits >> 28)
            by (bit_vector);
    } else {
        assert(bits >> 28 < 0x80) by (bit_vector);
        assert(((bits & 0xfff_ffff) | (((((bits >> 28) as u8) & 0x7f) as u32) << 28u32)) == bits
            && ((bits >> 28) as u8) & 0x80 == 0) by (bit_vector);
    }
}

/// Reading from group `group` on gives back the pattern that was written,
/// whatever follows it.
proof fn lemma_scan_written(bits: u32, group: nat, bytes: Seq<u8>)
    requires
        group <= 4,
        group + varint_bytes(high_groups(bits, group)).len() <= bytes.len(),
        bytes.subrange(
            group as int,
            (group + varint_bytes(high_groups(bits, group)).len()) as int,
        ) == varint_bytes(high_groups(bits, group)),
    ensures
        varint_scan(bytes, group, low_groups(bits, group)) == (
            Ok::<u32, PacketError>(bits),
            group + varint_bytes(high_groups(bits, group)).len(),
        ),
    decreases 5 - group,
{
    let rest = high_groups(bits, group);
    let written = varint_bytes(rest);
    lemma_group_step(bits, group);
    assert(bytes[group as int] == written[0]) by {
        assert(bytes.subrange(group as int, (group + written.len()) as int)[0] == bytes[group as int]);
    }
    if rest >= 0x80 {
        let tail = varint_bytes(rest >> 7);
        assert(written =~= seq![((rest & 0x7f) | 0x80) as u8] + tail);
        assert(bytes.subrange(group as int + 1, (group + 1 + tail.len()) as int) =~= tail) by {
            assert forall|k: int| 0 <= k < tail.len() implies bytes[group + 1 + k] == tail[k] by {
                assert(bytes.subrange(group as int, (group + written.len()) as int)[k + 1] == bytes[group
                    + 1 + k]);
            }
        }
        lemma_scan_written(bits, group + 1, bytes);
    }
}

/// Reading what was written for a number gives the number back and takes
/// exactly the bytes written, whatever follows them.
pub proof fn lemma_varint_round_trip(value: i32, rest: Seq<u8>)
    ensures
        varint_parse(varint_bytes(value as u32) + rest) == (
            Ok::<i32, PacketError>(value),
            varint_bytes(value as u32).len(),
        ),
{
    let bits = value as u32;
    let bytes = varint_bytes(bits) + rest;
    assert(bytes.subrange(0, varint_bytes(bits).len() as int) =~= varint_bytes(bits));
    lemma_scan_written(bits, 0, bytes);
    assert((value as u32) as i32 == value) by (bit_vector);
}

/// A 32-bit signed integer in the variable-length layout.
#[derive(Debug, Clone, Copy, PartialEq, Eq)]
pub struct VarIntField(i32);

impl VarIntField {
    /// A field holding `value`.
    pub fn new(value: i32) -> (field: VarIntField)
        ensures
            field.model() == value,
    {
        VarIntField(value)
    }

    /// The number held.
    pub fn value(&self) -> (value: i32)
        ensures
            value == self.model(),
    {
        self.0
    }

    /// The bytes that the number is written as.
    pub fn to_bytes(&self) -> (bytes: Vec<u8>)
        ensures
            bytes@ == self.wire(),
    {
        let mut bits = self.0 as u32;
        let mut out: Vec<u8> = Vec::new();
        assert(out@ + varint_bytes(bits) =~= varint_bytes(self.0 as u32));
        while bits >= 0x80
            invariant
                out@ + varint_bytes(bits) == varint_bytes(self.0 as u32),
            decreases bits,
        {
            let ghost before = out@;
            let ghost prior = bits;
            out.push(((bits & 0x7f) | 0x80) as u8);
            assert(bits >= 0x80 ==> bits >> 7 < bits) by (bit_vector);
            bits = bits >> 7;
            assert(out@ + varint_bytes(bits) =~= before + varint_bytes(prior));
        }
        let ghost before = out@;
        out.push(bits as u8);
        assert(out@ =~= before + varint_bytes(bits));
        out
    }
}

impl Field for VarIntField {
    type Displayable = i32;

    type Value = i32;

    closed spec fn model(&self) -> i32 {
        self.0
    }

    open spec fn wire(&self) -> Seq<u8> {
        varint_bytes(self.model() as u32)
    }

    open spec fn parse(bytes: Seq<u8>) -> (Result<i32, PacketError>, nat) {
        varint_parse(bytes)
    }

    open spec fn displayed(&self) -> i32 {
        self.model()
    }

    fn value(&self) -> (shown: &i32) {
        &self.0
    }

    fn size(&self) -> (n: usize) {
        let bits = self.0 as u32;
        proof {
            lemma_varint_len(bits);
        }
        if bits < 0x80 {
            1
        } else if bits < 0x4000 {
            2
        } else if bits < 0x20_0000 {
            3
        } else if bits < 0x1000_0000 {
            4
        } else {
            5
        }
    }

    fn read_field(r: &mut Cursor) -> (read: PacketResult<Self>) {
        let ghost bytes = r.remaining();
        let mut num_read: usize = 0;
        let mut acc: u32 = 0;
        proof {
            lemma_scan_taken(bytes, 0, 0);
            assert(bytes.skip(0) =~= bytes);
        }
        loop
            invariant
                r.buffer() == old(r).buffer(),
                bytes == old(r).remaining(),
                r.offset() == old(r).offset() + num_read,
                num_read <= 5,
                num_read <= bytes.len(),
                r.remaining() == bytes.skip(num_read as int),
                varint_scan(bytes, num_read as nat, acc) == varint_scan(bytes, 0, 0),
            decreases 6 - num_read,
        {
            let byte = match r.read_byte() {
                Ok(byte) => byte,
                Err(e) => {
                    return Err(PacketError::Io(e));
                },
            };
            assert(byte == bytes[num_read as int]);
            assert(r.remaining() =~= bytes.skip(num_read + 1));
            if num_read >= 5 {
                return Err(PacketError::BadVarInt(num_read + 1));
            }
            let shift: u32 = 7 * num_read as u32;
            acc = acc | (((byte & 0x7f) as u32) << shift);
            num_read = num_read + 1;
            if byte & 0x80 == 0 {
                return Ok(VarIntField(acc as i32));
            }
        }
    }

    fn write_field(&self, w: &mut Cursor) -> (written: PacketResult<()>) {
        let bytes = self.to_bytes();
        write_bytes(w, bytes.as_slice())
    }
}

} // verus!
