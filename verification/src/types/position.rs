//! A block position: three signed coordinates packed into 64 bits, in one
//! of two layouts that the protocol version chooses between.

use vstd::prelude::*;
use vstd::string::StringExecFns;
use crate::text::{push_signed, signed_text};
use crate::types::cursor::{Cursor, IoError};
use crate::types::endian::{be64, from_be64, get_be64, lemma_be64, put_be64};
use crate::types::field::{Field, write_bytes};
use crate::types::packet::{PacketError, PacketResult};

verus! {

/// < is pre-1.14 and uses old format, >= is post-1.14 and uses new format
pub const NEW_FORMAT_CUTOFF: u32 = 477;

/// The largest value of the coordinates x and z.
pub const MAX_XZ: i32 = 0x1ff_ffff;

/// The smallest value of the coordinates x and z.
pub const MIN_XZ: i32 = -0x200_0000;

/// The largest value of the coordinate y.
pub const MAX_Y: i32 = 0x7ff;

/// The smallest value of the coordinate y.
pub const MIN_Y: i32 = -0x800;

/// Whether three coordinates can be packed.
pub open spec fn in_range(x: i32, y: i32, z: i32) -> bool {
    MIN_XZ <= x <= MAX_XZ && MIN_XZ <= z <= MAX_XZ && MIN_Y <= y <= MAX_Y
}

/// The low 26 bits of a coordinate.
pub open spec fn low26(v: i32) -> u64 {
    ((v as u32) as u64) & 0x3ff_ffff
}

/// The low 12 bits of a coordinate.
pub open spec fn low12(v: i32) -> u64 {
    ((v as u32) as u64) & 0xfff
}

/// The signed number that 26 bits stand for.
pub open spec fn signed26(u: u64) -> i32 {
    if u >= 0x200_0000 {
        ((u as i64) - 0x400_0000) as i32
    } else {
        u as i32
    }
}

/// The signed number that 12 bits stand for.
pub open spec fn signed12(u: u64) -> i32 {
    if u >= 0x800 {
        ((u as i64) - 0x1000) as i32
    } else {
        u as i32
    }
}

/// The 64 bits that three coordinates are packed into: from the top, x in
/// 26 bits, then z in 26 and y in 12 from the cutoff version on, and y in
/// 12 and z in 26 before it.
pub open spec fn pack(version: u32, x: i32, y: i32, z: i32) -> u64 {
    if version >= NEW_FORMAT_CUTOFF {
        (low26(x) << 38) | (low26(z) << 12) | low12(y)
    } else {
        (low26(x) << 38) | (low12(y) << 26) | low26(z)
    }
}

/// The three coordinates that 64 bits unpack to, each with its sign.
pub open spec fn unpack(version: u32, val: u64) -> (i32, i32, i32) {
    if version >= NEW_FORMAT_CUTOFF {
        (signed26(val >> 38), signed12(val & 0xfff), signed26((val << 26) >> 38))
    } else {
        (signed26(val >> 38), signed12((val >> 26) & 0xfff), signed26((val << 38) >> 38))
    }
}

/// Unpacking gives coordinates that can be packed.
pub proof fn lemma_unpack_in_range(version: u32, val: u64)
    ensures
        in_range(unpack(version, val).0, unpack(version, val).1, unpack(version, val).2),
{
    assert(val >> 38 < 0x400_0000) by (bit_vector);
    assert((val << 26) >> 38 < 0x400_0000) by (bit_vector);
    assert((val << 38) >> 38 < 0x400_0000) by (bit_vector);
    assert(val & 0xfff < 0x1000) by (bit_vector);
    assert((val >> 26) & 0xfff < 0x1000) by (bit_vector);
    lemma_signed26_range(val >> 38);
    lemma_signed26_range((val << 26) >> 38);
    lemma_signed26_range((val << 38) >> 38);
    lemma_signed12_range(val & 0xfff);
    lemma_signed12_range((val >> 26) & 0xfff);
}

/// The number that 26 bits stand for lies in the range of x and z.
proof fn lemma_signed26_range(u: u64)
    requires
        u < 0x400_0000,
    ensures
        MIN_XZ <= signed26(u) <= MAX_XZ,
        u >= 0x200_0000 ==> signed26(u) == u - 0x400_0000,
        u < 0x200_0000 ==> signed26(u) == u,
{
    if u >= 0x200_0000 {
        let wide: i64 = ((u as i64) - 0x400_0000) as i64;
        assert(wide == u - 0x400_0000);
        assert((wide as i32) as int == wide as int);
    }
}

/// The number that 12 bits stand for lies in the range of y.
proof fn lemma_signed12_range(u: u64)
    requires
        u < 0x1000,
    ensures
        MIN_Y <= signed12(u) <= MAX_Y,
        u >= 0x800 ==> signed12(u) == u - 0x1000,
        u < 0x800 ==> signed12(u) == u,
{
    if u >= 0x800 {
        let wide: i64 = ((u as i64) - 0x1000) as i64;
        assert(wide == u - 0x1000);
        assert((wide as i32) as int == wide as int);
    }
}

/// The low 26 bits of a coordinate in range stand for the coordinate.
proof fn lemma_low26(v: i32)
    requires
        MIN_XZ <= v <= MAX_XZ,
    ensures
        low26(v) < 0x400_0000,
        signed26(low26(v)) == v,
{
    let u = low26(v);
    assert(u < 0x400_0000) by (bit_vector)
        requires
            u == ((v as u32) as u64) & 0x3ff_ffff,
    ;
    assert(v >= 0 ==> u == v as u64) by (bit_vector)
        requires
            u == ((v as u32) as u64) & 0x3ff_ffff,
            -0x200_0000i32 <= v <= 0x1ff_ffffi32,
    ;
    assert(v < 0 ==> u == (v + 0x400_0000) as u64) by (bit_vector)
        requires
            u == ((v as u32) as u64) & 0x3ff_ffff,
            -0x200_0000i32 <= v <= 0x1ff_ffffi32,
    ;
    lemma_signed26_range(u);
}

/// The low 12 bits of a coordinate in range stand for the coordinate.
proof fn lemma_low12(v: i32)
    requires
        MIN_Y <= v <= MAX_Y,
    ensures
        low12(v) < 0x1000,
        signed12(low12(v)) == v,
{
    let u = low12(v);
    assert(u < 0x1000) by (bit_vector)
        requires
            u == ((v as u32) as u64) & 0xfff,
    ;
    assert(v >= 0 ==> u == v as u64) by (bit_vector)
        requires
            u == ((v as u32) as u64) & 0xfff,
            -0x800i32 <= v <= 0x7ffi32,
    ;
    assert(v < 0 ==> u == (v + 0x1000) as u64) by (bit_vector)
        requires
            u == ((v as u32) as u64) & 0xfff,
            -0x800i32 <= v <= 0x7ffi32,
    ;
    lemma_signed12_range(u);
}

/// Unpacking what was packed gives the coordinates back, in either layout.
pub proof fn lemma_pack_unpack(version: u32, x: i32, y: i32, z: i32)
    requires
        in_range(x, y, z),
    ensures
        unpack(version, pack(version, x, y, z)) == (x, y, z),
{
    let a = low26(x);
    let b = low26(z);
    let c = low12(y);
    lemma_low26(x);
    lemma_low26(z);
    lemma_low12(y);
    if version >= NEW_FORMAT_CUTOFF {
        let val = (a << 38) | (b << 12) | c;
        assert(val >> 38 == a && (val << 26) >> 38 == b && val & 0xfff == c) by (bit_vector)
            requires
                val == (a << 38) | (b << 12) | c,
                a < 0x400_0000,
                b < 0x400_0000,
                c < 0x1000,
        ;
    } else {
        let val = (a << 38) | (c << 26) | b;
        assert(val >> 38 == a && (val << 38) >> 38 == b && (val >> 26) & 0xfff == c)
            by (bit_vector)
            requires
                val == (a << 38) | (c << 26) | b,
                a < 0x400_0000,
                b < 0x400_0000,
                c < 0x1000,
        ;
    }
}

/// Three coordinates as `(x, y, z)`.
pub open spec fn position_text(pos: (i32, i32, i32)) -> Seq<char> {
    "("@ + signed_text(pos.0 as int) + ", "@ + signed_text(pos.1 as int) + ", "@ + signed_text(
        pos.2 as int,
    ) + ")"@
}

/// A block position for the protocol version `VERSION`.
#[derive(Debug, Clone, Copy, PartialEq, Eq)]
pub struct PositionField<const VERSION: u32> {
    x: i32,
    y: i32,
    z: i32,
}

/// The signed number that 26 bits stand for.
fn to_signed26(u: u64) -> (v: i32)
    requires
        u < 0x400_0000,
    ensures
        v == signed26(u),
{
    proof {
        lemma_signed26_range(u);
    }
    let mut wide = u as i64;
    if wide >= 0x200_0000 {
        wide = wide - 0x400_0000;
    }
    wide as i32
}

/// The signed number that 12 bits stand for.
fn to_signed12(u: u64) -> (v: i32)
    requires
        u < 0x1000,
    ensures
        v == signed12(u),
{
    proof {
        lemma_signed12_range(u);
    }
    let mut wide = u as i64;
    if wide >= 0x800 {
        wide = wide - 0x1000;
    }
    wide as i32
}

impl<const VERSION: u32> PositionField<VERSION> {
    #[verifier::type_invariant]
    spec fn well_formed(&self) -> bool {
        in_range(self.x, self.y, self.z)
    }

    /// A position at the given coordinates, where x and z each fit 26 bits
    /// and y fits 12 bits with their signs.
    pub fn new(pos: (i32, i32, i32)) -> (field: Option<Self>)
        ensures
            field is Some <==> in_range(pos.0, pos.1, pos.2),
            field matches Some(f) ==> f.model() == pos,
    {
        let (x, y, z) = pos;
        if x < MIN_XZ || x > MAX_XZ || z < MIN_XZ || z > MAX_XZ || y < MIN_Y || y > MAX_Y {
            None
        } else {
            Some(PositionField { x, y, z })
        }
    }

    /// The three coordinates.
    pub fn coordinates(&self) -> (pos: (i32, i32, i32))
        ensures
            pos == self.model(),
            in_range(pos.0, pos.1, pos.2),
    {
        proof {
            use_type_invariant(self);
        }
        (self.x, self.y, self.z)
    }

    /// The position as `(x, y, z)`.
    pub fn to_text(&self) -> (text: String)
        ensures
            text@ == position_text(self.model()),
    {
        let mut out = "(".to_owned();
        push_signed(&mut out, self.x as i64);
        out.append(", ");
        push_signed(&mut out, self.y as i64);
        out.append(", ");
        push_signed(&mut out, self.z as i64);
        out.append(")");
        out
    }

    /// The 64 bits that the position is packed into.
    pub fn packed(&self) -> (val: u64)
        ensures
            val == pack(VERSION, self.model().0, self.model().1, self.model().2),
    {
        let x = (self.x as u32) as u64;
        let y = (self.y as u32) as u64;
        let z = (self.z as u32) as u64;
        if VERSION >= NEW_FORMAT_CUTOFF {
            ((x & 0x3ff_ffff) << 38) | ((z & 0x3ff_ffff) << 12) | (y & 0xfff)
        } else {
            ((x & 0x3ff_ffff) << 38) | ((y & 0xfff) << 26) | (z & 0x3ff_ffff)
        }
    }

    /// The position that 64 bits unpack to.
    pub fn unpacked(val: u64) -> (field: Self)
        ensures
            field.model() == unpack(VERSION, val),
    {
        proof {
            lemma_unpack_in_range(VERSION, val);
            assert(val >> 38 < 0x400_0000) by (bit_vector);
            assert((val << 26) >> 38 < 0x400_0000) by (bit_vector);
            assert((val << 38) >> 38 < 0x400_0000) by (bit_vector);
            assert(val & 0xfff < 0x1000) by (bit_vector);
            assert((val >> 26) & 0xfff < 0x1000) by (bit_vector);
        }
        let x;
        let y;
        let z;
        if VERSION >= NEW_FORMAT_CUTOFF {
            x = val >> 38;
            y = val & 0xfff;
            z = (val << 26) >> 38;
        } else {
            x = val >> 38;
            y = (val >> 26) & 0xfff;
            z = (val << 38) >> 38;
        }
        PositionField { x: to_signed26(x), y: to_signed12(y), z: to_signed26(z) }
    }
}

impl<const VERSION: u32> Field for PositionField<VERSION> {
    type Displayable = Self;

    type Value = (i32, i32, i32);

    closed spec fn model(&self) -> (i32, i32, i32) {
        (self.x, self.y, self.z)
    }

    open spec fn wire(&self) -> Seq<u8> {
        be64(pack(VERSION, self.model().0, self.model().1, self.model().2))
    }

    open spec fn parse(bytes: Seq<u8>) -> (Result<(i32, i32, i32), PacketError>, nat) {
        if bytes.len() < 8 {
            (Err(PacketError::Io(IoError::UnexpectedEof)), bytes.len())
        } else {
            (Ok(unpack(VERSION, from_be64(bytes.subrange(0, 8)))), 8)
        }
    }

    open spec fn displayed(&self) -> Self {
        *self
    }

    fn value(&self) -> (shown: &Self)
        ensures
            *shown == *self,
    {
        self
    }

    fn size(&self) -> (n: usize) {
        8
    }

    fn read_field(r: &mut Cursor) -> (read: PacketResult<Self>) {
        match r.read_exact(8) {
            Ok(buf) => Ok(Self::unpacked(get_be64(buf.as_slice()))),
            Err(e) => Err(PacketError::Io(e)),
        }
    }

    fn write_field(&self, w: &mut Cursor) -> (written: PacketResult<()>) {
        let buf = put_be64(self.packed());
        write_bytes(w, buf.as_slice())
    }
}

/// Reading what was written for a position gives its coordinates back and
/// takes exactly the eight bytes written, whatever follows them and
/// whichever layout the version chooses.
pub proof fn lemma_position_round_trip<const VERSION: u32>(
    field: PositionField<VERSION>,
    rest: Seq<u8>,
)
    requires
        in_range(field.model().0, field.model().1, field.model().2),
    ensures
        PositionField::<VERSION>::parse(field.wire() + rest) == (
            Ok::<(i32, i32, i32), PacketError>(field.model()),
            field.wire().len(),
        ),
        field.wire().len() == 8,
{
    let pos = field.model();
    let val = pack(VERSION, pos.0, pos.1, pos.2);
    lemma_be64(val);
    assert((field.wire() + rest).subrange(0, 8) =~= field.wire());
    lemma_pack_unpack(VERSION, pos.0, pos.1, pos.2);
}

} // verus!
